//! Data-driven document generation: merges the rows of a CSV file into a
//! template, names each rendered document after chosen fields of its row, and
//! plans the external conversions of the results.

pub mod record;
pub mod naming;
pub mod template;
pub mod paths;
pub mod export;
pub mod error;
pub mod data;
pub mod run;
pub mod cli;
