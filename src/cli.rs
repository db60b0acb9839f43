//! The options of a run, as the command line gives them.
use crate::export::Exporter;
use crate::naming::{strings_view, NamingPolicy};
use vstd::prelude::*;

verus! {

/// The settings of one run.
#[derive(Debug, Clone)]
pub struct Opts {
    /// The verbosity level.
    pub verbose: u8,
    /// The data fields whose values name the rendered files.
    pub field: Option<Vec<String>>,
    /// The template's path.
    pub template: String,
    /// The directory the rendered files go to.
    pub output_dir: String,
    /// The separator between the name's parts.
    pub separator: String,
    /// The converter to export the rendered files with, if any.
    pub export: Option<Exporter>,
}

impl Opts {
    /// The naming policy that the options give: the fields, or none for the
    /// first-field fallback, and the separator.
    pub fn naming_policy(&self) -> (r: NamingPolicy)
        ensures
            r@.0 == (match self.field {
                Some(f) => strings_view(f@),
                None => Seq::empty(),
            }),
            r@.1 == self.separator@,
    {
        let fields = match &self.field {
            Some(f) => f.clone(),
            None => Vec::new(),
        };
        NamingPolicy::from_options(Some(fields), Some(self.separator.as_str()))
    }
}

} // verus!
