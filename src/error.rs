//! The errors of a render run.
use crate::naming::strings_view;
use vstd::prelude::*;

verus! {

/// Why a render run stopped. Rows count from 0, the header row; the first
/// record is row 1.
#[derive(Debug, Clone, PartialEq, Eq)]
pub enum RenderError {
    /// A file or directory could not be read or written.
    Io { message: String },
    /// The template path names no file.
    InvalidTemplatePath,
    /// The template does not parse.
    TemplateSyntax,
    /// The data file is malformed: `None` where it cannot be decoded, else the
    /// offending row (the header, for repeated field names).
    DataFormat { row: Option<usize> },
    /// The record on `row` lacks a field that the naming policy names.
    MissingField { row: usize, field: String },
    /// The record on `row` has no field to take its name from.
    EmptyRecord { row: usize },
    /// Rendering the record on `row` failed.
    TemplateRender { row: usize },
    /// An export program could not be run, or exited with a failure; `cause`
    /// says which.
    ExportProcess { program: String, args: Vec<String>, cause: String },
}

/// The model of a `RenderError`.
pub enum ErrorView {
    Io { message: Seq<char> },
    InvalidTemplatePath,
    TemplateSyntax,
    DataFormat { row: Option<nat> },
    MissingField { row: nat, field: Seq<char> },
    EmptyRecord { row: nat },
    TemplateRender { row: nat },
    ExportProcess { program: Seq<char>, args: Seq<Seq<char>>, cause: Seq<char> },
}

impl View for RenderError {
    type V = ErrorView;

    open spec fn view(&self) -> ErrorView {
        match self {
            RenderError::Io { message } => ErrorView::Io { message: message@ },
            RenderError::InvalidTemplatePath => ErrorView::InvalidTemplatePath,
            RenderError::TemplateSyntax => ErrorView::TemplateSyntax,
            RenderError::DataFormat { row } => ErrorView::DataFormat {
                row: match row {
                    Some(k) => Some(*k as nat),
                    None => None,
                },
            },
            RenderError::MissingField { row, field } => ErrorView::MissingField {
                row: *row as nat,
                field: field@,
            },
            RenderError::EmptyRecord { row } => ErrorView::EmptyRecord { row: *row as nat },
            RenderError::TemplateRender { row } => ErrorView::TemplateRender { row: *row as nat },
            RenderError::ExportProcess { program, args, cause } => ErrorView::ExportProcess {
                program: program@,
                args: strings_view(args@),
                cause: cause@,
            },
        }
    }
}

} // verus!
