//! Templates: a named template source, checked once and rendered per record.
use crate::record::{pairs_view, Record, RecordView};
use vstd::prelude::*;

verus! {

#[verifier::external_type_specification]
#[verifier::external_body]
pub struct ExMinijinjaError(minijinja::Error);

/// Whether the template engine accepts `source`, loaded under `name`.
pub uninterp spec fn template_accepted(name: Seq<char>, source: Seq<char>) -> bool;

/// What the template engine renders from `source`, loaded under `name`, with
/// the record `ctx` as its context; `None` where rendering fails.
pub uninterp spec fn rendered_of(name: Seq<char>, source: Seq<char>, ctx: RecordView) -> Option<
    Seq<char>,
>;

/// Relies on minijinja's `Environment::add_template`, which fails exactly when
/// the source does not parse.
#[verifier::external_body]
fn engine_check(name: &str, source: &str) -> (r: Result<(), minijinja::Error>)
    ensures
        r is Ok == template_accepted(name@, source@),
{
    let mut env = minijinja::Environment::new();
    env.add_template(name, source)
}

/// Relies on minijinja's `Environment::render_named_str`, with undefined
/// values made errors: the record's fields are the context's variables.
#[verifier::external_body]
fn engine_render(name: &str, source: &str, ctx: &Vec<(String, String)>) -> (r: Result<
    String,
    minijinja::Error,
>)
    ensures
        match r {
            Ok(s) => rendered_of(name@, source@, pairs_view(ctx@)) == Some(s@),
            Err(_) => rendered_of(name@, source@, pairs_view(ctx@)) is None,
        },
{
    let mut env = minijinja::Environment::new();
    env.set_undefined_behavior(minijinja::UndefinedBehavior::Strict);
    let map: std::collections::BTreeMap<&str, &str> = ctx.iter().map(
        |(k, v)| (k.as_str(), v.as_str()),
    ).collect();
    env.render_named_str(name, source, map)
}

/// Why a template could not be used.
#[derive(Debug, Clone, Copy, PartialEq, Eq)]
pub enum TemplateError {
    /// The source does not parse.
    Syntax,
    /// Rendering failed, for instance on a field that the record lacks.
    Render,
}

/// A template source bound to a name, known to parse.
pub struct TemplateHandle {
    name: String,
    source: String,
}

impl TemplateHandle {
    pub closed spec fn name_view(&self) -> Seq<char> {
        self.name@
    }

    pub closed spec fn source_view(&self) -> Seq<char> {
        self.source@
    }

    /// The source parses under the name.
    pub closed spec fn wf(&self) -> bool {
        template_accepted(self.name@, self.source@)
    }

    /// Binds `source` to `name`, failing where it does not parse.
    pub fn load(name: String, source: String) -> (r: Result<TemplateHandle, TemplateError>)
        ensures
            r is Ok <==> template_accepted(name@, source@),
            match r {
                Ok(h) => h.wf() && h.name_view() == name@ && h.source_view() == source@,
                Err(e) => e == TemplateError::Syntax,
            },
    {
        match engine_check(name.as_str(), source.as_str()) {
            Ok(()) => Ok(TemplateHandle { name, source }),
            Err(_) => Err(TemplateError::Syntax),
        }
    }

    /// The template's name.
    pub fn name(&self) -> (r: &str)
        ensures
            r@ == self.name_view(),
    {
        self.name.as_str()
    }

    /// The template rendered with `record` as its context; a reference to a
    /// field that the record lacks is an error.
    pub fn render(&self, record: &Record) -> (r: Result<String, TemplateError>)
        ensures
            match r {
                Ok(s) => rendered_of(self.name_view(), self.source_view(), record@) == Some(s@),
                Err(e) => e == TemplateError::Render && rendered_of(
                    self.name_view(),
                    self.source_view(),
                    record@,
                ) is None,
            },
    {
        match engine_render(self.name.as_str(), self.source.as_str(), &record.entries) {
            Ok(s) => Ok(s),
            Err(_) => Err(TemplateError::Render),
        }
    }
}

/// Renders `template`, under the name `template`, with `record` as its
/// context.
pub fn render_record(template: &str, record: &Record) -> (r: Result<String, TemplateError>)
    ensures
        match r {
            Ok(s) => template_accepted("template"@, template@) && rendered_of(
                "template"@,
                template@,
                record@,
            ) == Some(s@),
            Err(TemplateError::Syntax) => !template_accepted("template"@, template@),
            Err(TemplateError::Render) => template_accepted("template"@, template@) && rendered_of(
                "template"@,
                template@,
                record@,
            ) is None,
        },
{
    let handle = TemplateHandle::load("template".to_owned(), template.to_owned())?;
    handle.render(record)
}

} // verus!
