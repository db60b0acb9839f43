//! The render orchestrator: from a template, its data and a naming policy to
//! the files to write and the export invocations to run after them.
use crate::data::{csv_rows_of, read_records, records_of, rows_fit};
use crate::error::{ErrorView, RenderError};
use crate::export::{export_invocations, export_spec, invocations_view, Exporter, Invocation};
use crate::naming::{can_name, compute_name, first_missing_at, name_of, NameError, NamingPolicy, PolicyView};
use crate::paths::{extension, extension_of, file_name, file_name_of, join, joined_of, with_extension, with_extension_of};
use crate::record::RecordView;
use crate::template::{rendered_of, template_accepted, TemplateHandle};
use vstd::prelude::*;

verus! {

/// A rendered document and the path it is to be written to.
#[derive(Debug, Clone, PartialEq, Eq)]
pub struct RenderedFile {
    pub path: String,
    pub content: String,
}

impl View for RenderedFile {
    type V = (Seq<char>, Seq<char>);

    open spec fn view(&self) -> (Seq<char>, Seq<char>) {
        (self.path@, self.content@)
    }
}

/// What a run produces: the files, in record order, and the export
/// invocations to run once they are written.
#[derive(Debug, Clone, PartialEq, Eq)]
pub struct RenderPlan {
    pub files: Vec<RenderedFile>,
    pub exports: Vec<Invocation>,
}

/// The view of a sequence of rendered files.
pub open spec fn files_view(v: Seq<RenderedFile>) -> Seq<(Seq<char>, Seq<char>)> {
    v.map_values(|f: RenderedFile| f@)
}

/// The path of the data file that goes with a template.
pub open spec fn data_path_of(template_path: Seq<char>) -> Seq<char> {
    with_extension_of(template_path, "csv"@)
}

/// The file name for a document named `base`, with the template's extension.
pub open spec fn output_name(base: Seq<char>, ext: Option<Seq<char>>) -> Seq<char> {
    match ext {
        Some(e) => base + "."@ + e,
        None => base,
    }
}

/// The record can be named and rendered.
pub open spec fn record_renders(
    tname: Seq<char>,
    tsrc: Seq<char>,
    pol: PolicyView,
    rec: RecordView,
) -> bool {
    can_name(rec, pol) && rendered_of(tname, tsrc, rec) is Some
}

/// The path and content of the document for one record.
pub open spec fn artifact_of(
    tname: Seq<char>,
    tsrc: Seq<char>,
    dir: Seq<char>,
    ext: Option<Seq<char>>,
    pol: PolicyView,
    rec: RecordView,
) -> (Seq<char>, Seq<char>) {
    (joined_of(dir, output_name(name_of(rec, pol), ext)), rendered_of(tname, tsrc, rec)->0)
}

/// How the record on `row` fails, where it does not render.
pub open spec fn record_failure(
    tname: Seq<char>,
    tsrc: Seq<char>,
    pol: PolicyView,
    rec: RecordView,
    row: nat,
    e: ErrorView,
) -> bool {
    if !can_name(rec, pol) {
        if pol.0.len() == 0 {
            e == ErrorView::EmptyRecord { row }
        } else {
            exists|i: int|
                first_missing_at(rec, pol.0, i) && e == ErrorView::MissingField {
                    row,
                    field: pol.0[i],
                }
        }
    } else {
        e == ErrorView::TemplateRender { row }
    }
}

/// The records of a run's data.
pub open spec fn run_records(data: Seq<u8>) -> Seq<RecordView> {
    records_of(csv_rows_of(data)->0)
}

/// A run succeeds: the template path names a file, the template parses, the
/// data makes records, and every record can be named and rendered.
pub open spec fn run_ok(tpath: Seq<char>, tsrc: Seq<char>, data: Seq<u8>, pol: PolicyView) -> bool {
    &&& file_name_of(tpath) is Some
    &&& template_accepted(file_name_of(tpath)->0, tsrc)
    &&& csv_rows_of(data) matches Some(rows) && rows_fit(rows)
    &&& forall|k: int|
        0 <= k < run_records(data).len() ==> record_renders(
            file_name_of(tpath)->0,
            tsrc,
            pol,
            #[trigger] run_records(data)[k],
        )
}

/// The documents of a successful run, one per record, in record order.
pub open spec fn run_files(
    tpath: Seq<char>,
    tsrc: Seq<char>,
    data: Seq<u8>,
    dir: Seq<char>,
    pol: PolicyView,
) -> Seq<(Seq<char>, Seq<char>)> {
    run_records(data).map_values(
        |rec: RecordView|
            artifact_of(file_name_of(tpath)->0, tsrc, dir, extension_of(tpath), pol, rec),
    )
}

/// The export invocations of a successful run.
pub open spec fn run_exports(
    exporter: Option<Exporter>,
    files: Seq<(Seq<char>, Seq<char>)>,
) -> Seq<(Seq<char>, Seq<Seq<char>>)> {
    match exporter {
        Some(x) => export_spec(x, files.map_values(|f: (Seq<char>, Seq<char>)| f.0)),
        None => Seq::empty(),
    }
}

/// `e` is how a run fails: at the first stage that fails, and for the
/// records at the first one that does not render.
pub open spec fn run_failure(
    tpath: Seq<char>,
    tsrc: Seq<char>,
    data: Seq<u8>,
    pol: PolicyView,
    e: ErrorView,
) -> bool {
    match file_name_of(tpath) {
        None => e == ErrorView::InvalidTemplatePath,
        Some(tname) => if !template_accepted(tname, tsrc) {
            e == ErrorView::TemplateSyntax
        } else {
            match csv_rows_of(data) {
                None => e == ErrorView::DataFormat { row: None },
                Some(rows) => if !rows_fit(rows) {
                    exists|k: int|
                        crate::data::first_bad_row(rows, k) && e == ErrorView::DataFormat {
                            row: Some(k as nat),
                        }
                } else {
                    exists|k: int|
                        0 <= k < records_of(rows).len() && (forall|j: int|
                            0 <= j < k ==> record_renders(
                                tname,
                                tsrc,
                                pol,
                                #[trigger] records_of(rows)[j],
                            )) && !record_renders(tname, tsrc, pol, records_of(rows)[k])
                            && record_failure(tname, tsrc, pol, records_of(rows)[k], (k + 1) as nat, e)
                },
            }
        },
    }
}

/// A run whose records render up to `k`, where the record at `k` fails with
/// `e`, fails with `e`.
proof fn lemma_failure_at(
    tpath: Seq<char>,
    tsrc: Seq<char>,
    data: Seq<u8>,
    pol: PolicyView,
    k: int,
    e: ErrorView,
)
    requires
        file_name_of(tpath) is Some,
        template_accepted(file_name_of(tpath)->0, tsrc),
        csv_rows_of(data) matches Some(rows) && rows_fit(rows),
        0 <= k < run_records(data).len(),
        forall|j: int|
            0 <= j < k ==> record_renders(
                file_name_of(tpath)->0,
                tsrc,
                pol,
                #[trigger] run_records(data)[j],
            ),
        !record_renders(file_name_of(tpath)->0, tsrc, pol, run_records(data)[k]),
        record_failure(file_name_of(tpath)->0, tsrc, pol, run_records(data)[k], (k + 1) as nat, e),
    ensures
        run_failure(tpath, tsrc, data, pol, e),
{
}

/// The path of the data file that goes with a template: the template's path
/// with the extension `csv`.
pub fn data_path(template_path: &str) -> (r: String)
    ensures
        r@ == data_path_of(template_path@),
{
    proof {
        reveal_strlit("csv");
    }
    with_extension(template_path, "csv")
}

/// Checks the template before its data is read: its path must name a file,
/// and its source must parse under that name.
pub fn check_template(template_path: &str, template_source: &str) -> (r: Result<(), RenderError>)
    ensures
        r is Ok <==> (file_name_of(template_path@) is Some && template_accepted(
            file_name_of(template_path@)->0,
            template_source@,
        )),
        match r {
            Ok(()) => true,
            Err(e) => if file_name_of(template_path@) is None {
                e@ == ErrorView::InvalidTemplatePath
            } else {
                e@ == ErrorView::TemplateSyntax
            },
        },
{
    let tname = match file_name(template_path) {
        Some(n) => n,
        None => return Err(RenderError::InvalidTemplatePath),
    };
    match TemplateHandle::load(tname, template_source.to_owned()) {
        Ok(_) => Ok(()),
        Err(_) => Err(RenderError::TemplateSyntax),
    }
}

/// The file name for a document named `base`, with extension `ext`.
pub fn output_file_name(base: String, ext: &Option<String>) -> (r: String)
    ensures
        r@ == output_name(
            base@,
            match ext {
                Some(e) => Some(e@),
                None => None,
            },
        ),
{
    match ext {
        Some(e) => {
            let mut name = base;
            name.append(".");
            name.append(e.as_str());
            name
        },
        None => base,
    }
}

/// Renders one document per record of the CSV text `data` with the template
/// `template_source` found at `template_path`. Each document is to be written
/// to `output_dir`, named after its record by `policy`, with the template's
/// extension. Where `exporter` is given, the plan also holds the invocations
/// that export all documents at once. The first failure stops the run.
pub fn render(
    template_path: &str,
    template_source: &str,
    data: &[u8],
    output_dir: &str,
    exporter: Option<Exporter>,
    policy: &NamingPolicy,
) -> (r: Result<RenderPlan, RenderError>)
    ensures
        r is Ok <==> run_ok(template_path@, template_source@, data@, policy@),
        match r {
            Ok(plan) => {
                &&& files_view(plan.files@) == run_files(
                    template_path@,
                    template_source@,
                    data@,
                    output_dir@,
                    policy@,
                )
                &&& invocations_view(plan.exports@) == run_exports(exporter, files_view(plan.files@))
            },
            Err(e) => run_failure(template_path@, template_source@, data@, policy@, e@),
        },
{
    let tname = match file_name(template_path) {
        Some(n) => n,
        None => return Err(RenderError::InvalidTemplatePath),
    };
    let ghost tn = tname@;
    let handle = match TemplateHandle::load(tname, template_source.to_owned()) {
        Ok(h) => h,
        Err(_) => return Err(RenderError::TemplateSyntax),
    };
    let ext = extension(template_path);
    let ghost extv = extension_of(template_path@);
    let records = read_records(data)?;
    let ghost recs = run_records(data@);
    let ghost tsrc = template_source@;
    let ghost dir = output_dir@;
    let ghost pol = policy@;
    let mut files: Vec<RenderedFile> = Vec::new();
    let mut paths: Vec<String> = Vec::new();
    let mut k: usize = 0;
    while k < records.len()
        invariant
            file_name_of(template_path@) == Some(tn),
            template_accepted(tn, tsrc),
            csv_rows_of(data@) matches Some(rows) && rows_fit(rows),
            handle.name_view() == tn,
            handle.source_view() == tsrc,
            tsrc == template_source@,
            dir == output_dir@,
            pol == policy@,
            extv == extension_of(template_path@),
            extv == (match ext {
                Some(e) => Some(e@),
                None => None::<Seq<char>>,
            }),
            recs == run_records(data@),
            crate::data::records_view(records@) == recs,
            0 <= k <= records@.len(),
            files@.len() == k,
            paths@.len() == k,
            forall|j: int| 0 <= j < k ==> record_renders(tn, tsrc, pol, #[trigger] recs[j]),
            forall|j: int|
                0 <= j < k ==> (#[trigger] files@[j])@ == artifact_of(tn, tsrc, dir, extv, pol, recs[j]),
            forall|j: int| 0 <= j < k ==> (#[trigger] paths@[j])@ == files@[j].path@,
        decreases records@.len() - k,
    {
        let rec = &records[k];
        assert(rec@ == recs[k as int]);
        let base = match compute_name(rec, policy) {
            Ok(n) => n,
            Err(NameError::MissingField { field }) => {
                let err = RenderError::MissingField { row: k + 1, field };
                proof {
                    let i = choose|i: int| first_missing_at(rec@, pol.0, i) && field@ == pol.0[i];
                    assert(record_failure(tn, tsrc, pol, recs[k as int], (k + 1) as nat, err@));
                    lemma_failure_at(template_path@, template_source@, data@, pol, k as int, err@);
                }
                return Err(err);
            },
            Err(NameError::EmptyRecord) => {
                let err = RenderError::EmptyRecord { row: k + 1 };
                proof {
                    lemma_failure_at(template_path@, template_source@, data@, pol, k as int, err@);
                }
                return Err(err);
            },
        };
        let content = match handle.render(rec) {
            Ok(s) => s,
            Err(_) => {
                let err = RenderError::TemplateRender { row: k + 1 };
                proof {
                    lemma_failure_at(template_path@, template_source@, data@, pol, k as int, err@);
                }
                return Err(err);
            },
        };
        let fname = output_file_name(base, &ext);
        let path = join(output_dir, fname.as_str());
        paths.push(path.clone());
        files.push(RenderedFile { path, content });
        k = k + 1;
    }
    proof {
        assert(files_view(files@) =~= run_files(
            template_path@,
            template_source@,
            data@,
            output_dir@,
            policy@,
        ));
        assert(crate::naming::strings_view(paths@) =~= files_view(files@).map_values(
            |f: (Seq<char>, Seq<char>)| f.0,
        ));
    }
    let exports = match exporter {
        Some(x) => export_invocations(x, paths.as_slice()),
        None => Vec::new(),
    };
    proof {
        if exporter is None {
            assert(invocations_view(exports@) =~= Seq::empty());
        }
    }
    Ok(RenderPlan { files, exports })
}

/// A successful run without export gives one document per data row, in row
/// order, each at the path that the naming policy gives its record, and no
/// export invocation.
pub proof fn lemma_one_document_per_row(
    tpath: Seq<char>,
    tsrc: Seq<char>,
    data: Seq<u8>,
    dir: Seq<char>,
    pol: PolicyView,
    plan: RenderPlan,
)
    requires
        run_ok(tpath, tsrc, data, pol),
        files_view(plan.files@) == run_files(tpath, tsrc, data, dir, pol),
        invocations_view(plan.exports@) == run_exports(None, files_view(plan.files@)),
    ensures
        plan.files@.len() + 1 == csv_rows_of(data)->0.len() || (plan.files@.len() == 0
            && csv_rows_of(data)->0.len() == 0),
        forall|k: int|
            0 <= k < plan.files@.len() ==> (#[trigger] plan.files@[k]).path@ == joined_of(
                dir,
                output_name(name_of(run_records(data)[k], pol), extension_of(tpath)),
            ),
        plan.exports@.len() == 0,
{
    assert(files_view(plan.files@).len() == plan.files@.len());
    assert(run_files(tpath, tsrc, data, dir, pol).len() == run_records(data).len());
    assert forall|k: int| 0 <= k < plan.files@.len() implies (#[trigger] plan.files@[k]).path@
        == joined_of(dir, output_name(name_of(run_records(data)[k], pol), extension_of(tpath))) by {
        assert(files_view(plan.files@)[k] == plan.files@[k]@);
        assert(run_files(tpath, tsrc, data, dir, pol)[k] == artifact_of(
            file_name_of(tpath)->0,
            tsrc,
            dir,
            extension_of(tpath),
            pol,
            run_records(data)[k],
        ));
    }
    assert(invocations_view(plan.exports@).len() == plan.exports@.len());
}

/// Running again on the same inputs gives the same documents at the same
/// paths, so rewriting the output directory leaves identical files.
pub proof fn lemma_rerun_same_documents(
    tpath: Seq<char>,
    tsrc: Seq<char>,
    data: Seq<u8>,
    dir: Seq<char>,
    pol: PolicyView,
    exporter: Option<Exporter>,
    first: RenderPlan,
    second: RenderPlan,
)
    requires
        files_view(first.files@) == run_files(tpath, tsrc, data, dir, pol),
        invocations_view(first.exports@) == run_exports(exporter, files_view(first.files@)),
        files_view(second.files@) == run_files(tpath, tsrc, data, dir, pol),
        invocations_view(second.exports@) == run_exports(exporter, files_view(second.files@)),
    ensures
        files_view(first.files@) == files_view(second.files@),
        invocations_view(first.exports@) == invocations_view(second.exports@),
{
}

} // verus!
