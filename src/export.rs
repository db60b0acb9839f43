//! Export: the external converter invocations that turn rendered files into
//! PDF documents.
use crate::naming::strings_view;
use crate::paths::{with_extension, with_extension_of};
use vstd::prelude::*;

verus! {

/// The external converter to export with.
#[derive(Debug, Copy, Clone, PartialEq, Eq, PartialOrd, Ord)]
pub enum Exporter {
    /// Inkscape, one batch invocation for all files.
    Inkscape,
    /// CairoSVG, one invocation per file with explicit output.
    CairoSVG,
    /// svg2pdf, one invocation per file; the tool names the output.
    SVG2PDF,
}

/// One run of an external program.
#[derive(Debug, Clone, PartialEq, Eq)]
pub struct Invocation {
    pub program: String,
    pub args: Vec<String>,
}

/// The model of an invocation: the program and its arguments.
pub type InvocationView = (Seq<char>, Seq<Seq<char>>);

impl View for Invocation {
    type V = InvocationView;

    open spec fn view(&self) -> InvocationView {
        (self.program@, strings_view(self.args@))
    }
}

/// The view of a sequence of invocations.
pub open spec fn invocations_view(v: Seq<Invocation>) -> Seq<InvocationView> {
    v.map_values(|i: Invocation| i@)
}

/// The PDF file that stands beside `src`.
pub open spec fn pdf_of(src: Seq<char>) -> Seq<char> {
    with_extension_of(src, "pdf"@)
}

/// The one Inkscape invocation for `srcs`.
pub open spec fn inkscape_spec(srcs: Seq<Seq<char>>) -> Seq<InvocationView> {
    seq![
        (
            "inkscape"@,
            seq!["--export-area-drawing"@, "--batch-process"@, "--export-type=pdf"@] + srcs,
        ),
    ]
}

/// The CairoSVG invocation for one file.
pub open spec fn cairosvg_spec(src: Seq<char>) -> InvocationView {
    ("cairosvg"@, seq!["-f"@, "pdf"@, "-o"@, pdf_of(src), src])
}

/// The svg2pdf invocation for one file.
pub open spec fn svg2pdf_spec(src: Seq<char>) -> InvocationView {
    ("svg2pdf"@, seq![src])
}

/// The invocations that export `srcs` with `exporter`.
pub open spec fn export_spec(exporter: Exporter, srcs: Seq<Seq<char>>) -> Seq<InvocationView> {
    match exporter {
        Exporter::Inkscape => inkscape_spec(srcs),
        Exporter::CairoSVG => srcs.map_values(|s: Seq<char>| cairosvg_spec(s)),
        Exporter::SVG2PDF => srcs.map_values(|s: Seq<char>| svg2pdf_spec(s)),
    }
}

/// The input path as given, and the PDF path beside it.
pub fn get_in_out_file(src: &str) -> (r: (String, String))
    ensures
        r.0@ == src@,
        r.1@ == pdf_of(src@),
{
    proof {
        reveal_strlit("pdf");
    }
    (src.to_owned(), with_extension(src, "pdf"))
}

/// One Inkscape invocation that exports every file of `srcs`, cropped to the
/// drawing, in batch mode.
pub fn export_with_inkscape(srcs: &[String]) -> (r: Vec<Invocation>)
    ensures
        invocations_view(r@) == inkscape_spec(strings_view(srcs@)),
{
    let mut args: Vec<String> = vec![
        "--export-area-drawing".to_owned(),
        "--batch-process".to_owned(),
        "--export-type=pdf".to_owned(),
    ];
    let ghost head = strings_view(args@);
    assert(head =~= seq!["--export-area-drawing"@, "--batch-process"@, "--export-type=pdf"@]);
    let mut i: usize = 0;
    while i < srcs.len()
        invariant
            0 <= i <= srcs@.len(),
            strings_view(args@) == head + strings_view(srcs@.subrange(0, i as int)),
        decreases srcs@.len() - i,
    {
        let ghost prev = args@;
        args.push(srcs[i].clone());
        assert(strings_view(args@) =~= strings_view(prev).push(srcs@[i as int]@));
        assert(strings_view(srcs@.subrange(0, i + 1)) =~= strings_view(
            srcs@.subrange(0, i as int),
        ).push(srcs@[i as int]@));
        assert(strings_view(args@) =~= head + strings_view(srcs@.subrange(0, i + 1)));
        i = i + 1;
    }
    assert(srcs@.subrange(0, srcs@.len() as int) =~= srcs@);
    let r = vec![Invocation { program: "inkscape".to_owned(), args }];
    assert(r@[0]@ == inkscape_spec(strings_view(srcs@))[0]);
    assert(invocations_view(r@) =~= inkscape_spec(strings_view(srcs@)));
    r
}

/// One CairoSVG invocation per file of `srcs`, each writing the PDF beside
/// its input.
pub fn export_with_cairosvg(srcs: &[String]) -> (r: Vec<Invocation>)
    ensures
        r@.len() == srcs@.len(),
        forall|i: int| 0 <= i < srcs@.len() ==> (#[trigger] r@[i])@ == cairosvg_spec(srcs@[i]@),
{
    let mut out: Vec<Invocation> = Vec::new();
    let mut i: usize = 0;
    while i < srcs.len()
        invariant
            0 <= i <= srcs@.len(),
            out@.len() == i,
            forall|j: int| 0 <= j < i ==> (#[trigger] out@[j])@ == cairosvg_spec(srcs@[j]@),
        decreases srcs@.len() - i,
    {
        let (in_svg, out_pdf) = get_in_out_file(srcs[i].as_str());
        let args: Vec<String> = vec![
            "-f".to_owned(),
            "pdf".to_owned(),
            "-o".to_owned(),
            out_pdf,
            in_svg,
        ];
        let inv = Invocation { program: "cairosvg".to_owned(), args };
        assert(inv@ =~= cairosvg_spec(srcs@[i as int]@));
        out.push(inv);
        i = i + 1;
    }
    out
}

/// One svg2pdf invocation per file of `srcs`, with the input path alone.
pub fn export_with_svg2pdf(srcs: &[String]) -> (r: Vec<Invocation>)
    ensures
        r@.len() == srcs@.len(),
        forall|i: int| 0 <= i < srcs@.len() ==> (#[trigger] r@[i])@ == svg2pdf_spec(srcs@[i]@),
{
    let mut out: Vec<Invocation> = Vec::new();
    let mut i: usize = 0;
    while i < srcs.len()
        invariant
            0 <= i <= srcs@.len(),
            out@.len() == i,
            forall|j: int| 0 <= j < i ==> (#[trigger] out@[j])@ == svg2pdf_spec(srcs@[j]@),
        decreases srcs@.len() - i,
    {
        let (in_svg, _out_pdf) = get_in_out_file(srcs[i].as_str());
        let args: Vec<String> = vec![in_svg];
        let inv = Invocation { program: "svg2pdf".to_owned(), args };
        assert(inv@ =~= svg2pdf_spec(srcs@[i as int]@));
        out.push(inv);
        i = i + 1;
    }
    out
}

/// The invocations that export `srcs` with `exporter`: one batch for
/// Inkscape, one per file for the others.
pub fn export_invocations(exporter: Exporter, srcs: &[String]) -> (r: Vec<Invocation>)
    ensures
        invocations_view(r@) == export_spec(exporter, strings_view(srcs@)),
{
    match exporter {
        Exporter::Inkscape => export_with_inkscape(srcs),
        Exporter::CairoSVG => {
            let r = export_with_cairosvg(srcs);
            assert(invocations_view(r@) =~= export_spec(exporter, strings_view(srcs@)));
            r
        },
        Exporter::SVG2PDF => {
            let r = export_with_svg2pdf(srcs);
            assert(invocations_view(r@) =~= export_spec(exporter, strings_view(srcs@)));
            r
        },
    }
}

} // verus!
