use svggloo::cli::Opts;
use svggloo::data::read_records;
use svggloo::error::RenderError;
use svggloo::export::{
    export_invocations, export_with_cairosvg, export_with_inkscape, export_with_svg2pdf,
    get_in_out_file, Exporter, Invocation,
};
use svggloo::naming::{compute_name, replace_spaces, NameError, NamingPolicy};
use svggloo::record::Record;
use svggloo::run::{check_template, data_path, render};
use svggloo::template::{render_record, TemplateError, TemplateHandle};

fn record(pairs: &[(&str, &str)]) -> Record {
    let mut r = Record::new();
    for (k, v) in pairs {
        r.insert(k.to_string(), v.to_string());
    }
    r
}

fn policy(fields: &[&str], sep: &str) -> NamingPolicy {
    NamingPolicy::from_options(
        Some(fields.iter().map(|f| f.to_string()).collect()),
        Some(sep),
    )
}

fn strings(v: &[&str]) -> Vec<String> {
    v.iter().map(|s| s.to_string()).collect()
}

#[test]
fn test_get_in_out_file() {
    let src = "brochure.svg";
    let (in_svg, out_pdf) = get_in_out_file(src);
    assert_eq!(in_svg, String::from("brochure.svg"));
    assert_eq!(out_pdf, String::from("brochure.pdf"));
}

#[test]
fn in_out_file_keeps_directories() {
    let (in_svg, out_pdf) = get_in_out_file("out/a.b.svg");
    assert_eq!(in_svg, "out/a.b.svg");
    assert_eq!(out_pdf, "out/a.b.pdf");
}

#[test]
fn name_from_fields() {
    let r = record(&[("country", "USA"), ("state", "CA"), ("city", "Los Angeles")]);
    let p = policy(&["country", "state", "city"], "-");
    assert_eq!(compute_name(&r, &p), Ok("usa-ca-los_angeles".to_string()));
}

#[test]
fn name_fields_in_policy_order() {
    let r = record(&[("country", "USA"), ("state", "CA"), ("city", "Los Angeles")]);
    let p = policy(&["city", "country"], "_X_");
    assert_eq!(compute_name(&r, &p), Ok("los_angeles_X_usa".to_string()));
}

#[test]
fn name_first_field_fallback() {
    let r = record(&[("city", "Austin")]);
    let p = NamingPolicy::from_options(None, None);
    assert_eq!(compute_name(&r, &p), Ok("austin".to_string()));
}

#[test]
fn name_fallback_keeps_spaces() {
    let r = record(&[("city", "New York"), ("state", "NY")]);
    let p = NamingPolicy::from_options(None, None);
    assert_eq!(compute_name(&r, &p), Ok("new york".to_string()));
}

#[test]
fn name_replaces_all_white_space() {
    let r = record(&[("a", "X\tY Z\u{a0}W")]);
    let p = policy(&["a"], "-");
    assert_eq!(compute_name(&r, &p), Ok("x_y_z_w".to_string()));
    assert_eq!(replace_spaces("a b\nc"), "a_b_c");
}

#[test]
fn name_missing_field() {
    let r = record(&[("city", "Austin")]);
    let p = policy(&["city", "state", "zip"], "-");
    assert_eq!(
        compute_name(&r, &p),
        Err(NameError::MissingField { field: "state".to_string() })
    );
}

#[test]
fn name_empty_record() {
    let r = Record::new();
    let p = NamingPolicy::from_options(None, None);
    assert_eq!(compute_name(&r, &p), Err(NameError::EmptyRecord));
}

#[test]
fn name_is_deterministic() {
    let r = record(&[("country", "USA"), ("city", "Los Angeles")]);
    let p = policy(&["country", "city"], "+");
    assert_eq!(compute_name(&r, &p), compute_name(&r, &p));
}

#[test]
fn separator_defaults_to_dash() {
    let p = NamingPolicy::from_options(Some(strings(&["a"])), None);
    assert_eq!(p.separator, "-");
    assert!(NamingPolicy::from_options(None, None).fields.is_empty());
}

#[test]
fn record_insert_and_get() {
    let mut r = record(&[("a", "1"), ("b", "2")]);
    r.insert("a".to_string(), "3".to_string());
    assert_eq!(r.len(), 2);
    assert_eq!(r.get(&"a".to_string()), Some(&"3".to_string()));
    assert_eq!(r.get(&"b".to_string()), Some(&"2".to_string()));
    assert_eq!(r.get(&"c".to_string()), None);
    assert_eq!(r.entries[0].0, "a");
}

#[test]
fn render_record_substitutes() {
    let r = record(&[("city", "Austin")]);
    assert_eq!(
        render_record("This is {{city}}.", &r),
        Ok("This is Austin.".to_string())
    );
}

#[test]
fn render_record_missing_field_fails() {
    let r = record(&[("city", "Austin")]);
    assert_eq!(
        render_record("This is {{state}}.", &r),
        Err(TemplateError::Render)
    );
}

#[test]
fn render_record_syntax_error() {
    let r = record(&[("city", "Austin")]);
    assert_eq!(
        render_record("{% if city %}open", &r),
        Err(TemplateError::Syntax)
    );
}

#[test]
fn handle_renders_many_records() {
    let h = TemplateHandle::load("t.svg".to_string(), "<t>{{a}}</t>".to_string()).unwrap();
    assert_eq!(h.name(), "t.svg");
    assert_eq!(h.render(&record(&[("a", "1")])), Ok("<t>1</t>".to_string()));
    assert_eq!(h.render(&record(&[("a", "2")])), Ok("<t>2</t>".to_string()));
    assert_eq!(h.render(&record(&[("b", "2")])), Err(TemplateError::Render));
}

#[test]
fn records_from_csv() {
    let recs = read_records(b"city,state\nAustin,TX\nDallas,TX\n").unwrap();
    assert_eq!(recs.len(), 2);
    assert_eq!(recs[1].entries[0], ("city".to_string(), "Dallas".to_string()));
    assert_eq!(recs[1].entries[1], ("state".to_string(), "TX".to_string()));
    assert_eq!(read_records(b"").unwrap().len(), 0);
}

#[test]
fn records_column_count_mismatch() {
    let r = read_records(b"city,state\nAustin,TX\nDallas\n");
    assert!(matches!(r, Err(RenderError::DataFormat { row: Some(2) })));
}

#[test]
fn records_duplicate_header() {
    let r = read_records(b"city,city\nAustin,Dallas\n");
    assert!(matches!(r, Err(RenderError::DataFormat { row: Some(0) })));
}

#[test]
fn records_invalid_utf8() {
    let r = read_records(b"city\n\xff\xfe\n");
    assert!(matches!(r, Err(RenderError::DataFormat { row: None })));
}

#[test]
fn data_path_swaps_extension() {
    assert_eq!(data_path("examples/brochure.svg"), "examples/brochure.csv");
}

const DATA: &[u8] = b"country,state,city\nUSA,CA,Los Angeles\nUSA,TX,Austin\nUSA,NY,New York\n";

#[test]
fn run_one_file_per_row() {
    let p = policy(&["country", "state", "city"], "-");
    let plan = render("t/card.svg", "<svg>{{city}}</svg>", DATA, "out", None, &p).unwrap();
    let paths: Vec<&str> = plan.files.iter().map(|f| f.path.as_str()).collect();
    assert_eq!(
        paths,
        vec![
            "out/usa-ca-los_angeles.svg",
            "out/usa-tx-austin.svg",
            "out/usa-ny-new_york.svg"
        ]
    );
    assert_eq!(plan.files[2].content, "<svg>New York</svg>");
    assert!(plan.exports.is_empty());
}

#[test]
fn run_is_idempotent() {
    let p = policy(&["city"], "-");
    let first = render("card.svg", "{{state}}", DATA, "out", None, &p).unwrap();
    let second = render("card.svg", "{{state}}", DATA, "out", None, &p).unwrap();
    assert_eq!(first, second);
}

#[test]
fn run_without_extension() {
    let p = NamingPolicy::from_options(None, None);
    let plan = render("card", "x", b"k\nA B\n", "o", None, &p).unwrap();
    assert_eq!(plan.files[0].path, "o/a b");
}

#[test]
fn run_render_error_stops() {
    let p = policy(&["city"], "-");
    let r = render("card.svg", "{{zip}}", DATA, "out", None, &p);
    assert_eq!(r, Err(RenderError::TemplateRender { row: 1 }));
}

#[test]
fn run_missing_naming_field() {
    let p = policy(&["city", "zip"], "-");
    let r = render("card.svg", "{{city}}", DATA, "out", None, &p);
    assert_eq!(
        r,
        Err(RenderError::MissingField { row: 1, field: "zip".to_string() })
    );
}

#[test]
fn run_template_syntax_error() {
    let p = policy(&["city"], "-");
    let r = render("card.svg", "{% for %}", DATA, "out", None, &p);
    assert_eq!(r, Err(RenderError::TemplateSyntax));
}

#[test]
fn run_invalid_template_path() {
    let p = policy(&["city"], "-");
    let r = render("..", "{{city}}", DATA, "out", None, &p);
    assert_eq!(r, Err(RenderError::InvalidTemplatePath));
}

#[test]
fn run_bad_data() {
    let p = policy(&["city"], "-");
    let r = render("card.svg", "{{city}}", b"city\nA,B\n", "out", None, &p);
    assert_eq!(r, Err(RenderError::DataFormat { row: Some(1) }));
}

#[test]
fn run_with_batch_export() {
    let p = policy(&["city"], "-");
    let plan = render("card.svg", "{{city}}", DATA, "out", Some(Exporter::Inkscape), &p).unwrap();
    assert_eq!(plan.exports.len(), 1);
    assert_eq!(plan.exports[0].program, "inkscape");
    assert_eq!(
        plan.exports[0].args,
        strings(&[
            "--export-area-drawing",
            "--batch-process",
            "--export-type=pdf",
            "out/los_angeles.svg",
            "out/austin.svg",
            "out/new_york.svg"
        ])
    );
}

#[test]
fn cairosvg_one_invocation_per_file() {
    let inv = export_with_cairosvg(&strings(&["a.svg", "b.svg"]));
    assert_eq!(
        inv,
        vec![
            Invocation {
                program: "cairosvg".to_string(),
                args: strings(&["-f", "pdf", "-o", "a.pdf", "a.svg"]),
            },
            Invocation {
                program: "cairosvg".to_string(),
                args: strings(&["-f", "pdf", "-o", "b.pdf", "b.svg"]),
            },
        ]
    );
}

#[test]
fn svg2pdf_input_only() {
    let inv = export_with_svg2pdf(&strings(&["a.svg", "b.svg"]));
    assert_eq!(inv.len(), 2);
    assert_eq!(inv[1].program, "svg2pdf");
    assert_eq!(inv[1].args, strings(&["b.svg"]));
}

#[test]
fn inkscape_single_batch() {
    let inv = export_with_inkscape(&strings(&["a.svg"]));
    assert_eq!(inv.len(), 1);
    assert_eq!(
        inv[0].args,
        strings(&["--export-area-drawing", "--batch-process", "--export-type=pdf", "a.svg"])
    );
    assert!(export_invocations(Exporter::CairoSVG, &[]).is_empty());
}

#[test]
fn opts_give_policy() {
    let o = Opts {
        verbose: 0,
        field: Some(strings(&["city"])),
        template: "card.svg".to_string(),
        output_dir: "output".to_string(),
        separator: "_".to_string(),
        export: None,
    };
    let p = o.naming_policy();
    assert_eq!(p.fields, strings(&["city"]));
    assert_eq!(p.separator, "_");
}

#[test]
fn template_checked_before_data() {
    assert_eq!(check_template("card.svg", "{{city}}"), Ok(()));
    assert_eq!(
        check_template("card.svg", "{% for %}"),
        Err(RenderError::TemplateSyntax)
    );
    assert_eq!(
        check_template("..", "{{city}}"),
        Err(RenderError::InvalidTemplatePath)
    );
}
