//! Output names: a deterministic identifier for a record under a naming policy.
use crate::record::{lookup, Record, RecordView};
use vstd::prelude::*;

verus! {

/// The characters with Unicode's White_Space property.
pub open spec fn is_white_space(c: char) -> bool {
    ('\u{9}' <= c && c <= '\u{d}') || c == ' ' || c == '\u{85}' || c == '\u{a0}' || c
        == '\u{1680}' || ('\u{2000}' <= c && c <= '\u{200a}') || c == '\u{2028}' || c
        == '\u{2029}' || c == '\u{202f}' || c == '\u{205f}' || c == '\u{3000}'
}

/// `s` with every white-space character replaced by an underscore.
pub open spec fn underscore_spaces(s: Seq<char>) -> Seq<char> {
    s.map_values(|c: char| if is_white_space(c) { '_' } else { c })
}

/// What `str::to_lowercase` makes of a string.
pub uninterp spec fn lower_of(s: Seq<char>) -> Seq<char>;

/// The part of a name that one field value gives: white space to underscores,
/// then lower case.
pub open spec fn field_part(v: Seq<char>) -> Seq<char> {
    lower_of(underscore_spaces(v))
}

/// `parts` joined with `sep` between each two neighbours.
pub open spec fn join_with(parts: Seq<Seq<char>>, sep: Seq<char>) -> Seq<char>
    decreases parts.len(),
{
    if parts.len() == 0 {
        Seq::empty()
    } else if parts.len() == 1 {
        parts[0]
    } else {
        join_with(parts.drop_last(), sep) + sep + parts.last()
    }
}

/// The value of `key` in `rec`, or the empty string.
pub open spec fn value_or_empty(rec: RecordView, key: Seq<char>) -> Seq<char> {
    match lookup(rec, key) {
        Some(v) => v,
        None => Seq::empty(),
    }
}

/// The model of a naming policy: the field names in order, and the separator.
pub type PolicyView = (Seq<Seq<char>>, Seq<char>);

/// Whether `rec` can be named under `pol`: every policy field is present, or,
/// with no policy fields, the record has a first field.
pub open spec fn can_name(rec: RecordView, pol: PolicyView) -> bool {
    if pol.0.len() == 0 {
        rec.len() > 0
    } else {
        forall|i: int| 0 <= i < pol.0.len() ==> (#[trigger] lookup(rec, pol.0[i])) is Some
    }
}

/// The name of `rec` under `pol` (meaningful where `can_name` holds): the
/// cleaned values of the policy fields joined by the separator, or, with no
/// policy fields, the first value in lower case with no substitution.
pub open spec fn name_of(rec: RecordView, pol: PolicyView) -> Seq<char> {
    if pol.0.len() == 0 {
        lower_of(rec[0].1)
    } else {
        join_with(pol.0.map_values(|f: Seq<char>| field_part(value_or_empty(rec, f))), pol.1)
    }
}

/// The first policy field that `rec` lacks is at index `i`.
pub open spec fn first_missing_at(rec: RecordView, fields: Seq<Seq<char>>, i: int) -> bool {
    &&& 0 <= i < fields.len()
    &&& lookup(rec, fields[i]) is None
    &&& forall|j: int| 0 <= j < i ==> (#[trigger] lookup(rec, fields[j])) is Some
}

/// Why a record could not be named.
#[derive(Debug, Clone, PartialEq, Eq)]
pub enum NameError {
    /// A field of the policy is absent from the record.
    MissingField { field: String },
    /// No policy fields were given and the record has no field to fall back on.
    EmptyRecord,
}

/// How output files are named: the fields whose values make up the name, in
/// order, and the separator between them.
#[derive(Debug, Clone)]
pub struct NamingPolicy {
    pub fields: Vec<String>,
    pub separator: String,
}

/// The view of a sequence of strings.
pub open spec fn strings_view(v: Seq<String>) -> Seq<Seq<char>> {
    v.map_values(|s: String| s@)
}

impl View for NamingPolicy {
    type V = PolicyView;

    open spec fn view(&self) -> PolicyView {
        (strings_view(self.fields@), self.separator@)
    }
}

impl NamingPolicy {
    /// A policy from optional settings: no fields means the first-field
    /// fallback, and the separator defaults to a dash.
    pub fn from_options(fields: Option<Vec<String>>, separator: Option<&str>) -> (r: NamingPolicy)
        ensures
            r@.0 == (match fields {
                Some(f) => strings_view(f@),
                None => Seq::empty(),
            }),
            r@.1 == (match separator {
                Some(s) => s@,
                None => "-"@,
            }),
    {
        let fields = match fields {
            Some(f) => f,
            None => Vec::new(),
        };
        let separator = match separator {
            Some(s) => s.to_owned(),
            None => "-".to_owned(),
        };
        NamingPolicy { fields, separator }
    }
}

/// Relies on `String::push`: appends one character.
#[verifier::external_body]
fn push_char(s: &mut String, c: char)
    ensures
        final(s)@ == old(s)@.push(c),
{
    s.push(c)
}

/// Relies on `str::to_lowercase`: the result depends on the characters alone.
#[verifier::external_body]
fn lowercase(s: &str) -> (r: String)
    ensures
        r@ == lower_of(s@),
{
    s.to_lowercase()
}

/// Whether `c` is a white-space character, as `char::is_whitespace` has it.
pub fn is_white_space_char(c: char) -> (r: bool)
    ensures
        r == is_white_space(c),
{
    ('\u{9}' <= c && c <= '\u{d}') || c == ' ' || c == '\u{85}' || c == '\u{a0}' || c
        == '\u{1680}' || ('\u{2000}' <= c && c <= '\u{200a}') || c == '\u{2028}' || c
        == '\u{2029}' || c == '\u{202f}' || c == '\u{205f}' || c == '\u{3000}'
}

/// `s` with every white-space character replaced by an underscore.
pub fn replace_spaces(s: &str) -> (r: String)
    ensures
        r@ == underscore_spaces(s@),
{
    let n = s.unicode_len();
    let mut out = String::new();
    let mut i: usize = 0;
    while i < n
        invariant
            n == s@.len(),
            0 <= i <= n,
            out@ == underscore_spaces(s@.subrange(0, i as int)),
        decreases n - i,
    {
        let c = s.get_char(i);
        if is_white_space_char(c) {
            push_char(&mut out, '_');
        } else {
            push_char(&mut out, c);
        }
        assert(s@.subrange(0, i + 1) =~= s@.subrange(0, i as int).push(c));
        i = i + 1;
    }
    assert(s@.subrange(0, n as int) =~= s@);
    out
}

/// The name of `record` under `policy`, without a file extension.
///
/// With policy fields, each field's value has its white space replaced by
/// underscores and is lower-cased; the results are joined with the separator.
/// Without, the first value of the record is lower-cased as it stands.
pub fn compute_name(record: &Record, policy: &NamingPolicy) -> (r: Result<String, NameError>)
    ensures
        r is Ok <==> can_name(record@, policy@),
        match r {
            Ok(name) => name@ == name_of(record@, policy@),
            Err(NameError::MissingField { field }) => exists|i: int|
                first_missing_at(record@, policy@.0, i) && field@ == policy@.0[i],
            Err(NameError::EmptyRecord) => policy@.0.len() == 0 && record@.len() == 0,
        },
{
    let fields = &policy.fields;
    let nf = fields.len();
    if nf == 0 {
        if record.entries.len() == 0 {
            return Err(NameError::EmptyRecord);
        }
        return Ok(lowercase(record.entries[0].1.as_str()));
    }
    let ghost all = policy@.0.map_values(|f: Seq<char>| field_part(value_or_empty(record@, f)));
    let mut parts: Vec<String> = Vec::new();
    let mut i: usize = 0;
    while i < nf
        invariant
            nf == fields.len(),
            fields == policy.fields,
            nf > 0,
            0 <= i <= nf,
            all == policy@.0.map_values(|f: Seq<char>| field_part(value_or_empty(record@, f))),
            forall|j: int| 0 <= j < i ==> (#[trigger] lookup(record@, policy@.0[j])) is Some,
            strings_view(parts@) == all.subrange(0, i as int),
        decreases nf - i,
    {
        match record.get(&fields[i]) {
            None => {
                assert(first_missing_at(record@, policy@.0, i as int));
                return Err(NameError::MissingField { field: fields[i].clone() });
            },
            Some(v) => {
                let cleaned = replace_spaces(v.as_str());
                let part = lowercase(cleaned.as_str());
                let ghost prev = parts@;
                parts.push(part);
                assert(strings_view(parts@) =~= all.subrange(0, i + 1)) by {
                    assert(strings_view(parts@) =~= strings_view(prev).push(part@));
                }
            },
        }
        i = i + 1;
    }
    assert(all.subrange(0, nf as int) =~= all);
    Ok(join_parts(&parts, policy.separator.as_str()))
}

/// `parts` joined with `sep` between each two neighbours.
pub fn join_parts(parts: &Vec<String>, sep: &str) -> (r: String)
    ensures
        r@ == join_with(strings_view(parts@), sep@),
{
    let ghost all = strings_view(parts@);
    let mut out = String::new();
    let mut i: usize = 0;
    while i < parts.len()
        invariant
            all == strings_view(parts@),
            0 <= i <= parts@.len(),
            out@ == join_with(all.subrange(0, i as int), sep@),
        decreases parts@.len() - i,
    {
        if i > 0 {
            out.append(sep);
        }
        out.append(parts[i].as_str());
        assert(all.subrange(0, i + 1).drop_last() =~= all.subrange(0, i as int));
        assert(join_with(all.subrange(0, i + 1), sep@) == out@) by {
            if i == 0 {
                assert(out@ =~= all[0]);
            }
        }
        i = i + 1;
    }
    assert(all.subrange(0, parts@.len() as int) =~= all);
    out
}

/// Naming is a function of the record and the policy: equal inputs give
/// equal names, and equal outcomes.
pub proof fn lemma_name_deterministic(r1: Record, r2: Record, p1: NamingPolicy, p2: NamingPolicy)
    requires
        r1@ == r2@,
        p1@ == p2@,
    ensures
        can_name(r1@, p1@) == can_name(r2@, p2@),
        name_of(r1@, p1@) == name_of(r2@, p2@),
{
}

} // verus!
