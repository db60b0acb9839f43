//! The record source: CSV text read into records, the first row naming the
//! fields.
use crate::error::{ErrorView, RenderError};
use crate::naming::strings_view;
use crate::record::{fields_distinct, pairs_view, Record, RecordView};
use vstd::prelude::*;

verus! {

#[verifier::external_type_specification]
#[verifier::external_body]
pub struct ExCsvError(csv::Error);

/// The rows that the CSV reader finds in `data`, header included; `None`
/// where it cannot read them.
pub uninterp spec fn csv_rows_of(data: Seq<u8>) -> Option<Seq<Seq<Seq<char>>>>;

/// The view of rows of strings.
pub open spec fn rows_view(v: Seq<Vec<String>>) -> Seq<Seq<Seq<char>>> {
    v.map_values(|r: Vec<String>| strings_view(r@))
}

/// Relies on csv's `Reader::records`, reading every row as data (the header
/// too) and letting rows differ in length.
#[verifier::external_body]
fn csv_rows(data: &[u8]) -> (r: Result<Vec<Vec<String>>, csv::Error>)
    ensures
        match r {
            Ok(rows) => csv_rows_of(data@) == Some(rows_view(rows@)),
            Err(_) => csv_rows_of(data@) is None,
        },
{
    let mut reader = csv::ReaderBuilder::new().has_headers(false).flexible(true).from_reader(data);
    reader.records().map(|rec| rec.map(|rec| rec.iter().map(String::from).collect())).collect()
}

/// The header's names are distinct.
pub open spec fn header_distinct(header: Seq<Seq<char>>) -> bool {
    forall|i: int, j: int| 0 <= i < j < header.len() ==> header[i] != header[j]
}

/// The rows make records: the header's names are distinct and every row has
/// as many columns as the header.
pub open spec fn rows_fit(rows: Seq<Seq<Seq<char>>>) -> bool {
    rows.len() > 0 ==> {
        &&& header_distinct(rows[0])
        &&& forall|k: int| 1 <= k < rows.len() ==> (#[trigger] rows[k]).len() == rows[0].len()
    }
}

/// Row `k` is the first that keeps the rows from making records.
pub open spec fn first_bad_row(rows: Seq<Seq<Seq<char>>>, k: int) -> bool {
    if k == 0 {
        rows.len() > 0 && !header_distinct(rows[0])
    } else {
        &&& 1 <= k < rows.len()
        &&& header_distinct(rows[0])
        &&& rows[k].len() != rows[0].len()
        &&& forall|j: int| 1 <= j < k ==> (#[trigger] rows[j]).len() == rows[0].len()
    }
}

/// The record that `row` makes under `header`.
pub open spec fn record_of(header: Seq<Seq<char>>, row: Seq<Seq<char>>) -> RecordView {
    Seq::new(header.len(), |i: int| (header[i], row[i]))
}

/// The records that the rows make, one per row after the header.
pub open spec fn records_of(rows: Seq<Seq<Seq<char>>>) -> Seq<RecordView> {
    if rows.len() == 0 {
        Seq::empty()
    } else {
        Seq::new((rows.len() - 1) as nat, |k: int| record_of(rows[0], rows[k + 1]))
    }
}

/// The view of a sequence of records.
pub open spec fn records_view(v: Seq<Record>) -> Seq<RecordView> {
    v.map_values(|r: Record| r@)
}

/// The record that `row` makes under `header`.
fn make_record(header: &Vec<String>, row: &Vec<String>) -> (r: Record)
    requires
        header@.len() == row@.len(),
        header_distinct(strings_view(header@)),
    ensures
        r@ == record_of(strings_view(header@), strings_view(row@)),
        r.wf(),
{
    let mut entries: Vec<(String, String)> = Vec::new();
    let mut i: usize = 0;
    while i < header.len()
        invariant
            header@.len() == row@.len(),
            0 <= i <= header@.len(),
            pairs_view(entries@) == record_of(
                strings_view(header@.subrange(0, i as int)),
                strings_view(row@.subrange(0, i as int)),
            ),
        decreases header@.len() - i,
    {
        let ghost prev = entries@;
        entries.push((header[i].clone(), row[i].clone()));
        assert(pairs_view(entries@) =~= pairs_view(prev).push(
            (header@[i as int]@, row@[i as int]@),
        ));
        assert(pairs_view(entries@) =~= record_of(
            strings_view(header@.subrange(0, i + 1)),
            strings_view(row@.subrange(0, i + 1)),
        ));
        i = i + 1;
    }
    assert(header@.subrange(0, header@.len() as int) =~= header@);
    assert(row@.subrange(0, row@.len() as int) =~= row@);
    let r = Record { entries };
    assert(fields_distinct(r@)) by {
        assert forall|a: int, b: int| 0 <= a < b < r@.len() implies #[trigger] r@[a].0
            != #[trigger] r@[b].0 by {
            assert(strings_view(header@)[a] != strings_view(header@)[b]);
        }
    }
    r
}

/// Whether the names of `header` are distinct.
fn distinct_names(header: &Vec<String>) -> (r: bool)
    ensures
        r == header_distinct(strings_view(header@)),
{
    let n = header.len();
    let ghost h = strings_view(header@);
    let mut i: usize = 0;
    while i < n
        invariant
            n == header@.len(),
            h == strings_view(header@),
            0 <= i <= n,
            forall|a: int, b: int| 0 <= a < b < n && a < i ==> h[a] != h[b],
        decreases n - i,
    {
        let mut j: usize = i + 1;
        while j < n
            invariant
                n == header@.len(),
                h == strings_view(header@),
                0 <= i < j <= n,
                forall|a: int, b: int| 0 <= a < b < n && a < i ==> h[a] != h[b],
                forall|b: int| i < b < j ==> h[i as int] != h[b],
            decreases n - j,
        {
            if header[i] == header[j] {
                assert(h[i as int] == h[j as int]);
                assert(!header_distinct(h));
                return false;
            }
            j = j + 1;
        }
        i = i + 1;
    }
    true
}

/// The records of `rows`, whose first row names the fields.
pub fn records_from_rows(rows: &Vec<Vec<String>>) -> (r: Result<Vec<Record>, RenderError>)
    ensures
        r is Ok <==> rows_fit(rows_view(rows@)),
        match r {
            Ok(recs) => records_view(recs@) == records_of(rows_view(rows@)) && forall|k: int|
                0 <= k < recs@.len() ==> (#[trigger] recs@[k]).wf(),
            Err(e) => exists|k: int|
                first_bad_row(rows_view(rows@), k) && e@ == ErrorView::DataFormat {
                    row: Some(k as nat),
                },
        },
{
    let ghost rv = rows_view(rows@);
    let mut recs: Vec<Record> = Vec::new();
    if rows.len() == 0 {
        assert(records_view(recs@) =~= records_of(rv));
        return Ok(recs);
    }
    let header = &rows[0];
    if !distinct_names(header) {
        assert(first_bad_row(rv, 0));
        return Err(RenderError::DataFormat { row: Some(0) });
    }
    let mut k: usize = 1;
    while k < rows.len()
        invariant
            rv == rows_view(rows@),
            rows@.len() > 0,
            header == rows@[0],
            header_distinct(rv[0]),
            1 <= k <= rows@.len(),
            recs@.len() == k - 1,
            forall|j: int| 1 <= j < k ==> (#[trigger] rv[j]).len() == rv[0].len(),
            forall|j: int| 0 <= j < recs@.len() ==> (#[trigger] recs@[j]).wf(),
            forall|j: int|
                0 <= j < recs@.len() ==> (#[trigger] recs@[j])@ == record_of(rv[0], rv[j + 1]),
        decreases rows@.len() - k,
    {
        if rows[k].len() != header.len() {
            assert(first_bad_row(rv, k as int));
            return Err(RenderError::DataFormat { row: Some(k) });
        }
        let rec = make_record(header, &rows[k]);
        recs.push(rec);
        k = k + 1;
    }
    assert(records_view(recs@) =~= records_of(rv));
    Ok(recs)
}

/// The records of the CSV text `data`, whose first row names the fields.
pub fn read_records(data: &[u8]) -> (r: Result<Vec<Record>, RenderError>)
    ensures
        r is Ok <==> (csv_rows_of(data@) matches Some(rows) && rows_fit(rows)),
        match r {
            Ok(recs) => records_view(recs@) == records_of(csv_rows_of(data@)->0) && forall|k: int|
                0 <= k < recs@.len() ==> (#[trigger] recs@[k]).wf(),
            Err(e) => match csv_rows_of(data@) {
                None => e@ == ErrorView::DataFormat { row: None },
                Some(rows) => exists|k: int|
                    first_bad_row(rows, k) && e@ == ErrorView::DataFormat { row: Some(k as nat) },
            },
        },
{
    match csv_rows(data) {
        Ok(rows) => records_from_rows(&rows),
        Err(_) => Err(RenderError::DataFormat { row: None }),
    }
}

} // verus!
