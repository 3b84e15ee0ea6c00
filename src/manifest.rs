use vstd::prelude::*;

use crate::error::DownloaderError;
use crate::types::InventoryEntry;

verus! {

/// The rows of a tab-separated text, each a sequence of fields, or the
/// decoder's error text.
pub uninterp spec fn tsv_records(text: Seq<char>) -> Result<Seq<Seq<Seq<char>>>, Seq<char>>;

/// The text of each field of each row.
pub open spec fn rows_view(rows: Seq<Vec<String>>) -> Seq<Seq<Seq<char>>> {
    rows.map_values(|row: Vec<String>| row@.map_values(|f: String| f@))
}

/// Relies on csv's `ReaderBuilder` (tab delimiter, no header row, rows of any
/// width) and its `records` iterator: the rows it yields, or the text of the
/// first error.
#[verifier::external_body]
fn decode_tsv(text: &str) -> (r: Result<Vec<Vec<String>>, String>)
    ensures
        r is Ok <==> tsv_records(text@) is Ok,
        r is Ok ==> rows_view(r->Ok_0@) == tsv_records(text@)->Ok_0,
        r is Err ==> r->Err_0@ == tsv_records(text@)->Err_0,
{
    let mut reader = csv::ReaderBuilder::new().delimiter(b'\t').has_headers(false).flexible(
        true,
    ).from_reader(text.as_bytes());
    reader.records().map(|rec| rec.map(|r| r.iter().map(|f| f.to_string()).collect())).collect::<
        Result<Vec<Vec<String>>, csv::Error>,
    >().map_err(|e| e.to_string())
}

/// Field `k` of a row; a missing trailing field reads as empty.
pub open spec fn row_field(row: Seq<Seq<char>>, k: int) -> Seq<char> {
    if k < row.len() {
        row[k]
    } else {
        Seq::empty()
    }
}

/// An optional field: absent when empty.
pub open spec fn row_url(row: Seq<Seq<char>>, k: int) -> Option<Seq<char>> {
    if row_field(row, k).len() == 0 {
        None
    } else {
        Some(row_field(row, k))
    }
}

pub open spec fn opt_view(o: Option<String>) -> Option<Seq<char>> {
    match o {
        Some(s) => Some(s@),
        None => None,
    }
}

/// The entry read from a row: columns code, entry type, source dataset, the
/// two change dates, then the TSV, CSV, SDMX, structure and browser URLs.
pub open spec fn is_entry_of(e: InventoryEntry, row: Seq<Seq<char>>) -> bool {
    &&& e.code@ == row_field(row, 0)
    &&& e.entry_type@ == row_field(row, 1)
    &&& e.source_dataset@ == row_field(row, 2)
    &&& e.last_data_change@ == row_field(row, 3)
    &&& e.last_structural_change@ == row_field(row, 4)
    &&& opt_view(e.tsv_url) == row_url(row, 5)
    &&& opt_view(e.csv_url) == row_url(row, 6)
    &&& opt_view(e.sdmx_url) == row_url(row, 7)
    &&& opt_view(e.structure_url) == row_url(row, 8)
    &&& opt_view(e.browser_url) == row_url(row, 9)
}

/// One entry per row, in order.
pub open spec fn entries_of(es: Seq<InventoryEntry>, rows: Seq<Seq<Seq<char>>>) -> bool {
    &&& es.len() == rows.len()
    &&& forall|i: int| 0 <= i < es.len() ==> is_entry_of(#[trigger] es[i], rows[i])
}

fn field(row: &Vec<String>, k: usize) -> (r: String)
    ensures
        r@ == row_field(row@.map_values(|f: String| f@), k as int),
{
    if k < row.len() {
        row[k].clone()
    } else {
        String::new()
    }
}

fn url_field(row: &Vec<String>, k: usize) -> (r: Option<String>)
    ensures
        opt_view(r) == row_url(row@.map_values(|f: String| f@), k as int),
{
    let f = field(row, k);
    if f.as_str().is_empty() {
        None
    } else {
        Some(f)
    }
}

/// The entries of decoded manifest rows, one per row.
pub fn entries_from_records(records: &Vec<Vec<String>>) -> (r: Vec<InventoryEntry>)
    ensures
        entries_of(r@, rows_view(records@)),
{
    let mut entries: Vec<InventoryEntry> = Vec::new();
    let mut i: usize = 0;
    while i < records.len()
        invariant
            i <= records@.len(),
            entries@.len() == i,
            forall|k: int|
                0 <= k < i ==> is_entry_of(#[trigger] entries@[k], rows_view(records@)[k]),
        decreases records@.len() - i,
    {
        let row = &records[i];
        let entry = InventoryEntry {
            code: field(row, 0),
            entry_type: field(row, 1),
            source_dataset: field(row, 2),
            last_data_change: field(row, 3),
            last_structural_change: field(row, 4),
            tsv_url: url_field(row, 5),
            csv_url: url_field(row, 6),
            sdmx_url: url_field(row, 7),
            structure_url: url_field(row, 8),
            browser_url: url_field(row, 9),
        };
        entries.push(entry);
        i = i + 1;
    }
    entries
}

/// Reads the manifest's entries from its text, every line a data row. A
/// text the decoder rejects gives `ParseError` with the decoder's message.
pub fn parse_tsv(contents: &str) -> (r: Result<Vec<InventoryEntry>, DownloaderError>)
    ensures
        r is Ok <==> tsv_records(contents@) is Ok,
        r is Ok ==> entries_of(r->Ok_0@, tsv_records(contents@)->Ok_0),
        r is Err ==> (r->Err_0 is ParseError && r->Err_0->ParseError_0@ == tsv_records(
            contents@,
        )->Err_0),
{
    match decode_tsv(contents) {
        Ok(rows) => Ok(entries_from_records(&rows)),
        Err(m) => Err(DownloaderError::ParseError(m)),
    }
}

} // verus!
