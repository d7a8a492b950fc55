//! Export of a result table as CSV, JSON or an Excel workbook. The format is chosen by
//! the extension of the target path; the library produces the file's bytes and its caller
//! writes them.
use crate::engine::views;
use crate::text::{ascii_lower, is_ascii_text, same_text};
use rust_xlsxwriter::{Workbook, Worksheet};
use vstd::prelude::*;

verus! {

/// Why an export produced no bytes.
#[derive(Debug, Clone, PartialEq, Eq)]
pub enum ExportError {
    /// The extension (lower-cased) names no known format.
    UnsupportedFormat { ext: String },
    /// A CSV row has another number of fields than the header row; `text` is the CSV
    /// writer's own message.
    UnequalLengths { expected_len: u64, len: u64, text: String },
    /// A non-empty cell lies past the last row or column that a worksheet can hold; the
    /// text is the worksheet's own message.
    CellOutOfRange(String),
    /// A cell's text is longer than a worksheet cell can hold; the text is the worksheet's
    /// own message.
    StringTooLong(String),
    /// The workbook could not be assembled; the text is the writer's own message.
    WriteFailed(String),
}

/// The text that `ExportError::message` gives.
pub open spec fn export_error_text(e: ExportError) -> Seq<char> {
    match e {
        ExportError::UnsupportedFormat { ext } => "Unsupported export format: ."@ + ext@,
        ExportError::UnequalLengths { text, .. } => text@,
        ExportError::CellOutOfRange(text) => text@,
        ExportError::StringTooLong(text) => text@,
        ExportError::WriteFailed(text) => text@,
    }
}

impl ExportError {
    /// The message shown to the user.
    pub fn message(&self) -> (s: String)
        ensures
            s@ == export_error_text(*self),
    {
        match self {
            ExportError::UnsupportedFormat { ext } => {
                let mut s = String::from_str("Unsupported export format: .");
                s.append(ext.as_str());
                s
            },
            ExportError::UnequalLengths { text, .. } => text.clone(),
            ExportError::CellOutOfRange(text) => text.clone(),
            ExportError::StringTooLong(text) => text.clone(),
            ExportError::WriteFailed(text) => text.clone(),
        }
    }
}

// ---------------------------------------------------------------------------------------
// Outside functions
// ---------------------------------------------------------------------------------------

/// The extension of a path, as `std::path::Path::extension` finds it on the platform the
/// library is built for: the part of the file name after its last `.`; `None` where the
/// path has no file name, the file name has no `.`, or its only `.` is the first
/// character.
pub uninterp spec fn path_extension(path: Seq<char>) -> Option<Seq<char>>;

/// A text in lower case, as `str::to_lowercase` writes it.
pub uninterp spec fn lowercase_text(s: Seq<char>) -> Seq<char>;

/// The bytes that a `csv::Writer` with the default configuration writes for a list of
/// records.
pub uninterp spec fn csv_text(records: Seq<Seq<Seq<char>>>) -> Seq<u8>;

/// The records that a CSV writer has accepted so far, in order.
pub uninterp spec fn csv_records(w: CsvSink) -> Seq<Seq<Seq<char>>>;

/// The UTF-8 bytes of `serde_json::to_string_pretty` on an array with one object per row,
/// each built by inserting `(keys[i], rows[r][i])` as JSON strings into a
/// `serde_json::Map`, in the order of `keys`.
pub uninterp spec fn json_records_text(keys: Seq<Seq<char>>, rows: Seq<Seq<Seq<char>>>) -> Seq<u8>;

/// A `csv::Writer` that writes into a `Vec<u8>`, held in a private field because the
/// writer's type, whose parameter is bound by `std::io::Write`, cannot be declared here;
/// `csv_records` names the records it has accepted. A writer that refused a
/// record is not handed back, so every `CsvSink` holds whole records only.
#[verifier::external_body]
pub struct CsvSink {
    writer: csv::Writer<Vec<u8>>,
}

/// `std::path::Path::extension` on the path; the extension's text is taken as it is (a
/// path given as `&str` has UTF-8 components). A path without any `.` has none, since its
/// file name has no embedded `.`.
#[verifier::external_body]
fn file_extension(path: &str) -> (r: Option<String>)
    ensures
        match r {
            Some(e) => path_extension(path@) == Some(e@),
            None => path_extension(path@) is None,
        },
        !path@.contains('.') ==> r is None,
{
    match std::path::Path::new(path).extension() {
        Some(e) => Some(e.to_string_lossy().into_owned()),
        None => None,
    }
}

/// `str::to_lowercase`. Unicode's lower-case mapping of an ASCII character is its ASCII
/// lower case, so an ASCII text (the empty one too) is lowered letter by letter.
#[verifier::external_body]
fn lowercase(s: &str) -> (r: String)
    ensures
        r@ == lowercase_text(s@),
        is_ascii_text(s@) ==> r@ == ascii_lower(s@),
{
    s.to_lowercase()
}

/// `csv::Writer::from_writer` on an empty `Vec<u8>`: a writer that has accepted no record.
#[verifier::external_body]
fn csv_writer() -> (w: CsvSink)
    ensures
        csv_records(w) == Seq::<Seq<Seq<char>>>::empty(),
{
    CsvSink { writer: csv::Writer::from_writer(Vec::new()) }
}

/// `csv::Writer::write_record`. Writing into a `Vec<u8>` cannot fail, so the call fails
/// exactly where the writer's field-count check refuses the record: the writer is not
/// flexible, and a record must have as many fields as the first. On success the writer is
/// handed back with the record appended; on a refusal it is dropped (it would hold part of
/// the record) and the error's own text is given.
#[verifier::external_body]
fn csv_write_record(w: CsvSink, record: &[String]) -> (r: Result<CsvSink, String>)
    ensures
        r is Ok == (csv_records(w).len() == 0 || record@.len() == csv_records(w)[0].len()),
        r matches Ok(w2) ==> csv_records(w2) == csv_records(w).push(views(record@)),
{
    let mut w = w;
    match w.writer.write_record(record) {
        Ok(()) => Ok(w),
        Err(e) => Err(e.to_string()),
    }
}

/// `csv::Writer::into_inner`: flushes the buffered bytes into the `Vec<u8>` and hands it
/// back. Flushing into a `Vec<u8>` cannot fail (its `io::Write` only appends).
#[verifier::external_body]
fn csv_into_bytes(w: CsvSink) -> (bytes: Vec<u8>)
    ensures
        bytes@ == csv_text(csv_records(w)),
{
    match w.writer.into_inner() {
        Ok(v) => v,
        Err(_) => Vec::new(),
    }
}

/// `serde_json::to_string_pretty` on the array of row objects, as bytes. Every row must
/// have one cell per key. Serialising JSON values whose map keys are strings cannot fail.
#[verifier::external_body]
fn json_records(keys: &[String], rows: &[Vec<String>]) -> (bytes: Vec<u8>)
    requires
        forall|i: int| 0 <= i < rows@.len() ==> #[trigger] rows@[i]@.len() == keys@.len(),
    ensures
        bytes@ == json_records_text(views(keys@), table_views(rows@)),
{
    let arr: Vec<serde_json::Value> = rows.iter().map(|row| serde_json::Value::Object(
        keys.iter().cloned().zip(row.iter().cloned().map(serde_json::Value::String)).collect(),
    )).collect();
    match serde_json::to_string_pretty(&arr) {
        Ok(s) => s.into_bytes(),
        Err(_) => Vec::new(),
    }
}

/// The strings that `Worksheet::write_string` has stored in a worksheet, by row and
/// column.
pub uninterp spec fn sheet_cells(ws: Worksheet) -> Map<(u32, u16), Seq<char>>;

/// The worksheets of a workbook, in order, by their cells.
pub uninterp spec fn book_sheets(wb: Workbook) -> Seq<Map<(u32, u16), Seq<char>>>;

#[verifier::external_type_specification]
#[verifier::external_body]
pub struct ExWorksheet(rust_xlsxwriter::Worksheet);

#[verifier::external_type_specification]
#[verifier::external_body]
pub struct ExWorkbook(rust_xlsxwriter::Workbook);

/// `rust_xlsxwriter::Worksheet::new`: a worksheet without cells.
#[verifier::external_body]
fn new_worksheet() -> (ws: Worksheet)
    ensures
        sheet_cells(ws) == no_cells(),
{
    Worksheet::new()
}

/// `rust_xlsxwriter::Worksheet::write_string`. An empty string is ignored and succeeds.
/// Otherwise the call fails where the row or column is past the worksheet's limits, or the
/// string's UTF-16 length is past the cell limit, gives the error's own text and leaves
/// the cells as they were; on success the string is stored at the cell, replacing what
/// was there.
#[verifier::external_body]
fn sheet_write_string(ws: &mut Worksheet, row: u32, col: u16, s: &str) -> (r: Result<(), String>)
    ensures
        r is Ok == cell_ok(row, col, s@),
        r is Ok ==> sheet_cells(*final(ws)) == put_cell(sheet_cells(*old(ws)), row, col, s@),
        r is Err ==> sheet_cells(*final(ws)) == sheet_cells(*old(ws)),
{
    match ws.write_string(row, col, s) {
        Ok(_) => Ok(()),
        Err(e) => Err(e.to_string()),
    }
}

/// `rust_xlsxwriter::Workbook::new`: a workbook without worksheets.
#[verifier::external_body]
fn new_workbook() -> (wb: Workbook)
    ensures
        book_sheets(wb).len() == 0,
{
    Workbook::new()
}

/// `rust_xlsxwriter::Workbook::push_worksheet`: the worksheet is added after the others
/// (a worksheet without a name is named after its position, which the cells do not show).
#[verifier::external_body]
fn workbook_push(wb: &mut Workbook, ws: Worksheet)
    ensures
        book_sheets(*final(wb)) == book_sheets(*old(wb)).push(sheet_cells(ws)),
{
    wb.push_worksheet(ws);
}

/// `rust_xlsxwriter::Workbook::save_to_buffer`, with the error as its message. The bytes
/// hold the time of their making, so nothing is stated of them, nor of whether the call
/// succeeds.
#[verifier::external_body]
fn workbook_bytes(wb: &mut Workbook) -> (r: Result<Vec<u8>, String>) {
    match wb.save_to_buffer() {
        Ok(b) => Ok(b),
        Err(e) => Err(e.to_string()),
    }
}

// ---------------------------------------------------------------------------------------
// Specification
// ---------------------------------------------------------------------------------------

/// The texts of a table, row by row.
pub open spec fn table_views(rows: Seq<Vec<String>>) -> Seq<Seq<Seq<char>>> {
    rows.map_values(|r: Vec<String>| views(r@))
}

/// A row cut or padded with empty texts to `n` cells.
pub open spec fn padded_row(row: Seq<Seq<char>>, n: nat) -> Seq<Seq<char>> {
    Seq::new(n, |i: int| if i < row.len() { row[i] } else { Seq::<char>::empty() })
}

/// The extension that picks the format of an export to `path`: the path's extension in
/// lower case, empty where it has none.
pub open spec fn export_extension(path: Seq<char>) -> Seq<char> {
    lowercase_text(
        match path_extension(path) {
            Some(e) => e,
            None => Seq::<char>::empty(),
        },
    )
}

/// Row `i` is the first whose length differs from `n`.
pub open spec fn first_unequal_row(rows: Seq<Seq<Seq<char>>>, n: nat, i: int) -> bool {
    &&& 0 <= i < rows.len()
    &&& rows[i].len() != n
    &&& forall|j: int| 0 <= j < i ==> #[trigger] rows[j].len() == n
}

/// The outcome of a CSV export.
pub open spec fn csv_outcome(
    headers: Seq<Seq<char>>,
    rows: Seq<Seq<Seq<char>>>,
    r: Result<Vec<u8>, ExportError>,
) -> bool {
    if forall|i: int| 0 <= i < rows.len() ==> #[trigger] rows[i].len() == headers.len() {
        r matches Ok(b) && b@ == csv_text(seq![headers] + rows)
    } else {
        exists|i: int|
            first_unequal_row(rows, headers.len(), i) && (r matches Err(
                ExportError::UnequalLengths { expected_len, len, .. },
            ) && expected_len == headers.len() && len == rows[i].len())
    }
}

/// The outcome of a JSON export: one object per row, a missing cell written as an empty
/// string and a cell past the last header dropped.
pub open spec fn json_outcome(
    headers: Seq<Seq<char>>,
    rows: Seq<Seq<Seq<char>>>,
    r: Result<Vec<u8>, ExportError>,
) -> bool {
    r matches Ok(b) && b@ == json_records_text(
        headers,
        rows.map_values(|row: Seq<Seq<char>>| padded_row(row, headers.len())),
    )
}

/// A worksheet without cells.
pub open spec fn no_cells() -> Map<(u32, u16), Seq<char>> {
    Map::empty()
}

/// Rows a worksheet holds.
pub const SHEET_ROWS: u32 = 1_048_576;

/// Columns a worksheet holds.
pub const SHEET_COLS: u16 = 16_384;

/// UTF-16 code units a worksheet cell holds.
pub const CELL_TEXT_MAX: usize = 32_767;

/// The number of UTF-16 code units of a text.
pub open spec fn utf16_len(s: Seq<char>) -> nat
    decreases s.len(),
{
    if s.len() == 0 {
        0
    } else {
        utf16_len(s.drop_last()) + if (s.last() as u32) >= 0x10000 { 2nat } else { 1nat }
    }
}

/// Whether `write_string` accepts a string at a cell.
pub open spec fn cell_ok(row: u32, col: u16, s: Seq<char>) -> bool {
    s.len() == 0 || (row < SHEET_ROWS && col < SHEET_COLS && utf16_len(s) <= CELL_TEXT_MAX)
}

/// The cells after `write_string` stored a string (an empty one is ignored).
pub open spec fn put_cell(m: Map<(u32, u16), Seq<char>>, row: u32, col: u16, s: Seq<char>) -> Map<
    (u32, u16),
    Seq<char>,
> {
    if s.len() == 0 {
        m
    } else {
        m.insert((row, col), s)
    }
}

/// Whether an error is that of a refused cell: the position is checked before the length.
pub open spec fn is_cell_error(e: ExportError, row: u32, col: u16) -> bool {
    if row < SHEET_ROWS && col < SHEET_COLS {
        e is StringTooLong
    } else {
        e is CellOutOfRange
    }
}

/// The writes of one row of cells: column `c` at `c as u16`.
pub open spec fn row_writes(row: u32, cells: Seq<Seq<char>>) -> Seq<(u32, u16, Seq<char>)> {
    Seq::new(cells.len(), |c: int| (row, c as u16, cells[c]))
}

/// The writes of the first `n` data rows: data row `r` goes to worksheet row `r + 1`.
pub open spec fn rows_writes(rows: Seq<Seq<Seq<char>>>, n: nat) -> Seq<(u32, u16, Seq<char>)>
    decreases n,
{
    if n == 0 {
        Seq::empty()
    } else {
        rows_writes(rows, (n - 1) as nat) + row_writes(n as u32, rows[n - 1])
    }
}

/// Every cell written, in order: the headers in row 0, then the data rows.
pub open spec fn sheet_writes(headers: Seq<Seq<char>>, rows: Seq<Seq<Seq<char>>>) -> Seq<
    (u32, u16, Seq<char>),
> {
    row_writes(0, headers) + rows_writes(rows, rows.len())
}

/// The cells after a sequence of writes.
pub open spec fn apply_writes(w: Seq<(u32, u16, Seq<char>)>) -> Map<(u32, u16), Seq<char>>
    decreases w.len(),
{
    if w.len() == 0 {
        Map::empty()
    } else {
        let l = w.last();
        put_cell(apply_writes(w.drop_last()), l.0, l.1, l.2)
    }
}

/// Write `i` is the first that `write_string` refuses.
pub open spec fn first_refused(w: Seq<(u32, u16, Seq<char>)>, i: int) -> bool {
    &&& 0 <= i < w.len()
    &&& !cell_ok(w[i].0, w[i].1, w[i].2)
    &&& forall|j: int| 0 <= j < i ==> #[trigger] cell_ok(w[j].0, w[j].1, w[j].2)
}

/// Whether `write_string` accepts every write.
pub open spec fn all_accepted(w: Seq<(u32, u16, Seq<char>)>) -> bool {
    forall|j: int| 0 <= j < w.len() ==> #[trigger] cell_ok(w[j].0, w[j].1, w[j].2)
}

/// The outcome of filling a worksheet with a table.
pub open spec fn sheet_outcome(
    headers: Seq<Seq<char>>,
    rows: Seq<Seq<Seq<char>>>,
    r: Result<Worksheet, ExportError>,
) -> bool {
    let w = sheet_writes(headers, rows);
    if all_accepted(w) {
        r matches Ok(ws) && sheet_cells(ws) == apply_writes(w)
    } else {
        exists|i: int|
            first_refused(w, i) && (r matches Err(e) && is_cell_error(e, w[i].0, w[i].1))
    }
}

/// The outcome of an Excel export: the bytes of a workbook with one worksheet, filled as
/// `sheet_outcome` says, or the error of the first refused cell, or the workbook writer's
/// own error.
pub open spec fn xlsx_outcome(
    headers: Seq<Seq<char>>,
    rows: Seq<Seq<Seq<char>>>,
    r: Result<Vec<u8>, ExportError>,
) -> bool {
    let w = sheet_writes(headers, rows);
    if all_accepted(w) {
        r is Ok || r matches Err(ExportError::WriteFailed(_))
    } else {
        exists|i: int|
            first_refused(w, i) && (r matches Err(e) && is_cell_error(e, w[i].0, w[i].1))
    }
}

// ---------------------------------------------------------------------------------------
// Implementation
// ---------------------------------------------------------------------------------------

/// CSV: the header row, then every row.
fn export_csv(headers: &[String], rows: &[Vec<String>]) -> (r: Result<Vec<u8>, ExportError>)
    ensures
        csv_outcome(views(headers@), table_views(rows@), r),
{
    let ghost hs = views(headers@);
    let ghost rs = table_views(rows@);
    let w0 = csv_writer();
    let mut w = match csv_write_record(w0, headers) {
        Ok(w) => w,
        Err(text) => {
            proof {
                assert(false);
            }
            return Err(ExportError::WriteFailed(text));
        },
    };
    assert(csv_records(w) =~= seq![hs]);
    let mut i: usize = 0;
    while i < rows.len()
        invariant
            i <= rows@.len(),
            hs == views(headers@),
            rs == table_views(rows@),
            rs.len() == rows@.len(),
            csv_records(w) =~= seq![hs] + rs.take(i as int),
            forall|j: int| 0 <= j < i ==> #[trigger] rs[j].len() == hs.len(),
        decreases rows@.len() - i,
    {
        w = match csv_write_record(w, rows[i].as_slice()) {
            Ok(w2) => w2,
            Err(text) => {
                assert(first_unequal_row(rs, hs.len(), i as int));
                let e = ExportError::UnequalLengths {
                    expected_len: headers.len() as u64,
                    len: rows[i].len() as u64,
                    text,
                };
                proof {
                    assert(!(forall|k: int|
                        0 <= k < rs.len() ==> #[trigger] rs[k].len() == hs.len()));
                }
                return Err(e);
            },
        };
        assert(rs.take(i as int + 1) =~= rs.take(i as int).push(rs[i as int]));
        i = i + 1;
    }
    assert(rs.take(i as int) =~= rs);
    Ok(csv_into_bytes(w))
}

/// JSON: an array with one object per row, keyed by the headers.
fn export_json(headers: &[String], rows: &[Vec<String>]) -> (r: Result<Vec<u8>, ExportError>)
    ensures
        json_outcome(views(headers@), table_views(rows@), r),
{
    let ghost hs = views(headers@);
    let mut table: Vec<Vec<String>> = Vec::new();
    let mut i: usize = 0;
    while i < rows.len()
        invariant
            i <= rows@.len(),
            hs == views(headers@),
            table@.len() == i,
            forall|j: int| 0 <= j < i ==> #[trigger] table@[j]@.len() == headers@.len(),
            forall|j: int| 0 <= j < i ==> #[trigger] views(table@[j]@) == padded_row(views(rows@[j]@), hs.len()),
        decreases rows@.len() - i,
    {
        let row = &rows[i];
        let mut cells: Vec<String> = Vec::new();
        let mut c: usize = 0;
        while c < headers.len()
            invariant
                c <= headers@.len(),
                cells@.len() == c,
                row == rows@[i as int],
                forall|k: int| 0 <= k < c ==> #[trigger] cells@[k]@ == padded_row(views(row@), headers@.len() as nat)[k],
            decreases headers@.len() - c,
        {
            if c < row.len() {
                cells.push(row[c].clone());
            } else {
                cells.push(String::new());
            }
            c = c + 1;
        }
        assert(views(cells@) =~= padded_row(views(row@), hs.len()));
        table.push(cells);
        i = i + 1;
    }
    let bytes = json_records(headers, table.as_slice());
    assert(table_views(table@) =~= table_views(rows@).map_values(
        |row: Seq<Seq<char>>| padded_row(row, hs.len()),
    ));
    Ok(bytes)
}

/// The error of a refused cell, with the worksheet's text.
fn refused_cell_error(row: u32, col: u16, text: String) -> (e: ExportError)
    ensures
        is_cell_error(e, row, col),
        export_error_text(e) == text@,
{
    if row < SHEET_ROWS && col < SHEET_COLS {
        ExportError::StringTooLong(text)
    } else {
        ExportError::CellOutOfRange(text)
    }
}

/// The writes of more data rows begin with those of fewer.
proof fn lemma_rows_writes_prefix(rows: Seq<Seq<Seq<char>>>, n: nat, m: nat)
    requires
        n <= m,
    ensures
        rows_writes(rows, n).len() <= rows_writes(rows, m).len(),
        rows_writes(rows, m).take(rows_writes(rows, n).len() as int) =~= rows_writes(rows, n),
    decreases m,
{
    if n < m {
        lemma_rows_writes_prefix(rows, n, (m - 1) as nat);
        let a = rows_writes(rows, (m - 1) as nat);
        let b = row_writes(m as u32, rows[m - 1]);
        assert(rows_writes(rows, m) == a + b);
        assert((a + b).take(rows_writes(rows, n).len() as int) =~= a.take(
            rows_writes(rows, n).len() as int,
        ));
    }
}

/// What has been written after the headers, `r` data rows and `c` cells of the next is the
/// start of all the writes, and the next write is that of cell `c`.
proof fn lemma_sheet_writes_prefix(headers: Seq<Seq<char>>, rows: Seq<Seq<Seq<char>>>, r: nat, c: nat)
    requires
        r < rows.len(),
        c <= rows[r as int].len(),
    ensures
        ({
            let p = row_writes(0, headers) + rows_writes(rows, r) + row_writes(
                (r + 1) as u32,
                rows[r as int],
            ).take(c as int);
            let w = sheet_writes(headers, rows);
            &&& p.len() <= w.len()
            &&& w.take(p.len() as int) =~= p
            &&& c < rows[r as int].len() ==> p.len() < w.len() && w[p.len() as int] == (
                (r + 1) as u32,
                c as u16,
                rows[r as int][c as int],
            )
        }),
{
    let h = row_writes(0, headers);
    let a = rows_writes(rows, r);
    let b = row_writes((r + 1) as u32, rows[r as int]);
    assert(rows_writes(rows, r + 1) == a + b);
    lemma_rows_writes_prefix(rows, r + 1, rows.len());
    let q = h + (a + b);
    let w = sheet_writes(headers, rows);
    assert(w.take(q.len() as int) =~= q);
    let p = h + a + b.take(c as int);
    assert(p =~= q.take(p.len() as int));
    assert(w.take(p.len() as int) =~= q.take(p.len() as int));
    if c < rows[r as int].len() {
        assert(q[p.len() as int] == b[c as int]);
        assert(w[p.len() as int] == w.take(q.len() as int)[p.len() as int]);
    }
}

/// Writes the last of a sequence of writes.
proof fn lemma_apply_push(w: Seq<(u32, u16, Seq<char>)>, x: (u32, u16, Seq<char>))
    ensures
        apply_writes(w.push(x)) == put_cell(apply_writes(w), x.0, x.1, x.2),
{
    assert(w.push(x).drop_last() =~= w);
}

/// A worksheet with the headers in its first row and the rows below them, as
/// `rust_xlsxwriter` stores them: header `c` at row 0, column `c as u16`; cell `c` of row
/// `r` at row `(r + 1) as u32`, column `c as u16`. It stops at the first cell that the
/// worksheet refuses.
pub fn xlsx_worksheet(headers: &[String], rows: &[Vec<String>]) -> (r: Result<Worksheet, ExportError>)
    ensures
        sheet_outcome(views(headers@), table_views(rows@), r),
{
    let ghost hs = views(headers@);
    let ghost rs = table_views(rows@);
    let ghost w = sheet_writes(hs, rs);
    let ghost mut done: Seq<(u32, u16, Seq<char>)> = Seq::empty();
    let mut ws = new_worksheet();
    let mut c: usize = 0;
    while c < headers.len()
        invariant
            c <= headers@.len(),
            hs == views(headers@),
            rs == table_views(rows@),
            w == sheet_writes(hs, rs),
            done == row_writes(0, hs).take(c as int),
            sheet_cells(ws) == apply_writes(done),
            all_accepted(done),
        decreases headers@.len() - c,
    {
        let col = #[verifier::truncate] (c as u16);
        let res = sheet_write_string(&mut ws, 0, col, headers[c].as_str());
        let ghost x = (0u32, col, hs[c as int]);
        proof {
            assert(w.take(c as int) =~= done);
            assert(w[c as int] == x);
        }
        if let Err(text) = res {
            assert forall|j: int| 0 <= j < c implies #[trigger] cell_ok(w[j].0, w[j].1, w[j].2) by {
                assert(w[j] == done[j]);
            }
            assert(first_refused(w, c as int));
            return Err(refused_cell_error(0, col, text));
        }
        proof {
            lemma_apply_push(done, x);
            done = done.push(x);
            assert(done =~= row_writes(0, hs).take(c as int + 1));
        }
        c = c + 1;
    }
    assert(done =~= row_writes(0, hs));
    let mut r: usize = 0;
    while r < rows.len()
        invariant
            r <= rows@.len(),
            hs == views(headers@),
            rs == table_views(rows@),
            rs.len() == rows@.len(),
            w == sheet_writes(hs, rs),
            done == row_writes(0, hs) + rows_writes(rs, r as nat),
            sheet_cells(ws) == apply_writes(done),
            all_accepted(done),
        decreases rows@.len() - r,
    {
        let row = &rows[r];
        let row_num = #[verifier::truncate] ((r + 1) as u32);
        let mut c: usize = 0;
        while c < row.len()
            invariant
                r < rows@.len(),
                row == rows@[r as int],
                row_num == (r + 1) as u32,
                c <= row@.len(),
                hs == views(headers@),
                rs == table_views(rows@),
                rs.len() == rows@.len(),
                w == sheet_writes(hs, rs),
                done == row_writes(0, hs) + rows_writes(rs, r as nat) + row_writes(
                    row_num,
                    rs[r as int],
                ).take(c as int),
                sheet_cells(ws) == apply_writes(done),
                all_accepted(done),
            decreases row@.len() - c,
        {
            let col = #[verifier::truncate] (c as u16);
            let res = sheet_write_string(&mut ws, row_num, col, row[c].as_str());
            let ghost x = (row_num, col, rs[r as int][c as int]);
            proof {
                lemma_sheet_writes_prefix(hs, rs, r as nat, c as nat);
                assert(w.take(done.len() as int) =~= done);
                assert(w[done.len() as int] == x);
            }
            if let Err(text) = res {
                assert forall|j: int| 0 <= j < done.len() implies #[trigger] cell_ok(
                    w[j].0,
                    w[j].1,
                    w[j].2,
                ) by {
                    assert(w[j] == done[j]);
                }
                assert(first_refused(w, done.len() as int));
                return Err(refused_cell_error(row_num, col, text));
            }
            proof {
                lemma_apply_push(done, x);
                done = done.push(x);
                assert(done =~= row_writes(0, hs) + rows_writes(rs, r as nat) + row_writes(
                    row_num,
                    rs[r as int],
                ).take(c as int + 1));
            }
            c = c + 1;
        }
        proof {
            assert(row_writes(row_num, rs[r as int]).take(c as int) =~= row_writes(
                row_num,
                rs[r as int],
            ));
            assert(rows_writes(rs, (r + 1) as nat) == rows_writes(rs, r as nat) + row_writes(
                row_num,
                rs[r as int],
            ));
            assert(done =~= row_writes(0, hs) + rows_writes(rs, (r + 1) as nat));
        }
        r = r + 1;
    }
    Ok(ws)
}

/// The outcome of building the workbook of a table: one worksheet holding the table's
/// cells, or the error of the first refused cell.
pub open spec fn book_outcome(
    headers: Seq<Seq<char>>,
    rows: Seq<Seq<Seq<char>>>,
    r: Result<Workbook, ExportError>,
) -> bool {
    let w = sheet_writes(headers, rows);
    if all_accepted(w) {
        r matches Ok(wb) && book_sheets(wb) == seq![apply_writes(w)]
    } else {
        exists|i: int|
            first_refused(w, i) && (r matches Err(e) && is_cell_error(e, w[i].0, w[i].1))
    }
}

/// The workbook of a table: a single worksheet filled by `xlsx_worksheet`.
pub fn xlsx_workbook(headers: &[String], rows: &[Vec<String>]) -> (r: Result<Workbook, ExportError>)
    ensures
        book_outcome(views(headers@), table_views(rows@), r),
{
    let ws = match xlsx_worksheet(headers, rows) {
        Ok(ws) => ws,
        Err(e) => return Err(e),
    };
    let mut wb = new_workbook();
    workbook_push(&mut wb, ws);
    assert(book_sheets(wb) =~= seq![sheet_cells(ws)]);
    Ok(wb)
}

/// The bytes of the workbook that `xlsx_workbook` builds.
fn export_xlsx(headers: &[String], rows: &[Vec<String>]) -> (r: Result<Vec<u8>, ExportError>)
    ensures
        xlsx_outcome(views(headers@), table_views(rows@), r),
{
    let mut wb = match xlsx_workbook(headers, rows) {
        Ok(wb) => wb,
        Err(e) => return Err(e),
    };
    match workbook_bytes(&mut wb) {
        Ok(b) => Ok(b),
        Err(msg) => Err(ExportError::WriteFailed(msg)),
    }
}

/// The outcome of an export in the format that a lower-case extension names.
pub open spec fn export_outcome(
    ext: Seq<char>,
    headers: Seq<Seq<char>>,
    rows: Seq<Seq<Seq<char>>>,
    r: Result<Vec<u8>, ExportError>,
) -> bool {
    if ext == "csv"@ {
        csv_outcome(headers, rows, r)
    } else if ext == "json"@ {
        json_outcome(headers, rows, r)
    } else if ext == "xlsx"@ {
        xlsx_outcome(headers, rows, r)
    } else {
        r matches Err(ExportError::UnsupportedFormat { ext: e }) && e@ == ext
    }
}

/// The bytes of an export of the table in the format that the lower-case extension `ext`
/// names: `csv`, `json` or `xlsx`.
pub fn export_as(ext: &str, headers: &[String], rows: &[Vec<String>]) -> (r: Result<
    Vec<u8>,
    ExportError,
>)
    ensures
        export_outcome(ext@, views(headers@), table_views(rows@), r),
{
    proof {
        reveal_strlit("csv");
        reveal_strlit("json");
        reveal_strlit("xlsx");
    }
    if same_text(ext, "csv") {
        export_csv(headers, rows)
    } else if same_text(ext, "json") {
        export_json(headers, rows)
    } else if same_text(ext, "xlsx") {
        export_xlsx(headers, rows)
    } else {
        Err(ExportError::UnsupportedFormat { ext: String::from_str(ext) })
    }
}

/// The bytes of an export of the table to `path`, in the format that the path's extension
/// names (`csv`, `json` or `xlsx`, in any case).
pub fn export(headers: &[String], rows: &[Vec<String>], path: &str) -> (r: Result<
    Vec<u8>,
    ExportError,
>)
    ensures
        export_outcome(export_extension(path@), views(headers@), table_views(rows@), r),
        !path@.contains('.') ==> (r matches Err(ExportError::UnsupportedFormat { ext })
            && ext@.len() == 0),
{
    let ext = match file_extension(path) {
        Some(e) => lowercase(e.as_str()),
        None => {
            proof {
                reveal_strlit("");
                assert(""@ =~= Seq::<char>::empty());
                assert(is_ascii_text(""@));
            }
            let l = lowercase("");
            assert(l@ =~= Seq::<char>::empty());
            l
        },
    };
    proof {
        reveal_strlit("csv");
        reveal_strlit("json");
        reveal_strlit("xlsx");
    }
    export_as(ext.as_str(), headers, rows)
}

} // verus!
