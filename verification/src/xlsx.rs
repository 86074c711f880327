use vstd::prelude::*;

use rust_xlsxwriter::{Workbook, Worksheet, XlsxError};

verus! {

#[verifier::external_type_specification]
#[verifier::external_body]
pub struct ExWorkbook(rust_xlsxwriter::Workbook);

#[verifier::external_type_specification]
#[verifier::external_body]
pub struct ExWorksheet(rust_xlsxwriter::Worksheet);

#[verifier::external_type_specification]
#[verifier::external_body]
pub struct ExXlsxError(rust_xlsxwriter::XlsxError);

/// The value held by a worksheet cell.
pub enum CellValue {
    Text(Seq<char>),
    Flag(bool),
}

/// The cells that a worksheet holds, by (row, column).
pub uninterp spec fn worksheet_cells(ws: Worksheet) -> Map<(u32, u16), CellValue>;

/// The worksheets that a workbook holds, in order, each by its cells.
pub uninterp spec fn workbook_sheets(wb: Workbook) -> Seq<Map<(u32, u16), CellValue>>;

/// No worksheet at all.
pub open spec fn no_sheets() -> Seq<Map<(u32, u16), CellValue>> {
    Seq::empty()
}

/// The number of UTF-16 code units that encode `s` (the measure of Excel's string limit).
pub open spec fn utf16_len(s: Seq<char>) -> nat
    decreases s.len(),
{
    if s.len() == 0 {
        0
    } else {
        utf16_len(s.drop_last()) + if (s.last() as u32) > 0xFFFF { 2nat } else { 1nat }
    }
}

/// Whether a cell position lies inside Excel's 1,048,576 x 16,384 grid.
pub open spec fn in_grid(row: u32, col: u16) -> bool {
    row < 1_048_576 && col < 16_384
}

/// No cell at all.
pub open spec fn no_cells() -> Map<(u32, u16), CellValue> {
    Map::empty()
}

/// `Worksheet::new` from rust_xlsxwriter: a worksheet without cells.
#[verifier::external_body]
pub(crate) fn new_worksheet() -> (ws: Worksheet)
    ensures
        worksheet_cells(ws) == no_cells(),
{
    Worksheet::new()
}

/// `Worksheet::write_string` from rust_xlsxwriter. As its source shows: an
/// empty string is ignored; a position outside the grid, or a string longer
/// than 32,767 UTF-16 units, is refused and changes no cell; otherwise the
/// cell holds the string. The error's contents are not stated.
#[verifier::external_body]
pub(crate) fn write_string(ws: &mut Worksheet, row: u32, col: u16, text: &str) -> (r: Result<(), XlsxError>)
    ensures
        text@.len() == 0 ==> r is Ok && worksheet_cells(*final(ws)) == worksheet_cells(*old(ws)),
        text@.len() > 0 && !in_grid(row, col) ==> r is Err && worksheet_cells(*final(ws)) == worksheet_cells(*old(ws)),
        text@.len() > 0 && in_grid(row, col) && utf16_len(text@) > 32_767 ==> r is Err
            && worksheet_cells(*final(ws)) == worksheet_cells(*old(ws)),
        text@.len() > 0 && in_grid(row, col) && utf16_len(text@) <= 32_767 ==> r is Ok
            && worksheet_cells(*final(ws)) == worksheet_cells(*old(ws)).insert((row, col), CellValue::Text(text@)),
{
    ws.write_string(row, col, text).map(|_| ())
}

/// `Worksheet::write_boolean` from rust_xlsxwriter: refused outside the grid
/// (no cell changes), otherwise the cell holds the flag.
#[verifier::external_body]
pub(crate) fn write_boolean(ws: &mut Worksheet, row: u32, col: u16, value: bool) -> (r: Result<(), XlsxError>)
    ensures
        !in_grid(row, col) ==> r is Err && worksheet_cells(*final(ws)) == worksheet_cells(*old(ws)),
        in_grid(row, col) ==> r is Ok
            && worksheet_cells(*final(ws)) == worksheet_cells(*old(ws)).insert((row, col), CellValue::Flag(value)),
{
    ws.write_boolean(row, col, value).map(|_| ())
}

/// `Workbook::new` from rust_xlsxwriter: a workbook without worksheets.
#[verifier::external_body]
pub(crate) fn new_workbook() -> (wb: Workbook)
    ensures
        workbook_sheets(wb) == no_sheets(),
{
    Workbook::new()
}

/// `Workbook::push_worksheet` from rust_xlsxwriter: appends the sheet, with
/// its cells unchanged, to the workbook's sheets (naming it "SheetN" when it
/// has no name, which touches no cell).
#[verifier::external_body]
pub(crate) fn push_worksheet(wb: &mut Workbook, ws: Worksheet)
    ensures
        workbook_sheets(*final(wb)) == workbook_sheets(*old(wb)).push(worksheet_cells(ws)),
{
    wb.push_worksheet(ws)
}

/// The four bytes that open every zip archive: the signature of its first
/// local file header, "PK\x03\x04".
pub open spec fn zip_signature() -> Seq<u8> {
    seq![0x50u8, 0x4bu8, 0x03u8, 0x04u8]
}

/// Whether the bytes open as a zip archive does.
pub open spec fn starts_as_zip(b: Seq<u8>) -> bool {
    b.len() >= 4 && b.take(4) == zip_signature()
}

/// `Workbook::save_to_buffer` from rust_xlsxwriter: the xlsx file's bytes, a
/// zip archive written by the zip crate, whose first entry's local header
/// opens the buffer. Beyond that the bytes depend on the time of the call
/// (the file records its creation time), so nothing more is stated of them,
/// nor of when saving fails, nor of the workbook after the call.
#[verifier::external_body]
pub(crate) fn save_to_buffer(wb: &mut Workbook) -> (r: Result<Vec<u8>, XlsxError>)
    ensures
        r matches Ok(b) ==> starts_as_zip(b@),
{
    wb.save_to_buffer()
}

/// The `Display` text of an rust_xlsxwriter error. Its text is not stated.
#[verifier::external_body]
pub(crate) fn xlsx_error_text(e: &XlsxError) -> String {
    e.to_string()
}

} // verus!
