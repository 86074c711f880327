use vstd::prelude::*;
use vstd::string::StringExecFns;

use crate::error::AppError;
use crate::xlsx::{
    in_grid, new_workbook, new_worksheet, no_cells, push_worksheet, save_to_buffer, starts_as_zip, utf16_len, workbook_sheets,
    worksheet_cells, write_boolean, write_string, xlsx_error_text, CellValue,
};
use rust_xlsxwriter::{Workbook, Worksheet, XlsxError};

verus! {

/// A cell of an exported sheet.
#[derive(Debug)]
pub enum Cell {
    Text(String),
    Flag(bool),
}

pub open spec fn cell_value(c: Cell) -> CellValue {
    match c {
        Cell::Text(s) => CellValue::Text(s@),
        Cell::Flag(b) => CellValue::Flag(b),
    }
}

/// A table of cells, row by row.
pub open spec fn table_view(t: Seq<Vec<Cell>>) -> Seq<Seq<CellValue>> {
    t.map_values(|row: Vec<Cell>| row@.map_values(|c: Cell| cell_value(c)))
}

/// Whether writing `v` at (`row`, `col`) succeeds.
pub open spec fn cell_writable(row: int, col: int, v: CellValue) -> bool {
    let inside = row < 1_048_576 && col < 16_384;
    match v {
        CellValue::Text(s) => s.len() == 0 || (inside && utf16_len(s) <= 32_767),
        CellValue::Flag(_) => inside,
    }
}

/// Whether every cell of the table can be written.
pub open spec fn table_writable(t: Seq<Seq<CellValue>>) -> bool {
    forall|r: int, c: int| 0 <= r < t.len() && 0 <= c < t[r].len() ==> cell_writable(r, c, #[trigger] t[r][c])
}

/// Whether a written value leaves a cell behind (an empty string does not).
pub open spec fn stored(v: CellValue) -> bool {
    match v {
        CellValue::Text(s) => s.len() > 0,
        CellValue::Flag(_) => true,
    }
}

/// The cells that writing the table row by row, up to but excluding cell (`r`, `c`), leaves.
pub open spec fn cells_before(t: Seq<Seq<CellValue>>, r: int, c: int) -> Map<(u32, u16), CellValue> {
    Map::new(
        |k: (u32, u16)|
            (k.0 as int) < t.len() && (k.1 as int) < t[k.0 as int].len() && ((k.0 as int) < r || ((k.0 as int) == r
                && (k.1 as int) < c)) && stored(t[k.0 as int][k.1 as int]),
        |k: (u32, u16)| t[k.0 as int][k.1 as int],
    )
}

/// The cells of a whole written table.
pub open spec fn table_cells(t: Seq<Seq<CellValue>>) -> Map<(u32, u16), CellValue> {
    cells_before(t, t.len() as int, 0)
}

/// Writes a table into an empty worksheet, row `i` of the table into sheet
/// row `i`, stopping at the first cell that cannot be written.
pub(crate) fn write_table(ws: &mut Worksheet, table: &Vec<Vec<Cell>>) -> (r: Result<(), XlsxError>)
    requires
        worksheet_cells(*old(ws)) == no_cells(),
        table@.len() <= u32::MAX,
        forall|i: int| 0 <= i < table@.len() ==> #[trigger] table@[i]@.len() <= u16::MAX,
    ensures
        r is Ok <==> table_writable(table_view(table@)),
        r is Ok ==> worksheet_cells(*final(ws)) == table_cells(table_view(table@)),
{
    let ghost t = table_view(table@);
    assert(worksheet_cells(*ws) =~= cells_before(t, 0, 0));
    let mut r: usize = 0;
    while r < table.len()
        invariant
            r <= table@.len(),
            table@.len() <= u32::MAX,
            forall|i: int| 0 <= i < table@.len() ==> #[trigger] table@[i]@.len() <= u16::MAX,
            t == table_view(table@),
            worksheet_cells(*ws) == cells_before(t, r as int, 0),
            forall|i: int, j: int| 0 <= i < r && 0 <= j < t[i].len() ==> cell_writable(i, j, #[trigger] t[i][j]),
        decreases table@.len() - r,
    {
        let row = &table[r];
        assert(t[r as int] == row@.map_values(|c: Cell| cell_value(c)));
        let mut c: usize = 0;
        while c < row.len()
            invariant
                r < table@.len(),
                c <= row@.len(),
                row == table@[r as int],
                table@.len() <= u32::MAX,
                row@.len() <= u16::MAX,
                t == table_view(table@),
                t[r as int] == row@.map_values(|c: Cell| cell_value(c)),
                worksheet_cells(*ws) == cells_before(t, r as int, c as int),
                forall|i: int, j: int| 0 <= i < r && 0 <= j < t[i].len() ==> cell_writable(i, j, #[trigger] t[i][j]),
                forall|j: int| 0 <= j < c ==> cell_writable(r as int, j, #[trigger] t[r as int][j]),
            decreases row@.len() - c,
        {
            let ghost before = worksheet_cells(*ws);
            let ghost v = t[r as int][c as int];
            assert(v == cell_value(row@[c as int]));
            let res = match &row[c] {
                Cell::Text(s) => write_string(ws, r as u32, c as u16, s.as_str()),
                Cell::Flag(b) => write_boolean(ws, r as u32, c as u16, *b),
            };
            match res {
                Err(e) => {
                    assert(!cell_writable(r as int, c as int, v));
                    return Err(e);
                },
                Ok(()) => {},
            }
            assert(worksheet_cells(*ws) =~= cells_before(t, r as int, c + 1));
            c = c + 1;
        }
        assert(cells_before(t, r as int, c as int) =~= cells_before(t, r + 1, 0));
        r = r + 1;
    }
    Ok(())
}

/// The prefix of the message of a failed export.
pub open spec fn export_failure_prefix() -> Seq<char> {
    "Excelファイルの生成に失敗しました: "@
}

/// Whether a message starts with the export failure prefix.
pub open spec fn failure_message(m: Seq<char>) -> bool {
    m.len() >= export_failure_prefix().len() && m.take(export_failure_prefix().len() as int)
        == export_failure_prefix()
}

/// Whether an export was refused by the library itself (a cell that cannot
/// be written): an `InvalidInput` error with the failure prefix.
pub open spec fn refused<T>(r: Result<T, AppError>) -> bool {
    r matches Err(AppError::InvalidInput(m)) && failure_message(m@)
}

/// Whether saving the xlsx file failed: an `ExportSaveFailed` error with the failure prefix.
pub open spec fn save_failed<T>(r: Result<T, AppError>) -> bool {
    r matches Err(AppError::ExportSaveFailed(m)) && failure_message(m@)
}

fn failure_text(e: &XlsxError) -> (m: String)
    ensures
        failure_message(m@),
{
    let mut m = String::from_str("Excelファイルの生成に失敗しました: ");
    let detail = xlsx_error_text(e);
    let ghost head = m@;
    m.append(detail.as_str());
    assert(m@.take(head.len() as int) =~= head);
    m
}

/// A workbook of one worksheet that holds the table, row `i` of the table in
/// sheet row `i`; refused where a cell cannot be written.
pub fn build_workbook(table: &Vec<Vec<Cell>>) -> (r: Result<Workbook, AppError>)
    requires
        table@.len() <= u32::MAX,
        forall|i: int| 0 <= i < table@.len() ==> #[trigger] table@[i]@.len() <= u16::MAX,
    ensures
        r is Ok <==> table_writable(table_view(table@)),
        r matches Ok(wb) ==> workbook_sheets(wb) == seq![table_cells(table_view(table@))],
        r is Err ==> refused(r),
{
    let mut ws = new_worksheet();
    match write_table(&mut ws, table) {
        Err(e) => {
            return Err(AppError::InvalidInput(failure_text(&e)));
        },
        Ok(()) => {},
    }
    let ghost cells = worksheet_cells(ws);
    let mut wb = new_workbook();
    push_worksheet(&mut wb, ws);
    assert(workbook_sheets(wb) =~= seq![cells]);
    Ok(wb)
}

/// Saves a workbook as the bytes of an xlsx file (the export files are this
/// of the export workbooks). What the bytes are, and whether saving fails,
/// rest on rust_xlsxwriter and on the time of the call (the file records when
/// it was made), except that they open as a zip archive; a failure is an
/// `ExportSaveFailed` error with the failure prefix.
pub fn save_workbook(wb: Workbook) -> (r: Result<Vec<u8>, AppError>)
    ensures
        r is Ok || save_failed(r),
        r matches Ok(b) ==> starts_as_zip(b@),
{
    let mut wb = wb;
    match save_to_buffer(&mut wb) {
        Ok(bytes) => Ok(bytes),
        Err(e) => Err(AppError::ExportSaveFailed(failure_text(&e))),
    }
}

} // verus!
