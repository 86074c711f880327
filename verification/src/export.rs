use vstd::prelude::*;
use vstd::string::StringExecFns;

use crate::datetime::{rfc3339_text, to_rfc3339};
use crate::error::AppError;
use crate::model::{ts_le, Timestamp};
use crate::sheet::{build_workbook, cell_value, export_failure_prefix, refused, table_cells, table_view, table_writable, Cell};
use crate::xlsx::workbook_sheets;
use rust_xlsxwriter::Workbook;
use crate::text::{contains_seq, str_contains};
use crate::xlsx::CellValue;

verus! {

/// A filter as an export lists it.
pub struct FilterEntry {
    pub ticker: String,
    pub company_name: String,
    pub notes: Option<String>,
    pub enabled: bool,
}

/// A group and its filters, as a whole-account export lists them.
pub struct GroupFilters {
    pub name: String,
    pub filters: Vec<FilterEntry>,
}

pub open spec fn text(s: Seq<char>) -> CellValue {
    CellValue::Text(s)
}

pub open spec fn notes_text(n: Option<String>) -> Seq<char> {
    match n {
        Some(s) => s@,
        None => Seq::empty(),
    }
}

/// The header of a whole-account filter export.
pub open spec fn filters_all_header() -> Seq<CellValue> {
    seq![
        text("EarningsWatch_Ticker"@),
        text("EarningsWatch_CompanyName"@),
        text("EarningsWatch_GroupName"@),
        text("EarningsWatch_Notes"@),
        text("EarningsWatch_Enabled"@),
    ]
}

/// The header of a one-group filter export.
pub open spec fn filters_group_header() -> Seq<CellValue> {
    seq![
        text("EarningsWatch_Ticker"@),
        text("EarningsWatch_CompanyName"@),
        text("EarningsWatch_Notes"@),
        text("EarningsWatch_Enabled"@),
    ]
}

/// A filter's line in a whole-account export.
pub open spec fn filter_line_all(f: FilterEntry, group: Seq<char>) -> Seq<CellValue> {
    seq![text(f.ticker@), text(f.company_name@), text(group), text(notes_text(f.notes)), CellValue::Flag(f.enabled)]
}

/// A filter's line in a one-group export.
pub open spec fn filter_line_group(f: FilterEntry) -> Seq<CellValue> {
    seq![text(f.ticker@), text(f.company_name@), text(notes_text(f.notes)), CellValue::Flag(f.enabled)]
}

/// The lines of a group's filters in a whole-account export.
pub open spec fn group_lines(g: GroupFilters) -> Seq<Seq<CellValue>> {
    g.filters@.map_values(|f: FilterEntry| filter_line_all(f, g.name@))
}

/// The lines of all groups, group after group.
pub open spec fn all_lines(groups: Seq<GroupFilters>) -> Seq<Seq<CellValue>>
    decreases groups.len(),
{
    if groups.len() == 0 {
        Seq::empty()
    } else {
        all_lines(groups.drop_last()) + group_lines(groups.last())
    }
}

fn text_cell(s: &str) -> (c: Cell)
    ensures
        cell_value(c) == text(s@),
{
    Cell::Text(String::from_str(s))
}

fn notes_cell(n: &Option<String>) -> (c: Cell)
    ensures
        cell_value(c) == text(notes_text(*n)),
{
    match n {
        Some(s) => Cell::Text(s.clone()),
        None => Cell::Text(String::new()),
    }
}

fn push_line(table: &mut Vec<Vec<Cell>>, line: Vec<Cell>)
    ensures
        table_view(final(table)@) == table_view(old(table)@).push(line@.map_values(|c: Cell| cell_value(c))),
{
    table.push(line);
    assert(table_view(table@) =~= table_view(old(table)@).push(line@.map_values(|c: Cell| cell_value(c))));
}

/// The sheet of a whole-account filter export: a header, then one line per
/// filter, group after group, each giving the group's name.
pub fn filters_all_table(groups: &Vec<GroupFilters>) -> (table: Vec<Vec<Cell>>)
    ensures
        table_view(table@) == seq![filters_all_header()] + all_lines(groups@),
{
    let mut table: Vec<Vec<Cell>> = Vec::new();
    let mut header: Vec<Cell> = Vec::new();
    header.push(text_cell("EarningsWatch_Ticker"));
    header.push(text_cell("EarningsWatch_CompanyName"));
    header.push(text_cell("EarningsWatch_GroupName"));
    header.push(text_cell("EarningsWatch_Notes"));
    header.push(text_cell("EarningsWatch_Enabled"));
    assert(header@.map_values(|c: Cell| cell_value(c)) =~= filters_all_header());
    push_line(&mut table, header);
    assert(table_view(table@) =~= seq![filters_all_header()] + all_lines(groups@.take(0)));
    let mut g: usize = 0;
    while g < groups.len()
        invariant
            g <= groups@.len(),
            table_view(table@) == seq![filters_all_header()] + all_lines(groups@.take(g as int)),
        decreases groups@.len() - g,
    {
        let group = &groups[g];
        let ghost base = table_view(table@);
        let mut i: usize = 0;
        while i < group.filters.len()
            invariant
                i <= group.filters@.len(),
                group == groups@[g as int],
                table_view(table@) == base + group_lines(*group).take(i as int),
            decreases group.filters@.len() - i,
        {
            let f = &group.filters[i];
            let mut line: Vec<Cell> = Vec::new();
            line.push(Cell::Text(f.ticker.clone()));
            line.push(Cell::Text(f.company_name.clone()));
            line.push(Cell::Text(group.name.clone()));
            line.push(notes_cell(&f.notes));
            line.push(Cell::Flag(f.enabled));
            assert(line@.map_values(|c: Cell| cell_value(c)) =~= filter_line_all(*f, group.name@));
            push_line(&mut table, line);
            assert(group_lines(*group).take(i + 1) =~= group_lines(*group).take(i as int).push(
                filter_line_all(*f, group.name@),
            ));
            assert(table_view(table@) =~= base + group_lines(*group).take(i + 1));
            i = i + 1;
        }
        assert(group_lines(*group).take(group.filters@.len() as int) =~= group_lines(*group));
        assert(groups@.take(g + 1).drop_last() =~= groups@.take(g as int));
        assert(table_view(table@) =~= seq![filters_all_header()] + all_lines(groups@.take(g + 1)));
        g = g + 1;
    }
    assert(groups@.take(groups@.len() as int) =~= groups@);
    table
}

/// The sheet of a one-group filter export: a header, then one line per filter.
pub fn filters_group_table(filters: &Vec<FilterEntry>) -> (table: Vec<Vec<Cell>>)
    ensures
        table_view(table@) == seq![filters_group_header()] + filters@.map_values(|f: FilterEntry| filter_line_group(f)),
{
    let ghost lines = filters@.map_values(|f: FilterEntry| filter_line_group(f));
    let mut table: Vec<Vec<Cell>> = Vec::new();
    let mut header: Vec<Cell> = Vec::new();
    header.push(text_cell("EarningsWatch_Ticker"));
    header.push(text_cell("EarningsWatch_CompanyName"));
    header.push(text_cell("EarningsWatch_Notes"));
    header.push(text_cell("EarningsWatch_Enabled"));
    assert(header@.map_values(|c: Cell| cell_value(c)) =~= filters_group_header());
    push_line(&mut table, header);
    assert(table_view(table@) =~= seq![filters_group_header()] + lines.take(0));
    let mut i: usize = 0;
    while i < filters.len()
        invariant
            i <= filters@.len(),
            lines == filters@.map_values(|f: FilterEntry| filter_line_group(f)),
            table_view(table@) == seq![filters_group_header()] + lines.take(i as int),
        decreases filters@.len() - i,
    {
        let f = &filters[i];
        let mut line: Vec<Cell> = Vec::new();
        line.push(Cell::Text(f.ticker.clone()));
        line.push(Cell::Text(f.company_name.clone()));
        line.push(notes_cell(&f.notes));
        line.push(Cell::Flag(f.enabled));
        assert(line@.map_values(|c: Cell| cell_value(c)) =~= filter_line_group(*f));
        push_line(&mut table, line);
        assert(table_view(table@) =~= seq![filters_group_header()] + lines.take(i + 1));
        i = i + 1;
    }
    assert(lines.take(filters@.len() as int) =~= lines);
    table
}

} // verus!

verus! {

/// A published earnings report, as an export lists it. `evaluation` is the
/// name of its evaluation (`Unrated`, ...).
pub struct EarningsRecord {
    pub id: i64,
    pub ticker: String,
    pub company_name: String,
    pub published_at: Timestamp,
    pub title: String,
    pub url: String,
    pub summary: String,
    pub evaluation: String,
}

/// The narrowing of an earnings export; each present criterion must hold.
pub struct ExportEarningsFilter {
    /// The exact ticker.
    pub ticker: Option<String>,
    /// Text that the company name contains.
    pub company_name: Option<String>,
    /// The evaluation's name.
    pub evaluation: Option<String>,
    /// Published at or after this instant.
    pub from: Option<Timestamp>,
    /// Published before this instant.
    pub to: Option<Timestamp>,
}

/// Whether a report passes the export filter.
pub open spec fn record_matches(r: EarningsRecord, f: ExportEarningsFilter) -> bool {
    &&& (f.ticker matches Some(t) ==> r.ticker@ == t@)
    &&& (f.company_name matches Some(c) ==> contains_seq(r.company_name@, c@))
    &&& (f.evaluation matches Some(e) ==> r.evaluation@ == e@)
    &&& (f.from matches Some(from) ==> ts_le(from, r.published_at))
    &&& (f.to matches Some(to) ==> !ts_le(to, r.published_at))
}

/// The reports that pass the filter, in order.
pub open spec fn selected(records: Seq<EarningsRecord>, f: ExportEarningsFilter) -> Seq<EarningsRecord>
    decreases records.len(),
{
    if records.len() == 0 {
        Seq::empty()
    } else {
        let prev = selected(records.drop_last(), f);
        if record_matches(records.last(), f) {
            prev.push(records.last())
        } else {
            prev
        }
    }
}

/// The header of an earnings export.
pub open spec fn earnings_header() -> Seq<CellValue> {
    seq![
        text("EarningsWatch_Ticker"@),
        text("EarningsWatch_CompanyName"@),
        text("EarningsWatch_PublishedAt"@),
        text("EarningsWatch_Title"@),
        text("EarningsWatch_Url"@),
        text("EarningsWatch_Summary"@),
        text("EarningsWatch_Evaluation"@),
    ]
}

/// Whether chrono can write the report's publication instant.
pub open spec fn representable(r: EarningsRecord) -> bool {
    rfc3339_text(r.published_at.secs, r.published_at.nanos) is Some
}

/// A report's line in an earnings export.
pub open spec fn earnings_line(r: EarningsRecord) -> Seq<CellValue> {
    seq![
        text(r.ticker@),
        text(r.company_name@),
        text(rfc3339_text(r.published_at.secs, r.published_at.nanos).unwrap()),
        text(r.title@),
        text(r.url@),
        text(r.summary@),
        text(r.evaluation@),
    ]
}

/// Whether a report passes the export filter.
pub fn matches_filter(r: &EarningsRecord, f: &ExportEarningsFilter) -> (b: bool)
    ensures
        b == record_matches(*r, *f),
{
    let ticker_ok = match &f.ticker {
        Some(t) => r.ticker == *t,
        None => true,
    };
    let company_ok = match &f.company_name {
        Some(c) => str_contains(r.company_name.as_str(), c.as_str()),
        None => true,
    };
    let evaluation_ok = match &f.evaluation {
        Some(e) => r.evaluation == *e,
        None => true,
    };
    let from_ok = match &f.from {
        Some(from) => from.not_after(&r.published_at),
        None => true,
    };
    let to_ok = match &f.to {
        Some(to) => !to.not_after(&r.published_at),
        None => true,
    };
    ticker_ok && company_ok && evaluation_ok && from_ok && to_ok
}

/// The sheet of an earnings export: a header, then one line per report that
/// passes the filter, in order; `None` when chrono cannot write the
/// publication instant of one of those reports.
pub fn earnings_table(records: &Vec<EarningsRecord>, f: &ExportEarningsFilter) -> (r: Option<Vec<Vec<Cell>>>)
    ensures
        r is Some <==> forall|i: int| 0 <= i < selected(records@, *f).len() ==> representable(
            #[trigger] selected(records@, *f)[i],
        ),
        r matches Some(table) ==> table_view(table@) == seq![earnings_header()] + selected(
            records@,
            *f,
        ).map_values(|x: EarningsRecord| earnings_line(x)),
{
    let mut table: Vec<Vec<Cell>> = Vec::new();
    let mut header: Vec<Cell> = Vec::new();
    header.push(text_cell("EarningsWatch_Ticker"));
    header.push(text_cell("EarningsWatch_CompanyName"));
    header.push(text_cell("EarningsWatch_PublishedAt"));
    header.push(text_cell("EarningsWatch_Title"));
    header.push(text_cell("EarningsWatch_Url"));
    header.push(text_cell("EarningsWatch_Summary"));
    header.push(text_cell("EarningsWatch_Evaluation"));
    assert(header@.map_values(|c: Cell| cell_value(c)) =~= earnings_header());
    push_line(&mut table, header);
    assert(records@.take(0) =~= Seq::<EarningsRecord>::empty());
    assert(table_view(table@) =~= seq![earnings_header()] + selected(records@.take(0), *f).map_values(
        |x: EarningsRecord| earnings_line(x),
    ));
    let mut i: usize = 0;
    while i < records.len()
        invariant
            i <= records@.len(),
            table_view(table@) == seq![earnings_header()] + selected(records@.take(i as int), *f).map_values(
                |x: EarningsRecord| earnings_line(x),
            ),
            forall|k: int| 0 <= k < selected(records@.take(i as int), *f).len() ==> representable(
                #[trigger] selected(records@.take(i as int), *f)[k],
            ),
        decreases records@.len() - i,
    {
        let rec = &records[i];
        let ghost prev = selected(records@.take(i as int), *f);
        assert(records@.take(i + 1).drop_last() =~= records@.take(i as int));
        assert(records@.take(i + 1).last() == *rec);
        if matches_filter(rec, f) {
            let published = match to_rfc3339(rec.published_at) {
                Some(p) => p,
                None => {
                    proof {
                        let sel = selected(records@, *f);
                        lemma_selected_prefix(records@, *f, i as int + 1);
                        let k = prev.len() as int;
                        assert(selected(records@.take(i + 1), *f)[k] == *rec);
                        assert(sel[k] == *rec);
                        assert(!representable(sel[k]));
                    }
                    return None;
                },
            };
            let mut line: Vec<Cell> = Vec::new();
            line.push(Cell::Text(rec.ticker.clone()));
            line.push(Cell::Text(rec.company_name.clone()));
            line.push(Cell::Text(published));
            line.push(Cell::Text(rec.title.clone()));
            line.push(Cell::Text(rec.url.clone()));
            line.push(Cell::Text(rec.summary.clone()));
            line.push(Cell::Text(rec.evaluation.clone()));
            assert(line@.map_values(|c: Cell| cell_value(c)) =~= earnings_line(*rec));
            push_line(&mut table, line);
            assert(selected(records@.take(i + 1), *f) == prev.push(*rec));
            assert(selected(records@.take(i + 1), *f).map_values(|x: EarningsRecord| earnings_line(x))
                =~= prev.map_values(|x: EarningsRecord| earnings_line(x)).push(earnings_line(*rec)));
            assert forall|k: int| 0 <= k < selected(records@.take(i + 1), *f).len() implies representable(
                #[trigger] selected(records@.take(i + 1), *f)[k],
            ) by {
                if k < prev.len() {
                    assert(selected(records@.take(i + 1), *f)[k] == prev[k]);
                }
            }
        } else {
            assert(selected(records@.take(i + 1), *f) == prev);
        }
        i = i + 1;
    }
    assert(records@.take(records@.len() as int) =~= records@);
    Some(table)
}

/// The reports passing the filter among the first `n` are a prefix of those passing among all.
pub proof fn lemma_selected_prefix(records: Seq<EarningsRecord>, f: ExportEarningsFilter, n: int)
    requires
        0 <= n <= records.len(),
    ensures
        selected(records.take(n), f).len() <= selected(records, f).len(),
        forall|k: int| 0 <= k < selected(records.take(n), f).len() ==> #[trigger] selected(records, f)[k]
            == selected(records.take(n), f)[k],
    decreases records.len() - n,
{
    if n < records.len() {
        lemma_selected_prefix(records, f, n + 1);
        assert(records.take(n + 1).drop_last() =~= records.take(n));
    } else {
        assert(records.take(n) =~= records);
    }
}

} // verus!

verus! {

proof fn lemma_all_lines_width(groups: Seq<GroupFilters>)
    ensures
        forall|i: int| 0 <= i < all_lines(groups).len() ==> #[trigger] all_lines(groups)[i].len() == 5,
    decreases groups.len(),
{
    if groups.len() > 0 {
        lemma_all_lines_width(groups.drop_last());
        let prev = all_lines(groups.drop_last());
        let cur = all_lines(groups);
        assert forall|i: int| 0 <= i < cur.len() implies #[trigger] cur[i].len() == 5 by {
            if i < prev.len() {
                assert(cur[i] == prev[i]);
            } else {
                assert(cur[i] == group_lines(groups.last())[i - prev.len()]);
            }
        }
    }
}

/// The sheet of a whole-account filter export: the header, then each group's filter lines.
pub open spec fn filters_all_sheet(groups: Seq<GroupFilters>) -> Seq<Seq<CellValue>> {
    seq![filters_all_header()] + all_lines(groups)
}

/// The sheet of a one-group filter export: the header, then one line per filter.
pub open spec fn filters_group_sheet(filters: Seq<FilterEntry>) -> Seq<Seq<CellValue>> {
    seq![filters_group_header()] + filters.map_values(|f: FilterEntry| filter_line_group(f))
}

/// The sheet of an earnings export: the header, then one line per selected report.
pub open spec fn earnings_sheet(records: Seq<EarningsRecord>, f: ExportEarningsFilter) -> Seq<Seq<CellValue>> {
    seq![earnings_header()] + selected(records, f).map_values(|x: EarningsRecord| earnings_line(x))
}

/// Whether every selected report's publication instant has RFC 3339 text.
pub open spec fn all_representable(records: Seq<EarningsRecord>, f: ExportEarningsFilter) -> bool {
    forall|i: int| 0 <= i < selected(records, f).len() ==> representable(#[trigger] selected(records, f)[i])
}

/// The workbook of a whole-account filter export: one sheet holding
/// [`filters_all_sheet`]; refused where a cell cannot be written. The file
/// itself is [`save_workbook`] of it.
pub fn export_filters_all(groups: &Vec<GroupFilters>) -> (r: Result<Workbook, AppError>)
    requires
        all_lines(groups@).len() < u32::MAX,
    ensures
        r is Ok <==> table_writable(filters_all_sheet(groups@)),
        r matches Ok(wb) ==> workbook_sheets(wb) == seq![table_cells(filters_all_sheet(groups@))],
        r is Err ==> refused(r),
{
    let table = filters_all_table(groups);
    proof {
        lemma_all_lines_width(groups@);
        let tv = table_view(table@);
        let lines = all_lines(groups@);
        assert(tv.len() == table@.len());
        assert forall|i: int| 0 <= i < table@.len() implies #[trigger] table@[i]@.len() <= u16::MAX by {
            assert(tv[i] == table@[i]@.map_values(|c: Cell| cell_value(c)));
            assert(tv[i].len() == table@[i]@.len());
            if i > 0 {
                assert(tv[i] == (seq![filters_all_header()] + lines)[i]);
                assert(tv[i] == lines[i - 1]);
            }
        }
    }
    build_workbook(&table)
}

/// The workbook of a one-group filter export: one sheet holding
/// [`filters_group_sheet`]; refused where a cell cannot be written. The file
/// itself is [`save_workbook`] of it.
pub fn export_filters_for_group(filters: &Vec<FilterEntry>) -> (r: Result<Workbook, AppError>)
    requires
        filters@.len() < u32::MAX,
    ensures
        r is Ok <==> table_writable(filters_group_sheet(filters@)),
        r matches Ok(wb) ==> workbook_sheets(wb) == seq![table_cells(filters_group_sheet(filters@))],
        r is Err ==> refused(r),
{
    let table = filters_group_table(filters);
    proof {
        let tv = table_view(table@);
        let lines = filters@.map_values(|f: FilterEntry| filter_line_group(f));
        assert(tv.len() == table@.len());
        assert(tv.len() == 1 + lines.len());
        assert forall|i: int| 0 <= i < table@.len() implies #[trigger] table@[i]@.len() <= u16::MAX by {
            assert(tv[i] == table@[i]@.map_values(|c: Cell| cell_value(c)));
            assert(tv[i].len() == table@[i]@.len());
            if i > 0 {
                assert(tv[i] == lines[i - 1]);
            }
        }
    }
    build_workbook(&table)
}

/// The workbook of an earnings export: one sheet holding [`earnings_sheet`];
/// refused where a selected report's publication instant has no RFC 3339
/// text or a cell cannot be written. The file itself is [`save_workbook`] of it.
pub fn export_earnings(records: &Vec<EarningsRecord>, filter: &ExportEarningsFilter) -> (r: Result<Workbook, AppError>)
    requires
        records@.len() < u32::MAX,
    ensures
        r is Ok <==> all_representable(records@, *filter) && table_writable(earnings_sheet(records@, *filter)),
        r matches Ok(wb) ==> workbook_sheets(wb) == seq![table_cells(earnings_sheet(records@, *filter))],
        r is Err ==> refused(r),
{
    match earnings_table(records, filter) {
        None => {
            let mut m = String::from_str("Excelファイルの生成に失敗しました: ");
            let ghost head = m@;
            m.append("published_at is out of range");
            assert(m@.take(head.len() as int) =~= head);
            Err(AppError::InvalidInput(m))
        },
        Some(table) => {
            proof {
                lemma_selected_len(records@, *filter);
                let tv = table_view(table@);
                let lines = selected(records@, *filter).map_values(|x: EarningsRecord| earnings_line(x));
                assert(tv.len() == table@.len());
                assert(tv.len() == 1 + lines.len());
                assert forall|i: int| 0 <= i < table@.len() implies #[trigger] table@[i]@.len() <= u16::MAX by {
                    assert(tv[i] == table@[i]@.map_values(|c: Cell| cell_value(c)));
                    assert(tv[i].len() == table@[i]@.len());
                    if i > 0 {
                        assert(tv[i] == lines[i - 1]);
                    }
                }
            }
            build_workbook(&table)
        },
    }
}

proof fn lemma_selected_len(records: Seq<EarningsRecord>, f: ExportEarningsFilter)
    ensures
        selected(records, f).len() <= records.len(),
    decreases records.len(),
{
    if records.len() > 0 {
        lemma_selected_len(records.drop_last(), f);
    }
}

/// Whether the page-by-page fetch of all reports is complete: the last page
/// was empty, or as many reports as the store counts have been fetched.
pub fn fetch_complete(page_len: usize, fetched: usize, total_count: i64) -> (done: bool)
    requires
        fetched <= i64::MAX,
    ensures
        done == (page_len == 0 || fetched as int >= total_count as int),
{
    page_len == 0 || fetched as i64 >= total_count
}

} // verus!

verus! {

/// Whether a report passes the export filter, criterion by criterion: the
/// exact ticker; a company name that contains the given text; the exact
/// evaluation; published at or after `from` and before `to`, comparing
/// seconds, then nanoseconds.
pub open spec fn passes_criteria(r: EarningsRecord, f: ExportEarningsFilter) -> bool {
    let at = r.published_at;
    &&& (f.ticker matches Some(t) ==> r.ticker@ == t@)
    &&& (f.company_name matches Some(c) ==> contains_seq(r.company_name@, c@))
    &&& (f.evaluation matches Some(e) ==> r.evaluation@ == e@)
    &&& (f.from matches Some(x) ==> x.secs < at.secs || (x.secs == at.secs && x.nanos <= at.nanos))
    &&& (f.to matches Some(y) ==> at.secs < y.secs || (at.secs == y.secs && at.nanos < y.nanos))
}

/// An earnings export lists exactly the reports that pass every given
/// criterion, in their order: each listed report is one of the reports and
/// passes them (in particular none published before `from` or at or after
/// `to`), and each report that passes them is listed.
pub proof fn law_export_lists_the_matching_reports(records: Seq<EarningsRecord>, f: ExportEarningsFilter)
    ensures
        forall|r: EarningsRecord| #[trigger] record_matches(r, f) == passes_criteria(r, f),
        forall|i: int|
            0 <= i < selected(records, f).len() ==> records.contains(#[trigger] selected(records, f)[i])
                && passes_criteria(selected(records, f)[i], f),
        forall|j: int|
            0 <= j < records.len() && passes_criteria(#[trigger] records[j], f) ==> selected(records, f).contains(
                records[j],
            ),
    decreases records.len(),
{
    if records.len() > 0 {
        let prev = records.drop_last();
        law_export_lists_the_matching_reports(prev, f);
        let sp = selected(prev, f);
        let sc = selected(records, f);
        let last = records.last();
        assert(record_matches(last, f) == passes_criteria(last, f));
        assert forall|i: int| 0 <= i < sc.len() implies records.contains(#[trigger] sc[i]) && passes_criteria(sc[i], f) by {
            if i < sp.len() {
                assert(sc[i] == sp[i]);
                let k = choose|k: int| 0 <= k < prev.len() && prev[k] == sp[i];
                assert(records[k] == prev[k]);
            } else {
                assert(sc[i] == last);
                assert(records[records.len() - 1] == last);
            }
        }
        assert forall|j: int| 0 <= j < records.len() && passes_criteria(#[trigger] records[j], f) implies sc.contains(
            records[j],
        ) by {
            if j < prev.len() {
                assert(records[j] == prev[j]);
                assert(passes_criteria(prev[j], f));
                let i = choose|i: int| 0 <= i < sp.len() && sp[i] == prev[j];
                assert(sc[i] == sp[i]);
            } else {
                assert(records[j] == last);
                assert(sc[sc.len() - 1] == last);
            }
        }
    }
}

} // verus!
