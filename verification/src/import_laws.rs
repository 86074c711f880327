use vstd::prelude::*;

use crate::import::{
    import_all_actions, import_all_report, is_duplicate, last_match, lemma_last_match, lemma_tally_wf,
    created_refs, group_actions, group_import_outcome, paused_refs, rows_of, tally, ExistingView, ImportPlan, InputView,
    Tally,
};
use crate::error::AppError;
use crate::model::{GroupId, UserId};
use crate::export::{all_lines, filter_line_all, filters_group_sheet, group_lines, notes_text, FilterEntry, GroupFilters};
use crate::xlsx::CellValue;
use crate::row::{classify, ImportSettings, RowView, Verdict};
use crate::text::{law_trim_idempotent, opt_string_view, trim};

verus! {

/// Every input row is counted exactly once: as imported, skipped as empty,
/// dropped as a duplicate, or reported as an error row.
pub proof fn law_every_row_counted(rows: Seq<InputView>, normalized: Seq<Seq<char>>, s: ImportSettings)
    ensures
        ({
            let t = tally(rows, normalized, s);
            t.accepted.len() + t.skipped + t.duplicates + t.errors.len() == rows.len()
        }),
    decreases rows.len(),
{
    if rows.len() > 0 {
        law_every_row_counted(rows.take(rows.len() - 1), normalized, s);
    }
}

/// No two imported filters of one group share a ticker.
pub proof fn law_no_duplicate_ticker_in_group(rows: Seq<InputView>, normalized: Seq<Seq<char>>, s: ImportSettings)
    ensures
        ({
            let a = tally(rows, normalized, s).accepted;
            forall|i: int, j: int|
                0 <= i < j < a.len() && a[i].0 == a[j].0 ==> a[i].1.ticker != a[j].1.ticker
        }),
    decreases rows.len(),
{
    if rows.len() > 0 {
        let n = rows.len() - 1;
        law_no_duplicate_ticker_in_group(rows.take(n), normalized, s);
        let prev = tally(rows.take(n), normalized, s);
        let a = tally(rows, normalized, s).accepted;
        if a.len() > prev.accepted.len() {
            assert forall|i: int, j: int|
                0 <= i < j < a.len() && a[i].0 == a[j].0 implies a[i].1.ticker != a[j].1.ticker by {
                if j == a.len() - 1 {
                    assert(a[i] == prev.accepted[i]);
                    if a[i].1.ticker == a[j].1.ticker {
                        assert(is_duplicate(prev.accepted, a[j].0, a[j].1.ticker));
                    }
                } else {
                    assert(a[i] == prev.accepted[i] && a[j] == prev.accepted[j]);
                }
            }
        }
    }
}

/// Error rows are reported in input order, each with its 1-based row number.
pub proof fn law_error_rows_in_order(rows: Seq<InputView>, normalized: Seq<Seq<char>>, s: ImportSettings)
    ensures
        ({
            let e = tally(rows, normalized, s).errors;
            &&& forall|i: int| 0 <= i < e.len() ==> 1 <= #[trigger] e[i].0 <= rows.len()
            &&& forall|i: int, j: int| 0 <= i < j < e.len() ==> e[i].0 < e[j].0
        }),
    decreases rows.len(),
{
    if rows.len() > 0 {
        let n = rows.len() - 1;
        law_error_rows_in_order(rows.take(n), normalized, s);
        let prev = tally(rows.take(n), normalized, s).errors;
        let e = tally(rows, normalized, s).errors;
        assert forall|i: int| 0 <= i < prev.len() implies e[i] == prev[i] by {}
    }
}

/// The number of rows that the replacements of the first `k` groups write.
pub open spec fn written_rows(accepted: Seq<(int, crate::row::RowView)>, k: int) -> int
    decreases k,
{
    if k <= 0 {
        0
    } else {
        written_rows(accepted, k - 1) + rows_of(accepted, k - 1).len()
    }
}

proof fn lemma_written_push(prev: Seq<(int, crate::row::RowView)>, x: (int, crate::row::RowView), k: int)
    requires
        k >= 0,
    ensures
        written_rows(prev.push(x), k) == written_rows(prev, k) + if 0 <= x.0 < k { 1int } else { 0 },
    decreases k,
{
    let a = prev.push(x);
    assert(a.drop_last() =~= prev);
    if k > 0 {
        lemma_written_push(prev, x, k - 1);
    }
}

proof fn lemma_written_all(accepted: Seq<(int, crate::row::RowView)>, k: int)
    requires
        k >= 0,
        forall|j: int| 0 <= j < accepted.len() ==> 0 <= #[trigger] accepted[j].0 < k,
    ensures
        written_rows(accepted, k) == accepted.len(),
    decreases accepted.len(),
{
    if accepted.len() == 0 {
        lemma_written_empty(accepted, k);
    } else {
        let prev = accepted.drop_last();
        assert forall|j: int| 0 <= j < prev.len() implies 0 <= #[trigger] prev[j].0 < k by {
            assert(prev[j] == accepted[j]);
        }
        lemma_written_all(prev, k);
        assert(prev.push(accepted.last()) =~= accepted);
        lemma_written_push(prev, accepted.last(), k);
    }
}

proof fn lemma_written_empty(accepted: Seq<(int, crate::row::RowView)>, k: int)
    requires
        accepted.len() == 0,
        k >= 0,
    ensures
        written_rows(accepted, k) == 0,
    decreases k,
{
    if k > 0 {
        lemma_written_empty(accepted, k - 1);
    }
}

/// Every imported row is written by exactly one group's replacement: the
/// replacements together write as many rows as the report counts as imported.
pub proof fn law_imported_rows_all_written(rows: Seq<InputView>, normalized: Seq<Seq<char>>, s: ImportSettings)
    ensures
        ({
            let t = tally(rows, normalized, s);
            written_rows(t.accepted, t.names.len() as int) == t.accepted.len()
        }),
{
    lemma_tally_wf(rows, normalized, s);
    let t = tally(rows, normalized, s);
    lemma_written_all(t.accepted, t.names.len() as int);
}

/// A dry run of a whole-account import plans no change and reports exactly
/// what the real import of the same rows, against the same groups, reports.
pub proof fn law_dry_run_changes_nothing(
    t: Tally,
    ex: Seq<ExistingView>,
    fresh: Seq<GroupId>,
    preview: ImportPlan,
    actual: ImportPlan,
)
    requires
        preview.result@ == import_all_report(t, ex, fresh),
        crate::import::actions_view(preview.actions@) == import_all_actions(t, ex, fresh, true),
        actual.result@ == import_all_report(t, ex, fresh),
        crate::import::actions_view(actual.actions@) == import_all_actions(t, ex, fresh, false),
    ensures
        preview.result@ == actual.result@,
        preview.actions@.len() == 0,
{
    assert(crate::import::actions_view(preview.actions@).len() == preview.actions@.len());
}

/// A dry run of an import into one group fails exactly when the real import
/// fails, with the same error, and otherwise gives the same report and plans no change.
pub proof fn law_group_dry_run_previews(
    owner: Option<UserId>,
    requester: UserId,
    group_id: GroupId,
    t: Tally,
    preview: Result<ImportPlan, AppError>,
    actual: Result<ImportPlan, AppError>,
)
    requires
        group_import_outcome(owner, requester, group_id, t, true, preview),
        group_import_outcome(owner, requester, group_id, t, false, actual),
    ensures
        preview is Ok <==> actual is Ok,
        preview matches Err(AppError::NotFound) <==> actual matches Err(AppError::NotFound),
        preview matches Err(AppError::Forbidden) <==> actual matches Err(AppError::Forbidden),
        preview matches Err(AppError::ImportEmpty) <==> actual matches Err(AppError::ImportEmpty),
        preview matches Ok(p) ==> actual matches Ok(q) && p.result@ == q.result@ && p.actions@.len() == 0,
{
    if let Ok(p) = preview {
        assert(crate::import::actions_view(p.actions@).len() == p.actions@.len());
    }
}

proof fn lemma_created_refs(names: Seq<Seq<char>>, ex: Seq<ExistingView>, fresh: Seq<GroupId>, k: int)
    requires
        0 <= k <= names.len(),
    ensures
        forall|c: int| 0 <= c < created_refs(names, ex, fresh, k).len() ==> {
            let g = #[trigger] created_refs(names, ex, fresh, k)[c];
            &&& names.contains(g.1)
            &&& forall|e: int| 0 <= e < ex.len() ==> ex[e].name != g.1
        },
        forall|i: int| 0 <= i < k && last_match(ex, names[i]) is None ==>
            #[trigger] created_refs(names, ex, fresh, k).contains((fresh[i], names[i])),
    decreases k,
{
    if k > 0 {
        lemma_created_refs(names, ex, fresh, k - 1);
        lemma_last_match(ex, names[k - 1]);
        let prev = created_refs(names, ex, fresh, k - 1);
        let cur = created_refs(names, ex, fresh, k);
        assert forall|c: int| 0 <= c < cur.len() implies {
            let g = #[trigger] cur[c];
            &&& names.contains(g.1)
            &&& forall|e: int| 0 <= e < ex.len() ==> ex[e].name != g.1
        } by {
            if c < prev.len() {
                assert(cur[c] == prev[c]);
            } else {
                assert(names[k - 1] == cur[c].1);
            }
        }
        assert forall|i: int| 0 <= i < k && last_match(ex, names[i]) is None implies
            #[trigger] cur.contains((fresh[i], names[i])) by {
            if i < k - 1 {
                assert(prev.contains((fresh[i], names[i])));
                let w = choose|w: int| 0 <= w < prev.len() && prev[w] == (fresh[i], names[i]);
                assert(cur[w] == prev[w]);
            } else {
                assert(cur[cur.len() - 1] == (fresh[i], names[i]));
            }
        }
    }
}

/// The groups that an import creates are exactly the named groups that no
/// existing group bears: each created group is named in the import and bears
/// no existing name, and each named group without an existing namesake is created.
pub proof fn law_created_groups_are_the_new_names(t: Tally, ex: Seq<ExistingView>, fresh: Seq<GroupId>)
    requires
        fresh.len() >= t.names.len(),
    ensures
        ({
            let created = import_all_report(t, ex, fresh).created;
            &&& forall|c: int| 0 <= c < created.len() ==> {
                &&& t.names.contains(#[trigger] created[c].1)
                &&& forall|e: int| 0 <= e < ex.len() ==> ex[e].name != created[c].1
            }
            &&& forall|i: int| 0 <= i < t.names.len() && last_match(ex, t.names[i]) is None ==>
                #[trigger] created.contains((fresh[i], t.names[i]))
        }),
{
    lemma_created_refs(t.names, ex, fresh, t.names.len() as int);
}

proof fn lemma_paused_refs(ex: Seq<ExistingView>, names: Seq<Seq<char>>, k: int)
    requires
        0 <= k <= ex.len(),
    ensures
        forall|p: int| 0 <= p < paused_refs(ex, names, k).len() ==> exists|e: int| {
            &&& 0 <= e < k
            &&& #[trigger] paused_refs(ex, names, k)[p] == (ex[e].id, ex[e].name)
            &&& !ex[e].paused
            &&& !names.contains(ex[e].name)
        },
        forall|e: int| 0 <= e < k && !ex[e].paused && !names.contains(ex[e].name) ==>
            #[trigger] paused_refs(ex, names, k).contains((ex[e].id, ex[e].name)),
    decreases k,
{
    if k > 0 {
        lemma_paused_refs(ex, names, k - 1);
        let prev = paused_refs(ex, names, k - 1);
        let cur = paused_refs(ex, names, k);
        assert forall|p: int| 0 <= p < cur.len() implies exists|e: int| {
            &&& 0 <= e < k
            &&& #[trigger] cur[p] == (ex[e].id, ex[e].name)
            &&& !ex[e].paused
            &&& !names.contains(ex[e].name)
        } by {
            if p < prev.len() {
                assert(cur[p] == prev[p]);
                let e = choose|e: int| {
                    &&& 0 <= e < k - 1
                    &&& #[trigger] prev[p] == (ex[e].id, ex[e].name)
                    &&& !ex[e].paused
                    &&& !names.contains(ex[e].name)
                };
                assert(cur[p] == (ex[e].id, ex[e].name));
            } else {
                assert(cur[p] == (ex[k - 1].id, ex[k - 1].name));
            }
        }
        assert forall|e: int| 0 <= e < k && !ex[e].paused && !names.contains(ex[e].name) implies
            #[trigger] cur.contains((ex[e].id, ex[e].name)) by {
            if e < k - 1 {
                assert(prev.contains((ex[e].id, ex[e].name)));
                let w = choose|w: int| 0 <= w < prev.len() && prev[w] == (ex[e].id, ex[e].name);
                assert(cur[w] == prev[w]);
            } else {
                assert(cur[cur.len() - 1] == (ex[e].id, ex[e].name));
            }
        }
    }
}

/// The groups that a whole-account import pauses are exactly the existing
/// groups that are not yet paused and whose name the import does not mention.
pub proof fn law_paused_groups_are_the_unmentioned(t: Tally, ex: Seq<ExistingView>, fresh: Seq<GroupId>)
    ensures
        ({
            let paused = import_all_report(t, ex, fresh).paused;
            &&& forall|p: int| 0 <= p < paused.len() ==> exists|e: int| {
                &&& 0 <= e < ex.len()
                &&& #[trigger] paused[p] == (ex[e].id, ex[e].name)
                &&& !ex[e].paused
                &&& !t.names.contains(ex[e].name)
            }
            &&& forall|e: int| 0 <= e < ex.len() && !ex[e].paused && !t.names.contains(ex[e].name) ==>
                #[trigger] paused.contains((ex[e].id, ex[e].name))
        }),
{
    lemma_paused_refs(ex, t.names, ex.len() as int);
}

} // verus!

verus! {

/// A filter that an export writes out imports back unchanged: its line
/// (ticker, company name, group name, notes or "", enabled) is a valid import
/// row that yields the same ticker, company name, notes and enabled flag,
/// whenever the filter's fields are as the service stores them (trimmed, not
/// blank) and its ticker is already in canonical form.
pub proof fn law_exported_filter_imports_back(f: FilterEntry, group: Seq<char>, s: ImportSettings)
    requires
        trim(f.ticker@).len() > 0,
        f.company_name@ == trim(f.company_name@),
        f.company_name@.len() > 0,
        group == trim(group),
        group.len() > 0,
        f.notes matches Some(n) ==> n@ == trim(n@) && n@.len() > 0,
    ensures
        ({
            let expected = RowView {
                ticker: f.ticker@,
                company_name: f.company_name@,
                notes: opt_string_view(f.notes),
                enabled: f.enabled,
                enabled_was_missing: false,
            };
            &&& classify(f.ticker@, f.company_name@, Some(notes_text(f.notes)), Some(f.enabled), Some(group), f.ticker@, s)
                matches Verdict::Valid(row, _) && row == expected
            &&& classify(f.ticker@, f.company_name@, Some(notes_text(f.notes)), Some(f.enabled), None, f.ticker@, s)
                matches Verdict::Valid(row, _) && row == expected
        }),
{
    law_trim_idempotent(f.company_name@);
    law_trim_idempotent(group);
    match f.notes {
        Some(n) => {
            law_trim_idempotent(n@);
        },
        None => {
            assert(trim(Seq::<char>::empty()) =~= Seq::<char>::empty());
        },
    }
}

} // verus!

verus! {

// ---------------------------------------------------------------------------
// Importing a whole export back.

/// The text of a cell (a flag has none).
pub open spec fn cell_text(v: CellValue) -> Seq<char> {
    match v {
        CellValue::Text(s) => s,
        CellValue::Flag(_) => Seq::empty(),
    }
}

/// The import row that a line of a whole-account export is read back as:
/// ticker, company name, group name and notes from the text cells, the
/// enabled flag from the flag cell.
pub open spec fn line_as_row(l: Seq<CellValue>) -> InputView {
    InputView {
        ticker: cell_text(l[0]),
        company_name: cell_text(l[1]),
        group_name: Some(cell_text(l[2])),
        notes: Some(cell_text(l[3])),
        enabled: match l[4] {
            CellValue::Flag(b) => Some(b),
            CellValue::Text(_) => None,
        },
    }
}

/// The tickers of the rows (taken as their canonical forms).
pub open spec fn tickers_of(rows: Seq<InputView>) -> Seq<Seq<char>> {
    rows.map_values(|r: InputView| r.ticker)
}

/// The row that the import takes for `r`, when it takes it with its own ticker.
pub open spec fn taken_row(r: InputView, s: ImportSettings) -> RowView {
    match classify(r.ticker, r.company_name, r.notes, r.enabled, r.group_name, r.ticker, s) {
        Verdict::Valid(row, _) => row,
        _ => RowView {
            ticker: Seq::empty(),
            company_name: Seq::empty(),
            notes: None,
            enabled: false,
            enabled_was_missing: false,
        },
    }
}

/// The group name of a row (empty when it has none).
pub open spec fn group_of(r: InputView) -> Seq<char> {
    match r.group_name {
        Some(g) => g,
        None => Seq::empty(),
    }
}

/// A row that an import takes, keeping its ticker, under a trimmed, non-blank group name.
pub open spec fn clean_row(r: InputView, s: ImportSettings) -> bool {
    &&& r.group_name matches Some(g) && g == trim(g) && g.len() > 0
    &&& classify(r.ticker, r.company_name, r.notes, r.enabled, r.group_name, r.ticker, s) is Valid
    &&& taken_row(r, s).ticker == r.ticker
}

/// No two rows share both group name and ticker.
pub open spec fn pairs_distinct(rows: Seq<InputView>) -> bool {
    forall|i: int, j: int|
        0 <= i < j < rows.len() ==> !(group_of(#[trigger] rows[i]) == group_of(#[trigger] rows[j]) && rows[i].ticker
            == rows[j].ticker)
}

/// What importing the first rows of clean, pairwise distinct rows adds up to:
/// no row skipped, dropped or rejected, and each row taken under its group.
pub open spec fn clean_tally(t: Tally, rows: Seq<InputView>, n: int, s: ImportSettings) -> bool {
    &&& t.skipped == 0
    &&& t.duplicates == 0
    &&& t.errors.len() == 0
    &&& t.accepted.len() == n
    &&& forall|j: int| 0 <= j < n ==> (#[trigger] t.accepted[j]).1 == taken_row(rows[j], s)
    &&& forall|j: int| 0 <= j < n ==> t.names[(#[trigger] t.accepted[j]).0] == group_of(rows[j])
    &&& forall|k: int| 0 <= k < t.names.len() ==> exists|j: int| 0 <= j < n && group_of(#[trigger] rows[j]) == #[trigger] t.names[k]
}

proof fn lemma_clean_prefix(rows: Seq<InputView>, s: ImportSettings, n: int)
    requires
        0 <= n <= rows.len(),
        forall|i: int| 0 <= i < rows.len() ==> clean_row(#[trigger] rows[i], s),
        pairs_distinct(rows),
    ensures
        clean_tally(tally(rows.take(n), tickers_of(rows), s), rows, n, s),
    decreases n,
{
    let nz = tickers_of(rows);
    if n == 0 {
        assert(rows.take(0).len() == 0);
    } else {
        let m = n - 1;
        lemma_clean_prefix(rows, s, m);
        lemma_tally_wf(rows.take(m), nz, s);
        let st = tally(rows.take(m), nz, s);
        assert(rows.take(n).take(m) =~= rows.take(m));
        assert(rows.take(n)[m] == rows[m]);
        let r = rows[m];
        assert(clean_row(r, s));
        assert(nz[m] == r.ticker);
        let row = taken_row(r, s);
        let key = crate::import::group_key(r);
        law_trim_idempotent(group_of(r));
        assert(key == group_of(r));
        let known = st.names.contains(key);
        let gi = if known { crate::import::name_pos(st.names, key) } else { st.names.len() as int };
        if known {
            let w = choose|i: int| 0 <= i < st.names.len() && st.names[i] == key;
            assert(0 <= gi < st.names.len() && st.names[gi] == key);
        }
        if is_duplicate(st.accepted, gi, row.ticker) {
            let j = choose|j: int| 0 <= j < st.accepted.len() && st.accepted[j].0 == gi && #[trigger] st.accepted[j].1.ticker
                == row.ticker;
            assert(st.accepted[j].1 == taken_row(rows[j], s));
            assert(st.names[st.accepted[j].0] == group_of(rows[j]));
            assert(clean_row(rows[j], s));
            assert(group_of(rows[j]) == group_of(rows[m]) && rows[j].ticker == rows[m].ticker);
            assert(false);
        }
        let nt = tally(rows.take(n), nz, s);
        assert(nt == step_of(st, r, s, n));
        assert(nt.accepted == st.accepted.push((gi, row)));
        assert forall|j: int| 0 <= j < n implies (#[trigger] nt.accepted[j]).1 == taken_row(rows[j], s) by {
            if j < m {
                assert(nt.accepted[j] == st.accepted[j]);
            }
        }
        assert forall|j: int| 0 <= j < n implies nt.names[(#[trigger] nt.accepted[j]).0] == group_of(rows[j]) by {
            if j < m {
                assert(nt.accepted[j] == st.accepted[j]);
                assert(0 <= st.accepted[j].0 < st.names.len());
                assert(nt.names[st.accepted[j].0] == st.names[st.accepted[j].0]);
            }
        }
        assert forall|k: int| 0 <= k < nt.names.len() implies exists|j: int| 0 <= j < n && group_of(#[trigger] rows[j]) == #[trigger] nt.names[k] by {
            if k < st.names.len() {
                assert(nt.names[k] == st.names[k]);
                let j = choose|j: int| 0 <= j < m && group_of(#[trigger] rows[j]) == st.names[k];
                assert(group_of(rows[j]) == nt.names[k]);
            } else {
                assert(nt.names[k] == key);
                assert(group_of(rows[m]) == nt.names[k]);
            }
        }
    }
}

spec fn step_of(st: Tally, r: InputView, s: ImportSettings, n: int) -> Tally {
    crate::import::step(st, r, r.ticker, n as nat, s)
}

} // verus!

verus! {

/// Whether `l` is the export line of some filter of some group.
pub open spec fn exported_line(groups: Seq<GroupFilters>, l: Seq<CellValue>) -> bool {
    exists|g: int, k: int|
        0 <= g < groups.len() && 0 <= k < groups[g].filters@.len() && l == filter_line_all(
            #[trigger] groups[g].filters@[k],
            groups[g].name@,
        )
}

proof fn lemma_line_origin(groups: Seq<GroupFilters>)
    ensures
        forall|i: int| 0 <= i < all_lines(groups).len() ==> exported_line(groups, #[trigger] all_lines(groups)[i]),
    decreases groups.len(),
{
    if groups.len() > 0 {
        let prev = groups.drop_last();
        lemma_line_origin(prev);
        let cur = all_lines(groups);
        let pl = all_lines(prev);
        assert(cur == pl + group_lines(groups.last()));
        assert forall|i: int| 0 <= i < cur.len() implies exported_line(groups, #[trigger] cur[i]) by {
            if i < pl.len() {
                assert(cur[i] == pl[i]);
                assert(exported_line(prev, pl[i]));
                let (g, k) = choose|g: int, k: int|
                    0 <= g < prev.len() && 0 <= k < prev[g].filters@.len() && pl[i] == filter_line_all(
                        #[trigger] prev[g].filters@[k],
                        prev[g].name@,
                    );
                assert(prev[g] == groups[g]);
                assert(groups[g].filters@[k] == prev[g].filters@[k]);
            } else {
                let g = groups.len() - 1;
                let k = i - pl.len();
                assert(cur[i] == group_lines(groups.last())[k]);
                assert(groups.last() == groups[g]);
                assert(cur[i] == filter_line_all(groups[g].filters@[k], groups[g].name@));
            }
        }
    }
}

proof fn lemma_line_of(groups: Seq<GroupFilters>, g: int, k: int)
    requires
        0 <= g < groups.len(),
        0 <= k < groups[g].filters@.len(),
    ensures
        exists|i: int|
            0 <= i < all_lines(groups).len() && #[trigger] all_lines(groups)[i] == filter_line_all(
                groups[g].filters@[k],
                groups[g].name@,
            ),
    decreases groups.len(),
{
    let prev = groups.drop_last();
    let pl = all_lines(prev);
    let cur = all_lines(groups);
    if g == groups.len() - 1 {
        let i = pl.len() + k;
        assert(cur[i] == group_lines(groups.last())[k]);
    } else {
        lemma_line_of(prev, g, k);
        assert(prev[g] == groups[g]);
        let i = choose|i: int| 0 <= i < pl.len() && #[trigger] pl[i] == filter_line_all(prev[g].filters@[k], prev[g].name@);
        assert(cur[i] == pl[i]);
    }
}

} // verus!

verus! {

/// A filter's fields as the service stores them: the ticker not blank, the
/// company name trimmed and not blank, the notes trimmed and not blank when present.
pub open spec fn stored_filter(f: FilterEntry) -> bool {
    &&& trim(f.ticker@).len() > 0
    &&& f.company_name@ == trim(f.company_name@)
    &&& f.company_name@.len() > 0
    &&& f.notes matches Some(n) ==> n@ == trim(n@) && n@.len() > 0
}

/// The row that an import keeps for a stored filter: its own fields.
pub open spec fn stored_row(f: FilterEntry) -> RowView {
    RowView {
        ticker: f.ticker@,
        company_name: f.company_name@,
        notes: opt_string_view(f.notes),
        enabled: f.enabled,
        enabled_was_missing: false,
    }
}

/// The import rows that a whole-account export is read back as, line by line.
pub open spec fn export_import_rows(groups: Seq<GroupFilters>) -> Seq<InputView> {
    all_lines(groups).map_values(|l: Seq<CellValue>| line_as_row(l))
}

/// Whether the `j`-th imported row is the export line of a filter `f` of a
/// group, was taken as `f` itself, and went to that group.
pub open spec fn taken_back(groups: Seq<GroupFilters>, t: Tally, j: int) -> bool {
    exists|g: int, k: int|
        0 <= g < groups.len() && 0 <= k < groups[g].filters@.len() && all_lines(groups)[j] == filter_line_all(
            #[trigger] groups[g].filters@[k],
            groups[g].name@,
        ) && t.accepted[j].1 == stored_row(groups[g].filters@[k]) && t.names[t.accepted[j].0] == groups[g].name@
}

proof fn lemma_no_created(names: Seq<Seq<char>>, ex: Seq<ExistingView>, fresh: Seq<GroupId>, k: int)
    requires
        k <= names.len(),
        forall|i: int| 0 <= i < k ==> last_match(ex, #[trigger] names[i]) is Some,
    ensures
        created_refs(names, ex, fresh, k).len() == 0,
    decreases k,
{
    if k > 0 {
        lemma_no_created(names, ex, fresh, k - 1);
        assert(last_match(ex, names[k - 1]) is Some);
    }
}

proof fn lemma_no_paused(ex: Seq<ExistingView>, names: Seq<Seq<char>>, k: int)
    requires
        k <= ex.len(),
        forall|e: int| 0 <= e < k ==> (#[trigger] ex[e]).paused || names.contains(ex[e].name),
    ensures
        paused_refs(ex, names, k).len() == 0,
    decreases k,
{
    if k > 0 {
        lemma_no_paused(ex, names, k - 1);
        assert(ex[k - 1].paused || names.contains(ex[k - 1].name));
    }
}

/// Exporting an account's filters and importing the export back changes
/// nothing: every line is taken, none is skipped, dropped or rejected, no
/// group is created or paused, and each line is taken as its own filter into
/// its own group, so that each group's filters are replaced by themselves, in
/// order. This holds where the filters are as the service stores them (with
/// canonical tickers), group names are trimmed and not blank, no group holds a
/// ticker twice, every exported group exists, and every active existing group
/// has a filter in the export.
pub proof fn law_whole_export_imports_back(
    groups: Seq<GroupFilters>,
    ex: Seq<ExistingView>,
    fresh: Seq<GroupId>,
    s: ImportSettings,
)
    requires
        forall|g: int| 0 <= g < groups.len() ==> (#[trigger] groups[g]).name@ == trim(groups[g].name@)
            && groups[g].name@.len() > 0,
        forall|g: int, k: int|
            0 <= g < groups.len() && 0 <= k < groups[g].filters@.len() ==> stored_filter(
                #[trigger] groups[g].filters@[k],
            ),
        pairs_distinct(export_import_rows(groups)),
        forall|g: int| 0 <= g < groups.len() ==> exists|e: int| 0 <= e < ex.len() && #[trigger] ex[e].name == (#[trigger] groups[g]).name@,
        forall|e: int|
            0 <= e < ex.len() && !(#[trigger] ex[e]).paused ==> exists|g: int|
                0 <= g < groups.len() && (#[trigger] groups[g]).filters@.len() > 0 && groups[g].name@ == ex[e].name,
    ensures
        ({
            let rows = export_import_rows(groups);
            let t = tally(rows, tickers_of(rows), s);
            let rep = import_all_report(t, ex, fresh);
            &&& rep.imported == all_lines(groups).len()
            &&& rep.skipped == 0
            &&& rep.duplicates == 0
            &&& rep.errors.len() == 0
            &&& rep.created.len() == 0
            &&& rep.paused.len() == 0
            &&& forall|j: int| 0 <= j < all_lines(groups).len() ==> #[trigger] taken_back(groups, t, j)
            &&& import_all_actions(t, ex, fresh, false) == group_actions(t, ex, fresh, t.names.len() as int)
        }),
{
    let lines = all_lines(groups);
    let rows = export_import_rows(groups);
    let nz = tickers_of(rows);
    lemma_line_origin(groups);
    assert forall|i: int| 0 <= i < rows.len() implies clean_row(#[trigger] rows[i], s) && exists|g: int, k: int|
        0 <= g < groups.len() && 0 <= k < groups[g].filters@.len() && lines[i] == filter_line_all(
            #[trigger] groups[g].filters@[k],
            groups[g].name@,
        ) && taken_row(rows[i], s) == stored_row(groups[g].filters@[k]) by {
        assert(exported_line(groups, lines[i]));
        let (g, k) = choose|g: int, k: int|
            0 <= g < groups.len() && 0 <= k < groups[g].filters@.len() && lines[i] == filter_line_all(
                #[trigger] groups[g].filters@[k],
                groups[g].name@,
            );
        let f = groups[g].filters@[k];
        let name = groups[g].name@;
        assert(stored_filter(f));
        assert(rows[i] == line_as_row(lines[i]));
        law_exported_filter_imports_back(f, name, s);
    }
    lemma_clean_prefix(rows, s, rows.len() as int);
    assert(rows.take(rows.len() as int) =~= rows);
    let t = tally(rows, nz, s);
    lemma_tally_wf(rows, nz, s);
    assert forall|j: int| 0 <= j < lines.len() implies #[trigger] taken_back(groups, t, j) by {
        let (g, k) = choose|g: int, k: int|
            0 <= g < groups.len() && 0 <= k < groups[g].filters@.len() && lines[j] == filter_line_all(
                #[trigger] groups[g].filters@[k],
                groups[g].name@,
            ) && taken_row(rows[j], s) == stored_row(groups[g].filters@[k]);
        assert(t.accepted[j].1 == taken_row(rows[j], s));
        assert(t.names[t.accepted[j].0] == group_of(rows[j]));
        assert(rows[j] == line_as_row(lines[j]));
    }
    // Every name the import collects is an exported group's, which exists.
    assert forall|i: int| 0 <= i < t.names.len() implies last_match(ex, #[trigger] t.names[i]) is Some by {
        let j = choose|j: int| 0 <= j < rows.len() && group_of(#[trigger] rows[j]) == t.names[i];
        assert(exported_line(groups, lines[j]));
        let (g, k) = choose|g: int, k: int|
            0 <= g < groups.len() && 0 <= k < groups[g].filters@.len() && lines[j] == filter_line_all(
                #[trigger] groups[g].filters@[k],
                groups[g].name@,
            );
        assert(rows[j] == line_as_row(lines[j]));
        assert(group_of(rows[j]) == groups[g].name@);
        let e = choose|e: int| 0 <= e < ex.len() && #[trigger] ex[e].name == groups[g].name@;
        lemma_last_match(ex, t.names[i]);
    }
    lemma_no_created(t.names, ex, fresh, t.names.len() as int);
    // Every active existing group is mentioned.
    assert forall|e: int| 0 <= e < ex.len() implies (#[trigger] ex[e]).paused || t.names.contains(ex[e].name) by {
        if !ex[e].paused {
            let g = choose|g: int| 0 <= g < groups.len() && (#[trigger] groups[g]).filters@.len() > 0 && groups[g].name@
                == ex[e].name;
            lemma_line_of(groups, g, 0);
            let i = choose|i: int| 0 <= i < lines.len() && #[trigger] lines[i] == filter_line_all(
                groups[g].filters@[0],
                groups[g].name@,
            );
            assert(rows[i] == line_as_row(lines[i]));
            assert(group_of(rows[i]) == ex[e].name);
            assert(t.names[t.accepted[i].0] == group_of(rows[i]));
            assert(0 <= t.accepted[i].0 < t.names.len());
        }
    }
    lemma_no_paused(ex, t.names, ex.len() as int);
    let paused = paused_refs(ex, t.names, ex.len() as int);
    assert(crate::import::pause_actions(paused) =~= Seq::<crate::import::ActionView>::empty());
    assert(import_all_actions(t, ex, fresh, false) =~= group_actions(t, ex, fresh, t.names.len() as int));
}

} // verus!

verus! {

// ---------------------------------------------------------------------------
// What a row must hold to be taken, and where the rejected rows go.

/// A row is taken only when it has a ticker and a company name (and, in a
/// whole-account import, a group name); a row that names only one of ticker
/// and company name is an error row saying that one of them is missing; a
/// row with nothing in it is skipped.
pub proof fn law_taken_rows_are_complete(
    ticker: Seq<char>,
    company_name: Seq<char>,
    notes: Option<Seq<char>>,
    enabled: Option<bool>,
    group: Option<Seq<char>>,
    normalized: Seq<char>,
    s: ImportSettings,
)
    ensures
        classify(ticker, company_name, notes, enabled, group, normalized, s) is Valid ==> trim(ticker).len() > 0
            && trim(company_name).len() > 0,
        classify(ticker, company_name, notes, enabled, group, normalized, s) is Valid && group is Some ==> trim(
            group->0,
        ).len() > 0,
        trim(ticker).len() == 0 && trim(company_name).len() > 0 ==> classify(
            ticker,
            company_name,
            notes,
            enabled,
            group,
            normalized,
            s,
        ) == Verdict::Broken("TickerとCompanyNameのどちらかが欠落しています"@),
        trim(ticker).len() > 0 && trim(company_name).len() == 0 ==> classify(
            ticker,
            company_name,
            notes,
            enabled,
            group,
            normalized,
            s,
        ) == Verdict::Broken("TickerとCompanyNameのどちらかが欠落しています"@),
        trim(ticker).len() == 0 && trim(company_name).len() == 0 && (group matches Some(g) ==> trim(g).len() == 0)
            ==> classify(ticker, company_name, notes, enabled, group, normalized, s) == Verdict::EmptySkip,
{
}

/// The error rows of a sequence of rows: (1-based row number, reason) of each
/// row that classifies as broken, in input order.
pub open spec fn broken_rows(rows: Seq<InputView>, normalized: Seq<Seq<char>>, s: ImportSettings) -> Seq<(nat, Seq<char>)>
    decreases rows.len(),
{
    if rows.len() == 0 {
        Seq::empty()
    } else {
        let n = rows.len() - 1;
        let prev = broken_rows(rows.take(n), normalized, s);
        let r = rows[n];
        match classify(r.ticker, r.company_name, r.notes, r.enabled, r.group_name, normalized[n], s) {
            Verdict::Broken(reason) => prev.push((rows.len() as nat, reason)),
            _ => prev,
        }
    }
}

proof fn lemma_errors_are_broken_rows(rows: Seq<InputView>, normalized: Seq<Seq<char>>, s: ImportSettings)
    ensures
        tally(rows, normalized, s).errors == broken_rows(rows, normalized, s),
    decreases rows.len(),
{
    if rows.len() > 0 {
        let n = rows.len() - 1;
        lemma_errors_are_broken_rows(rows.take(n), normalized, s);
        assert(rows.take(n).len() == n);
    }
}

/// An import into one group accounts for every row in its report: the
/// imported, skipped, duplicate and error rows add up to the rows given, and
/// the error rows are exactly the broken rows, with their row numbers, in order.
pub proof fn law_group_import_reports_every_row(
    owner: Option<UserId>,
    requester: UserId,
    group_id: GroupId,
    rows: Seq<InputView>,
    normalized: Seq<Seq<char>>,
    s: ImportSettings,
    dry_run: bool,
    r: Result<ImportPlan, AppError>,
)
    requires
        group_import_outcome(owner, requester, group_id, tally(rows, normalized, s), dry_run, r),
    ensures
        r matches Ok(p) ==> p.result@.imported + p.result@.skipped + p.result@.duplicates + p.result@.errors.len()
            == rows.len(),
        r matches Ok(p) ==> p.result@.errors == broken_rows(rows, normalized, s),
{
    law_every_row_counted(rows, normalized, s);
    lemma_errors_are_broken_rows(rows, normalized, s);
}

/// A whole-account import accounts for every row in its report, in the same way.
pub proof fn law_import_reports_every_row(
    rows: Seq<InputView>,
    normalized: Seq<Seq<char>>,
    s: ImportSettings,
    ex: Seq<ExistingView>,
    fresh: Seq<GroupId>,
)
    ensures
        ({
            let rep = import_all_report(tally(rows, normalized, s), ex, fresh);
            &&& rep.imported + rep.skipped + rep.duplicates + rep.errors.len() == rows.len()
            &&& rep.errors == broken_rows(rows, normalized, s)
        }),
{
    law_every_row_counted(rows, normalized, s);
    lemma_errors_are_broken_rows(rows, normalized, s);
}

/// The import row that a line of a one-group export is read back as:
/// ticker, company name and notes from the text cells, the enabled flag from
/// the flag cell, and no group name.
pub open spec fn group_line_as_row(l: Seq<CellValue>) -> InputView {
    InputView {
        ticker: cell_text(l[0]),
        company_name: cell_text(l[1]),
        group_name: None,
        notes: Some(cell_text(l[2])),
        enabled: match l[3] {
            CellValue::Flag(b) => Some(b),
            CellValue::Text(_) => None,
        },
    }
}

/// A one-group export imports back unchanged: line `k + 1` of the sheet,
/// read as a row of a one-group import, is taken as filter `k` itself (its
/// ticker, company name, notes and enabled flag), for filters as the service
/// stores them.
pub proof fn law_group_export_imports_back(filters: Seq<FilterEntry>, s: ImportSettings)
    requires
        forall|k: int| 0 <= k < filters.len() ==> stored_filter(#[trigger] filters[k]),
    ensures
        forall|k: int|
            0 <= k < filters.len() ==> ({
                let r = group_line_as_row(#[trigger] filters_group_sheet(filters)[k + 1]);
                classify(r.ticker, r.company_name, r.notes, r.enabled, r.group_name, r.ticker, s) matches Verdict::Valid(
                    row,
                    _,
                ) && row == stored_row(filters[k])
            }),
{
    assert forall|k: int| 0 <= k < filters.len() implies ({
        let r = group_line_as_row(#[trigger] filters_group_sheet(filters)[k + 1]);
        classify(r.ticker, r.company_name, r.notes, r.enabled, r.group_name, r.ticker, s) matches Verdict::Valid(
            row,
            _,
        ) && row == stored_row(filters[k])
    }) by {
        let f = filters[k];
        assert(stored_filter(f));
        assert(filters_group_sheet(filters)[k + 1] == crate::export::filter_line_group(f));
        law_exported_filter_imports_back(f, seq!['g'], s);
        law_trim_idempotent(seq!['g']);
    }
}

} // verus!
