use vstd::prelude::*;
use vstd::string::StringExecFns;

use crate::access::check_group_owner;
use crate::error::AppError;
use crate::model::{GroupId, UserId};
use crate::row::{classify, classify_row, ImportSettings, NormalizedRow, RowOutcome, RowView, Verdict};
use crate::text::{opt_string_view, trim, trim_str, views};

verus! {

/// One row of a whole-account import.
pub struct ImportFilterRowInput {
    pub ticker: String,
    pub company_name: String,
    pub group_name: String,
    pub notes: Option<String>,
    pub enabled: Option<bool>,
}

/// One row of an import into a single group.
pub struct ImportGroupFilterRowInput {
    pub ticker: String,
    pub company_name: String,
    pub notes: Option<String>,
    pub enabled: Option<bool>,
}

/// A rejected row and why.
#[derive(Debug)]
pub struct ImportErrorRowData {
    pub row_number: u32,
    pub reason: String,
}

/// A warning about an accepted row.
#[derive(Debug)]
pub struct ImportWarningData {
    pub row_number: u32,
    pub message: String,
}

/// A group named in an import report.
#[derive(Debug)]
pub struct GroupRefData {
    pub id: GroupId,
    pub name: String,
}

/// The report of an import (the same whether or not it is a dry run).
#[derive(Debug)]
pub struct ImportFiltersResult {
    pub imported_count: u32,
    pub skipped_empty_rows: u32,
    pub duplicate_count: u32,
    pub error_rows: Vec<ImportErrorRowData>,
    pub created_groups: Vec<GroupRefData>,
    pub paused_groups: Vec<GroupRefData>,
    pub warnings: Vec<ImportWarningData>,
}

/// An existing group of the importing user, as the import sees it.
pub struct ExistingGroup {
    pub id: GroupId,
    pub name: String,
    pub paused: bool,
}

/// A change that carrying out an import makes to storage, in order.
#[derive(Debug)]
pub enum ImportAction {
    /// Create a group (Discord medium, empty Discord and Slack settings).
    CreateGroup { id: GroupId, name: String },
    /// Replace all filters of a group by these rows.
    ReplaceFilters { group_id: GroupId, filters: Vec<NormalizedRow> },
    /// Pause a group that the import no longer mentions.
    PauseGroup { id: GroupId },
}

/// An import's report and the changes that carry it out (none for a dry run).
#[derive(Debug)]
pub struct ImportPlan {
    pub result: ImportFiltersResult,
    pub actions: Vec<ImportAction>,
}

// ---------------------------------------------------------------------------
// The mathematical model.

/// One input row: its group name is present only in a whole-account import.
pub struct InputView {
    pub ticker: Seq<char>,
    pub company_name: Seq<char>,
    pub group_name: Option<Seq<char>>,
    pub notes: Option<Seq<char>>,
    pub enabled: Option<bool>,
}

pub open spec fn input_view(r: ImportFilterRowInput) -> InputView {
    InputView {
        ticker: r.ticker@,
        company_name: r.company_name@,
        group_name: Some(r.group_name@),
        notes: opt_string_view(r.notes),
        enabled: r.enabled,
    }
}

pub open spec fn group_input_view(r: ImportGroupFilterRowInput) -> InputView {
    InputView {
        ticker: r.ticker@,
        company_name: r.company_name@,
        group_name: None,
        notes: opt_string_view(r.notes),
        enabled: r.enabled,
    }
}

/// The name of the group that a row goes to (all rows share one in a group import).
pub open spec fn group_key(r: InputView) -> Seq<char> {
    match r.group_name {
        Some(g) => trim(g),
        None => Seq::empty(),
    }
}

/// What the rows seen so far add up to.
pub struct Tally {
    pub skipped: nat,
    pub duplicates: nat,
    /// (row number, reason) of each rejected row.
    pub errors: Seq<(nat, Seq<char>)>,
    /// (row number, message) of each warning.
    pub warnings: Seq<(nat, Seq<char>)>,
    /// The group names, in order of first appearance.
    pub names: Seq<Seq<char>>,
    /// Each accepted row, with the index of its group in `names`.
    pub accepted: Seq<(int, RowView)>,
}

pub open spec fn empty_tally() -> Tally {
    Tally {
        skipped: 0,
        duplicates: 0,
        errors: Seq::empty(),
        warnings: Seq::empty(),
        names: Seq::empty(),
        accepted: Seq::empty(),
    }
}

/// The position of `key` among `names`.
pub open spec fn name_pos(names: Seq<Seq<char>>, key: Seq<char>) -> int {
    choose|i: int| 0 <= i < names.len() && names[i] == key
}

/// Whether a row with this ticker was already accepted into group `gi`.
pub open spec fn is_duplicate(accepted: Seq<(int, RowView)>, gi: int, ticker: Seq<char>) -> bool {
    exists|j: int| 0 <= j < accepted.len() && accepted[j].0 == gi && #[trigger] accepted[j].1.ticker == ticker
}

/// Each warning tagged with a row number.
pub open spec fn tag(ws: Seq<Seq<char>>, n: nat) -> Seq<(nat, Seq<char>)> {
    ws.map_values(|w: Seq<char>| (n, w))
}

/// The tally after one more row, the `number`-th.
pub open spec fn step(st: Tally, r: InputView, normalized: Seq<char>, number: nat, s: ImportSettings) -> Tally {
    match classify(r.ticker, r.company_name, r.notes, r.enabled, r.group_name, normalized, s) {
        Verdict::EmptySkip => Tally { skipped: st.skipped + 1, ..st },
        Verdict::Broken(reason) => Tally { errors: st.errors.push((number, reason)), ..st },
        Verdict::Valid(row, ws) => {
            let key = group_key(r);
            let known = st.names.contains(key);
            let gi = if known { name_pos(st.names, key) } else { st.names.len() as int };
            if is_duplicate(st.accepted, gi, row.ticker) {
                Tally { duplicates: st.duplicates + 1, ..st }
            } else {
                Tally {
                    warnings: st.warnings + tag(ws, number),
                    names: if known { st.names } else { st.names.push(key) },
                    accepted: st.accepted.push((gi, row)),
                    ..st
                }
            }
        },
    }
}

/// The tally of a sequence of rows; `normalized[i]` is the canonical ticker of row `i`.
pub open spec fn tally(rows: Seq<InputView>, normalized: Seq<Seq<char>>, s: ImportSettings) -> Tally
    decreases rows.len(),
{
    if rows.len() == 0 {
        empty_tally()
    } else {
        let n = rows.len() - 1;
        step(tally(rows.take(n), normalized, s), rows[n], normalized[n], rows.len() as nat, s)
    }
}

/// The tally's invariant: distinct group names and in-range group indices.
pub open spec fn tally_wf(t: Tally) -> bool {
    &&& forall|i: int, j: int| 0 <= i < j < t.names.len() ==> t.names[i] != t.names[j]
    &&& forall|j: int| 0 <= j < t.accepted.len() ==> 0 <= #[trigger] t.accepted[j].0 < t.names.len()
}

pub proof fn lemma_step_wf(st: Tally, r: InputView, normalized: Seq<char>, number: nat, s: ImportSettings)
    requires
        tally_wf(st),
    ensures
        tally_wf(step(st, r, normalized, number, s)),
{
    let key = group_key(r);
    if st.names.contains(key) {
        let i = choose|i: int| 0 <= i < st.names.len() && st.names[i] == key;
        assert(0 <= name_pos(st.names, key) < st.names.len());
    }
    let nt = step(st, r, normalized, number, s);
    assert forall|j: int| 0 <= j < nt.accepted.len() implies 0 <= #[trigger] nt.accepted[j].0 < nt.names.len() by {
        if j < st.accepted.len() {
            assert(nt.accepted[j] == st.accepted[j]);
        }
    }
}

pub proof fn lemma_tally_wf(rows: Seq<InputView>, normalized: Seq<Seq<char>>, s: ImportSettings)
    ensures
        tally_wf(tally(rows, normalized, s)),
    decreases rows.len(),
{
    if rows.len() > 0 {
        let n = rows.len() - 1;
        lemma_tally_wf(rows.take(n), normalized, s);
        lemma_step_wf(tally(rows.take(n), normalized, s), rows[n], normalized[n], rows.len() as nat, s);
    }
}

} // verus!

verus! {

// ---------------------------------------------------------------------------
// Collecting the rows.

struct AcceptedRow {
    group_index: usize,
    row: NormalizedRow,
}

struct Collected {
    skipped: u32,
    duplicates: u32,
    error_rows: Vec<ImportErrorRowData>,
    warnings: Vec<ImportWarningData>,
    names: Vec<String>,
    accepted: Vec<AcceptedRow>,
}

pub open spec fn error_rows_view(v: Seq<ImportErrorRowData>) -> Seq<(nat, Seq<char>)> {
    v.map_values(|e: ImportErrorRowData| (e.row_number as nat, e.reason@))
}

pub open spec fn warnings_view(v: Seq<ImportWarningData>) -> Seq<(nat, Seq<char>)> {
    v.map_values(|w: ImportWarningData| (w.row_number as nat, w.message@))
}

spec fn accepted_view(v: Seq<AcceptedRow>) -> Seq<(int, RowView)> {
    v.map_values(|a: AcceptedRow| (a.group_index as int, a.row@))
}

spec fn collected_view(c: Collected) -> Tally {
    Tally {
        skipped: c.skipped as nat,
        duplicates: c.duplicates as nat,
        errors: error_rows_view(c.error_rows@),
        warnings: warnings_view(c.warnings@),
        names: views(c.names@),
        accepted: accepted_view(c.accepted@),
    }
}

/// The rows as the model sees them; `with_group` tells whether they carry a group name.
pub open spec fn rows_view(rows: Seq<ImportFilterRowInput>, with_group: bool) -> Seq<InputView> {
    rows.map_values(
        |r: ImportFilterRowInput|
            if with_group {
                input_view(r)
            } else {
                InputView { group_name: None, ..input_view(r) }
            },
    )
}

fn opt_as_str(o: &Option<String>) -> (r: Option<&str>)
    ensures
        crate::text::opt_str_view(r) == opt_string_view(*o),
{
    match o {
        Some(s) => Some(s.as_str()),
        None => None,
    }
}

fn find_name(names: &Vec<String>, key: &String) -> (r: Option<usize>)
    ensures
        match r {
            Some(i) => i < names@.len() && names@[i as int]@ == key@,
            None => !views(names@).contains(key@),
        },
{
    let mut i: usize = 0;
    while i < names.len()
        invariant
            i <= names@.len(),
            forall|j: int| 0 <= j < i ==> names@[j]@ != key@,
        decreases names@.len() - i,
    {
        if names[i] == *key {
            return Some(i);
        }
        i = i + 1;
    }
    proof {
        if views(names@).contains(key@) {
            let j = choose|j: int| 0 <= j < views(names@).len() && views(names@)[j] == key@;
            assert(names@[j]@ == key@);
        }
    }
    None
}

fn has_ticker(accepted: &Vec<AcceptedRow>, gi: usize, ticker: &String) -> (r: bool)
    ensures
        r == is_duplicate(accepted_view(accepted@), gi as int, ticker@),
{
    let ghost av = accepted_view(accepted@);
    let mut j: usize = 0;
    while j < accepted.len()
        invariant
            j <= accepted@.len(),
            av == accepted_view(accepted@),
            forall|k: int| 0 <= k < j ==> !(av[k].0 == gi && av[k].1.ticker == ticker@),
        decreases accepted@.len() - j,
    {
        if accepted[j].group_index == gi && accepted[j].row.ticker == *ticker {
            assert(av[j as int].1.ticker == ticker@);
            return true;
        }
        j = j + 1;
    }
    false
}

fn bump(x: &mut u32)
    requires
        *old(x) < u32::MAX,
    ensures
        *final(x) == *old(x) + 1,
{
    *x = *x + 1;
}

fn absorb_row(
    c: &mut Collected,
    r: &ImportFilterRowInput,
    with_group: bool,
    normalized: &String,
    number: u32,
    settings: &ImportSettings,
)
    requires
        tally_wf(collected_view(*old(c))),
        old(c).skipped < number,
        old(c).duplicates < number,
        old(c).accepted@.len() < number,
        old(c).names@.len() <= old(c).accepted@.len(),
    ensures
        collected_view(*final(c)) == step(
            collected_view(*old(c)),
            rows_view(seq![*r], with_group)[0],
            normalized@,
            number as nat,
            *settings,
        ),
        final(c).skipped <= old(c).skipped + 1,
        final(c).duplicates <= old(c).duplicates + 1,
        final(c).accepted@.len() <= old(c).accepted@.len() + 1,
        final(c).names@.len() <= final(c).accepted@.len(),
{
    let ghost st = collected_view(*c);
    let ghost rv = rows_view(seq![*r], with_group)[0];
    assert(seq![*r][0] == *r);
    assert(rv.ticker == r.ticker@ && rv.company_name == r.company_name@ && rv.notes == opt_string_view(r.notes)
        && rv.enabled == r.enabled);
    let group: Option<&str> = if with_group { Some(r.group_name.as_str()) } else { None };
    assert(crate::text::opt_str_view(group) == rv.group_name);
    let out = classify_row(
        r.ticker.as_str(),
        r.company_name.as_str(),
        opt_as_str(&r.notes),
        r.enabled,
        group,
        normalized.as_str(),
        settings,
    );
    match out {
        RowOutcome::EmptySkip => {
            bump(&mut c.skipped);
        },
        RowOutcome::Broken { reason } => {
            c.error_rows.push(ImportErrorRowData { row_number: number, reason });
            assert(error_rows_view(c.error_rows@) =~= st.errors.push((number as nat, reason@)));
        },
        RowOutcome::Valid { row, warnings } => {
            let key = if with_group { trim_str(r.group_name.as_str()) } else { String::new() };
            assert(key@ == group_key(rv));
            let found = find_name(&c.names, &key);
            let gi: usize = match found {
                Some(i) => i,
                None => c.names.len(),
            };
            proof {
                if found.is_some() {
                    let i = found.unwrap();
                    assert(st.names[i as int] == key@);
                    assert(st.names.contains(key@));
                }
                if st.names.contains(key@) {
                    let i = found.unwrap();
                    assert(st.names[i as int] == key@);
                    let p = name_pos(st.names, key@);
                    assert(0 <= p < st.names.len() && st.names[p] == key@);
                    assert(p == i);
                }
            }
            if has_ticker(&c.accepted, gi, &row.ticker) {
                bump(&mut c.duplicates);
            } else {
                let ghost ws = views(warnings@);
                let mut tagged: Vec<ImportWarningData> = Vec::new();
                let mut k: usize = 0;
                while k < warnings.len()
                    invariant
                        k <= warnings@.len(),
                        ws == views(warnings@),
                        warnings_view(tagged@) == tag(ws.take(k as int), number as nat),
                    decreases warnings@.len() - k,
                {
                    tagged.push(ImportWarningData { row_number: number, message: warnings[k].clone() });
                    assert(tag(ws.take(k + 1), number as nat) =~= tag(ws.take(k as int), number as nat).push(
                        (number as nat, ws[k as int]),
                    ));
                    assert(warnings_view(tagged@) =~= tag(ws.take(k + 1), number as nat));
                    k = k + 1;
                }
                let ghost before = c.warnings@;
                let ghost added = tagged@;
                c.warnings.append(&mut tagged);
                assert(warnings_view(c.warnings@) =~= warnings_view(before) + warnings_view(added));
                assert(ws.take(warnings@.len() as int) =~= ws);
                let ghost tg = tag(ws, number as nat);
                if found.is_none() {
                    c.names.push(key);
                    assert(views(c.names@) =~= st.names.push(group_key(rv)));
                }
                c.accepted.push(AcceptedRow { group_index: gi, row });
                assert(accepted_view(c.accepted@) =~= st.accepted.push((gi as int, row@)));
            }
        },
    }
}

} // verus!

verus! {

fn collect_rows(
    rows: &Vec<ImportFilterRowInput>,
    normalized: &Vec<String>,
    with_group: bool,
    settings: &ImportSettings,
) -> (c: Collected)
    requires
        rows@.len() == normalized@.len(),
        rows@.len() <= u32::MAX,
    ensures
        collected_view(c) == tally(rows_view(rows@, with_group), views(normalized@), *settings),
        tally_wf(collected_view(c)),
        c.accepted@.len() <= rows@.len(),
        c.names@.len() <= c.accepted@.len(),
        c.skipped <= rows@.len(),
        c.duplicates <= rows@.len(),
{
    let ghost rv = rows_view(rows@, with_group);
    let ghost nv = views(normalized@);
    let mut c = Collected {
        skipped: 0,
        duplicates: 0,
        error_rows: Vec::new(),
        warnings: Vec::new(),
        names: Vec::new(),
        accepted: Vec::new(),
    };
    assert(rv.take(0) =~= Seq::<InputView>::empty());
    assert(collected_view(c) =~= empty_tally()) by {
        assert(error_rows_view(c.error_rows@) =~= Seq::empty());
        assert(warnings_view(c.warnings@) =~= Seq::empty());
        assert(views(c.names@) =~= Seq::empty());
        assert(accepted_view(c.accepted@) =~= Seq::empty());
    }
    let mut i: usize = 0;
    while i < rows.len()
        invariant
            i <= rows@.len(),
            rows@.len() == normalized@.len(),
            rows@.len() <= u32::MAX,
            rv == rows_view(rows@, with_group),
            nv == views(normalized@),
            collected_view(c) == tally(rv.take(i as int), nv, *settings),
            tally_wf(collected_view(c)),
            c.skipped <= i,
            c.duplicates <= i,
            c.accepted@.len() <= i,
            c.names@.len() <= c.accepted@.len(),
        decreases rows@.len() - i,
    {
        proof {
            assert(seq![rows@[i as int]][0] == rows@[i as int]);
            assert(rows_view(seq![rows@[i as int]], with_group)[0] == rv[i as int]);
            assert(rv.take(i + 1).take(i as int) =~= rv.take(i as int));
            assert(rv.take(i + 1)[i as int] == rv[i as int]);
        }
        absorb_row(&mut c, &rows[i], with_group, &normalized[i], (i + 1) as u32, settings);
        proof {
            lemma_step_wf(
                tally(rv.take(i as int), nv, *settings),
                rv[i as int],
                nv[i as int],
                (i + 1) as nat,
                *settings,
            );
        }
        i = i + 1;
    }
    assert(rv.take(rows@.len() as int) =~= rv);
    c
}

} // verus!

verus! {

// ---------------------------------------------------------------------------
// Resolving the groups of a whole-account import.

/// An existing group as the model sees it.
pub struct ExistingView {
    pub id: GroupId,
    pub name: Seq<char>,
    pub paused: bool,
}

pub open spec fn existing_view(v: Seq<ExistingGroup>) -> Seq<ExistingView> {
    v.map_values(|g: ExistingGroup| ExistingView { id: g.id, name: g.name@, paused: g.paused })
}

/// The last existing group with this name (the one a lookup by name finds).
pub open spec fn last_match(ex: Seq<ExistingView>, name: Seq<char>) -> Option<int>
    decreases ex.len(),
{
    if ex.len() == 0 {
        None
    } else if ex.last().name == name {
        Some(ex.len() - 1)
    } else {
        last_match(ex.drop_last(), name)
    }
}

/// The groups among the first `k` names that no existing group bears,
/// each with the fresh identifier reserved for its position.
pub open spec fn created_refs(names: Seq<Seq<char>>, ex: Seq<ExistingView>, fresh: Seq<GroupId>, k: int) -> Seq<(GroupId, Seq<char>)>
    decreases k,
{
    if k <= 0 {
        Seq::empty()
    } else {
        let prev = created_refs(names, ex, fresh, k - 1);
        if last_match(ex, names[k - 1]) is None {
            prev.push((fresh[k - 1], names[k - 1]))
        } else {
            prev
        }
    }
}

/// The first `k` existing groups that are not yet paused and whose name the import does not mention.
pub open spec fn paused_refs(ex: Seq<ExistingView>, names: Seq<Seq<char>>, k: int) -> Seq<(GroupId, Seq<char>)>
    decreases k,
{
    if k <= 0 {
        Seq::empty()
    } else {
        let prev = paused_refs(ex, names, k - 1);
        let g = ex[k - 1];
        if !names.contains(g.name) && !g.paused {
            prev.push((g.id, g.name))
        } else {
            prev
        }
    }
}

/// The identifier that the `k`-th named group ends up with.
pub open spec fn resolved_id(names: Seq<Seq<char>>, ex: Seq<ExistingView>, fresh: Seq<GroupId>, k: int) -> GroupId {
    match last_match(ex, names[k]) {
        Some(j) => ex[j].id,
        None => fresh[k],
    }
}

/// The accepted rows of group `k`, in input order.
pub open spec fn rows_of(accepted: Seq<(int, RowView)>, k: int) -> Seq<RowView>
    decreases accepted.len(),
{
    if accepted.len() == 0 {
        Seq::empty()
    } else {
        let prev = rows_of(accepted.drop_last(), k);
        if accepted.last().0 == k {
            prev.push(accepted.last().1)
        } else {
            prev
        }
    }
}

/// The mathematical value of an [`ImportAction`].
pub enum ActionView {
    Create(GroupId, Seq<char>),
    Replace(GroupId, Seq<RowView>),
    Pause(GroupId),
}

impl View for ImportAction {
    type V = ActionView;

    open spec fn view(&self) -> ActionView {
        match self {
            ImportAction::CreateGroup { id, name } => ActionView::Create(*id, name@),
            ImportAction::ReplaceFilters { group_id, filters } => ActionView::Replace(
                *group_id,
                filters@.map_values(|r: NormalizedRow| r@),
            ),
            ImportAction::PauseGroup { id } => ActionView::Pause(*id),
        }
    }
}

/// The changes for the first `k` groups: create it if it is new, then replace its filters.
pub open spec fn group_actions(t: Tally, ex: Seq<ExistingView>, fresh: Seq<GroupId>, k: int) -> Seq<ActionView>
    decreases k,
{
    if k <= 0 {
        Seq::empty()
    } else {
        let i = k - 1;
        let create = if last_match(ex, t.names[i]) is None {
            seq![ActionView::Create(fresh[i], t.names[i])]
        } else {
            Seq::empty()
        };
        group_actions(t, ex, fresh, i) + create + seq![
            ActionView::Replace(resolved_id(t.names, ex, fresh, i), rows_of(t.accepted, i)),
        ]
    }
}

/// Pausing each of these groups.
pub open spec fn pause_actions(paused: Seq<(GroupId, Seq<char>)>) -> Seq<ActionView> {
    paused.map_values(|p: (GroupId, Seq<char>)| ActionView::Pause(p.0))
}

/// The mathematical value of an [`ImportFiltersResult`].
pub struct ResultView {
    pub imported: nat,
    pub skipped: nat,
    pub duplicates: nat,
    pub errors: Seq<(nat, Seq<char>)>,
    pub created: Seq<(GroupId, Seq<char>)>,
    pub paused: Seq<(GroupId, Seq<char>)>,
    pub warnings: Seq<(nat, Seq<char>)>,
}

pub open spec fn refs_view(v: Seq<GroupRefData>) -> Seq<(GroupId, Seq<char>)> {
    v.map_values(|g: GroupRefData| (g.id, g.name@))
}

impl View for ImportFiltersResult {
    type V = ResultView;

    open spec fn view(&self) -> ResultView {
        ResultView {
            imported: self.imported_count as nat,
            skipped: self.skipped_empty_rows as nat,
            duplicates: self.duplicate_count as nat,
            errors: error_rows_view(self.error_rows@),
            created: refs_view(self.created_groups@),
            paused: refs_view(self.paused_groups@),
            warnings: warnings_view(self.warnings@),
        }
    }
}

/// The report of a whole-account import with this tally.
pub open spec fn import_all_report(t: Tally, ex: Seq<ExistingView>, fresh: Seq<GroupId>) -> ResultView {
    ResultView {
        imported: t.accepted.len(),
        skipped: t.skipped,
        duplicates: t.duplicates,
        errors: t.errors,
        created: created_refs(t.names, ex, fresh, t.names.len() as int),
        paused: paused_refs(ex, t.names, ex.len() as int),
        warnings: t.warnings,
    }
}

/// The changes that carry out a whole-account import (none for a dry run).
pub open spec fn import_all_actions(t: Tally, ex: Seq<ExistingView>, fresh: Seq<GroupId>, dry_run: bool) -> Seq<ActionView> {
    if dry_run {
        Seq::empty()
    } else {
        group_actions(t, ex, fresh, t.names.len() as int)
            + pause_actions(paused_refs(ex, t.names, ex.len() as int))
    }
}

pub proof fn lemma_last_match(ex: Seq<ExistingView>, name: Seq<char>)
    ensures
        last_match(ex, name) matches Some(j) ==> 0 <= j < ex.len() && ex[j].name == name,
        last_match(ex, name) is None ==> forall|j: int| 0 <= j < ex.len() ==> ex[j].name != name,
    decreases ex.len(),
{
    if ex.len() > 0 {
        lemma_last_match(ex.drop_last(), name);
        if ex.last().name != name {
            assert forall|j: int| 0 <= j < ex.len() - 1 implies ex[j] == ex.drop_last()[j] by {}
        }
    }
}

fn find_last_existing(existing: &Vec<ExistingGroup>, name: &String) -> (r: Option<usize>)
    ensures
        match last_match(existing_view(existing@), name@) {
            Some(j) => r == Some(j as usize),
            None => r is None,
        },
{
    let ghost ev = existing_view(existing@);
    let mut k: usize = existing.len();
    assert(ev.take(k as int) =~= ev);
    while k > 0
        invariant
            k <= existing@.len(),
            ev == existing_view(existing@),
            last_match(ev, name@) == last_match(ev.take(k as int), name@),
        decreases k,
    {
        let ghost pre = ev.take(k as int);
        assert(pre.last() == ev[k - 1]);
        assert(pre.drop_last() =~= ev.take(k - 1));
        if existing[k - 1].name == *name {
            return Some(k - 1);
        }
        k = k - 1;
    }
    assert(ev.take(0).len() == 0);
    None
}

} // verus!

verus! {

/// The views of a sequence of actions.
pub open spec fn actions_view(v: Seq<ImportAction>) -> Seq<ActionView> {
    v.map_values(|a: ImportAction| a@)
}

fn rows_of_group(accepted: &Vec<AcceptedRow>, k: usize) -> (filters: Vec<NormalizedRow>)
    ensures
        filters@.map_values(|r: NormalizedRow| r@) == rows_of(accepted_view(accepted@), k as int),
{
    let ghost av = accepted_view(accepted@);
    let mut filters: Vec<NormalizedRow> = Vec::new();
    let mut j: usize = 0;
    while j < accepted.len()
        invariant
            j <= accepted@.len(),
            av == accepted_view(accepted@),
            filters@.map_values(|r: NormalizedRow| r@) == rows_of(av.take(j as int), k as int),
        decreases accepted@.len() - j,
    {
        assert(av.take(j + 1).drop_last() =~= av.take(j as int));
        assert(av.take(j + 1).last() == av[j as int]);
        if accepted[j].group_index == k {
            filters.push(accepted[j].row.duplicate());
        }
        assert(filters@.map_values(|r: NormalizedRow| r@) =~= rows_of(av.take(j + 1), k as int));
        j = j + 1;
    }
    assert(av.take(accepted@.len() as int) =~= av);
    filters
}

/// Plans a whole-account import (the rows carry group names).
///
/// `normalized[i]` is the canonical form of `rows[i].ticker.trim()`;
/// `existing` are the importing user's groups; `fresh_ids[k]` is the
/// identifier that the `k`-th newly named group receives. The report is the
/// same whether or not `dry_run` is set; a dry run plans no change.
pub fn import_filters_all(
    rows: Vec<ImportFilterRowInput>,
    normalized: Vec<String>,
    settings: &ImportSettings,
    existing: Vec<ExistingGroup>,
    fresh_ids: Vec<GroupId>,
    dry_run: bool,
) -> (plan: ImportPlan)
    requires
        rows@.len() == normalized@.len(),
        rows@.len() <= u32::MAX,
        fresh_ids@.len() >= rows@.len(),
    ensures
        plan.result@ == import_all_report(
            tally(rows_view(rows@, true), views(normalized@), *settings),
            existing_view(existing@),
            fresh_ids@,
        ),
        actions_view(plan.actions@) == import_all_actions(
            tally(rows_view(rows@, true), views(normalized@), *settings),
            existing_view(existing@),
            fresh_ids@,
            dry_run,
        ),
{
    let c = collect_rows(&rows, &normalized, true, settings);
    let ghost t = collected_view(c);
    let ghost ev = existing_view(existing@);
    let ghost fresh = fresh_ids@;

    // Which named groups exist already.
    let mut created: Vec<GroupRefData> = Vec::new();
    let mut resolved: Vec<GroupId> = Vec::new();
    let mut is_new: Vec<bool> = Vec::new();
    let mut k: usize = 0;
    while k < c.names.len()
        invariant
            k <= c.names@.len(),
            c.names@.len() <= fresh.len(),
            t == collected_view(c),
            ev == existing_view(existing@),
            fresh == fresh_ids@,
            refs_view(created@) == created_refs(t.names, ev, fresh, k as int),
            resolved@.len() == k,
            is_new@.len() == k,
            forall|i: int| 0 <= i < k ==> #[trigger] resolved@[i] == resolved_id(t.names, ev, fresh, i),
            forall|i: int| 0 <= i < k ==> #[trigger] is_new@[i] == (last_match(ev, t.names[i]) is None),
        decreases c.names@.len() - k,
    {
        assert(t.names[k as int] == c.names@[k as int]@);
        proof {
            lemma_last_match(ev, t.names[k as int]);
        }
        match find_last_existing(&existing, &c.names[k]) {
            Some(j) => {
                resolved.push(existing[j].id);
                is_new.push(false);
            },
            None => {
                resolved.push(fresh_ids[k]);
                is_new.push(true);
                created.push(GroupRefData { id: fresh_ids[k], name: c.names[k].clone() });
            },
        }
        assert(refs_view(created@) =~= created_refs(t.names, ev, fresh, k + 1));
        k = k + 1;
    }

    // Existing groups that the import no longer mentions.
    let mut paused: Vec<GroupRefData> = Vec::new();
    let mut e: usize = 0;
    while e < existing.len()
        invariant
            e <= existing@.len(),
            t == collected_view(c),
            ev == existing_view(existing@),
            refs_view(paused@) == paused_refs(ev, t.names, e as int),
        decreases existing@.len() - e,
    {
        let found = find_name(&c.names, &existing[e].name);
        let mentioned = found.is_some();
        proof {
            if mentioned {
                let i = found.unwrap();
                assert(t.names[i as int] == existing@[e as int].name@);
            }
            assert(mentioned == t.names.contains(existing@[e as int].name@));
        }
        let ghost before = refs_view(paused@);
        assert(ev[e as int].name == existing@[e as int].name@);
        if !mentioned && !existing[e].paused {
            paused.push(GroupRefData { id: existing[e].id, name: existing[e].name.clone() });
            assert(refs_view(paused@) =~= before.push((ev[e as int].id, ev[e as int].name)));
        }
        assert(refs_view(paused@) =~= paused_refs(ev, t.names, e + 1));
        e = e + 1;
    }

    // The changes, unless this is a dry run.
    let mut actions: Vec<ImportAction> = Vec::new();
    if !dry_run {
        let mut k: usize = 0;
        while k < c.names.len()
            invariant
                k <= c.names@.len(),
                c.names@.len() <= fresh.len(),
                t == collected_view(c),
                ev == existing_view(existing@),
                fresh == fresh_ids@,
                resolved@.len() == c.names@.len(),
                is_new@.len() == c.names@.len(),
                forall|i: int| 0 <= i < c.names@.len() ==> #[trigger] resolved@[i] == resolved_id(t.names, ev, fresh, i),
                forall|i: int| 0 <= i < c.names@.len() ==> #[trigger] is_new@[i] == (last_match(ev, t.names[i]) is None),
                actions_view(actions@) == group_actions(t, ev, fresh, k as int),
            decreases c.names@.len() - k,
        {
            let ghost before = actions_view(actions@);
            if is_new[k] {
                actions.push(ImportAction::CreateGroup { id: fresh_ids[k], name: c.names[k].clone() });
            }
            let filters = rows_of_group(&c.accepted, k);
            actions.push(ImportAction::ReplaceFilters { group_id: resolved[k], filters });
            proof {
                let create = if last_match(ev, t.names[k as int]) is None {
                    seq![ActionView::Create(fresh[k as int], t.names[k as int])]
                } else {
                    Seq::empty()
                };
                assert(actions_view(actions@) =~= before + create + seq![
                    ActionView::Replace(resolved_id(t.names, ev, fresh, k as int), rows_of(t.accepted, k as int)),
                ]);
            }
            k = k + 1;
        }
        let mut p: usize = 0;
        let ghost groups_part = actions_view(actions@);
        while p < paused.len()
            invariant
                p <= paused@.len(),
                actions_view(actions@) == groups_part + pause_actions(refs_view(paused@).take(p as int)),
            decreases paused@.len() - p,
        {
            let ghost before = actions_view(actions@);
            actions.push(ImportAction::PauseGroup { id: paused[p].id });
            assert(actions_view(actions@) =~= before.push(ActionView::Pause(paused@[p as int].id)));
            assert(pause_actions(refs_view(paused@).take(p + 1)) =~= pause_actions(refs_view(paused@).take(p as int)).push(
                ActionView::Pause(paused@[p as int].id),
            ));
            assert(actions_view(actions@) =~= groups_part + pause_actions(refs_view(paused@).take(p + 1)));
            p = p + 1;
        }
        assert(refs_view(paused@).take(paused@.len() as int) =~= refs_view(paused@));
    } else {
        assert(actions_view(actions@) =~= Seq::empty());
    }

    let result = ImportFiltersResult {
        imported_count: c.accepted.len() as u32,
        skipped_empty_rows: c.skipped,
        duplicate_count: c.duplicates,
        error_rows: c.error_rows,
        created_groups: created,
        paused_groups: paused,
        warnings: c.warnings,
    };
    ImportPlan { result, actions }
}

} // verus!

verus! {

/// The rows of a group import as the model sees them.
pub open spec fn group_rows_view(rows: Seq<ImportGroupFilterRowInput>) -> Seq<InputView> {
    rows.map_values(|r: ImportGroupFilterRowInput| group_input_view(r))
}

/// The report of an import into one group with this tally.
pub open spec fn group_import_report(t: Tally) -> ResultView {
    ResultView {
        imported: t.accepted.len(),
        skipped: t.skipped,
        duplicates: t.duplicates,
        errors: t.errors,
        created: Seq::empty(),
        paused: Seq::empty(),
        warnings: t.warnings,
    }
}

/// The outcome of an import into group `group_id`, owned by `group_owner`
/// (`None`: no such group), requested by `requester`.
pub open spec fn group_import_outcome(
    group_owner: Option<UserId>,
    requester: UserId,
    group_id: GroupId,
    t: Tally,
    dry_run: bool,
    r: Result<ImportPlan, AppError>,
) -> bool {
    match group_owner {
        None => r matches Err(AppError::NotFound),
        Some(owner) => if owner != requester {
            r matches Err(AppError::Forbidden)
        } else if t.accepted.len() == 0 {
            r matches Err(AppError::ImportEmpty)
        } else {
            &&& r matches Ok(plan)
            &&& plan.result@ == group_import_report(t)
            &&& actions_view(plan.actions@) == if dry_run {
                Seq::empty()
            } else {
                seq![ActionView::Replace(group_id, rows_of(t.accepted, 0))]
            }
        },
    }
}

/// Plans an import into one group (the rows carry no group name): the
/// requester must own the group, and at least one row must be taken, else
/// nothing changes. `normalized[i]` is the canonical form of `rows[i].ticker.trim()`.
pub fn import_filters_for_group(
    group_owner: Option<UserId>,
    requester_user_id: UserId,
    group_id: GroupId,
    rows: Vec<ImportGroupFilterRowInput>,
    normalized: Vec<String>,
    settings: &ImportSettings,
    dry_run: bool,
) -> (r: Result<ImportPlan, AppError>)
    requires
        rows@.len() == normalized@.len(),
        rows@.len() <= u32::MAX,
    ensures
        group_import_outcome(
            group_owner,
            requester_user_id,
            group_id,
            tally(group_rows_view(rows@), views(normalized@), *settings),
            dry_run,
            r,
        ),
{
    match check_group_owner(group_owner, requester_user_id) {
        Err(e) => { return Err(e); },
        Ok(()) => {},
    }

    let mut plain: Vec<ImportFilterRowInput> = Vec::new();
    let mut i: usize = 0;
    while i < rows.len()
        invariant
            i <= rows@.len(),
            rows_view(plain@, false) =~= group_rows_view(rows@).take(i as int),
        decreases rows@.len() - i,
    {
        let r = &rows[i];
        let notes: Option<String> = match &r.notes {
            Some(n) => Some(n.clone()),
            None => None,
        };
        assert(opt_string_view(notes) == opt_string_view(r.notes));
        let item = ImportFilterRowInput {
            ticker: r.ticker.clone(),
            company_name: r.company_name.clone(),
            group_name: String::new(),
            notes,
            enabled: r.enabled,
        };
        assert(rows_view(seq![item], false)[0] == group_input_view(*r));
        let ghost before = plain@;
        plain.push(item);
        assert(rows_view(plain@, false) =~= rows_view(before, false).push(group_input_view(*r)));
        assert(rows_view(plain@, false) =~= group_rows_view(rows@).take(i + 1));
        i = i + 1;
    }
    assert(group_rows_view(rows@).take(rows@.len() as int) =~= group_rows_view(rows@));

    let c = collect_rows(&plain, &normalized, false, settings);
    if c.accepted.len() == 0 {
        return Err(AppError::ImportEmpty);
    }
    let mut actions: Vec<ImportAction> = Vec::new();
    if !dry_run {
        let filters = rows_of_group(&c.accepted, 0);
        actions.push(ImportAction::ReplaceFilters { group_id, filters });
        assert(actions_view(actions@) =~= seq![
            ActionView::Replace(group_id, rows_of(collected_view(c).accepted, 0)),
        ]);
    } else {
        assert(actions_view(actions@) =~= Seq::empty());
    }
    let result = ImportFiltersResult {
        imported_count: c.accepted.len() as u32,
        skipped_empty_rows: c.skipped,
        duplicate_count: c.duplicates,
        error_rows: c.error_rows,
        created_groups: Vec::new(),
        paused_groups: Vec::new(),
        warnings: c.warnings,
    };
    assert(refs_view(result.created_groups@) =~= Seq::empty());
    assert(refs_view(result.paused_groups@) =~= Seq::empty());
    Ok(ImportPlan { result, actions })
}

} // verus!
