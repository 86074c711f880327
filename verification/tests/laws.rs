use earnings_watch::export::{filters_all_table, FilterEntry, GroupFilters};
use earnings_watch::import::{import_filters_all, ExistingGroup, ImportAction, ImportFilterRowInput};
use earnings_watch::row::{classify_row, ImportSettings, RowOutcome};
use earnings_watch::sheet::Cell;
use earnings_watch::text::trim_str;

fn cell_text(c: &Cell) -> String {
    match c {
        Cell::Text(s) => s.clone(),
        Cell::Flag(b) => panic!("flag {b}"),
    }
}

#[test]
fn exported_filters_import_back() {
    let filters = vec![
        FilterEntry { ticker: "7203".into(), company_name: "トヨタ自動車".into(), notes: None, enabled: true },
        FilterEntry { ticker: "6758".into(), company_name: "ソニー".into(), notes: Some("注目".into()), enabled: false },
    ];
    let groups = vec![GroupFilters { name: "家族".into(), filters }];
    let table = filters_all_table(&groups);
    let settings = ImportSettings { ticker_max_len: 10, company_name_max_len: 50, notes_max_len: 50 };
    for (line, original) in table[1..].iter().zip(groups[0].filters.iter()) {
        let enabled = match line[4] {
            Cell::Flag(b) => b,
            _ => panic!(),
        };
        let ticker = cell_text(&line[0]);
        let notes = cell_text(&line[3]);
        match classify_row(&ticker, &cell_text(&line[1]), Some(&notes), Some(enabled), Some(&cell_text(&line[2])), &ticker, &settings) {
            RowOutcome::Valid { row, warnings } => {
                assert_eq!(row.ticker, original.ticker);
                assert_eq!(row.company_name, original.company_name);
                assert_eq!(row.notes, original.notes);
                assert_eq!(row.enabled, original.enabled);
                assert!(warnings.is_empty());
            }
            other => panic!("unexpected {:?}", other),
        }
    }
}

#[test]
fn every_row_is_counted_once() {
    let mk = |t: &str, c: &str, g: &str| ImportFilterRowInput {
        ticker: t.into(), company_name: c.into(), group_name: g.into(), notes: None, enabled: Some(true),
    };
    let rows = vec![mk("1", "a", "G"), mk("1", "b", "G"), mk("1", "c", "H"), mk("", "", ""), mk("2", "", "G"), mk("3", "d", " ")];
    let n = rows.len() as u32;
    let normalized: Vec<String> = rows.iter().map(|r| r.ticker.clone()).collect();
    let settings = ImportSettings { ticker_max_len: 10, company_name_max_len: 10, notes_max_len: 10 };
    let plan = import_filters_all(rows, normalized, &settings, vec![], (0..6).collect(), false);
    let r = &plan.result;
    assert_eq!(r.imported_count + r.skipped_empty_rows + r.duplicate_count + r.error_rows.len() as u32, n);
    assert_eq!((r.imported_count, r.duplicate_count, r.skipped_empty_rows, r.error_rows.len()), (2, 1, 1, 2));
    assert!(r.error_rows.windows(2).all(|w| w[0].row_number < w[1].row_number));
    let written: usize = plan
        .actions
        .iter()
        .map(|a| match a {
            ImportAction::ReplaceFilters { filters, .. } => filters.len(),
            _ => 0,
        })
        .sum();
    assert_eq!(written as u32, r.imported_count);
}

#[test]
fn trimming_twice_changes_nothing() {
    for s in ["  a b  ", "\u{3000}x\u{3000}", "", "   ", "y"] {
        let once = trim_str(s);
        assert_eq!(trim_str(&once), once);
        assert_eq!(once, s.trim());
    }
}

#[test]
fn whole_export_imports_back() {
    let entry = |t: &str, c: &str, n: Option<&str>, e: bool| FilterEntry {
        ticker: t.into(),
        company_name: c.into(),
        notes: n.map(|s| s.to_string()),
        enabled: e,
    };
    let groups = vec![
        GroupFilters { name: "家族".into(), filters: vec![entry("7203", "トヨタ", None, true), entry("6758", "ソニー", Some("注目"), false)] },
        GroupFilters { name: "友人".into(), filters: vec![entry("7203", "トヨタ", Some("x"), true)] },
    ];
    let table = filters_all_table(&groups);
    let rows: Vec<ImportFilterRowInput> = table[1..]
        .iter()
        .map(|l| ImportFilterRowInput {
            ticker: cell_text(&l[0]),
            company_name: cell_text(&l[1]),
            group_name: cell_text(&l[2]),
            notes: Some(cell_text(&l[3])),
            enabled: match l[4] {
                Cell::Flag(b) => Some(b),
                _ => None,
            },
        })
        .collect();
    let normalized: Vec<String> = rows.iter().map(|r| r.ticker.clone()).collect();
    let existing = vec![
        ExistingGroup { id: 1, name: "家族".into(), paused: false },
        ExistingGroup { id: 2, name: "友人".into(), paused: false },
        ExistingGroup { id: 3, name: "休止中".into(), paused: true },
    ];
    let settings = ImportSettings { ticker_max_len: 10, company_name_max_len: 50, notes_max_len: 50 };
    let plan = import_filters_all(rows, normalized, &settings, existing, vec![10, 11, 12], false);
    let r = &plan.result;
    assert_eq!((r.imported_count, r.skipped_empty_rows, r.duplicate_count), (3, 0, 0));
    assert!(r.error_rows.is_empty() && r.created_groups.is_empty() && r.paused_groups.is_empty());
    assert_eq!(plan.actions.len(), 2);
    for (action, (id, group)) in plan.actions.iter().zip([(1u128, &groups[0]), (2u128, &groups[1])]) {
        match action {
            ImportAction::ReplaceFilters { group_id, filters } => {
                assert_eq!(*group_id, id);
                assert_eq!(filters.len(), group.filters.len());
                for (got, want) in filters.iter().zip(group.filters.iter()) {
                    assert_eq!((&got.ticker, &got.company_name, &got.notes, got.enabled), (&want.ticker, &want.company_name, &want.notes, want.enabled));
                }
            }
            other => panic!("unexpected {:?}", other),
        }
    }
}
