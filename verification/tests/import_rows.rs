use earnings_watch::error::AppError;
use earnings_watch::import::{
    import_filters_all, import_filters_for_group, ExistingGroup, ImportAction, ImportFilterRowInput,
    ImportGroupFilterRowInput,
};
use earnings_watch::row::{classify_row, ImportSettings, RowOutcome};

fn settings() -> ImportSettings {
    ImportSettings { ticker_max_len: 4, company_name_max_len: 10, notes_max_len: 5 }
}

fn row(ticker: &str, company: &str, group: &str, notes: Option<&str>, enabled: Option<bool>) -> ImportFilterRowInput {
    ImportFilterRowInput {
        ticker: ticker.to_string(),
        company_name: company.to_string(),
        group_name: group.to_string(),
        notes: notes.map(|s| s.to_string()),
        enabled,
    }
}

#[test]
fn empty_row_is_skipped() {
    let out = classify_row("  ", "", None, None, Some("  "), "", &settings());
    assert!(matches!(out, RowOutcome::EmptySkip));
    let out = classify_row("", " ", Some("x"), Some(true), None, "", &settings());
    assert!(matches!(out, RowOutcome::EmptySkip));
}

#[test]
fn half_filled_row_is_broken() {
    match classify_row("7203", "", None, Some(true), Some("G"), "7203", &settings()) {
        RowOutcome::Broken { reason } => assert_eq!(reason, "TickerとCompanyNameのどちらかが欠落しています"),
        other => panic!("unexpected {:?}", other),
    }
}

#[test]
fn blank_group_name_is_broken() {
    match classify_row("7203", "トヨタ", None, Some(true), Some("   "), "7203", &settings()) {
        RowOutcome::Broken { reason } => assert_eq!(reason, "GroupNameが空です"),
        other => panic!("unexpected {:?}", other),
    }
}

#[test]
fn only_group_name_is_broken() {
    match classify_row("", "", None, Some(false), Some("G"), "", &settings()) {
        RowOutcome::Broken { reason } => assert_eq!(reason, "TickerとCompanyNameのどちらかが欠落しています"),
        other => panic!("unexpected {:?}", other),
    }
}

#[test]
fn valid_row_is_normalised_with_warnings() {
    let out = classify_row(" 7203a ", "  トヨタ自動車株式会社テスト  ", Some("  メモメモメモ  "), None, Some(" G "), "7203A", &settings());
    match out {
        RowOutcome::Valid { row, warnings } => {
            assert_eq!(row.ticker, "7203A");
            assert_eq!(row.company_name, "トヨタ自動車株式会社テスト");
            assert_eq!(row.notes.as_deref(), Some("メモメモメモ"));
            assert!(row.enabled);
            assert!(row.enabled_was_missing);
            assert_eq!(
                warnings,
                vec![
                    "tickerが4文字を超えています".to_string(),
                    "company_nameが10文字を超えています".to_string(),
                    "notesが5文字を超えています".to_string(),
                    "EarningsWatch_Enabledが未入力のためtrueとして扱いました".to_string(),
                ]
            );
        }
        other => panic!("unexpected {:?}", other),
    }
}

#[test]
fn blank_notes_are_dropped_and_unicode_space_is_trimmed() {
    match classify_row("\u{3000}1301\t", "極洋\u{a0}", Some(" \u{2003} "), Some(true), None, "1301", &settings()) {
        RowOutcome::Valid { row, warnings } => {
            assert_eq!(row.company_name, "極洋");
            assert_eq!(row.notes, None);
            assert!(!row.enabled_was_missing);
            assert!(warnings.is_empty());
        }
        other => panic!("unexpected {:?}", other),
    }
}

#[test]
fn whole_account_import_plans_groups() {
    let rows = vec![
        row("1301", "極洋", " A ", None, Some(true)),
        row("", "", "", None, None),
        row("1332", "", "A", None, None),
        row("1301", "極洋2", "A", None, Some(false)),
        row("1333", "マルハ", "B", Some("n"), None),
    ];
    let normalized: Vec<String> = rows.iter().map(|r| r.ticker.trim().to_string()).collect();
    let existing = vec![
        ExistingGroup { id: 10, name: "A".to_string(), paused: false },
        ExistingGroup { id: 11, name: "C".to_string(), paused: false },
        ExistingGroup { id: 12, name: "D".to_string(), paused: true },
    ];
    let fresh: Vec<u128> = (100..105).collect();
    let plan = import_filters_all(rows, normalized, &settings(), existing, fresh, false);
    let r = &plan.result;
    assert_eq!(r.imported_count, 2);
    assert_eq!(r.skipped_empty_rows, 1);
    assert_eq!(r.duplicate_count, 1);
    assert_eq!(r.error_rows.len(), 1);
    assert_eq!(r.error_rows[0].row_number, 3);
    assert_eq!(r.created_groups.len(), 1);
    assert_eq!(r.created_groups[0].id, 101);
    assert_eq!(r.created_groups[0].name, "B");
    assert_eq!(r.paused_groups.len(), 1);
    assert_eq!(r.paused_groups[0].id, 11);
    assert_eq!(r.warnings.len(), 1);
    assert_eq!(r.warnings[0].row_number, 5);
    assert_eq!(plan.actions.len(), 4);
    assert!(matches!(&plan.actions[0], ImportAction::ReplaceFilters { group_id: 10, filters } if filters.len() == 1 && filters[0].ticker == "1301"));
    assert!(matches!(&plan.actions[1], ImportAction::CreateGroup { id: 101, name } if name == "B"));
    assert!(matches!(&plan.actions[2], ImportAction::ReplaceFilters { group_id: 101, filters } if filters.len() == 1 && filters[0].notes.as_deref() == Some("n")));
    assert!(matches!(&plan.actions[3], ImportAction::PauseGroup { id: 11 }));
}

#[test]
fn dry_run_reports_without_actions() {
    let rows = vec![row("1301", "極洋", "New", None, Some(true))];
    let normalized = vec!["1301".to_string()];
    let plan = import_filters_all(rows, normalized, &settings(), vec![], vec![7], true);
    assert_eq!(plan.result.imported_count, 1);
    assert_eq!(plan.result.created_groups.len(), 1);
    assert_eq!(plan.result.created_groups[0].id, 7);
    assert!(plan.actions.is_empty());
}

#[test]
fn later_existing_namesake_wins() {
    let rows = vec![row("1301", "極洋", "A", None, Some(true))];
    let existing = vec![
        ExistingGroup { id: 1, name: "A".to_string(), paused: false },
        ExistingGroup { id: 2, name: "A".to_string(), paused: false },
    ];
    let plan = import_filters_all(rows, vec!["1301".to_string()], &settings(), existing, vec![9], false);
    assert!(plan.result.created_groups.is_empty());
    assert!(plan.result.paused_groups.is_empty());
    assert!(matches!(&plan.actions[0], ImportAction::ReplaceFilters { group_id: 2, .. }));
}

fn grow(ticker: &str, company: &str) -> ImportGroupFilterRowInput {
    ImportGroupFilterRowInput { ticker: ticker.to_string(), company_name: company.to_string(), notes: None, enabled: Some(true) }
}

#[test]
fn group_import_checks_owner() {
    let r = import_filters_for_group(None, 1, 5, vec![grow("1", "a")], vec!["1".to_string()], &settings(), false);
    assert!(matches!(r, Err(AppError::NotFound)));
    let r = import_filters_for_group(Some(2), 1, 5, vec![grow("1", "a")], vec!["1".to_string()], &settings(), false);
    assert!(matches!(r, Err(AppError::Forbidden)));
}

#[test]
fn group_import_without_valid_rows_is_empty() {
    let r = import_filters_for_group(Some(1), 1, 5, vec![grow("", ""), grow("1", "")], vec![String::new(), "1".to_string()], &settings(), false);
    assert!(matches!(r, Err(AppError::ImportEmpty)));
}

#[test]
fn group_import_replaces_filters() {
    let rows = vec![grow("1301", "極洋"), grow("1301", "again"), grow("1332", "日水")];
    let normalized = vec!["1301".to_string(), "1301".to_string(), "1332".to_string()];
    let plan = import_filters_for_group(Some(1), 1, 5, rows, normalized, &settings(), false).unwrap();
    assert_eq!(plan.result.imported_count, 2);
    assert_eq!(plan.result.duplicate_count, 1);
    assert!(plan.result.created_groups.is_empty() && plan.result.paused_groups.is_empty());
    assert_eq!(plan.actions.len(), 1);
    assert!(matches!(&plan.actions[0], ImportAction::ReplaceFilters { group_id: 5, filters } if filters.len() == 2 && filters[1].ticker == "1332"));
    let preview = import_filters_for_group(Some(1), 1, 5, vec![grow("1301", "極洋")], vec!["1301".to_string()], &settings(), true).unwrap();
    assert!(preview.actions.is_empty());
}
