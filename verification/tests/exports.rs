use earnings_watch::error::AppError;
use earnings_watch::export::{
    earnings_table, export_earnings, export_filters_all, export_filters_for_group, fetch_complete, filters_all_table,
    filters_group_table, matches_filter, EarningsRecord, ExportEarningsFilter, FilterEntry, GroupFilters,
};
use earnings_watch::model::Timestamp;
use earnings_watch::sheet::{build_workbook, save_workbook, Cell};

fn entry(ticker: &str, notes: Option<&str>, enabled: bool) -> FilterEntry {
    FilterEntry {
        ticker: ticker.to_string(),
        company_name: format!("{ticker} Corp"),
        notes: notes.map(|s| s.to_string()),
        enabled,
    }
}

fn text(c: &Cell) -> &str {
    match c {
        Cell::Text(s) => s.as_str(),
        Cell::Flag(_) => panic!("not text"),
    }
}

fn record(ticker: &str, company: &str, secs: i64, evaluation: &str) -> EarningsRecord {
    EarningsRecord {
        id: 1,
        ticker: ticker.to_string(),
        company_name: company.to_string(),
        published_at: Timestamp { secs, nanos: 0 },
        title: "決算".to_string(),
        url: "https://example.com".to_string(),
        summary: "増収".to_string(),
        evaluation: evaluation.to_string(),
    }
}

fn no_filter() -> ExportEarningsFilter {
    ExportEarningsFilter { ticker: None, company_name: None, evaluation: None, from: None, to: None }
}

#[test]
fn whole_account_table_lists_group_after_group() {
    let groups = vec![
        GroupFilters { name: "A".to_string(), filters: vec![entry("1301", None, true), entry("1332", Some("memo"), false)] },
        GroupFilters { name: "B".to_string(), filters: vec![entry("7203", None, true)] },
    ];
    let t = filters_all_table(&groups);
    assert_eq!(t.len(), 4);
    assert_eq!(text(&t[0][2]), "EarningsWatch_GroupName");
    assert_eq!(text(&t[2][0]), "1332");
    assert_eq!(text(&t[2][2]), "A");
    assert_eq!(text(&t[2][3]), "memo");
    assert!(matches!(t[2][4], Cell::Flag(false)));
    assert_eq!(text(&t[3][2]), "B");
    assert_eq!(text(&t[1][3]), "");
    let bytes = save_workbook(export_filters_all(&groups).unwrap()).unwrap();
    assert_eq!(&bytes[0..4], b"PK\x03\x04");
}

#[test]
fn group_table_has_no_group_column() {
    let t = filters_group_table(&vec![entry("1301", Some("x"), true)]);
    assert_eq!(t[0].len(), 4);
    assert_eq!(text(&t[0][2]), "EarningsWatch_Notes");
    assert_eq!(text(&t[1][2]), "x");
    assert!(export_filters_for_group(&vec![]).is_ok());
}

#[test]
fn too_long_cell_fails_the_export() {
    let long = "x".repeat(32_768);
    let table = vec![vec![Cell::Text(long)]];
    match build_workbook(&table) {
        Err(AppError::InvalidInput(m)) => assert!(m.starts_with("Excelファイルの生成に失敗しました: ")),
        Err(other) => panic!("unexpected {:?}", other),
        Ok(_) => panic!("a cell over the limit was written"),
    }
    let fits = vec![vec![Cell::Text("x".repeat(32_767)), Cell::Text(String::new())]];
    assert!(save_workbook(build_workbook(&fits).unwrap()).is_ok());
}

#[test]
fn workbook_is_built_only_from_writable_tables() {
    let fits = vec![vec![Cell::Text("a".to_string()), Cell::Flag(true)], vec![]];
    assert!(build_workbook(&fits).is_ok());
    let too_long = vec![vec![Cell::Text("y".repeat(40_000))]];
    match build_workbook(&too_long) {
        Err(AppError::InvalidInput(m)) => assert!(m.starts_with("Excelファイルの生成に失敗しました: ")),
        Err(other) => panic!("unexpected {:?}", other),
        Ok(_) => panic!("a cell over the limit was written"),
    }
}

#[test]
fn saved_export_is_an_xlsx_file() {
    let bytes = save_workbook(export_filters_for_group(&vec![entry("1301", None, true)]).unwrap()).unwrap();
    assert_eq!(&bytes[0..4], b"PK\x03\x04");
    let many: Vec<FilterEntry> = (0..200).map(|i| entry(&format!("{}", 1000 + i), Some("memo"), i % 2 == 0)).collect();
    let full = save_workbook(export_filters_for_group(&many).unwrap()).unwrap();
    let empty = save_workbook(export_filters_for_group(&vec![]).unwrap()).unwrap();
    assert!(full.len() > empty.len());
}

#[test]
fn earnings_filter_narrows() {
    let r = record("7203", "トヨタ自動車", 1_700_000_000, "Positive");
    let mut f = no_filter();
    assert!(matches_filter(&r, &f));
    f.company_name = Some("自動".to_string());
    assert!(matches_filter(&r, &f));
    f.company_name = Some("日産".to_string());
    assert!(!matches_filter(&r, &f));
    let f = ExportEarningsFilter {
        ticker: Some("7203".to_string()),
        company_name: None,
        evaluation: Some("Positive".to_string()),
        from: Some(Timestamp { secs: 1_700_000_000, nanos: 0 }),
        to: Some(Timestamp { secs: 1_700_000_000, nanos: 1 }),
    };
    assert!(matches_filter(&r, &f));
    let f2 = ExportEarningsFilter { to: Some(Timestamp { secs: 1_700_000_000, nanos: 0 }), ..f };
    assert!(!matches_filter(&r, &f2));
}

#[test]
fn earnings_table_writes_rfc3339() {
    let records = vec![record("7203", "トヨタ", 1_704_164_645, "Unrated"), record("6758", "ソニー", 0, "Positive")];
    let f = ExportEarningsFilter { evaluation: Some("Unrated".to_string()), ..no_filter() };
    let t = earnings_table(&records, &f).unwrap();
    assert_eq!(t.len(), 2);
    assert_eq!(text(&t[0][2]), "EarningsWatch_PublishedAt");
    assert_eq!(text(&t[1][2]), "2024-01-02T03:04:05+00:00");
    assert_eq!(text(&t[1][6]), "Unrated");
    assert!(export_earnings(&records, &no_filter()).is_ok());
}

#[test]
fn unrepresentable_instant_fails_the_export() {
    let records = vec![record("1", "a", i64::MAX, "Unrated")];
    assert!(earnings_table(&records, &no_filter()).is_none());
    assert!(matches!(export_earnings(&records, &no_filter()), Err(AppError::InvalidInput(_))));
}

#[test]
fn fetch_stops_on_empty_page_or_total() {
    assert!(fetch_complete(0, 3, 10));
    assert!(fetch_complete(5, 10, 10));
    assert!(!fetch_complete(5, 5, 10));
}
