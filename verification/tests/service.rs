use earnings_watch::access::{
    check_filter_in_group, check_group_owner, ensure_username_free, require_found, validate_admin_credentials,
    validate_group_name, validate_username,
};
use earnings_watch::admin::{parse_run_type, run_durations, SystemRunType};
use earnings_watch::auth::{
    auth_user_from_claims, generate_temp_password, password_from_draws, login_account_gate, login_password_gate, me_username,
    refresh_account_gate, refresh_token_gate, require_admin, require_refresh_cookie, AuthUser, Claims,
};
use earnings_watch::cookie::{build_access_token_cookie, build_refresh_token_cookie, build_removal_cookie};
use earnings_watch::dashboard::{count_webhook_missing, get_dashboard, user_summary, window_suffices, FilterBreakdown, GroupSummary};
use earnings_watch::dto::{health, DashboardResponse, list_filters_page, ImportFiltersResponse, ListFiltersQuery};
use earnings_watch::error::{ApiAppError, ApiErrorCode, ApiResponse, AppError};
use earnings_watch::filters::{bulk_filter_action, create_filter, filter_ids_owned_by_user, update_filter, BulkAction, BulkStep};
use earnings_watch::group_config::{
    bulk_destination, check_embed_color, plan_test_message, test_send_medium_gate, test_send_outcome, webhook_to_store,
    TestSendInput,
};
use earnings_watch::import::import_filters_all;
use earnings_watch::model::{NotifyMedium, Role, Timestamp};
use earnings_watch::paging::{author_name, build_page, display_order_of, page_slice, pages_to_list, total_pages, PageKind, PageType};
use earnings_watch::row::ImportSettings;

#[test]
fn app_errors_map_to_api_errors() {
    let e = ApiAppError::from_app_error(AppError::InvalidInput("x".to_string()));
    assert_eq!(e.0, ApiErrorCode::InvalidRequest);
    assert_eq!(e.1, "入力が不正です: x");
    let e = ApiAppError::from_app_error(AppError::UsernameAlreadyExists);
    assert_eq!((e.0, e.1.as_str()), (ApiErrorCode::AlreadyExists, "ユーザ名は既に使用されています"));
    let e = ApiAppError::from_app_error(AppError::Repository("db down".to_string()));
    assert_eq!((e.0, e.1.as_str()), (ApiErrorCode::InternalError, "内部エラーが発生しました"));
    let e = ApiAppError::from_app_error(AppError::ImportEmpty);
    assert_eq!((e.0, e.1.as_str()), (ApiErrorCode::ImportEmpty, "インポート対象の行が1件もありません"));
    let e = ApiAppError::from_app_error(AppError::NotFound);
    assert_eq!(e.0.status_code(), 404);
    assert_eq!(ApiErrorCode::AlreadyExists.status_code(), 409);
    assert_eq!(ApiErrorCode::InvalidRequest.status_code(), 422);
    assert_eq!(ApiErrorCode::NotifyRejected.status_code(), 502);
    assert_eq!(ApiErrorCode::InternalError.status_code(), 500);
    let r = ApiResponse::err(ApiErrorCode::Forbidden, "no".to_string());
    assert!(r.data.is_none() && r.error.unwrap().message == "no");
    let ok = ApiResponse::ok(5u32);
    assert_eq!(ok.data, Some(5));
}

#[test]
fn ownership_checks() {
    assert!(matches!(check_group_owner(None, 1), Err(AppError::NotFound)));
    assert!(matches!(check_group_owner(Some(2), 1), Err(AppError::Forbidden)));
    assert!(check_group_owner(Some(1), 1).is_ok());
    assert!(matches!(check_filter_in_group(Some(3), 4), Err(AppError::NotFound)));
    assert!(check_filter_in_group(Some(4), 4).is_ok());
    assert!(matches!(require_found::<u8>(None), Err(AppError::NotFound)));
    assert_eq!(require_found(Some(3u8)).unwrap(), 3);
}

#[test]
fn group_names_are_trimmed_and_bounded() {
    assert_eq!(validate_group_name("  家族  ").unwrap(), "家族");
    let thirty = "あ".repeat(30);
    assert_eq!(validate_group_name(&thirty).unwrap(), thirty);
    match validate_group_name(&"あ".repeat(31)) {
        Err(AppError::InvalidInput(m)) => assert_eq!(m, "グループ名は1〜30文字で入力してください"),
        _ => panic!(),
    }
    assert!(validate_group_name("   ").is_err());
}

#[test]
fn user_names_and_passwords() {
    assert_eq!(validate_username(" bob ").unwrap(), "bob");
    assert!(matches!(validate_username(" "), Err(AppError::InvalidInput(m)) if m == "ユーザ名を入力してください"));
    assert!(matches!(validate_admin_credentials("bob", ""), Err(AppError::InvalidInput(m)) if m == "パスワードを入力してください"));
    assert!(matches!(validate_admin_credentials("", ""), Err(AppError::InvalidInput(m)) if m == "ユーザ名を入力してください"));
    assert!(matches!(ensure_username_free(true), Err(AppError::UsernameAlreadyExists)));
    assert!(ensure_username_free(false).is_ok());
}

#[test]
fn filter_fields() {
    let f = create_filter("7203", "  トヨタ ", Some(" memo ".to_string())).unwrap();
    assert_eq!(f.company_name, "トヨタ");
    assert_eq!(f.notes.as_deref(), Some(" memo "));
    assert!(f.enabled);
    assert!(matches!(create_filter("", "x", None), Err(AppError::InvalidInput(m)) if m == "tickerを入力してください"));
    assert!(matches!(create_filter("1", " ", None), Err(AppError::InvalidInput(m)) if m == "company_nameを入力してください"));
    let u = update_filter(f, "6758", "ソニー", None).unwrap();
    assert!(u.enabled && u.ticker == "6758" && u.notes.is_none());
}

#[test]
fn bulk_filter_steps() {
    assert_eq!(bulk_filter_action(9, false, BulkAction::Delete, 2), (None, 2));
    assert_eq!(bulk_filter_action(9, true, BulkAction::Delete, 2), (Some(BulkStep::Delete(9)), 3));
    assert_eq!(bulk_filter_action(9, true, BulkAction::Disable, 0), (Some(BulkStep::SetEnabled(9, false)), 1));
    let owned = filter_ids_owned_by_user(&vec![1, 2, 3], &vec![Some(7), None, Some(8)], 7);
    assert_eq!(owned, vec![1]);
}

#[test]
fn temp_passwords_use_the_unambiguous_alphabet() {
    for _ in 0..20 {
        let p = generate_temp_password();
        assert_eq!(p.chars().count(), 12);
        assert!(p.chars().all(|c| "ABCDEFGHJKMNPQRSTUVWXYZabcdefghijkmnpqrstuvwxyz23456789".contains(c)));
    }
    let a = generate_temp_password();
    let b = generate_temp_password();
    let c = generate_temp_password();
    assert!(a != b || b != c);
}

#[test]
fn passwords_spell_their_draws() {
    let p = password_from_draws(&vec![0, 1, 2, 22, 23, 46, 47, 54, 0, 0, 8, 9]);
    assert_eq!(p, "ABCZaz29AAJK");
}

#[test]
fn a_failed_save_is_answered_as_bad_input() {
    let e = ApiAppError::from_app_error(AppError::ExportSaveFailed("disk".to_string()));
    assert_eq!((e.0, e.1.as_str()), (ApiErrorCode::InvalidRequest, "入力が不正です: disk"));
}

#[test]
fn login_and_refresh_gates() {
    assert!(matches!(login_account_gate(None), Err(AppError::InvalidCredentials)));
    assert!(matches!(login_account_gate(Some(true)), Err(AppError::UserDisabled)));
    assert!(login_account_gate(Some(false)).is_ok());
    assert!(login_password_gate(Some(true)).is_ok());
    assert!(matches!(login_password_gate(Some(false)), Err(AppError::InvalidCredentials)));
    assert!(matches!(login_password_gate(None), Err(AppError::InvalidCredentials)));
    assert!(refresh_token_gate(Some((false, false))).is_ok());
    assert!(matches!(refresh_token_gate(Some((true, false))), Err(AppError::SessionInvalid)));
    assert!(matches!(refresh_token_gate(Some((false, true))), Err(AppError::SessionInvalid)));
    assert!(matches!(refresh_token_gate(None), Err(AppError::SessionInvalid)));
    assert!(matches!(refresh_account_gate(None), Err(AppError::SessionInvalid)));
    assert!(matches!(refresh_account_gate(Some(true)), Err(AppError::UserDisabled)));
}

#[test]
fn claims_name_the_caller() {
    let u = auth_user_from_claims(Some(Claims { sub: "00000000-0000-0000-0000-00000000002a".to_string(), role: Role::User })).unwrap();
    assert_eq!(u.user_id, 42);
    assert_eq!(u.role, Role::User);
    let e = auth_user_from_claims(Some(Claims { sub: "not-a-uuid".to_string(), role: Role::Admin })).unwrap_err();
    assert_eq!((e.0, e.1.as_str()), (ApiErrorCode::Unauthorized, "認証が必要です"));
    assert!(auth_user_from_claims(None).is_err());
    let e = require_admin(AuthUser { user_id: 1, role: Role::User }).unwrap_err();
    assert_eq!((e.0, e.1.as_str()), (ApiErrorCode::Forbidden, "管理者権限が必要です"));
    assert_eq!(require_admin(AuthUser { user_id: 1, role: Role::Admin }).unwrap().0.user_id, 1);
    assert_eq!(require_refresh_cookie(None).unwrap_err().1, "セッションが無効です");
    assert_eq!(me_username(Some("bob".to_string())).unwrap(), "bob");
}

#[test]
fn cookies() {
    let c = build_access_token_cookie("t".to_string(), true, 15);
    assert_eq!((c.name.as_str(), c.path.as_str(), c.max_age_secs), ("access_token", "/api", 900));
    assert!(c.http_only && c.same_site_strict && c.secure == Some(true));
    let c = build_refresh_token_cookie("r".to_string(), false, 30);
    assert_eq!((c.name.as_str(), c.path.as_str(), c.max_age_secs), ("refresh_token", "/api/auth/refresh", 2_592_000));
    let c = build_removal_cookie("access_token", "/api");
    assert!(c.value.is_empty() && c.max_age_secs == 0 && c.secure.is_none());
}

#[test]
fn dashboard_counts() {
    let groups = vec![
        GroupSummary { medium: NotifyMedium::Discord, paused: false },
        GroupSummary { medium: NotifyMedium::Slack, paused: true },
        GroupSummary { medium: NotifyMedium::Discord, paused: true },
    ];
    let configs = vec![Some(true), None, Some(false)];
    assert_eq!(count_webhook_missing(&configs), 2);
    let d = get_dashboard(&groups, &configs, FilterBreakdown { total: 9, unique_ticker_count: 7, unique_company_name_count: 6 }, vec![1u8], vec![]);
    assert_eq!((d.group_count, d.discord_group_count, d.slack_group_count, d.paused_group_count, d.webhook_missing_count), (3, 2, 1, 2, 2));
    assert_eq!((d.filter_count, d.unique_ticker_count), (9, 7));
    let s = user_summary(&groups, 4);
    assert_eq!((s.group_count, s.filter_count, s.discord_group_count, s.slack_group_count), (3, 4, 2, 1));
    assert!(window_suffices(5, 5));
    assert!(!window_suffices(4, 5));
    let r = DashboardResponse::from_data(d);
    assert_eq!((r.medium_breakdown.discord, r.medium_breakdown.slack, r.group_count), (2, 1, 3));
    assert_eq!(r.recent_sent, vec![1u8]);
}

#[test]
fn paging() {
    assert_eq!(total_pages(0, 10), 0);
    assert_eq!(total_pages(10, 10), 1);
    assert_eq!(total_pages(11, 10), 2);
    assert_eq!(total_pages(5, 0), u32::MAX);
    assert_eq!(total_pages(-3, 5), 0);
    assert_eq!(page_slice(vec![1, 2, 3, 4, 5], 2, 2), vec![3, 4]);
    assert_eq!(page_slice(vec![1, 2, 3, 4, 5], 3, 2), vec![5]);
    assert_eq!(page_slice(vec![1, 2, 3], 0, 2), vec![1, 2]);
    assert!(page_slice(vec![1, 2, 3], 9, 2).is_empty());
    let p = list_filters_page(vec![1, 2, 3], ListFiltersQuery { page: 2, per_page: 2 });
    assert_eq!((p.items, p.total_count, p.total_pages), (vec![3], 3, 2));
    let p = build_page(vec!['a'], 1, 3, 7);
    assert_eq!(p.total_pages, 3);
    assert_eq!(pages_to_list(vec![1, 2, 3], PageType::Static, Some(2), Some(1)), vec![1, 2, 3]);
    assert_eq!(pages_to_list(vec![1, 2, 3], PageType::Blog, Some(2), Some(1)), vec![2]);
    assert_eq!(pages_to_list(vec![1, 2, 3], PageType::Blog, None, Some(1)), vec![1, 2, 3]);
    assert_eq!(display_order_of(&PageKind::Static { display_order: 4 }), Some(4));
    assert_eq!(display_order_of(&PageKind::Blog), None);
    assert_eq!(author_name(None), "unknown");
}

#[test]
fn run_types_and_durations() {
    assert_eq!(parse_run_type("monitor"), Some(SystemRunType::Monitor));
    assert_eq!(parse_run_type("notify"), Some(SystemRunType::Notify));
    assert_eq!(parse_run_type("Monitor"), None);
    let t = Timestamp { secs: 1, nanos: 0 };
    let raw = vec![("monitor".to_string(), t, 10), ("other".to_string(), t, 20), ("notify".to_string(), t, 30)];
    let d = run_durations(&raw);
    assert_eq!(d.len(), 2);
    assert_eq!((d[0].run_type, d[1].duration_ms), (SystemRunType::Monitor, 30));
}

#[test]
fn group_settings() {
    assert_eq!(webhook_to_store(Some(String::new())), None);
    assert_eq!(webhook_to_store(None), None);
    assert_eq!(webhook_to_store(Some("https://x".to_string())).as_deref(), Some("https://x"));
    assert!(matches!(check_embed_color(&Some("zz".to_string()), false), Err(AppError::InvalidInput(m)) if m == "embed_colorの形式が不正です"));
    assert!(check_embed_color(&Some(String::new()), false).is_ok());
    assert!(check_embed_color(&None, false).is_ok());
    let groups = vec![Some((1, NotifyMedium::Discord)), None, Some((2, NotifyMedium::Discord)), Some((1, NotifyMedium::Slack)), Some((1, NotifyMedium::Discord))];
    assert_eq!(bulk_destination(&groups, 1, NotifyMedium::Discord), vec![0, 4]);
}

fn input() -> TestSendInput {
    TestSendInput { ticker: None, company_name: None, title: None, evaluation: None, embed_color: None, webhook_url: None, mention_targets: None }
}

#[test]
fn test_send_planning() {
    let o = test_send_medium_gate(NotifyMedium::Slack).unwrap();
    assert!(!o.success);
    assert_eq!(o.failure_reason.as_deref(), Some("Slack向けのテスト送信はまだ対応していません"));
    assert!(test_send_medium_gate(NotifyMedium::Discord).is_none());
    let o = plan_test_message(input(), None).unwrap_err();
    assert_eq!(o.failure_reason.as_deref(), Some("webhook_urlが設定されていません"));
    let o = plan_test_message(TestSendInput { webhook_url: Some(String::new()), ..input() }, Some("https://stored".to_string())).unwrap_err();
    assert!(!o.success);
    let m = plan_test_message(input(), Some("https://stored".to_string())).unwrap();
    assert_eq!(m.webhook_url, "https://stored");
    assert_eq!(m.title, "【テスト送信】決算速報プレビュー");
    assert_eq!(m.description, "サンプル株式会社(0000) - Unrated");
    let m = plan_test_message(TestSendInput { ticker: Some("7203".into()), company_name: Some("トヨタ".into()), evaluation: Some("Positive".into()), webhook_url: Some("https://given".into()), ..input() }, None).unwrap();
    assert_eq!(m.description, "トヨタ(7203) - Positive");
    assert_eq!(m.webhook_url, "https://given");
    assert!(test_send_outcome(Ok((true, "200 OK".to_string()))).success);
    assert_eq!(test_send_outcome(Ok((false, "404 Not Found".to_string()))).failure_reason.as_deref(), Some("送信先が404 Not Foundを返しました"));
    assert_eq!(test_send_outcome(Err("timeout".to_string())).failure_reason.as_deref(), Some("通信に失敗しました: timeout"));
}

#[test]
fn misc_answers() {
    assert_eq!(health().status, "ok");
    let rows = vec![earnings_watch::import::ImportFilterRowInput {
        ticker: "1".into(), company_name: "a".into(), group_name: "g".into(), notes: None, enabled: None,
    }];
    let settings = ImportSettings { ticker_max_len: 10, company_name_max_len: 10, notes_max_len: 10 };
    let plan = import_filters_all(rows, vec!["1".into()], &settings, vec![], vec![3], true);
    let resp = ImportFiltersResponse::from_result(&plan.result);
    assert_eq!(resp.imported_count, 1);
    assert_eq!(resp.created_groups[0].id, 3);
    assert_eq!(resp.warnings[0].message, "EarningsWatch_Enabledが未入力のためtrueとして扱いました");
}
