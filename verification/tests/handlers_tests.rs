use deployanyfile::error::AppError;
use deployanyfile::handlers::public::{
    check_public_access, content_disposition, file_or_not_found, raw_access, raw_url,
    records_visit, truncate_chars, urlencode, visit_user_agent, RawAccess,
};
use deployanyfile::handlers::users::{check_deletable, require_affected, reset_password_hash};
use deployanyfile::handlers::tokens::{token_display_prefix, token_name};
use deployanyfile::handlers::{client_ip, validate_password, validate_username};
use deployanyfile::auth::{verify_password, AdminUser, AuthUser};
use deployanyfile::models::{FileRow, ResetPassword};

fn file(user_id: i64, shared: bool) -> FileRow {
    FileRow {
        id: 5,
        user_id,
        slug: "abc123".to_string(),
        original_name: "报告 v1.pdf".to_string(),
        stored_name: "u.pdf".to_string(),
        mime_type: "application/pdf".to_string(),
        category: "other".to_string(),
        size: 10,
        is_shared: shared,
        created_at: "2024-01-01T00:00:00+00:00".to_string(),
    }
}

fn bad_text<T: std::fmt::Debug>(r: Result<T, AppError>) -> String {
    match r {
        Err(AppError::BadRequest(m)) => m,
        other => panic!("expected a bad request, got {:?}", other),
    }
}

#[test]
fn username_rules() {
    assert!(validate_username("alice").is_ok());
    assert!(validate_username("  bob_1-x  ").is_ok());
    assert_eq!(bad_text(validate_username(" ab ")), "用户名长度需在 3-32 之间");
    assert_eq!(bad_text(validate_username(&"a".repeat(33))), "用户名长度需在 3-32 之间");
    assert_eq!(bad_text(validate_username("al ice")), "用户名只能包含字母、数字、'_' 和 '-'");
    assert_eq!(bad_text(validate_username("张三丰")), "用户名只能包含字母、数字、'_' 和 '-'");
}

#[test]
fn password_rules() {
    assert!(validate_password("123456").is_ok());
    assert!(validate_password("密码").is_ok());
    assert_eq!(bad_text(validate_password("12345")), "密码长度至少 6 位");
}

#[test]
fn client_ip_prefers_forwarded_for() {
    assert_eq!(client_ip(Some(" 1.2.3.4 , 5.6.7.8"), Some("9.9.9.9"), Some("10.0.0.1")), "1.2.3.4");
    assert_eq!(client_ip(Some(" , 5.6.7.8"), Some(" 9.9.9.9 "), Some("10.0.0.1")), "9.9.9.9");
    assert_eq!(client_ip(None, Some("  "), Some("10.0.0.1")), "10.0.0.1");
    assert_eq!(client_ip(None, None, None), "unknown");
    assert_eq!(client_ip(Some("7.7.7.7"), None, None), "7.7.7.7");
}

#[test]
fn percent_encoding() {
    assert_eq!(urlencode("a b/ü~.-_Z9"), "a%20b%2F%C3%BC~.-_Z9");
    assert_eq!(urlencode(""), "");
    assert_eq!(
        content_disposition("报告 v1.pdf"),
        "inline; filename*=UTF-8''%E6%8A%A5%E5%91%8A%20v1.pdf"
    );
}

#[test]
fn user_agent_is_cut_at_300_characters() {
    let long = "é".repeat(400);
    assert_eq!(truncate_chars(&long, 300).chars().count(), 300);
    assert_eq!(visit_user_agent(Some(&long)).unwrap(), "é".repeat(300));
    assert_eq!(visit_user_agent(Some("curl")).unwrap(), "curl");
    assert_eq!(visit_user_agent(None), None);
}

#[test]
fn raw_url_of_a_link() {
    assert_eq!(raw_url("abc123"), "/raw/abc123");
}

#[test]
fn unknown_link_is_not_found() {
    assert!(matches!(file_or_not_found(None), Err(AppError::NotFound)));
    assert!(file_or_not_found(Some(file(1, true))).is_ok());
}

#[test]
fn shared_file_is_public() {
    assert_eq!(check_public_access(&file(1, true), None).unwrap(), false);
    assert_eq!(check_public_access(&file(1, true), Some(2)).unwrap(), false);
    assert_eq!(check_public_access(&file(1, true), Some(1)).unwrap(), true);
}

#[test]
fn unshared_file_only_for_owner() {
    assert!(matches!(check_public_access(&file(1, false), None), Err(AppError::Forbidden)));
    assert!(matches!(check_public_access(&file(1, false), Some(2)), Err(AppError::Forbidden)));
    assert_eq!(check_public_access(&file(1, false), Some(1)).unwrap(), true);
    assert!(matches!(raw_access(Some(file(1, false)), Some(2)), RawAccess::Closed));
    assert!(matches!(raw_access(Some(file(1, false)), Some(1)), RawAccess::Serve(_)));
    assert!(matches!(raw_access(Some(file(1, true)), None), RawAccess::Serve(_)));
    assert!(matches!(raw_access(None, Some(1)), RawAccess::Missing));
}

#[test]
fn owner_views_are_not_recorded() {
    assert!(!records_visit(true));
    assert!(records_visit(false));
}

#[test]
fn admin_cannot_delete_self() {
    let admin = AdminUser(AuthUser { id: 1, username: "admin".to_string(), is_admin: true });
    assert_eq!(bad_text(check_deletable(1, &admin)), "不能删除当前登录的管理员账号");
    assert!(check_deletable(2, &admin).is_ok());
}

#[test]
fn no_row_changed_is_not_found() {
    assert!(matches!(require_affected(0), Err(AppError::NotFound)));
    assert!(require_affected(1).is_ok());
}

#[test]
fn reset_password_checks_then_hashes() {
    assert_eq!(
        bad_text(reset_password_hash(&ResetPassword { new_password: "123".to_string() })),
        "密码长度至少 6 位"
    );
    let h = reset_password_hash(&ResetPassword { new_password: "longenough".to_string() }).unwrap();
    assert!(verify_password("longenough", &h));
    assert!(!verify_password("longenougH", &h));
}

#[test]
fn token_names() {
    assert_eq!(token_name("  ci upload ").unwrap(), "ci upload");
    assert_eq!(bad_text(token_name("   ")), "令牌名称需在 1-50 个字符之间");
    assert_eq!(bad_text(token_name(&"x".repeat(51))), "令牌名称需在 1-50 个字符之间");
}

#[test]
fn token_prefix_is_twelve_bytes_and_an_ellipsis() {
    assert_eq!(token_display_prefix("daf_AbCdEfGhIjKlMn"), "daf_AbCdEfGh…");
}

#[test]
fn encoded_names_are_plain_ascii() {
    let e = urlencode("日本語 \"quoted\" %20 <tag>\n");
    assert!(e.chars().all(|c| c.is_ascii_alphanumeric() || "-_.~%".contains(c)));
    assert_eq!(urlencode("%"), "%25");
}
