use deployanyfile::auth::{
    api_user_of_token, api_user_step, authenticate, bearer_token, claims_json, create_token,
    create_token_at,
    hash_password, optional_user, require_admin, sign_claims, token_claims, verify_password,
    ApiAuthStep, AuthUser, Claims,
};
use deployanyfile::error::AppError;
use deployanyfile::handlers::auth::{
    changed_password_hash, current_user, login_user, new_account_name, username_free,
};
use deployanyfile::models::User;

fn claims(sub: i64, name: &str, admin: bool, exp: usize) -> Claims {
    Claims { sub, username: name.to_string(), is_admin: admin, exp }
}

fn decode(secret: &str, token: &str) -> serde_json::Value {
    let mut v = jsonwebtoken::Validation::default();
    v.validate_exp = false;
    jsonwebtoken::decode::<serde_json::Value>(
        token,
        &jsonwebtoken::DecodingKey::from_secret(secret.as_bytes()),
        &v,
    )
    .unwrap()
    .claims
}

#[test]
fn claims_json_is_what_serde_json_writes() {
    assert_eq!(
        claims_json(&claims(7, "bob", false, 1700000000)),
        r#"{"sub":7,"username":"bob","is_admin":false,"exp":1700000000}"#
    );
    assert_eq!(
        claims_json(&claims(-1, "a\"b\\c\n\u{1}é", true, 0)),
        "{\"sub\":-1,\"username\":\"a\\\"b\\\\c\\n\\u0001é\",\"is_admin\":true,\"exp\":0}"
    );
}

#[test]
fn claims_json_escapes_like_serde_json() {
    let name = "q\"\\/\u{8}\u{c}\n\r\t\u{1f}\u{7f}ü";
    let expected = format!(
        "{{\"sub\":1,\"username\":{},\"is_admin\":false,\"exp\":2}}",
        serde_json::to_string(name).unwrap()
    );
    assert_eq!(claims_json(&claims(1, name, false, 2)), expected);
}

#[test]
fn token_expires_a_week_after_issue() {
    let c = token_claims(3, "eve", true, 1_000_000);
    assert_eq!(c.exp, 1_000_000 + 7 * 24 * 3600);
    assert_eq!(c.sub, 3);
    assert_eq!(c.username, "eve");
    assert!(c.is_admin);
}

#[test]
fn signed_token_carries_the_claims() {
    let t = sign_claims("secret", &claims(9, "zoë", true, 4102444800)).unwrap();
    assert_eq!(t.split('.').count(), 3);
    let v = decode("secret", &t);
    assert_eq!(v["sub"], 9);
    assert_eq!(v["username"], "zoë");
    assert_eq!(v["is_admin"], true);
    assert_eq!(v["exp"], 4102444800u64);
    let again = sign_claims("secret", &claims(9, "zoë", true, 4102444800)).unwrap();
    assert_eq!(t, again);
    let other = sign_claims("other", &claims(9, "zoë", true, 4102444800)).unwrap();
    assert_ne!(t, other);
}

#[test]
fn created_token_is_valid_now() {
    let t = create_token("k", 12, "carol", false).unwrap();
    let c = jsonwebtoken::decode::<serde_json::Value>(
        &t,
        &jsonwebtoken::DecodingKey::from_secret(b"k"),
        &jsonwebtoken::Validation::default(),
    )
    .unwrap()
    .claims;
    assert_eq!(c["sub"], 12);
    assert_eq!(c["username"], "carol");
    assert_eq!(c["is_admin"], false);
    let now = chrono::Utc::now().timestamp();
    let exp = c["exp"].as_i64().unwrap();
    assert!(exp >= now + 7 * 86400 - 60 && exp <= now + 7 * 86400 + 60);
}

#[test]
fn password_hash_round_trip() {
    let h = hash_password("hunter22").unwrap();
    assert!(h.starts_with("$2b$12$"));
    assert!(verify_password("hunter22", &h));
    assert!(!verify_password("hunter23", &h));
    assert!(!verify_password("hunter22", "not a hash"));
}

#[test]
fn bearer_tokens() {
    assert_eq!(bearer_token(Some("Bearer abc.def")), Some("abc.def".to_string()));
    assert_eq!(bearer_token(Some("Bearer ")), Some(String::new()));
    assert_eq!(bearer_token(Some("bearer abc")), None);
    assert_eq!(bearer_token(Some("Basic xyz")), None);
    assert_eq!(bearer_token(None), None);
}

#[test]
fn authentication_needs_claims() {
    let u = authenticate(Some(claims(4, "dan", false, 0))).unwrap();
    assert_eq!((u.id, u.username.as_str(), u.is_admin), (4, "dan", false));
    assert!(matches!(authenticate(None), Err(AppError::Unauthorized)));
    assert!(optional_user(None).0.is_none());
    assert_eq!(optional_user(Some(claims(4, "dan", false, 0))).0.unwrap().id, 4);
}

#[test]
fn admin_routes_need_an_admin() {
    let a = AuthUser { id: 1, username: "admin".to_string(), is_admin: true };
    assert_eq!(require_admin(a).unwrap().0.id, 1);
    let u = AuthUser { id: 2, username: "u".to_string(), is_admin: false };
    assert!(matches!(require_admin(u), Err(AppError::Forbidden)));
}

#[test]
fn upload_tokens() {
    assert!(matches!(api_user_step(None, None), ApiAuthStep::Reject(AppError::Unauthorized)));
    match api_user_step(Some("jwt".to_string()), Some(claims(8, "fay", false, 0))) {
        ApiAuthStep::Accept(u) => assert_eq!(u.id, 8),
        _ => panic!("login token accepted"),
    }
    match api_user_step(Some("daf_xyz".to_string()), None) {
        ApiAuthStep::LookUp(t) => assert_eq!(t, "daf_xyz"),
        _ => panic!("personal token looked up"),
    }
    assert!(matches!(
        api_user_step(Some("garbage".to_string()), None),
        ApiAuthStep::Reject(AppError::Unauthorized)
    ));
    assert_eq!(api_user_of_token(Some((3, "g".to_string(), true))).unwrap().id, 3);
    assert!(matches!(api_user_of_token(None), Err(AppError::Unauthorized)));
}

fn user(hash: &str) -> User {
    User {
        id: 1,
        username: "alice".to_string(),
        password_hash: hash.to_string(),
        is_admin: false,
        created_at: "t".to_string(),
    }
}

#[test]
fn registration_checks_name_then_password() {
    assert_eq!(new_account_name("  alice  ", "123456").unwrap(), "alice");
    assert!(matches!(new_account_name("a", "1"), Err(AppError::BadRequest(m)) if m == "用户名长度需在 3-32 之间"));
    assert!(matches!(new_account_name("alice", "1"), Err(AppError::BadRequest(m)) if m == "密码长度至少 6 位"));
    assert!(matches!(username_free(true), Err(AppError::Conflict(m)) if m == "用户名已存在"));
    assert!(username_free(false).is_ok());
}

#[test]
fn login_checks_the_password() {
    let h = hash_password("secret1").unwrap();
    assert_eq!(login_user(Some(user(&h)), "secret1").unwrap().id, 1);
    assert!(matches!(login_user(Some(user(&h)), "secret2"), Err(AppError::BadRequest(m)) if m == "用户名或密码错误"));
    assert!(matches!(login_user(None, "secret1"), Err(AppError::BadRequest(m)) if m == "用户名或密码错误"));
    assert!(matches!(current_user(None), Err(AppError::Unauthorized)));
}

#[test]
fn changing_password_needs_the_old_one() {
    let h = hash_password("oldpass").unwrap();
    assert!(matches!(changed_password_hash(&user(&h), "wrong", "newpass"), Err(AppError::BadRequest(m)) if m == "原密码错误"));
    let new_hash = changed_password_hash(&user(&h), "oldpass", "newpass").unwrap();
    assert!(verify_password("newpass", &new_hash));
    assert!(!verify_password("oldpass", &new_hash));
}

#[test]
fn token_at_a_given_time_expires_a_week_later() {
    let t = create_token_at("k", 5, "ann", true, 1_700_000_000).unwrap();
    let v = decode("k", &t);
    assert_eq!(v["sub"], 5);
    assert_eq!(v["username"], "ann");
    assert_eq!(v["is_admin"], true);
    assert_eq!(v["exp"], 1_700_000_000u64 + 604_800);
    assert_eq!(t, sign_claims("k", &claims(5, "ann", true, 1_700_604_800)).unwrap());
}

#[test]
fn token_past_the_last_date_is_refused() {
    let last = deployanyfile::auth::LATEST_TIMESTAMP - deployanyfile::auth::TOKEN_LIFETIME_SECS;
    assert!(create_token_at("k", 1, "a", false, last).is_ok());
    assert!(matches!(
        create_token_at("k", 1, "a", false, last + 1),
        Err(AppError::Internal(m)) if m == "jwt: timestamp out of range"
    ));
}

#[test]
fn hashes_have_the_bcrypt_form() {
    let h = hash_password("pw123456").unwrap();
    assert_eq!(h.len(), 60);
    assert!(h.starts_with("$2b$12$"));
    assert!(!verify_password("pw123456", "no dollar sign here"));
}
