use deployanyfile::config::{parse_usize, request_body_limit, var_or, Config};
use deployanyfile::db::database_path;

fn vars(pairs: &[(&str, &str)]) -> Vec<(String, String)> {
    pairs.iter().map(|(k, v)| (k.to_string(), v.to_string())).collect()
}

#[test]
fn defaults_without_environment() {
    let c = Config::from_env(&Vec::new());
    assert_eq!(c.bind_addr, "0.0.0.0:8080");
    assert_eq!(c.database_url, "sqlite://./data/app.db");
    assert_eq!(c.upload_dir, "./data/uploads");
    assert_eq!(c.jwt_secret, "change-me-in-production-please");
    assert_eq!(c.admin_username, "admin");
    assert_eq!(c.admin_password, "admin123");
    assert_eq!(c.max_upload_mb, 100);
    assert_eq!(c.static_dir, "./static");
}

#[test]
fn data_dir_moves_database_and_uploads() {
    let c = Config::from_env(&vars(&[("DATA_DIR", "/srv/daf"), ("BIND_ADDR", "127.0.0.1:9000")]));
    assert_eq!(c.database_url, "sqlite:///srv/daf/app.db");
    assert_eq!(c.upload_dir, "/srv/daf/uploads");
    assert_eq!(c.bind_addr, "127.0.0.1:9000");
}

#[test]
fn explicit_urls_win_over_data_dir() {
    let c = Config::from_env(&vars(&[
        ("DATA_DIR", "/srv/daf"),
        ("DATABASE_URL", "sqlite:db.sqlite"),
        ("UPLOAD_DIR", "/mnt/up"),
        ("JWT_SECRET", "s3"),
        ("ADMIN_USERNAME", "root"),
        ("ADMIN_PASSWORD", "pw123456"),
        ("STATIC_DIR", "/www"),
    ]));
    assert_eq!(c.database_url, "sqlite:db.sqlite");
    assert_eq!(c.upload_dir, "/mnt/up");
    assert_eq!(c.jwt_secret, "s3");
    assert_eq!(c.admin_username, "root");
    assert_eq!(c.admin_password, "pw123456");
    assert_eq!(c.static_dir, "/www");
}

#[test]
fn upload_limit_falls_back_when_not_a_number() {
    assert_eq!(Config::from_env(&vars(&[("MAX_UPLOAD_MB", "250")])).max_upload_mb, 250);
    assert_eq!(Config::from_env(&vars(&[("MAX_UPLOAD_MB", "+7")])).max_upload_mb, 7);
    assert_eq!(Config::from_env(&vars(&[("MAX_UPLOAD_MB", "-7")])).max_upload_mb, 100);
    assert_eq!(Config::from_env(&vars(&[("MAX_UPLOAD_MB", " 7")])).max_upload_mb, 100);
    assert_eq!(Config::from_env(&vars(&[("MAX_UPLOAD_MB", "")])).max_upload_mb, 100);
}

#[test]
fn first_variable_of_a_name_counts() {
    let v = vars(&[("X", "1"), ("X", "2")]);
    assert_eq!(var_or(&v, "X", "d"), "1");
    assert_eq!(var_or(&v, "Y", "d"), "d");
}

#[test]
fn parse_usize_matches_std() {
    for s in ["0", "42", "+42", "+", "", "-1", "1_0", "007", "18446744073709551615", "18446744073709551616", "99999999999999999999999", "١٢"] {
        assert_eq!(parse_usize(s), s.parse::<usize>().ok(), "for {s:?}");
    }
}

#[test]
fn parse_reads_back_decimal() {
    for n in [0usize, 9, 10, 123456, usize::MAX] {
        assert_eq!(parse_usize(&n.to_string()), Some(n));
    }
}

#[test]
fn body_limit_adds_a_mib() {
    assert_eq!(request_body_limit(100), 101 * 1024 * 1024);
    assert_eq!(request_body_limit(0), 1024 * 1024);
}

#[test]
fn database_path_strips_the_scheme() {
    assert_eq!(database_path("sqlite://./data/app.db"), "./data/app.db");
    assert_eq!(database_path("sqlite:app.db"), "app.db");
    assert_eq!(database_path("sqlite://sqlite://x.db"), "x.db");
    assert_eq!(database_path("sqlite://sqlite:sqlite:y.db"), "y.db");
    assert_eq!(database_path("/abs/z.db"), "/abs/z.db");
}

#[test]
fn database_path_matches_trim_start_matches() {
    for url in ["sqlite:///srv/app.db", "sqlite:sqlite://q", "sqlite", "", "sqlite:"] {
        let expected = url.trim_start_matches("sqlite://").trim_start_matches("sqlite:");
        assert_eq!(database_path(url), expected, "for {url:?}");
    }
}
