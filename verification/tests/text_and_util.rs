use deployanyfile::error::AppError;
use deployanyfile::text::{i64_decimal, trim};
use deployanyfile::util::{
    categorize, categorize_lowered, new_stored_name, random_slug, resolve_mime, stored_suffix_of,
    validate_slug,
};

fn bad_text(r: Result<(), AppError>) -> String {
    match r {
        Err(AppError::BadRequest(m)) => m,
        other => panic!("expected a bad request, got {:?}", other),
    }
}

#[test]
fn trim_removes_unicode_whitespace() {
    assert_eq!(trim("\u{3000} abc\t\n"), "abc");
    assert_eq!(trim("  "), "");
    assert_eq!(trim("a b"), "a b");
    assert_eq!(trim(""), "");
}

#[test]
fn trim_twice_is_trim_once() {
    let once = trim("\u{a0}\u{2003} x y \u{85}");
    assert_eq!(once, "x y");
    assert_eq!(trim(&once), once);
}

#[test]
fn decimal_forms() {
    assert_eq!(i64_decimal(0), "0");
    assert_eq!(i64_decimal(1234567890), "1234567890");
    assert_eq!(i64_decimal(i64::MAX), "9223372036854775807");
    assert_eq!(i64_decimal(-42), "-42");
    assert_eq!(i64_decimal(i64::MIN), "-9223372036854775808");
}

#[test]
fn random_slug_is_base62_of_the_given_length() {
    for len in [0usize, 1, 6, 10, 40] {
        let s = random_slug(len);
        assert_eq!(s.chars().count(), len);
        assert!(s.chars().all(|c| c.is_ascii_alphanumeric()));
    }
}

#[test]
fn random_slug_of_a_valid_length_is_a_valid_link() {
    let s = random_slug(10);
    assert!(validate_slug(&s).is_ok());
}

#[test]
fn validate_slug_accepts_links() {
    assert!(validate_slug("my-file_01").is_ok());
    assert!(validate_slug(&"a".repeat(64)).is_ok());
    assert!(validate_slug("apis").is_ok());
}

#[test]
fn validate_slug_rejects_bad_lengths() {
    assert_eq!(bad_text(validate_slug("")), "链接地址长度需在 1-64 之间");
    assert_eq!(bad_text(validate_slug(&"a".repeat(65))), "链接地址长度需在 1-64 之间");
}

#[test]
fn validate_slug_counts_bytes() {
    // 22 characters of 3 bytes each: 66 bytes
    let s = "链".repeat(22);
    assert_eq!(bad_text(validate_slug(&s)), "链接地址长度需在 1-64 之间");
}

#[test]
fn validate_slug_rejects_other_characters() {
    assert_eq!(bad_text(validate_slug("a b")), "链接地址只能包含字母、数字、'-' 和 '_'");
    assert_eq!(bad_text(validate_slug("链接")), "链接地址只能包含字母、数字、'-' 和 '_'");
}

#[test]
fn validate_slug_rejects_reserved_words_in_any_case() {
    for w in ["api", "RAW", "s", "P", "Login", "REGISTER"] {
        assert_eq!(bad_text(validate_slug(w)), "该链接地址为系统保留字，请更换");
    }
}

#[test]
fn categorize_by_type() {
    assert_eq!(categorize("image/png", "x.bin"), "image");
    assert_eq!(categorize("video/mp4", "x"), "video");
    assert_eq!(categorize("audio/mpeg", "x.html"), "audio");
    assert_eq!(categorize("text/html", "x"), "html");
    assert_eq!(categorize("text/markdown", "x"), "markdown");
    assert_eq!(categorize("text/plain", "x"), "text");
    assert_eq!(categorize("application/json", "x"), "text");
    assert_eq!(categorize("application/pdf", "x.pdf"), "other");
}

#[test]
fn categorize_by_name() {
    assert_eq!(categorize("application/octet-stream", "Index.HTM"), "html");
    assert_eq!(categorize("application/octet-stream", "README.Md"), "markdown");
    assert_eq!(categorize("application/octet-stream", "notes.markdown"), "markdown");
    assert_eq!(categorize("application/octet-stream", "data.CSV"), "text");
    assert_eq!(categorize("application/octet-stream", "server.log"), "text");
    assert_eq!(categorize("application/octet-stream", "x.json"), "text");
    assert_eq!(categorize("", "archive.zip"), "other");
}

#[test]
fn categorize_lowers_case_as_unicode_does() {
    // U+212A KELVIN SIGN lower-cases to 'k'
    assert_eq!(categorize("application/octet-stream", "a.MAR\u{212A}DOWN"), "markdown");
    assert_eq!(categorize_lowered("application/octet-stream", "a.MARKDOWN"), "other");
}

#[test]
fn resolve_mime_keeps_a_specific_type() {
    assert_eq!(resolve_mime("image/webp", "a.png"), "image/webp");
}

#[test]
fn resolve_mime_guesses_from_the_name() {
    assert_eq!(resolve_mime("", "a.png"), "image/png");
    assert_eq!(resolve_mime("application/octet-stream", "x.json"), "application/json");
    assert_eq!(resolve_mime("", "noext"), "application/octet-stream");
}

#[test]
fn stored_suffix_follows_path_extension() {
    assert_eq!(stored_suffix_of("photo.JPG"), ".JPG");
    assert_eq!(stored_suffix_of("a.tar.gz"), ".gz");
    assert_eq!(stored_suffix_of(".bashrc"), "");
    assert_eq!(stored_suffix_of("noext"), "");
    assert_eq!(stored_suffix_of("file."), ".");
    assert_eq!(stored_suffix_of("dir/a.txt/"), ".txt");
    assert_eq!(stored_suffix_of("a.txt/."), ".txt");
    assert_eq!(stored_suffix_of("x.md/.."), "");
    assert_eq!(stored_suffix_of(""), "");
    assert_eq!(stored_suffix_of("dir.d/file"), "");
}

#[test]
fn stored_suffix_agrees_with_std_path() {
    for name in ["a.b.c", "/abs/x.y", "x/./", "./z.q", "..", "a..b", "..a", "dir.d/file", "f/.hid.den"] {
        let expected = std::path::Path::new(name)
            .extension()
            .and_then(|e| e.to_str())
            .map(|e| format!(".{e}"))
            .unwrap_or_default();
        assert_eq!(stored_suffix_of(name), expected, "for {name:?}");
    }
}

#[test]
fn new_stored_name_is_a_uuid_and_the_extension() {
    let n = new_stored_name("report.pdf");
    assert_eq!(n.len(), 40);
    assert!(n.ends_with(".pdf"));
    assert_eq!(n.matches('-').count(), 4);
    let b: Vec<char> = n.chars().collect();
    for (i, c) in b.iter().take(36).enumerate() {
        if i == 8 || i == 13 || i == 18 || i == 23 {
            assert_eq!(*c, '-');
        } else {
            assert!(c.is_ascii_digit() || ('a'..='f').contains(c), "{n}");
        }
    }
    assert_eq!(b[14], '4');
    assert!(matches!(b[19], '8' | '9' | 'a' | 'b'));
    let m = new_stored_name("report.pdf");
    assert_ne!(n, m);
}

#[test]
fn categorize_ignores_ascii_case() {
    assert_eq!(categorize("application/octet-stream", "PAGE.HTML"), "html");
    assert_eq!(categorize("application/octet-stream", "page.html"), "html");
    assert_eq!(categorize("application/octet-stream", "Log.Txt"), "text");
}
