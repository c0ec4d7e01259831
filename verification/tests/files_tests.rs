use deployanyfile::error::AppError;
use deployanyfile::handlers::files::{
    add_affected, bulk_step, check_upload, paging_fits, upload_limit_fits, default_page, default_page_size, field_kind,
    owned_file, plan_file_list, prepare_slug_update, require_selection, slug_available,
    uploaded_dto, BulkStep, FieldKind, ListQuery, SlugSearch, SqlArg, UploadForm,
};
use deployanyfile::models::{FileRow, UpdateSlug};

fn form(bytes: Option<Vec<u8>>, slug: Option<&str>) -> UploadForm {
    let mut f = UploadForm::new();
    if let Some(s) = slug {
        f.take_slug(s);
    }
    if let Some(b) = bytes {
        f.take_file(Some("Notes.MD"), None, b);
    }
    f
}

fn row(user_id: i64) -> FileRow {
    FileRow {
        id: 1,
        user_id,
        slug: "s1".to_string(),
        original_name: "a.txt".to_string(),
        stored_name: "x.txt".to_string(),
        mime_type: "text/plain".to_string(),
        category: "text".to_string(),
        size: 3,
        is_shared: true,
        created_at: "t".to_string(),
    }
}

fn bad_text<T>(r: Result<T, AppError>) -> String {
    match r {
        Err(AppError::BadRequest(m)) => m,
        _ => panic!("expected a bad request"),
    }
}

#[test]
fn form_fields() {
    assert!(matches!(field_kind(Some("slug")), FieldKind::Slug));
    assert!(matches!(field_kind(Some("file")), FieldKind::File));
    assert!(matches!(field_kind(Some("other")), FieldKind::Other));
    assert!(matches!(field_kind(None), FieldKind::Other));
    let mut f = UploadForm::new();
    assert_eq!(f.original_name, "file");
    f.take_slug("   ");
    assert!(f.custom_slug.is_none());
    f.take_slug("  my-link ");
    assert_eq!(f.custom_slug.as_deref(), Some("my-link"));
    f.take_file(None, Some("text/plain"), vec![1]);
    assert_eq!(f.original_name, "file");
    assert_eq!(f.content_type, "text/plain");
}

#[test]
fn upload_needs_a_file() {
    assert_eq!(bad_text(check_upload(form(None, None), 1)), "缺少上传文件");
    assert_eq!(bad_text(check_upload(form(Some(vec![]), None), 1)), "文件内容为空");
}

#[test]
fn upload_size_limit() {
    let big = vec![0u8; 1024 * 1024 + 1];
    assert_eq!(bad_text(check_upload(form(Some(big), None), 1)), "文件过大，最大允许 1 MB");
    let exact = vec![0u8; 1024 * 1024];
    assert!(check_upload(form(Some(exact), None), 1).is_ok());
}

#[test]
fn upload_is_classified() {
    let p = check_upload(form(Some(b"# hi".to_vec()), None), 1).unwrap();
    assert_eq!(p.mime_type, "text/markdown");
    assert_eq!(p.category, "markdown");
    assert_eq!(p.original_name, "Notes.MD");
    assert!(p.custom_slug.is_none());
}

#[test]
fn upload_checks_custom_links() {
    assert_eq!(
        bad_text(check_upload(form(Some(vec![1]), Some("raw")), 1)),
        "该链接地址为系统保留字，请更换"
    );
    let p = check_upload(form(Some(vec![1]), Some("my-link")), 1).unwrap();
    assert_eq!(p.custom_slug.as_deref(), Some("my-link"));
    assert!(matches!(slug_available(true), Err(AppError::Conflict(m)) if m == "该链接地址已被占用，请更换"));
    assert!(slug_available(false).is_ok());
}

#[test]
fn random_links_grow_and_give_up() {
    let mut s = SlugSearch::new();
    let lens: Vec<usize> = (0..8).map(|_| s.next_candidate().unwrap().len()).collect();
    assert_eq!(lens, vec![6, 6, 7, 7, 8, 8, 9, 10]);
    assert!(matches!(s.next_candidate(), Err(AppError::Internal(m)) if m == "无法生成唯一链接，请重试"));
}

#[test]
fn uploaded_file_is_shared_and_unviewed() {
    let p = check_upload(form(Some(vec![1, 2, 3]), None), 1).unwrap();
    let d = uploaded_dto(9, "abc".to_string(), p, "now".to_string());
    assert_eq!((d.id, d.size, d.is_shared, d.view_count), (9, 3, true, 0));
    assert_eq!(d.slug, "abc");
}

fn query(category: Option<&str>, search: Option<&str>, page: i64, page_size: i64) -> ListQuery {
    ListQuery {
        category: category.map(|s| s.to_string()),
        search: search.map(|s| s.to_string()),
        page,
        page_size,
    }
}

fn arg_text(a: &SqlArg) -> String {
    match a {
        SqlArg::Int(i) => format!("i{i}"),
        SqlArg::Text(t) => format!("t{t}"),
    }
}

#[test]
fn list_defaults() {
    assert_eq!(default_page(), 1);
    assert_eq!(default_page_size(), 12);
    let p = plan_file_list(5, &query(None, None, 1, 12));
    assert_eq!((p.page, p.page_size, p.offset), (1, 12, 0));
    assert_eq!(p.count_sql, "SELECT COUNT(*) FROM files WHERE user_id = ?");
    assert_eq!(
        p.page_sql,
        "SELECT id, slug, original_name, mime_type, category, size, is_shared, created_at, (SELECT COUNT(*) FROM visits v WHERE v.file_id = files.id) AS view_count FROM files WHERE user_id = ? ORDER BY id DESC LIMIT ? OFFSET ?"
    );
    let args: Vec<String> = p.page_args.iter().map(arg_text).collect();
    assert_eq!(args, vec!["i5", "i12", "i0"]);
}

#[test]
fn list_paging_is_clamped() {
    let p = plan_file_list(5, &query(None, None, -3, 1000));
    assert_eq!((p.page, p.page_size, p.offset), (1, 100, 0));
    let p = plan_file_list(5, &query(None, None, 4, 0));
    assert_eq!((p.page, p.page_size, p.offset), (4, 1, 3));
    let p = plan_file_list(5, &query(None, None, 3, 20));
    assert_eq!(p.offset, 40);
}

#[test]
fn list_filters() {
    let p = plan_file_list(2, &query(Some("image"), Some("  cat "), 1, 12));
    assert_eq!(
        p.count_sql,
        "SELECT COUNT(*) FROM files WHERE user_id = ? AND category = ? AND original_name LIKE ?"
    );
    let args: Vec<String> = p.count_args.iter().map(arg_text).collect();
    assert_eq!(args, vec!["i2", "timage", "t%cat%"]);
    assert!(p.page_sql.contains("WHERE user_id = ? AND category = ? AND original_name LIKE ? ORDER BY"));
    let p = plan_file_list(2, &query(Some("all"), Some("   "), 1, 12));
    assert_eq!(p.count_sql, "SELECT COUNT(*) FROM files WHERE user_id = ?");
    let p = plan_file_list(2, &query(Some(""), None, 1, 12));
    assert_eq!(p.count_args.len(), 1);
}

#[test]
fn only_owners_change_files() {
    assert!(matches!(owned_file(None, 1), Err(AppError::NotFound)));
    assert!(matches!(owned_file(Some(row(2)), 1), Err(AppError::Forbidden)));
    assert_eq!(owned_file(Some(row(1)), 1).unwrap().id, 1);
}

#[test]
fn bulk_changes_skip_foreign_files() {
    assert_eq!(bad_text(require_selection(&vec![])), "未选择任何文件");
    assert!(require_selection(&vec![3]).is_ok());
    assert!(matches!(bulk_step(Ok(row(1))), BulkStep::Apply(_)));
    assert!(matches!(bulk_step(Err(AppError::NotFound)), BulkStep::Skip));
    assert!(matches!(bulk_step(Err(AppError::Forbidden)), BulkStep::Skip));
    assert!(matches!(bulk_step(Err(AppError::Internal("db".to_string()))), BulkStep::Abort(_)));
    assert_eq!(add_affected(2, 1), 3);
}

#[test]
fn new_links_are_trimmed_and_checked() {
    assert_eq!(prepare_slug_update(&UpdateSlug { slug: "  new-1 ".to_string() }).unwrap(), "new-1");
    assert_eq!(
        bad_text(prepare_slug_update(&UpdateSlug { slug: "  ".to_string() })),
        "链接地址长度需在 1-64 之间"
    );
}

#[test]
fn dto_of_a_row() {
    let d = row(1).into_dto(17);
    assert_eq!((d.id, d.view_count, d.size), (1, 17, 3));
    assert_eq!(d.slug, "s1");
}

#[test]
fn a_free_candidate_is_the_link() {
    let s = SlugSearch::new();
    assert_eq!(s.accept("abc".to_string(), false), Some("abc".to_string()));
    assert_eq!(s.accept("abc".to_string(), true), None);
}

#[test]
fn limits_that_overflow_are_detected() {
    assert!(upload_limit_fits(100));
    assert!(!upload_limit_fits(usize::MAX));
    assert!(paging_fits(&query(None, None, 1, 12)));
    assert!(paging_fits(&query(None, None, i64::MAX / 100 + 1, 100)));
    assert!(!paging_fits(&query(None, None, i64::MAX / 100 + 2, 100)));
    assert!(deployanyfile::config::request_body_limit_fits(100));
    assert!(!deployanyfile::config::request_body_limit_fits(usize::MAX / 1048576));
}

#[test]
fn accepted_random_links_are_new_and_base62() {
    let mut stored: Vec<String> = vec!["abcdef".to_string(), "XYZ123".to_string()];
    let mut search = SlugSearch::new();
    let mut link = None;
    while link.is_none() {
        let c = search.next_candidate().unwrap();
        assert!((6..=10).contains(&c.len()));
        assert!(c.chars().all(|ch| ch.is_ascii_alphanumeric()));
        let taken = stored.contains(&c);
        link = search.accept(c, taken);
    }
    let l = link.unwrap();
    assert!(!stored.contains(&l));
    stored.push(l);
    let mut sorted = stored.clone();
    sorted.sort();
    sorted.dedup();
    assert_eq!(sorted.len(), stored.len());
}
