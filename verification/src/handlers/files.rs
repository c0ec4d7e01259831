//! Decisions of the file routes: uploads, listing, sharing, links.
use crate::error::{AppError, ErrorView};
use crate::models::{FileDto, FileRow, UpdateSlug};
use crate::text::{
    decimal, is_ascii_alnum, owned, push_decimal, push_str, str_equals, trim, trim_seq,
};
use crate::util::{
    categorize, category_of, random_slug, resolve_mime, resolved_mime, slug_error,
    unicode_lowercase, validate_slug,
};
use vstd::prelude::*;

verus! {

// ---------------------------------------------------------------------------
// Upload form
// ---------------------------------------------------------------------------

/// The parts of an upload form that matter, as they arrive.
pub struct UploadForm {
    pub custom_slug: Option<String>,
    pub bytes: Option<Vec<u8>>,
    pub original_name: String,
    pub content_type: String,
}

/// What a form field is used for.
pub enum FieldKind {
    /// `slug`: a custom link.
    Slug,
    /// `file`: the upload itself.
    File,
    /// Anything else, read and dropped.
    Other,
}

/// The use of a form field, by its name.
pub fn field_kind(name: Option<&str>) -> (r: FieldKind)
    ensures
        match name {
            Some(n) => if n@ == "slug"@ {
                r is Slug
            } else if n@ == "file"@ {
                r is File
            } else {
                r is Other
            },
            None => r is Other,
        },
{
    match name {
        Some(n) => {
            if str_equals(n, "slug") {
                FieldKind::Slug
            } else if str_equals(n, "file") {
                FieldKind::File
            } else {
                FieldKind::Other
            }
        },
        None => FieldKind::Other,
    }
}

impl UploadForm {
    /// A form before any field: no link, no file, named "file", no type.
    pub fn new() -> (f: UploadForm)
        ensures
            f.custom_slug is None,
            f.bytes is None,
            f.original_name@ == "file"@,
            f.content_type@ == Seq::<char>::empty(),
    {
        UploadForm {
            custom_slug: None,
            bytes: None,
            original_name: owned("file"),
            content_type: String::new(),
        }
    }

    /// Takes the text of a `slug` field: trimmed, and only when not empty.
    pub fn take_slug(&mut self, text: &str)
        ensures
            trim_seq(text@).len() > 0 ==> (final(self).custom_slug matches Some(s) && s@ == trim_seq(
                text@,
            )),
            trim_seq(text@).len() == 0 ==> final(self).custom_slug == old(self).custom_slug,
            final(self).bytes == old(self).bytes,
            final(self).original_name == old(self).original_name,
            final(self).content_type == old(self).content_type,
    {
        let v = trim(text);
        if !v.as_str().is_empty() {
            self.custom_slug = Some(v);
        }
    }

    /// Takes the `file` field: its file name when it has one, its content
    /// type (empty when it has none) and its bytes.
    pub fn take_file(&mut self, file_name: Option<&str>, content_type: Option<&str>, data: Vec<u8>)
        ensures
            match file_name {
                Some(n) => final(self).original_name@ == n@,
                None => final(self).original_name == old(self).original_name,
            },
            match content_type {
                Some(t) => final(self).content_type@ == t@,
                None => final(self).content_type@ == Seq::<char>::empty(),
            },
            final(self).bytes == Some(data),
            final(self).custom_slug == old(self).custom_slug,
    {
        if let Some(n) = file_name {
            self.original_name = owned(n);
        }
        self.content_type = match content_type {
            Some(t) => owned(t),
            None => String::new(),
        };
        self.bytes = Some(data);
    }
}

/// An accepted upload, before its link is settled.
pub struct UploadPlan {
    pub data: Vec<u8>,
    pub original_name: String,
    pub mime_type: String,
    pub category: String,
    /// The custom link asked for, already checked; `None` for a random one.
    pub custom_slug: Option<String>,
}

/// The upload limit in bytes for a limit in MiB.
pub open spec fn max_upload_bytes(max_upload_mb: nat) -> nat {
    max_upload_mb * 1048576
}

/// Why an upload is refused before its link is looked at, if it is.
pub open spec fn upload_error(bytes: Option<Seq<u8>>, max_upload_mb: nat) -> Option<ErrorView> {
    match bytes {
        None => Some(ErrorView::BadRequest("缺少上传文件"@)),
        Some(b) => if b.len() == 0 {
            Some(ErrorView::BadRequest("文件内容为空"@))
        } else if b.len() > max_upload_bytes(max_upload_mb) {
            Some(ErrorView::BadRequest("文件过大，最大允许 "@ + decimal(max_upload_mb) + " MB"@))
        } else {
            None
        },
    }
}

/// A non-empty upload of at most `max_upload_mb` MiB (1048576 bytes each)
/// passes; an empty one, one over the limit, or a form without a file is
/// refused, and one over the limit names the limit.
pub proof fn law_upload_size(bytes: Option<Seq<u8>>, max_upload_mb: nat)
    ensures
        bytes is None ==> upload_error(bytes, max_upload_mb) is Some,
        bytes is Some ==> ((upload_error(bytes, max_upload_mb) is None) <==> (0 < bytes->0.len()
            <= max_upload_mb * 1048576)),
        bytes is Some && bytes->0.len() > max_upload_mb * 1048576 ==> upload_error(
            bytes,
            max_upload_mb,
        ) == Some(ErrorView::BadRequest("文件过大，最大允许 "@ + decimal(max_upload_mb) + " MB"@)),
{
}

pub open spec fn bytes_view(b: Option<Vec<u8>>) -> Option<Seq<u8>> {
    match b {
        Some(v) => Some(v@),
        None => None,
    }
}

/// Checks an upload: a non-empty file within the limit, and a valid custom
/// link when one is asked for; its type is resolved and it is classified.
pub fn check_upload(form: UploadForm, max_upload_mb: usize) -> (r: Result<UploadPlan, AppError>)
    requires
        max_upload_mb * 1048576 <= usize::MAX,
    ensures
        match r {
            Ok(p) => {
                &&& upload_error(bytes_view(form.bytes), max_upload_mb as nat) is None
                &&& form.bytes == Some(p.data)
                &&& p.original_name == form.original_name
                &&& p.mime_type@ == resolved_mime(form.content_type@, form.original_name@)
                &&& p.category@ == category_of(p.mime_type@, unicode_lowercase(form.original_name@))
                &&& p.custom_slug == form.custom_slug
                &&& (form.custom_slug matches Some(s) ==> slug_error(s@) is None)
            },
            Err(e) => match upload_error(bytes_view(form.bytes), max_upload_mb as nat) {
                Some(u) => e@ == u,
                None => form.custom_slug matches Some(s) && slug_error(s@) == Some(e@),
            },
        },
{
    let data = match form.bytes {
        Some(d) => d,
        None => return Err(AppError::bad("缺少上传文件")),
    };
    if data.len() == 0 {
        return Err(AppError::bad("文件内容为空"));
    }
    let max = max_upload_mb * 1024 * 1024;
    if data.len() > max {
        let mut m = owned("文件过大，最大允许 ");
        push_decimal(&mut m, max_upload_mb as u64);
        push_str(&mut m, " MB");
        return Err(AppError::BadRequest(m));
    }
    let mime = resolve_mime(form.content_type.as_str(), form.original_name.as_str());
    let category = categorize(mime.as_str(), form.original_name.as_str());
    if let Some(s) = &form.custom_slug {
        validate_slug(s.as_str())?;
    }
    Ok(UploadPlan {
        data,
        original_name: form.original_name,
        mime_type: mime,
        category,
        custom_slug: form.custom_slug,
    })
}

/// A custom link can be used only when no file has it yet.
pub fn slug_available(taken: bool) -> (r: Result<(), AppError>)
    ensures
        !taken ==> r is Ok,
        taken ==> (r matches Err(e) && e@ == ErrorView::Conflict("该链接地址已被占用，请更换"@)),
{
    if taken {
        return Err(AppError::conflict("该链接地址已被占用，请更换"));
    }
    Ok(())
}

/// The lengths tried, in order, for a random link: two tries at 6, 7 and 8
/// characters, then one at 9 and one at 10.
pub open spec fn slug_lengths() -> Seq<usize> {
    seq![6, 6, 7, 7, 8, 8, 9, 10]
}

fn slug_length_at(k: usize) -> (r: usize)
    requires
        k < 8,
    ensures
        r == slug_lengths()[k as int],
{
    if k < 2 {
        6
    } else if k < 4 {
        7
    } else if k < 6 {
        8
    } else if k == 6 {
        9
    } else {
        10
    }
}

/// The link that a lookup of `candidate` settles on: the candidate itself
/// when no file has it, none otherwise.
pub open spec fn accepted_link(candidate: Seq<char>, taken: bool) -> Option<Seq<char>> {
    if taken {
        None
    } else {
        Some(candidate)
    }
}

/// Links stay unique: where the lookup tells truly whether a stored file
/// already has the candidate, a link that the search accepts is held by no
/// stored file, so the stored links, pairwise distinct before, stay so with
/// it added. A custom link goes the same way, through `slug_available`,
/// which succeeds exactly when the lookup found it free.
pub proof fn law_accepted_links_are_new(stored: Seq<Seq<char>>, candidate: Seq<char>, taken: bool)
    requires
        stored.no_duplicates(),
        taken == stored.contains(candidate),
    ensures
        accepted_link(candidate, taken) matches Some(s) ==> {
            &&& !stored.contains(s)
            &&& stored.push(s).no_duplicates()
        },
{
    if let Some(s) = accepted_link(candidate, taken) {
        let t = stored.push(s);
        assert forall|i: int, j: int| 0 <= i < t.len() && 0 <= j < t.len() && i != j implies t[i]
            != t[j] by {
            if i == stored.len() as int {
                assert(t[j] == stored[j]);
                assert(stored.contains(stored[j]));
            } else if j == stored.len() as int {
                assert(t[i] == stored[i]);
                assert(stored.contains(stored[i]));
            } else {
                assert(t[i] == stored[i] && t[j] == stored[j]);
            }
        }
    }
}

/// Every random link that the search draws has between 6 and 10 characters.
pub proof fn law_random_link_lengths(k: int)
    requires
        0 <= k < 8,
    ensures
        6 <= slug_lengths()[k] <= 10,
{
}

/// The search for a random link that no file has yet.
pub struct SlugSearch {
    tried: usize,
}

impl SlugSearch {
    /// How many links were drawn so far.
    pub closed spec fn tries(&self) -> nat {
        self.tried as nat
    }

    pub fn new() -> (s: SlugSearch)
        ensures
            s.tries() == 0,
    {
        SlugSearch { tried: 0 }
    }

    /// The outcome of looking up a candidate: it is the link when no file
    /// has it yet; otherwise the search goes on.
    pub fn accept(&self, candidate: String, taken: bool) -> (r: Option<String>)
        ensures
            taken ==> r is None,
            !taken ==> r == Some(candidate),
            match r {
                Some(s) => accepted_link(candidate@, taken) == Some(s@),
                None => accepted_link(candidate@, taken) is None,
            },
    {
        if taken {
            None
        } else {
            Some(candidate)
        }
    }

    /// The next random link to try, of the next length in `slug_lengths`;
    /// after eight taken links, the search gives up.
    pub fn next_candidate(&mut self) -> (r: Result<String, AppError>)
        ensures
            old(self).tries() < 8 ==> {
                &&& r matches Ok(c)
                &&& c@.len() == slug_lengths()[old(self).tries() as int]
                &&& forall|i: int| 0 <= i < c@.len() ==> is_ascii_alnum(#[trigger] c@[i])
                &&& final(self).tries() == old(self).tries() + 1
            },
            old(self).tries() >= 8 ==> {
                &&& r matches Err(e)
                &&& e@ == ErrorView::Internal("无法生成唯一链接，请重试"@)
                &&& final(self).tries() == old(self).tries()
            },
    {
        if self.tried >= 8 {
            return Err(AppError::Internal(owned("无法生成唯一链接，请重试")));
        }
        let len = slug_length_at(self.tried);
        self.tried = self.tried + 1;
        Ok(random_slug(len))
    }
}

/// The owner's view of a freshly stored upload: shared, never viewed.
pub fn uploaded_dto(id: i64, slug: String, plan: UploadPlan, created_at: String) -> (r: FileDto)
    ensures
        r.id == id,
        r.slug == slug,
        r.original_name == plan.original_name,
        r.mime_type == plan.mime_type,
        r.category == plan.category,
        r.size == plan.data@.len() as i64,
        r.is_shared,
        r.created_at == created_at,
        r.view_count == 0,
{
    let size = plan.data.len() as i64;
    FileDto {
        id,
        slug,
        original_name: plan.original_name,
        mime_type: plan.mime_type,
        category: plan.category,
        size,
        is_shared: true,
        created_at,
        view_count: 0,
    }
}

/// Whether the upload limit in bytes fits in a `usize`.
pub fn upload_limit_fits(max_upload_mb: usize) -> (r: bool)
    ensures
        r == (max_upload_mb * 1048576 <= usize::MAX),
{
    match max_upload_mb.checked_mul(1048576) {
        Some(_) => true,
        None => false,
    }
}

// ---------------------------------------------------------------------------
// Listing
// ---------------------------------------------------------------------------

/// The page, page size, category filter and name search of a file list.
pub struct ListQuery {
    pub category: Option<String>,
    pub search: Option<String>,
    pub page: i64,
    pub page_size: i64,
}

/// The page shown when none is asked for.
pub fn default_page() -> (r: i64)
    ensures
        r == 1,
{
    1
}

/// The page size used when none is asked for.
pub fn default_page_size() -> (r: i64)
    ensures
        r == 12,
{
    12
}

/// A value bound to a `?` of a query.
pub enum SqlArg {
    Int(i64),
    Text(String),
}

/// How a file list is fetched: the normalised paging, and the two queries
/// (count and page) with the values for their `?`s, in order.
pub struct ListPlan {
    pub page: i64,
    pub page_size: i64,
    pub offset: i64,
    pub count_sql: String,
    pub count_args: Vec<SqlArg>,
    pub page_sql: String,
    pub page_args: Vec<SqlArg>,
}

pub open spec fn normalized_page(page: i64) -> int {
    if page < 1 {
        1
    } else {
        page as int
    }
}

pub open spec fn normalized_page_size(page_size: i64) -> int {
    if page_size < 1 {
        1
    } else if page_size > 100 {
        100
    } else {
        page_size as int
    }
}

/// Pages are counted from 1 and hold 1 to 100 files: a page below 1 is the
/// first, a size below 1 is 1 and one above 100 is 100; a page of 1 or more
/// and a size from 1 to 100 are taken as given.
pub proof fn law_paging_bounds(page: i64, page_size: i64)
    ensures
        normalized_page(page) >= 1,
        1 <= normalized_page_size(page_size) <= 100,
        page >= 1 ==> normalized_page(page) == page,
        page < 1 ==> normalized_page(page) == 1,
        1 <= page_size <= 100 ==> normalized_page_size(page_size) == page_size,
        page_size < 1 ==> normalized_page_size(page_size) == 1,
        page_size > 100 ==> normalized_page_size(page_size) == 100,
{
}

/// The category filter applies unless it is empty or "all".
pub open spec fn category_filter(category: Option<Seq<char>>) -> Option<Seq<char>> {
    match category {
        Some(c) => if c.len() > 0 && c != "all"@ {
            Some(c)
        } else {
            None
        },
        None => None,
    }
}

/// The `LIKE` pattern of a name search, unless the search is blank.
pub open spec fn search_pattern(search: Option<Seq<char>>) -> Option<Seq<char>> {
    match search {
        Some(s) => if trim_seq(s).len() > 0 {
            Some("%"@ + trim_seq(s) + "%"@)
        } else {
            None
        },
        None => None,
    }
}

/// A category of "all" or nothing filters nothing; a blank search searches
/// nothing; and a search is the same with or without surrounding
/// whitespace. (The pattern is matched with SQL `LIKE`, where `%` and `_`
/// in the search are wildcards.)
pub proof fn law_blank_filters_are_ignored(search: Seq<char>)
    ensures
        category_filter(Some("all"@)) == category_filter(None),
        category_filter(Some(Seq::<char>::empty())) == category_filter(None),
        category_filter(None) is None,
        trim_seq(search).len() == 0 ==> search_pattern(Some(search)) == search_pattern(None),
        search_pattern(None) is None,
        search_pattern(Some(search)) == search_pattern(Some(trim_seq(search))),
{
    crate::text::law_trim_idempotent(search);
}

pub open spec fn filter_sql(category: Option<Seq<char>>, pattern: Option<Seq<char>>) -> Seq<char> {
    (if category is Some {
        " AND category = ?"@
    } else {
        Seq::empty()
    }) + (if pattern is Some {
        " AND original_name LIKE ?"@
    } else {
        Seq::empty()
    })
}

pub open spec fn count_sql_of(category: Option<Seq<char>>, pattern: Option<Seq<char>>) -> Seq<char> {
    "SELECT COUNT(*) FROM files WHERE user_id = ?"@ + filter_sql(category, pattern)
}

pub open spec fn page_sql_of(category: Option<Seq<char>>, pattern: Option<Seq<char>>) -> Seq<char> {
    "SELECT id, slug, original_name, mime_type, category, size, is_shared, created_at, (SELECT COUNT(*) FROM visits v WHERE v.file_id = files.id) AS view_count FROM files WHERE user_id = ?"@
        + filter_sql(category, pattern) + " ORDER BY id DESC LIMIT ? OFFSET ?"@
}

pub open spec fn arg_view(a: SqlArg) -> ArgView {
    match a {
        SqlArg::Int(i) => ArgView::Int(i),
        SqlArg::Text(t) => ArgView::Text(t@),
    }
}

/// A bound value, its text taken as characters.
pub enum ArgView {
    Int(i64),
    Text(Seq<char>),
}

pub open spec fn args_view(a: Seq<SqlArg>) -> Seq<ArgView> {
    a.map_values(|x: SqlArg| arg_view(x))
}

pub open spec fn filter_args(category: Option<Seq<char>>, pattern: Option<Seq<char>>) -> Seq<ArgView> {
    (match category {
        Some(c) => seq![ArgView::Text(c)],
        None => Seq::empty(),
    }) + (match pattern {
        Some(p) => seq![ArgView::Text(p)],
        None => Seq::empty(),
    })
}

/// A search that is not blank is always applied: the lists are those files
/// whose name is `LIKE` '%' + the trimmed search + '%', a condition and an
/// argument added after those of the category. A category other than ""
/// and "all" is always applied as it is given.
pub proof fn law_filters_applied(category: Option<Seq<char>>, search: Seq<char>)
    ensures
        trim_seq(search).len() > 0 ==> search_pattern(Some(search)) == Some(
            "%"@ + trim_seq(search) + "%"@,
        ),
        trim_seq(search).len() > 0 ==> filter_sql(category_filter(category), search_pattern(Some(search)))
            == filter_sql(category_filter(category), None) + " AND original_name LIKE ?"@,
        trim_seq(search).len() > 0 ==> filter_args(category_filter(category), search_pattern(Some(search)))
            == filter_args(category_filter(category), None).push(
            ArgView::Text("%"@ + trim_seq(search) + "%"@),
        ),
        category is Some && category->0.len() > 0 && category->0 != "all"@ ==> category_filter(
            category,
        ) == category && filter_sql(category_filter(category), None) == " AND category = ?"@
            && filter_args(category_filter(category), None) == seq![ArgView::Text(category->0)],
{
    let cf = category_filter(category);
    if trim_seq(search).len() > 0 {
        let p = "%"@ + trim_seq(search) + "%"@;
        assert(filter_sql(cf, Some(p)) =~= filter_sql(cf, None) + " AND original_name LIKE ?"@);
        assert(filter_args(cf, Some(p)) =~= filter_args(cf, None).push(ArgView::Text(p)));
    }
    if let Some(c) = category {
        if c.len() > 0 && c != "all"@ {
            assert(filter_sql(cf, None) =~= " AND category = ?"@);
            assert(filter_args(cf, None) =~= seq![ArgView::Text(c)]);
        }
    }
}

pub open spec fn opt_string_view(o: Option<String>) -> Option<Seq<char>> {
    match o {
        Some(s) => Some(s@),
        None => None,
    }
}

fn push_arg(v: &mut Vec<SqlArg>, a: SqlArg)
    ensures
        args_view(final(v)@) == args_view(old(v)@).push(arg_view(a)),
{
    let ghost before = v@;
    v.push(a);
    assert(args_view(v@) =~= args_view(before).push(arg_view(a)));
}

/// Whether the offset of the page asked for fits in an `i64` (the listing
/// cannot be planned otherwise).
pub fn paging_fits(q: &ListQuery) -> (r: bool)
    ensures
        r == ((normalized_page(q.page) - 1) * normalized_page_size(q.page_size) <= i64::MAX),
{
    let page = if q.page < 1 { 1 } else { q.page };
    let page_size = if q.page_size < 1 { 1 } else if q.page_size > 100 { 100 } else { q.page_size };
    let before: i64 = page - 1;
    match before.checked_mul(page_size) {
        Some(_) => true,
        None => false,
    }
}

/// Plans the listing of a user's files: page at least 1, page size from 1
/// to 100, the category filter unless empty or "all", the trimmed name
/// search unless blank; newest first.
pub fn plan_file_list(user_id: i64, q: &ListQuery) -> (r: ListPlan)
    requires
        (normalized_page(q.page) - 1) * normalized_page_size(q.page_size) <= i64::MAX,
    ensures
        r.page == normalized_page(q.page),
        r.page_size == normalized_page_size(q.page_size),
        r.offset == (r.page - 1) * r.page_size,
        r.count_sql@ == count_sql_of(
            category_filter(opt_string_view(q.category)),
            search_pattern(opt_string_view(q.search)),
        ),
        args_view(r.count_args@) == seq![ArgView::Int(user_id)] + filter_args(
            category_filter(opt_string_view(q.category)),
            search_pattern(opt_string_view(q.search)),
        ),
        r.page_sql@ == page_sql_of(
            category_filter(opt_string_view(q.category)),
            search_pattern(opt_string_view(q.search)),
        ),
        args_view(r.page_args@) == seq![ArgView::Int(user_id)] + filter_args(
            category_filter(opt_string_view(q.category)),
            search_pattern(opt_string_view(q.search)),
        ) + seq![ArgView::Int(r.page_size), ArgView::Int(r.offset)],
{
    let page = if q.page < 1 { 1 } else { q.page };
    let page_size = if q.page_size < 1 { 1 } else if q.page_size > 100 { 100 } else { q.page_size };
    let offset = (page - 1) * page_size;
    let category: Option<String> = match &q.category {
        Some(c) => if !c.as_str().is_empty() && !str_equals(c.as_str(), "all") {
            Some(c.clone())
        } else {
            None
        },
        None => None,
    };
    let pattern: Option<String> = match &q.search {
        Some(s) => {
            let t = trim(s.as_str());
            if !t.as_str().is_empty() {
                let mut p = owned("%");
                push_str(&mut p, t.as_str());
                push_str(&mut p, "%");
                Some(p)
            } else {
                None
            }
        },
        None => None,
    };
    let ghost cat = category_filter(opt_string_view(q.category));
    let ghost pat = search_pattern(opt_string_view(q.search));
    assert(opt_string_view(category) == cat);
    assert(opt_string_view(pattern) == pat);
    let mut filters = String::new();
    let mut args: Vec<SqlArg> = Vec::new();
    push_arg(&mut args, SqlArg::Int(user_id));
    if let Some(c) = &category {
        push_str(&mut filters, " AND category = ?");
        push_arg(&mut args, SqlArg::Text(c.clone()));
    }
    if let Some(p) = &pattern {
        push_str(&mut filters, " AND original_name LIKE ?");
        push_arg(&mut args, SqlArg::Text(p.clone()));
    }
    assert(filters@ =~= filter_sql(cat, pat));
    assert(args_view(args@) =~= seq![ArgView::Int(user_id)] + filter_args(cat, pat));
    let mut count_sql = owned("SELECT COUNT(*) FROM files WHERE user_id = ?");
    push_str(&mut count_sql, filters.as_str());
    let mut page_sql = owned(
        "SELECT id, slug, original_name, mime_type, category, size, is_shared, created_at, (SELECT COUNT(*) FROM visits v WHERE v.file_id = files.id) AS view_count FROM files WHERE user_id = ?",
    );
    push_str(&mut page_sql, filters.as_str());
    push_str(&mut page_sql, " ORDER BY id DESC LIMIT ? OFFSET ?");
    let mut page_args: Vec<SqlArg> = Vec::new();
    push_arg(&mut page_args, SqlArg::Int(user_id));
    if let Some(c) = &category {
        push_arg(&mut page_args, SqlArg::Text(c.clone()));
    }
    if let Some(p) = &pattern {
        push_arg(&mut page_args, SqlArg::Text(p.clone()));
    }
    push_arg(&mut page_args, SqlArg::Int(page_size));
    push_arg(&mut page_args, SqlArg::Int(offset));
    assert(args_view(page_args@) =~= seq![ArgView::Int(user_id)] + filter_args(cat, pat) + seq![
        ArgView::Int(page_size),
        ArgView::Int(offset),
    ]);
    ListPlan { page, page_size, offset, count_sql, count_args: args, page_sql, page_args }
}

// ---------------------------------------------------------------------------
// Changes to one's own files
// ---------------------------------------------------------------------------

/// A file can be changed only by its owner: `row` is the file with the
/// requested id, if any.
pub fn owned_file(row: Option<FileRow>, user_id: i64) -> (r: Result<FileRow, AppError>)
    ensures
        match row {
            None => r matches Err(e) && e@ == ErrorView::NotFound,
            Some(f) => if f.user_id == user_id {
                r == Ok::<FileRow, AppError>(f)
            } else {
                r matches Err(e) && e@ == ErrorView::Forbidden
            },
        },
{
    match row {
        None => Err(AppError::NotFound),
        Some(f) => {
            if f.user_id != user_id {
                return Err(AppError::Forbidden);
            }
            Ok(f)
        },
    }
}

/// A bulk change of the sharing of files: the files, and whether they are
/// to be shared (not shared when the field is absent).
pub struct UnshareBody {
    pub ids: Vec<i64>,
    pub is_shared: bool,
}

/// A bulk change needs at least one file.
pub fn require_selection(ids: &Vec<i64>) -> (r: Result<(), AppError>)
    ensures
        ids@.len() > 0 ==> r is Ok,
        ids@.len() == 0 ==> (r matches Err(e) && e@ == ErrorView::BadRequest("未选择任何文件"@)),
{
    if ids.len() == 0 {
        return Err(AppError::bad("未选择任何文件"));
    }
    Ok(())
}

/// What a bulk change does with one of the selected files.
pub enum BulkStep {
    /// Change it.
    Apply(FileRow),
    /// Leave it: it does not exist or is someone else's.
    Skip,
    /// Stop with this error.
    Abort(AppError),
}

/// The bulk decision for one file, from the outcome of `owned_file`.
pub fn bulk_step(owned: Result<FileRow, AppError>) -> (r: BulkStep)
    ensures
        match owned {
            Ok(f) => r == BulkStep::Apply(f),
            Err(e) => match e {
                AppError::NotFound | AppError::Forbidden => r is Skip,
                _ => r == BulkStep::Abort(e),
            },
        },
{
    match owned {
        Ok(f) => BulkStep::Apply(f),
        Err(AppError::NotFound) => BulkStep::Skip,
        Err(AppError::Forbidden) => BulkStep::Skip,
        Err(e) => BulkStep::Abort(e),
    }
}

/// The running count of changed rows of a bulk change.
pub fn add_affected(total: u64, affected: u64) -> (r: u64)
    requires
        total + affected <= u64::MAX,
    ensures
        r == total + affected,
{
    total + affected
}

/// The new link of a file: the trimmed text, if it is a valid link.
pub fn prepare_slug_update(body: &UpdateSlug) -> (r: Result<String, AppError>)
    ensures
        match r {
            Ok(s) => s@ == trim_seq(body.slug@) && slug_error(s@) is None,
            Err(e) => slug_error(trim_seq(body.slug@)) == Some(e@),
        },
{
    let s = trim(body.slug.as_str());
    validate_slug(s.as_str())?;
    Ok(s)
}

} // verus!
