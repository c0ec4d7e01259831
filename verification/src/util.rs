//! Short links, file classification and stored file names.
use crate::error::{AppError, ErrorView};
use crate::text::{
    ascii_lower, byte_len, last_index_in, last_index_of, lemma_last_index_of_bound, push_str, string_of, char_ascii_lower, char_from_ascii, char_is_ascii_alnum, chars_of, ends_with,
    is_ascii_alnum, owned, push_char, seq_ends_with, seq_equals, seq_starts_with, starts_with,
    str_equals,
};
use rand::Rng;
use vstd::prelude::*;

verus! {

broadcast use vstd::seq_lib::group_seq_properties;

// ---------------------------------------------------------------------------
// Random short links
// ---------------------------------------------------------------------------

/// The base62 alphabet of generated links: `a-z`, then `A-Z`, then `0-9`.
pub open spec fn base62_char(k: nat) -> char {
    if k < 26 {
        (('a' as u32) + k) as char
    } else if k < 52 {
        (('A' as u32) + (k - 26)) as char
    } else {
        (('0' as u32) + (k - 52)) as char
    }
}

fn base62_at(k: usize) -> (c: char)
    requires
        k < 62,
    ensures
        c == base62_char(k as nat),
        is_ascii_alnum(c),
{
    if k < 26 {
        char_from_ascii(97 + k as u32)
    } else if k < 52 {
        char_from_ascii(65 + (k - 26) as u32)
    } else {
        char_from_ascii(48 + (k - 52) as u32)
    }
}

/// Calls `rand::Rng::gen_range(0..bound)` on the thread-local generator.
/// What is stated is only that the number lies in `0..bound`; which number
/// comes back is left to chance.
#[verifier::external_body]
fn random_below(bound: usize) -> (r: usize)
    requires
        bound > 0,
    ensures
        r < bound,
{
    rand::thread_rng().gen_range(0..bound)
}

/// A random base62 link of `len` characters.
pub fn random_slug(len: usize) -> (r: String)
    ensures
        r@.len() == len,
        forall|i: int| 0 <= i < len ==> is_ascii_alnum(#[trigger] r@[i]),
{
    let mut s = String::new();
    let mut i: usize = 0;
    while i < len
        invariant
            i <= len,
            s@.len() == i,
            forall|j: int| 0 <= j < i ==> is_ascii_alnum(#[trigger] s@[j]),
        decreases len - i,
    {
        let k = random_below(62);
        let c = base62_at(k);
        push_char(&mut s, c);
        i = i + 1;
    }
    s
}

// ---------------------------------------------------------------------------
// Custom links
// ---------------------------------------------------------------------------

pub open spec fn slug_char(c: char) -> bool {
    is_ascii_alnum(c) || c == '-' || c == '_'
}

/// The words that name the application's own routes and cannot be links.
pub open spec fn is_reserved_word(s: Seq<char>) -> bool {
    s == "api"@ || s == "raw"@ || s == "s"@ || s == "p"@ || s == "login"@ || s == "register"@
}

/// Why a custom link is refused, if it is.
/// Its length counts UTF-8 bytes; the reserved words are matched without
/// regard to case.
pub open spec fn slug_error(slug: Seq<char>) -> Option<ErrorView> {
    if slug.len() == 0 || vstd::utf8::encode_utf8(slug).len() > 64 {
        Some(ErrorView::BadRequest("链接地址长度需在 1-64 之间"@))
    } else if !(forall|i: int| 0 <= i < slug.len() ==> slug_char(#[trigger] slug[i])) {
        Some(ErrorView::BadRequest("链接地址只能包含字母、数字、'-' 和 '_'"@))
    } else if is_reserved_word(slug.map_values(|c: char| ascii_lower(c))) {
        Some(ErrorView::BadRequest("该链接地址为系统保留字，请更换"@))
    } else {
        None
    }
}

fn all_slug_chars(v: &Vec<char>) -> (r: bool)
    ensures
        r == (forall|i: int| 0 <= i < v@.len() ==> slug_char(#[trigger] v@[i])),
{
    let mut i: usize = 0;
    while i < v.len()
        invariant
            0 <= i <= v@.len(),
            forall|j: int| 0 <= j < i ==> slug_char(#[trigger] v@[j]),
        decreases v@.len() - i,
    {
        let c = v[i];
        if !(char_is_ascii_alnum(c) || c == '-' || c == '_') {
            assert(!slug_char(v@[i as int]));
            return false;
        }
        i = i + 1;
    }
    true
}

/// The ASCII lower-case form of every character of `v`.
pub fn ascii_lowercase(v: &Vec<char>) -> (r: Vec<char>)
    ensures
        r@ == v@.map_values(|c: char| ascii_lower(c)),
{
    let mut r: Vec<char> = Vec::new();
    let mut i: usize = 0;
    while i < v.len()
        invariant
            0 <= i <= v@.len(),
            r@ == v@.take(i as int).map_values(|c: char| ascii_lower(c)),
        decreases v@.len() - i,
    {
        r.push(char_ascii_lower(v[i]));
        assert(v@.take(i + 1) =~= v@.take(i as int).push(v@[i as int]));
        i = i + 1;
    }
    assert(v@.take(v@.len() as int) =~= v@);
    r
}

/// Checks a custom link: 1 to 64 bytes of letters, digits, '-' and '_',
/// and none of the reserved words.
pub fn validate_slug(slug: &str) -> (r: Result<(), AppError>)
    ensures
        match r {
            Ok(()) => slug_error(slug@) is None,
            Err(e) => slug_error(slug@) == Some(e@),
        },
{
    if slug.is_empty() || byte_len(slug) > 64 {
        return Err(AppError::bad("链接地址长度需在 1-64 之间"));
    }
    let v = chars_of(slug);
    if !all_slug_chars(&v) {
        return Err(AppError::bad("链接地址只能包含字母、数字、'-' 和 '_'"));
    }
    let lower = ascii_lowercase(&v);
    if seq_equals(&lower, "api") || seq_equals(&lower, "raw") || seq_equals(&lower, "s")
        || seq_equals(&lower, "p") || seq_equals(&lower, "login") || seq_equals(&lower, "register") {
        return Err(AppError::bad("该链接地址为系统保留字，请更换"));
    }
    Ok(())
}

/// A custom link that holds any character other than an ASCII letter, an
/// ASCII digit, '-' or '_' is refused; when its length is in bounds, for
/// exactly that reason.
pub proof fn law_slug_foreign_char_refused(s: Seq<char>, i: int)
    requires
        0 <= i < s.len(),
        !(('0' <= s[i] && s[i] <= '9') || ('a' <= s[i] && s[i] <= 'z') || ('A' <= s[i] && s[i]
            <= 'Z') || s[i] == '-' || s[i] == '_'),
    ensures
        slug_error(s) is Some,
        vstd::utf8::encode_utf8(s).len() <= 64 ==> slug_error(s) == Some(
            ErrorView::BadRequest("链接地址只能包含字母、数字、'-' 和 '_'"@),
        ),
{
    assert(!slug_char(s[i]));
}

/// A custom link of 1 to 64 bytes, each an ASCII letter, an ASCII digit,
/// '-' or '_', is accepted unless it is a reserved word in some case, and a
/// reserved word in any case is refused as such.
pub proof fn law_slug_accepted(s: Seq<char>)
    requires
        1 <= s.len(),
        vstd::utf8::encode_utf8(s).len() <= 64,
        forall|i: int|
            0 <= i < s.len() ==> ('0' <= #[trigger] s[i] && s[i] <= '9') || ('a' <= s[i] && s[i]
                <= 'z') || ('A' <= s[i] && s[i] <= 'Z') || s[i] == '-' || s[i] == '_',
    ensures
        !is_reserved_word(s.map_values(|c: char| ascii_lower(c))) ==> slug_error(s) is None,
        is_reserved_word(s.map_values(|c: char| ascii_lower(c))) ==> slug_error(s) == Some(
            ErrorView::BadRequest("该链接地址为系统保留字，请更换"@),
        ),
{
    assert forall|i: int| 0 <= i < s.len() implies slug_char(#[trigger] s[i]) by {
        assert(('0' <= s[i] && s[i] <= '9') || ('a' <= s[i] && s[i] <= 'z') || ('A' <= s[i] && s[i]
            <= 'Z') || s[i] == '-' || s[i] == '_');
    }
}

/// A custom link that is empty or longer than 64 bytes is refused for its
/// length, whatever it holds.
pub proof fn law_slug_length_refused(s: Seq<char>)
    requires
        s.len() == 0 || vstd::utf8::encode_utf8(s).len() > 64,
    ensures
        slug_error(s) == Some(ErrorView::BadRequest("链接地址长度需在 1-64 之间"@)),
{
}

/// The route names "api", "raw", "s", "p", "login" and "register", in any
/// mix of upper and lower case, are refused as custom links.
pub proof fn law_reserved_links_refused(s: Seq<char>)
    requires
        ({
            let l = s.map_values(|c: char| ascii_lower(c));
            l == "api"@ || l == "raw"@ || l == "s"@ || l == "p"@ || l == "login"@ || l
                == "register"@
        }),
    ensures
        slug_error(s) == Some(ErrorView::BadRequest("该链接地址为系统保留字，请更换"@)),
{
    reveal_strlit("api");
    reveal_strlit("raw");
    reveal_strlit("s");
    reveal_strlit("p");
    reveal_strlit("login");
    reveal_strlit("register");
    let l = s.map_values(|c: char| ascii_lower(c));
    assert(l.len() == s.len());
    assert forall|i: int| 0 <= i < s.len() implies 'a' <= #[trigger] l[i] && l[i] <= 'z' by {
        assert(l[i] == ascii_lower(s[i]));
    }
    assert forall|i: int| 0 <= i < s.len() implies is_ascii_alnum(#[trigger] s[i]) by {
        assert(l[i] == ascii_lower(s[i]));
    }
    assert(vstd::utf8::is_ascii_chars(s)) by {
        assert forall|i: int| 0 <= i < s.len() implies '\0' <= #[trigger] s[i] <= '\u{7f}' by {
            assert(is_ascii_alnum(s[i]));
        }
    }
    vstd::utf8::is_ascii_chars_encode_utf8(s);
    assert forall|i: int| 0 <= i < s.len() implies slug_char(#[trigger] s[i]) by {
        assert(is_ascii_alnum(s[i]));
    }
}

/// A link of 1 to 64 ASCII letters and digits, such as every random link,
/// is accepted as a custom link unless it is a reserved word (in any case).
pub proof fn law_alphanumeric_links_valid(s: Seq<char>)
    requires
        1 <= s.len() <= 64,
        forall|i: int| 0 <= i < s.len() ==> is_ascii_alnum(#[trigger] s[i]),
        !is_reserved_word(s.map_values(|c: char| ascii_lower(c))),
    ensures
        slug_error(s) is None,
{
    assert(vstd::utf8::is_ascii_chars(s)) by {
        assert forall|i: int| 0 <= i < s.len() implies '\0' <= #[trigger] s[i] <= '\u{7f}' by {
            assert(is_ascii_alnum(s[i]));
        }
    }
    vstd::utf8::is_ascii_chars_encode_utf8(s);
    assert forall|i: int| 0 <= i < s.len() implies slug_char(#[trigger] s[i]) by {
        assert(is_ascii_alnum(s[i]));
    }
}

// ---------------------------------------------------------------------------
// Classification
// ---------------------------------------------------------------------------

/// The Unicode lower-case form of a string, as `str::to_lowercase` returns it.
pub uninterp spec fn unicode_lowercase(s: Seq<char>) -> Seq<char>;

/// Calls `str::to_lowercase`; the result is named `unicode_lowercase` of
/// the argument. Unicode's lower-case mapping of an ASCII letter is its
/// ASCII lower case and leaves other ASCII characters as they are, so an
/// ASCII string is lowered character by character.
#[verifier::external_body]
fn to_lowercase(s: &str) -> (r: String)
    ensures
        r@ == unicode_lowercase(s@),
        vstd::utf8::is_ascii_chars(s@) ==> r@ == s@.map_values(|c: char| ascii_lower(c)),
{
    s.to_lowercase()
}

/// The category of a file of type `mime` whose lower-cased name is `lower`.
pub open spec fn category_of(mime: Seq<char>, lower: Seq<char>) -> Seq<char> {
    if starts_with(mime, "image/"@) {
        "image"@
    } else if starts_with(mime, "video/"@) {
        "video"@
    } else if starts_with(mime, "audio/"@) {
        "audio"@
    } else if mime == "text/html"@ || ends_with(lower, ".html"@) || ends_with(lower, ".htm"@) {
        "html"@
    } else if mime == "text/markdown"@ || ends_with(lower, ".md"@) || ends_with(lower, ".markdown"@) {
        "markdown"@
    } else if starts_with(mime, "text/"@) || ends_with(lower, ".txt"@) || ends_with(lower, ".json"@)
        || ends_with(lower, ".csv"@) || ends_with(lower, ".log"@) || mime == "application/json"@ {
        "text"@
    } else {
        "other"@
    }
}

/// Whether a type names a media kind: `image/`, `video/` or `audio/`.
pub open spec fn media_type(mime: Seq<char>) -> bool {
    starts_with(mime, "image/"@) || starts_with(mime, "video/"@) || starts_with(mime, "audio/"@)
}

/// A name that marks a web page: it ends in ".html" or ".htm".
pub open spec fn html_name(lower: Seq<char>) -> bool {
    ends_with(lower, ".html"@) || ends_with(lower, ".htm"@)
}

/// A name that marks a Markdown document: it ends in ".md" or ".markdown".
pub open spec fn markdown_name(lower: Seq<char>) -> bool {
    ends_with(lower, ".md"@) || ends_with(lower, ".markdown"@)
}

/// Images, videos and sounds are told by their type alone, whatever the
/// name says.
pub proof fn law_media_by_type(mime: Seq<char>, lower: Seq<char>)
    ensures
        starts_with(mime, "image/"@) ==> category_of(mime, lower) == "image"@,
        starts_with(mime, "video/"@) ==> category_of(mime, lower) == "video"@,
        starts_with(mime, "audio/"@) ==> category_of(mime, lower) == "audio"@,
{
    reveal_strlit("image/");
    reveal_strlit("video/");
    reveal_strlit("audio/");
    if starts_with(mime, "video/"@) {
        assert(mime[0] == mime.subrange(0, 6)[0]);
    }
    if starts_with(mime, "audio/"@) {
        assert(mime[0] == mime.subrange(0, 6)[0]);
    }
}

/// A file that is not media is a web page when its type is `text/html` or
/// its name ends in ".html" or ".htm"; else a Markdown document when its
/// type is `text/markdown` or its name ends in ".md" or ".markdown".
pub proof fn law_documents(mime: Seq<char>, lower: Seq<char>)
    requires
        !media_type(mime),
    ensures
        (mime == "text/html"@ || html_name(lower)) ==> category_of(mime, lower) == "html"@,
        !(mime == "text/html"@ || html_name(lower)) && (mime == "text/markdown"@ || markdown_name(
            lower,
        )) ==> category_of(mime, lower) == "markdown"@,
{
}

/// Every `text/` type, other than `text/html` and `text/markdown`, of a
/// file whose name is not a web page or Markdown name, is a text file.
pub proof fn law_text_types_are_text(mime: Seq<char>, lower: Seq<char>)
    requires
        mime.len() >= 5,
        mime.subrange(0, 5) == seq!['t', 'e', 'x', 't', '/'],
        mime != "text/html"@,
        mime != "text/markdown"@,
        !html_name(lower),
        !markdown_name(lower),
    ensures
        category_of(mime, lower) == "text"@,
{
    reveal_strlit("image/");
    reveal_strlit("video/");
    reveal_strlit("audio/");
    reveal_strlit("text/");
    assert(mime[0] == mime.subrange(0, 5)[0]);
    if mime.len() >= 6 {
        assert(mime[0] == mime.subrange(0, 6)[0]);
    }
    assert(starts_with(mime, "text/"@)) by {
        assert("text/"@ =~= seq!['t', 'e', 'x', 't', '/']);
    }
}

/// A file that is neither media, a web page nor Markdown, whose name ends in
/// ".txt", ".json", ".csv" or ".log", or whose type is `application/json`,
/// is a text file; one that has none of these marks and no `text/` type is
/// "other".
pub proof fn law_text_names_and_other(mime: Seq<char>, lower: Seq<char>)
    requires
        !media_type(mime),
        mime != "text/html"@,
        mime != "text/markdown"@,
        !html_name(lower),
        !markdown_name(lower),
    ensures
        (ends_with(lower, ".txt"@) || ends_with(lower, ".json"@) || ends_with(lower, ".csv"@)
            || ends_with(lower, ".log"@) || mime == "application/json"@) ==> category_of(mime, lower)
            == "text"@,
        !(starts_with(mime, "text/"@) || ends_with(lower, ".txt"@) || ends_with(lower, ".json"@)
            || ends_with(lower, ".csv"@) || ends_with(lower, ".log"@) || mime == "application/json"@)
            ==> category_of(mime, lower) == "other"@,
{
}

/// The category of a file from its type and its already lower-cased name.
pub fn categorize_lowered(mime: &str, lower: &str) -> (r: String)
    ensures
        r@ == category_of(mime@, lower@),
{
    let m = chars_of(mime);
    let l = chars_of(lower);
    if seq_starts_with(&m, "image/") {
        return owned("image");
    }
    if seq_starts_with(&m, "video/") {
        return owned("video");
    }
    if seq_starts_with(&m, "audio/") {
        return owned("audio");
    }
    if seq_equals(&m, "text/html") || seq_ends_with(&l, ".html") || seq_ends_with(&l, ".htm") {
        return owned("html");
    }
    if seq_equals(&m, "text/markdown") || seq_ends_with(&l, ".md") || seq_ends_with(&l, ".markdown") {
        return owned("markdown");
    }
    if seq_starts_with(&m, "text/") || seq_ends_with(&l, ".txt") || seq_ends_with(&l, ".json")
        || seq_ends_with(&l, ".csv") || seq_ends_with(&l, ".log") || seq_equals(&m, "application/json") {
        return owned("text");
    }
    owned("other")
}

/// Classifies a file into a coarse category for filtering and rendering.
/// The name's case does not matter; for an ASCII name this is ASCII case.
pub fn categorize(mime: &str, filename: &str) -> (r: String)
    ensures
        r@ == category_of(mime@, unicode_lowercase(filename@)),
        vstd::utf8::is_ascii_chars(filename@) ==> r@ == category_of(
            mime@,
            filename@.map_values(|c: char| ascii_lower(c)),
        ),
{
    let lower = to_lowercase(filename);
    categorize_lowered(mime, lower.as_str())
}

/// The type `mime_guess` gives a file name, `application/octet-stream`
/// when it knows none.
pub uninterp spec fn guessed_mime(filename: Seq<char>) -> Seq<char>;

/// Calls `mime_guess::from_path(..).first_or_octet_stream()` and renders
/// the type as text; the result is named `guessed_mime` of the name.
#[verifier::external_body]
fn guess_mime(filename: &str) -> (r: String)
    ensures
        r@ == guessed_mime(filename@),
{
    mime_guess::from_path(filename).first_or_octet_stream().to_string()
}

/// The type a file is stored with: the one the client sent, unless it sent
/// none or the generic `application/octet-stream`; then a guess from the name.
pub open spec fn resolved_mime(content_type: Seq<char>, filename: Seq<char>) -> Seq<char> {
    if content_type.len() != 0 && content_type != "application/octet-stream"@ {
        content_type
    } else {
        guessed_mime(filename)
    }
}

/// Resolves a reasonable type from the supplied content type or the name.
pub fn resolve_mime(content_type: &str, filename: &str) -> (r: String)
    ensures
        r@ == resolved_mime(content_type@, filename@),
{
    if !content_type.is_empty() && !str_equals(content_type, "application/octet-stream") {
        return owned(content_type);
    }
    guess_mime(filename)
}

// ---------------------------------------------------------------------------
// Stored file names
// ---------------------------------------------------------------------------

/// Where the file name of the path `p[..end]` lies, as `Path::file_name`
/// finds it: the last component that is neither empty nor `.`; none when
/// there is no such component or it is `..`.
pub open spec fn file_name_range(p: Seq<char>, end: int) -> Option<(int, int)>
    decreases end,
{
    if end <= 0 || end > p.len() {
        None
    } else if p[end - 1] == '/' {
        file_name_range(p, end - 1)
    } else {
        let k = last_index_of(p.subrange(0, end), '/');
        proof {
            lemma_last_index_of_bound(p.subrange(0, end), '/');
        }
        let seg = p.subrange(k + 1, end);
        if seg == seq!['.'] {
            file_name_range(p, k + 1)
        } else if seg == seq!['.', '.'] {
            None
        } else {
            Some((k + 1, end))
        }
    }
}

/// The file name of a path (`Path::file_name`).
pub open spec fn file_name_of(p: Seq<char>) -> Option<Seq<char>> {
    match file_name_range(p, p.len() as int) {
        Some((a, b)) => Some(p.subrange(a, b)),
        None => None,
    }
}

/// The extension of a file name (`Path::extension`): the text after its
/// last '.', unless that '.' is the first character or there is none.
pub open spec fn extension_of(name: Seq<char>) -> Option<Seq<char>> {
    let d = last_index_of(name, '.');
    if d <= 0 {
        None
    } else {
        Some(name.subrange(d + 1, name.len() as int))
    }
}

/// The suffix a stored file keeps from its original name: '.' and the
/// extension, or nothing when the name has no extension.
pub open spec fn stored_suffix(original_name: Seq<char>) -> Seq<char> {
    match file_name_of(original_name) {
        Some(n) => match extension_of(n) {
            Some(e) => seq!['.'] + e,
            None => Seq::empty(),
        },
        None => Seq::empty(),
    }
}

proof fn lemma_file_name_range_inside(p: Seq<char>, end: int)
    ensures
        file_name_range(p, end) matches Some((a, b)) ==> 0 <= a < b <= end && b <= p.len(),
    decreases end,
{
    if end <= 0 || end > p.len() {
    } else if p[end - 1] == '/' {
        lemma_file_name_range_inside(p, end - 1);
    } else {
        let k = last_index_of(p.subrange(0, end), '/');
        lemma_last_index_of_bound(p.subrange(0, end), '/');
        lemma_file_name_range_inside(p, k + 1);
    }
}

fn file_name_range_in(v: &Vec<char>, end: usize) -> (r: Option<(usize, usize)>)
    requires
        end <= v@.len(),
    ensures
        match r {
            Some((a, b)) => file_name_range(v@, end as int) == Some((a as int, b as int)),
            None => file_name_range(v@, end as int) is None,
        },
    decreases end,
{
    if end == 0 {
        return None;
    }
    if v[end - 1] == '/' {
        return file_name_range_in(v, end - 1);
    }
    let ghost s = v@.subrange(0, end as int);
    proof {
        lemma_last_index_of_bound(s, '/');
    }
    let start: usize = match last_index_in(v, '/', 0, end) {
        Some(k) => k + 1,
        None => 0,
    };
    assert(start as int == last_index_of(s, '/') + 1);
    let ghost seg = v@.subrange(start as int, end as int);
    if end - start == 1 && v[start] == '.' {
        assert(seg =~= seq!['.']);
        return file_name_range_in(v, start);
    }
    if end - start == 2 && v[start] == '.' && v[start + 1] == '.' {
        assert(seg =~= seq!['.', '.']);
        return None;
    }
    proof {
        assert(seg.len() == end - start);
        if seg == seq!['.'] {
            assert(seg[0] == v@[start as int]);
            assert(false);
        }
        let dd = seq!['.', '.'];
        assert(dd.len() == 2 && dd[0] == '.' && dd[1] == '.');
        if seg == dd {
            assert(seg[0] == v@[start as int] && seg[1] == v@[start + 1]);
            assert(false);
        }
    }
    Some((start, end))
}

/// '.' and the extension of the file name `v[a..b]`, or the empty string.
fn suffix_of_name(v: &Vec<char>, a: usize, b: usize) -> (r: String)
    requires
        a < b <= v@.len(),
    ensures
        r@ == match extension_of(v@.subrange(a as int, b as int)) {
            Some(e) => seq!['.'] + e,
            None => Seq::empty(),
        },
{
    let ghost n = v@.subrange(a as int, b as int);
    match last_index_in(v, '.', a, b) {
        Some(d) => {
            if d > a {
                let mut r = String::new();
                push_char(&mut r, '.');
                let e = string_of(v, d + 1, b);
                push_str(&mut r, e.as_str());
                assert(n.subrange(d - a + 1, n.len() as int) =~= v@.subrange(d + 1, b as int));
                r
            } else {
                String::new()
            }
        },
        None => String::new(),
    }
}

/// The '.'-prefixed extension of the file named by the path `name`, or the
/// empty string when it has none.
pub fn stored_suffix_of(name: &str) -> (r: String)
    ensures
        r@ == stored_suffix(name@),
{
    let v = chars_of(name);
    proof {
        lemma_file_name_range_inside(v@, v@.len() as int);
    }
    match file_name_range_in(&v, v.len()) {
        None => String::new(),
        Some((a, b)) => suffix_of_name(&v, a, b),
    }
}

/// A lower-case hexadecimal digit.
pub open spec fn is_lower_hex(c: char) -> bool {
    ('0' <= c && c <= '9') || ('a' <= c && c <= 'f')
}

/// The hyphenated lower-case text of a version-4 UUID: 36 characters, groups
/// of 8, 4, 4, 4 and 12 hex digits joined by '-', the version digit '4'
/// opening the third group and one of '8', '9', 'a', 'b' (the RFC variant)
/// opening the fourth.
pub open spec fn is_v4_uuid_text(s: Seq<char>) -> bool {
    &&& s.len() == 36
    &&& forall|i: int|
        0 <= i < 36 ==> if i == 8 || i == 13 || i == 18 || i == 23 {
            #[trigger] s[i] == '-'
        } else {
            is_lower_hex(s[i])
        }
    &&& s[14] == '4'
    &&& (s[19] == '8' || s[19] == '9' || s[19] == 'a' || s[19] == 'b')
}

/// Calls `uuid::Uuid::new_v4()` and renders it as text. `new_v4` sets the
/// version nibble to 4 and the variant bits to `10`, and its `Display` form
/// is the hyphenated lower-case one; which identifier comes back is left to
/// chance.
#[verifier::external_body]
fn new_uuid_text() -> (r: String)
    ensures
        is_v4_uuid_text(r@),
{
    uuid::Uuid::new_v4().to_string()
}

/// A fresh name to store an upload under: a random version-4 UUID, in its
/// hyphenated text, followed by the extension of the original name.
pub fn new_stored_name(original_name: &str) -> (r: String)
    ensures
        r@.len() >= 36,
        is_v4_uuid_text(r@.subrange(0, 36)),
        r@.subrange(36, r@.len() as int) == stored_suffix(original_name@),
{
    let mut id = new_uuid_text();
    let ghost uuid = id@;
    let suffix = stored_suffix_of(original_name);
    push_str(&mut id, suffix.as_str());
    assert(id@.subrange(0, 36) =~= uuid);
    assert(id@.subrange(36, id@.len() as int) =~= suffix@);
    id
}

} // verus!
