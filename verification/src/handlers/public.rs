//! Decisions of the public preview and download routes.
use crate::error::{AppError, ErrorView};
use crate::models::FileRow;
use crate::text::{char_from_ascii, chars_of, push_char, push_str, string_of};
use vstd::prelude::*;

verus! {

broadcast use vstd::seq_lib::group_seq_properties;

/// The file a link names, or `NotFound` when no file has that link.
pub fn file_or_not_found(row: Option<FileRow>) -> (r: Result<FileRow, AppError>)
    ensures
        match row {
            Some(f) => r == Ok::<FileRow, AppError>(f),
            None => r matches Err(e) && e@ == ErrorView::NotFound,
        },
{
    match row {
        Some(f) => Ok(f),
        None => Err(AppError::NotFound),
    }
}

/// The viewer owns the file.
pub open spec fn is_owner_of(viewer: Option<i64>, owner: i64) -> bool {
    viewer == Some(owner)
}

/// Who may see a file's public page and download it: everyone while it is
/// shared, its owner always.
pub open spec fn may_view(file: FileRow, viewer: Option<i64>) -> bool {
    file.is_shared || is_owner_of(viewer, file.user_id)
}

/// Once a file stops being shared, only its owner can see its page or
/// download it; anyone can while it is shared.
pub proof fn law_unshared_files_are_private(file: FileRow, viewer: Option<i64>)
    ensures
        !file.is_shared ==> (may_view(file, viewer) <==> viewer == Some(file.user_id)),
        file.is_shared ==> may_view(file, viewer),
{
}

/// Whether the viewer (given by their account id, when logged in) may see
/// the public page of `file`; the answer is whether they own it.
/// A file that is not shared is seen by its owner only.
pub fn check_public_access(file: &FileRow, viewer: Option<i64>) -> (r: Result<bool, AppError>)
    ensures
        match r {
            Ok(owner) => owner == is_owner_of(viewer, file.user_id) && may_view(*file, viewer),
            Err(e) => e@ == ErrorView::Forbidden && !may_view(*file, viewer),
        },
{
    let is_owner = match viewer {
        Some(id) => id == file.user_id,
        None => false,
    };
    if !file.is_shared && !is_owner {
        return Err(AppError::Forbidden);
    }
    Ok(is_owner)
}

/// A visit is recorded for every viewer but the owner.
pub fn records_visit(is_owner: bool) -> (r: bool)
    ensures
        r == !is_owner,
{
    !is_owner
}

/// The first `n` characters of `s` (all of it when it is shorter).
pub fn truncate_chars(s: &str, n: usize) -> (r: String)
    ensures
        r@ == s@.take(if n < s@.len() { n as int } else { s@.len() as int }),
{
    let v = chars_of(s);
    let end = if n < v.len() { n } else { v.len() };
    let r = string_of(&v, 0, end);
    assert(v@.subrange(0, end as int) =~= s@.take(end as int));
    r
}

/// How much of a browser's `User-Agent` is kept with a visit.
pub fn visit_user_agent(user_agent: Option<&str>) -> (r: Option<String>)
    ensures
        match user_agent {
            Some(ua) => r matches Some(t) && t@ == ua@.take(
                if 300 < ua@.len() { 300 } else { ua@.len() as int },
            ),
            None => r is None,
        },
{
    match user_agent {
        Some(ua) => Some(truncate_chars(ua, 300)),
        None => None,
    }
}

/// The address the raw bytes of a file are served from.
pub fn raw_url(slug: &str) -> (r: String)
    ensures
        r@ == "/raw/"@ + slug@,
{
    let mut r = "/raw/".to_owned();
    push_str(&mut r, slug);
    r
}

/// How the download route answers.
pub enum RawAccess {
    /// No file has the link: 404 "Not Found".
    Missing,
    /// The file is not shared and the viewer is not its owner: 403.
    Closed,
    /// Serve the file.
    Serve(FileRow),
}

/// The download route's decision for the file a link names and the viewer.
pub fn raw_access(row: Option<FileRow>, viewer: Option<i64>) -> (r: RawAccess)
    ensures
        match row {
            None => r is Missing,
            Some(f) => if may_view(f, viewer) {
                r == RawAccess::Serve(f)
            } else {
                r is Closed
            },
        },
{
    match row {
        None => RawAccess::Missing,
        Some(f) => {
            match check_public_access(&f, viewer) {
                Ok(_) => RawAccess::Serve(f),
                Err(_) => RawAccess::Closed,
            }
        },
    }
}

// ---------------------------------------------------------------------------
// Percent-encoding of file names
// ---------------------------------------------------------------------------

/// The upper-case hexadecimal digit for `d < 16`.
pub open spec fn hex_upper(d: nat) -> char {
    if d < 10 {
        (('0' as u32) + d) as char
    } else {
        (('A' as u32) + (d - 10)) as char
    }
}

/// Bytes that are kept as they are: the ASCII letters, digits and `- _ . ~`.
pub open spec fn is_unreserved(b: u8) -> bool {
    (65 <= b && b <= 90) || (97 <= b && b <= 122) || (48 <= b && b <= 57) || b == 45
        || b == 95 || b == 46 || b == 126
}

/// One byte, percent-encoded when it is not unreserved.
pub open spec fn encode_byte(b: u8) -> Seq<char> {
    if is_unreserved(b) {
        seq![b as char]
    } else {
        seq!['%', hex_upper((b / 16) as nat), hex_upper((b % 16) as nat)]
    }
}

/// The percent-encoding of a byte string.
pub open spec fn url_encoded(bytes: Seq<u8>) -> Seq<char> {
    bytes.flat_map(|b: u8| encode_byte(b))
}

fn hex_digit(d: u8) -> (c: char)
    requires
        d < 16,
    ensures
        c == hex_upper(d as nat),
{
    if d < 10 {
        char_from_ascii(48 + d as u32)
    } else {
        char_from_ascii(65 + (d - 10) as u32)
    }
}

/// The characters a percent-encoded name is made of.
pub open spec fn is_encoded_char(c: char) -> bool {
    ('A' <= c && c <= 'Z') || ('a' <= c && c <= 'z') || ('0' <= c && c <= '9') || c == '-' || c
        == '_' || c == '.' || c == '~' || c == '%'
}

proof fn lemma_encode_byte_chars(b: u8)
    ensures
        forall|i: int| 0 <= i < encode_byte(b).len() ==> is_encoded_char(#[trigger] encode_byte(b)[i]),
{
    let hi = (b / 16) as nat;
    let lo = (b % 16) as nat;
    assert(is_encoded_char(hex_upper(hi)));
    assert(is_encoded_char(hex_upper(lo)));
    if is_unreserved(b) {
        assert(((b as u32) as char) == b as char);
        assert((b as char) as u32 == b as u32);
    }
}

/// A percent-encoded name is plain ASCII made of letters, digits, `- _ . ~`
/// and `%`, so it can stand in a header as it is.
pub proof fn law_url_encoded_is_plain(bytes: Seq<u8>)
    ensures
        forall|i: int| 0 <= i < url_encoded(bytes).len() ==> is_encoded_char(
            #[trigger] url_encoded(bytes)[i],
        ),
    decreases bytes.len(),
{
    if bytes.len() > 0 {
        let t = bytes.drop_last();
        law_url_encoded_is_plain(t);
        bytes.lemma_flat_map_take_append(|b: u8| encode_byte(b), t.len() as int);
        assert(bytes.take(t.len() as int) =~= t);
        assert(bytes.take(bytes.len() as int) =~= bytes);
        lemma_encode_byte_chars(bytes.last());
        let e = url_encoded(bytes);
        assert forall|i: int| 0 <= i < e.len() implies is_encoded_char(#[trigger] e[i]) by {
            if i < url_encoded(t).len() {
                assert(e[i] == url_encoded(t)[i]);
            } else {
                assert(e[i] == encode_byte(bytes.last())[i - url_encoded(t).len()]);
            }
        }
    } else {
        assert(url_encoded(bytes) =~= Seq::<char>::empty());
    }
}

/// Percent-encodes the UTF-8 bytes of `s`, keeping `A-Z a-z 0-9 - _ . ~`.
pub fn urlencode(s: &str) -> (r: String)
    ensures
        r@ == url_encoded(vstd::utf8::encode_utf8(s@)),
{
    let bytes = s.as_bytes();
    let mut out = String::new();
    let mut i: usize = 0;
    while i < bytes.len()
        invariant
            bytes@ == vstd::utf8::encode_utf8(s@),
            0 <= i <= bytes@.len(),
            out@ == url_encoded(bytes@.take(i as int)),
        decreases bytes@.len() - i,
    {
        let b = bytes[i];
        if (65 <= b && b <= 90) || (97 <= b && b <= 122) || (48 <= b && b <= 57) || b
            == 45 || b == 95 || b == 46 || b == 126 {
            let c = char_from_ascii(b as u32);
            push_char(&mut out, c);
        } else {
            push_char(&mut out, '%');
            push_char(&mut out, hex_digit(b / 16));
            push_char(&mut out, hex_digit(b % 16));
        }
        proof {
            bytes@.lemma_flat_map_take_append(|b: u8| encode_byte(b), i as int);
        }
        i = i + 1;
    }
    assert(bytes@.take(bytes@.len() as int) =~= bytes@);
    out
}

/// The `Content-Disposition` of a served file: shown inline, under its
/// original name, percent-encoded as UTF-8.
pub fn content_disposition(original_name: &str) -> (r: String)
    ensures
        r@ == "inline; filename*=UTF-8''"@ + url_encoded(vstd::utf8::encode_utf8(original_name@)),
{
    let mut r = "inline; filename*=UTF-8''".to_owned();
    let e = urlencode(original_name);
    push_str(&mut r, e.as_str());
    r
}

} // verus!
