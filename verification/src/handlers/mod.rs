//! The decisions the HTTP handlers make, apart from the database and the
//! network.
pub mod auth;
pub mod files;
pub mod public;
pub mod tokens;
pub mod users;

use crate::error::{AppError, ErrorView};
use crate::text::{
    byte_len, char_is_ascii_alnum, chars_of, first_index_in, first_index_of, is_ascii_alnum,
    owned, string_of, trim, trim_seq,
};
use vstd::prelude::*;

verus! {

// ---------------------------------------------------------------------------
// Client address
// ---------------------------------------------------------------------------

/// The text of `s` before its first ','.
pub open spec fn first_field(s: Seq<char>) -> Seq<char> {
    s.subrange(0, first_index_of(s, ','))
}

/// The address a request is recorded under: the first entry of
/// `X-Forwarded-For`, then `X-Real-IP`, both trimmed and only when not
/// empty; else the address of the peer, or "unknown".
pub open spec fn client_ip_of(
    forwarded_for: Option<Seq<char>>,
    real_ip: Option<Seq<char>>,
    peer: Option<Seq<char>>,
) -> Seq<char> {
    if forwarded_for is Some && trim_seq(first_field(forwarded_for->0)).len() > 0 {
        trim_seq(first_field(forwarded_for->0))
    } else if real_ip is Some && trim_seq(real_ip->0).len() > 0 {
        trim_seq(real_ip->0)
    } else {
        match peer {
            Some(p) => p,
            None => "unknown"@,
        }
    }
}

proof fn lemma_first_comma(a: Seq<char>, b: Seq<char>)
    requires
        !a.contains(','),
    ensures
        first_index_of(a, ',') == a.len(),
        first_index_of(a + seq![','] + b, ',') == a.len(),
    decreases a.len(),
{
    if a.len() > 0 {
        assert(!a.drop_first().contains(',')) by {
            if a.drop_first().contains(',') {
                let k = choose|k: int| 0 <= k < a.drop_first().len() && a.drop_first()[k] == ',';
                assert(a[k + 1] == ',');
            }
        }
        lemma_first_comma(a.drop_first(), b);
        assert(a[0] != ',') by {
            if a[0] == ',' {
                assert(a.contains(','));
            }
        }
        assert((a + seq![','] + b).drop_first() =~= a.drop_first() + seq![','] + b);
    } else {
        assert((a + seq![','] + b)[0] == ',');
    }
}

/// The first entry of a list is all of it when it has no ',', and what
/// comes before the first ',' when it has one.
pub proof fn law_first_field(a: Seq<char>, b: Seq<char>)
    requires
        !a.contains(','),
    ensures
        first_field(a) == a,
        first_field(a + seq![','] + b) == a,
{
    lemma_first_comma(a, b);
    assert(a.subrange(0, a.len() as int) =~= a);
    assert((a + seq![','] + b).subrange(0, a.len() as int) =~= a);
}

/// The first entry of `X-Forwarded-For`, trimmed, is the address whenever
/// it is not blank. Without one, a non-blank `X-Real-IP`, trimmed, is the
/// address. Without either, the peer's address is, or "unknown" when there
/// is no peer.
pub proof fn law_client_address(
    forwarded_for: Option<Seq<char>>,
    real_ip: Option<Seq<char>>,
    peer: Option<Seq<char>>,
)
    ensures
        forwarded_for is Some && trim_seq(first_field(forwarded_for->0)).len() > 0 ==> client_ip_of(
            forwarded_for,
            real_ip,
            peer,
        ) == trim_seq(first_field(forwarded_for->0)),
        (forwarded_for is None || trim_seq(first_field(forwarded_for->0)).len() == 0) && (
        real_ip is Some && trim_seq(real_ip->0).len() > 0) ==> client_ip_of(
            forwarded_for,
            real_ip,
            peer,
        ) == trim_seq(real_ip->0),
        (forwarded_for is None || trim_seq(first_field(forwarded_for->0)).len() == 0) && (
        real_ip is None || trim_seq(real_ip->0).len() == 0) ==> client_ip_of(
            forwarded_for,
            real_ip,
            peer,
        ) == match peer {
            Some(p) => p,
            None => "unknown"@,
        },
{
}

pub open spec fn opt_view(o: Option<&str>) -> Option<Seq<char>> {
    match o {
        Some(s) => Some(s@),
        None => None,
    }
}

/// The best-effort client address from the proxy headers (their values when
/// they are present and readable as text) or the peer's address.
pub fn client_ip(forwarded_for: Option<&str>, real_ip: Option<&str>, peer: Option<&str>) -> (r:
    String)
    ensures
        r@ == client_ip_of(opt_view(forwarded_for), opt_view(real_ip), opt_view(peer)),
{
    if let Some(xff) = forwarded_for {
        let v = chars_of(xff);
        let k = first_index_in(&v, ',');
        let first = string_of(&v, 0, k);
        let ip = trim(first.as_str());
        if !ip.as_str().is_empty() {
            return ip;
        }
    }
    if let Some(given) = real_ip {
        let t = trim(given);
        if !t.as_str().is_empty() {
            return t;
        }
    }
    match peer {
        Some(p) => owned(p),
        None => owned("unknown"),
    }
}

// ---------------------------------------------------------------------------
// Account names and passwords
// ---------------------------------------------------------------------------

pub open spec fn username_char(c: char) -> bool {
    is_ascii_alnum(c) || c == '_' || c == '-'
}

/// Why a user name is refused, if it is: the trimmed name must be 3 to 32
/// bytes of letters, digits, '_' and '-'.
pub open spec fn username_error(name: Seq<char>) -> Option<ErrorView> {
    let n = trim_seq(name);
    if vstd::utf8::encode_utf8(n).len() < 3 || vstd::utf8::encode_utf8(n).len() > 32 {
        Some(ErrorView::BadRequest("用户名长度需在 3-32 之间"@))
    } else if !(forall|i: int| 0 <= i < n.len() ==> username_char(#[trigger] n[i])) {
        Some(ErrorView::BadRequest("用户名只能包含字母、数字、'_' 和 '-'"@))
    } else {
        None
    }
}

/// A user name whose trimmed form holds any character other than an ASCII
/// letter, an ASCII digit, '_' or '-' is refused, whatever its length; when
/// its length is in bounds, for exactly that reason.
pub proof fn law_username_foreign_char_refused(name: Seq<char>, i: int)
    requires
        0 <= i < trim_seq(name).len(),
        !(('0' <= trim_seq(name)[i] && trim_seq(name)[i] <= '9') || ('a' <= trim_seq(name)[i]
            && trim_seq(name)[i] <= 'z') || ('A' <= trim_seq(name)[i] && trim_seq(name)[i] <= 'Z')
            || trim_seq(name)[i] == '_' || trim_seq(name)[i] == '-'),
    ensures
        username_error(name) is Some,
        3 <= vstd::utf8::encode_utf8(trim_seq(name)).len() <= 32 ==> username_error(name) == Some(
            ErrorView::BadRequest("用户名只能包含字母、数字、'_' 和 '-'"@),
        ),
{
    assert(!username_char(trim_seq(name)[i]));
}

/// A user name whose trimmed form is 3 to 32 bytes, each an ASCII letter,
/// an ASCII digit, '_' or '-', is accepted.
pub proof fn law_username_accepted(name: Seq<char>)
    requires
        3 <= vstd::utf8::encode_utf8(trim_seq(name)).len() <= 32,
        forall|i: int|
            0 <= i < trim_seq(name).len() ==> ('0' <= #[trigger] trim_seq(name)[i]
                && trim_seq(name)[i] <= '9') || ('a' <= trim_seq(name)[i] && trim_seq(name)[i]
                <= 'z') || ('A' <= trim_seq(name)[i] && trim_seq(name)[i] <= 'Z') || trim_seq(
                name,
            )[i] == '_' || trim_seq(name)[i] == '-',
    ensures
        username_error(name) is None,
{
    let n = trim_seq(name);
    assert forall|i: int| 0 <= i < n.len() implies username_char(#[trigger] n[i]) by {
        assert(('0' <= n[i] && n[i] <= '9') || ('a' <= n[i] && n[i] <= 'z') || ('A' <= n[i] && n[i]
            <= 'Z') || n[i] == '_' || n[i] == '-');
    }
}

/// A user name whose trimmed form is under 3 or over 32 bytes is refused
/// for its length, whatever it holds.
pub proof fn law_username_length_refused(name: Seq<char>)
    requires
        vstd::utf8::encode_utf8(trim_seq(name)).len() < 3 || vstd::utf8::encode_utf8(
            trim_seq(name),
        ).len() > 32,
    ensures
        username_error(name) == Some(ErrorView::BadRequest("用户名长度需在 3-32 之间"@)),
{
}

/// A password is accepted exactly when it is at least 6 bytes long.
pub proof fn law_password_length(pw: Seq<char>)
    ensures
        (password_error(pw) is None) <==> vstd::utf8::encode_utf8(pw).len() >= 6,
        vstd::utf8::encode_utf8(pw).len() < 6 ==> password_error(pw) == Some(
            ErrorView::BadRequest("密码长度至少 6 位"@),
        ),
{
}

/// Checks a user name (after trimming it).
pub fn validate_username(name: &str) -> (r: Result<(), AppError>)
    ensures
        match r {
            Ok(()) => username_error(name@) is None,
            Err(e) => username_error(name@) == Some(e@),
        },
{
    let n = trim(name);
    let len = byte_len(n.as_str());
    if len < 3 || len > 32 {
        return Err(AppError::bad("用户名长度需在 3-32 之间"));
    }
    let v = chars_of(n.as_str());
    let mut i: usize = 0;
    while i < v.len()
        invariant
            v@ == n@,
            n@ == trim_seq(name@),
            3 <= vstd::utf8::encode_utf8(n@).len() <= 32,
            0 <= i <= v@.len(),
            forall|j: int| 0 <= j < i ==> username_char(#[trigger] v@[j]),
        decreases v@.len() - i,
    {
        let c = v[i];
        if !(char_is_ascii_alnum(c) || c == '_' || c == '-') {
            assert(!username_char(trim_seq(name@)[i as int]));
            return Err(AppError::bad("用户名只能包含字母、数字、'_' 和 '-'"));
        }
        i = i + 1;
    }
    Ok(())
}

/// Why a password is refused, if it is: it must be at least 6 bytes long.
pub open spec fn password_error(pw: Seq<char>) -> Option<ErrorView> {
    if vstd::utf8::encode_utf8(pw).len() < 6 {
        Some(ErrorView::BadRequest("密码长度至少 6 位"@))
    } else {
        None
    }
}

/// Checks a new password.
pub fn validate_password(pw: &str) -> (r: Result<(), AppError>)
    ensures
        match r {
            Ok(()) => password_error(pw@) is None,
            Err(e) => password_error(pw@) == Some(e@),
        },
{
    if byte_len(pw) < 6 {
        return Err(AppError::bad("密码长度至少 6 位"));
    }
    Ok(())
}

} // verus!
