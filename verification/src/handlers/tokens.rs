//! Decisions about personal API tokens.
use crate::error::{AppError, ErrorView};
use crate::text::{byte_len, push_char, trim, trim_seq};
use vstd::prelude::*;

verus! {

/// Why a token name is refused, if it is: the trimmed name must be 1 to 50
/// bytes long.
pub open spec fn token_name_error(name: Seq<char>) -> Option<ErrorView> {
    let n = trim_seq(name);
    if n.len() == 0 || vstd::utf8::encode_utf8(n).len() > 50 {
        Some(ErrorView::BadRequest("令牌名称需在 1-50 个字符之间"@))
    } else {
        None
    }
}

/// A token name is accepted exactly when, trimmed, it is 1 to 50 bytes long.
pub proof fn law_token_name_length(name: Seq<char>)
    ensures
        (token_name_error(name) is None) <==> (trim_seq(name).len() > 0
            && vstd::utf8::encode_utf8(trim_seq(name)).len() <= 50),
{
}

/// The name a new token is stored under: the trimmed name, when valid.
pub fn token_name(name: &str) -> (r: Result<String, AppError>)
    ensures
        match r {
            Ok(n) => n@ == trim_seq(name@) && token_name_error(name@) is None,
            Err(e) => token_name_error(name@) == Some(e@),
        },
{
    let n = trim(name);
    if n.as_str().is_empty() || byte_len(n.as_str()) > 50 {
        return Err(AppError::bad("令牌名称需在 1-50 个字符之间"));
    }
    Ok(n)
}

proof fn lemma_encode_utf8_concat(a: Seq<char>, b: Seq<char>)
    ensures
        vstd::utf8::encode_utf8(a + b) == vstd::utf8::encode_utf8(a) + vstd::utf8::encode_utf8(b),
    decreases a.len(),
{
    if a.len() == 0 {
        assert(a + b =~= b);
        assert(vstd::utf8::encode_utf8(a) =~= Seq::<u8>::empty());
        assert(Seq::<u8>::empty() + vstd::utf8::encode_utf8(b) =~= vstd::utf8::encode_utf8(b));
    } else {
        assert((a + b).drop_first() =~= a.drop_first() + b);
        assert((a + b)[0] == a[0]);
        lemma_encode_utf8_concat(a.drop_first(), b);
        assert(vstd::utf8::encode_scalar(a[0] as u32) + (vstd::utf8::encode_utf8(a.drop_first())
            + vstd::utf8::encode_utf8(b)) =~= (vstd::utf8::encode_scalar(a[0] as u32)
            + vstd::utf8::encode_utf8(a.drop_first())) + vstd::utf8::encode_utf8(b));
    }
}

/// How a token is shown after it is created: its first 12 bytes and '…'.
pub fn token_display_prefix(token: &str) -> (r: String)
    requires
        vstd::utf8::is_char_boundary(vstd::utf8::encode_utf8(token@), 12),
        vstd::utf8::encode_utf8(token@).len() >= 12,
    ensures
        vstd::utf8::encode_utf8(r@) == vstd::utf8::encode_utf8(token@).subrange(0, 12)
            + vstd::utf8::encode_utf8(seq!['…']),
{
    let (head, _) = token.split_at(12);
    let mut r = head.to_owned();
    let ghost h = r@;
    push_char(&mut r, '…');
    proof {
        lemma_encode_utf8_concat(h, seq!['…']);
        assert(r@ =~= h + seq!['…']);
    }
    r
}

} // verus!
