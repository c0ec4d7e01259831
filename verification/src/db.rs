//! Where the database lives.
use crate::text::{chars_of, seq_starts_with, starts_with, string_of};
use vstd::prelude::*;

verus! {

/// `s` with every leading repetition of the non-empty `p` removed
/// (`str::trim_start_matches`).
pub open spec fn strip_prefixes(s: Seq<char>, p: Seq<char>) -> Seq<char>
    decreases s.len(),
{
    if p.len() > 0 && starts_with(s, p) {
        strip_prefixes(s.subrange(p.len() as int, s.len() as int), p)
    } else {
        s
    }
}

/// `v[from..]` with every leading repetition of `p` removed, as a position.
fn strip_prefixes_from(v: &Vec<char>, from: usize, p: &str) -> (r: usize)
    requires
        from <= v@.len(),
        p@.len() > 0,
    ensures
        from <= r <= v@.len(),
        v@.subrange(r as int, v@.len() as int) == strip_prefixes(
            v@.subrange(from as int, v@.len() as int),
            p@,
        ),
    decreases v@.len() - from,
{
    let rest = string_of(v, from, v.len());
    let rv = chars_of(rest.as_str());
    if seq_starts_with(&rv, p) {
        let n = p.unicode_len();
        let r = strip_prefixes_from(v, from + n, p);
        assert(v@.subrange(from as int, v@.len() as int).subrange(n as int, v@.len() - from)
            =~= v@.subrange(from + n, v@.len() as int));
        r
    } else {
        from
    }
}

/// The file of an SQLite database URL: without the leading `sqlite://`s,
/// then without the leading `sqlite:`s.
pub open spec fn database_file(url: Seq<char>) -> Seq<char> {
    strip_prefixes(strip_prefixes(url, "sqlite://"@), "sqlite:"@)
}

/// The file path of an SQLite database URL, whose parent directory is
/// created before the database is opened.
pub fn database_path(url: &str) -> (r: String)
    ensures
        r@ == database_file(url@),
{
    let v = chars_of(url);
    proof {
        reveal_strlit("sqlite://");
        reveal_strlit("sqlite:");
    }
    assert(v@.subrange(0, v@.len() as int) =~= v@);
    let a = strip_prefixes_from(&v, 0, "sqlite://");
    let b = strip_prefixes_from(&v, a, "sqlite:");
    string_of(&v, b, v.len())
}

} // verus!
