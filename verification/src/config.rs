//! The service's settings, read from its environment.
use crate::text::{chars_of, decimal, digit_char, is_ascii_digit, owned, push_str, str_equals};
use vstd::prelude::*;

verus! {

/// The settings of a running service.
#[derive(Clone)]
pub struct Config {
    pub bind_addr: String,
    pub database_url: String,
    pub upload_dir: String,
    pub jwt_secret: String,
    pub admin_username: String,
    pub admin_password: String,
    pub max_upload_mb: usize,
    pub static_dir: String,
}

/// The value of the first variable named `key`, if any.
pub open spec fn env_lookup(vars: Seq<(String, String)>, key: Seq<char>) -> Option<Seq<char>>
    decreases vars.len(),
{
    if vars.len() == 0 {
        None
    } else if vars[0].0@ == key {
        Some(vars[0].1@)
    } else {
        env_lookup(vars.drop_first(), key)
    }
}

/// The value of the variable `key`, or `default` when it is not set.
pub open spec fn env_or(vars: Seq<(String, String)>, key: Seq<char>, default: Seq<char>) -> Seq<
    char,
> {
    match env_lookup(vars, key) {
        Some(v) => v,
        None => default,
    }
}

/// The value of the variable `key`, or `default` when it is not set.
pub fn var_or(vars: &Vec<(String, String)>, key: &str, default: &str) -> (r: String)
    ensures
        r@ == env_or(vars@, key@, default@),
{
    let mut i: usize = 0;
    assert(vars@.skip(0) =~= vars@);
    while i < vars.len()
        invariant
            0 <= i <= vars@.len(),
            env_lookup(vars@, key@) == env_lookup(vars@.skip(i as int), key@),
        decreases vars@.len() - i,
    {
        if str_equals(vars[i].0.as_str(), key) {
            return vars[i].1.clone();
        }
        assert(vars@.skip(i as int).drop_first() =~= vars@.skip(i + 1));
        i = i + 1;
    }
    owned(default)
}

// ---------------------------------------------------------------------------
// Numbers
// ---------------------------------------------------------------------------

/// The number a string of decimal digits stands for.
pub open spec fn digits_value(s: Seq<char>) -> nat
    decreases s.len(),
{
    if s.len() == 0 {
        0
    } else {
        digits_value(s.drop_last()) * 10 + ((s.last() as u32) - ('0' as u32)) as nat
    }
}

pub open spec fn all_digits(s: Seq<char>) -> bool {
    forall|i: int| 0 <= i < s.len() ==> is_ascii_digit(#[trigger] s[i])
}

/// The text after an optional leading '+'.
pub open spec fn unsigned_digits(s: Seq<char>) -> Seq<char> {
    if s.len() > 0 && s[0] == '+' {
        s.drop_first()
    } else {
        s
    }
}

/// The number `usize::from_str` reads from `s`: decimal digits after an
/// optional '+', at least one, no more than fit in a `usize`.
pub open spec fn parsed_usize(s: Seq<char>) -> Option<usize> {
    let d = unsigned_digits(s);
    if d.len() == 0 || !all_digits(d) || digits_value(d) > usize::MAX {
        None
    } else {
        Some(digits_value(d) as usize)
    }
}

proof fn lemma_digits_value_grows(s: Seq<char>, k: int)
    requires
        0 <= k <= s.len(),
        all_digits(s),
    ensures
        digits_value(s.take(k)) <= digits_value(s),
    decreases s.len() - k,
{
    if k < s.len() {
        let t = s.drop_last();
        assert(t.take(k) =~= s.take(k));
        assert forall|i: int| 0 <= i < t.len() implies is_ascii_digit(#[trigger] t[i]) by {
            assert(t[i] == s[i]);
        }
        lemma_digits_value_grows(t, k);
        assert(is_ascii_digit(s[s.len() - 1]));
    } else {
        assert(s.take(k) =~= s);
    }
}

proof fn lemma_decimal_digits(n: nat)
    ensures
        decimal(n).len() > 0,
        all_digits(decimal(n)),
        digits_value(decimal(n)) == n,
    decreases n,
{
    let d = decimal(n);
    if n < 10 {
        assert(d.drop_last() =~= Seq::<char>::empty());
        assert(d.last() == digit_char(n));
        assert((digit_char(n) as u32) == 48 + n);
        assert(('0' as u32) == 48);
        assert(digits_value(d) == digits_value(d.drop_last()) * 10 + ((d.last() as u32) - ('0' as u32)) as nat);
        assert(digits_value(d.drop_last()) == 0);
    } else {
        lemma_decimal_digits(n / 10);
        assert(d.drop_last() =~= decimal(n / 10));
        assert(d.last() == digit_char(n % 10));
        assert((digit_char(n % 10) as u32) == 48 + n % 10);
        assert(('0' as u32) == 48);
        assert forall|i: int| 0 <= i < d.len() implies is_ascii_digit(#[trigger] d[i]) by {
            if i < d.len() - 1 {
                assert(d[i] == decimal(n / 10)[i]);
            }
        }
    }
}

/// Reading back the decimal form of a number gives the number.
pub proof fn law_parse_decimal(n: usize)
    ensures
        parsed_usize(decimal(n as nat)) == Some(n),
{
    lemma_decimal_digits(n as nat);
    let d = decimal(n as nat);
    assert(is_ascii_digit(d[0]));
    assert(unsigned_digits(d) == d);
}

/// Reads an unsigned number as `usize::from_str` does.
pub fn parse_usize(s: &str) -> (r: Option<usize>)
    ensures
        r == parsed_usize(s@),
{
    let v = chars_of(s);
    let start: usize = if v.len() > 0 && v[0] == '+' { 1 } else { 0 };
    let ghost d = v@.subrange(start as int, v@.len() as int);
    assert(d =~= unsigned_digits(s@));
    if start == v.len() {
        return None;
    }
    let mut i: usize = start;
    while i < v.len()
        invariant
            d == v@.subrange(start as int, v@.len() as int),
            d == unsigned_digits(s@),
            start <= i <= v@.len(),
            forall|j: int| start <= j < i ==> is_ascii_digit(#[trigger] v@[j]),
        decreases v@.len() - i,
    {
        if !('0' <= v[i] && v[i] <= '9') {
            assert(!is_ascii_digit(d[i - start]));
            assert(!all_digits(d));
            return None;
        }
        i = i + 1;
    }
    assert(all_digits(d)) by {
        assert forall|j: int| 0 <= j < d.len() implies is_ascii_digit(#[trigger] d[j]) by {
            assert(d[j] == v@[j + start]);
        }
    }
    let mut value: usize = 0;
    let mut k: usize = start;
    while k < v.len()
        invariant
            d == v@.subrange(start as int, v@.len() as int),
            d == unsigned_digits(s@),
            all_digits(d),
            start <= k <= v@.len(),
            value as nat == digits_value(d.take(k - start)),
        decreases v@.len() - k,
    {
        assert(is_ascii_digit(d[k - start]));
        assert(d[k - start] == v@[k as int]);
        let dig: usize = ((v[k] as u32) - 48) as usize;
        assert(d.take(k - start + 1).drop_last() =~= d.take(k - start));
        if value > (usize::MAX - dig) / 10 {
            proof {
                assert(value * 10 + dig > usize::MAX) by (nonlinear_arith)
                    requires
                        value > (usize::MAX - dig) / 10,
                        dig <= 9,
                ;
                let t = d.take(k - start + 1);
                assert(t.last() == d[k - start]);
                assert(digits_value(t) == value * 10 + dig);
                lemma_digits_value_grows(d, k - start + 1);
                assert(digits_value(d) > usize::MAX);
            }
            return None;
        }
        value = value * 10 + dig;
        k = k + 1;
    }
    assert(d.take(d.len() as int) =~= d);
    Some(value)
}

// ---------------------------------------------------------------------------
// Settings
// ---------------------------------------------------------------------------

/// `a` followed by `b`.
fn joined(a: &str, b: &str) -> (r: String)
    ensures
        r@ == a@ + b@,
{
    let mut r = owned(a);
    push_str(&mut r, b);
    r
}

impl Config {
    /// The settings named by the environment `vars` (name and value of each
    /// variable, in the environment's order), with the defaults:
    /// `BIND_ADDR` 0.0.0.0:8080, `DATA_DIR` ./data, `DATABASE_URL`
    /// sqlite://{DATA_DIR}/app.db, `UPLOAD_DIR` {DATA_DIR}/uploads,
    /// `JWT_SECRET`, `ADMIN_USERNAME` admin, `ADMIN_PASSWORD` admin123,
    /// `MAX_UPLOAD_MB` 100 (also when it is not a number), `STATIC_DIR` ./static.
    pub fn from_env(vars: &Vec<(String, String)>) -> (c: Config)
        ensures
            c.bind_addr@ == env_or(vars@, "BIND_ADDR"@, "0.0.0.0:8080"@),
            c.database_url@ == env_or(
                vars@,
                "DATABASE_URL"@,
                "sqlite://"@ + env_or(vars@, "DATA_DIR"@, "./data"@) + "/app.db"@,
            ),
            c.upload_dir@ == env_or(
                vars@,
                "UPLOAD_DIR"@,
                env_or(vars@, "DATA_DIR"@, "./data"@) + "/uploads"@,
            ),
            c.jwt_secret@ == env_or(vars@, "JWT_SECRET"@, "change-me-in-production-please"@),
            c.admin_username@ == env_or(vars@, "ADMIN_USERNAME"@, "admin"@),
            c.admin_password@ == env_or(vars@, "ADMIN_PASSWORD"@, "admin123"@),
            c.max_upload_mb == match parsed_usize(env_or(vars@, "MAX_UPLOAD_MB"@, "100"@)) {
                Some(n) => n,
                None => 100,
            },
            c.static_dir@ == env_or(vars@, "STATIC_DIR"@, "./static"@),
    {
        let data_dir = var_or(vars, "DATA_DIR", "./data");
        let db_default = {
            let mut d = owned("sqlite://");
            push_str(&mut d, data_dir.as_str());
            push_str(&mut d, "/app.db");
            d
        };
        let upload_default = joined(data_dir.as_str(), "/uploads");
        let max_text = var_or(vars, "MAX_UPLOAD_MB", "100");
        let max_upload_mb = match parse_usize(max_text.as_str()) {
            Some(n) => n,
            None => 100,
        };
        Config {
            bind_addr: var_or(vars, "BIND_ADDR", "0.0.0.0:8080"),
            database_url: var_or(vars, "DATABASE_URL", db_default.as_str()),
            upload_dir: var_or(vars, "UPLOAD_DIR", upload_default.as_str()),
            jwt_secret: var_or(vars, "JWT_SECRET", "change-me-in-production-please"),
            admin_username: var_or(vars, "ADMIN_USERNAME", "admin"),
            admin_password: var_or(vars, "ADMIN_PASSWORD", "admin123"),
            max_upload_mb,
            static_dir: var_or(vars, "STATIC_DIR", "./static"),
        }
    }
}

/// Whether the request body limit fits in a `usize`.
pub fn request_body_limit_fits(max_upload_mb: usize) -> (r: bool)
    ensures
        r == (max_upload_mb * 1048576 + 1048576 <= usize::MAX),
{
    match max_upload_mb.checked_mul(1048576) {
        Some(b) => match b.checked_add(1048576) {
            Some(_) => true,
            None => false,
        },
        None => false,
    }
}

/// The largest request body the server accepts: the upload limit and one
/// more MiB for the rest of the form.
pub fn request_body_limit(max_upload_mb: usize) -> (r: usize)
    requires
        max_upload_mb * 1048576 + 1048576 <= usize::MAX,
    ensures
        r == max_upload_mb * 1048576 + 1048576,
{
    max_upload_mb * 1024 * 1024 + 1024 * 1024
}

} // verus!
