//! Passwords, login tokens and who a request comes from.
use crate::error::{AppError, ErrorView};
use crate::text::{
    chars_of, decimal, owned, push_char, push_decimal, push_str, seq_starts_with, signed_decimal,
    starts_with, string_of,
};
use vstd::prelude::*;

verus! {

broadcast use vstd::seq_lib::group_seq_properties;

// ---------------------------------------------------------------------------
// Passwords
// ---------------------------------------------------------------------------

/// Whether `bcrypt::verify` accepts `password` for `hash` (a hash it cannot
/// read counts as not accepted).
pub uninterp spec fn bcrypt_verifies(password: Seq<char>, hash: Seq<char>) -> bool;

/// Calls `bcrypt::hash` with `bcrypt::DEFAULT_COST`. The salt is random, so
/// nothing is said of which hash comes back, only that `bcrypt::verify`
/// accepts the password for it: the hash records its cost and salt, and
/// `verify` recomputes it from them. The hash is written as
/// `$2b$12$` followed by 22 characters of salt and 31 of digest, 60 in all.
/// Its error is rendered as text.
#[verifier::external_body]
fn bcrypt_hash(password: &str) -> (r: Result<String, String>)
    ensures
        r matches Ok(h) ==> bcrypt_verifies(password@, h@),
        r matches Ok(h) ==> h@.len() == 60 && starts_with(h@, "$2b$12$"@),
{
    match bcrypt::hash(password, bcrypt::DEFAULT_COST) {
        Ok(h) => Ok(h),
        Err(e) => Err(format!("{e}")),
    }
}

/// Calls `bcrypt::verify`, taking an error (an unreadable hash) as `false`.
/// A hash without any '$' splits into one part, not the three `verify`
/// needs, so it is never accepted.
#[verifier::external_body]
fn bcrypt_verify(password: &str, hash: &str) -> (r: bool)
    ensures
        r == bcrypt_verifies(password@, hash@),
        !hash@.contains('$') ==> !r,
{
    match bcrypt::verify(password, hash) {
        Ok(b) => b,
        Err(_) => false,
    }
}

/// Hashes a password for storage.
pub fn hash_password(password: &str) -> (r: Result<String, AppError>)
    ensures
        match r {
            Ok(h) => bcrypt_verifies(password@, h@) && h@.len() == 60 && starts_with(
                h@,
                "$2b$12$"@,
            ),
            Err(e) => e@ matches ErrorView::Internal(m) && starts_with(m, "hash: "@),
        },
{
    match bcrypt_hash(password) {
        Ok(h) => Ok(h),
        Err(e) => {
            let mut m = "hash: ".to_owned();
            push_str(&mut m, e.as_str());
            Err(AppError::Internal(m))
        },
    }
}

/// Whether `password` matches the stored `hash`.
pub fn verify_password(password: &str, hash: &str) -> (r: bool)
    ensures
        r == bcrypt_verifies(password@, hash@),
        !hash@.contains('$') ==> !r,
{
    bcrypt_verify(password, hash)
}

// ---------------------------------------------------------------------------
// Login tokens
// ---------------------------------------------------------------------------

/// What a login token says of its holder.
pub struct Claims {
    pub sub: i64,
    pub username: String,
    pub is_admin: bool,
    pub exp: usize,
}

/// How long a login token is valid: 7 days, in seconds.
pub const TOKEN_LIFETIME_SECS: i64 = 604800;

/// The latest Unix time `chrono` can represent (December 31, 262142, 23:59:59 UTC).
pub const LATEST_TIMESTAMP: i64 = 8210266876799;

/// The JSON escape of one character inside a string, as `serde_json` writes it.
pub open spec fn json_escape_char(c: char) -> Seq<char> {
    if c == '"' {
        seq!['\\', '"']
    } else if c == '\\' {
        seq!['\\', '\\']
    } else if c == '\u{8}' {
        seq!['\\', 'b']
    } else if c == '\u{c}' {
        seq!['\\', 'f']
    } else if c == '\n' {
        seq!['\\', 'n']
    } else if c == '\r' {
        seq!['\\', 'r']
    } else if c == '\t' {
        seq!['\\', 't']
    } else if (c as u32) < 0x20 {
        seq!['\\', 'u', '0', '0', hex_lower(((c as u32) / 16) as nat), hex_lower(((c as u32) % 16) as nat)]
    } else {
        seq![c]
    }
}

/// The lower-case hexadecimal digit for `d < 16`.
pub open spec fn hex_lower(d: nat) -> char {
    if d < 10 {
        (('0' as u32) + d) as char
    } else {
        (('a' as u32) + (d - 10)) as char
    }
}

/// A JSON string literal holding `s`.
pub open spec fn json_string(s: Seq<char>) -> Seq<char> {
    seq!['"'] + s.flat_map(|c: char| json_escape_char(c)) + seq!['"']
}

/// The JSON object a token carries for these claims, its fields in the
/// order `sub`, `username`, `is_admin`, `exp`.
pub open spec fn claims_text(sub: int, username: Seq<char>, is_admin: bool, exp: nat) -> Seq<char> {
    "{\"sub\":"@ + signed_decimal(sub) + ",\"username\":"@ + json_string(username)
        + ",\"is_admin\":"@ + (if is_admin {
        "true"@
    } else {
        "false"@
    }) + ",\"exp\":"@ + decimal(exp) + "}"@
}

pub open spec fn claims_json_of(c: Claims) -> Seq<char> {
    claims_text(c.sub as int, c.username@, c.is_admin, c.exp as nat)
}

fn hex_lower_digit(d: u32) -> (c: char)
    requires
        d < 16,
    ensures
        c == hex_lower(d as nat),
{
    if d < 10 {
        crate::text::char_from_ascii(48 + d)
    } else {
        crate::text::char_from_ascii(97 + (d - 10))
    }
}

fn push_json_escaped(out: &mut String, c: char)
    ensures
        final(out)@ == old(out)@ + json_escape_char(c),
{
    if c == '"' {
        push_char(out, '\\');
        push_char(out, '"');
    } else if c == '\\' {
        push_char(out, '\\');
        push_char(out, '\\');
    } else if c == '\u{8}' {
        push_char(out, '\\');
        push_char(out, 'b');
    } else if c == '\u{c}' {
        push_char(out, '\\');
        push_char(out, 'f');
    } else if c == '\n' {
        push_char(out, '\\');
        push_char(out, 'n');
    } else if c == '\r' {
        push_char(out, '\\');
        push_char(out, 'r');
    } else if c == '\t' {
        push_char(out, '\\');
        push_char(out, 't');
    } else if (c as u32) < 0x20 {
        let u = c as u32;
        push_char(out, '\\');
        push_char(out, 'u');
        push_char(out, '0');
        push_char(out, '0');
        push_char(out, hex_lower_digit(u / 16));
        push_char(out, hex_lower_digit(u % 16));
    } else {
        push_char(out, c);
    }
    assert(final(out)@ =~= old(out)@ + json_escape_char(c));
}

/// Appends `s` as a JSON string literal.
pub fn push_json_string(out: &mut String, s: &str)
    ensures
        final(out)@ == old(out)@ + json_string(s@),
{
    let v = chars_of(s);
    let ghost start = out@;
    push_char(out, '"');
    let mut i: usize = 0;
    while i < v.len()
        invariant
            v@ == s@,
            0 <= i <= v@.len(),
            out@ == start + seq!['"'] + v@.take(i as int).flat_map(|c: char| json_escape_char(c)),
        decreases v@.len() - i,
    {
        push_json_escaped(out, v[i]);
        proof {
            v@.lemma_flat_map_take_append(|c: char| json_escape_char(c), i as int);
        }
        i = i + 1;
    }
    assert(v@.take(v@.len() as int) =~= v@);
    push_char(out, '"');
}

/// The JSON text of the claims, byte for byte what `serde_json` writes for
/// them.
pub fn claims_json(c: &Claims) -> (r: String)
    ensures
        r@ == claims_json_of(*c),
{
    let mut r = "{\"sub\":".to_owned();
    let n = crate::text::i64_decimal(c.sub);
    push_str(&mut r, n.as_str());
    push_str(&mut r, ",\"username\":");
    push_json_string(&mut r, c.username.as_str());
    push_str(&mut r, ",\"is_admin\":");
    if c.is_admin {
        push_str(&mut r, "true");
    } else {
        push_str(&mut r, "false");
    }
    push_str(&mut r, ",\"exp\":");
    push_decimal(&mut r, c.exp as u64);
    push_str(&mut r, "}");
    r
}

/// The token `jsonwebtoken` makes of a JSON claims text: a default header
/// (HS256), the claims, and an HMAC-SHA256 signature keyed by `secret`.
pub uninterp spec fn jwt_hs256(secret: Seq<char>, claims_json: Seq<char>) -> Seq<char>;

/// Calls `jsonwebtoken::encode` with `Header::default()` (HS256) and
/// `EncodingKey::from_secret` of the secret's bytes, on the claims text
/// taken verbatim as a `serde_json::value::RawValue`. The token is named
/// `jwt_hs256` of the secret and the text. `RawValue::from_string` fails
/// only on a text that is not JSON, and `encode` with an HMAC key and the
/// HS256 header fails only when serialising or signing fails, which neither
/// the header nor a raw value nor HMAC signing does; so a claims text (which
/// is JSON) is always signed. An error is rendered as text.
#[verifier::external_body]
fn jwt_encode(secret: &str, claims_json: String) -> (r: Result<String, String>)
    ensures
        r matches Ok(t) ==> t@ == jwt_hs256(secret@, claims_json@),
        (exists|c: Claims| #[trigger] claims_json_of(c) == claims_json@) ==> r is Ok,
{
    let raw = match serde_json::value::RawValue::from_string(claims_json) {
        Ok(v) => v,
        Err(e) => return Err(format!("{e}")),
    };
    let key = jsonwebtoken::EncodingKey::from_secret(secret.as_bytes());
    match jsonwebtoken::encode(&jsonwebtoken::Header::default(), &raw, &key) {
        Ok(t) => Ok(t),
        Err(e) => Err(format!("{e}")),
    }
}

/// Calls `chrono::Utc::now().timestamp()`: the current Unix time in seconds.
/// `Utc::now` panics on a clock set before 1970, so what returns is not negative.
#[verifier::external_body]
fn now_timestamp() -> (r: i64)
    ensures
        r >= 0,
{
    chrono::Utc::now().timestamp()
}

/// The `exp` claim of a token issued at Unix time `now`: 7 days later, as
/// a `usize` (which, on a 64-bit target, is the number itself).
pub open spec fn expiry_of(now: int) -> nat {
    ((now + TOKEN_LIFETIME_SECS) as usize) as nat
}

/// On a 64-bit target a token expires exactly 7 days after it is issued.
pub proof fn law_expiry_is_a_week_later(now: int)
    requires
        0 <= now <= LATEST_TIMESTAMP - TOKEN_LIFETIME_SECS,
        usize::MAX == u64::MAX,
    ensures
        expiry_of(now) == now + 604800,
{
}

/// The claims of a token issued at Unix time `now`: it expires 7 days later.
pub fn token_claims(id: i64, username: &str, is_admin: bool, now: i64) -> (c: Claims)
    requires
        0 <= now <= LATEST_TIMESTAMP - TOKEN_LIFETIME_SECS,
    ensures
        c.sub == id,
        c.username@ == username@,
        c.is_admin == is_admin,
        c.exp == (now + TOKEN_LIFETIME_SECS) as usize,
        usize::MAX == u64::MAX ==> c.exp == now + TOKEN_LIFETIME_SECS,
{
    Claims { sub: id, username: owned(username), is_admin, exp: (now + TOKEN_LIFETIME_SECS) as usize }
}

/// Signs the claims into a login token.
pub fn sign_claims(secret: &str, claims: &Claims) -> (r: Result<String, AppError>)
    ensures
        r matches Ok(t) && t@ == jwt_hs256(secret@, claims_json_of(*claims)),
{
    let json = claims_json(claims);
    match jwt_encode(secret, json) {
        Ok(t) => Ok(t),
        Err(e) => {
            let mut m = "jwt: ".to_owned();
            push_str(&mut m, e.as_str());
            Err(AppError::Internal(m))
        },
    }
}

/// The token of an account issued at Unix time `now`: its claims name the
/// account and expire 7 days later. When that expiry would pass the last
/// instant `chrono` represents, the answer is an internal error.
pub fn create_token_at(secret: &str, id: i64, username: &str, is_admin: bool, now: i64) -> (r:
    Result<String, AppError>)
    requires
        now >= 0,
    ensures
        (r is Err) <==> now > LATEST_TIMESTAMP - TOKEN_LIFETIME_SECS,
        r matches Err(e) ==> e@ == ErrorView::Internal("jwt: timestamp out of range"@),
        r matches Ok(t) ==> t@ == jwt_hs256(
            secret@,
            claims_text(id as int, username@, is_admin, expiry_of(now as int)),
        ),
        r matches Ok(t) ==> (usize::MAX == u64::MAX ==> t@ == jwt_hs256(
            secret@,
            claims_text(id as int, username@, is_admin, (now + TOKEN_LIFETIME_SECS) as nat),
        )),
{
    if now > LATEST_TIMESTAMP - TOKEN_LIFETIME_SECS {
        return Err(AppError::Internal("jwt: timestamp out of range".to_owned()));
    }
    let claims = token_claims(id, username, is_admin, now);
    sign_claims(secret, &claims)
}

/// Issues a login token for an account, valid for 7 days from now.
pub fn create_token(secret: &str, id: i64, username: &str, is_admin: bool) -> (r: Result<
    String,
    AppError,
>)
    ensures
        match r {
            Ok(t) => exists|now: int|
                0 <= now <= LATEST_TIMESTAMP - TOKEN_LIFETIME_SECS && #[trigger] jwt_hs256(
                    secret@,
                    claims_text(id as int, username@, is_admin, expiry_of(now)),
                ) == t@ && (usize::MAX == u64::MAX ==> expiry_of(now) == now
                    + TOKEN_LIFETIME_SECS),
            Err(e) => e@ == ErrorView::Internal("jwt: timestamp out of range"@),
        },
{
    let now = now_timestamp();
    let r = create_token_at(secret, id, username, is_admin, now);
    proof {
        if r is Ok {
            assert(jwt_hs256(
                secret@,
                claims_text(id as int, username@, is_admin, expiry_of(now as int)),
            ) == r->Ok_0@);
        }
    }
    r
}

// ---------------------------------------------------------------------------
// Who a request comes from
// ---------------------------------------------------------------------------

/// The token of an `Authorization: Bearer <token>` header.
pub fn bearer_token(authorization: Option<&str>) -> (r: Option<String>)
    ensures
        match authorization {
            Some(h) => if starts_with(h@, "Bearer "@) {
                r matches Some(t) && t@ == h@.subrange(7, h@.len() as int)
            } else {
                r is None
            },
            None => r is None,
        },
{
    match authorization {
        Some(h) => {
            let v = chars_of(h);
            if seq_starts_with(&v, "Bearer ") {
                proof {
                    reveal_strlit("Bearer ");
                }
                Some(string_of(&v, 7, v.len()))
            } else {
                None
            }
        },
        None => None,
    }
}

/// A logged-in user, as their token names them.
pub struct AuthUser {
    pub id: i64,
    pub username: String,
    pub is_admin: bool,
}

/// A logged-in administrator.
pub struct AdminUser(pub AuthUser);

/// The uploader: a logged-in user, or the holder of a personal API token
/// (prefix `daf_`), which can do nothing but upload.
pub struct ApiUser {
    pub id: i64,
    pub username: String,
    pub is_admin: bool,
}

/// The viewer of a public page, when logged in.
pub struct OptionalAuthUser(pub Option<AuthUser>);

/// The user a token's claims name.
pub fn user_of_claims(c: Claims) -> (u: AuthUser)
    ensures
        u.id == c.sub,
        u.username == c.username,
        u.is_admin == c.is_admin,
{
    AuthUser { id: c.sub, username: c.username, is_admin: c.is_admin }
}

/// A request needs a valid token: `claims` are those of the request's
/// token, when it has one and it is valid.
pub fn authenticate(claims: Option<Claims>) -> (r: Result<AuthUser, AppError>)
    ensures
        match claims {
            Some(c) => r matches Ok(u) && u.id == c.sub && u.username == c.username && u.is_admin
                == c.is_admin,
            None => r matches Err(e) && e@ == ErrorView::Unauthorized,
        },
{
    match claims {
        Some(c) => Ok(user_of_claims(c)),
        None => Err(AppError::Unauthorized),
    }
}

/// Administration needs an administrator.
pub fn require_admin(user: AuthUser) -> (r: Result<AdminUser, AppError>)
    ensures
        user.is_admin ==> (r matches Ok(a) && a.0 == user),
        !user.is_admin ==> (r matches Err(e) && e@ == ErrorView::Forbidden),
{
    if !user.is_admin {
        return Err(AppError::Forbidden);
    }
    Ok(AdminUser(user))
}

/// The viewer of a public page: the token's user, or nobody.
pub fn optional_user(claims: Option<Claims>) -> (r: OptionalAuthUser)
    ensures
        match claims {
            Some(c) => r.0 matches Some(u) && u.id == c.sub && u.username == c.username
                && u.is_admin == c.is_admin,
            None => r.0 is None,
        },
{
    match claims {
        Some(c) => OptionalAuthUser(Some(user_of_claims(c))),
        None => OptionalAuthUser(None),
    }
}

/// What the upload route does with a request's token.
pub enum ApiAuthStep {
    /// A valid login token: the uploader is its user.
    Accept(ApiUser),
    /// A personal API token: look up the account it belongs to.
    LookUp(String),
    /// No usable token.
    Reject(AppError),
}

/// The first decision on an upload's token: `token` is the bearer token, if
/// any, and `claims` its claims when it is a valid login token.
pub fn api_user_step(token: Option<String>, claims: Option<Claims>) -> (r: ApiAuthStep)
    ensures
        match token {
            None => r matches ApiAuthStep::Reject(e) && e@ == ErrorView::Unauthorized,
            Some(t) => match claims {
                Some(c) => r matches ApiAuthStep::Accept(u) && u.id == c.sub && u.username
                    == c.username && u.is_admin == c.is_admin,
                None => if starts_with(t@, "daf_"@) {
                    r == ApiAuthStep::LookUp(t)
                } else {
                    r matches ApiAuthStep::Reject(e) && e@ == ErrorView::Unauthorized
                },
            },
        },
{
    match token {
        None => ApiAuthStep::Reject(AppError::Unauthorized),
        Some(t) => match claims {
            Some(c) => ApiAuthStep::Accept(ApiUser { id: c.sub, username: c.username, is_admin: c.is_admin }),
            None => {
                let v = chars_of(t.as_str());
                if seq_starts_with(&v, "daf_") {
                    ApiAuthStep::LookUp(t)
                } else {
                    ApiAuthStep::Reject(AppError::Unauthorized)
                }
            },
        },
    }
}

/// The uploader a personal token belongs to: `account` is the account found
/// for it (id, name, administrator flag), if any.
pub fn api_user_of_token(account: Option<(i64, String, bool)>) -> (r: Result<ApiUser, AppError>)
    ensures
        match account {
            Some((id, name, admin)) => r matches Ok(u) && u.id == id && u.username == name
                && u.is_admin == admin,
            None => r matches Err(e) && e@ == ErrorView::Unauthorized,
        },
{
    match account {
        Some((id, username, is_admin)) => Ok(ApiUser { id, username, is_admin }),
        None => Err(AppError::Unauthorized),
    }
}

} // verus!
