//! Decisions of the account routes: registration, login, the current user
//! and password changes.
use crate::auth::{bcrypt_verifies, hash_password, verify_password};
use crate::error::{AppError, ErrorView};
use crate::handlers::{password_error, username_error, validate_password, validate_username};
use crate::models::User;
use crate::text::{starts_with, trim, trim_seq};
use vstd::prelude::*;

verus! {

/// The name of a new account: the trimmed user name, once the name and the
/// password are valid (the name is checked first).
pub fn new_account_name(username: &str, password: &str) -> (r: Result<String, AppError>)
    ensures
        match r {
            Ok(n) => n@ == trim_seq(username@) && username_error(username@) is None
                && password_error(password@) is None,
            Err(e) => username_error(username@) == Some(e@) || (username_error(username@) is None
                && password_error(password@) == Some(e@)),
        },
{
    validate_username(username)?;
    validate_password(password)?;
    Ok(trim(username))
}

/// A new account needs a name no account has yet.
pub fn username_free(exists: bool) -> (r: Result<(), AppError>)
    ensures
        !exists ==> r is Ok,
        exists ==> (r matches Err(e) && e@ == ErrorView::Conflict("用户名已存在"@)),
{
    if exists {
        return Err(AppError::conflict("用户名已存在"));
    }
    Ok(())
}

/// Logs in: `user` is the account with the (trimmed) name given, if any.
/// An unknown name and a wrong password get the same answer.
pub fn login_user(user: Option<User>, password: &str) -> (r: Result<User, AppError>)
    ensures
        match user {
            Some(u) => if bcrypt_verifies(password@, u.password_hash@) {
                r == Ok::<User, AppError>(u)
            } else {
                r matches Err(e) && e@ == ErrorView::BadRequest("用户名或密码错误"@)
            },
            None => r matches Err(e) && e@ == ErrorView::BadRequest("用户名或密码错误"@),
        },
{
    let u = match user {
        Some(u) => u,
        None => return Err(AppError::bad("用户名或密码错误")),
    };
    if !verify_password(password, u.password_hash.as_str()) {
        return Err(AppError::bad("用户名或密码错误"));
    }
    Ok(u)
}

/// The account of a logged-in user; a token whose account is gone counts as
/// not logged in.
pub fn current_user(row: Option<User>) -> (r: Result<User, AppError>)
    ensures
        match row {
            Some(u) => r == Ok::<User, AppError>(u),
            None => r matches Err(e) && e@ == ErrorView::Unauthorized,
        },
{
    match row {
        Some(u) => Ok(u),
        None => Err(AppError::Unauthorized),
    }
}

/// The hash to store when a user replaces their password: the old password
/// must match the stored hash.
pub fn changed_password_hash(row: &User, old_password: &str, new_password: &str) -> (r: Result<
    String,
    AppError,
>)
    ensures
        !bcrypt_verifies(old_password@, row.password_hash@) ==> (r matches Err(e) && e@
            == ErrorView::BadRequest("原密码错误"@)),
        bcrypt_verifies(old_password@, row.password_hash@) ==> match r {
            Ok(h) => bcrypt_verifies(new_password@, h@),
            Err(e) => e@ matches ErrorView::Internal(m) && starts_with(m, "hash: "@),
        },
{
    if !verify_password(old_password, row.password_hash.as_str()) {
        return Err(AppError::bad("原密码错误"));
    }
    hash_password(new_password)
}

} // verus!
