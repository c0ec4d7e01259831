//! Decisions of the administration routes.
use crate::auth::{bcrypt_verifies, hash_password, AdminUser};
use crate::error::{AppError, ErrorView};
use crate::handlers::{password_error, validate_password};
use crate::models::ResetPassword;
use crate::text::starts_with;
use vstd::prelude::*;

verus! {

/// An administrator cannot delete the account they are logged in with.
pub fn check_deletable(id: i64, admin: &AdminUser) -> (r: Result<(), AppError>)
    ensures
        id != admin.0.id ==> r is Ok,
        id == admin.0.id ==> (r matches Err(e) && e@ == ErrorView::BadRequest(
            "不能删除当前登录的管理员账号"@,
        )),
{
    if id == admin.0.id {
        return Err(AppError::bad("不能删除当前登录的管理员账号"));
    }
    Ok(())
}

/// A change that touched no row names an account or token that does not exist.
pub fn require_affected(rows_affected: u64) -> (r: Result<(), AppError>)
    ensures
        rows_affected > 0 ==> r is Ok,
        rows_affected == 0 ==> (r matches Err(e) && e@ == ErrorView::NotFound),
{
    if rows_affected == 0 {
        return Err(AppError::NotFound);
    }
    Ok(())
}

/// The hash an administrator sets for an account: the new password must be
/// valid.
pub fn reset_password_hash(body: &ResetPassword) -> (r: Result<String, AppError>)
    ensures
        match r {
            Ok(h) => password_error(body.new_password@) is None && bcrypt_verifies(
                body.new_password@,
                h@,
            ),
            Err(e) => password_error(body.new_password@) == Some(e@) || (password_error(
                body.new_password@,
            ) is None && (e@ matches ErrorView::Internal(m) && starts_with(m, "hash: "@))),
        },
{
    validate_password(body.new_password.as_str())?;
    hash_password(body.new_password.as_str())
}

} // verus!
