//! The records the service reads from its database and the bodies of its
//! requests and replies.
use vstd::prelude::*;

verus! {

/// An account. Its password hash is never sent to a client.
pub struct User {
    pub id: i64,
    pub username: String,
    pub password_hash: String,
    pub is_admin: bool,
    pub created_at: String,
}

/// An account as the administration list shows it.
pub struct UserDto {
    pub id: i64,
    pub username: String,
    pub is_admin: bool,
    pub created_at: String,
    pub file_count: i64,
}

/// An uploaded file as it is stored.
#[derive(Clone)]
pub struct FileRow {
    pub id: i64,
    pub user_id: i64,
    pub slug: String,
    pub original_name: String,
    pub stored_name: String,
    pub mime_type: String,
    pub category: String,
    pub size: i64,
    pub is_shared: bool,
    pub created_at: String,
}

/// An uploaded file as its owner sees it, with its number of views.
pub struct FileDto {
    pub id: i64,
    pub slug: String,
    pub original_name: String,
    pub mime_type: String,
    pub category: String,
    pub size: i64,
    pub is_shared: bool,
    pub created_at: String,
    pub view_count: i64,
}

impl FileRow {
    /// The owner's view of this file, given how often it was viewed.
    pub fn into_dto(self, view_count: i64) -> (r: FileDto)
        ensures
            r.id == self.id,
            r.slug == self.slug,
            r.original_name == self.original_name,
            r.mime_type == self.mime_type,
            r.category == self.category,
            r.size == self.size,
            r.is_shared == self.is_shared,
            r.created_at == self.created_at,
            r.view_count == view_count,
    {
        FileDto {
            id: self.id,
            slug: self.slug,
            original_name: self.original_name,
            mime_type: self.mime_type,
            category: self.category,
            size: self.size,
            is_shared: self.is_shared,
            created_at: self.created_at,
            view_count,
        }
    }
}

/// One recorded view of a shared file.
pub struct VisitRow {
    pub ip: String,
    pub user_agent: Option<String>,
    pub visited_at: String,
}

/// A user name and a password, to register or log in with.
pub struct Credentials {
    pub username: String,
    pub password: String,
}

/// A request to replace one's own password.
pub struct ChangePassword {
    pub old_password: String,
    pub new_password: String,
}

/// An administrator's request to create an account.
pub struct CreateUser {
    pub username: String,
    pub password: String,
    pub is_admin: bool,
}

/// An administrator's request to set an account's password.
pub struct ResetPassword {
    pub new_password: String,
}

/// A selection of files.
pub struct IdList {
    pub ids: Vec<i64>,
}

/// A request to give a file another link.
pub struct UpdateSlug {
    pub slug: String,
}

/// A request to share a file or stop sharing it.
pub struct SetShare {
    pub is_shared: bool,
}

} // verus!
