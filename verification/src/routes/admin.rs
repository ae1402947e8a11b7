//! The admin back office: login with a private cookie, and enabling or
//! disabling users.
use vstd::prelude::*;
use crate::auth::cookie::{admin_cookie_value, cookie_text};
use crate::crypto::{hash_password_str, hex_digest_of, DigestAlgorithm};
use crate::models::{Role, User, ROLE_ADMIN};
use crate::text::str_eq;
use vstd::utf8::encode_utf8;

verus! {

/// Where the admin login page is.
pub const ADMIN_LOGIN_PATH: &'static str = "/admin";

/// Where the admin user list is.
pub const ADMIN_USERS_PATH: &'static str = "/admin/users";

/// The form that enables or disables a user.
#[derive(Debug)]
pub struct FormEditUser {
    pub user_id: i32,
    pub is_active: bool,
}

/// The admin login form.
#[derive(Debug)]
pub struct FormLogin {
    pub email: String,
    pub password: String,
}

/// Why a form could not be read: bytes that are not UTF-8, a malformed
/// form, or a field that does not parse (with the offending text).
#[derive(Debug)]
pub enum FormDataError {
    Io,
    Malformed(String),
    Parse(String),
}

/// The answer to an admin login: where to redirect, and the value of the
/// private auth cookie to set, if any.
#[derive(Debug)]
pub struct AdminLogin {
    pub redirect: &'static str,
    pub cookie: Option<String>,
}

/// The hash of the admin login form's password, to look up the active user
/// with the form's email and that hash.
pub fn admin_login_password_hash(form: &FormLogin) -> (res: String)
    ensures
        res@ == hex_digest_of(DigestAlgorithm::Sha256, encode_utf8(form.password@)),
{
    hash_password_str(form.password.as_str())
}

/// The admin login, once the active user with the form's credentials was
/// looked up (`None` when the form could not be read): an administrator
/// gets the auth cookie `<id>:<role>` and goes to the user list; anyone
/// else goes back to the login page without a cookie.
pub fn admin_panel_post_login(lookup: Option<Result<(User, Role), String>>) -> (res: AdminLogin)
    ensures
        match lookup {
            Some(Ok(f)) => if f.1.name@ == ROLE_ADMIN@ {
                res.redirect@ == ADMIN_USERS_PATH@ && (res.cookie matches Some(c) && c@
                    == cookie_text(f.0.id as int, f.1.name@))
            } else {
                res.redirect@ == ADMIN_LOGIN_PATH@ && res.cookie is None
            },
            _ => res.redirect@ == ADMIN_LOGIN_PATH@ && res.cookie is None,
        },
{
    if let Some(Ok((user, role))) = &lookup {
        if str_eq(role.name.as_str(), ROLE_ADMIN) {
            return AdminLogin {
                redirect: ADMIN_USERS_PATH,
                cookie: Some(admin_cookie_value(user.id, role.name.as_str())),
            };
        }
    }
    AdminLogin { redirect: ADMIN_LOGIN_PATH, cookie: None }
}

/// An administrator's edit of a user: only whether the user is active changes.
pub fn apply_edit_user_form(user: User, form: &FormEditUser) -> (res: User)
    ensures
        res.id == user.id,
        res.email == user.email,
        res.password == user.password,
        res.is_active == form.is_active,
{
    let mut user = user;
    user.is_active = form.is_active;
    user
}

/// The detail of the answer to an administrator's user edit: whether the
/// update was saved (`Ok`), or why the form could not be read.
pub fn admin_panel_edit_user(outcome: &Result<bool, FormDataError>) -> (res: &'static str)
    ensures
        outcome matches Ok(true) ==> res@ == "User updated successfully"@,
        outcome matches Ok(false) ==> res@ == "User update failed"@,
        outcome matches Err(FormDataError::Io) ==> res@ == "Form edit user has invalid UTF-8"@,
        (outcome matches Err(FormDataError::Malformed(_)) || outcome matches Err(
            FormDataError::Parse(_),
        )) ==> res@ == "Invalid form edit user received"@,
{
    match outcome {
        Ok(true) => "User updated successfully",
        Ok(false) => "User update failed",
        Err(FormDataError::Io) => "Form edit user has invalid UTF-8",
        Err(_) => "Invalid form edit user received",
    }
}

} // verus!
