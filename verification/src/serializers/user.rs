//! Bodies of the user responses and requests.
use vstd::prelude::*;
use crate::auth::token::Auth;

verus! {

/// The public view of a user: no password, and the name of their role.
#[derive(Debug)]
pub struct UserBaseResponse {
    pub id: i32,
    pub email: String,
    pub is_active: bool,
    pub role: String,
}

/// A list of users.
#[derive(Debug)]
pub struct ResponseListUser {
    pub users: Vec<UserBaseResponse>,
}

/// One user.
#[derive(Debug)]
pub struct ResponseUserDetail {
    pub user: UserBaseResponse,
}

/// Answer to a successful signup or login: the new token and the user.
#[derive(Debug)]
pub struct ResponseLoginSignup {
    pub auth: Auth,
    pub user: UserBaseResponse,
}

/// Body of an error answer.
#[derive(Debug)]
pub struct ResponseSignupError {
    pub detail: String,
}

/// The fields a user may change of their own profile.
#[derive(Debug)]
pub struct UserEdit {
    pub email: String,
}

} // verus!
