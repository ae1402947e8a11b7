//! The request guard of the API routes for administrators.
use vstd::prelude::*;
use crate::auth::user::RoleError;
use crate::models::{access_allowed, access_check_defined, RequestInfo, Role, User};
use crate::responses::{Outcome, Status};

verus! {

/// A user that the admin guard let through.
#[derive(Debug)]
pub struct AdminUser {
    pub id: i32,
    pub email: String,
    pub is_active: bool,
}

impl AdminUser {
    /// The admin guard once the user (already found active) and their role
    /// are known: it lets the user through if the role allows the route.
    pub fn guard_after_role(user: User, role: &Role, req: &RequestInfo) -> (res: Outcome<AdminUser, RoleError>)
        requires
            access_check_defined(role.name@, *req),
        ensures
            access_allowed(role.name@, *req, user.id as int) ==> (res matches Outcome::Success(a)
                && a.id == user.id && a.email == user.email && a.is_active == user.is_active),
            !access_allowed(role.name@, *req, user.id as int) ==> res == Outcome::<AdminUser, RoleError>::Failure(
                Status::Unauthorized,
                RoleError::ServerError,
            ),
    {
        if !user.is_allowed(req, role.name.as_str(), user.id) {
            return Outcome::Failure(Status::Unauthorized, RoleError::ServerError);
        }
        Outcome::Success(AdminUser { id: user.id, email: user.email, is_active: user.is_active })
    }
}

} // verus!
