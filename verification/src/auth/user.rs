//! The request guard that lets an active, permitted user through.
use vstd::prelude::*;
use crate::models::{access_allowed, access_check_defined, RequestInfo, Role, User};
use crate::responses::{Outcome, Status};

verus! {

/// Why a user guard failed.
#[derive(PartialEq, Eq, Structural, Clone, Copy, Debug)]
pub enum RoleError {
    Invalid,
    ServerError,
}

impl User {
    /// The user guard once the token's user has been looked up: a failed
    /// lookup or an inactive user fails the request; an active user goes on
    /// to the role check.
    pub fn guard_after_lookup(lookup: Result<User, String>) -> (res: Result<User, (Status, RoleError)>)
        ensures
            match lookup {
                Ok(u) => if u.is_active {
                    res == Ok::<User, (Status, RoleError)>(u)
                } else {
                    res == Err::<User, (Status, RoleError)>((Status::Unauthorized, RoleError::ServerError))
                },
                Err(_) => res == Err::<User, (Status, RoleError)>((Status::Unauthorized, RoleError::ServerError)),
            },
    {
        match lookup {
            Ok(user) => {
                if user.is_active {
                    Ok(user)
                } else {
                    Err((Status::Unauthorized, RoleError::ServerError))
                }
            },
            Err(_) => Err((Status::Unauthorized, RoleError::ServerError)),
        }
    }

    /// The user guard once the user's role is known: the request goes
    /// through with the user if the role allows the route, else it fails.
    pub fn guard_after_role(user: User, role: &Role, req: &RequestInfo) -> (res: Outcome<User, RoleError>)
        requires
            access_check_defined(role.name@, *req),
        ensures
            access_allowed(role.name@, *req, user.id as int) ==> res == Outcome::<User, RoleError>::Success(user),
            !access_allowed(role.name@, *req, user.id as int) ==> res == Outcome::<User, RoleError>::Failure(
                Status::Unauthorized,
                RoleError::ServerError,
            ),
    {
        if !user.is_allowed(req, role.name.as_str(), user.id) {
            return Outcome::Failure(Status::Unauthorized, RoleError::ServerError);
        }
        Outcome::Success(user)
    }
}

} // verus!
