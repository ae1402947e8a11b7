//! Shaping user records for responses.
use vstd::prelude::*;
use crate::models::{Role, User};
use crate::serializers::user::UserBaseResponse;

verus! {

/// The public view of a user together with the name of their role.
pub fn attach_role_to_user(u: &User, r: &Role) -> (res: UserBaseResponse)
    ensures
        res.id == u.id,
        res.email@ == u.email@,
        res.is_active == u.is_active,
        res.role@ == r.name@,
{
    UserBaseResponse {
        id: u.id,
        email: u.email.clone(),
        is_active: u.is_active,
        role: r.name.clone(),
    }
}

} // verus!
