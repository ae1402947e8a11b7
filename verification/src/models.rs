//! The records the service keeps (users, roles, doors) and who may use which route.
use vstd::prelude::*;
use crate::auth::token::Auth;
use crate::text::{parse_i32, parse_i32_spec, str_eq};

verus! {

/// A registered user. `password` holds the hash of the password.
#[derive(Debug, Default)]
pub struct User {
    pub id: i32,
    pub password: String,
    pub email: String,
    pub is_active: bool,
}

/// A door with a buzzer.
#[derive(Debug, Default)]
pub struct Door {
    pub id: i32,
    pub name: String,
    pub address: String,
    pub buzzer_url: String,
    pub ring: bool,
    pub ring_ts: Option<i32>,
}

/// Role name of administrators.
pub const ROLE_ADMIN: &'static str = "admin";

/// Role name of ordinary users.
pub const ROLE_USER: &'static str = "user";

/// The role of a user (`user` is the user's id).
#[derive(Debug)]
pub struct Role {
    pub id: i32,
    pub name: String,
    pub user: Option<i32>,
}

/// A role to be inserted.
#[derive(Debug)]
pub struct RoleNew {
    pub name: String,
    pub user: Option<i32>,
}

/// HTTP methods of a route.
#[derive(PartialEq, Eq, Structural, Clone, Copy, Debug)]
pub enum Method {
    Get,
    Put,
    Post,
    Delete,
    Options,
    Head,
    Trace,
    Connect,
    Patch,
}

/// What the access check reads of a request: the path pattern of the route
/// that matched (such as `/users/<user_id>`), the route's method, and the
/// last segment of the requested path.
#[derive(Debug)]
pub struct RequestInfo {
    pub route_path: String,
    pub method: Method,
    pub last_segment: Option<String>,
}

/// The text held by an optional string.
pub open spec fn opt_text(o: Option<String>) -> Option<Seq<char>> {
    match o {
        Some(s) => Some(s@),
        None => None,
    }
}

/// The routes a plain user may never use: the user list, the admin pages,
/// the door list and door creation.
pub open spec fn is_restricted_path(path: Seq<char>) -> bool {
    path == "/users"@ || path == "/admin"@ || path == "/doors"@ || path == "/door"@
}

/// The route patterns of a single user's profile: its detail and its edit.
pub open spec fn is_user_profile_path(path: Seq<char>) -> bool {
    path == "/users/<user_id>"@ || path == "/user/<user_id>"@
}

/// Whether a plain user with id `user_id` may use a route: not the user list,
/// the admin pages, the door list or door creation, no deletion, and of the
/// profiles only their own.
pub open spec fn plain_user_may_access(
    path: Seq<char>,
    method: Method,
    last_segment: Option<Seq<char>>,
    user_id: int,
) -> bool {
    &&& !is_restricted_path(path)
    &&& method != Method::Delete
    &&& is_user_profile_path(path) ==> (last_segment matches Some(seg) && parse_i32_spec(seg)
        == Some(user_id))
}

/// Whether a user of role `role` with id `user_id` may use the request's
/// route: any role but `user` may use every route.
pub open spec fn access_allowed(role: Seq<char>, req: RequestInfo, user_id: int) -> bool {
    role == "user"@ ==> plain_user_may_access(
        req.route_path@,
        req.method,
        opt_text(req.last_segment),
        user_id,
    )
}

/// The inputs on which the access check can decide: a plain user's request
/// for a profile names a profile id in its last segment.
pub open spec fn access_check_defined(role: Seq<char>, req: RequestInfo) -> bool {
    (role == "user"@ && req.method != Method::Delete && is_user_profile_path(req.route_path@))
        ==> (opt_text(req.last_segment) matches Some(seg) && parse_i32_spec(seg) is Some)
}

impl User {
    /// Issues a new auth token for this user (signup and login), keyed with `secret`.
    pub fn to_auth(&self, secret: &str) -> (res: Auth)
        ensures
            res.user_id == self.id,
            crate::auth::token::issued_token(res, self.email@, secret@),
    {
        Auth::new(self.id, self.email.as_str(), secret)
    }

    /// Whether a user of role `role` and id `user_id` may use the route of
    /// `req`: plain users may not list users or doors, create a door, open the
    /// admin pages, delete anything, or touch a profile other than their own.
    pub fn is_allowed(&self, req: &RequestInfo, role: &str, user_id: i32) -> (res: bool)
        requires
            access_check_defined(role@, *req),
        ensures
            res == access_allowed(role@, *req, user_id as int),
    {
        if str_eq(role, ROLE_USER) {
            let path = req.route_path.as_str();
            if str_eq(path, "/users") || str_eq(path, "/admin") || str_eq(path, "/doors") || str_eq(
                path,
                "/door",
            ) {
                return false;
            }
            if req.method == Method::Delete {
                return false;
            }
            if str_eq(path, "/users/<user_id>") || str_eq(path, "/user/<user_id>") {
                if let Some(seg) = &req.last_segment {
                    if let Some(req_id) = parse_i32(seg.as_str()) {
                        if req_id != user_id {
                            return false;
                        }
                    }
                }
            }
        }
        true
    }
}

/// A plain user may never list users or doors, create a door, nor open the
/// admin pages.
pub proof fn lemma_plain_user_restricted_paths(req: RequestInfo, user_id: int)
    requires
        is_restricted_path(req.route_path@),
    ensures
        !access_allowed("user"@, req, user_id),
{
}

/// A plain user may never delete anything.
pub proof fn lemma_plain_user_never_deletes(req: RequestInfo, user_id: int)
    requires
        req.method == Method::Delete,
    ensures
        !access_allowed("user"@, req, user_id),
{
}

/// A plain user may use a profile route only for their own profile.
pub proof fn lemma_plain_user_own_profile_only(req: RequestInfo, user_id: int)
    requires
        is_user_profile_path(req.route_path@),
        req.method != Method::Delete,
    ensures
        access_allowed("user"@, req, user_id) <==> (opt_text(req.last_segment) matches Some(seg)
            && parse_i32_spec(seg) == Some(user_id)),
{
    assert(!is_restricted_path(req.route_path@)) by {
        reveal_strlit("/users/<user_id>");
        reveal_strlit("/user/<user_id>");
        reveal_strlit("/users");
        reveal_strlit("/admin");
        reveal_strlit("/doors");
        reveal_strlit("/door");
        assert("/users/<user_id>"@.len() == 16);
        assert("/user/<user_id>"@.len() == 15);
        assert("/users"@.len() == 6);
        assert("/admin"@.len() == 6);
        assert("/doors"@.len() == 6);
        assert("/door"@.len() == 5);
    }
}

/// Every role other than `user` (such as `admin`) may use every route.
pub proof fn lemma_other_roles_unrestricted(role: Seq<char>, req: RequestInfo, user_id: int)
    requires
        role != "user"@,
    ensures
        access_allowed(role, req, user_id),
{
}

} // verus!
