use open_taffeta::auth::admin::AdminUser;
use open_taffeta::auth::cookie::{admin_cookie_value, AdminCookie, CookieError};
use open_taffeta::auth::user::RoleError;
use open_taffeta::models::{Method, RequestInfo, Role, User, ROLE_ADMIN, ROLE_USER};
use open_taffeta::responses::{Outcome, Status};

fn user(id: i32, active: bool) -> User {
    User { id, password: "h".to_string(), email: format!("u{}@domain.com", id), is_active: active }
}

fn req(path: &str, method: Method, seg: Option<&str>) -> RequestInfo {
    RequestInfo { route_path: path.to_string(), method, last_segment: seg.map(|s| s.to_string()) }
}

fn role(name: &str, uid: i32) -> Role {
    Role { id: 1, name: name.to_string(), user: Some(uid) }
}

#[test]
fn plain_users_cannot_list_or_administer() {
    let u = user(1, true);
    for p in ["/users", "/admin", "/doors"] {
        assert!(!u.is_allowed(&req(p, Method::Get, None), ROLE_USER, 1));
        assert!(u.is_allowed(&req(p, Method::Get, None), ROLE_ADMIN, 1));
    }
    assert!(u.is_allowed(&req("/door/<door_id>", Method::Post, Some("3")), ROLE_USER, 1));
}

#[test]
fn plain_users_cannot_create_doors() {
    let u = user(1, true);
    assert!(!u.is_allowed(&req("/door", Method::Post, None), ROLE_USER, 1));
    assert!(u.is_allowed(&req("/door", Method::Post, None), ROLE_ADMIN, 1));
    assert!(u.is_allowed(&req("/door/<door_id>", Method::Get, Some("3")), ROLE_USER, 1));
}

#[test]
fn plain_users_cannot_delete() {
    let u = user(1, true);
    assert!(!u.is_allowed(&req("/door/<door_id>", Method::Delete, Some("3")), ROLE_USER, 1));
    assert!(u.is_allowed(&req("/door/<door_id>", Method::Delete, Some("3")), ROLE_ADMIN, 1));
}

#[test]
fn plain_users_edit_only_their_own_profile() {
    let u = user(5, true);
    assert!(u.is_allowed(&req("/users/<user_id>", Method::Get, Some("5")), ROLE_USER, 5));
    assert!(!u.is_allowed(&req("/users/<user_id>", Method::Get, Some("6")), ROLE_USER, 5));
    assert!(u.is_allowed(&req("/users/<user_id>", Method::Get, Some("6")), ROLE_ADMIN, 5));
    assert!(u.is_allowed(&req("/user/<user_id>", Method::Put, Some("5")), ROLE_USER, 5));
    assert!(!u.is_allowed(&req("/user/<user_id>", Method::Put, Some("6")), ROLE_USER, 5));
}

#[test]
fn user_guard_refuses_inactive_and_missing_users() {
    assert!(matches!(User::guard_after_lookup(Err("gone".to_string())), Err((Status::Unauthorized, RoleError::ServerError))));
    assert!(matches!(User::guard_after_lookup(Ok(user(2, false))), Err((Status::Unauthorized, RoleError::ServerError))));
    match User::guard_after_lookup(Ok(user(2, true))) {
        Ok(u) => assert_eq!(u.id, 2),
        Err(_) => panic!("active user refused"),
    }
}

#[test]
fn user_guard_applies_the_role() {
    let r = req("/doors", Method::Get, None);
    assert!(matches!(User::guard_after_role(user(2, true), &role(ROLE_USER, 2), &r), Outcome::Failure(Status::Unauthorized, RoleError::ServerError)));
    match User::guard_after_role(user(2, true), &role(ROLE_ADMIN, 2), &r) {
        Outcome::Success(u) => assert_eq!(u.id, 2),
        _ => panic!("admin refused"),
    }
    match AdminUser::guard_after_role(user(3, true), &role(ROLE_ADMIN, 3), &r) {
        Outcome::Success(a) => {
            assert_eq!(a.id, 3);
            assert_eq!(a.email, "u3@domain.com");
            assert!(a.is_active);
        }
        _ => panic!("admin refused"),
    }
    assert!(matches!(AdminUser::guard_after_role(user(3, true), &role(ROLE_USER, 3), &r), Outcome::Failure(Status::Unauthorized, RoleError::ServerError)));
}

#[test]
fn admin_cookie_round_trip() {
    let v = admin_cookie_value(42, ROLE_ADMIN);
    assert_eq!(v, "42:admin");
    match AdminCookie::from_cookie_value(Some(&v)) {
        Outcome::Success(c) => assert_eq!(c.user_id, 42),
        _ => panic!("cookie refused"),
    }
    match AdminCookie::from_cookie_value(Some("-7")) {
        Outcome::Success(c) => assert_eq!(c.user_id, -7),
        _ => panic!("cookie refused"),
    }
    assert!(matches!(AdminCookie::from_cookie_value(None), Outcome::<AdminCookie, CookieError>::Forward));
}

#[test]
fn status_codes() {
    assert_eq!(Status::Okay.code(), 200);
    assert_eq!(Status::Created.code(), 201);
    assert_eq!(Status::NoContent.code(), 204);
    assert_eq!(Status::BadRequest.code(), 400);
    assert_eq!(Status::Unauthorized.code(), 401);
    assert_eq!(Status::ServiceUnavailable.code(), 503);
}
