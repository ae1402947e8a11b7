use open_taffeta::auth::token::Auth;
use open_taffeta::crypto::hash_password;
use open_taffeta::db::{self, QueryError};
use open_taffeta::models::{Door, Role, User, ROLE_USER};
use open_taffeta::routes::admin::{
    admin_login_password_hash, admin_panel_edit_user, admin_panel_post_login,
    apply_edit_user_form, FormDataError, FormEditUser, FormLogin,
};
use open_taffeta::routes::all::{get_index, not_authorized, not_found};
use open_taffeta::routes::doors::{
    buzz, buzz_door, buzz_door_done, buzz_request, challenge_url, get_challenge, get_door,
    ResponseData,
};
use open_taffeta::routes::users::{
    apply_user_edit, edit_user, get_user, get_users, login_user, signup_user,
    validate_pwd_strength, LoginResponse, SignupAttempt, SignupResponse, UserInsertOutcome,
    UserLoginSignup,
};
use open_taffeta::serializers::user::{UserBaseResponse, UserEdit};

fn user(id: i32, email: &str, active: bool) -> User {
    User { id, password: "h".to_string(), email: email.to_string(), is_active: active }
}

fn role(name: &str, uid: i32) -> Role {
    Role { id: 10 + uid, name: name.to_string(), user: Some(uid) }
}

fn creds(password: &str, email: &str) -> UserLoginSignup {
    UserLoginSignup { password: password.to_string(), email: email.to_string() }
}

#[test]
fn static_answers() {
    let b = not_found();
    assert_eq!((b.status.as_str(), b.detail.as_str()), ("error", "Resource was not found."));
    let b = not_authorized();
    assert_eq!((b.status.as_str(), b.detail.as_str()), ("error", "Not authorized"));
}

#[test]
fn index_lists_the_users() {
    let users = vec![
        User { id: 1, password: "123456".to_string(), email: "apiraino@users.noreply.github.com".to_string(), is_active: true },
        User { id: 2, password: "654321".to_string(), email: "kkom@users.noreply.github.com".to_string(), is_active: false },
    ];
    let list = get_index(&users);
    let got: Vec<(&str, i32, &str, &str)> = list
        .iter()
        .map(|u| (u.email.as_str(), u.id, u.password.as_str(), u.username.as_str()))
        .collect();
    assert_eq!(
        got,
        vec![
            ("apiraino@users.noreply.github.com", 1, "123456", "apiraino"),
            ("kkom@users.noreply.github.com", 2, "654321", "kkom"),
        ]
    );
    assert!(get_index(&Vec::new()).is_empty());
    let odd = get_index(&vec![User { id: 3, password: "p".to_string(), email: "no-at-sign".to_string(), is_active: true }]);
    assert_eq!(odd[0].username, "no-at-sign");
}

#[test]
fn login_refuses_unknown_and_inactive_users() {
    let attempt = login_user(&creds("pw", "josh@domain.com"));
    assert_eq!(attempt.hashed_password, hash_password(b"pw"));
    match attempt.check_profile(Err("nope".to_string())) {
        Some(LoginResponse::Unauthorized(b)) => assert_eq!(b.detail, "Could not find user for email josh@domain.com"),
        other => panic!("{:?}", other),
    }
    let inactive = UserBaseResponse { id: 1, email: "josh@domain.com".to_string(), is_active: false, role: "user".to_string() };
    match attempt.check_profile(Ok(inactive)) {
        Some(LoginResponse::Unauthorized(b)) => assert_eq!(b.detail, "Could not find user active for email josh@domain.com"),
        other => panic!("{:?}", other),
    }
    let active = UserBaseResponse { id: 1, email: "josh@domain.com".to_string(), is_active: true, role: "user".to_string() };
    assert!(attempt.check_profile(Ok(active)).is_none());
}

#[test]
fn login_needs_exactly_one_match() {
    let attempt = login_user(&creds("pw", "josh@domain.com"));
    match attempt.check_matches(vec![], "s") {
        Err(LoginResponse::Unauthorized(b)) => assert_eq!(b.detail, "Could not find user for email josh@domain.com"),
        other => panic!("{:?}", other),
    }
    let two = vec![(user(1, "josh@domain.com", true), role("user", 1)), (user(2, "josh@domain.com", true), role("user", 2))];
    assert!(attempt.check_matches(two, "s").is_err());
    let one = vec![(user(3, "josh@domain.com", true), role("user", 3))];
    let (auth, view) = attempt.check_matches(one, "s").ok().unwrap();
    assert_eq!(auth.user_id, 3);
    assert_eq!((view.id, view.email.as_str(), view.is_active, view.role.as_str()), (3, "josh@domain.com", true, "user"));
    match attempt.finish(Err("dup".to_string()), auth, view) {
        LoginResponse::BadRequest(b) => assert_eq!(b.detail, "Failed to save new auth token for email josh@domain.com: dup"),
        other => panic!("{:?}", other),
    }
    let auth = Auth::from_parts(3, "josh@domain.com", 0, "r", "s");
    let view = UserBaseResponse { id: 3, email: "josh@domain.com".to_string(), is_active: true, role: "user".to_string() };
    match attempt.finish(Ok(()), auth, view) {
        LoginResponse::LoggedIn(r) => {
            assert_eq!(r.auth.user_id, 3);
            assert_eq!(r.user.role, "user");
        }
        other => panic!("{:?}", other),
    }
}

#[test]
fn signup_validation() {
    assert!(validate_pwd_strength("123456").is_err());
    let e = validate_pwd_strength("123456").unwrap_err();
    assert_eq!(e.code, "password complexity");
    assert_eq!(e.message.as_deref(), Some("Are you kidding me?"));
    assert!(validate_pwd_strength("1234567").is_ok());

    match signup_user(&creds("12345", "hey@email.com")) {
        Err(SignupResponse::Invalid(v)) => {
            assert_eq!(v.len(), 1);
            assert_eq!((v[0].field.as_str(), v[0].code.as_str(), v[0].message.as_str()), ("password", "length", "Password too short"));
            assert_eq!(v[0].min_length, Some(6));
        }
        _ => panic!("short password accepted"),
    }
    match signup_user(&creds("123456", "not-an-email")) {
        Err(SignupResponse::Invalid(v)) => {
            let codes: Vec<&str> = v.iter().map(|f| f.code.as_str()).collect();
            assert_eq!(codes, vec!["password complexity", "email"]);
        }
        _ => panic!("weak password accepted"),
    }
    match signup_user(&creds("1234567", "hey@email.com")) {
        Ok(a) => {
            assert_eq!(a.email, "hey@email.com");
            assert_eq!(a.hashed_password, hash_password(b"1234567"));
        }
        Err(_) => panic!("valid signup refused"),
    }
}

#[test]
fn signup_steps() {
    let a = SignupAttempt { email: "josh1@domain.com".to_string(), hashed_password: "h".to_string() };
    assert!(a.after_insert(UserInsertOutcome::Inserted).is_none());
    match a.after_insert(UserInsertOutcome::UniqueViolation("X".to_string())) {
        Some(SignupResponse::BadRequest(b)) => assert!(b.detail.contains("record already exists")),
        _ => panic!(),
    }
    match a.after_insert(UserInsertOutcome::OtherError("Y".to_string())) {
        Some(SignupResponse::BadRequest(b)) => assert_eq!(b.detail, "DB error: Y"),
        _ => panic!(),
    }
    let u = user(9, "josh1@domain.com", false);
    let r = SignupAttempt::new_role(&u);
    assert_eq!(r.name, ROLE_USER);
    assert_eq!(r.user, Some(9));
    let auth = u.to_auth("secret");
    assert_eq!(auth.user_id, 9);
    match a.finish(Ok(()), auth, &u, &role("user", 9)) {
        SignupResponse::SignedUp(resp) => {
            assert!(!resp.user.is_active);
            assert_eq!(resp.user.role, ROLE_USER);
            assert_eq!(resp.user.email, "josh1@domain.com");
        }
        _ => panic!(),
    }
}

#[test]
fn user_routes() {
    let rows = vec![
        (user(1, "a@d.com", true), role("admin", 1)),
        (user(2, "b@d.com", false), role("user", 2)),
        (user(3, "c@d.com", true), role("user", 3)),
    ];
    let all = get_users(None, rows);
    assert_eq!(all.users.len(), 3);
    let rows = vec![
        (user(1, "a@d.com", true), role("admin", 1)),
        (user(2, "b@d.com", false), role("user", 2)),
        (user(3, "c@d.com", true), role("user", 3)),
    ];
    let active = get_users(Some(false), rows);
    let ids: Vec<i32> = active.users.iter().map(|u| u.id).collect();
    assert_eq!(ids, vec![1, 3]);
    assert_eq!(active.users[0].role, "admin");

    match get_user(4, Err(QueryError::NotFound)) {
        Err(b) => assert_eq!(b.detail, "error retrieving active user id 4"),
        Ok(_) => panic!(),
    }
    match get_user(4, Err(QueryError::Failed("boom".to_string()))) {
        Err(b) => assert_eq!(b.detail, "error executing query: boom"),
        Ok(_) => panic!(),
    }
    let d = get_user(1, Ok((user(1, "a@d.com", true), role("admin", 1)))).ok().unwrap();
    assert_eq!(d.user.role, "admin");
}

#[test]
fn profile_edit_changes_only_the_email() {
    let u = apply_user_edit(user(5, "josh@domain.com", true), &UserEdit { email: "my-new-email@domain.com".to_string() });
    assert_eq!((u.id, u.email.as_str(), u.is_active, u.password.as_str()), (5, "my-new-email@domain.com", true, "h"));
    assert!(edit_user(5, Ok(u)).is_ok());
    match edit_user(5, Err("taken".to_string())) {
        Err(b) => assert_eq!(b.detail, "Error updating user 5: taken"),
        Ok(_) => panic!(),
    }
}

#[test]
fn db_messages() {
    assert_eq!(db::get_user(3, Err("Record not found".to_string())).unwrap_err(), "user 3 retrieval failed: Record not found");
    assert_eq!(db::get_active_user("a@b.c", Err(QueryError::NotFound)).unwrap_err(), "error retrieving active user email a@b.c");
    assert_eq!(db::get_user_profile("a@b.c", Err(QueryError::Failed("x".to_string()))).unwrap_err(), "error executing query: x");
    let p = db::get_user_profile("a@d.com", Ok((user(1, "a@d.com", true), role("admin", 1)))).unwrap();
    assert_eq!((p.id, p.role.as_str()), (1, "admin"));
    assert_eq!(db::update_user(Err(QueryError::Failed("E".to_string()))).unwrap_err(), "Error in user update: E");
    assert_eq!(db::update_role(Err("E".to_string())).unwrap_err(), "Error in role update: E");
    let list = db::get_user_list(true, Ok(vec![(user(1, "a", false), role("user", 1)), (user(2, "b", true), role("user", 2))])).unwrap();
    assert_eq!(list.len(), 1);
    assert_eq!(list[0].0.id, 2);
    assert_eq!(db::get_user_list(false, Err("q".to_string())).unwrap_err(), "error executing query: q");
    let rn = open_taffeta::models::RoleNew { name: "user".to_string(), user: Some(7) };
    assert_eq!(db::add_role(&rn, true), Some(7));
    assert_eq!(db::add_role(&rn, false), None);
}

#[test]
fn door_routes_and_buzzer() {
    assert_eq!(challenge_url("http://111.222.111.222"), "http://111.222.111.222/challenge");
    assert_eq!(get_challenge(ResponseData { status: 200, message: "abc".to_string() }), Ok("abc".to_string()));
    assert_eq!(get_challenge(ResponseData { status: 404, message: "abc".to_string() }), Err("Got error code: 404".to_string()));
    assert_eq!(get_challenge(ResponseData { status: 500, message: "m".to_string() }), Err("Got error code: 500".to_string()));
    assert_eq!(get_challenge(ResponseData { status: 501, message: "m".to_string() }), Ok("m".to_string()));
    let r = buzz_request("http://b", "chal".to_string());
    assert_eq!(r.url, "http://b/buzz1/1234567890qwerty");
    assert_eq!(r.message, "chal");
    assert_eq!(buzz(ResponseData { status: 200, message: "".to_string() }), Ok("success".to_string()));
    assert_eq!(buzz(ResponseData { status: 400, message: "".to_string() }), Err("Got error code: 400".to_string()));
    let door = Door { id: 3, name: "door123".to_string(), ..Default::default() };
    let d = get_door(3, Ok(door)).ok().unwrap();
    assert_eq!(d.name, "door123");
    match buzz_door(8, Err("NotFound".to_string())) {
        Err(b) => {
            assert_eq!(b.status, "error");
            assert_eq!(b.detail, "Could not find record for door_id=8: NotFound");
        }
        Ok(_) => panic!(),
    }
    let b = buzz_door_done(&d, "success");
    assert_eq!((b.status.as_str(), b.detail.as_str()), ("OK", "Buzzing door 3: success"));
}

#[test]
fn admin_login_and_edit() {
    let form = FormLogin { email: "admin@domain.com".to_string(), password: "hey".to_string() };
    assert_eq!(admin_login_password_hash(&form), hash_password(b"hey"));
    let ok = admin_panel_post_login(Some(Ok((user(4, "admin@domain.com", true), role("admin", 4)))));
    assert_eq!(ok.redirect, "/admin/users");
    assert_eq!(ok.cookie.as_deref(), Some("4:admin"));
    let plain = admin_panel_post_login(Some(Ok((user(5, "user@domain.com", true), role("user", 5)))));
    assert_eq!(plain.redirect, "/admin");
    assert!(plain.cookie.is_none());
    let failed = admin_panel_post_login(Some(Err("no".to_string())));
    assert_eq!(failed.redirect, "/admin");
    let unreadable = admin_panel_post_login(None);
    assert!(unreadable.cookie.is_none());

    let u = apply_edit_user_form(user(2, "b@d.com", true), &FormEditUser { user_id: 2, is_active: false });
    assert!(!u.is_active);
    assert_eq!(u.email, "b@d.com");
    assert_eq!(admin_panel_edit_user(&Ok(true)), "User updated successfully");
    assert_eq!(admin_panel_edit_user(&Ok(false)), "User update failed");
    assert_eq!(admin_panel_edit_user(&Err(FormDataError::Io)), "Form edit user has invalid UTF-8");
    assert_eq!(admin_panel_edit_user(&Err(FormDataError::Parse("x".to_string()))), "Invalid form edit user received");
}
