//! Signup, login, user listing and profile routes.
use vstd::prelude::*;
use crate::auth::token::{issued_token, Auth};
use crate::crypto::{hash_password_str, hex_digest_of, DigestAlgorithm};
use crate::db::{query_error, query_error_message, QueryError};
use crate::models::{Role, RoleNew, User, ROLE_USER};
use crate::responses::{error_body, StatusBody};
use crate::serializers::user::{
    ResponseListUser, ResponseLoginSignup, ResponseUserDetail, UserBaseResponse, UserEdit,
};
use crate::text::{concat_str, int_decimal, push_i64_decimal, push_str, str_eq};
use crate::utils::attach_role_to_user;
use vstd::utf8::encode_utf8;

verus! {

/// The credentials of a signup or a login.
#[derive(Debug)]
pub struct UserLoginSignup {
    pub password: String,
    pub email: String,
}

/// What `validator::validate_email` answers for a text.
pub uninterp spec fn email_is_valid(s: Seq<char>) -> bool;

/// Calls `validator::validate_email`. Trusted: the answer is the named one;
/// the crate refuses an empty text and one without `@` before anything else.
#[verifier::external_body]
fn validate_email(s: &str) -> (res: bool)
    ensures
        res == email_is_valid(s@),
        res ==> s@.len() > 0 && s@.contains('@'),
{
    validator::validate_email(s)
}

/// Calls `validator::validate_length` with a lower bound only. Trusted: the
/// crate counts the characters of a `&str` and compares with the bound.
#[verifier::external_body]
fn validate_min_length(s: &str, min: u64) -> (res: bool)
    ensures
        res == (s@.len() >= min),
{
    validator::validate_length(validator::Validator::Length { min: Some(min), max: None, equal: None }, s)
}

/// A failed validation: its code and message.
#[derive(Debug)]
pub struct ValidationFailure {
    pub code: String,
    pub message: Option<String>,
}

/// A failed validation of a field of a signup, with the bound of a length check.
#[derive(Debug)]
pub struct FieldFailure {
    pub field: String,
    pub code: String,
    pub message: String,
    pub min_length: Option<u64>,
}

/// The shortest password accepted at signup.
pub const MIN_PASSWORD_LEN: u64 = 6;

/// The password that is refused as too weak.
pub open spec fn is_weak_password(pwd: Seq<char>) -> bool {
    pwd == "123456"@
}

/// The strength check of a password: `123456` is refused.
pub fn validate_pwd_strength(pwd: &str) -> (res: Result<(), ValidationFailure>)
    ensures
        res is Ok <==> !is_weak_password(pwd@),
        res matches Err(e) ==> e.code@ == "password complexity"@ && (e.message matches Some(m)
            && m@ == "Are you kidding me?"@),
{
    if str_eq(pwd, "123456") {
        return Err(
            ValidationFailure {
                code: String::from_str("password complexity"),
                message: Some(String::from_str("Are you kidding me?")),
            },
        );
    }
    Ok(())
}

/// A field failure as (field, code, message, length bound).
pub open spec fn failure_view(f: FieldFailure) -> (Seq<char>, Seq<char>, Seq<char>, Option<u64>) {
    (f.field@, f.code@, f.message@, f.min_length)
}

/// The failures of a signup's validation, in order: a password shorter than
/// six characters, a weak password, an invalid email.
pub open spec fn signup_failures(pwd: Seq<char>, email: Seq<char>) -> Seq<
    (Seq<char>, Seq<char>, Seq<char>, Option<u64>),
> {
    (if pwd.len() < MIN_PASSWORD_LEN {
        seq![("password"@, "length"@, "Password too short"@, Some(MIN_PASSWORD_LEN))]
    } else {
        seq![]
    }) + (if is_weak_password(pwd) {
        seq![("password"@, "password complexity"@, "Are you kidding me?"@, None)]
    } else {
        seq![]
    }) + (if !email_is_valid(email) {
        seq![("email"@, "email"@, "Invalid email"@, None)]
    } else {
        seq![]
    })
}

impl UserLoginSignup {
    /// Validates a signup: a password of at least six characters that is not
    /// `123456`, and a valid email.
    pub fn validate(&self) -> (res: Result<(), Vec<FieldFailure>>)
        ensures
            res is Ok <==> signup_failures(self.password@, self.email@).len() == 0,
            res matches Err(v) ==> v@.map_values(|f: FieldFailure| failure_view(f))
                == signup_failures(self.password@, self.email@),
    {
        let mut failures: Vec<FieldFailure> = Vec::new();
        if !validate_min_length(self.password.as_str(), MIN_PASSWORD_LEN) {
            failures.push(
                FieldFailure {
                    field: String::from_str("password"),
                    code: String::from_str("length"),
                    message: String::from_str("Password too short"),
                    min_length: Some(MIN_PASSWORD_LEN),
                },
            );
        }
        if validate_pwd_strength(self.password.as_str()).is_err() {
            failures.push(
                FieldFailure {
                    field: String::from_str("password"),
                    code: String::from_str("password complexity"),
                    message: String::from_str("Are you kidding me?"),
                    min_length: None,
                },
            );
        }
        if !validate_email(self.email.as_str()) {
            failures.push(
                FieldFailure {
                    field: String::from_str("email"),
                    code: String::from_str("email"),
                    message: String::from_str("Invalid email"),
                    min_length: None,
                },
            );
        }
        assert(failures@.map_values(|f: FieldFailure| failure_view(f)) =~= signup_failures(
            self.password@,
            self.email@,
        ));
        if failures.len() == 0 {
            Ok(())
        } else {
            Err(failures)
        }
    }
}

/// The answers of the login route.
#[derive(Debug)]
pub enum LoginResponse {
    /// 200: the new token and the user.
    LoggedIn(ResponseLoginSignup),
    /// 401 with an error body.
    Unauthorized(StatusBody),
    /// 400 with an error body.
    BadRequest(StatusBody),
}

/// "Could not find user for email ..."
pub open spec fn no_user_detail(email: Seq<char>) -> Seq<char> {
    "Could not find user for email "@ + email
}

/// "Could not find user active for email ..."
pub open spec fn inactive_user_detail(email: Seq<char>) -> Seq<char> {
    "Could not find user active for email "@ + email
}

/// "Failed to save new auth token for email ...: ..."
pub open spec fn token_save_detail(email: Seq<char>, err: Seq<char>) -> Seq<char> {
    "Failed to save new auth token for email "@ + email + ": "@ + err
}

fn token_save_message(email: &str, err: &str) -> (res: String)
    ensures
        res@ == token_save_detail(email@, err@),
{
    let mut s = String::from_str("Failed to save new auth token for email ");
    push_str(&mut s, email);
    push_str(&mut s, ": ");
    push_str(&mut s, err);
    assert(s@ =~= token_save_detail(email@, err@));
    s
}

/// A login under way: the email and the hash of the given password.
#[derive(Debug)]
pub struct LoginAttempt {
    pub email: String,
    pub hashed_password: String,
}

/// Starts a login: the password is hashed as stored passwords are.
pub fn login_user(user_data: &UserLoginSignup) -> (res: LoginAttempt)
    ensures
        res.email@ == user_data.email@,
        res.hashed_password@ == hex_digest_of(DigestAlgorithm::Sha256, encode_utf8(user_data.password@)),
{
    LoginAttempt {
        email: user_data.email.clone(),
        hashed_password: hash_password_str(user_data.password.as_str()),
    }
}

impl LoginAttempt {
    /// After looking up the profile of the email: no such user, or an
    /// inactive one, is refused (401); an active one goes on (`None`).
    pub fn check_profile(&self, profile: Result<UserBaseResponse, String>) -> (res: Option<
        LoginResponse,
    >)
        ensures
            match profile {
                Err(_) => res matches Some(LoginResponse::Unauthorized(b)) && b.status@ == "error"@
                    && b.detail@ == no_user_detail(self.email@),
                Ok(p) => if p.is_active {
                    res is None
                } else {
                    res matches Some(LoginResponse::Unauthorized(b)) && b.status@ == "error"@
                        && b.detail@ == inactive_user_detail(self.email@)
                },
            },
    {
        match profile {
            Ok(user) => {
                if !user.is_active {
                    let detail = concat_str("Could not find user active for email ", self.email.as_str());
                    return Some(LoginResponse::Unauthorized(error_body(detail)));
                }
                None
            },
            Err(_) => {
                let detail = concat_str("Could not find user for email ", self.email.as_str());
                Some(LoginResponse::Unauthorized(error_body(detail)))
            },
        }
    }

    /// After loading the active users with this email and password hash:
    /// exactly one logs in with a new token issued under `secret` (to be
    /// saved next); anything else is refused (401).
    pub fn check_matches(&self, rows: Vec<(User, Role)>, secret: &str) -> (res: Result<
        (Auth, UserBaseResponse),
        LoginResponse,
    >)
        ensures
            rows@.len() == 1 ==> (res matches Ok((auth, user)) && auth.user_id == rows@[0].0.id
                && issued_token(auth, rows@[0].0.email@, secret@) && user.id == rows@[0].0.id
                && user.email@ == rows@[0].0.email@ && user.is_active == rows@[0].0.is_active
                && user.role@ == rows@[0].1.name@),
            rows@.len() != 1 ==> (res matches Err(LoginResponse::Unauthorized(b)) && b.status@
                == "error"@ && b.detail@ == no_user_detail(self.email@)),
    {
        if rows.len() == 1 {
            let user = &rows[0].0;
            let role = &rows[0].1;
            let auth = user.to_auth(secret);
            let view = attach_role_to_user(user, role);
            Ok((auth, view))
        } else {
            let detail = concat_str("Could not find user for email ", self.email.as_str());
            Err(LoginResponse::Unauthorized(error_body(detail)))
        }
    }

    /// After saving the new token: a failed save is a bad request (400);
    /// otherwise the login succeeds with the token and the user.
    pub fn finish(&self, saved: Result<(), String>, auth: Auth, user: UserBaseResponse) -> (res:
        LoginResponse)
        ensures
            saved is Ok ==> res == LoginResponse::LoggedIn(ResponseLoginSignup { auth, user }),
            saved matches Err(e) ==> (res matches LoginResponse::BadRequest(b) && b.status@
                == "error"@ && b.detail@ == token_save_detail(self.email@, e@)),
    {
        match saved {
            Ok(()) => LoginResponse::LoggedIn(ResponseLoginSignup { auth: auth, user: user }),
            Err(err) => LoginResponse::BadRequest(
                error_body(token_save_message(self.email.as_str(), err.as_str())),
            ),
        }
    }
}

/// The answers of the signup route.
#[derive(Debug)]
pub enum SignupResponse {
    /// 201: the new token and the user.
    SignedUp(ResponseLoginSignup),
    /// 400: the credentials failed validation.
    Invalid(Vec<FieldFailure>),
    /// 400 with an error body.
    BadRequest(StatusBody),
}

/// The database's answer to inserting a new user (with the error's debug text).
#[derive(Debug)]
pub enum UserInsertOutcome {
    Inserted,
    UniqueViolation(String),
    OtherError(String),
}

/// A signup under way: the email and the hash of the password.
#[derive(Debug)]
pub struct SignupAttempt {
    pub email: String,
    pub hashed_password: String,
}

/// "DB error - record already exists: ..."
pub open spec fn duplicate_user_detail(err: Seq<char>) -> Seq<char> {
    "DB error - record already exists: "@ + err
}

/// "DB error: ..."
pub open spec fn db_error_detail(err: Seq<char>) -> Seq<char> {
    "DB error: "@ + err
}

/// Starts a signup: credentials that fail validation are refused (400);
/// otherwise the password is hashed for storing.
pub fn signup_user(user_data: &UserLoginSignup) -> (res: Result<SignupAttempt, SignupResponse>)
    ensures
        res is Ok <==> signup_failures(user_data.password@, user_data.email@).len() == 0,
        res matches Err(r) ==> (r matches SignupResponse::Invalid(v) && v@.map_values(
            |f: FieldFailure| failure_view(f),
        ) == signup_failures(user_data.password@, user_data.email@)),
        res matches Ok(a) ==> a.email@ == user_data.email@ && a.hashed_password@ == hex_digest_of(
            DigestAlgorithm::Sha256,
            encode_utf8(user_data.password@),
        ),
{
    match user_data.validate() {
        Err(failures) => Err(SignupResponse::Invalid(failures)),
        Ok(()) => Ok(
            SignupAttempt {
                email: user_data.email.clone(),
                hashed_password: hash_password_str(user_data.password.as_str()),
            },
        ),
    }
}

impl SignupAttempt {
    /// After inserting the new user: a duplicate or another database error
    /// is a bad request (400); a stored user goes on (`None`).
    pub fn after_insert(&self, inserted: UserInsertOutcome) -> (res: Option<SignupResponse>)
        ensures
            match inserted {
                UserInsertOutcome::Inserted => res is None,
                UserInsertOutcome::UniqueViolation(e) => res matches Some(SignupResponse::BadRequest(b))
                    && b.status@ == "error"@ && b.detail@ == duplicate_user_detail(e@),
                UserInsertOutcome::OtherError(e) => res matches Some(SignupResponse::BadRequest(b))
                    && b.status@ == "error"@ && b.detail@ == db_error_detail(e@),
            },
    {
        match inserted {
            UserInsertOutcome::Inserted => None,
            UserInsertOutcome::UniqueViolation(err) => Some(
                SignupResponse::BadRequest(
                    error_body(concat_str("DB error - record already exists: ", err.as_str())),
                ),
            ),
            UserInsertOutcome::OtherError(err) => Some(
                SignupResponse::BadRequest(error_body(concat_str("DB error: ", err.as_str()))),
            ),
        }
    }

    /// The role a new user gets: a plain user.
    pub fn new_role(user: &User) -> (res: RoleNew)
        ensures
            res.name@ == ROLE_USER@,
            res.user == Some(user.id),
    {
        RoleNew { name: String::from_str(ROLE_USER), user: Some(user.id) }
    }

    /// After saving the new user's token: a failed save is a bad request
    /// (400); otherwise the signup succeeds with the token and the user.
    pub fn finish(&self, saved: Result<(), String>, auth: Auth, user: &User, role: &Role) -> (res:
        SignupResponse)
        ensures
            saved is Ok ==> (res matches SignupResponse::SignedUp(r) && r.auth == auth && r.user.id
                == user.id && r.user.email@ == user.email@ && r.user.is_active == user.is_active
                && r.user.role@ == role.name@),
            saved matches Err(e) ==> (res matches SignupResponse::BadRequest(b) && b.status@
                == "error"@ && b.detail@ == token_save_detail(user.email@, e@)),
    {
        match saved {
            Ok(()) => SignupResponse::SignedUp(
                ResponseLoginSignup { auth: auth, user: attach_role_to_user(user, role) },
            ),
            Err(err) => SignupResponse::BadRequest(
                error_body(token_save_message(user.email.as_str(), err.as_str())),
            ),
        }
    }
}

/// The public view of each row's user with their role, in order.
pub fn users_payload(rows: &Vec<(User, Role)>) -> (res: Vec<UserBaseResponse>)
    ensures
        res@.len() == rows@.len(),
        forall|i: int|
            0 <= i < rows@.len() ==> (#[trigger] res@[i]).id == rows@[i].0.id && res@[i].email@
                == rows@[i].0.email@ && res@[i].is_active == rows@[i].0.is_active
                && res@[i].role@ == rows@[i].1.name@,
{
    let mut res: Vec<UserBaseResponse> = Vec::new();
    let mut i: usize = 0;
    while i < rows.len()
        invariant
            i <= rows@.len(),
            res@.len() == i,
            forall|j: int|
                0 <= j < i ==> (#[trigger] res@[j]).id == rows@[j].0.id && res@[j].email@
                    == rows@[j].0.email@ && res@[j].is_active == rows@[j].0.is_active
                    && res@[j].role@ == rows@[j].1.name@,
        decreases rows@.len() - i,
    {
        res.push(attach_role_to_user(&rows[i].0, &rows[i].1));
        i = i + 1;
    }
    res
}

/// The user list route: every user with their role (`rows`, in the order
/// stored), or only the active ones when the `active` parameter is given,
/// whatever its value.
pub fn get_users(active: Option<bool>, rows: Vec<(User, Role)>) -> (res: ResponseListUser)
    ensures
        ({
            let selected = if active is Some {
                crate::db::active_rows(rows@)
            } else {
                rows@
            };
            &&& res.users@.len() == selected.len()
            &&& forall|i: int|
                0 <= i < selected.len() ==> (#[trigger] res.users@[i]).id == selected[i].0.id
                    && res.users@[i].email@ == selected[i].0.email@ && res.users@[i].is_active
                    == selected[i].0.is_active && res.users@[i].role@ == selected[i].1.name@
        }),
{
    let selected = match active {
        Some(_) => crate::db::filter_active(rows),
        None => rows,
    };
    ResponseListUser { users: users_payload(&selected) }
}

/// "error retrieving active user id ..."
pub open spec fn missing_user_detail(user_id: int) -> Seq<char> {
    "error retrieving active user id "@ + int_decimal(user_id)
}

/// The user detail route, once the user with their role was looked up
/// (a failure holds the error's text).
pub fn get_user(user_id: i32, lookup: Result<(User, Role), QueryError>) -> (res: Result<
    ResponseUserDetail,
    StatusBody,
>)
    ensures
        match lookup {
            Ok(f) => res matches Ok(d) && d.user.id == f.0.id && d.user.email@ == f.0.email@
                && d.user.is_active == f.0.is_active && d.user.role@ == f.1.name@,
            Err(QueryError::NotFound) => res matches Err(b) && b.status@ == "error"@ && b.detail@
                == missing_user_detail(user_id as int),
            Err(QueryError::Failed(e)) => res matches Err(b) && b.status@ == "error"@ && b.detail@
                == query_error(e@),
        },
{
    match lookup {
        Ok((user, role)) => Ok(ResponseUserDetail { user: attach_role_to_user(&user, &role) }),
        Err(QueryError::NotFound) => {
            let mut detail = String::from_str("error retrieving active user id ");
            push_i64_decimal(&mut detail, user_id as i64);
            Err(error_body(detail))
        },
        Err(QueryError::Failed(err)) => Err(error_body(query_error_message(err.as_str()))),
    }
}

/// A user's own profile edit: only the email changes.
pub fn apply_user_edit(user: User, user_data: &UserEdit) -> (res: User)
    ensures
        res.id == user.id,
        res.password == user.password,
        res.is_active == user.is_active,
        res.email@ == user_data.email@,
{
    let mut user = user;
    user.email = user_data.email.clone();
    user
}

/// "Error updating user ...: ..."
pub open spec fn update_failed_detail(user_id: int, err: Seq<char>) -> Seq<char> {
    "Error updating user "@ + int_decimal(user_id) + ": "@ + err
}

/// The profile edit route, once the edited user was saved: a failed save
/// is a bad request (400), otherwise the answer has no content (204).
pub fn edit_user(user_id: i32, saved: Result<User, String>) -> (res: Result<(), StatusBody>)
    ensures
        saved is Ok ==> res is Ok,
        saved matches Err(e) ==> (res matches Err(b) && b.status@ == "error"@ && b.detail@
            == update_failed_detail(user_id as int, e@)),
{
    match saved {
        Ok(_) => Ok(()),
        Err(err) => {
            let mut detail = String::from_str("Error updating user ");
            push_i64_decimal(&mut detail, user_id as i64);
            push_str(&mut detail, ": ");
            push_str(&mut detail, err.as_str());
            assert(detail@ =~= update_failed_detail(user_id as int, err@));
            Err(error_body(detail))
        },
    }
}

} // verus!
