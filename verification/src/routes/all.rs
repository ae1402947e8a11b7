//! The index page and the answers to unknown or unauthorized requests.
use vstd::prelude::*;
use crate::models::User;
use crate::responses::{error_body, StatusBody};
use crate::text::{before_first, first_segment, lemma_before_first_shape};

verus! {

/// Answer to a request for an unknown resource (404).
pub fn not_found() -> (res: StatusBody)
    ensures
        res.status@ == "error"@,
        res.detail@ == "Resource was not found."@,
{
    error_body(String::from_str("Resource was not found."))
}

/// Answer to an unauthorized request (401).
pub fn not_authorized() -> (res: StatusBody)
    ensures
        res.status@ == "error"@,
        res.detail@ == "Not authorized"@,
{
    error_body(String::from_str("Not authorized"))
}

/// A user as the index page lists it: the stored record with a user name.
#[derive(Debug)]
pub struct IndexUser {
    pub email: String,
    pub id: i32,
    pub password: String,
    pub username: String,
}

/// The user name shown for an email: the part before its first `@`.
pub open spec fn username_of(email: Seq<char>) -> Seq<char> {
    before_first(email, '@')
}

/// The user name of an email is the email's text up to its first `@`: a
/// prefix of the email holding no `@`, followed by `@` or by the end of the
/// email (so an email without `@` is its own user name, and a `.` before the
/// `@` stays in the name).
pub proof fn lemma_username_is_text_before_at(email: Seq<char>)
    ensures
        username_of(email).len() <= email.len(),
        username_of(email) == email.take(username_of(email).len() as int),
        !username_of(email).contains('@'),
        username_of(email).len() < email.len() ==> email[username_of(email).len() as int] == '@',
        !email.contains('@') ==> username_of(email) == email,
{
    lemma_before_first_shape(email, '@');
    let u = username_of(email);
    if u.contains('@') {
        let i = choose|i: int| 0 <= i < u.len() && u[i] == '@';
        assert(u[i] != '@');
    }
    if !email.contains('@') && u.len() < email.len() {
        assert(email[u.len() as int] == '@');
    }
    if !email.contains('@') {
        assert(email.take(email.len() as int) =~= email);
    }
}

/// The index page: every stored user (`users`, in the order stored) with
/// email, id, password and user name.
pub fn get_index(users: &Vec<User>) -> (res: Vec<IndexUser>)
    ensures
        res@.len() == users@.len(),
        forall|i: int|
            0 <= i < users@.len() ==> (#[trigger] res@[i]).id == users@[i].id && res@[i].email@
                == users@[i].email@ && res@[i].password@ == users@[i].password@
                && res@[i].username@ == username_of(users@[i].email@),
{
    let mut res: Vec<IndexUser> = Vec::new();
    let mut i: usize = 0;
    while i < users.len()
        invariant
            i <= users@.len(),
            res@.len() == i,
            forall|j: int|
                0 <= j < i ==> (#[trigger] res@[j]).id == users@[j].id && res@[j].email@
                    == users@[j].email@ && res@[j].password@ == users@[j].password@
                    && res@[j].username@ == username_of(users@[j].email@),
        decreases users@.len() - i,
    {
        let u = &users[i];
        res.push(
            IndexUser {
                email: u.email.clone(),
                id: u.id,
                password: u.password.clone(),
                username: first_segment(u.email.as_str(), '@'),
            },
        );
        i = i + 1;
    }
    res
}

} // verus!
