//! What the service makes of the database's answers to its queries.
use vstd::prelude::*;
use crate::models::{Role, RoleNew, User};
use crate::serializers::user::UserBaseResponse;
use crate::text::{int_decimal, push_i64_decimal, push_str};
use crate::utils::attach_role_to_user;

verus! {

/// A failed query: no matching record, or another error with its text.
#[derive(Debug)]
pub enum QueryError {
    NotFound,
    Failed(String),
}

/// The message of a failed user lookup.
pub open spec fn user_retrieval_error(user_id: int, err: Seq<char>) -> Seq<char> {
    "user "@ + int_decimal(user_id) + " retrieval failed: "@ + err
}

/// The message of a failed query.
pub open spec fn query_error(err: Seq<char>) -> Seq<char> {
    "error executing query: "@ + err
}

/// The message of a missing active user.
pub open spec fn missing_active_user(email: Seq<char>) -> Seq<char> {
    "error retrieving active user email "@ + email
}

/// "error executing query: " followed by the error's text.
pub fn query_error_message(err: &str) -> (res: String)
    ensures
        res@ == query_error(err@),
{
    let mut s = String::from_str("error executing query: ");
    push_str(&mut s, err);
    s
}

/// "error retrieving active user email " followed by the email.
fn missing_active_user_message(email: &str) -> (res: String)
    ensures
        res@ == missing_active_user(email@),
{
    let mut s = String::from_str("error retrieving active user email ");
    push_str(&mut s, email);
    s
}

/// A user looked up by id (`lookup` holds the error's text on failure).
pub fn get_user(user_id: i32, lookup: Result<User, String>) -> (res: Result<User, String>)
    ensures
        lookup is Ok ==> res == lookup,
        lookup matches Err(e) ==> (res matches Err(m) && m@ == user_retrieval_error(
            user_id as int,
            e@,
        )),
{
    match lookup {
        Ok(user) => Ok(user),
        Err(err) => {
            let mut s = String::from_str("user ");
            push_i64_decimal(&mut s, user_id as i64);
            push_str(&mut s, " retrieval failed: ");
            push_str(&mut s, err.as_str());
            assert(s@ =~= user_retrieval_error(user_id as int, err@));
            Err(s)
        },
    }
}

/// The rows whose user is active, in their order.
pub open spec fn active_rows(rows: Seq<(User, Role)>) -> Seq<(User, Role)> {
    rows.filter(is_active_row())
}

/// A row whose user is active.
pub open spec fn is_active_row() -> spec_fn((User, Role)) -> bool {
    |r: (User, Role)| r.0.is_active
}

/// The active rows are exactly the rows whose user is active: every listed
/// row is one of the rows and its user is active, and every row whose user
/// is active is listed.
pub proof fn lemma_active_rows_exact(rows: Seq<(User, Role)>)
    ensures
        active_rows(rows).len() <= rows.len(),
        forall|i: int|
            0 <= i < active_rows(rows).len() ==> (#[trigger] active_rows(rows)[i]).0.is_active
                && rows.contains(active_rows(rows)[i]),
        forall|j: int|
            0 <= j < rows.len() && (#[trigger] rows[j]).0.is_active ==> active_rows(rows).contains(
                rows[j],
            ),
{
    let p = is_active_row();
    rows.lemma_filter_len(p);
    assert forall|i: int| 0 <= i < active_rows(rows).len() implies (#[trigger] active_rows(
        rows,
    )[i]).0.is_active && rows.contains(active_rows(rows)[i]) by {
        rows.lemma_filter_pred(p, i);
        assert(active_rows(rows).contains(active_rows(rows)[i]));
        rows.lemma_filter_contains_rev(p, active_rows(rows)[i]);
    }
    assert forall|j: int| 0 <= j < rows.len() && (#[trigger] rows[j]).0.is_active implies active_rows(
        rows,
    ).contains(rows[j]) by {
        rows.lemma_filter_contains(p, j);
    }
}

/// Keeps the rows of active users, in their order.
pub fn filter_active(rows: Vec<(User, Role)>) -> (res: Vec<(User, Role)>)
    ensures
        res@ == active_rows(rows@),
{
    broadcast use vstd::std_specs::vec::axiom_spec_into_iter;
    broadcast use Seq::lemma_filter_push;

    let ghost all = rows@;
    let mut kept: Vec<(User, Role)> = Vec::new();
    for row in it: rows.into_iter()
        invariant
            it.seq() == all,
            kept@ == all.take(it.index()).filter(is_active_row()),
    {
        assert(row == all[it.index() as int]);
        assert(all.take(it.index() + 1) =~= all.take(it.index()).push(row));
        proof {
            all.take(it.index()).lemma_filter_push(row, is_active_row());
        }
        if row.0.is_active {
            kept.push(row);
        }
    }
    assert(all.take(all.len() as int) =~= all);
    kept
}

/// The list of users with their roles: all of them, or only the active
/// ones when `only_active` (`rows` is every user joined with their role).
pub fn get_user_list(only_active: bool, rows: Result<Vec<(User, Role)>, String>) -> (res: Result<
    Vec<(User, Role)>,
    String,
>)
    ensures
        rows matches Ok(r) ==> (res matches Ok(v) && v@ == (if only_active {
            active_rows(r@)
        } else {
            r@
        })),
        rows matches Err(e) ==> (res matches Err(m) && m@ == query_error(e@)),
{
    match rows {
        Ok(r) => {
            if only_active {
                Ok(filter_active(r))
            } else {
                Ok(r)
            }
        },
        Err(err) => Err(query_error_message(err.as_str())),
    }
}

/// The active user with an email and password hash, with their role.
pub fn get_active_user(email: &str, lookup: Result<(User, Role), QueryError>) -> (res: Result<
    (User, Role),
    String,
>)
    ensures
        match lookup {
            Ok(f) => res == Ok::<(User, Role), String>(f),
            Err(QueryError::NotFound) => res matches Err(m) && m@ == missing_active_user(email@),
            Err(QueryError::Failed(e)) => res matches Err(m) && m@ == query_error(e@),
        },
{
    match lookup {
        Ok(found) => Ok(found),
        Err(QueryError::NotFound) => Err(missing_active_user_message(email)),
        Err(QueryError::Failed(err)) => Err(query_error_message(err.as_str())),
    }
}

/// The profile of the user with an email: the user with their role name.
pub fn get_user_profile(email: &str, lookup: Result<(User, Role), QueryError>) -> (res: Result<
    UserBaseResponse,
    String,
>)
    ensures
        match lookup {
            Ok(f) => res matches Ok(p) && p.id == f.0.id && p.email@ == f.0.email@ && p.is_active
                == f.0.is_active && p.role@ == f.1.name@,
            Err(QueryError::NotFound) => res matches Err(m) && m@ == missing_active_user(email@),
            Err(QueryError::Failed(e)) => res matches Err(m) && m@ == query_error(e@),
        },
{
    match lookup {
        Ok((user, role)) => Ok(attach_role_to_user(&user, &role)),
        Err(QueryError::NotFound) => Err(missing_active_user_message(email)),
        Err(QueryError::Failed(err)) => Err(query_error_message(err.as_str())),
    }
}

/// The message of a failed update of a user.
pub open spec fn user_update_error(err: Seq<char>) -> Seq<char> {
    "Error in user update: "@ + err
}

/// The message of a failed update of a role.
pub open spec fn role_update_error(err: Seq<char>) -> Seq<char> {
    "Error in role update: "@ + err
}

/// The outcome of saving a changed user (`saved` holds the error's debug
/// text on failure); a user that is not stored cannot be updated.
pub fn update_user(saved: Result<User, QueryError>) -> (res: Result<User, String>)
    requires
        !(saved matches Err(QueryError::NotFound)),
    ensures
        match saved {
            Ok(u) => res == Ok::<User, String>(u),
            Err(QueryError::Failed(e)) => res matches Err(m) && m@ == user_update_error(e@),
            Err(QueryError::NotFound) => false,
        },
{
    match saved {
        Ok(user) => Ok(user),
        Err(QueryError::Failed(err)) => {
            let mut s = String::from_str("Error in user update: ");
            push_str(&mut s, err.as_str());
            Err(s)
        },
        Err(QueryError::NotFound) => Err(String::new()),
    }
}

/// The outcome of saving a changed role (`saved` holds the error's debug
/// text on failure).
pub fn update_role(saved: Result<Role, String>) -> (res: Result<Role, String>)
    ensures
        match saved {
            Ok(r) => res == Ok::<Role, String>(r),
            Err(e) => res matches Err(m) && m@ == role_update_error(e@),
        },
{
    match saved {
        Ok(role) => Ok(role),
        Err(err) => {
            let mut s = String::from_str("Error in role update: ");
            push_str(&mut s, err.as_str());
            Err(s)
        },
    }
}

/// After inserting a new role: the id of the user whose role to read back,
/// or nothing when the insertion failed.
pub fn add_role(role_data: &RoleNew, inserted: bool) -> (res: Option<i32>)
    requires
        inserted ==> role_data.user is Some,
    ensures
        res == (if inserted {
            role_data.user
        } else {
            None
        }),
{
    if inserted {
        role_data.user
    } else {
        None
    }
}

} // verus!
