//! The private cookie that marks a logged-in administrator.
use vstd::prelude::*;
use crate::responses::Outcome;
use crate::text::{
    before_first, first_segment, int_decimal, is_digit, lemma_parse_i32_of_decimal, nat_decimal,
    parse_i32, parse_i32_spec, push_char, push_i64_decimal, push_str,
};

verus! {

/// Why the admin cookie was refused.
#[derive(PartialEq, Eq, Structural, Clone, Copy, Debug)]
pub enum CookieError {
    Expired,
    Invalid,
    Missing,
}

/// The administrator named by the auth cookie.
#[derive(Debug)]
pub struct AdminCookie {
    pub user_id: i32,
}

/// The text of the auth cookie for a user: `<user id>:<role name>`.
pub open spec fn cookie_text(user_id: int, role_name: Seq<char>) -> Seq<char> {
    int_decimal(user_id) + seq![':'] + role_name
}

/// The user id a cookie text names: the number before its first `:`.
pub open spec fn cookie_user_id(value: Seq<char>) -> Option<int> {
    parse_i32_spec(before_first(value, ':'))
}

/// The text of the auth cookie for a user and their role.
pub fn admin_cookie_value(user_id: i32, role_name: &str) -> (res: String)
    ensures
        res@ == cookie_text(user_id as int, role_name@),
{
    let mut s = String::new();
    push_i64_decimal(&mut s, user_id as i64);
    push_char(&mut s, ':');
    push_str(&mut s, role_name);
    assert(s@ =~= cookie_text(user_id as int, role_name@));
    s
}

impl AdminCookie {
    /// The admin guard on the auth cookie's value: no cookie hands the
    /// request to the next route; a cookie names the administrator by the
    /// number before its first `:`.
    pub fn from_cookie_value(value: Option<&str>) -> (res: Outcome<AdminCookie, CookieError>)
        requires
            value matches Some(v) ==> cookie_user_id(v@) is Some,
        ensures
            value is None ==> res == Outcome::<AdminCookie, CookieError>::Forward,
            value matches Some(v) ==> (res matches Outcome::Success(c) && cookie_user_id(v@)
                == Some(c.user_id as int)),
    {
        match value {
            Some(v) => {
                let first = first_segment(v, ':');
                match parse_i32(first.as_str()) {
                    Some(user_id) => Outcome::Success(AdminCookie { user_id: user_id }),
                    None => Outcome::Forward,
                }
            },
            None => Outcome::Forward,
        }
    }
}

proof fn lemma_decimal_has_no_colon(n: int)
    ensures
        forall|i: int| 0 <= i < int_decimal(n).len() ==> #[trigger] int_decimal(n)[i] != ':',
{
    if n < 0 {
        crate::text::lemma_nat_decimal_digits((-n) as nat);
        let d = nat_decimal((-n) as nat);
        assert forall|i: int| 0 <= i < int_decimal(n).len() implies #[trigger] int_decimal(n)[i]
            != ':' by {
            if i > 0 {
                assert(int_decimal(n)[i] == d[i - 1]);
                assert(is_digit(d[i - 1]));
            }
        }
    } else {
        crate::text::lemma_nat_decimal_digits(n as nat);
        let d = nat_decimal(n as nat);
        assert forall|i: int| 0 <= i < int_decimal(n).len() implies #[trigger] int_decimal(n)[i]
            != ':' by {
            assert(is_digit(d[i]));
        }
    }
}

proof fn lemma_before_first_of_concat(a: Seq<char>, b: Seq<char>, sep: char)
    requires
        forall|i: int| 0 <= i < a.len() ==> #[trigger] a[i] != sep,
    ensures
        before_first(a + seq![sep] + b, sep) == a,
    decreases a.len(),
{
    if a.len() == 0 {
        assert((a + seq![sep] + b)[0] == sep);
    } else {
        let t = a.drop_first();
        lemma_before_first_of_concat(t, b, sep);
        assert((a + seq![sep] + b).drop_first() =~= t + seq![sep] + b);
        assert(seq![a[0]] + t =~= a);
    }
}

/// The cookie written for an administrator names that administrator when
/// it is read back.
pub proof fn lemma_cookie_round_trip(user_id: i32, role_name: Seq<char>)
    ensures
        cookie_user_id(cookie_text(user_id as int, role_name)) == Some(user_id as int),
{
    lemma_decimal_has_no_colon(user_id as int);
    lemma_before_first_of_concat(int_decimal(user_id as int), role_name, ':');
    lemma_parse_i32_of_decimal(user_id as int);
}

} // verus!
