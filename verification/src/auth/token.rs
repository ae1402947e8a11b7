//! Auth tokens: how one is made, when it is still valid, and how a user's
//! tokens are trimmed when a new one is saved.
use vstd::prelude::*;
use crate::config::{
    get_now, get_token_duration, generate_password, is_alphanumeric, CLIENT_TYPE_WEB,
    MAX_AUTH_TOKEN, MAX_TIMESTAMP, MIN_TIMESTAMP, NOW_OFFSET_SECS, PASSWORD_LEN,
    TOKEN_LIFETIME_SECS,
};
use crate::responses::{Outcome, Status};
use crate::crypto::{hex_digest_of, sha1_hex_of_str, DigestAlgorithm};
use crate::text::{int_decimal, push_i64_decimal, push_str};
use vstd::utf8::encode_utf8;

verus! {

/// A user's auth token; `exp` is its expiry as a UNIX timestamp (in the
/// service's time, UTC plus one hour).
#[derive(Debug)]
pub struct Auth {
    pub user_id: i32,
    pub exp: i64,
    pub client_id: String,
    pub token: String,
}

/// A stored auth token with its row id.
#[derive(Debug)]
pub struct AuthQ {
    pub id: i32,
    pub user_id: i32,
    pub exp: i64,
    pub client_id: String,
    pub token: String,
}

/// What `chrono::NaiveDateTime`'s `Display` writes for the date and time of
/// a UNIX timestamp (such as `2015-09-05 23:56:04`).
pub uninterp spec fn naive_datetime_text(ts: int) -> Seq<char>;

/// Writes the date and time of `ts` with `chrono::NaiveDateTime`'s `Display`.
/// Trusted: the text is the named one for `ts`; `ts` must lie in chrono's
/// range of dates, where the conversion does not fail.
#[verifier::external_body]
fn naive_datetime_to_string(ts: i64) -> (res: String)
    requires
        MIN_TIMESTAMP <= ts <= MAX_TIMESTAMP,
    ensures
        res@ == naive_datetime_text(ts as int),
{
    chrono::DateTime::from_timestamp(ts, 0).unwrap().naive_utc().to_string()
}

/// The text a token is the digest of: expiry, user id, email, a random
/// string and the server's secret, one after the other.
pub open spec fn token_source(
    exp: int,
    user_id: int,
    email: Seq<char>,
    rnd: Seq<char>,
    secret: Seq<char>,
) -> Seq<char> {
    naive_datetime_text(exp) + int_decimal(user_id) + email + rnd + secret
}

/// A token: the SHA-1 hex digest of the UTF-8 bytes of its source text.
pub open spec fn token_value(
    exp: int,
    user_id: int,
    email: Seq<char>,
    rnd: Seq<char>,
    secret: Seq<char>,
) -> Seq<char> {
    hex_digest_of(DigestAlgorithm::Sha1, encode_utf8(token_source(exp, user_id, email, rnd, secret)))
}

/// A string that `generate_password` can return.
pub open spec fn is_random_password(rnd: Seq<char>) -> bool {
    &&& rnd.len() == PASSWORD_LEN
    &&& forall|i: int| 0 <= i < rnd.len() ==> is_alphanumeric(#[trigger] rnd[i])
}

/// `auth` is a token issued to its user with email `email` under `secret`:
/// web client, a valid expiry, and the digest of its parts with some
/// random password.
pub open spec fn issued_token(auth: Auth, email: Seq<char>, secret: Seq<char>) -> bool {
    &&& auth.client_id@ == CLIENT_TYPE_WEB@
    &&& TOKEN_LIFETIME_SECS <= auth.exp <= MAX_TIMESTAMP
    &&& auth.token@.len() == 40
    &&& exists|rnd: Seq<char>|
        is_random_password(rnd) && #[trigger] token_value(
            auth.exp as int,
            auth.user_id as int,
            email,
            rnd,
            secret,
        ) == auth.token@
}

impl Auth {
    /// The token record for a user, an expiry, a random string and the secret.
    pub fn from_parts(user_id: i32, user_email: &str, exp: i64, rndstr: &str, secret: &str) -> (res:
        Auth)
        requires
            MIN_TIMESTAMP <= exp <= MAX_TIMESTAMP,
        ensures
            res.user_id == user_id,
            res.exp == exp,
            res.client_id@ == CLIENT_TYPE_WEB@,
            res.token@ == token_value(exp as int, user_id as int, user_email@, rndstr@, secret@),
            res.token@.len() == 40,
    {
        let mut value = naive_datetime_to_string(exp);
        push_i64_decimal(&mut value, user_id as i64);
        push_str(&mut value, user_email);
        push_str(&mut value, rndstr);
        push_str(&mut value, secret);
        assert(value@ =~= token_source(exp as int, user_id as int, user_email@, rndstr@, secret@));
        let token = sha1_hex_of_str(value.as_str());
        Auth { exp: exp, user_id: user_id, client_id: String::from_str(CLIENT_TYPE_WEB), token: token }
    }

    /// A new token for a user: it expires 180 days from now and is the digest
    /// of its expiry, the user, a fresh random password and the secret.
    pub fn new(user_id: i32, user_email: &str, secret: &str) -> (res: Auth)
        ensures
            res.user_id == user_id,
            issued_token(res, user_email@, secret@),
    {
        let exp = get_token_duration();
        let rndstr = generate_password();
        let res = Self::from_parts(user_id, user_email, exp, rndstr.as_str(), secret);
        assert(is_random_password(rndstr@));
        assert(token_value(exp as int, user_id as int, user_email@, rndstr@, secret@) == res.token@);
        res
    }
}

/// Why the token guard refused a request.
#[derive(PartialEq, Eq, Structural, Clone, Copy, Debug)]
pub enum ApiKeyError {
    Missing,
}

impl Auth {
    /// The token guard, given the auth extracted from the request: a request
    /// without a valid token is unauthorized.
    pub fn guard(auth: Option<Auth>) -> (res: Outcome<Auth, ApiKeyError>)
        ensures
            match auth {
                Some(a) => res == Outcome::<Auth, ApiKeyError>::Success(a),
                None => res == Outcome::<Auth, ApiKeyError>::Failure(
                    Status::Unauthorized,
                    ApiKeyError::Missing,
                ),
            },
    {
        match auth {
            Some(a) => Outcome::Success(a),
            None => Outcome::Failure(Status::Unauthorized, ApiKeyError::Missing),
        }
    }
}

/// A token expiring at `exp` is still valid at `now`.
pub open spec fn token_valid_at(exp: int, now: int) -> bool {
    now <= exp
}

/// The token of a stored record, if it is valid at `now`.
pub fn auth_if_valid(record: AuthQ, now: i64) -> (res: Option<Auth>)
    ensures
        res is Some <==> token_valid_at(record.exp as int, now as int),
        res matches Some(a) ==> a.user_id == record.user_id && a.exp == record.exp
            && a.client_id == record.client_id && a.token == record.token,
{
    if now <= record.exp {
        Some(Auth {
            exp: record.exp,
            user_id: record.user_id,
            client_id: record.client_id,
            token: record.token,
        })
    } else {
        None
    }
}

/// Whether a token expiring at `exp` is still valid at the reading `now`.
pub fn token_still_valid(exp: i64, now: i64) -> (res: bool)
    ensures
        res == token_valid_at(exp as int, now as int),
{
    now <= exp
}

/// Whether a stored token is still valid now (true while it has not
/// expired): `token_still_valid` at the clock reading taken.
pub fn is_expired_token(auth: &AuthQ) -> (res: bool)
    ensures
        exists|now: int|
            NOW_OFFSET_SECS <= now <= MAX_TIMESTAMP && res == token_valid_at(auth.exp as int, now),
{
    let now = get_now();
    token_still_valid(auth.exp, now)
}

/// The auth of a request, given the stored record (if any) of the token that
/// the request's `authorization` header carries: the record's token if it is
/// still valid now, nothing otherwise.
pub fn extract_auth_from_request(record: Option<AuthQ>) -> (res: Option<Auth>)
    ensures
        record is None ==> res is None,
        record matches Some(r) ==> exists|now: int|
            NOW_OFFSET_SECS <= now <= MAX_TIMESTAMP && (res is Some <==> token_valid_at(
                r.exp as int,
                now,
            )),
        res matches Some(a) ==> record matches Some(r) && a.user_id == r.user_id && a.exp == r.exp
            && a.client_id == r.client_id && a.token == r.token,
{
    match record {
        None => None,
        Some(r) => {
            let now = get_now();
            auth_if_valid(r, now)
        },
    }
}

/// Error of saving a token that is already stored.
pub const UNIQUE_VIOLATION_ERROR: &'static str =
    "auth:save_auth_token Error saving token (Uniqueviolation)";

/// Error of a token deletion that the database reports as failed.
pub const TOKENS_DELETE_FAILED: &'static str = "Tokens delete failed (for reasons...)";

/// The database's answer to inserting a new token.
#[derive(PartialEq, Eq, Structural, Clone, Copy, Debug)]
pub enum InsertOutcome {
    Inserted,
    UniqueViolation,
    OtherError,
}

/// What follows the insertion of a new token.
#[derive(Debug)]
pub enum SaveTokenNext {
    /// Saving failed with this error.
    Failed(&'static str),
    /// Load the ids and expiries of this user's tokens, oldest first, and trim them.
    LoadTokens { user_id: i32 },
}

/// Saving a new token, once the database has answered the insertion: a
/// token already stored fails the save; any other answer goes on to trim
/// the user's tokens (other insertion errors are passed over).
pub fn save_auth_token(auth: &Auth, inserted: InsertOutcome) -> (res: SaveTokenNext)
    ensures
        inserted == InsertOutcome::UniqueViolation ==> res == SaveTokenNext::Failed(
            UNIQUE_VIOLATION_ERROR,
        ),
        inserted != InsertOutcome::UniqueViolation ==> res == (SaveTokenNext::LoadTokens {
            user_id: auth.user_id,
        }),
{
    if inserted == InsertOutcome::UniqueViolation {
        SaveTokenNext::Failed(UNIQUE_VIOLATION_ERROR)
    } else {
        SaveTokenNext::LoadTokens { user_id: auth.user_id }
    }
}

/// The number of oldest tokens beyond the allowed count.
pub open spec fn excess_count(tokens: Seq<(i32, i64)>) -> int {
    if tokens.len() > MAX_AUTH_TOKEN {
        tokens.len() - MAX_AUTH_TOKEN
    } else {
        0
    }
}

/// The ids of the tokens to trim from a user's tokens (oldest first): all
/// but the last `MAX_AUTH_TOKEN`.
pub open spec fn excess_ids(tokens: Seq<(i32, i64)>) -> Seq<i32> {
    tokens.take(excess_count(tokens)).map_values(|t: (i32, i64)| t.0)
}

/// The ids of the tokens in excess among a user's tokens, oldest first.
pub fn tokens_in_excess(auth_tokens: &Vec<(i32, i64)>) -> (res: Vec<i32>)
    ensures
        res@ == excess_ids(auth_tokens@),
{
    let n = auth_tokens.len();
    let mut res: Vec<i32> = Vec::new();
    if n > MAX_AUTH_TOKEN as usize {
        let k: usize = n - (MAX_AUTH_TOKEN as usize);
        let mut i: usize = 0;
        while i < k
            invariant
                k == excess_count(auth_tokens@),
                k <= n,
                n == auth_tokens@.len(),
                i <= k,
                res@ == auth_tokens@.take(i as int).map_values(|t: (i32, i64)| t.0),
            decreases k - i,
        {
            res.push(auth_tokens[i].0);
            assert(res@ =~= auth_tokens@.take(i + 1).map_values(|t: (i32, i64)| t.0));
            i = i + 1;
        }
        assert(res@ =~= excess_ids(auth_tokens@));
    } else {
        assert(res@ =~= excess_ids(auth_tokens@));
    }
    res
}

/// Whether a deletion count means failure: the service counts a deletion as
/// failed when the bitwise complement of the count is 1.
pub fn delete_reports_failure(deleted: usize) -> (res: bool)
    ensures
        res == (deleted == usize::MAX - 1),
{
    let res = 1 == !deleted;
    assert((1usize == !deleted) == (deleted == !1usize)) by (bit_vector);
    assert(usize::BITS == 64 ==> (!1usize) as u64 == 0xffff_ffff_ffff_fffeu64) by (bit_vector);
    assert(usize::BITS == 32 ==> (!1usize) as u32 == 0xffff_fffeu32) by (bit_vector);
    res
}

/// The trimming of a user's tokens: first every token (of any user) that
/// expired before `expired_before`, then the user's tokens in excess.
#[derive(Debug)]
pub struct TrimPlan {
    pub user_id: i32,
    pub expired_before: i64,
    pub excess: Vec<i32>,
}

/// What follows a deletion while trimming.
#[derive(Debug)]
pub enum TrimNext {
    /// Trimming failed with this error.
    Failed(&'static str),
    /// Delete the tokens with these ids.
    DeleteExcess(Vec<i32>),
    /// Trimming is over.
    Finished,
}

/// The trim plan for a user's tokens (oldest first) at time `now`.
pub fn trim_tokens_at(user_id: i32, auth_tokens: &Vec<(i32, i64)>, now: i64) -> (res: TrimPlan)
    ensures
        res.user_id == user_id,
        res.expired_before == now,
        res.excess@ == excess_ids(auth_tokens@),
{
    TrimPlan { user_id: user_id, expired_before: now, excess: tokens_in_excess(auth_tokens) }
}

/// The trim plan for a user's tokens (oldest first), now.
pub fn trim_tokens(user_id: i32, auth_tokens: &Vec<(i32, i64)>) -> (res: TrimPlan)
    ensures
        res.user_id == user_id,
        NOW_OFFSET_SECS <= res.expired_before <= MAX_TIMESTAMP,
        res.excess@ == excess_ids(auth_tokens@),
{
    let now = get_now();
    trim_tokens_at(user_id, auth_tokens, now)
}

impl TrimPlan {
    /// After the expired tokens were deleted (`deleted` rows): fail on a
    /// count reported as failure, else delete the excess, if any.
    pub fn after_expired_deleted(&self, deleted: usize) -> (res: TrimNext)
        ensures
            deleted == usize::MAX - 1 ==> res == TrimNext::Failed(TOKENS_DELETE_FAILED),
            deleted != usize::MAX - 1 && self.excess@.len() > 0 ==> (res matches TrimNext::DeleteExcess(ids) && ids@ == self.excess@),
            deleted != usize::MAX - 1 && self.excess@.len() == 0 ==> res == TrimNext::Finished,
    {
        if delete_reports_failure(deleted) {
            TrimNext::Failed(TOKENS_DELETE_FAILED)
        } else if self.excess.len() > 0 {
            TrimNext::DeleteExcess(self.excess.clone())
        } else {
            TrimNext::Finished
        }
    }

    /// After the tokens in excess were deleted (`deleted` rows).
    pub fn after_excess_deleted(&self, deleted: usize) -> (res: Result<(), &'static str>)
        ensures
            res == (if deleted == usize::MAX - 1 {
                Err(TOKENS_DELETE_FAILED)
            } else {
                Ok(())
            }),
    {
        if delete_reports_failure(deleted) {
            Err(TOKENS_DELETE_FAILED)
        } else {
            Ok(())
        }
    }
}

/// The tokens that survive a trim at `now`: not expired, and not in excess.
pub open spec fn kept_after_trim(tokens: Seq<(i32, i64)>, now: int) -> Seq<(i32, i64)> {
    tokens.filter(|t: (i32, i64)| t.1 >= now && !excess_ids(tokens).contains(t.0))
}

/// No two tokens share an id.
pub open spec fn distinct_ids(tokens: Seq<(i32, i64)>) -> bool {
    forall|i: int, j: int|
        0 <= i < tokens.len() && 0 <= j < tokens.len() && i != j ==> #[trigger] tokens[i].0
            != #[trigger] tokens[j].0
}

proof fn lemma_filter_all_kept(s: Seq<(i32, i64)>, p: spec_fn((i32, i64)) -> bool)
    requires
        forall|i: int| 0 <= i < s.len() ==> #[trigger] p(s[i]),
    ensures
        s.filter(p) == s,
    decreases s.len(),
{
    reveal(Seq::filter);
    if s.len() > 0 {
        lemma_filter_all_kept(s.drop_last(), p);
        assert(p(s[s.len() - 1]));
        assert(s.drop_last().push(s.last()) =~= s);
    }
}

/// Trimming leaves a user at most `MAX_AUTH_TOKEN` tokens.
pub proof fn lemma_trim_bounds_tokens(tokens: Seq<(i32, i64)>, now: int)
    ensures
        kept_after_trim(tokens, now).len() <= MAX_AUTH_TOKEN,
{
    let k = excess_count(tokens);
    let p = |t: (i32, i64)| t.1 >= now && !excess_ids(tokens).contains(t.0);
    let a = tokens.take(k);
    let b = tokens.skip(k);
    assert(a + b =~= tokens);
    Seq::filter_distributes_over_add(a, b, p);
    assert forall|i: int| 0 <= i < a.len() implies !p(a[i]) by {
        assert(excess_ids(tokens)[i] == a[i].0);
    }
    assert(a.all(|x: (i32, i64)| !p(x)));
    a.lemma_all_neg_filter_empty(p);
    b.lemma_filter_len(p);
}

/// Trimming keeps every unexpired token among the newest `MAX_AUTH_TOKEN`.
pub proof fn lemma_trim_keeps_newest(tokens: Seq<(i32, i64)>, now: int, i: int)
    requires
        distinct_ids(tokens),
        excess_count(tokens) <= i < tokens.len(),
        tokens[i].1 >= now,
    ensures
        kept_after_trim(tokens, now).contains(tokens[i]),
{
    let p = |t: (i32, i64)| t.1 >= now && !excess_ids(tokens).contains(t.0);
    let ex = excess_ids(tokens);
    if ex.contains(tokens[i].0) {
        let j = choose|j: int| 0 <= j < ex.len() && ex[j] == tokens[i].0;
        assert(ex[j] == tokens[j].0);
        assert(false);
    }
    tokens.lemma_filter_contains(p, i);
}

/// When none of a user's tokens has expired and they hold at least
/// `MAX_AUTH_TOKEN`, exactly `MAX_AUTH_TOKEN` remain after the trim.
pub proof fn lemma_trim_exactly_max(tokens: Seq<(i32, i64)>, now: int)
    requires
        distinct_ids(tokens),
        tokens.len() >= MAX_AUTH_TOKEN,
        forall|i: int| 0 <= i < tokens.len() ==> #[trigger] tokens[i].1 >= now,
    ensures
        kept_after_trim(tokens, now).len() == MAX_AUTH_TOKEN,
{
    let k = excess_count(tokens);
    let ex = excess_ids(tokens);
    let p = |t: (i32, i64)| t.1 >= now && !ex.contains(t.0);
    let a = tokens.take(k);
    let b = tokens.skip(k);
    assert(a + b =~= tokens);
    Seq::filter_distributes_over_add(a, b, p);
    assert forall|i: int| 0 <= i < a.len() implies !p(a[i]) by {
        assert(ex[i] == a[i].0);
    }
    assert(a.all(|x: (i32, i64)| !p(x)));
    a.lemma_all_neg_filter_empty(p);
    assert forall|i: int| 0 <= i < b.len() implies #[trigger] p(b[i]) by {
        assert(b[i] == tokens[i + k]);
        assert(tokens[i + k].1 >= now);
        if ex.contains(b[i].0) {
            let j = choose|j: int| 0 <= j < ex.len() && ex[j] == b[i].0;
            assert(ex[j] == tokens[j].0);
            assert(false);
        }
    }
    lemma_filter_all_kept(b, p);
    assert(a.filter(p) =~= Seq::<(i32, i64)>::empty());
}

/// The tokens still valid at `now`, in their order.
pub open spec fn unexpired(tokens: Seq<(i32, i64)>, now: int) -> Seq<(i32, i64)> {
    tokens.filter(|t: (i32, i64)| t.1 >= now)
}

/// Tokens listed oldest first: by expiry, ascending.
pub open spec fn sorted_by_expiry(tokens: Seq<(i32, i64)>) -> bool {
    forall|i: int, j: int| 0 <= i <= j < tokens.len() ==> #[trigger] tokens[i].1 <= #[trigger] tokens[j].1
}

proof fn lemma_filter_congruent(
    s: Seq<(i32, i64)>,
    p: spec_fn((i32, i64)) -> bool,
    q: spec_fn((i32, i64)) -> bool,
)
    requires
        forall|i: int| 0 <= i < s.len() ==> #[trigger] p(s[i]) == q(s[i]),
    ensures
        s.filter(p) == s.filter(q),
    decreases s.len(),
{
    reveal(Seq::filter);
    if s.len() > 0 {
        let t = s.drop_last();
        assert forall|i: int| 0 <= i < t.len() implies #[trigger] p(t[i]) == q(t[i]) by {
            assert(t[i] == s[i]);
        }
        lemma_filter_congruent(t, p, q);
        assert(p(s[s.len() - 1]) == q(s[s.len() - 1]));
    }
}

/// Trimming a user's tokens, listed oldest first, leaves exactly as many as
/// are still valid, up to `MAX_AUTH_TOKEN`: so after saving a new token a
/// user holds the smaller of five and the number of unexpired tokens.
pub proof fn lemma_trim_count(tokens: Seq<(i32, i64)>, now: int)
    requires
        distinct_ids(tokens),
        sorted_by_expiry(tokens),
    ensures
        kept_after_trim(tokens, now).len() == (if unexpired(tokens, now).len() < MAX_AUTH_TOKEN {
            unexpired(tokens, now).len() as int
        } else {
            MAX_AUTH_TOKEN as int
        }),
{
    let k = excess_count(tokens);
    let ex = excess_ids(tokens);
    let p = |t: (i32, i64)| t.1 >= now && !ex.contains(t.0);
    let q = |t: (i32, i64)| t.1 >= now;
    let a = tokens.take(k);
    let b = tokens.skip(k);
    assert(a + b =~= tokens);
    Seq::filter_distributes_over_add(a, b, p);
    Seq::filter_distributes_over_add(a, b, q);
    assert forall|i: int| 0 <= i < a.len() implies !p(a[i]) by {
        assert(ex[i] == a[i].0);
    }
    assert(a.all(|x: (i32, i64)| !p(x)));
    a.lemma_all_neg_filter_empty(p);
    assert forall|i: int| 0 <= i < b.len() implies #[trigger] p(b[i]) == q(b[i]) by {
        assert(b[i] == tokens[i + k]);
        if ex.contains(b[i].0) {
            let j = choose|j: int| 0 <= j < ex.len() && ex[j] == b[i].0;
            assert(ex[j] == tokens[j].0);
            assert(false);
        }
    }
    lemma_filter_congruent(b, p, q);
    assert(a.filter(p) =~= Seq::<(i32, i64)>::empty());
    assert(kept_after_trim(tokens, now) == b.filter(q));
    assert(unexpired(tokens, now) == a.filter(q) + b.filter(q));
    b.lemma_filter_len(q);
    if exists|i: int| 0 <= i < a.len() && q(a[i]) {
        let i = choose|i: int| 0 <= i < a.len() && q(a[i]);
        assert forall|j: int| 0 <= j < b.len() implies #[trigger] q(b[j]) by {
            assert(a[i] == tokens[i]);
            assert(b[j] == tokens[j + k]);
            assert(tokens[i].1 <= tokens[j + k].1);
        }
        lemma_filter_all_kept(b, q);
    } else {
        assert(a.all(|x: (i32, i64)| !q(x)));
        a.lemma_all_neg_filter_empty(q);
        assert(a.filter(q) =~= Seq::<(i32, i64)>::empty());
    }
}

/// A token issued at a reading of the clock is still valid when checked at
/// that same reading: its expiry lies 180 days ahead, the check's "now" one hour.
pub proof fn lemma_fresh_token_valid(utc_now: int)
    ensures
        token_valid_at(utc_now + TOKEN_LIFETIME_SECS, utc_now + NOW_OFFSET_SECS),
{
}

/// A token is valid up to and including its expiry second, and not after.
pub proof fn lemma_token_valid_until_expiry(exp: int, now: int)
    ensures
        token_valid_at(exp, now) <==> now <= exp,
        token_valid_at(exp, exp),
        !token_valid_at(exp, exp + 1),
{
}

} // verus!
