use open_taffeta::auth::token::ApiKeyError;
use open_taffeta::responses::{Outcome, Status};
use open_taffeta::auth::token::{
    auth_if_valid, delete_reports_failure, extract_auth_from_request, is_expired_token,
    save_auth_token, token_still_valid, tokens_in_excess, trim_tokens, trim_tokens_at, Auth, AuthQ, InsertOutcome,
    SaveTokenNext, TrimNext, TOKENS_DELETE_FAILED, UNIQUE_VIOLATION_ERROR,
};
use open_taffeta::config::{
    generate_password, get_now, get_token_duration, MAX_AUTH_TOKEN, NOW_OFFSET_SECS,
    TOKEN_LIFETIME_SECS,
};

fn record(exp: i64) -> AuthQ {
    AuthQ { id: 1, user_id: 9, exp, client_id: "client-type-web".to_string(), token: "t".to_string() }
}

fn unix_now() -> i64 {
    std::time::SystemTime::now().duration_since(std::time::UNIX_EPOCH).unwrap().as_secs() as i64
}

#[test]
fn token_from_parts_is_sha1_of_its_parts() {
    let a = Auth::from_parts(7, "josh@domain.com", 1431648000, &"A".repeat(30), "123456");
    assert_eq!(a.user_id, 7);
    assert_eq!(a.exp, 1431648000);
    assert_eq!(a.client_id, "client-type-web");
    assert_eq!(a.token, "a2b73140a96bf313625668e3326bf4bc2b7d9966");
}

#[test]
fn token_from_parts_encodes_utf8_and_negative_ids() {
    let a = Auth::from_parts(-3, "é@x.de", 0, &"z".repeat(30), "s3cr3t");
    assert_eq!(a.token, "612ec0080630fd00ae6ae61a78ea1804ff087cb3");
}

#[test]
fn new_token_expires_in_180_days() {
    let before = unix_now();
    let a = Auth::new(3, "a@b.cd", "secret");
    let after = unix_now();
    assert_eq!(a.user_id, 3);
    assert_eq!(a.client_id, "client-type-web");
    assert_eq!(a.token.len(), 40);
    assert!(a.token.chars().all(|c| c.is_ascii_hexdigit() && !c.is_ascii_uppercase()));
    assert!(before + TOKEN_LIFETIME_SECS <= a.exp && a.exp <= after + TOKEN_LIFETIME_SECS);
}

#[test]
fn new_tokens_differ() {
    let a = Auth::new(3, "a@b.cd", "secret");
    let b = Auth::new(3, "a@b.cd", "secret");
    assert_ne!(a.token, b.token);
}

#[test]
fn clock_reads_are_offset_from_utc() {
    let before = unix_now();
    let now = get_now();
    let exp = get_token_duration();
    let after = unix_now();
    assert!(before + NOW_OFFSET_SECS <= now && now <= after + NOW_OFFSET_SECS);
    assert!(before + TOKEN_LIFETIME_SECS <= exp && exp <= after + TOKEN_LIFETIME_SECS);
}

#[test]
fn generated_password_is_30_alphanumerics() {
    let p = generate_password();
    assert_eq!(p.chars().count(), 30);
    assert!(p.chars().all(|c| c.is_ascii_alphanumeric()));
    assert_ne!(p, generate_password());
}

#[test]
fn token_valid_until_its_expiry_second() {
    let t = 1_000_000;
    let a = auth_if_valid(record(t), t).expect("valid at expiry");
    assert_eq!((a.user_id, a.exp, a.token.as_str()), (9, t, "t"));
    assert!(auth_if_valid(record(t), t - 1).is_some());
    assert!(auth_if_valid(record(t), t + 1).is_none());
}

#[test]
fn expired_and_fresh_tokens_now() {
    // 2015-09-05 23:56:04, long expired
    assert!(!is_expired_token(&record(1441497364)));
    assert!(is_expired_token(&record(unix_now() + 2 * 3600 + 60)));
    assert!(!is_expired_token(&record(unix_now() + 3600 - 60)));
    assert!(extract_auth_from_request(None).is_none());
    assert!(extract_auth_from_request(Some(record(1441497364))).is_none());
    let a = extract_auth_from_request(Some(record(unix_now() + 180 * 86400))).unwrap();
    assert_eq!(a.user_id, 9);
}

#[test]
fn saving_a_duplicate_token_fails() {
    let a = Auth::from_parts(4, "e@f.gh", 0, "r", "s");
    assert!(matches!(save_auth_token(&a, InsertOutcome::UniqueViolation), SaveTokenNext::Failed(m) if m == UNIQUE_VIOLATION_ERROR));
    assert!(matches!(save_auth_token(&a, InsertOutcome::Inserted), SaveTokenNext::LoadTokens { user_id: 4 }));
    assert!(matches!(save_auth_token(&a, InsertOutcome::OtherError), SaveTokenNext::LoadTokens { user_id: 4 }));
}

#[test]
fn excess_is_the_oldest_beyond_max() {
    let tokens: Vec<(i32, i64)> = (1..=7).map(|i| (i * 10, i as i64)).collect();
    assert_eq!(tokens_in_excess(&tokens), vec![10, 20]);
    let five: Vec<(i32, i64)> = (1..=5).map(|i| (i, i as i64)).collect();
    assert!(tokens_in_excess(&five).is_empty());
    assert!(tokens_in_excess(&Vec::new()).is_empty());
    assert_eq!(MAX_AUTH_TOKEN, 5);
}

#[test]
fn only_the_complement_one_count_is_a_failure() {
    assert!(delete_reports_failure(usize::MAX - 1));
    assert!(!delete_reports_failure(0));
    assert!(!delete_reports_failure(1));
    assert!(!delete_reports_failure(usize::MAX));
}

#[test]
fn trimming_rotates_tokens() {
    let tokens: Vec<(i32, i64)> = (1..=27).map(|i| (i, 1000 + i as i64)).collect();
    let plan = trim_tokens_at(8, &tokens, 500);
    assert_eq!(plan.user_id, 8);
    assert_eq!(plan.expired_before, 500);
    assert_eq!(plan.excess, (1..=22).collect::<Vec<i32>>());
    match plan.after_expired_deleted(0) {
        TrimNext::DeleteExcess(ids) => assert_eq!(ids.len(), 22),
        other => panic!("unexpected {:?}", other),
    }
    assert_eq!(plan.after_excess_deleted(22), Ok(()));
    assert_eq!(plan.after_excess_deleted(usize::MAX - 1), Err(TOKENS_DELETE_FAILED));
    assert!(matches!(plan.after_expired_deleted(usize::MAX - 1), TrimNext::Failed(m) if m == TOKENS_DELETE_FAILED));
    let few = trim_tokens(8, &vec![(1, 5), (2, 6)]);
    assert!(few.excess.is_empty());
    assert!(matches!(few.after_expired_deleted(3), TrimNext::Finished));
}

#[test]
fn token_guard_needs_a_token() {
    assert!(matches!(Auth::guard(None), Outcome::Failure(Status::Unauthorized, ApiKeyError::Missing)));
    let a = Auth::from_parts(1, "a@b.c", 0, "r", "s");
    assert!(matches!(Auth::guard(Some(a)), Outcome::Success(x) if x.user_id == 1));
}

/// What a trim plan leaves of the tokens: not expired, not in excess.
fn kept(tokens: &[(i32, i64)], now: i64) -> Vec<i32> {
    let plan = trim_tokens_at(1, &tokens.to_vec(), now);
    tokens
        .iter()
        .filter(|t| t.1 >= plan.expired_before && !plan.excess.contains(&t.0))
        .map(|t| t.0)
        .collect()
}

#[test]
fn trimming_keeps_the_smaller_of_five_and_the_unexpired() {
    // 3 expired, 4 valid: all 4 valid ones stay.
    let tokens: Vec<(i32, i64)> = (1..=7).map(|i| (i, 100 * i as i64)).collect();
    assert_eq!(kept(&tokens, 350), vec![4, 5, 6, 7]);
    // 2 expired, 8 valid: the newest 5 stay.
    let tokens: Vec<(i32, i64)> = (1..=10).map(|i| (i, 100 * i as i64)).collect();
    assert_eq!(kept(&tokens, 250), vec![6, 7, 8, 9, 10]);
    // all expired: none stay.
    assert!(kept(&tokens, 5000).is_empty());
}

#[test]
fn token_validity_at_a_reading() {
    let now: i64 = 1_700_000_000;
    assert!(token_still_valid(now, now));
    assert!(!token_still_valid(now - 1, now));
    assert!(token_still_valid(now + 1, now));
    // 2015-09-05 23:56:04
    assert!(!token_still_valid(1441497364, now));
}
