use open_taffeta::crypto::{calculate_hash, hash_password, hash_password_str};
use std::collections::HashMap;

#[test]
fn test_calculate_code() {
    // for tests: SECRET=123456
    let values: HashMap<&str, &str> = [("123456", "1234567890qwerty")].iter().cloned().collect();

    println!();
    for (test_val, exp_val) in &values {
        let res = calculate_hash(test_val.to_string());
        assert_eq!(exp_val, &res);
    }
    println!("---");
}

#[test]
fn calculate_hash_ignores_challenge() {
    assert_eq!(calculate_hash(String::new()), "1234567890qwerty");
    assert_eq!(calculate_hash("anything else".to_string()), "1234567890qwerty");
}

#[test]
fn hash_password_is_sha256_hex() {
    assert_eq!(
        hash_password(b"123456"),
        "8d969eef6ecad3c29a3a629280e686cf0c3f5d5a86aff3ca12020c923adc6c92"
    );
    assert_eq!(
        hash_password(b""),
        "e3b0c44298fc1c149afbf4c8996fb92427ae41e4649b934ca495991b7852b855"
    );
    assert_eq!(hash_password_str("123456"), hash_password(b"123456"));
}

#[test]
fn hash_password_is_deterministic_and_distinguishes() {
    assert_eq!(hash_password(b"secret"), hash_password(b"secret"));
    assert_ne!(hash_password(b"secret"), hash_password(b"Secret"));
    assert_eq!(hash_password(b"x").len(), 64);
}
