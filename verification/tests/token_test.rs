use cooplan_auth::token::Token;
use std::time::Instant;

fn token(validity_in_seconds: u64) -> Token {
    Token::new("secret".to_string(), Instant::now(), validity_in_seconds)
}

#[test]
fn new_token_keeps_text_and_validity() {
    let token = Token::new("bearer-text".to_string(), Instant::now(), 42);

    assert_eq!(token.value(), "bearer-text");
    assert_eq!(token.validity_in_seconds(), 42);
}

#[test]
fn token_is_expired_only_past_its_validity() {
    let token = token(10);

    assert!(!token.is_expired_at_age(0));
    assert!(!token.is_expired_at_age(9));
    assert!(!token.is_expired_at_age(10));
    assert!(token.is_expired_at_age(11));
    assert!(token.is_expired_at_age(u64::MAX));
}

#[test]
fn token_without_validity_expires_after_one_second() {
    let token = token(0);

    assert!(!token.is_expired_at_age(0));
    assert!(token.is_expired_at_age(1));
}

#[test]
fn token_of_longest_validity_never_expires() {
    let token = token(u64::MAX);

    assert!(!token.is_expired_at_age(u64::MAX));
    assert!(!token.does_expire_after_at_age(u64::MAX, 0));
    assert!(token.does_expire_after_at_age(u64::MAX, 1));
}

#[test]
fn lookahead_counts_from_the_age() {
    let token = token(10);

    assert!(!token.does_expire_after_at_age(0, 10));
    assert!(token.does_expire_after_at_age(0, 11));
    assert!(!token.does_expire_after_at_age(4, 6));
    assert!(token.does_expire_after_at_age(4, 7));
    assert!(!token.does_expire_after_at_age(10, 0));
    assert!(token.does_expire_after_at_age(10, 1));
    assert!(token.does_expire_after_at_age(11, 0));
}

#[test]
fn lookahead_and_age_do_not_wrap() {
    let token = token(10);

    assert!(token.does_expire_after_at_age(u64::MAX, u64::MAX));
    assert!(token.does_expire_after_at_age(1, u64::MAX));
    assert!(token.does_expire_after_at_age(u64::MAX, 1));
}

#[test]
fn no_lookahead_is_expiry() {
    let validities: [u64; 5] = [0, 1, 5, 10, u64::MAX];
    let ages: [u64; 7] = [0, 1, 4, 5, 6, 11, u64::MAX];
    for validity in validities {
        let token = token(validity);
        for age in ages {
            assert_eq!(token.does_expire_after_at_age(age, 0), token.is_expired_at_age(age));
        }
    }
}

#[test]
fn fresh_token_is_not_expired() {
    let token = token(3600);

    assert!(!token.is_expired());
    assert!(!token.does_expire_after(0));
    assert!(!token.does_expire_after(60));
    assert!(token.age_in_seconds() < 3600);
}

#[test]
fn lookahead_beyond_validity_expires_at_once() {
    let token = token(1);

    assert!(token.does_expire_after(89000));
    assert!(token.does_expire_after(2));
}
