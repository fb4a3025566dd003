//! A bearer token and the rules by which it expires.

use std::time::Instant;
use vstd::prelude::*;

verus! {

/// What a token is to the contracts: its text and the seconds for which it is
/// valid, counted from its issuance.
pub struct TokenView {
    pub value: Seq<char>,
    pub validity: nat,
}

/// A token valid for `validity` seconds is expired once its age in seconds
/// strictly exceeds that validity.
pub open spec fn expired_at(validity: nat, age: nat) -> bool {
    age > validity
}

/// A token valid for `validity` seconds and `age` seconds old expires within
/// the next `lookahead` seconds when age and lookahead together strictly
/// exceed the validity.
pub open spec fn expires_within(validity: nat, age: nat, lookahead: nat) -> bool {
    age + lookahead > validity
}

/// With no lookahead, to expire within it is to be expired.
pub proof fn lemma_no_lookahead_is_expiry(validity: nat, age: nat)
    ensures
        expires_within(validity, age, 0) == expired_at(validity, age),
{
}

/// A token is not expired at the moment of its issuance, nor at any age up to
/// its validity.
pub proof fn lemma_young_token_is_not_expired(validity: nat, age: nat)
    requires
        age <= validity,
    ensures
        !expired_at(validity, age),
        !expired_at(validity, 0),
{
}

/// An immutable bearer token: its text, the instant of its issuance on the
/// monotonic clock, and its validity in seconds.
pub struct Token {
    token: String,
    generated_at: Instant,
    validity_in_seconds: u64,
}

impl View for Token {
    type V = TokenView;

    closed spec fn view(&self) -> TokenView {
        TokenView { value: self.token@, validity: self.validity_in_seconds as nat }
    }
}

impl Token {
    /// The instant of the token's issuance.
    pub closed spec fn issued_at(&self) -> Instant {
        self.generated_at
    }

    /// A token with this text, issued at `generated_at` and valid for
    /// `validity_in_seconds` from then on.
    pub fn new(token: String, generated_at: Instant, validity_in_seconds: u64) -> (created: Token)
        ensures
            created@.value == token@,
            created@.validity == validity_in_seconds,
            created.issued_at() == generated_at,
    {
        Token { token, generated_at, validity_in_seconds }
    }

    /// The whole seconds that have passed since the token was issued, read
    /// from the monotonic clock.
    pub fn age_in_seconds(&self) -> u64 {
        self.generated_at.elapsed().as_secs()
    }

    /// Whether the token is expired at the given age.
    pub fn is_expired_at_age(&self, age_in_seconds: u64) -> (expired: bool)
        ensures
            expired == expired_at(self@.validity, age_in_seconds as nat),
    {
        age_in_seconds > self.validity_in_seconds
    }

    /// Whether the token, at the given age, expires within the next `seconds`
    /// seconds. The sum is taken over the naturals: it cannot wrap.
    pub fn does_expire_after_at_age(&self, age_in_seconds: u64, seconds: u64) -> (expiring: bool)
        ensures
            expiring == expires_within(self@.validity, age_in_seconds as nat, seconds as nat),
    {
        if age_in_seconds > self.validity_in_seconds {
            true
        } else {
            seconds > self.validity_in_seconds - age_in_seconds
        }
    }

    /// Whether the token is expired now. The clock decides the age; the answer
    /// is the rule of expiry at that age.
    pub fn is_expired(&self) -> (expired: bool)
        ensures
            exists|age: u64| expired == #[trigger] expired_at(self@.validity, age as nat),
    {
        let age: u64 = self.age_in_seconds();
        self.is_expired_at_age(age)
    }

    /// Whether the token expires within the next `seconds` seconds. The clock
    /// decides the age; the answer is the rule at that age. A lookahead beyond
    /// the validity gives `true` at any age.
    pub fn does_expire_after(&self, seconds: u64) -> (expiring: bool)
        ensures
            exists|age: u64|
                expiring == #[trigger] expires_within(self@.validity, age as nat, seconds as nat),
            seconds > self@.validity ==> expiring,
    {
        let age: u64 = self.age_in_seconds();
        self.does_expire_after_at_age(age, seconds)
    }

    /// The token's text.
    pub fn value(&self) -> (text: &str)
        ensures
            text@ == self@.value,
    {
        self.token.as_str()
    }

    /// The seconds for which the token is valid, counted from its issuance.
    pub fn validity_in_seconds(&self) -> (seconds: u64)
        ensures
            seconds == self@.validity,
    {
        self.validity_in_seconds
    }
}

} // verus!
