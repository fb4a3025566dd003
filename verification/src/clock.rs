//! The monotonic clock of `std::time`, as far as the token lifecycle needs it.
//!
//! Nothing is claimed of what the clock returns: a reading depends on when it
//! is taken. The rules of expiry are stated over a token's age in seconds, and
//! the functions that read the clock hand that age to them.

use vstd::prelude::*;

verus! {

/// `std::time::Instant`, a point on the monotonic clock. Its content is not
/// modelled.
#[verifier::external_type_specification]
#[verifier::external_body]
pub struct ExInstant(std::time::Instant);

/// `std::time::Instant::now`: the current reading of the monotonic clock.
/// Nothing is claimed of the instant that comes back.
pub assume_specification[ std::time::Instant::now ]() -> (now: std::time::Instant)
;

/// `std::time::Instant::elapsed`: the time that has passed since `instant`.
/// Nothing is claimed of the duration that comes back.
pub assume_specification[ std::time::Instant::elapsed ](instant: &std::time::Instant) -> (elapsed:
    std::time::Duration)
;

/// `std::time::Duration::as_secs`: the whole seconds that `duration` holds.
/// Nothing is claimed of the number that comes back, since a duration's
/// content is not modelled.
pub assume_specification[ std::time::Duration::as_secs ](duration: &std::time::Duration) -> (seconds:
    u64)
;

} // verus!
