//! Trusted access to the monotonic clock.
//!
//! The widget keeps an `Instant` taken at construction and measures every
//! later reading against it, in whole milliseconds. A clock reading depends
//! on when it is made, so none of these items promises anything of its
//! result: the verified callers state what holds whatever value came back.

use vstd::prelude::*;

verus! {

#[verifier::external_type_specification]
#[verifier::external_body]
pub struct ExInstant(std::time::Instant);

/// Relies on `std::time::Instant::now`: a reading of the monotonic clock.
#[verifier::external_body]
pub(crate) fn instant_now() -> std::time::Instant {
    std::time::Instant::now()
}

/// Relies on `Instant::saturating_duration_since`: the time from `earlier`
/// to `later`, zero when `earlier` is in fact the later of the two. It
/// never panics.
#[verifier::external_body]
pub(crate) fn since(later: &std::time::Instant, earlier: &std::time::Instant) -> std::time::Duration {
    later.saturating_duration_since(*earlier)
}

/// Relies on `Duration::as_millis`: the duration in whole milliseconds.
#[verifier::external_body]
pub(crate) fn duration_millis(d: &std::time::Duration) -> u128 {
    d.as_millis()
}

} // verus!
