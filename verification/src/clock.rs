//! Monotonic timestamps for per-frame delta timing.
//!
//! The application records the instant of its last render and measures the
//! time that has passed since. Instants are opaque readings of the host's
//! monotonic clock; nothing is assumed about their values, and everything
//! the state machine guarantees holds whatever the clock returns.

use std::time::Duration;
use vstd::prelude::*;

verus! {

#[verifier::external_type_specification]
#[verifier::external_body]
pub struct ExInstant(instant::Instant);

/// Relies on `instant::Instant::now` (`std::time::Instant::now` on native
/// targets): an opaque reading of the monotonic clock. Nothing is promised
/// of the value; callers must hold for every reading.
#[verifier::external_body]
pub(crate) fn clock_now() -> instant::Instant {
    instant::Instant::now()
}

/// Relies on `std::time::Instant::saturating_duration_since` (the type
/// behind `instant::Instant` on native targets): the time elapsed from
/// `earlier` to `later`, zero if `earlier` is the later reading. Never
/// panics. Nothing is promised of the value.
#[verifier::external_body]
pub(crate) fn elapsed_since(later: instant::Instant, earlier: instant::Instant) -> Duration {
    later.saturating_duration_since(earlier)
}

} // verus!
