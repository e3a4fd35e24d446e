//! Points in time, as the editor reads them from the system clock.
use std::time::Instant;
use vstd::prelude::*;

verus! {

/// Instants are `std::time::Instant` values, carried through unopened.
#[verifier::external_type_specification]
#[verifier::external_body]
pub struct ExInstant(Instant);

/// Calls `Instant::now`. Nothing is stated of the value: it is read from
/// the system clock.
#[verifier::external_body]
pub(crate) fn now() -> Instant {
    Instant::now()
}

/// Calls `Instant::elapsed` on `since` and gives the duration in whole
/// nanoseconds (`Duration::as_nanos`, which loses nothing). Nothing is
/// stated of the value: it depends on the system clock.
#[verifier::external_body]
pub(crate) fn elapsed_nanos(since: &Instant) -> u128 {
    since.elapsed().as_nanos()
}

/// Calls `Instant::duration_since` (the time from `earlier` to `later`,
/// zero when `earlier` is the later one) and gives it in whole nanoseconds.
/// Nothing is stated of the value: instants are opaque readings of the
/// system clock.
#[verifier::external_body]
pub(crate) fn nanos_between(later: &Instant, earlier: &Instant) -> u128 {
    later.duration_since(*earlier).as_nanos()
}

} // verus!
