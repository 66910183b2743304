use vstd::prelude::*;

verus! {

#[verifier::external_type_specification]
#[verifier::external_body]
pub struct ExInstant(std::time::Instant);

/// Relies on std::time::Instant::now: an opaque reading of the monotonic
/// clock. Nothing is assumed of the reading itself.
#[verifier::external_body]
pub(crate) fn instant_now() -> std::time::Instant {
    std::time::Instant::now()
}

/// Relies on std::time::Instant::elapsed: the time between `start` and now
/// as measured by the monotonic clock. Nothing is assumed of its size.
#[verifier::external_body]
pub(crate) fn instant_elapsed(start: &std::time::Instant) -> core::time::Duration {
    start.elapsed()
}

/// Relies on core::time::Duration::as_millis: the duration's whole
/// milliseconds. Nothing is assumed of the value.
#[verifier::external_body]
pub(crate) fn duration_as_millis(d: &core::time::Duration) -> u128 {
    d.as_millis()
}

/// Whole milliseconds elapsed since `start`, read from the monotonic clock.
pub(crate) fn millis_since(start: &std::time::Instant) -> u128 {
    let d = instant_elapsed(start);
    duration_as_millis(&d)
}

} // verus!
