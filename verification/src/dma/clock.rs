use vstd::prelude::*;

verus! {

/// A moment of tokio's monotonic clock.
#[verifier::external_type_specification]
#[verifier::external_body]
pub struct ExTokioInstant(tokio::time::Instant);

/// A moment of std's monotonic clock.
#[verifier::external_type_specification]
#[verifier::external_body]
pub struct ExStdInstant(std::time::Instant);

/// The current moment of tokio's clock (`tokio::time::Instant::now`); nothing is known of it.
#[verifier::external_body]
pub(crate) fn tokio_now() -> tokio::time::Instant {
    tokio::time::Instant::now()
}

/// The current moment of std's clock (`std::time::Instant::now`); nothing is known of it.
#[verifier::external_body]
pub(crate) fn std_now() -> std::time::Instant {
    std::time::Instant::now()
}

/// The nanoseconds elapsed since `since` (`Instant::elapsed().as_nanos()`); it depends on the
/// clock, so nothing is known of it.
#[verifier::external_body]
pub(crate) fn nanos_since(since: &std::time::Instant) -> u128 {
    since.elapsed().as_nanos()
}

} // verus!
