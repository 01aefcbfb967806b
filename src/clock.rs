//! Where "now" comes from.

use vstd::prelude::*;

verus! {

/// A source of the current instant, in seconds since 1970-01-01T00:00:00Z.
pub trait TimeProvider {
    fn now(&self) -> i64;
}

/// Relies on chrono's `Utc::now` and `DateTime::timestamp`: the system clock, in
/// whole seconds since 1970. Nothing is promised of the value.
#[verifier::external_body]
fn system_now() -> i64 {
    chrono::Utc::now().timestamp()
}

/// The system clock.
pub struct RealTimeProvider;

impl TimeProvider for RealTimeProvider {
    fn now(&self) -> i64 {
        system_now()
    }
}

/// A clock that always reads the instant it was made with.
pub struct MockTimeProvider {
    mock_time: i64,
}

impl MockTimeProvider {
    /// The instant the clock reads.
    pub closed spec fn spec_time(&self) -> i64 {
        self.mock_time
    }

    pub fn new(mock_time: i64) -> (r: MockTimeProvider)
        ensures
            r.spec_time() == mock_time,
    {
        MockTimeProvider { mock_time }
    }
}

impl TimeProvider for MockTimeProvider {
    fn now(&self) -> i64 {
        self.mock_time
    }
}

} // verus!
