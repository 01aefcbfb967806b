//! Instants read on a wall clock with a fixed UTC offset.

use vstd::prelude::*;

verus! {

pub const SECONDS_PER_HOUR: i64 = 3600;

pub const SECONDS_PER_DAY: i64 = 86400;

/// An instant (seconds since 1970-01-01T00:00:00Z) and the UTC offset of the wall
/// clock on which it is read. Two values denote the same instant when their
/// `utc_seconds` agree, whatever their offsets.
#[derive(Clone, Copy, Debug, PartialEq, Eq, Structural)]
pub struct ZonedDateTime {
    pub utc_seconds: i64,
    pub offset_seconds: i32,
}

impl ZonedDateTime {
    /// Seconds since 1970-01-01T00:00:00 on the local wall clock.
    pub open spec fn local_seconds(self) -> int {
        self.utc_seconds + self.offset_seconds
    }

    /// The local calendar date, as a count of days since 1970-01-01 (negative before it).
    pub open spec fn spec_date(self) -> int {
        self.local_seconds() / (SECONDS_PER_DAY as int)
    }

    /// The local hour of day, 0 to 23.
    pub open spec fn spec_hour(self) -> int {
        (self.local_seconds() % (SECONDS_PER_DAY as int)) / (SECONDS_PER_HOUR as int)
    }

    pub fn new(utc_seconds: i64, offset_seconds: i32) -> (r: ZonedDateTime)
        ensures
            r.utc_seconds == utc_seconds,
            r.offset_seconds == offset_seconds,
    {
        ZonedDateTime { utc_seconds, offset_seconds }
    }

    /// The local calendar date, as a count of days since 1970-01-01.
    pub fn date_naive(&self) -> (r: i64)
        ensures
            r == self.spec_date(),
            -0x1_0000_0000_0000 < r < 0x1_0000_0000_0000,
    {
        let local: i128 = self.utc_seconds as i128 + self.offset_seconds as i128;
        assert(-0x1_0000_0000_0000 < local / 86400 < 0x1_0000_0000_0000) by (nonlinear_arith)
            requires
                -0x8000_0000_8000_0000 <= local <= 0x8000_0000_8000_0000,
        {}
        local.checked_div_euclid(SECONDS_PER_DAY as i128).unwrap() as i64
    }

    /// The local hour of day, 0 to 23.
    pub fn hour(&self) -> (r: u32)
        ensures
            r == self.spec_hour(),
            r < 24,
    {
        let local: i128 = self.utc_seconds as i128 + self.offset_seconds as i128;
        let second_of_day = local.checked_rem_euclid(SECONDS_PER_DAY as i128).unwrap();
        (second_of_day / SECONDS_PER_HOUR as i128) as u32
    }
}

} // verus!
