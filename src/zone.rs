//! Bidding zones, their time zones, and reading an instant on a zone's wall clock.

use chrono::Offset;
use chrono::TimeZone;
use vstd::prelude::*;

use crate::time::ZonedDateTime;

verus! {

/// An electricity-market bidding zone.
#[derive(Clone, Copy, Debug, PartialEq, Eq, Structural)]
pub enum BiddingZone {
    FI,
    SE1,
    SE2,
    SE3,
    SE4,
    DK1,
    DK2,
    AT,
    PT,
    NL,
}

/// The IANA time zones that the bidding zones keep.
#[derive(Clone, Copy, Debug, PartialEq, Eq, Structural)]
pub enum TimeZoneId {
    /// Europe/Helsinki
    Helsinki,
    /// Europe/Stockholm
    Stockholm,
    /// Europe/Lisbon
    Lisbon,
}

/// The offset from UTC, in seconds, that the clocks of `tz` keep at the instant
/// `utc_seconds` (seconds since 1970-01-01T00:00:00Z), as the IANA time zone
/// database compiled into chrono-tz gives it.
pub uninterp spec fn utc_offset_of(tz: TimeZoneId, utc_seconds: int) -> int;

/// `t` is the instant `t.utc_seconds` read on the wall clock of `tz`.
pub open spec fn is_local_time_in(tz: TimeZoneId, t: ZonedDateTime) -> bool {
    t.offset_seconds == utc_offset_of(tz, t.utc_seconds as int)
}

/// Instants within 2^40 seconds (about 34800 years) of 1970 are inside chrono's range.
pub const SUPPORTED_SECONDS: i64 = 0x100_0000_0000;

/// Relies on chrono's `DateTime::from_timestamp` (`None` only for instants beyond
/// about 262000 years from 1970) and on chrono-tz's `Tz::offset_from_utc_datetime`
/// with `Offset::fix`: the zone's offset from UTC at that instant, which chrono's
/// `FixedOffset` keeps strictly within one day.
#[verifier::external_body]
fn offset_at(tz: TimeZoneId, utc_seconds: i64) -> (r: Option<i32>)
    ensures
        r matches Some(o) ==> o == utc_offset_of(tz, utc_seconds as int) && -86400 < o < 86400,
        -SUPPORTED_SECONDS <= utc_seconds <= SUPPORTED_SECONDS ==> r is Some,
{
    let zone = match tz {
        TimeZoneId::Helsinki => chrono_tz::Europe::Helsinki,
        TimeZoneId::Stockholm => chrono_tz::Europe::Stockholm,
        TimeZoneId::Lisbon => chrono_tz::Europe::Lisbon,
    };
    chrono::DateTime::from_timestamp(utc_seconds, 0).map(
        |t| zone.offset_from_utc_datetime(&t.naive_utc()).fix().local_minus_utc(),
    )
}

impl TimeZoneId {
    /// The instant `utc_seconds` read on this zone's wall clock; `None` only for
    /// instants outside the range that chrono represents.
    pub fn at(&self, utc_seconds: i64) -> (r: Option<ZonedDateTime>)
        ensures
            r matches Some(t) ==> t.utc_seconds == utc_seconds && is_local_time_in(*self, t),
            -SUPPORTED_SECONDS <= utc_seconds <= SUPPORTED_SECONDS ==> r is Some,
    {
        match offset_at(*self, utc_seconds) {
            Some(o) => Some(ZonedDateTime::new(utc_seconds, o)),
            None => None,
        }
    }
}

impl BiddingZone {
    pub open spec fn spec_tz(&self) -> TimeZoneId {
        match self {
            BiddingZone::FI => TimeZoneId::Helsinki,
            BiddingZone::PT => TimeZoneId::Lisbon,
            _ => TimeZoneId::Stockholm,
        }
    }

    pub open spec fn spec_country(&self) -> Seq<char> {
        match self {
            BiddingZone::FI => "finland"@,
            BiddingZone::PT => "portugal"@,
            BiddingZone::AT => "austria"@,
            BiddingZone::NL => "netherlands"@,
            BiddingZone::DK1 => "denmark"@,
            BiddingZone::DK2 => "denmark"@,
            _ => "sweden"@,
        }
    }

    /// The time zone whose wall clock the zone's prices and decisions are read on.
    pub fn to_tz(&self) -> (r: TimeZoneId)
        ensures
            r == self.spec_tz(),
    {
        match self {
            BiddingZone::FI => TimeZoneId::Helsinki,
            BiddingZone::PT => TimeZoneId::Lisbon,
            _ => TimeZoneId::Stockholm,
        }
    }

    /// The country name under which the zone's prices are stored.
    pub fn to_country_string(&self) -> (r: String)
        ensures
            r@ == self.spec_country(),
    {
        match self {
            BiddingZone::FI => "finland".to_owned(),
            BiddingZone::PT => "portugal".to_owned(),
            BiddingZone::AT => "austria".to_owned(),
            BiddingZone::NL => "netherlands".to_owned(),
            BiddingZone::DK1 => "denmark".to_owned(),
            BiddingZone::DK2 => "denmark".to_owned(),
            _ => "sweden".to_owned(),
        }
    }

    /// The instant `utc_seconds` read on the zone's wall clock; `None` only for
    /// instants outside the range that chrono represents.
    pub fn local_time(&self, utc_seconds: i64) -> (r: Option<ZonedDateTime>)
        ensures
            r matches Some(t) ==> t.utc_seconds == utc_seconds && is_local_time_in(
                self.spec_tz(),
                t,
            ),
            -SUPPORTED_SECONDS <= utc_seconds <= SUPPORTED_SECONDS ==> r is Some,
    {
        self.to_tz().at(utc_seconds)
    }
}

} // verus!
