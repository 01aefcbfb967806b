//! Turning the price API's answer into stored hourly prices.

use vstd::prelude::*;

use crate::clock::TimeProvider;
use crate::time::ZonedDateTime;
use crate::zone::{is_local_time_in, utc_offset_of, TimeZoneId};

verus! {

/// The price API's answer: `price[i]` is the price of the hour that starts at
/// `unix_seconds[i]` (seconds since 1970), in thousandths of the currency unit
/// per MWh, which is the same number as millionths per kWh (`PRICE_SCALE`).
pub struct EnergyChartApiResponse {
    pub unix_seconds: Vec<u32>,
    pub price: Vec<i64>,
}

/// One stored hourly price: the hour's start on the zone's wall clock, and its
/// price in millionths of the currency unit per kWh.
#[derive(Clone, Copy, Debug, PartialEq, Eq, Structural)]
pub struct HourlyPrice(pub ZonedDateTime, pub i64);

#[derive(Debug)]
pub enum WorkerError {
    /// The answer holds no price data.
    Data(String),
    /// An instant could not be read on a wall clock.
    Parse(String),
}

/// The zoned time of a price API timestamp on the wall clock of `tz`.
pub fn unix_timestamp_to_datetime(tz: &TimeZoneId, unix_timestamp: u32) -> (r: ZonedDateTime)
    ensures
        r.utc_seconds == unix_timestamp,
        is_local_time_in(*tz, r),
{
    // Every `u32` timestamp lies within the supported range.
    tz.at(unix_timestamp as i64).unwrap()
}

/// The answer's newest hour falls on a later date, in Helsinki, than `now` does.
pub open spec fn is_newer_than(data_seconds: Seq<u32>, now: ZonedDateTime) -> bool {
    let newest = ZonedDateTime {
        utc_seconds: data_seconds.last() as i64,
        offset_seconds: utc_offset_of(TimeZoneId::Helsinki, data_seconds.last() as int) as i32,
    };
    newest.spec_date() > now.spec_date()
}

/// Whether the answer reaches a later date, in Helsinki, than today: the next
/// day's prices have been published.
pub fn has_new_results<T: TimeProvider>(data: &EnergyChartApiResponse, time_provider: &T) -> (r:
    Result<bool, WorkerError>)
    ensures
        data.unix_seconds@.len() == 0 ==> r is Err,
        r matches Ok(b) ==> exists|now: ZonedDateTime|
            is_local_time_in(TimeZoneId::Helsinki, now) && b == #[trigger] is_newer_than(
                data.unix_seconds@,
                now,
            ),
{
    let n = data.unix_seconds.len();
    if n == 0 {
        return Err(WorkerError::Data("no price timestamps in the answer".to_owned()));
    }
    let newest = unix_timestamp_to_datetime(&TimeZoneId::Helsinki, data.unix_seconds[n - 1]);
    match TimeZoneId::Helsinki.at(time_provider.now()) {
        Some(now) => {
            let b = newest.date_naive() > now.date_naive();
            assert(b == is_newer_than(data.unix_seconds@, now));
            Ok(b)
        },
        None => Err(WorkerError::Parse("the clock reads outside the supported range".to_owned())),
    }
}

/// The answer's prices, each with the start of its hour on the wall clock of `tz`.
pub fn parse_pricing_data(timezone: &TimeZoneId, pricing_data: &EnergyChartApiResponse) -> (r: Vec<
    HourlyPrice,
>)
    requires
        pricing_data.unix_seconds@.len() >= pricing_data.price@.len(),
    ensures
        r@.len() == pricing_data.price@.len(),
        forall|i: int|
            0 <= i < r@.len() ==> {
                &&& (#[trigger] r@[i]).0.utc_seconds == pricing_data.unix_seconds@[i]
                &&& is_local_time_in(*timezone, r@[i].0)
                &&& r@[i].1 == pricing_data.price@[i]
            },
{
    let n = pricing_data.price.len();
    let mut r: Vec<HourlyPrice> = Vec::new();
    let mut i: usize = 0;
    while i < n
        invariant
            n == pricing_data.price@.len(),
            pricing_data.unix_seconds@.len() >= n,
            i <= n,
            r@.len() == i,
            forall|j: int|
                0 <= j < i ==> {
                    &&& (#[trigger] r@[j]).0.utc_seconds == pricing_data.unix_seconds@[j]
                    &&& is_local_time_in(*timezone, r@[j].0)
                    &&& r@[j].1 == pricing_data.price@[j]
                },
        decreases n - i,
    {
        let date_time = unix_timestamp_to_datetime(timezone, pricing_data.unix_seconds[i]);
        r.push(HourlyPrice(date_time, pricing_data.price[i]));
        i = i + 1;
    }
    r
}

/// The local hour from which the day's prices are stored under that day.
pub const STORAGE_CUTOFF_HOUR: u32 = 14;

/// The date under which prices are stored at `now`: before the cutoff hour the
/// day's prices are not yet published, and the previous date is used.
pub open spec fn storage_date(now: ZonedDateTime) -> int {
    if now.spec_hour() < STORAGE_CUTOFF_HOUR {
        now.spec_date() - 1
    } else {
        now.spec_date()
    }
}

/// The storage date at `now`, as a count of days since 1970-01-01.
pub fn storage_date_at(now: &ZonedDateTime) -> (r: i64)
    ensures
        r == storage_date(*now),
{
    let date = now.date_naive();
    if now.hour() < STORAGE_CUTOFF_HOUR {
        return date - 1;
    }
    date
}

/// The storage date now, in Helsinki; `None` when the clock reads an instant
/// outside chrono's range.
pub fn get_storage_date<T: TimeProvider>(time_provider: &T) -> (r: Option<i64>)
    ensures
        r matches Some(d) ==> exists|now: ZonedDateTime|
            is_local_time_in(TimeZoneId::Helsinki, now) && d == #[trigger] storage_date(now),
{
    match TimeZoneId::Helsinki.at(time_provider.now()) {
        Some(now) => Some(storage_date_at(&now)),
        None => None,
    }
}

} // verus!
