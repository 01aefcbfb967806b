//! The decision: may the device run at a given instant?

use vstd::prelude::*;

use crate::pricing::{
    calculate_cheapest_start_time,
    is_cheapest_start,
    lemma_cheapest_start_unique,
    run_seconds,
    Pricing,
};
use crate::clock::TimeProvider;
use crate::time::{ZonedDateTime, SECONDS_PER_HOUR};
use crate::window::{filter_pricing_at, is_within_operating_hours, occurrence_samples, within_hours};
use crate::zone::{is_local_time_in, BiddingZone};

verus! {

/// `now` lies in the cheapest run of `k` samples of `s`, both ends included.
pub open spec fn in_cheapest_run(s: Seq<Pricing>, k: int, now: ZonedDateTime) -> bool {
    exists|i: int|
        #![trigger s[i]]
        is_cheapest_start(s, k, i) && s[i].date_time.utc_seconds <= now.utc_seconds
            <= s[i].date_time.utc_seconds + run_seconds(k)
}

/// The device may run at `now` (read on the zone's wall clock): the hour of `now`
/// lies in the window, the window's current occurrence holds at least `hours`
/// samples, and `now` lies in the cheapest run of `hours` of them.
pub open spec fn enabled_at(now: ZonedDateTime, s: Seq<Pricing>, hours: int, start: int, end: int) -> bool {
    let f = occurrence_samples(s, start, end, now);
    &&& within_hours(start, end, now.spec_hour())
    &&& f.len() >= hours
    &&& in_cheapest_run(f, hours, now)
}

/// The end of the cheapest run counts as inside it. If, at `now` within the
/// window, the cheapest run of the current occurrence starts at `T`, the device
/// may run when `now` is exactly `hours` hours after `T`, and may not when `now`
/// is later than that.
pub proof fn lemma_run_end_is_inclusive(
    now: ZonedDateTime,
    s: Seq<Pricing>,
    hours: int,
    start: int,
    end: int,
    i: int,
)
    requires
        hours >= 1,
        within_hours(start, end, now.spec_hour()),
        is_cheapest_start(occurrence_samples(s, start, end, now), hours, i),
    ensures
        now.utc_seconds == occurrence_samples(s, start, end, now)[i].date_time.utc_seconds
            + run_seconds(hours) ==> enabled_at(now, s, hours, start, end),
        now.utc_seconds > occurrence_samples(s, start, end, now)[i].date_time.utc_seconds
            + run_seconds(hours) ==> !enabled_at(now, s, hours, start, end),
{
    let f = occurrence_samples(s, start, end, now);
    assert(run_seconds(hours) >= 0) by (nonlinear_arith)
        requires
            hours >= 1,
    {}
    if now.utc_seconds == f[i].date_time.utc_seconds + run_seconds(hours) {
        assert(is_cheapest_start(f, hours, i) && f[i].date_time.utc_seconds <= now.utc_seconds
            <= f[i].date_time.utc_seconds + run_seconds(hours));
    }
    if enabled_at(now, s, hours, start, end) {
        let j = choose|j: int|
            #![trigger f[j]]
            is_cheapest_start(f, hours, j) && f[j].date_time.utc_seconds <= now.utc_seconds
                <= f[j].date_time.utc_seconds + run_seconds(hours);
        lemma_cheapest_start_unique(f, hours, i, j);
    }
}

/// Whether the device may run at `now`, given the zone's price samples and a
/// request for `hours` hours within the window from `starting_hour` to `ending_hour`.
pub fn should_enable_at(
    now: &ZonedDateTime,
    pricing: &[Pricing],
    hours: u32,
    starting_hour: u32,
    ending_hour: u32,
) -> (r: bool)
    requires
        hours >= 1,
    ensures
        r == enabled_at(*now, pricing@, hours as int, starting_hour as int, ending_hour as int),
        !within_hours(starting_hour as int, ending_hour as int, now.spec_hour()) ==> !r,
        occurrence_samples(pricing@, starting_hour as int, ending_hour as int, *now).len() < hours
            ==> !r,
{
    if !is_within_operating_hours(starting_hour, ending_hour, now.hour()) {
        return false;
    }
    let filtered = filter_pricing_at(pricing, starting_hour, ending_hour, now);
    if filtered.len() < hours as usize {
        return false;
    }
    match calculate_cheapest_start_time(filtered.as_slice(), hours) {
        Some(start) => {
            let ghost f = filtered@;
            let ghost i = choose|i: int|
                is_cheapest_start(f, hours as int, i) && start == #[trigger] f[i].date_time;
            let end: i128 = start.utc_seconds as i128 + hours as i128 * SECONDS_PER_HOUR as i128;
            let r = now.utc_seconds >= start.utc_seconds && now.utc_seconds as i128 <= end;
            proof {
                if in_cheapest_run(f, hours as int, *now) {
                    let j = choose|j: int|
                        #![trigger f[j]]
                        is_cheapest_start(f, hours as int, j) && f[j].date_time.utc_seconds
                            <= now.utc_seconds <= f[j].date_time.utc_seconds + run_seconds(
                            hours as int,
                        );
                    lemma_cheapest_start_unique(f, hours as int, i, j);
                }
                if r {
                    assert(is_cheapest_start(f, hours as int, i) && f[i].date_time.utc_seconds
                        <= now.utc_seconds <= f[i].date_time.utc_seconds + run_seconds(hours as int));
                }
            }
            r
        },
        None => false,
    }
}

/// The samples in the occurrence of the window that is current now, read on the
/// zone's wall clock; `None` when the clock reads an instant outside chrono's range.
pub fn get_filtered_pricing<T: TimeProvider>(
    time_provider: &T,
    country_code: &BiddingZone,
    pricing: &[Pricing],
    starting_hour: u32,
    ending_hour: u32,
) -> (r: Option<Vec<Pricing>>)
    ensures
        r matches Some(v) ==> exists|now: ZonedDateTime|
            is_local_time_in(country_code.spec_tz(), now) && v@ == #[trigger] occurrence_samples(
                pricing@,
                starting_hour as int,
                ending_hour as int,
                now,
            ),
{
    match country_code.local_time(time_provider.now()) {
        Some(now) => Some(filter_pricing_at(pricing, starting_hour, ending_hour, &now)),
        None => None,
    }
}

/// Whether the device may run now, read on the zone's wall clock. It is `false`
/// whenever the clock reads an instant outside chrono's range.
pub fn should_enable<T: TimeProvider>(
    time_provider: &T,
    country_code: &BiddingZone,
    pricing: &[Pricing],
    hours: u32,
    starting_hour: u32,
    ending_hour: u32,
) -> (r: bool)
    requires
        hours >= 1,
    ensures
        r ==> exists|now: ZonedDateTime|
            is_local_time_in(country_code.spec_tz(), now) && #[trigger] enabled_at(
                now,
                pricing@,
                hours as int,
                starting_hour as int,
                ending_hour as int,
            ),
{
    match country_code.local_time(time_provider.now()) {
        Some(now) => should_enable_at(&now, pricing, hours, starting_hour, ending_hour),
        None => false,
    }
}

} // verus!
