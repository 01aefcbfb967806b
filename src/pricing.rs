//! Hourly price samples and the search for the cheapest contiguous run of hours.

use vstd::prelude::*;

use crate::time::{ZonedDateTime, SECONDS_PER_HOUR};

verus! {

/// Prices are held in millionths of the currency unit per kWh: 0.1 is 100000.
pub const PRICE_SCALE: i64 = 1_000_000;

/// One hourly price sample: the hour's start and its price before tax, in
/// millionths of the currency unit per kWh (see `PRICE_SCALE`). A price may be
/// zero or negative.
#[derive(Clone, Copy, Debug, PartialEq, Eq, Structural)]
pub struct Pricing {
    pub date_time: ZonedDateTime,
    pub price_no_tax: i64,
}

/// Total price of the `k` samples that start at index `start`.
pub open spec fn run_cost(s: Seq<Pricing>, start: int, k: int) -> int
    decreases k,
{
    if k <= 0 {
        0
    } else {
        run_cost(s, start, k - 1) + s[start + k - 1].price_no_tax
    }
}

/// `i` starts a run of `k` samples that costs no more than any other run of
/// `k` samples in `s`, and strictly less than every run that starts earlier.
pub open spec fn is_cheapest_start(s: Seq<Pricing>, k: int, i: int) -> bool {
    &&& 0 <= i <= s.len() - k
    &&& forall|j: int| 0 <= j <= s.len() - k ==> run_cost(s, i, k) <= #[trigger] run_cost(s, j, k)
    &&& forall|j: int| 0 <= j < i ==> run_cost(s, i, k) < #[trigger] run_cost(s, j, k)
}

/// The first cheapest start is unique.
pub proof fn lemma_cheapest_start_unique(s: Seq<Pricing>, k: int, i: int, j: int)
    requires
        is_cheapest_start(s, k, i),
        is_cheapest_start(s, k, j),
    ensures
        i == j,
{
    if i < j {
        assert(run_cost(s, j, k) < run_cost(s, i, k));
    } else if j < i {
        assert(run_cost(s, i, k) < run_cost(s, j, k));
    }
}

/// Sum of the `k` prices from index `start`.
fn run_cost_of(pricing: &[Pricing], start: usize, k: usize) -> (r: i128)
    requires
        start + k <= pricing@.len(),
        k <= u32::MAX,
    ensures
        r == run_cost(pricing@, start as int, k as int),
{
    let n = pricing.len();
    let mut sum: i128 = 0;
    let mut j: usize = 0;
    while j < k
        invariant
            j <= k,
            n == pricing@.len(),
            start + k <= n,
            k <= u32::MAX,
            sum == run_cost(pricing@, start as int, j as int),
            -(j as int) * 0x8000_0000_0000_0000 <= sum <= (j as int) * 0x8000_0000_0000_0000,
        decreases k - j,
    {
        sum = sum + pricing[start + j].price_no_tax as i128;
        j = j + 1;
    }
    sum
}

/// The start of the cheapest run of `hours` consecutive samples; among runs of
/// equal cost the earliest wins. `None` when there are fewer than `hours` samples.
pub fn calculate_cheapest_start_time(pricing: &[Pricing], hours: u32) -> (r: Option<ZonedDateTime>)
    requires
        hours >= 1,
    ensures
        r is None <==> pricing@.len() < hours,
        r matches Some(t) ==> exists|i: int|
            is_cheapest_start(pricing@, hours as int, i) && t == #[trigger] pricing@[i].date_time,
{
    let n = pricing.len();
    let k = hours as usize;
    if n < k {
        return None;
    }
    let mut best: usize = 0;
    let mut best_cost: i128 = run_cost_of(pricing, 0, k);
    let mut i: usize = 1;
    while i <= n - k
        invariant
            n == pricing@.len(),
            1 <= k <= n,
            k <= u32::MAX,
            k == hours,
            1 <= i <= n - k + 1,
            best < i,
            best_cost == run_cost(pricing@, best as int, k as int),
            forall|j: int| 0 <= j < i ==> best_cost <= #[trigger] run_cost(pricing@, j, k as int),
            forall|j: int| 0 <= j < best ==> best_cost < #[trigger] run_cost(pricing@, j, k as int),
        decreases n - k + 1 - i,
    {
        let cost = run_cost_of(pricing, i, k);
        if cost < best_cost {
            best = i;
            best_cost = cost;
        }
        i = i + 1;
    }
    assert(is_cheapest_start(pricing@, hours as int, best as int));
    Some(pricing[best].date_time)
}

/// What chrono's parser reads from the text `s`: an instant and its UTC offset,
/// or `None` when `s` is not a date and time with an offset.
pub uninterp spec fn date_time_from_str_of(s: Seq<char>) -> Option<ZonedDateTime>;

/// Relies on chrono's `FromStr` for `DateTime<FixedOffset>`, which reads a relaxed
/// form of RFC 3339 (such as `2024-04-08T22:00:00+03:00`), and on `DateTime::timestamp`
/// and `FixedOffset::local_minus_utc` to read the instant and offset: the result
/// depends on the text alone, and `FixedOffset` keeps the offset strictly within a day.
#[verifier::external_body]
fn parse_date_time(s: &str) -> (r: Option<ZonedDateTime>)
    ensures
        r == date_time_from_str_of(s@),
        r matches Some(t) ==> -86400 < t.offset_seconds < 86400,
{
    s.parse::<chrono::DateTime<chrono::FixedOffset>>().ok().map(
        |t| ZonedDateTime { utc_seconds: t.timestamp(), offset_seconds: t.offset().local_minus_utc() },
    )
}

/// The samples of a stored price list, whose entries pair a date-and-time text with
/// a price in millionths per kWh; `None` when some text does not parse.
pub fn pricing_from_stored(entries: &Vec<(String, i64)>) -> (r: Option<Vec<Pricing>>)
    ensures
        r is Some <==> forall|i: int|
            0 <= i < entries@.len() ==> (#[trigger] date_time_from_str_of(entries@[i].0@)) is Some,
        r matches Some(v) ==> v@.len() == entries@.len() && forall|i: int|
            0 <= i < v@.len() ==> #[trigger] v@[i] == (Pricing {
                date_time: date_time_from_str_of(entries@[i].0@)->Some_0,
                price_no_tax: entries@[i].1,
            }),
{
    let n = entries.len();
    let mut v: Vec<Pricing> = Vec::new();
    let mut i: usize = 0;
    while i < n
        invariant
            n == entries@.len(),
            i <= n,
            v@.len() == i,
            forall|j: int| 0 <= j < i ==> (#[trigger] date_time_from_str_of(entries@[j].0@)) is Some,
            forall|j: int|
                0 <= j < i ==> #[trigger] v@[j] == (Pricing {
                    date_time: date_time_from_str_of(entries@[j].0@)->Some_0,
                    price_no_tax: entries@[j].1,
                }),
        decreases n - i,
    {
        let entry = &entries[i];
        match parse_date_time(entry.0.as_str()) {
            Some(t) => v.push(Pricing { date_time: t, price_no_tax: entry.1 }),
            None => return None,
        }
        i = i + 1;
    }
    Some(v)
}

/// Seconds from a run's start to its end.
pub open spec fn run_seconds(k: int) -> int {
    k * (SECONDS_PER_HOUR as int)
}

} // verus!
