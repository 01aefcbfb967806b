//! The daily operating window, and the samples that belong to its current occurrence.

use vstd::prelude::*;

use crate::pricing::Pricing;
use crate::time::ZonedDateTime;

verus! {

/// The caller's request: a run of `hours` hours inside the daily window that opens
/// at hour `start` and closes at hour `end`. A window with `start >= end` crosses
/// midnight; `start == end` covers the whole day.
#[derive(Clone, Copy, Debug, PartialEq, Eq, Structural)]
pub struct QueryParams {
    pub hours: u32,
    pub start: u32,
    pub end: u32,
}

impl QueryParams {
    pub fn new(hours: u32, start: u32, end: u32) -> (r: QueryParams)
        ensures
            r.hours == hours,
            r.start == start,
            r.end == end,
    {
        QueryParams { hours, start, end }
    }
}

/// Hour `hour` lies in the window `[start, end)`, read across midnight when `start >= end`.
pub open spec fn within_hours(start: int, end: int, hour: int) -> bool {
    if start < end {
        start <= hour < end
    } else {
        hour >= start || hour < end
    }
}

/// Whether `current_hour` lies in the daily window from `starting_hour` to `ending_hour`.
pub fn is_within_operating_hours(starting_hour: u32, ending_hour: u32, current_hour: u32) -> (r:
    bool)
    ensures
        r == within_hours(starting_hour as int, ending_hour as int, current_hour as int),
{
    if starting_hour < ending_hour {
        return current_hour >= starting_hour && current_hour < ending_hour;
    }
    current_hour >= starting_hour || current_hour < ending_hour
}

/// Sample `p` belongs to the occurrence of the window that is current on local
/// date `today` at local hour `now_hour`. A window that does not cross midnight
/// takes its hours of `today`. One that does takes the evening hours of `today`;
/// the morning hours of `today` while `now_hour` is before the window opens (the
/// occurrence that began yesterday); and the morning hours of the next day.
pub open spec fn in_current_occurrence(
    p: Pricing,
    start: int,
    end: int,
    today: int,
    now_hour: int,
) -> bool {
    let h = p.date_time.spec_hour();
    let d = p.date_time.spec_date();
    if start < end {
        start <= h < end && d == today
    } else {
        ||| h >= start && d == today
        ||| h < end && d == today && now_hour < start
        ||| h < end && d == today + 1
    }
}

pub open spec fn occurrence_pred(start: int, end: int, today: int, now_hour: int) -> spec_fn(
    Pricing,
) -> bool {
    |p: Pricing| in_current_occurrence(p, start, end, today, now_hour)
}

/// The samples of `s` in the occurrence of the window that is current at `now`, in order.
pub open spec fn occurrence_samples(s: Seq<Pricing>, start: int, end: int, now: ZonedDateTime) -> Seq<
    Pricing,
> {
    s.filter(occurrence_pred(start, end, now.spec_date(), now.spec_hour()))
}

/// For a window that crosses midnight, every sample selected at `now` lies on
/// `now`'s date or the next, and none on the next date at or after the opening
/// hour: the following evening, and the morning after it, belong to the next
/// occurrence of the window and are left out.
pub proof fn lemma_crossing_window_keeps_one_occurrence(
    s: Seq<Pricing>,
    start: int,
    end: int,
    now: ZonedDateTime,
)
    requires
        start >= end,
    ensures
        forall|i: int|
            0 <= i < occurrence_samples(s, start, end, now).len() ==> {
                let p = #[trigger] occurrence_samples(s, start, end, now)[i];
                &&& now.spec_date() <= p.date_time.spec_date() <= now.spec_date() + 1
                &&& p.date_time.spec_date() == now.spec_date() + 1 ==> p.date_time.spec_hour()
                    < end
            },
{
    let pred = occurrence_pred(start, end, now.spec_date(), now.spec_hour());
    assert forall|i: int| 0 <= i < occurrence_samples(s, start, end, now).len() implies {
        let p = #[trigger] occurrence_samples(s, start, end, now)[i];
        &&& now.spec_date() <= p.date_time.spec_date() <= now.spec_date() + 1
        &&& p.date_time.spec_date() == now.spec_date() + 1 ==> p.date_time.spec_hour() < end
    } by {
        s.lemma_filter_pred(pred, i);
    }
}

fn belongs_to_occurrence(p: &Pricing, start: u32, end: u32, today: i64, now_hour: u32) -> (r:
    bool)
    ensures
        r == in_current_occurrence(*p, start as int, end as int, today as int, now_hour as int),
{
    let h = p.date_time.hour();
    let d = p.date_time.date_naive();
    if start < end {
        h >= start && h < end && d == today
    } else {
        (h >= start && d == today) || (h < end && d == today && now_hour < start) || (h < end
            && d as i128 == today as i128 + 1)
    }
}

/// The samples that belong to the occurrence of the window that is current at
/// `now`, in the order in which they are given.
pub fn filter_pricing_at(
    pricing: &[Pricing],
    starting_hour: u32,
    ending_hour: u32,
    now: &ZonedDateTime,
) -> (r: Vec<Pricing>)
    ensures
        r@ == occurrence_samples(pricing@, starting_hour as int, ending_hour as int, *now),
{
    let today = now.date_naive();
    let now_hour = now.hour();
    let ghost pred = occurrence_pred(
        starting_hour as int,
        ending_hour as int,
        today as int,
        now_hour as int,
    );
    let n = pricing.len();
    let mut r: Vec<Pricing> = Vec::new();
    let mut i: usize = 0;
    while i < n
        invariant
            n == pricing@.len(),
            i <= n,
            pred == occurrence_pred(
                starting_hour as int,
                ending_hour as int,
                today as int,
                now_hour as int,
            ),
            r@ == pricing@.take(i as int).filter(pred),
        decreases n - i,
    {
        let p = pricing[i];
        let keep = belongs_to_occurrence(&p, starting_hour, ending_hour, today, now_hour);
        if keep {
            r.push(p);
        }
        proof {
            assert(pred(p) == keep);
            assert(pricing@.take(i as int + 1) =~= pricing@.take(i as int).push(p));
            pricing@.take(i as int).lemma_filter_push(p, pred);
        }
        i = i + 1;
    }
    proof {
        assert(pricing@.take(n as int) =~= pricing@);
    }
    r
}

} // verus!
