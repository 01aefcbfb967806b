use chrono::{TimeZone, Utc};
use waterheater_calc::clock::MockTimeProvider;
use waterheater_calc::engine::{get_filtered_pricing, should_enable, should_enable_at};
use waterheater_calc::pricing::{calculate_cheapest_start_time, Pricing, PRICE_SCALE};
use waterheater_calc::time::ZonedDateTime;
use waterheater_calc::window::{filter_pricing_at, is_within_operating_hours, QueryParams};
use waterheater_calc::zone::BiddingZone;

const EEST: i32 = 3 * 3600;

fn utc(day: u32, hour: u32) -> i64 {
    Utc.with_ymd_and_hms(2024, 4, day, hour, 0, 0).unwrap().timestamp()
}

fn sample(day: u32, hour: u32, price: i64) -> Pricing {
    Pricing { date_time: ZonedDateTime::new(utc(day, hour), 0), price_no_tax: price }
}

/// A sample at local `hour` of 2024-04-`day` on a wall clock three hours ahead of UTC.
fn helsinki_sample(day: u32, hour: u32, price: i64) -> Pricing {
    Pricing {
        date_time: ZonedDateTime::new(utc(day, hour) - EEST as i64, EEST),
        price_no_tax: price,
    }
}

#[test]
fn non_wrapping_window_keeps_only_its_hours_of_today() {
    let pricing = vec![sample(8, 10, 1), sample(8, 15, 1), sample(8, 20, 1)];
    let now = ZonedDateTime::new(utc(8, 13), 0);
    let filtered = filter_pricing_at(&pricing, 12, 18, &now);
    assert_eq!(filtered, vec![sample(8, 15, 1)]);
}

#[test]
fn non_wrapping_window_leaves_out_other_dates() {
    let pricing = vec![sample(7, 15, 1), sample(8, 15, 2), sample(9, 15, 3)];
    let now = ZonedDateTime::new(utc(8, 13), 0);
    let filtered = filter_pricing_at(&pricing, 12, 18, &now);
    assert_eq!(filtered, vec![sample(8, 15, 2)]);
}

#[test]
fn wrapping_window_keeps_evening_and_next_morning_in_order() {
    let mut pricing = vec![sample(8, 22, 1), sample(8, 23, 1)];
    for hour in 0..10 {
        pricing.push(sample(9, hour, 1));
    }
    let now = ZonedDateTime::new(utc(8, 21), 0);
    let filtered = filter_pricing_at(&pricing, 22, 7, &now);
    let hours: Vec<u32> = filtered.iter().map(|p| p.date_time.hour()).collect();
    assert_eq!(hours, vec![22, 23, 0, 1, 2, 3, 4, 5, 6]);
    assert_eq!(filtered[0], sample(8, 22, 1));
}

#[test]
fn wrapping_window_excludes_the_next_occurrence() {
    let pricing = vec![
        sample(8, 22, 1),
        sample(9, 0, 1),
        sample(9, 6, 1),
        sample(9, 22, 1),
        sample(9, 23, 1),
        sample(10, 0, 1),
        sample(10, 5, 1),
    ];
    let now = ZonedDateTime::new(utc(8, 12), 0);
    let filtered = filter_pricing_at(&pricing, 22, 7, &now);
    assert_eq!(filtered, vec![sample(8, 22, 1), sample(9, 0, 1), sample(9, 6, 1)]);
}

#[test]
fn wrapping_window_after_midnight_keeps_this_morning() {
    let mut pricing = vec![sample(8, 22, 1), sample(8, 23, 1)];
    for hour in 0..8 {
        pricing.push(sample(9, hour, 1));
    }
    let now = ZonedDateTime::new(utc(9, 3), 0);
    let filtered = filter_pricing_at(&pricing, 22, 7, &now);
    let hours: Vec<u32> = filtered.iter().map(|p| p.date_time.hour()).collect();
    assert_eq!(hours, vec![0, 1, 2, 3, 4, 5, 6]);
}

#[test]
fn empty_samples_filter_to_nothing() {
    let now = ZonedDateTime::new(utc(8, 12), 0);
    assert!(filter_pricing_at(&[], 22, 7, &now).is_empty());
}

#[test]
fn operating_hours_are_half_open() {
    assert!(is_within_operating_hours(12, 18, 12));
    assert!(is_within_operating_hours(12, 18, 17));
    assert!(!is_within_operating_hours(12, 18, 18));
    assert!(!is_within_operating_hours(12, 18, 11));
    assert!(is_within_operating_hours(22, 7, 22));
    assert!(is_within_operating_hours(22, 7, 0));
    assert!(is_within_operating_hours(22, 7, 6));
    assert!(!is_within_operating_hours(22, 7, 7));
    assert!(!is_within_operating_hours(22, 7, 21));
}

#[test]
fn equal_start_and_end_cover_the_whole_day() {
    for hour in 0..24 {
        assert!(is_within_operating_hours(5, 5, hour));
    }
}

#[test]
fn cheapest_run_ties_go_to_the_first() {
    let pricing: Vec<Pricing> = (0..8).map(|h| sample(8, h, PRICE_SCALE / 10)).collect();
    assert_eq!(calculate_cheapest_start_time(&pricing, 6), Some(pricing[0].date_time));
}

#[test]
fn cheapest_run_with_negative_prices() {
    let prices = [4_722_000, 4_078_000, 619_000, 869_000, 508_000, 107_000, 0, -1_000, 0];
    let mut pricing = vec![sample(9, 22, prices[0]), sample(9, 23, prices[1])];
    for (hour, price) in prices[2..].iter().enumerate() {
        pricing.push(sample(10, hour as u32, *price));
    }
    assert_eq!(calculate_cheapest_start_time(&pricing, 6), Some(sample(10, 1, 0).date_time));
}

#[test]
fn cheapest_run_on_short_input_is_absent() {
    let pricing = vec![sample(8, 1, 1), sample(8, 2, 1)];
    assert_eq!(calculate_cheapest_start_time(&pricing, 3), None);
    assert_eq!(calculate_cheapest_start_time(&[], 1), None);
}

#[test]
fn cheapest_run_of_the_whole_input() {
    let pricing = vec![sample(8, 1, 7), sample(8, 2, -3)];
    assert_eq!(calculate_cheapest_start_time(&pricing, 2), Some(pricing[0].date_time));
}

#[test]
fn cheapest_run_with_extreme_prices() {
    let pricing = vec![sample(8, 1, i64::MAX), sample(8, 2, i64::MAX), sample(8, 3, i64::MIN)];
    assert_eq!(calculate_cheapest_start_time(&pricing, 2), Some(pricing[1].date_time));
}

fn boundary_pricing() -> Vec<Pricing> {
    vec![
        sample(8, 12, 5),
        sample(8, 13, 1),
        sample(8, 14, 1),
        sample(8, 15, 5),
        sample(8, 16, 5),
        sample(8, 17, 5),
    ]
}

#[test]
fn run_end_is_inclusive() {
    let pricing = boundary_pricing();
    let at = |hour: u32| ZonedDateTime::new(utc(8, hour), 0);
    assert!(!should_enable_at(&at(12), &pricing, 2, 12, 18));
    assert!(should_enable_at(&at(13), &pricing, 2, 12, 18));
    assert!(should_enable_at(&at(14), &pricing, 2, 12, 18));
    assert!(should_enable_at(&at(15), &pricing, 2, 12, 18));
    assert!(!should_enable_at(&at(16), &pricing, 2, 12, 18));
    let just_after_end = ZonedDateTime::new(utc(8, 15) + 1, 0);
    assert!(!should_enable_at(&just_after_end, &pricing, 2, 12, 18));
}

#[test]
fn short_occurrence_is_not_enabled() {
    let pricing = vec![sample(8, 13, 1), sample(8, 14, 1)];
    let now = ZonedDateTime::new(utc(8, 13), 0);
    assert!(should_enable_at(&now, &pricing, 2, 12, 18));
    assert!(!should_enable_at(&now, &pricing, 3, 12, 18));
}

#[test]
fn outside_operating_hours_is_not_enabled() {
    let pricing = boundary_pricing();
    let now = ZonedDateTime::new(utc(8, 13), 0);
    assert!(!should_enable_at(&now, &pricing, 2, 14, 18));
}

#[test]
fn decision_reads_the_zone_clock() {
    let pricing: Vec<Pricing> = vec![
        helsinki_sample(8, 12, 5),
        helsinki_sample(8, 13, 5),
        helsinki_sample(8, 14, 1),
        helsinki_sample(8, 15, 1),
        helsinki_sample(8, 16, 5),
    ];
    // Noon UTC is 15:00 in Helsinki and 14:00 in Stockholm.
    let noon_utc = MockTimeProvider::new(utc(8, 12));
    assert!(should_enable(&noon_utc, &BiddingZone::FI, &pricing, 1, 15, 18));
    assert!(!should_enable(&noon_utc, &BiddingZone::SE3, &pricing, 1, 15, 18));
    assert!(should_enable(&noon_utc, &BiddingZone::SE3, &pricing, 2, 12, 18));
}

#[test]
fn filter_reads_the_zone_clock() {
    let pricing = vec![helsinki_sample(8, 23, 1), helsinki_sample(9, 1, 1)];
    // 21:00 UTC is already the next day in Helsinki, but not yet in Stockholm.
    let late_evening_utc = MockTimeProvider::new(utc(8, 21));
    let filtered =
        get_filtered_pricing(&late_evening_utc, &BiddingZone::FI, &pricing, 22, 7).unwrap();
    assert_eq!(filtered, vec![pricing[1]]);
    let filtered =
        get_filtered_pricing(&late_evening_utc, &BiddingZone::SE3, &pricing, 22, 7).unwrap();
    assert_eq!(filtered.len(), 2);
}

#[test]
fn clock_out_of_range_fails_closed() {
    let far = MockTimeProvider::new(i64::MAX);
    let pricing = boundary_pricing();
    assert!(!should_enable(&far, &BiddingZone::FI, &pricing, 2, 12, 18));
    assert!(get_filtered_pricing(&far, &BiddingZone::FI, &pricing, 12, 18).is_none());
}

#[test]
fn query_params_hold_their_values() {
    let q = QueryParams::new(3, 22, 7);
    assert_eq!((q.hours, q.start, q.end), (3, 22, 7));
}
