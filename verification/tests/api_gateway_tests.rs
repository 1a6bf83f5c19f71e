use ax_exchange_sdk::protocol::api_gateway::{
    GetBookRequest, LeaderboardCadence, LeaderboardMetric, DEFAULT_BOOK_LEVEL,
};
use ax_exchange_sdk::time::UtcTime;
use chrono::{DateTime, TimeZone, Utc};

fn at(dt: DateTime<Utc>) -> UtcTime {
    UtcTime { secs: dt.timestamp(), nanos: dt.timestamp_subsec_nanos() }
}

#[test]
fn test_monthly_period_start() {
    let c = LeaderboardCadence::Monthly;
    assert_eq!(
        c.period_start(at(Utc.with_ymd_and_hms(2025, 7, 15, 12, 30, 0).unwrap())).unwrap(),
        at(Utc.with_ymd_and_hms(2025, 7, 1, 0, 0, 0).unwrap())
    );
    assert_eq!(
        c.period_start(at(Utc.with_ymd_and_hms(2025, 1, 1, 12, 30, 0).unwrap())).unwrap(),
        at(Utc.with_ymd_and_hms(2025, 1, 1, 0, 0, 0).unwrap())
    );
    assert_eq!(
        c.period_start(at(Utc.with_ymd_and_hms(2025, 12, 31, 12, 30, 0).unwrap())).unwrap(),
        at(Utc.with_ymd_and_hms(2025, 12, 1, 0, 0, 0).unwrap())
    );
}

#[test]
fn test_monthly_next_period_start() {
    let c = LeaderboardCadence::Monthly;
    let jan = at(Utc.with_ymd_and_hms(2025, 1, 1, 0, 0, 0).unwrap());
    assert_eq!(c.next_period_start(jan).unwrap(), at(Utc.with_ymd_and_hms(2025, 2, 1, 0, 0, 0).unwrap()));
    let dec = at(Utc.with_ymd_and_hms(2025, 12, 1, 0, 0, 0).unwrap());
    assert_eq!(c.next_period_start(dec).unwrap(), at(Utc.with_ymd_and_hms(2026, 1, 1, 0, 0, 0).unwrap()));
}

#[test]
fn test_monthly_crossed_boundary() {
    let c = LeaderboardCadence::Monthly;
    let jan_15 = at(Utc.with_ymd_and_hms(2025, 1, 15, 12, 30, 0).unwrap());
    let jan_20 = at(Utc.with_ymd_and_hms(2025, 1, 20, 12, 30, 0).unwrap());
    let feb_1 = at(Utc.with_ymd_and_hms(2025, 2, 1, 12, 30, 0).unwrap());
    let jan_next_year = at(Utc.with_ymd_and_hms(2026, 1, 15, 12, 30, 0).unwrap());
    assert!(!c.crossed_boundary(jan_15, jan_20));
    assert!(c.crossed_boundary(jan_15, feb_1));
    assert!(c.crossed_boundary(jan_15, jan_next_year));
}

#[test]
fn leaderboard_period_is_stable_within_the_month() {
    let c = LeaderboardCadence::Monthly;
    let t = at(Utc.with_ymd_and_hms(2024, 2, 29, 23, 59, 59).unwrap());
    let start = c.period_start(t).unwrap();
    assert_eq!(start, at(Utc.with_ymd_and_hms(2024, 2, 1, 0, 0, 0).unwrap()));
    assert_eq!(c.period_start(start).unwrap(), start);
    assert!(!c.crossed_boundary(start, t));
    assert_eq!(c.next_period_start(t).unwrap(), at(Utc.with_ymd_and_hms(2024, 3, 1, 0, 0, 0).unwrap()));
    assert_eq!(LeaderboardCadence::all(), vec![LeaderboardCadence::Monthly]);
    assert_eq!(LeaderboardCadence::Monthly.as_str(), "monthly");
    assert_eq!(LeaderboardMetric::Volume.as_str(), "volume");
}

#[test]
fn book_request_level_defaults_to_two() {
    let r = GetBookRequest { symbol: "X".to_string(), level: None };
    assert_eq!(r.resolved_level(), DEFAULT_BOOK_LEVEL);
    let r = GetBookRequest { symbol: "X".to_string(), level: Some(3) };
    assert_eq!(r.resolved_level(), 3);
}

#[test]
fn monthly_periods_at_chrono_limits() {
    let c = LeaderboardCadence::Monthly;
    let last = at(Utc.with_ymd_and_hms(262142, 12, 31, 23, 59, 59).unwrap());
    assert_eq!(c.period_start(last).unwrap(), at(Utc.with_ymd_and_hms(262142, 12, 1, 0, 0, 0).unwrap()));
    assert_eq!(c.next_period_start(last), None);
    let first = at(Utc.with_ymd_and_hms(-262143, 1, 1, 0, 0, 0).unwrap());
    assert_eq!(c.period_start(first).unwrap(), first);
    assert_eq!(c.next_period_start(first).unwrap(), at(Utc.with_ymd_and_hms(-262143, 2, 1, 0, 0, 0).unwrap()));
    assert!(c.crossed_boundary(first, last));
}
