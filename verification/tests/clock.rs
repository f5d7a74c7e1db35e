use chrono::{DateTime, Duration as ChronoDuration, Local, Utc};
use serde_json::Value;
use welog_rs::clock::{
    duration_nanos, parse_timestamp, respond_after, response_to_rfc3339, times_fit, Latency,
    Timestamp, UtcInstant, MAX_SECS, MIN_SECS,
};

fn at(secs: i64, nanos: u32) -> UtcInstant {
    UtcInstant { secs, nanos }
}

fn instant<Z: chrono::TimeZone>(t: &DateTime<Z>) -> UtcInstant {
    at(t.timestamp(), t.timestamp_subsec_nanos())
}

#[test]
fn duration_nanos_returns_none_for_negative() {
    let start = Local::now();
    let end = start - ChronoDuration::milliseconds(1);
    assert!(duration_nanos(instant(&start), instant(&end)).is_none());
}

#[test]
fn duration_is_counted_in_nanoseconds() {
    assert_eq!(duration_nanos(at(10, 5), at(12, 6)), Some(2_000_000_001));
    assert_eq!(duration_nanos(at(10, 5), at(10, 5)), Some(0));
    assert_eq!(duration_nanos(at(10, 6), at(10, 5)), None);
}

#[test]
fn a_duration_beyond_the_numbers_of_a_log_is_dropped() {
    assert_eq!(duration_nanos(at(0, 0), at(9_223_372_036, 854_775_807)), Some(i64::MAX as u64));
    assert_eq!(duration_nanos(at(0, 0), at(9_223_372_036, 854_775_808)), None);
}

#[test]
fn a_leap_second_counts_between_the_times_of_day() {
    // 2016-12-31T23:59:60.5Z is kept as the second before it, with more than a second of
    // nanoseconds.
    let leap = at(1_483_228_799, 1_500_000_000);
    let from = DateTime::from_timestamp(leap.secs, leap.nanos).unwrap();
    let later = from + ChronoDuration::seconds(3);
    assert_eq!(respond_after(leap, Latency { secs: 3, nanos: 0 }), instant(&later));
    let within = from + ChronoDuration::milliseconds(200);
    assert_eq!(
        respond_after(leap, Latency { secs: 0, nanos: 200_000_000 }),
        instant(&within)
    );
    let end = DateTime::from_timestamp(1_483_228_801, 0).unwrap();
    assert_eq!(
        duration_nanos(leap, instant(&end)).map(|n| n as i64),
        end.signed_duration_since(from).num_nanoseconds()
    );
    let noon = at(1_483_228_700, 0);
    let noon_time = DateTime::from_timestamp(noon.secs, 0).unwrap();
    assert_eq!(
        duration_nanos(noon, leap).map(|n| n as i64),
        from.signed_duration_since(noon_time).num_nanoseconds()
    );
}

#[test]
fn the_elapsed_time_is_the_latency() {
    let start = at(1_704_164_645, 999_999_999);
    let latency = Latency { secs: 61, nanos: 2 };
    let end = respond_after(start, latency);
    assert_eq!(end, at(1_704_164_707, 1));
    assert_eq!(duration_nanos(start, end), Some(61_000_000_002));
}

#[test]
fn an_oversized_latency_is_dropped() {
    let start = at(1_704_164_645, 7);
    assert_eq!(respond_after(start, Latency { secs: u64::MAX, nanos: 0 }), start);
    let limit = Latency { secs: 9_223_372_036_854_775, nanos: 807_000_001 };
    assert_eq!(respond_after(start, limit), start);
}

#[test]
fn timestamps_are_written_with_nanoseconds() {
    let utc = Timestamp { instant: at(0, 0), offset: 0 };
    assert_eq!(utc.to_rfc3339(), "1970-01-01T00:00:00.000000000Z");
    let east = Timestamp { instant: at(1_704_164_645, 6), offset: 19_800 };
    assert_eq!(east.to_rfc3339(), "2024-01-02T08:34:05.000000006+05:30");
    assert_eq!(
        response_to_rfc3339(east, Latency { secs: 1, nanos: 0 }, -3600),
        "2024-01-02T02:04:06.000000006-01:00"
    );
}

#[test]
fn timestamps_read_back() {
    let t = Timestamp { instant: at(1_704_164_645, 123_456_789), offset: -12_600 };
    let text = Value::String(t.to_rfc3339());
    assert_eq!(parse_timestamp(Some(&text)), Some(t.instant));
    assert_eq!(parse_timestamp(None), None);
    assert_eq!(parse_timestamp(Some(&Value::Bool(true))), None);
    assert_eq!(parse_timestamp(Some(&Value::String("yesterday".to_string()))), None);
}

#[test]
fn the_limits_are_those_of_chrono() {
    assert_eq!(DateTime::<Utc>::MIN_UTC.timestamp(), MIN_SECS);
    assert_eq!(DateTime::<Utc>::MAX_UTC.timestamp(), MAX_SECS);
}

#[test]
fn times_within_the_limits_fit() {
    let now = Timestamp { instant: instant(&Utc::now()), offset: 0 };
    assert!(times_fit(now, Latency { secs: 5, nanos: 0 }));
    assert!(times_fit(now, Latency { secs: u64::MAX, nanos: 0 }));
    assert!(!times_fit(now, Latency { secs: 5, nanos: 1_000_000_000 }));
    let late = Timestamp { instant: at(MAX_SECS, 0), offset: 0 };
    assert!(!times_fit(late, Latency { secs: 0, nanos: 0 }));
    let odd = Timestamp { instant: at(12, 1_000_000_000), offset: 0 };
    assert!(!times_fit(odd, Latency { secs: 0, nanos: 0 }));
    let leap = Timestamp { instant: at(59, 1_000_000_000), offset: 0 };
    assert!(times_fit(leap, Latency { secs: 0, nanos: 0 }));
    let far = Timestamp { instant: at(0, 0), offset: 86_400 };
    assert!(!times_fit(far, Latency { secs: 0, nanos: 0 }));
}
