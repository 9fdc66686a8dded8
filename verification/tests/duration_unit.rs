use std::time::Duration;

use serde_duration_ext::DurationUnit;
use serde_duration_ext::error::Error;
use serde_duration_ext::TimeUnit;

#[test]
fn test_duration_unit_from_str() {
    let duration_unit = DurationUnit::from_str("10s").unwrap();
    assert_eq!(duration_unit.value(), 10);
    assert_eq!(duration_unit.unit(), TimeUnit::Second);

    let duration_unit = DurationUnit::from_str("500ms").unwrap();
    assert_eq!(duration_unit.value(), 500);
    assert_eq!(duration_unit.unit(), TimeUnit::Millisecond);

    let duration_unit = DurationUnit::from_str("1h").unwrap();
    assert_eq!(duration_unit.value(), 1);
    assert_eq!(duration_unit.unit(), TimeUnit::Hour);

    let duration_unit = DurationUnit::from_str("100us").unwrap();
    assert_eq!(duration_unit.value(), 100);
    assert_eq!(duration_unit.unit(), TimeUnit::Microsecond);

    let duration_unit = DurationUnit::from_str("2d").unwrap();
    assert_eq!(duration_unit.value(), 2);
    assert_eq!(duration_unit.unit(), TimeUnit::Day);

    let duration_unit = DurationUnit::from_str("1w").unwrap();
    assert_eq!(duration_unit.value(), 1);
    assert_eq!(duration_unit.unit(), TimeUnit::Week);

    let duration_unit = DurationUnit::from_str("invalid");
    assert!(duration_unit.is_err());
}

#[test]
fn test_duration_unit_into_duration() {
    let duration_unit = DurationUnit::new(10, TimeUnit::Second);
    let duration: Duration = duration_unit.to_duration();
    assert_eq!(duration, Duration::from_secs(10));

    let duration_unit = DurationUnit::new(500, TimeUnit::Millisecond);
    let duration: Duration = duration_unit.to_duration();
    assert_eq!(duration, Duration::from_millis(500));

    let duration_unit = DurationUnit::new(1, TimeUnit::Hour);
    let duration: Duration = duration_unit.to_duration();
    assert_eq!(duration, Duration::from_secs(3600));

    let duration_unit = DurationUnit::new(100, TimeUnit::Microsecond);
    let duration: Duration = duration_unit.to_duration();
    assert_eq!(duration, Duration::from_micros(100));

    let duration_unit = DurationUnit::new(2, TimeUnit::Day);
    let duration: Duration = duration_unit.to_duration();
    assert_eq!(duration, Duration::from_secs(172_800));

    let duration_unit = DurationUnit::new(1, TimeUnit::Week);
    let duration: Duration = duration_unit.to_duration();
    assert_eq!(duration, Duration::from_secs(604_800));
}

#[test]
fn test_duration_unit_into_chrono_duration() {
    let duration_unit = DurationUnit::new(10, TimeUnit::Second);
    let duration: chrono::Duration = duration_unit.to_time_delta().unwrap();
    assert_eq!(duration, chrono::Duration::seconds(10));

    let duration_unit = DurationUnit::new(500, TimeUnit::Millisecond);
    let duration: chrono::Duration = duration_unit.to_time_delta().unwrap();
    assert_eq!(duration, chrono::Duration::milliseconds(500));

    let duration_unit = DurationUnit::new(1, TimeUnit::Hour);
    let duration: chrono::Duration = duration_unit.to_time_delta().unwrap();
    assert_eq!(duration, chrono::Duration::hours(1));

    let duration_unit = DurationUnit::new(100, TimeUnit::Microsecond);
    let duration: chrono::Duration = duration_unit.to_time_delta().unwrap();
    assert_eq!(duration, chrono::Duration::microseconds(100));

    let duration_unit = DurationUnit::new(2, TimeUnit::Day);
    let duration: chrono::Duration = duration_unit.to_time_delta().unwrap();
    assert_eq!(duration, chrono::Duration::days(2));

    let duration_unit = DurationUnit::new(1, TimeUnit::Week);
    let duration: chrono::Duration = duration_unit.to_time_delta().unwrap();
    assert_eq!(duration, chrono::Duration::weeks(1));
}

#[test]
fn test_parse_accepts_every_short_code() {
    let cases: Vec<(&str, u64, TimeUnit)> = vec![
        ("0ns", 0, TimeUnit::Nanosecond),
        ("7us", 7, TimeUnit::Microsecond),
        ("042ms", 42, TimeUnit::Millisecond),
        ("10s", 10, TimeUnit::Second),
        ("90m", 90, TimeUnit::Minute),
        ("23h", 23, TimeUnit::Hour),
        ("365d", 365, TimeUnit::Day),
        ("52w", 52, TimeUnit::Week),
        ("18446744073709551615ns", u64::MAX, TimeUnit::Nanosecond),
    ];
    for (input, value, unit) in cases {
        let parsed = DurationUnit::from_str(input).unwrap();
        assert_eq!(parsed.value(), value);
        assert_eq!(parsed.unit(), unit);
    }
}

#[test]
fn test_parse_rejects_malformed_strings() {
    let bad: Vec<&str> = vec![
        "",
        "10",
        "s",
        "s10",
        "10 s",
        " 10s",
        "10s ",
        "-5s",
        "+5s",
        "1.5s",
        "10S",
        "10sec",
        "10seconds",
        "1h30m",
        "0x10s",
        "10\u{661}s",
    ];
    for input in bad {
        let err = DurationUnit::from_str(input).unwrap_err();
        match err {
            Error::Syntax(_) => {}
            other => panic!("expected Syntax for {:?}, got {:?}", input, other),
        }
    }
}

#[test]
fn test_parse_rejects_value_overflow() {
    // One more than u64::MAX.
    let err = DurationUnit::from_str("18446744073709551616s").unwrap_err();
    match err {
        Error::Syntax(_) => {}
        other => panic!("expected Syntax, got {:?}", other),
    }
}

#[test]
fn test_as_secs_conversion_factors() {
    assert_eq!(DurationUnit::new(10, TimeUnit::Second).as_secs(), 10);
    assert_eq!(DurationUnit::new(500, TimeUnit::Millisecond).as_secs(), 0);
    assert_eq!(DurationUnit::new(1_999, TimeUnit::Millisecond).as_secs(), 1);
    assert_eq!(DurationUnit::new(999_999_999, TimeUnit::Nanosecond).as_secs(), 0);
    assert_eq!(DurationUnit::new(2_000_000_001, TimeUnit::Nanosecond).as_secs(), 2);
    assert_eq!(DurationUnit::new(3_500_000, TimeUnit::Microsecond).as_secs(), 3);
    assert_eq!(DurationUnit::new(90, TimeUnit::Minute).as_secs(), 5_400);
    assert_eq!(DurationUnit::new(2, TimeUnit::Hour).as_secs(), 7_200);
    assert_eq!(DurationUnit::new(2, TimeUnit::Day).as_secs(), 172_800);
    assert_eq!(DurationUnit::new(1, TimeUnit::Week).as_secs(), 604_800);
}

#[test]
fn test_checked_as_secs_overflow() {
    assert_eq!(DurationUnit::new(u64::MAX, TimeUnit::Second).checked_as_secs(), Some(u64::MAX));
    assert_eq!(DurationUnit::new(u64::MAX, TimeUnit::Nanosecond).checked_as_secs(), Some(u64::MAX / 1_000_000_000));
    assert_eq!(DurationUnit::new(u64::MAX, TimeUnit::Minute).checked_as_secs(), None);
    assert_eq!(DurationUnit::new(u64::MAX, TimeUnit::Week).checked_as_secs(), None);
    assert_eq!(DurationUnit::new(u64::MAX / 60, TimeUnit::Minute).checked_as_secs(), Some((u64::MAX / 60) * 60));
    assert_eq!(DurationUnit::new(u64::MAX / 60 + 1, TimeUnit::Minute).checked_as_secs(), None);
}

#[test]
fn test_subsec_nanos_per_unit() {
    assert_eq!(DurationUnit::new(500, TimeUnit::Millisecond).subsec_nanos(), 500_000_000);
    assert_eq!(DurationUnit::new(1_234_567, TimeUnit::Microsecond).subsec_nanos(), 234_567_000);
    assert_eq!(DurationUnit::new(2_000_000_001, TimeUnit::Nanosecond).subsec_nanos(), 1);
    assert_eq!(DurationUnit::new(10, TimeUnit::Second).subsec_nanos(), 0);
    assert_eq!(DurationUnit::new(10, TimeUnit::Week).subsec_nanos(), 0);
}

#[test]
fn test_checked_to_duration_overflow() {
    assert_eq!(
        DurationUnit::new(2, TimeUnit::Week).checked_to_duration(),
        Some(Duration::from_secs(1_209_600))
    );
    assert_eq!(DurationUnit::new(u64::MAX, TimeUnit::Week).checked_to_duration(), None);
    assert_eq!(
        DurationUnit::new(u64::MAX, TimeUnit::Nanosecond).checked_to_duration(),
        Some(Duration::from_nanos(u64::MAX))
    );
}

#[test]
fn test_to_time_delta_bounds() {
    // chrono::TimeDelta spans at most i64::MAX milliseconds.
    let max_secs: u64 = (i64::MAX / 1000) as u64;
    assert!(DurationUnit::new(max_secs, TimeUnit::Second).to_time_delta().is_some());
    assert_eq!(DurationUnit::new(max_secs + 1, TimeUnit::Second).to_time_delta(), None);
    assert_eq!(DurationUnit::new(u64::MAX, TimeUnit::Week).to_time_delta(), None);
    assert_eq!(
        DurationUnit::new(u64::MAX, TimeUnit::Nanosecond).to_time_delta(),
        chrono::TimeDelta::new((u64::MAX / 1_000_000_000) as i64, (u64::MAX % 1_000_000_000) as u32)
    );
}

#[test]
fn test_duration_unit_ordering_is_structural() {
    // Magnitude orders first, then unit rank.
    assert!(DurationUnit::new(1, TimeUnit::Week) < DurationUnit::new(2, TimeUnit::Nanosecond));
    assert!(DurationUnit::new(1, TimeUnit::Minute) < DurationUnit::new(1, TimeUnit::Hour));
    assert!(DurationUnit::new(60, TimeUnit::Minute) > DurationUnit::new(1, TimeUnit::Hour));
    assert!(DurationUnit::new(5, TimeUnit::Day) <= DurationUnit::new(5, TimeUnit::Day));
}

#[test]
fn test_structural_equality_not_semantic() {
    // 60 minutes and 1 hour denote the same span but are distinct values.
    let minutes = DurationUnit::new(60, TimeUnit::Minute);
    let hour = DurationUnit::new(1, TimeUnit::Hour);
    assert_ne!(minutes, hour);
    assert_eq!(minutes.as_secs(), hour.as_secs());
    assert_eq!(minutes, DurationUnit::new(60, TimeUnit::Minute));
}
