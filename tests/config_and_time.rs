use ttl_cache::clock::{timestamp_at, MAX_TEXT_SECONDS, MIN_TEXT_SECONDS};
use ttl_cache::config::{listen_address, parse_decimal, schedule_setting, ConfigError, ScheduleSetting};
use ttl_cache::time::TimeUnit;

#[test]
fn unit_parse_accepts_exact_names() {
    assert_eq!(TimeUnit::parse("Seconds"), Some(TimeUnit::Seconds));
    assert_eq!(TimeUnit::parse("Minutes"), Some(TimeUnit::Minutes));
    assert_eq!(TimeUnit::parse("Hours"), Some(TimeUnit::Hours));
    assert_eq!(TimeUnit::parse("minutes"), None);
    assert_eq!(TimeUnit::parse(""), None);
    assert_eq!(TimeUnit::parse("Days"), None);
}

#[test]
fn unit_name_reads_back() {
    for u in [TimeUnit::Seconds, TimeUnit::Minutes, TimeUnit::Hours] {
        assert_eq!(TimeUnit::parse(&u.name()), Some(u));
    }
    assert_eq!(TimeUnit::Minutes.name(), "Minutes");
}

#[test]
fn unit_seconds() {
    assert_eq!(TimeUnit::Seconds.to_seconds(5), Some(5));
    assert_eq!(TimeUnit::Minutes.to_seconds(5), Some(300));
    assert_eq!(TimeUnit::Hours.to_seconds(2), Some(7200));
    assert_eq!(TimeUnit::Hours.to_seconds(u64::MAX), None);
    assert_eq!(TimeUnit::Seconds.to_seconds(u64::MAX), Some(u64::MAX));
}

#[test]
fn unit_durations() {
    assert_eq!(TimeUnit::Minutes.to_duration(5).num_seconds(), 300);
    assert_eq!(TimeUnit::Hours.to_duration(1).num_seconds(), 3600);
    assert_eq!(TimeUnit::Minutes.to_tokio_duration(5).as_secs(), 300);
    assert_eq!(TimeUnit::Seconds.to_tokio_duration(7).as_secs(), 7);
}

#[test]
fn decimal_parsing() {
    assert_eq!(parse_decimal("5"), Some(5));
    assert_eq!(parse_decimal("+7"), Some(7));
    assert_eq!(parse_decimal("0042"), Some(42));
    assert_eq!(parse_decimal("18446744073709551615"), Some(u64::MAX));
    assert_eq!(parse_decimal("18446744073709551616"), None);
    assert_eq!(parse_decimal("99999999999999999999x"), None);
    assert_eq!(parse_decimal(""), None);
    assert_eq!(parse_decimal("+"), None);
    assert_eq!(parse_decimal("-1"), None);
    assert_eq!(parse_decimal("1 "), None);
    assert_eq!(parse_decimal("abc"), None);
}

#[test]
fn schedule_defaults() {
    assert_eq!(
        schedule_setting(None, None),
        Ok(ScheduleSetting { interval_value: 5, unit: TimeUnit::Minutes })
    );
    let s = schedule_setting(None, None).unwrap();
    assert_eq!(s.interval_seconds(), 300);
    let sw = s.sweeper();
    assert_eq!(sw.interval_seconds, 300);
    assert_eq!(sw.ttl_seconds, 300);
    assert!(!sw.stopped);
}

#[test]
fn schedule_given_values() {
    assert_eq!(
        schedule_setting(Some("1"), Some("Seconds")),
        Ok(ScheduleSetting { interval_value: 1, unit: TimeUnit::Seconds })
    );
    assert_eq!(
        schedule_setting(Some("2"), Some("Hours")),
        Ok(ScheduleSetting { interval_value: 2, unit: TimeUnit::Hours })
    );
}

#[test]
fn schedule_errors() {
    assert_eq!(schedule_setting(Some("five"), None), Err(ConfigError::InvalidInterval));
    assert_eq!(schedule_setting(Some("0"), None), Err(ConfigError::InvalidInterval));
    assert_eq!(schedule_setting(None, Some("Weeks")), Err(ConfigError::InvalidUnit));
    assert_eq!(
        schedule_setting(Some("9223372036854776"), Some("Seconds")),
        Err(ConfigError::InvalidInterval)
    );
    assert_eq!(
        schedule_setting(Some("9223372036854775"), Some("Seconds")),
        Ok(ScheduleSetting { interval_value: 9223372036854775, unit: TimeUnit::Seconds })
    );
    assert_eq!(
        schedule_setting(Some("18446744073709551615"), Some("Hours")),
        Err(ConfigError::InvalidInterval)
    );
}

#[test]
fn address() {
    assert_eq!(listen_address(None), "0.0.0.0:3000");
    assert_eq!(listen_address(Some("8080")), "0.0.0.0:8080");
}

#[test]
fn timestamp_text() {
    assert_eq!(timestamp_at(0).as_deref(), Some("1970-01-01 00:00:00"));
    assert_eq!(timestamp_at(1_700_000_000).as_deref(), Some("2023-11-14 22:13:20"));
    assert_eq!(timestamp_at(253_402_300_799).as_deref(), Some("9999-12-31 23:59:59"));
    assert_eq!(timestamp_at(i64::MAX), None);
}

#[test]
fn timestamp_text_range_and_order() {
    assert_eq!(timestamp_at(MIN_TEXT_SECONDS).as_deref(), Some("0000-01-01 00:00:00"));
    assert_eq!(timestamp_at(-1).as_deref(), Some("1969-12-31 23:59:59"));
    let instants = [MIN_TEXT_SECONDS, -86_400, -1, 0, 59, 60, 3_599, 86_399, 1_700_000_000, MAX_TEXT_SECONDS];
    let texts: Vec<String> = instants.iter().map(|s| timestamp_at(*s).unwrap()).collect();
    for t in &texts {
        assert_eq!(t.chars().count(), 19);
    }
    for w in texts.windows(2) {
        assert!(w[0] < w[1]);
    }
}
