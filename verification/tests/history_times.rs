use dikta::db::{created_at_text, daily_stats_since, stats_window};

#[test]
fn created_at_is_rfc3339_utc() {
    assert_eq!(created_at_text(0, 0).unwrap(), "1970-01-01T00:00:00+00:00");
    assert_eq!(created_at_text(86400 + 61, 0).unwrap(), "1970-01-02T00:01:01+00:00");
    assert!(created_at_text(i64::MAX, 0).is_none());
}

#[test]
fn stats_window_today_and_week() {
    let w = stats_window(7 * 86400 + 3600, 0).unwrap();
    assert_eq!(w.today_pattern, "1970-01-08%");
    assert_eq!(w.week_since, "1970-01-01T01:00:00+00:00");
    assert!(stats_window(i64::MIN, 0).is_none());
}

#[test]
fn daily_stats_start() {
    assert_eq!(daily_stats_since(3 * 86400, 0, 1).unwrap(), "1970-01-03T00:00:00+00:00");
    assert_eq!(daily_stats_since(0, 0, 0).unwrap(), "1970-01-01T00:00:00+00:00");
}
