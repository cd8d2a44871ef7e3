use daylight::window::{
    compute_window, ConfigError, ConfiguredTime, DayWindow, DEFAULT_SLACK_SECONDS,
};

#[test]
fn configured_time_accepts_real_wall_clock_times() {
    assert_eq!(
        ConfiguredTime::new(7, 30),
        Some(ConfiguredTime { hour: 7, minute: 30 })
    );
    assert_eq!(
        ConfiguredTime::new(0, 0),
        Some(ConfiguredTime { hour: 0, minute: 0 })
    );
    assert_eq!(
        ConfiguredTime::new(23, 59),
        Some(ConfiguredTime { hour: 23, minute: 59 })
    );
}

#[test]
fn configured_time_rejects_out_of_range_fields() {
    assert_eq!(ConfiguredTime::new(24, 0), None);
    assert_eq!(ConfiguredTime::new(7, 60), None);
    assert_eq!(ConfiguredTime::new(255, 255), None);
}

#[test]
fn configured_time_resolves_against_a_local_midnight() {
    let wake = ConfiguredTime::new(7, 30).unwrap();
    assert_eq!(wake.seconds_from_midnight(), 7 * 3600 + 30 * 60);
    assert_eq!(wake.resolve(1700000000), 1700000000 + 27000);
    let bed = ConfiguredTime::new(22, 0).unwrap();
    assert_eq!(bed.resolve(0), 79200);
}

#[test]
fn window_covers_whichever_is_broader() {
    // Natural daylight is broader than the configured hours.
    assert_eq!(
        compute_window(1000, 2000, 1500, 1800, 300),
        Ok(DayWindow { start_of_day: 1000, end_of_day: 2100 })
    );
    // The configured hours are broader than natural daylight.
    assert_eq!(
        compute_window(1000, 2000, 600, 2500, 0),
        Ok(DayWindow { start_of_day: 600, end_of_day: 2500 })
    );
}

#[test]
fn window_start_and_end_are_exactly_min_and_max() {
    let sunrise: i64 = 1700020000;
    let sunset: i64 = 1700060000;
    let wake: i64 = 1700027000;
    let bed: i64 = 1700079200;
    let w = compute_window(sunrise, sunset, wake, bed, DEFAULT_SLACK_SECONDS).unwrap();
    assert_eq!(w.start_of_day, (sunrise).min(wake - DEFAULT_SLACK_SECONDS));
    assert_eq!(w.end_of_day, (sunset).max(bed + DEFAULT_SLACK_SECONDS));
}

#[test]
fn inverted_window_is_rejected() {
    assert_eq!(
        compute_window(5000, 1000, 6000, 500, 0),
        Err(ConfigError::InvertedWindow)
    );
    // A zero-length window is inverted too.
    assert_eq!(
        compute_window(100, 100, 200, 50, 0),
        Err(ConfigError::InvertedWindow)
    );
}

#[test]
fn default_slack_is_thirty_minutes() {
    assert_eq!(DEFAULT_SLACK_SECONDS, 1800);
}
