use sysbanner::uptime::format_uptime;

#[test]
fn zero_seconds_is_zero_minutes() {
    assert_eq!(format_uptime(0), "0m");
}

#[test]
fn seconds_are_dropped_not_rounded() {
    assert_eq!(format_uptime(59), "0m");
    assert_eq!(format_uptime(90), "1m");
    assert_eq!(format_uptime(125), "2m");
}

#[test]
fn hours_appear_from_one_hour_on() {
    assert_eq!(format_uptime(3599), "59m");
    assert_eq!(format_uptime(3600), "1h 0m");
    assert_eq!(format_uptime(3661), "1h 1m");
    assert_eq!(format_uptime(3700), "1h 1m");
}

#[test]
fn days_appear_from_one_day_on() {
    assert_eq!(format_uptime(86399), "23h 59m");
    assert_eq!(format_uptime(86400), "1d 0h 0m");
    assert_eq!(format_uptime(90000), "1d 1h 0m");
    assert_eq!(format_uptime(86400 * 400 + 3600 * 23 + 60 * 59 + 59), "400d 23h 59m");
}

#[test]
fn the_longest_uptime_is_formatted() {
    assert_eq!(format_uptime(u64::MAX), "213503982334601d 7h 0m");
}

#[test]
fn no_uptime_shows_a_seconds_unit() {
    let mut seconds: u64 = 0;
    while seconds < 200_000 {
        let text = format_uptime(seconds);
        assert!(!text.contains('s'));
        assert!(text.ends_with('m'));
        seconds += 37;
    }
}
