use oryxis_app::clock::format_clock;

#[test]
fn clock_formats_minutes_and_hours() {
    assert_eq!(format_clock(0), "0:00");
    assert_eq!(format_clock(59_999), "0:59");
    assert_eq!(format_clock(65_000), "1:05");
    assert_eq!(format_clock(3_600_000), "1:00:00");
    assert_eq!(format_clock(-5), "0:00");
}

#[test]
fn clock_pads_minutes_and_seconds_past_the_hour() {
    assert_eq!(format_clock(3_661_000), "1:01:01");
    assert_eq!(format_clock(36_000_000 + 59 * 60_000 + 59_000), "10:59:59");
    assert_eq!(format_clock(600_000), "10:00");
    assert_eq!(format_clock(-1_000_000), "0:00");
    assert_eq!(format_clock(i64::MAX), "2562047788015:12:55");
}
