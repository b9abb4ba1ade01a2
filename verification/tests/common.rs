use spomo::common::format_time;

#[test]
fn format_seconds() {
    let formatted = format_time(12);

    assert_eq!("00:00:12", formatted);
}

#[test]
fn format_zero_seconds() {
    let formatted = format_time(0);

    assert_eq!("00:00:00", formatted);
}

#[test]
fn format_minutes() {
    let formatted = format_time(12 * 60 + 25);

    assert_eq!("00:12:25", formatted);
}

#[test]
fn format_hours() {
    let formatted = format_time(11 * 60 * 60 + 25 * 60 + 47);

    assert_eq!("11:25:47", formatted);
}

#[test]
fn format_exact_totals() {
    assert_eq!("00:12:25", format_time(745));
    assert_eq!("11:25:47", format_time(41147));
}

#[test]
fn format_last_second_of_the_day() {
    assert_eq!("23:59:59", format_time(24 * 60 * 60 - 1));
}

#[test]
fn format_wraps_hours_at_a_day() {
    assert_eq!("00:00:00", format_time(24 * 60 * 60));
    assert_eq!("01:00:01", format_time(25 * 60 * 60 + 1));
}

#[test]
fn format_largest_number_of_seconds() {
    // 18446744073709551615 s = 5124095576030431 h 0 min 15 s, and
    // 5124095576030431 mod 24 = 7.
    assert_eq!("07:00:15", format_time(u64::MAX));
}

#[test]
fn format_is_always_eight_characters() {
    for seconds in [0u64, 9, 10, 59, 60, 3599, 3600, 86399, 86400, u64::MAX] {
        let formatted = format_time(seconds);
        assert_eq!(8, formatted.len());
        assert_eq!(Some(':'), formatted.chars().nth(2));
        assert_eq!(Some(':'), formatted.chars().nth(5));
    }
}
