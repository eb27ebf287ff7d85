use crypto_bot::interval::{checked_interval_secs, parse_interval_secs};

#[test]
fn minutes_hours_days() {
    assert_eq!(parse_interval_secs("1m"), 60);
    assert_eq!(parse_interval_secs("5m"), 300);
    assert_eq!(parse_interval_secs("15m"), 900);
    assert_eq!(parse_interval_secs("1h"), 3600);
    assert_eq!(parse_interval_secs("4h"), 14400);
    assert_eq!(parse_interval_secs("2d"), 172800);
}

#[test]
fn surrounding_white_space_is_ignored() {
    assert_eq!(parse_interval_secs("  15m\n"), 900);
    assert_eq!(parse_interval_secs("\u{3000}2h\t"), 7200);
}

#[test]
fn unparsable_counts_fall_back() {
    assert_eq!(parse_interval_secs("m"), 300);
    assert_eq!(parse_interval_secs("xm"), 300);
    assert_eq!(parse_interval_secs("5 m"), 300);
    assert_eq!(parse_interval_secs("h"), 3600);
    assert_eq!(parse_interval_secs("-3h"), 3600);
    assert_eq!(parse_interval_secs("d"), 86400);
    assert_eq!(parse_interval_secs("99999999999999999999m"), 300);
}

#[test]
fn plus_sign_is_accepted() {
    assert_eq!(parse_interval_secs("+3m"), 180);
    assert_eq!(parse_interval_secs("++3m"), 300);
}

#[test]
fn other_text_means_five_minutes() {
    assert_eq!(parse_interval_secs(""), 300);
    assert_eq!(parse_interval_secs("10s"), 300);
    assert_eq!(parse_interval_secs("5M"), 300);
    assert_eq!(parse_interval_secs("weekly"), 300);
}

#[test]
fn leading_zeros_and_large_counts() {
    assert_eq!(parse_interval_secs("007m"), 420);
    assert_eq!(parse_interval_secs("1000000d"), 86_400_000_000);
}

#[test]
fn seconds_that_do_not_fit_are_reported() {
    assert_eq!(checked_interval_secs("5m"), Some(300));
    assert_eq!(checked_interval_secs("weekly"), Some(300));
    assert_eq!(checked_interval_secs("18446744073709551615m"), None);
    assert_eq!(checked_interval_secs("307445734561825860m"), Some(18446744073709551600));
    assert_eq!(checked_interval_secs("307445734561825861m"), None);
    assert_eq!(checked_interval_secs("18446744073709551616m"), Some(300));
}
