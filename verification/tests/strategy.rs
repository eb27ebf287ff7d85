use crypto_bot::strategy::{rsi_value_count, signal_from_levels, RsiLevels, Signal};

/// Where `rsi` stands against the thresholds 30 / 70 / 50 of the sample config.
fn levels(rsi: f64) -> RsiLevels {
    let oversold = 30.0;
    let overbought = 70.0;
    let neutral = 50.0;
    RsiLevels {
        below_oversold: rsi < oversold,
        above_overbought: rsi > overbought,
        at_or_above_neutral: rsi >= neutral,
        at_or_below_neutral: rsi <= neutral,
    }
}

#[test]
fn test_long_entry() {
    assert_eq!(signal_from_levels(levels(25.0), false, false), Signal::Long);
}

#[test]
fn test_short_entry() {
    assert_eq!(signal_from_levels(levels(75.0), false, false), Signal::Short);
}

#[test]
fn test_close_long() {
    assert_eq!(signal_from_levels(levels(50.0), true, false), Signal::CloseLong);
}

#[test]
fn test_close_short() {
    assert_eq!(signal_from_levels(levels(50.0), false, true), Signal::CloseShort);
}

#[test]
fn test_hold() {
    assert_eq!(signal_from_levels(levels(45.0), false, false), Signal::Hold);
}

#[test]
fn no_entry_while_a_position_is_open() {
    // a reading that would enter short while long, or long while short
    assert_eq!(signal_from_levels(levels(10.0), true, false), Signal::Hold);
    assert_eq!(signal_from_levels(levels(90.0), false, true), Signal::Hold);
}

#[test]
fn long_stays_open_below_neutral() {
    assert_eq!(signal_from_levels(levels(49.9), true, false), Signal::Hold);
    assert_eq!(signal_from_levels(levels(50.1), false, true), Signal::Hold);
}

#[test]
fn thresholds_are_strict_for_entries() {
    assert_eq!(signal_from_levels(levels(30.0), false, false), Signal::Hold);
    assert_eq!(signal_from_levels(levels(70.0), false, false), Signal::Hold);
}

#[test]
fn a_reading_that_is_not_a_number_holds() {
    assert_eq!(signal_from_levels(levels(f64::NAN), false, false), Signal::Hold);
    assert_eq!(signal_from_levels(levels(f64::NAN), true, false), Signal::Hold);
}

#[test]
fn rsi_count_is_closes_minus_period() {
    assert_eq!(rsi_value_count(15, 14), 1);
    assert_eq!(rsi_value_count(20, 14), 6);
}

#[test]
fn rsi_count_is_zero_without_enough_data() {
    assert_eq!(rsi_value_count(3, 14), 0);
    assert_eq!(rsi_value_count(14, 14), 0);
    assert_eq!(rsi_value_count(20, 0), 0);
}

#[test]
fn test_rsi_not_enough_data() {
    // three closes cannot seed a 14-period RSI
    assert_eq!(rsi_value_count(3, 14), 0);
}
