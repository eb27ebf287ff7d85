use crypto_bot::execution::Side;
use crypto_bot::webhook::{opened_message, plan_webhook, plan_webhook_lowered};

#[test]
fn long_and_short_open_positions() {
    let p = plan_webhook(false, "long");
    assert!(!p.close_existing);
    assert_eq!(p.outcome.unwrap(), Side::Long);
    let p = plan_webhook(false, "short");
    assert_eq!(p.outcome.unwrap(), Side::Short);
}

#[test]
fn signals_ignore_case() {
    assert_eq!(plan_webhook(false, "LONG").outcome.unwrap(), Side::Long);
    assert_eq!(plan_webhook(false, "Short").outcome.unwrap(), Side::Short);
}

#[test]
fn open_position_is_closed_first() {
    let p = plan_webhook(true, "long");
    assert!(p.close_existing);
    assert_eq!(p.outcome.unwrap(), Side::Long);
}

#[test]
fn unknown_signal_is_rejected_after_closing() {
    let p = plan_webhook(true, "BUY");
    assert!(p.close_existing);
    assert_eq!(p.outcome.unwrap_err(), "Unknown signal: buy");
    let p = plan_webhook(false, "");
    assert!(!p.close_existing);
    assert_eq!(p.outcome.unwrap_err(), "Unknown signal: ");
}

#[test]
fn lowered_signal_must_match_exactly() {
    assert_eq!(plan_webhook_lowered(false, "long").outcome.unwrap(), Side::Long);
    assert_eq!(plan_webhook_lowered(false, "LONG").outcome.unwrap_err(), "Unknown signal: LONG");
    assert_eq!(plan_webhook_lowered(false, "longer").outcome.unwrap_err(), "Unknown signal: longer");
}

#[test]
fn reply_texts() {
    assert_eq!(opened_message(Side::Long), "Opened LONG position");
    assert_eq!(opened_message(Side::Short), "Opened SHORT position");
}
