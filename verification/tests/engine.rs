use crypto_bot::engine::{decide_tick, live_step, LiveStep, TickAction};
use crypto_bot::execution::Side;
use crypto_bot::strategy::RsiLevels;

fn levels(rsi: f64) -> RsiLevels {
    RsiLevels {
        below_oversold: rsi < 30.0,
        above_overbought: rsi > 70.0,
        at_or_above_neutral: rsi >= 50.0,
        at_or_below_neutral: rsi <= 50.0,
    }
}

#[test]
fn tick_without_rsi_is_skipped() {
    assert_eq!(decide_tick(None, Some(Side::Long), true), TickAction::Skip);
    assert_eq!(decide_tick(None, None, false), TickAction::Skip);
}

#[test]
fn stop_loss_comes_before_any_signal() {
    assert_eq!(decide_tick(Some(levels(60.0)), Some(Side::Long), true), TickAction::StopLoss);
    assert_eq!(decide_tick(Some(levels(20.0)), Some(Side::Short), true), TickAction::StopLoss);
}

#[test]
fn stop_flag_is_ignored_when_flat() {
    assert_eq!(decide_tick(Some(levels(25.0)), None, true), TickAction::Open(Side::Long));
}

#[test]
fn flat_account_enters_on_extremes() {
    assert_eq!(decide_tick(Some(levels(25.0)), None, false), TickAction::Open(Side::Long));
    assert_eq!(decide_tick(Some(levels(75.0)), None, false), TickAction::Open(Side::Short));
    assert_eq!(decide_tick(Some(levels(45.0)), None, false), TickAction::Hold);
}

#[test]
fn open_position_closes_at_neutral() {
    assert_eq!(decide_tick(Some(levels(50.0)), Some(Side::Long), false), TickAction::Close);
    assert_eq!(decide_tick(Some(levels(50.0)), Some(Side::Short), false), TickAction::Close);
}

#[test]
fn no_second_position_while_one_is_open() {
    assert_eq!(decide_tick(Some(levels(10.0)), Some(Side::Long), false), TickAction::Hold);
    assert_eq!(decide_tick(Some(levels(90.0)), Some(Side::Short), false), TickAction::Hold);
}

#[test]
fn replayed_ticks_hold_one_position_at_a_time() {
    // flat -> long -> (no second entry) -> close -> short -> stop-loss
    let ticks = [
        (Some(levels(25.0)), false),
        (Some(levels(20.0)), false),
        (Some(levels(55.0)), false),
        (Some(levels(80.0)), false),
        (Some(levels(85.0)), true),
        (None, false),
    ];
    let mut position: Option<Side> = None;
    let mut open_count = 0;
    let mut close_count = 0;
    let mut actions = Vec::new();
    for (rsi, stop) in ticks {
        let a = decide_tick(rsi, position, stop);
        match a {
            TickAction::Open(side) => {
                open_count += 1;
                position = Some(side);
            }
            TickAction::Close | TickAction::StopLoss => {
                close_count += 1;
                position = None;
            }
            _ => {}
        }
        assert!(open_count - close_count <= 1);
        actions.push(a);
    }
    assert_eq!(
        actions,
        vec![
            TickAction::Open(Side::Long),
            TickAction::Hold,
            TickAction::Close,
            TickAction::Open(Side::Short),
            TickAction::StopLoss,
            TickAction::Skip,
        ]
    );
    assert_eq!(position, None);
}

#[test]
fn live_step_needs_more_candles_than_the_period() {
    assert_eq!(live_step(Some(100), 14), LiveStep::Process);
    assert_eq!(live_step(Some(15), 14), LiveStep::Process);
    assert_eq!(live_step(Some(14), 14), LiveStep::TooFewCandles);
    assert_eq!(live_step(Some(0), 14), LiveStep::TooFewCandles);
    assert_eq!(live_step(None, 14), LiveStep::FetchFailed);
}
