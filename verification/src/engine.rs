use vstd::prelude::*;

use crate::execution::Side;
use crate::strategy::{signal_from_levels, signal_rule, rsi_count_spec, RsiLevels, Signal};

verus! {

/// What one tick of the engine does to the account.
#[derive(Clone, Copy, Debug, PartialEq, Eq, Structural)]
pub enum TickAction {
    /// No RSI value could be computed from the candles seen so far.
    Skip,
    /// The open position's stop-loss was hit: close it at the current price.
    StopLoss,
    /// Open a new position on this side, sized from the current equity.
    Open(Side),
    /// Close the open position at the current price (RSI back at neutral).
    Close,
    /// Leave the account as it is.
    Hold,
}

/// The engine's decision for one tick.
///
/// `rsi` is `None` when no RSI value is available; `position` is the side of
/// the open position, if any; `stop_hit` says whether the stop-loss check of
/// that position fired at the current price (it is ignored when flat).
pub open spec fn tick_rule(rsi: Option<RsiLevels>, position: Option<Side>, stop_hit: bool) -> TickAction {
    match rsi {
        None => TickAction::Skip,
        Some(levels) => {
            if position is Some && stop_hit {
                TickAction::StopLoss
            } else {
                match signal_rule(levels, position == Some(Side::Long), position == Some(Side::Short)) {
                    Signal::Long => TickAction::Open(Side::Long),
                    Signal::Short => TickAction::Open(Side::Short),
                    Signal::CloseLong => TickAction::Close,
                    Signal::CloseShort => TickAction::Close,
                    Signal::Hold => TickAction::Hold,
                }
            }
        },
    }
}

/// Decide what one candle tick does: skip without an RSI value, honour the
/// stop-loss of an open position before anything else, then follow the signal.
pub fn decide_tick(rsi: Option<RsiLevels>, position: Option<Side>, stop_hit: bool) -> (a: TickAction)
    ensures
        a == tick_rule(rsi, position, stop_hit),
        // only one open position at a time
        a is Open ==> position is None,
        // closing needs something to close
        (a == TickAction::Close || a == TickAction::StopLoss) ==> position is Some,
        // the stop-loss takes precedence over every signal
        (rsi is Some && position is Some && stop_hit) ==> a == TickAction::StopLoss,
        // entries only on the matching extreme reading
        a == TickAction::Open(Side::Short) ==> rsi is Some && rsi->0.above_overbought && !rsi->0.below_oversold,
        a == TickAction::Open(Side::Long) ==> rsi is Some && rsi->0.below_oversold,
        (rsi is Some && position is None && rsi->0.below_oversold) ==> a == TickAction::Open(Side::Long),
        (rsi is Some && position is None && !rsi->0.below_oversold && rsi->0.above_overbought)
            ==> a == TickAction::Open(Side::Short),
        // a flat account with a reading that is neither extreme holds
        (rsi is Some && position is None && !rsi->0.below_oversold && !rsi->0.above_overbought)
            ==> a == TickAction::Hold,
        // an open position closes at neutral when its stop did not fire
        (rsi is Some && position == Some(Side::Long) && !stop_hit && rsi->0.at_or_above_neutral)
            ==> a == TickAction::Close,
        (rsi is Some && position == Some(Side::Short) && !stop_hit && rsi->0.at_or_below_neutral)
            ==> a == TickAction::Close,
        (rsi is Some && position == Some(Side::Long) && !stop_hit && !rsi->0.at_or_above_neutral)
            ==> a == TickAction::Hold,
        (rsi is Some && position == Some(Side::Short) && !stop_hit && !rsi->0.at_or_below_neutral)
            ==> a == TickAction::Hold,
        rsi is None <==> a == TickAction::Skip,
{
    match rsi {
        None => TickAction::Skip,
        Some(levels) => {
            if position.is_some() && stop_hit {
                return TickAction::StopLoss;
            }
            let is_long = match position {
                Some(Side::Long) => true,
                _ => false,
            };
            let is_short = match position {
                Some(Side::Short) => true,
                _ => false,
            };
            match signal_from_levels(levels, is_long, is_short) {
                Signal::Long => TickAction::Open(Side::Long),
                Signal::Short => TickAction::Open(Side::Short),
                Signal::CloseLong => TickAction::Close,
                Signal::CloseShort => TickAction::Close,
                Signal::Hold => TickAction::Hold,
            }
        },
    }
}

/// What the live loop does with one fetch of candles.
#[derive(Clone, Copy, Debug, PartialEq, Eq, Structural)]
pub enum LiveStep {
    /// Enough candles arrived: run one tick on them.
    Process,
    /// The fetch succeeded but returned no more candles than the RSI period.
    TooFewCandles,
    /// The fetch failed.
    FetchFailed,
}

/// The live loop's rule for one fetch.
pub open spec fn live_step_rule(fetched: Option<usize>, period: usize) -> LiveStep {
    match fetched {
        None => LiveStep::FetchFailed,
        Some(n) => if n > period { LiveStep::Process } else { LiveStep::TooFewCandles },
    }
}

/// Decide what the live loop does with a fetch that returned `fetched`
/// candles (`None` when the fetch failed).
pub fn live_step(fetched: Option<usize>, period: usize) -> (s: LiveStep)
    ensures
        s == live_step_rule(fetched, period),
        s == LiveStep::FetchFailed <==> fetched is None,
        s == LiveStep::Process <==> (fetched is Some && fetched->0 > period),
        s == LiveStep::TooFewCandles <==> (fetched is Some && fetched->0 <= period),
{
    match fetched {
        None => LiveStep::FetchFailed,
        Some(n) => if n > period { LiveStep::Process } else { LiveStep::TooFewCandles },
    }
}

/// A fetch that the live loop processes always yields an RSI value for the
/// tick, unless the period is zero.
pub proof fn lemma_processed_fetch_has_rsi(n: usize, period: usize)
    requires
        live_step_rule(Some(n), period) == LiveStep::Process,
        period > 0,
    ensures
        rsi_count_spec(n as nat, period as nat) > 0,
{
}

/// The side held after the engine carried out `action` from `position`.
pub open spec fn position_after(position: Option<Side>, action: TickAction) -> Option<Side> {
    match action {
        TickAction::Open(side) => Some(side),
        TickAction::Close => None,
        TickAction::StopLoss => None,
        _ => position,
    }
}

/// The actions that a run of ticks takes from `position`; each tick is the
/// RSI reading (if any) and whether the stop-loss check fired.
pub open spec fn replay_actions(position: Option<Side>, ticks: Seq<(Option<RsiLevels>, bool)>) -> Seq<TickAction>
    decreases ticks.len(),
{
    if ticks.len() == 0 {
        Seq::empty()
    } else {
        let a = tick_rule(ticks[0].0, position, ticks[0].1);
        seq![a] + replay_actions(position_after(position, a), ticks.drop_first())
    }
}

/// The side held at the end of a run of ticks from `position`.
pub open spec fn replay_position(position: Option<Side>, ticks: Seq<(Option<RsiLevels>, bool)>) -> Option<Side>
    decreases ticks.len(),
{
    if ticks.len() == 0 {
        position
    } else {
        let a = tick_rule(ticks[0].0, position, ticks[0].1);
        replay_position(position_after(position, a), ticks.drop_first())
    }
}

/// How many of the actions open a position.
pub open spec fn opens(actions: Seq<TickAction>) -> int
    decreases actions.len(),
{
    if actions.len() == 0 {
        0
    } else {
        (if actions[0] is Open { 1int } else { 0int }) + opens(actions.drop_first())
    }
}

/// How many of the actions close a position (by signal or by stop-loss).
pub open spec fn closes(actions: Seq<TickAction>) -> int
    decreases actions.len(),
{
    if actions.len() == 0 {
        0
    } else {
        (if actions[0] == TickAction::Close || actions[0] == TickAction::StopLoss { 1int } else { 0int })
            + closes(actions.drop_first())
    }
}

/// The engine opens only when flat and closes only what is open.
pub proof fn lemma_tick_rule_respects_position(rsi: Option<RsiLevels>, position: Option<Side>, stop_hit: bool)
    ensures
        tick_rule(rsi, position, stop_hit) is Open ==> position is None,
        (tick_rule(rsi, position, stop_hit) == TickAction::Close
            || tick_rule(rsi, position, stop_hit) == TickAction::StopLoss) ==> position is Some,
{
    match position {
        Some(Side::Long) => {},
        Some(Side::Short) => {},
        None => {},
    }
}

/// A tick's effect, stated over its inputs: no reading skips; a fired stop
/// closes an open position; a flat account opens long below oversold, short
/// above overbought and otherwise holds; an open long closes at or above
/// neutral and an open short at or below it, and otherwise they hold.
pub proof fn lemma_tick_rules(rsi: Option<RsiLevels>, position: Option<Side>, stop_hit: bool)
    ensures
        rsi is None ==> tick_rule(rsi, position, stop_hit) == TickAction::Skip,
        rsi is Some && position is Some && stop_hit ==> tick_rule(rsi, position, stop_hit) == TickAction::StopLoss,
        rsi is Some && position is None && rsi->0.below_oversold
            ==> tick_rule(rsi, position, stop_hit) == TickAction::Open(Side::Long),
        rsi is Some && position is None && !rsi->0.below_oversold && rsi->0.above_overbought
            ==> tick_rule(rsi, position, stop_hit) == TickAction::Open(Side::Short),
        rsi is Some && position is None && !rsi->0.below_oversold && !rsi->0.above_overbought
            ==> tick_rule(rsi, position, stop_hit) == TickAction::Hold,
        rsi is Some && position == Some(Side::Long) && !stop_hit
            ==> tick_rule(rsi, position, stop_hit) == (if rsi->0.at_or_above_neutral {
                TickAction::Close
            } else {
                TickAction::Hold
            }),
        rsi is Some && position == Some(Side::Short) && !stop_hit
            ==> tick_rule(rsi, position, stop_hit) == (if rsi->0.at_or_below_neutral {
                TickAction::Close
            } else {
                TickAction::Hold
            }),
        tick_rule(rsi, position, stop_hit) == TickAction::Open(Side::Short)
            ==> rsi is Some && rsi->0.above_overbought,
        tick_rule(rsi, position, stop_hit) == TickAction::Open(Side::Long)
            ==> rsi is Some && rsi->0.below_oversold,
{
}

/// Only one position is open at a time: over any run of ticks, every opening
/// is matched by a closing before the next opening, so the openings exceed
/// the closings by exactly the positions held at the end, less those held at
/// the start.
pub proof fn lemma_one_position_at_a_time(position: Option<Side>, ticks: Seq<(Option<RsiLevels>, bool)>)
    ensures
        opens(replay_actions(position, ticks)) - closes(replay_actions(position, ticks))
            == (if replay_position(position, ticks) is Some { 1int } else { 0int })
            - (if position is Some { 1int } else { 0int }),
    decreases ticks.len(),
{
    if ticks.len() > 0 {
        let a = tick_rule(ticks[0].0, position, ticks[0].1);
        let rest = replay_actions(position_after(position, a), ticks.drop_first());
        lemma_one_position_at_a_time(position_after(position, a), ticks.drop_first());
        lemma_tick_rule_respects_position(ticks[0].0, position, ticks[0].1);
        let all = replay_actions(position, ticks);
        assert(all =~= seq![a] + rest);
        assert(all.drop_first() =~= rest);
    }
}

/// A run of ticks that starts flat never has more than one position open:
/// the openings are the closings, or one more.
pub proof fn lemma_flat_start_opens_at_most_one_more(ticks: Seq<(Option<RsiLevels>, bool)>)
    ensures
        0 <= opens(replay_actions(None, ticks)) - closes(replay_actions(None, ticks)) <= 1,
{
    lemma_one_position_at_a_time(None, ticks);
}

} // verus!
