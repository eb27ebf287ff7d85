use vstd::prelude::*;

verus! {

/// Trading signal produced by the strategy.
#[derive(Clone, Copy, Debug, PartialEq, Eq, Structural)]
pub enum Signal {
    /// Enter a long position.
    Long,
    /// Enter a short position.
    Short,
    /// Close an existing long position (RSI returned to neutral).
    CloseLong,
    /// Close an existing short position (RSI returned to neutral).
    CloseShort,
    /// No action.
    Hold,
}

/// Where the latest RSI reading stands against the configured thresholds.
///
/// Each field is the outcome of one comparison of the reading with a
/// threshold; a reading that is not a number makes every comparison false.
#[derive(Clone, Copy, Debug, PartialEq, Eq, Structural)]
pub struct RsiLevels {
    /// `rsi < oversold`
    pub below_oversold: bool,
    /// `rsi > overbought`
    pub above_overbought: bool,
    /// `rsi >= neutral`
    pub at_or_above_neutral: bool,
    /// `rsi <= neutral`
    pub at_or_below_neutral: bool,
}

/// The strategy's rule table: exits are checked first, entries only when flat.
pub open spec fn signal_rule(levels: RsiLevels, is_long: bool, is_short: bool) -> Signal {
    if is_long && levels.at_or_above_neutral {
        Signal::CloseLong
    } else if is_short && levels.at_or_below_neutral {
        Signal::CloseShort
    } else if !is_long && !is_short && levels.below_oversold {
        Signal::Long
    } else if !is_long && !is_short && levels.above_overbought {
        Signal::Short
    } else {
        Signal::Hold
    }
}

/// Determine the trading signal from where the latest RSI reading stands
/// and from the current position state.
pub fn signal_from_levels(levels: RsiLevels, is_long: bool, is_short: bool) -> (s: Signal)
    ensures
        s == signal_rule(levels, is_long, is_short),
        // entries only when flat
        (s == Signal::Long || s == Signal::Short) ==> !is_long && !is_short,
        // exits only close what is open
        s == Signal::CloseLong ==> is_long,
        s == Signal::CloseShort ==> is_short,
        // each signal exactly when its condition holds
        s == Signal::CloseLong <==> (is_long && levels.at_or_above_neutral),
        s == Signal::CloseShort <==> (is_short && levels.at_or_below_neutral
            && !(is_long && levels.at_or_above_neutral)),
        s == Signal::Long <==> (!is_long && !is_short && levels.below_oversold),
        s == Signal::Short <==> (!is_long && !is_short && !levels.below_oversold
            && levels.above_overbought),
{
    if is_long && levels.at_or_above_neutral {
        return Signal::CloseLong;
    }
    if is_short && levels.at_or_below_neutral {
        return Signal::CloseShort;
    }
    if !is_long && !is_short {
        if levels.below_oversold {
            return Signal::Long;
        }
        if levels.above_overbought {
            return Signal::Short;
        }
    }
    Signal::Hold
}

/// How many RSI values Wilder's method yields from `n_closes` close prices
/// with look-back `period`: the first `period` changes seed the first value,
/// so there are `n_closes - period` values, and none when there are not
/// enough prices or the period is zero.
pub open spec fn rsi_count_spec(n_closes: nat, period: nat) -> nat {
    if n_closes <= period || period == 0 {
        0
    } else {
        (n_closes - period) as nat
    }
}

/// Number of values the RSI computation produces for `n_closes` prices.
pub fn rsi_value_count(n_closes: usize, period: usize) -> (n: usize)
    ensures
        n == rsi_count_spec(n_closes as nat, period as nat),
        n == 0 <==> (n_closes <= period || period == 0),
        (n_closes > period && period > 0) ==> n + period == n_closes,
        (n_closes <= period || period == 0) ==> n == 0,
{
    if n_closes <= period || period == 0 {
        0
    } else {
        n_closes - period
    }
}

/// The strategy's rules, stated over the reading and the position: a long is
/// closed at or above neutral, a short at or below neutral; a flat account
/// enters long below oversold, else short above overbought; nothing else
/// moves.
pub proof fn lemma_signal_rules(levels: RsiLevels, is_long: bool, is_short: bool)
    ensures
        is_long && levels.at_or_above_neutral ==> signal_rule(levels, is_long, is_short) == Signal::CloseLong,
        is_short && !is_long && levels.at_or_below_neutral
            ==> signal_rule(levels, is_long, is_short) == Signal::CloseShort,
        !is_long && !is_short && levels.below_oversold
            ==> signal_rule(levels, is_long, is_short) == Signal::Long,
        !is_long && !is_short && !levels.below_oversold && levels.above_overbought
            ==> signal_rule(levels, is_long, is_short) == Signal::Short,
        signal_rule(levels, is_long, is_short) == Signal::Long ==> !is_long && !is_short && levels.below_oversold,
        signal_rule(levels, is_long, is_short) == Signal::Short ==> !is_long && !is_short && levels.above_overbought,
        signal_rule(levels, is_long, is_short) == Signal::CloseLong ==> is_long && levels.at_or_above_neutral,
        signal_rule(levels, is_long, is_short) == Signal::CloseShort ==> is_short && levels.at_or_below_neutral,
        (!is_long || !levels.at_or_above_neutral) && (!is_short || !levels.at_or_below_neutral)
            && (is_long || is_short || (!levels.below_oversold && !levels.above_overbought))
            ==> signal_rule(levels, is_long, is_short) == Signal::Hold,
{
}

/// Every close past the seed period yields one RSI value: with more closes
/// than a positive period there are exactly `n_closes - period` values, and
/// one more close gives one more value.
pub proof fn lemma_rsi_count(n_closes: nat, period: nat)
    ensures
        n_closes > period && period > 0 ==> rsi_count_spec(n_closes, period) + period == n_closes,
        n_closes <= period || period == 0 ==> rsi_count_spec(n_closes, period) == 0,
        n_closes >= period && period > 0 ==> rsi_count_spec(n_closes + 1, period)
            == rsi_count_spec(n_closes, period) + 1,
{
}

} // verus!
