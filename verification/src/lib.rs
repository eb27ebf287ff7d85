//! Verified core of an RSI mean-reversion paper-trading bot: the strategy's
//! decision table, the per-tick engine decision, the webhook request plan,
//! candle-interval parsing and the configuration defaults.

pub mod config;
pub mod engine;
pub mod execution;
pub mod interval;
pub mod strategy;
pub mod webhook;
