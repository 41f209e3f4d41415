//! A mean-reversion backtest engine over OHLC candles.
//!
//! The engine feeds candles through a rolling Bollinger-band indicator, a
//! signal generator that reads the previous candle against the previous band,
//! and a trade state machine that owns the single open position and the
//! performance ledger. All prices, rates and balances are fixed-point
//! integers scaled by `SCALE`, so every computation is exact and every
//! contract pins the result down to the unit.

pub mod arith;
pub mod backtest;
pub mod engine;
pub mod indicator;
pub mod strategy;
pub mod types;
