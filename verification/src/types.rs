//! Data model: candles, bands, configuration, position and ledger.
//!
//! Every price-like quantity is a fixed-point integer scaled by `SCALE`
//! (see `arith`): prices and sizes are nonnegative `u64` ticks, cash amounts
//! are signed `i64` ticks. Timestamps are milliseconds.

use vstd::prelude::*;
use vstd::string::*;

use crate::arith::{CASH_MAX, LEVERAGE_MAX, PRICE_MAX, SCALE, SIZE_MAX, WIDTH_MAX, WINDOW_MAX};

verus! {

/// Direction of the open position: none, long or short.
#[derive(Clone, Copy, Debug, PartialEq, Eq, Structural)]
pub enum TradeSide {
    Flat,
    Buy,
    Sell,
}

/// Position sizing: from the fixed initial capital (`Single`) or from the
/// current account equity (`Compound`).
#[derive(Clone, Copy, Debug, PartialEq, Eq, Structural)]
pub enum StrategyType {
    Single,
    Compound,
}

/// What the command line asks for: one backtest, or a parameter sweep.
#[derive(Clone, Copy, Debug)]
pub enum Mode {
    Backtest,
    Hypertune,
}

impl Mode {
    /// Parses the mode names accepted on the command line, long or short.
    /// An unknown name is rejected with a message that carries it.
    pub fn from_str(s: &str) -> (r: Result<Mode, String>)
        ensures
            r matches Ok(Mode::Backtest) <==> (s@ == "backtest"@ || s@ == "b"@),
            r matches Ok(Mode::Hypertune) <==> (s@ == "hypertune"@ || s@ == "h"@),
            r matches Err(m) ==> m@ == "Invalid mode: "@ + s@,
    {
        proof {
            reveal_strlit("backtest");
            reveal_strlit("hypertune");
            reveal_strlit("b");
            reveal_strlit("h");
        }
        let n: usize = s.unicode_len();
        if n == 8 {
            let hit: bool = s.get_char(0) == 'b' && s.get_char(1) == 'a' && s.get_char(2) == 'c'
                && s.get_char(3) == 'k' && s.get_char(4) == 't' && s.get_char(5) == 'e'
                && s.get_char(6) == 's' && s.get_char(7) == 't';
            if hit {
                proof {
                    assert(s@ =~= "backtest"@);
                }
                Ok(Mode::Backtest)
            } else {
                Err("Invalid mode: ".to_owned().concat(s))
            }
        } else if n == 9 {
            let hit: bool = s.get_char(0) == 'h' && s.get_char(1) == 'y' && s.get_char(2) == 'p'
                && s.get_char(3) == 'e' && s.get_char(4) == 'r' && s.get_char(5) == 't'
                && s.get_char(6) == 'u' && s.get_char(7) == 'n' && s.get_char(8) == 'e';
            if hit {
                proof {
                    assert(s@ =~= "hypertune"@);
                }
                Ok(Mode::Hypertune)
            } else {
                Err("Invalid mode: ".to_owned().concat(s))
            }
        } else if n == 1 {
            let c: char = s.get_char(0);
            if c == 'b' {
                proof {
                    assert(s@ =~= "b"@);
                }
                Ok(Mode::Backtest)
            } else if c == 'h' {
                proof {
                    assert(s@ =~= "h"@);
                }
                Ok(Mode::Hypertune)
            } else {
                Err("Invalid mode: ".to_owned().concat(s))
            }
        } else {
            Err("Invalid mode: ".to_owned().concat(s))
        }
    }
}

/// One OHLC candle. Prices are scaled by `SCALE`; times are milliseconds.
#[derive(Clone, Copy, Debug, PartialEq, Eq, Structural)]
pub struct Kline {
    pub open_time: i64,
    pub close_time: i64,
    pub open: u64,
    pub high: u64,
    pub low: u64,
    pub close: u64,
}

/// A candle the engine accepts: every price positive and within range, and
/// the low not above the high.
pub open spec fn valid_kline(k: Kline) -> bool {
    &&& 1 <= k.low <= k.high <= PRICE_MAX
    &&& 1 <= k.open <= PRICE_MAX
    &&& 1 <= k.close <= PRICE_MAX
}

/// The Bollinger band of one window: moving average plus/minus
/// `width * deviation`. `up` and `down` are signed because a wide band may
/// reach below zero. Timestamped at the window's most recent candle.
#[derive(Clone, Copy, Debug, PartialEq, Eq, Structural)]
pub struct BollingerBand {
    pub up: i64,
    pub sma: u64,
    pub down: i64,
    pub dev: u64,
    pub close_time: i64,
}

/// An entry order proposed by the signal generator: a direction and the size
/// the caller asked to commit, passed through unchanged.
#[derive(Clone, Copy, Debug, PartialEq, Eq, Structural)]
pub struct OrderSpec {
    pub position: u64,
    pub side: TradeSide,
}

/// One record per closed trade, for reporting.
#[derive(Clone, Copy, Debug, PartialEq, Eq, Structural)]
pub struct TradeLog {
    pub close_time: i64,
    pub wins: u64,
    pub losses: u64,
    pub cash_balance: i64,
    pub position_size: u64,
    pub side: TradeSide,
    pub entry_price: u64,
    pub exit_price: u64,
    pub profit: i64,
    pub fee: u64,
}

/// Strategy parameters. Percentages, the fee rate, the entry fraction and
/// the band width are scaled by `SCALE`; leverage is an unscaled multiplier.
#[derive(Clone, Copy, Debug, PartialEq, Eq, Structural)]
pub struct BbBandConfig {
    pub initial_capital: u64,
    pub take_profit_pct: u64,
    pub stop_loss_pct: u64,
    pub fee_rate: u64,
    pub leverage: u64,
    pub strategy_type: StrategyType,
    pub entry_fraction: u64,
    pub band_window: usize,
    pub band_width: u64,
}

/// A configuration the engine accepts.
pub open spec fn valid_config(cfg: BbBandConfig) -> bool {
    &&& 1 <= cfg.band_window <= WINDOW_MAX
    &&& 1 <= cfg.initial_capital <= CASH_MAX
    &&& cfg.take_profit_pct <= SCALE
    &&& cfg.stop_loss_pct <= SCALE
    &&& 1 <= cfg.fee_rate <= SCALE
    &&& 1 <= cfg.leverage <= LEVERAGE_MAX
    &&& 1 <= cfg.entry_fraction <= SCALE
    &&& cfg.band_width <= WIDTH_MAX
}

/// The single open position. `side == Flat` means no position, and then
/// every other field is zero.
#[derive(Clone, Copy, Debug, PartialEq, Eq, Structural)]
pub struct Position {
    pub side: TradeSide,
    pub size: u64,
    pub entry_price: u64,
    pub take_profit_price: u64,
    pub stop_loss_price: u64,
}

/// The empty (flat) position.
pub open spec fn flat_position() -> Position {
    Position { side: TradeSide::Flat, size: 0, entry_price: 0, take_profit_price: 0, stop_loss_price: 0 }
}

/// Well-formed position: flat and all zero, or open with a positive size and
/// in-range prices.
pub open spec fn pos_wf(p: Position) -> bool {
    if p.side == TradeSide::Flat {
        p == flat_position()
    } else {
        &&& 1 <= p.size <= SIZE_MAX
        &&& 1 <= p.entry_price <= PRICE_MAX
        &&& p.take_profit_price <= 2 * PRICE_MAX
        &&& p.stop_loss_price <= 2 * PRICE_MAX
    }
}

/// The accumulated performance ledger.
#[derive(Clone, Copy, Debug, PartialEq, Eq, Structural)]
pub struct Ledger {
    pub cash_balance: i64,
    pub total_fee: u64,
    pub total_profit: i64,
    pub wins: u64,
    pub losses: u64,
    pub max_balance: i64,
    pub min_balance: i64,
}

/// Well-formed ledger: every amount within the cash range.
pub open spec fn ledger_wf(l: Ledger) -> bool {
    &&& -CASH_MAX <= l.cash_balance <= CASH_MAX
    &&& l.total_fee <= CASH_MAX
    &&& -CASH_MAX <= l.total_profit <= CASH_MAX
    &&& -CASH_MAX <= l.max_balance <= CASH_MAX
    &&& -CASH_MAX <= l.min_balance <= CASH_MAX
}

/// The whole engine-owned state of one backtest run.
#[derive(Clone, Copy, Debug, PartialEq, Eq, Structural)]
pub struct BacktestMetric {
    pub initial_capital: u64,
    pub ledger: Ledger,
    pub position: Position,
}

/// Well-formed metric: in-range capital, ledger and position.
pub open spec fn metric_wf(m: BacktestMetric) -> bool {
    &&& 1 <= m.initial_capital <= CASH_MAX
    &&& ledger_wf(m.ledger)
    &&& pos_wf(m.position)
}

/// The starting metric: full cash, flat position, extrema at the capital.
pub open spec fn init_metric(cfg: BbBandConfig) -> BacktestMetric {
    BacktestMetric {
        initial_capital: cfg.initial_capital,
        ledger: Ledger {
            cash_balance: cfg.initial_capital as i64,
            total_fee: 0,
            total_profit: 0,
            wins: 0,
            losses: 0,
            max_balance: cfg.initial_capital as i64,
            min_balance: cfg.initial_capital as i64,
        },
        position: flat_position(),
    }
}

impl BacktestMetric {
    /// The metric a run starts from.
    pub fn new(config: &BbBandConfig) -> (r: BacktestMetric)
        requires
            valid_config(*config),
        ensures
            r == init_metric(*config),
            metric_wf(r),
    {
        BacktestMetric {
            initial_capital: config.initial_capital,
            ledger: Ledger {
                cash_balance: config.initial_capital as i64,
                total_fee: 0,
                total_profit: 0,
                wins: 0,
                losses: 0,
                max_balance: config.initial_capital as i64,
                min_balance: config.initial_capital as i64,
            },
            position: flat_position_exec(),
        }
    }
}

/// Builds the flat position.
pub fn flat_position_exec() -> (r: Position)
    ensures
        r == flat_position(),
{
    Position {
        side: TradeSide::Flat,
        size: 0,
        entry_price: 0,
        take_profit_price: 0,
        stop_loss_price: 0,
    }
}

/// Errors a run can report instead of panicking: configuration checks,
/// data checks, and arithmetic leaving the fixed-point range.
#[derive(Clone, Copy, Debug, PartialEq, Eq, Structural)]
pub enum EngineError {
    WindowOutOfRange,
    CapitalOutOfRange,
    TakeProfitOutOfRange,
    StopLossOutOfRange,
    FeeRateOutOfRange,
    LeverageOutOfRange,
    EntryFractionOutOfRange,
    WidthOutOfRange,
    EmptyCandles,
    InvalidPrice,
    NonMonotonicTimestamps,
    Overflow,
}

/// The configuration error a run reports, checked field by field in a fixed
/// order; `None` when the configuration is valid.
pub open spec fn config_error(cfg: BbBandConfig) -> Option<EngineError> {
    if !(1 <= cfg.band_window <= WINDOW_MAX) {
        Some(EngineError::WindowOutOfRange)
    } else if !(1 <= cfg.initial_capital <= CASH_MAX) {
        Some(EngineError::CapitalOutOfRange)
    } else if !(cfg.take_profit_pct <= SCALE) {
        Some(EngineError::TakeProfitOutOfRange)
    } else if !(cfg.stop_loss_pct <= SCALE) {
        Some(EngineError::StopLossOutOfRange)
    } else if !(1 <= cfg.fee_rate <= SCALE) {
        Some(EngineError::FeeRateOutOfRange)
    } else if !(1 <= cfg.leverage <= LEVERAGE_MAX) {
        Some(EngineError::LeverageOutOfRange)
    } else if !(1 <= cfg.entry_fraction <= SCALE) {
        Some(EngineError::EntryFractionOutOfRange)
    } else if !(cfg.band_width <= WIDTH_MAX) {
        Some(EngineError::WidthOutOfRange)
    } else {
        None
    }
}

/// Every candle in the sequence is acceptable.
pub open spec fn all_klines_valid(ks: Seq<Kline>) -> bool {
    forall|i: int| 0 <= i < ks.len() ==> valid_kline(#[trigger] ks[i])
}

/// Close times strictly increase along the sequence.
pub open spec fn monotonic_times(ks: Seq<Kline>) -> bool {
    forall|i: int| 1 <= i < ks.len() ==> (#[trigger] ks[i]).close_time > ks[i - 1].close_time
}

/// The data error a run reports for a candle sequence; `None` when the data
/// is acceptable.
pub open spec fn klines_error(ks: Seq<Kline>) -> Option<EngineError> {
    if ks.len() == 0 {
        Some(EngineError::EmptyCandles)
    } else if !all_klines_valid(ks) {
        Some(EngineError::InvalidPrice)
    } else if !monotonic_times(ks) {
        Some(EngineError::NonMonotonicTimestamps)
    } else {
        None
    }
}

} // verus!
