use bb_band::backtest::backtest;
use bb_band::types::{BacktestMetric, BbBandConfig, EngineError, Kline, StrategyType, TradeLog, TradeSide};

const M: u64 = 10_000; // one price unit, scaled

fn candle(i: i64, open: u64, high: u64, low: u64, close: u64) -> Kline {
    Kline { open_time: i * 1000, close_time: (i + 1) * 1000, open, high, low, close }
}

fn flat_candle(i: i64, price: u64) -> Kline {
    candle(i, price, price, price, price)
}

fn base_config() -> BbBandConfig {
    BbBandConfig {
        initial_capital: 10_000 * M,
        take_profit_pct: 500,
        stop_loss_pct: 500,
        fee_rate: 10,
        leverage: 1,
        strategy_type: StrategyType::Single,
        entry_fraction: 200,
        band_window: 20,
        band_width: 20_000,
    }
}

fn run(config: &BbBandConfig, klines: &Vec<Kline>) -> (BacktestMetric, Vec<TradeLog>) {
    backtest(config, klines).expect("run should succeed")
}

// A band break above the upper bound enters a short at the next candle's
// midpoint; a candle spanning both thresholds then exits at the stop-loss,
// by the stop-loss-first tie-break.
#[test]
fn scenario_band_break_short_stop_loss_priority() {
    let mut klines: Vec<Kline> = (0..25).map(|i| flat_candle(i, 100 * M)).collect();
    klines[20] = candle(20, 100 * M, 130 * M, 100 * M, 130 * M);
    klines[22] = candle(22, 100 * M, 106 * M, 94 * M, 100 * M);
    let (metric, logs) = run(&base_config(), &klines);

    assert_eq!(logs.len(), 1);
    let log = &logs[0];
    assert_eq!(log.side, TradeSide::Sell);
    assert_eq!(log.entry_price, 100 * M);
    // Both the take-profit (95) and the stop-loss (105) lie inside the
    // candle's 94..106 range; the stop-loss wins.
    assert_eq!(log.exit_price, 105 * M);
    assert_eq!(log.position_size, 20_000);
    assert_eq!(log.profit, -100_000);
    assert_eq!(log.fee, 2_100);
    assert_eq!(log.close_time, 23_000);

    assert_eq!(metric.ledger.wins, 0);
    assert_eq!(metric.ledger.losses, 1);
    assert_eq!(metric.ledger.cash_balance, 99_895_900);
    assert_eq!(metric.ledger.total_fee, 4_100);
    assert_eq!(metric.ledger.total_profit, -100_000);
    assert_eq!(metric.ledger.max_balance, 100_000_000);
    assert_eq!(metric.ledger.min_balance, 99_895_900);
    assert_eq!(metric.position.side, TradeSide::Flat);
    assert_eq!(metric.position.size, 0);
}

// A sequence shorter than the window opens no trade: the ledger comes back
// exactly as it started.
#[test]
fn scenario_short_sequence_returns_initial_ledger() {
    let config = base_config();
    let klines = vec![flat_candle(0, 100 * M)];
    let (metric, logs) = run(&config, &klines);
    assert_eq!(logs.len(), 0);
    assert_eq!(metric.ledger.wins, 0);
    assert_eq!(metric.ledger.losses, 0);
    assert_eq!(metric.ledger.cash_balance, config.initial_capital as i64);
    assert_eq!(metric.ledger.total_fee, 0);
    assert_eq!(metric.ledger.total_profit, 0);
    assert_eq!(metric.ledger.max_balance, config.initial_capital as i64);
    assert_eq!(metric.ledger.min_balance, config.initial_capital as i64);
    assert_eq!(metric.position.side, TradeSide::Flat);
}

// Exactly window-size candles still open no trade: the first transition
// check needs a full window before the current candle.
#[test]
fn scenario_window_size_candles_no_trade() {
    let config = base_config();
    let klines: Vec<Kline> = (0..20).map(|i| flat_candle(i, 100 * M)).collect();
    let (metric, logs) = run(&config, &klines);
    assert_eq!(logs.len(), 0);
    assert_eq!(metric.ledger.cash_balance, config.initial_capital as i64);
    assert_eq!(metric.position.side, TradeSide::Flat);
}

// An entry whose computed size floors to zero is not taken: the engine
// never opens a zero-size position, even on a signal.
#[test]
fn scenario_zero_size_entry_not_taken() {
    let config = BbBandConfig {
        initial_capital: 1,
        take_profit_pct: 500,
        stop_loss_pct: 500,
        fee_rate: 10,
        leverage: 1,
        strategy_type: StrategyType::Single,
        entry_fraction: 1,
        band_window: 2,
        band_width: 0,
    };
    // The second close sits below the two-candle average, so the signal
    // fires, but 1 tick of capital at this price sizes to zero.
    let klines = vec![
        flat_candle(0, 110 * M),
        flat_candle(1, 100 * M),
        flat_candle(2, 100 * M),
        flat_candle(3, 100 * M),
    ];
    let (metric, logs) = run(&config, &klines);
    assert_eq!(logs.len(), 0);
    assert_eq!(metric.ledger.cash_balance, 1);
    assert_eq!(metric.ledger.total_fee, 0);
    assert_eq!(metric.position.side, TradeSide::Flat);
}

// Two sequential trades, one winning and one losing: the counters, the
// totals and the running extrema all reflect both exits.
#[test]
fn scenario_two_trades_win_then_loss() {
    let config = BbBandConfig {
        initial_capital: 10_000 * M,
        take_profit_pct: 1_000,
        stop_loss_pct: 1_000,
        fee_rate: 10,
        leverage: 2,
        strategy_type: StrategyType::Single,
        entry_fraction: 5_000,
        band_window: 2,
        band_width: 5_000,
    };
    let klines = vec![
        flat_candle(0, 100 * M),
        flat_candle(1, 90 * M),
        flat_candle(2, 90 * M),
        candle(3, 95 * M, 100 * M, 95 * M, 100 * M),
        flat_candle(4, 100 * M),
        candle(5, 100 * M, 115 * M, 100 * M, 110 * M),
    ];
    let (metric, logs) = run(&config, &klines);

    assert_eq!(logs.len(), 2);
    let first = &logs[0];
    assert_eq!(first.side, TradeSide::Buy);
    assert_eq!(first.entry_price, 90 * M);
    assert_eq!(first.exit_price, 99 * M);
    assert_eq!(first.position_size, 555_555);
    assert_eq!(first.profit, 9_999_990);
    assert_eq!(first.fee, 109_998);
    assert_eq!(first.cash_balance, 109_789_994);
    assert_eq!((first.wins, first.losses), (1, 0));

    let second = &logs[1];
    assert_eq!(second.side, TradeSide::Sell);
    assert_eq!(second.entry_price, 100 * M);
    assert_eq!(second.exit_price, 110 * M);
    assert_eq!(second.position_size, 500_000);
    assert_eq!(second.profit, -10_000_000);
    assert_eq!(second.fee, 110_000);
    assert_eq!(second.cash_balance, 99_579_994);
    assert_eq!((second.wins, second.losses), (1, 1));

    assert_eq!(metric.ledger.wins, 1);
    assert_eq!(metric.ledger.losses, 1);
    assert_eq!(metric.ledger.total_fee, 99_998 + 109_998 + 100_000 + 110_000);
    assert_eq!(metric.ledger.total_profit, 9_999_990 - 10_000_000);
    assert_eq!(metric.ledger.cash_balance, 99_579_994);
    // The maximum comes from the first exit, the minimum from the second:
    // neither equals the final balance alone.
    assert_eq!(metric.ledger.max_balance, 109_789_994);
    assert_eq!(metric.ledger.min_balance, 99_579_994);

    // Each exit's cash equals the cash before it plus profit minus fee.
    let entry_fee_1: i64 = 99_998;
    let cash_before_first_exit: i64 = 100_000_000 - entry_fee_1;
    assert_eq!(first.cash_balance, cash_before_first_exit + first.profit - first.fee as i64);
    let entry_fee_2: i64 = 100_000;
    let cash_before_second_exit: i64 = first.cash_balance - entry_fee_2;
    assert_eq!(second.cash_balance, cash_before_second_exit + second.profit - second.fee as i64);
}

// With both percentages zero, the thresholds sit at the entry price and
// the position closes on the very next candle.
#[test]
fn scenario_zero_thresholds_exit_next_candle() {
    let config = BbBandConfig {
        initial_capital: 10_000 * M,
        take_profit_pct: 0,
        stop_loss_pct: 0,
        fee_rate: 10,
        leverage: 1,
        strategy_type: StrategyType::Single,
        entry_fraction: 1_000,
        band_window: 2,
        band_width: 0,
    };
    let klines = vec![
        flat_candle(0, 110 * M),
        flat_candle(1, 100 * M),
        flat_candle(2, 100 * M),
        flat_candle(3, 105 * M),
    ];
    let (metric, logs) = run(&config, &klines);
    assert_eq!(logs.len(), 1);
    let log = &logs[0];
    assert_eq!(log.entry_price, 100 * M);
    assert_eq!(log.exit_price, 100 * M);
    assert_eq!(log.profit, 0);
    assert_eq!(log.fee, 10_000);
    assert_eq!(log.close_time, 4_000);
    // Zero profit minus a positive fee counts as a loss.
    assert_eq!(metric.ledger.wins, 0);
    assert_eq!(metric.ledger.losses, 1);
    assert_eq!(metric.ledger.cash_balance, 99_980_000);
    assert_eq!(metric.position.side, TradeSide::Flat);
}

// Running the engine twice on the same inputs yields identical results.
#[test]
fn runs_are_deterministic() {
    let config = BbBandConfig {
        initial_capital: 10_000 * M,
        take_profit_pct: 1_000,
        stop_loss_pct: 1_000,
        fee_rate: 10,
        leverage: 2,
        strategy_type: StrategyType::Compound,
        entry_fraction: 5_000,
        band_window: 2,
        band_width: 5_000,
    };
    let klines = vec![
        flat_candle(0, 100 * M),
        flat_candle(1, 90 * M),
        flat_candle(2, 90 * M),
        candle(3, 95 * M, 100 * M, 95 * M, 100 * M),
        flat_candle(4, 100 * M),
        candle(5, 100 * M, 115 * M, 100 * M, 110 * M),
    ];
    let first = run(&config, &klines);
    let second = run(&config, &klines);
    assert_eq!(first.0, second.0);
    assert_eq!(first.1, second.1);
}

// A computed entry size beyond the representable range aborts the run with
// an overflow report instead of trading on a wrapped value.
#[test]
fn oversized_entry_reports_overflow() {
    let config = BbBandConfig {
        initial_capital: 100_000_000_000_000_000,
        take_profit_pct: 500,
        stop_loss_pct: 500,
        fee_rate: 10,
        leverage: 1,
        strategy_type: StrategyType::Single,
        entry_fraction: 10_000,
        band_window: 1,
        band_width: 20_000,
    };
    let klines = vec![flat_candle(0, 1), flat_candle(1, 1)];
    assert_eq!(backtest(&config, &klines), Err(EngineError::Overflow));
}
