use bb_band::arith::{isqrt, mul_div, scale_fraction};
use bb_band::backtest::backtest;
use bb_band::engine::{calculate_fee, compute_entry_size, exit_trigger_price, init_trade};
use bb_band::indicator::{bollinger_band, deviation, sma};
use bb_band::strategy::prev_bb_band_entry;
use bb_band::types::{
    BacktestMetric, BbBandConfig, BollingerBand, EngineError, Kline, Mode, Position, StrategyType,
    TradeSide,
};

const M: u64 = 10_000; // one price unit, scaled

fn candle(i: i64, open: u64, high: u64, low: u64, close: u64) -> Kline {
    Kline { open_time: i * 1000, close_time: (i + 1) * 1000, open, high, low, close }
}

fn flat_candle(i: i64, price: u64) -> Kline {
    candle(i, price, price, price, price)
}

fn valid_config() -> BbBandConfig {
    BbBandConfig {
        initial_capital: 10_000 * M,
        take_profit_pct: 500,
        stop_loss_pct: 500,
        fee_rate: 10,
        leverage: 1,
        strategy_type: StrategyType::Single,
        entry_fraction: 200,
        band_window: 20,
        band_width: 20_000,
    }
}

#[test]
fn mul_div_floors() {
    assert_eq!(mul_div(7, 3, 2), 10);
    assert_eq!(mul_div(0, 5, 9), 0);
    assert_eq!(mul_div(u64::MAX, u64::MAX, 1), (u64::MAX as u128) * (u64::MAX as u128));
}

#[test]
fn scale_fraction_values() {
    assert_eq!(scale_fraction(1_000_000, 500), 50_000);
    assert_eq!(scale_fraction(1_000_000, 10_000), 1_000_000);
    assert_eq!(scale_fraction(3, 3_333), 0);
}

#[test]
fn isqrt_values() {
    assert_eq!(isqrt(0), 0);
    assert_eq!(isqrt(1), 1);
    assert_eq!(isqrt(3), 1);
    assert_eq!(isqrt(4), 2);
    assert_eq!(isqrt(2_500_000_000), 50_000);
    assert_eq!(isqrt(1_000_000_000_000_000_000_000_000_000_000), 1_000_000_000_000_000);
}

#[test]
fn sma_is_floored_mean_of_last_window() {
    let klines: Vec<Kline> = vec![
        flat_candle(0, 10 * M),
        flat_candle(1, 20 * M),
        flat_candle(2, 40 * M),
    ];
    assert_eq!(sma(3, &klines), Some(233_333));
    assert_eq!(sma(1, &klines), Some(40 * M));
    assert_eq!(sma(2, &klines), Some(30 * M));
    assert_eq!(sma(4, &klines), None);
}

#[test]
fn deviation_is_population_standard_deviation() {
    let closes: [u64; 8] = [2, 4, 4, 4, 5, 5, 7, 9];
    let klines: Vec<Kline> = closes
        .iter()
        .enumerate()
        .map(|(i, c)| flat_candle(i as i64, c * M))
        .collect();
    assert_eq!(sma(8, &klines), Some(5 * M));
    assert_eq!(deviation(8, &klines), Some(2 * M));
    assert_eq!(deviation(9, &klines), None);
}

#[test]
fn bollinger_band_envelope() {
    let closes: [u64; 8] = [2, 4, 4, 4, 5, 5, 7, 9];
    let klines: Vec<Kline> = closes
        .iter()
        .enumerate()
        .map(|(i, c)| flat_candle(i as i64, c * M))
        .collect();
    let band = bollinger_band(8, 20_000, &klines).expect("full window");
    assert_eq!(band.sma, 5 * M);
    assert_eq!(band.dev, 2 * M);
    assert_eq!(band.up, 9 * M as i64);
    assert_eq!(band.down, M as i64);
    assert_eq!(band.close_time, 8_000);
    assert_eq!(bollinger_band(9, 20_000, &klines), None);
}

#[test]
fn bollinger_band_uses_last_window_only() {
    let mut klines: Vec<Kline> = vec![flat_candle(0, 500 * M)];
    for (i, c) in [2u64, 4, 4, 4, 5, 5, 7, 9].iter().enumerate() {
        klines.push(flat_candle(i as i64 + 1, c * M));
    }
    let band = bollinger_band(8, 20_000, &klines).expect("full window");
    assert_eq!(band.sma, 5 * M);
    assert_eq!(band.dev, 2 * M);
}

#[test]
fn entry_signal_directions() {
    let band = BollingerBand {
        up: 1_050_000,
        sma: 1_000_000,
        down: 950_000,
        dev: 25_000,
        close_time: 1_000,
    };
    let above = flat_candle(0, 1_060_000);
    let below = flat_candle(0, 940_000);
    let inside = flat_candle(0, 1_000_000);
    let short = prev_bb_band_entry(&above, &band, 42).expect("breaks above");
    assert_eq!(short.side, TradeSide::Sell);
    assert_eq!(short.position, 42);
    let long = prev_bb_band_entry(&below, &band, 7).expect("breaks below");
    assert_eq!(long.side, TradeSide::Buy);
    assert_eq!(long.position, 7);
    assert_eq!(prev_bb_band_entry(&inside, &band, 42), None);
}

#[test]
fn entry_signal_band_edges_are_exclusive() {
    let band = BollingerBand {
        up: 1_050_000,
        sma: 1_000_000,
        down: 950_000,
        dev: 25_000,
        close_time: 1_000,
    };
    assert_eq!(prev_bb_band_entry(&flat_candle(0, 1_050_000), &band, 1), None);
    assert_eq!(prev_bb_band_entry(&flat_candle(0, 950_000), &band, 1), None);
}

#[test]
fn calculate_fee_exact() {
    // 0.001 * 100.0 * 2.0 * 1 = 0.2
    assert_eq!(calculate_fee(10, 100 * M, 20_000, 1), Some(2_000));
    // leverage multiplies the fee
    assert_eq!(calculate_fee(10, 100 * M, 20_000, 5), Some(10_000));
    // out of the cash range
    assert_eq!(
        calculate_fee(10_000, 2_000_000_000_000_000, 1_000_000_000_000_000, 1_000),
        None
    );
}

#[test]
fn entry_size_single_sizing() {
    // min(10000, 10000) * 0.02 / 50000 = 0.004
    assert_eq!(
        compute_entry_size(StrategyType::Single, 10_000 * M, (10_000 * M) as i64, 200, 50_000 * M),
        40
    );
    // Single sizing caps at the initial capital even with more cash
    assert_eq!(
        compute_entry_size(StrategyType::Single, 10_000 * M, (20_000 * M) as i64, 200, 50_000 * M),
        40
    );
}

#[test]
fn entry_size_compound_sizing() {
    assert_eq!(
        compute_entry_size(StrategyType::Compound, 10_000 * M, (20_000 * M) as i64, 200, 50_000 * M),
        80
    );
    assert_eq!(compute_entry_size(StrategyType::Compound, 10_000 * M, 0, 200, 50_000 * M), 0);
    assert_eq!(compute_entry_size(StrategyType::Compound, 10_000 * M, -5, 200, 50_000 * M), 0);
}

#[test]
fn exit_respects_stop_loss_priority() {
    let long = Position {
        side: TradeSide::Buy,
        size: 10_000,
        entry_price: 100 * M,
        take_profit_price: 105 * M,
        stop_loss_price: 95 * M,
    };
    // The candle spans both thresholds: the stop-loss wins.
    let wide = candle(0, 100 * M, 110 * M, 90 * M, 100 * M);
    assert_eq!(exit_trigger_price(&long, &wide), Some(95 * M));
    // Only the take-profit is inside the range.
    let high_only = candle(0, 100 * M, 110 * M, 96 * M, 100 * M);
    assert_eq!(exit_trigger_price(&long, &high_only), Some(105 * M));
    // Neither threshold is touched.
    let quiet = candle(0, 100 * M, 104 * M, 96 * M, 100 * M);
    assert_eq!(exit_trigger_price(&long, &quiet), None);

    let short = Position {
        side: TradeSide::Sell,
        size: 10_000,
        entry_price: 100 * M,
        take_profit_price: 95 * M,
        stop_loss_price: 105 * M,
    };
    assert_eq!(exit_trigger_price(&short, &wide), Some(105 * M));
    assert_eq!(exit_trigger_price(&short, &high_only), Some(105 * M));
    assert_eq!(exit_trigger_price(&short, &quiet), None);
}

#[test]
fn init_trade_clears_position_only() {
    let config = valid_config();
    let mut metric = BacktestMetric::new(&config);
    metric.position = Position {
        side: TradeSide::Buy,
        size: 5,
        entry_price: 100 * M,
        take_profit_price: 105 * M,
        stop_loss_price: 95 * M,
    };
    let ledger = metric.ledger;
    init_trade(&mut metric);
    assert_eq!(metric.position.side, TradeSide::Flat);
    assert_eq!(metric.position.size, 0);
    assert_eq!(metric.position.entry_price, 0);
    assert_eq!(metric.position.take_profit_price, 0);
    assert_eq!(metric.position.stop_loss_price, 0);
    assert_eq!(metric.ledger, ledger);
}

#[test]
fn new_metric_starts_at_capital() {
    let config = valid_config();
    let metric = BacktestMetric::new(&config);
    assert_eq!(metric.initial_capital, config.initial_capital);
    assert_eq!(metric.ledger.cash_balance, config.initial_capital as i64);
    assert_eq!(metric.ledger.max_balance, config.initial_capital as i64);
    assert_eq!(metric.ledger.min_balance, config.initial_capital as i64);
    assert_eq!(metric.ledger.total_fee, 0);
    assert_eq!(metric.ledger.total_profit, 0);
    assert_eq!(metric.ledger.wins, 0);
    assert_eq!(metric.ledger.losses, 0);
    assert_eq!(metric.position.side, TradeSide::Flat);
    assert_eq!(metric.position.size, 0);
}

#[test]
fn mode_parses_long_and_short_names() {
    assert!(matches!(Mode::from_str("backtest"), Ok(Mode::Backtest)));
    assert!(matches!(Mode::from_str("b"), Ok(Mode::Backtest)));
    assert!(matches!(Mode::from_str("hypertune"), Ok(Mode::Hypertune)));
    assert!(matches!(Mode::from_str("h"), Ok(Mode::Hypertune)));
    assert!(Mode::from_str("Backtest").is_err());
    assert!(Mode::from_str("").is_err());
    assert_eq!(Mode::from_str("x").unwrap_err(), "Invalid mode: x");
    assert_eq!(Mode::from_str("swing").unwrap_err(), "Invalid mode: swing");
}

fn config_error_of(config: BbBandConfig) -> EngineError {
    backtest(&config, &vec![flat_candle(0, 100 * M)]).unwrap_err()
}

#[test]
fn config_errors_each_field() {
    let good = valid_config();
    assert_eq!(
        config_error_of(BbBandConfig { band_window: 0, ..good }),
        EngineError::WindowOutOfRange
    );
    assert_eq!(
        config_error_of(BbBandConfig { band_window: 1_000_001, ..good }),
        EngineError::WindowOutOfRange
    );
    assert_eq!(
        config_error_of(BbBandConfig { initial_capital: 0, ..good }),
        EngineError::CapitalOutOfRange
    );
    assert_eq!(
        config_error_of(BbBandConfig { take_profit_pct: 10_001, ..good }),
        EngineError::TakeProfitOutOfRange
    );
    assert_eq!(
        config_error_of(BbBandConfig { stop_loss_pct: 10_001, ..good }),
        EngineError::StopLossOutOfRange
    );
    assert_eq!(config_error_of(BbBandConfig { fee_rate: 0, ..good }), EngineError::FeeRateOutOfRange);
    assert_eq!(
        config_error_of(BbBandConfig { fee_rate: 10_001, ..good }),
        EngineError::FeeRateOutOfRange
    );
    assert_eq!(config_error_of(BbBandConfig { leverage: 0, ..good }), EngineError::LeverageOutOfRange);
    assert_eq!(
        config_error_of(BbBandConfig { leverage: 1_001, ..good }),
        EngineError::LeverageOutOfRange
    );
    assert_eq!(
        config_error_of(BbBandConfig { entry_fraction: 0, ..good }),
        EngineError::EntryFractionOutOfRange
    );
    assert_eq!(
        config_error_of(BbBandConfig { entry_fraction: 10_001, ..good }),
        EngineError::EntryFractionOutOfRange
    );
    assert_eq!(
        config_error_of(BbBandConfig { band_width: 1_000_001, ..good }),
        EngineError::WidthOutOfRange
    );
}

#[test]
fn data_errors() {
    let config = valid_config();
    assert_eq!(backtest(&config, &vec![]), Err(EngineError::EmptyCandles));

    let zero_price = vec![candle(0, 100 * M, 100 * M, 0, 100 * M)];
    assert_eq!(backtest(&config, &zero_price), Err(EngineError::InvalidPrice));

    let inverted = vec![candle(0, 100 * M, 90 * M, 100 * M, 100 * M)];
    assert_eq!(backtest(&config, &inverted), Err(EngineError::InvalidPrice));

    let too_big = vec![flat_candle(0, 1_000_000_000_000_001)];
    assert_eq!(backtest(&config, &too_big), Err(EngineError::InvalidPrice));

    let mut stale = vec![flat_candle(0, 100 * M), flat_candle(1, 100 * M)];
    stale[1].close_time = stale[0].close_time;
    assert_eq!(backtest(&config, &stale), Err(EngineError::NonMonotonicTimestamps));
}
