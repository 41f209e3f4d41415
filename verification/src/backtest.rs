//! The backtest runner: validation, the per-candle loop, and the laws the
//! engine obeys.
//!
//! `run_spec` folds `step_spec` over the candle sequence; `backtest` is
//! proved to return exactly that fold, after checking the configuration and
//! the data exactly as `config_error` and `klines_error` describe.

use vstd::prelude::*;

use crate::engine::{
    exit_trigger, lemma_fee_nonneg, lemma_step_preserves_wf, mid_price, step_spec, window_push,
    BBSwing,
};
use crate::arith::{
    lemma_div_lower, lemma_div_upper, CASH_MAX, LEVERAGE_MAX, PRICE_MAX, SCALE, WIDTH_MAX,
    WINDOW_MAX,
};
use crate::types::{
    all_klines_valid, config_error, flat_position, init_metric, klines_error, metric_wf,
    monotonic_times, valid_config, valid_kline, BacktestMetric, BbBandConfig, EngineError, Kline,
    TradeLog, TradeSide,
};

verus! {

/// The window the engine holds after `i` candles: the last `w` of the
/// first `i`.
pub open spec fn window_at(ks: Seq<Kline>, i: int, w: int) -> Seq<Kline> {
    if i <= w {
        ks.subrange(0, i)
    } else {
        ks.subrange(i - w, i)
    }
}

/// The state after the first `t` candles: the initial metric stepped
/// through `step_spec` once per candle from the `band_window`-th onward,
/// with every exit's trade log collected in order. `None` once any step's
/// arithmetic leaves the fixed-point range.
pub open spec fn run_spec(cfg: BbBandConfig, ks: Seq<Kline>, t: int) -> Option<
    (BacktestMetric, Seq<TradeLog>),
>
    decreases t,
{
    if t <= 0 {
        Some((init_metric(cfg), Seq::<TradeLog>::empty()))
    } else {
        match run_spec(cfg, ks, t - 1) {
            None => None,
            Some((m, logs)) => {
                if t - 1 < cfg.band_window {
                    Some((m, logs))
                } else {
                    match step_spec(cfg, ks.subrange(t - 1 - cfg.band_window, t - 1), m, ks[t - 1]) {
                        None => None,
                        Some((m2, lg)) => Some(
                            (
                                m2,
                                match lg {
                                    None => logs,
                                    Some(l) => logs.push(l),
                                },
                            ),
                        ),
                    }
                }
            },
        }
    }
}

/// What `backtest` returns: the configuration error, else the data error,
/// else `Overflow` when the fold aborts, else the fold's final metric and
/// trade logs.
pub open spec fn backtest_post(
    cfg: BbBandConfig,
    ks: Seq<Kline>,
    r: Result<(BacktestMetric, Vec<TradeLog>), EngineError>,
) -> bool {
    match config_error(cfg) {
        Some(e) => r matches Err(e2) && e2 == e,
        None => match klines_error(ks) {
            Some(e) => r matches Err(e2) && e2 == e,
            None => match run_spec(cfg, ks, ks.len() as int) {
                None => r matches Err(e2) && e2 == EngineError::Overflow,
                Some(p) => r matches Ok(q) && q.0 == p.0 && q.1@ == p.1,
            },
        },
    }
}

/// Checks the configuration, reporting the first field out of range in the
/// order `config_error` fixes.
pub fn validate_config(config: &BbBandConfig) -> (r: Option<EngineError>)
    ensures
        r == config_error(*config),
        r is None <==> valid_config(*config),
{
    if !(1 <= config.band_window && config.band_window <= WINDOW_MAX) {
        Some(EngineError::WindowOutOfRange)
    } else if !(1 <= config.initial_capital && config.initial_capital <= CASH_MAX as u64) {
        Some(EngineError::CapitalOutOfRange)
    } else if !(config.take_profit_pct <= SCALE) {
        Some(EngineError::TakeProfitOutOfRange)
    } else if !(config.stop_loss_pct <= SCALE) {
        Some(EngineError::StopLossOutOfRange)
    } else if !(1 <= config.fee_rate && config.fee_rate <= SCALE) {
        Some(EngineError::FeeRateOutOfRange)
    } else if !(1 <= config.leverage && config.leverage <= LEVERAGE_MAX) {
        Some(EngineError::LeverageOutOfRange)
    } else if !(1 <= config.entry_fraction && config.entry_fraction <= SCALE) {
        Some(EngineError::EntryFractionOutOfRange)
    } else if !(config.band_width <= WIDTH_MAX) {
        Some(EngineError::WidthOutOfRange)
    } else {
        None
    }
}

/// Whether one candle is acceptable.
fn kline_ok(k: &Kline) -> (r: bool)
    ensures
        r == valid_kline(*k),
{
    1 <= k.low && k.low <= k.high && k.high <= PRICE_MAX && 1 <= k.open && k.open <= PRICE_MAX && 1
        <= k.close && k.close <= PRICE_MAX
}

/// Checks the candle sequence, reporting the first failure in the order
/// `klines_error` fixes: emptiness, then prices, then timestamps.
pub fn validate_klines(klines: &Vec<Kline>) -> (r: Option<EngineError>)
    ensures
        r == klines_error(klines@),
{
    if klines.len() == 0 {
        return Some(EngineError::EmptyCandles);
    }
    let mut i: usize = 0;
    while i < klines.len()
        invariant
            0 <= i <= klines@.len(),
            forall|j: int| 0 <= j < i ==> valid_kline(#[trigger] klines@[j]),
        decreases klines@.len() - i,
    {
        if !kline_ok(&klines[i]) {
            proof {
                assert(!valid_kline(klines@[i as int]));
            }
            return Some(EngineError::InvalidPrice);
        }
        i = i + 1;
    }
    proof {
        assert(all_klines_valid(klines@));
    }
    let mut j: usize = 1;
    while j < klines.len()
        invariant
            1 <= j <= klines@.len() || klines@.len() < 1,
            all_klines_valid(klines@),
            forall|t: int| 1 <= t < j ==> (#[trigger] klines@[t]).close_time > klines@[t
                - 1].close_time,
        decreases klines@.len() - j,
    {
        if klines[j].close_time <= klines[j - 1].close_time {
            proof {
                assert(!monotonic_times(klines@));
            }
            return Some(EngineError::NonMonotonicTimestamps);
        }
        j = j + 1;
    }
    proof {
        assert(monotonic_times(klines@));
    }
    None
}

/// Once a run has aborted, it stays aborted.
pub proof fn lemma_run_none_propagates(cfg: BbBandConfig, ks: Seq<Kline>, t1: int, t2: int)
    requires
        0 <= t1 <= t2,
        run_spec(cfg, ks, t1) is None,
    ensures
        run_spec(cfg, ks, t2) is None,
    decreases t2 - t1,
{
    if t1 < t2 {
        lemma_run_none_propagates(cfg, ks, t1, t2 - 1);
    }
}

/// Runs the whole backtest: validates the configuration and the candles,
/// then drives every candle in order through the engine, and returns the
/// final metric with one trade log per exit — exactly the fold `run_spec`
/// describes, or the error `backtest_post` fixes.
pub fn backtest(config: &BbBandConfig, klines: &Vec<Kline>) -> (r: Result<
    (BacktestMetric, Vec<TradeLog>),
    EngineError,
>)
    ensures
        backtest_post(*config, klines@, r),
{
    if let Some(e) = validate_config(config) {
        return Err(e);
    }
    if let Some(e) = validate_klines(klines) {
        return Err(e);
    }
    let ghost ks = klines@;
    let ghost cfg = *config;
    let mut metric: BacktestMetric = BacktestMetric::new(config);
    let mut engine: BBSwing = BBSwing::new(config);
    let mut logs: Vec<TradeLog> = Vec::new();
    let mut i: usize = 0;
    proof {
        assert(engine.klines@ =~= window_at(ks, 0, cfg.band_window as int));
    }
    while i < klines.len()
        invariant
            0 <= i <= ks.len(),
            ks == klines@,
            cfg == *config,
            valid_config(cfg),
            config_error(cfg) is None,
            klines_error(ks) is None,
            all_klines_valid(ks),
            engine.wf(),
            engine.cfg() == cfg,
            engine.klines@ == window_at(ks, i as int, cfg.band_window as int),
            run_spec(cfg, ks, i as int) == Some((metric, logs@)),
            metric_wf(metric),
        decreases ks.len() - i,
    {
        let ghost w0 = engine.klines@;
        let ghost m0 = metric;
        let ghost logs0 = logs@;
        proof {
            assert(valid_kline(ks[i as int]));
            if i >= cfg.band_window {
                assert(w0 =~= ks.subrange(i - cfg.band_window, i as int));
            }
        }
        match engine.strategy(&mut metric, &klines[i]) {
            Ok(lg) => {
                proof {
                    if i >= cfg.band_window {
                        assert(w0.len() == cfg.band_window);
                        assert(step_spec(cfg, ks.subrange(i - cfg.band_window, i as int), m0, ks[i as int])
                            == Some((metric, lg)));
                        assert(run_spec(cfg, ks, i + 1) == Some(
                            (
                                metric,
                                match lg {
                                    None => logs0,
                                    Some(l) => logs0.push(l),
                                },
                            ),
                        ));
                    } else {
                        assert(w0.len() < cfg.band_window);
                        assert(run_spec(cfg, ks, i + 1) == Some((metric, logs0)));
                    }
                    assert(engine.klines@ == window_push(w0, ks[i as int], cfg.band_window as int));
                    assert(window_push(window_at(ks, i as int, cfg.band_window as int), ks[i as int], cfg.band_window as int)
                        =~= window_at(ks, i + 1, cfg.band_window as int));
                }
                if let Some(l) = lg {
                    logs.push(l);
                }
            },
            Err(e) => {
                proof {
                    assert(w0.len() == cfg.band_window);
                    assert(i >= cfg.band_window);
                    assert(step_spec(cfg, ks.subrange(i - cfg.band_window, i as int), m0, ks[i as int]) is None);
                    assert(run_spec(cfg, ks, i + 1) is None);
                    lemma_run_none_propagates(cfg, ks, i + 1, ks.len() as int);
                }
                return Err(e);
            },
        }
        i = i + 1;
    }
    Ok((metric, logs))
}

/// At every point of a run, exactly one of these holds: no open position
/// (flat, size zero), or an open position of positive size — and every
/// ledger amount stays within the fixed-point range.
pub proof fn lemma_run_invariant(cfg: BbBandConfig, ks: Seq<Kline>, t: int)
    requires
        valid_config(cfg),
        all_klines_valid(ks),
        0 <= t <= ks.len(),
    ensures
        run_spec(cfg, ks, t) matches Some(p) ==> metric_wf(p.0),
    decreases t,
{
    if t > 0 {
        lemma_run_invariant(cfg, ks, t - 1);
        match run_spec(cfg, ks, t - 1) {
            None => {},
            Some((m, logs)) => {
                if t - 1 >= cfg.band_window {
                    let w = ks.subrange(t - 1 - cfg.band_window, t - 1);
                    if step_spec(cfg, w, m, ks[t - 1]) is Some {
                        assert(valid_kline(ks[t - 1]));
                        lemma_step_preserves_wf(cfg, w, m, ks[t - 1]);
                    }
                }
            },
        }
    }
}

/// After any exit, the new cash balance equals the old one plus the
/// trade's profit minus its fee, exactly; the fee and profit totals grow
/// by the same amounts.
pub proof fn lemma_exit_accounting(
    cfg: BbBandConfig,
    w: Seq<Kline>,
    m: BacktestMetric,
    c: Kline,
    m2: BacktestMetric,
    log: TradeLog,
)
    requires
        step_spec(cfg, w, m, c) == Some((m2, Some(log))),
    ensures
        m2.ledger.cash_balance == m.ledger.cash_balance + log.profit - log.fee,
        m2.ledger.total_fee == m.ledger.total_fee + log.fee,
        m2.ledger.total_profit == m.ledger.total_profit + log.profit,
        m2.ledger.wins + m2.ledger.losses == m.ledger.wins + m.ledger.losses + 1,
        m2.position == flat_position(),
{
    let p = m.position;
    let xp = exit_trigger(p, c)->Some_0;
    lemma_fee_nonneg(cfg.fee_rate as int, xp as int, p.size as int, cfg.leverage as int);
}

/// A run is a pure function of the candle sequence and the configuration:
/// two runs over the same inputs end in the same metric and the same
/// trade logs.
pub proof fn lemma_backtest_deterministic(
    cfg: BbBandConfig,
    ks: Seq<Kline>,
    r1: Option<(BacktestMetric, Seq<TradeLog>)>,
    r2: Option<(BacktestMetric, Seq<TradeLog>)>,
)
    requires
        r1 == run_spec(cfg, ks, ks.len() as int),
        r2 == run_spec(cfg, ks, ks.len() as int),
    ensures
        r1 == r2,
{
}

/// While no more candles than the window length have been seen, the run
/// never trades: the metric is still the initial one and no trade log has
/// been emitted. In particular a sequence shorter than the window opens no
/// trade at all.
pub proof fn lemma_warmup_no_trades(cfg: BbBandConfig, ks: Seq<Kline>, t: int)
    requires
        0 <= t <= cfg.band_window,
    ensures
        run_spec(cfg, ks, t) == Some((init_metric(cfg), Seq::<TradeLog>::empty())),
    decreases t,
{
    if t > 0 {
        lemma_warmup_no_trades(cfg, ks, t - 1);
    }
}

/// With both percentages zero, an entry sets the take-profit and the
/// stop-loss thresholds exactly at the entry price.
pub proof fn lemma_zero_pct_entry(
    cfg: BbBandConfig,
    w: Seq<Kline>,
    m: BacktestMetric,
    c: Kline,
    m2: BacktestMetric,
)
    requires
        cfg.take_profit_pct == 0,
        cfg.stop_loss_pct == 0,
        valid_kline(c),
        m.position.side == TradeSide::Flat,
        step_spec(cfg, w, m, c) matches Some(p) && p.0 == m2,
        m2.position.side != TradeSide::Flat,
    ensures
        m2.position.take_profit_price == m2.position.entry_price,
        m2.position.stop_loss_price == m2.position.entry_price,
{
    let price = mid_price(c);
    lemma_div_lower(c.high + c.low, 1, 2);
    lemma_div_upper(c.high + c.low, PRICE_MAX as int, 2);
    assert(price * 0 == 0);
    assert(0int / (SCALE as int) == 0);
}

/// With both thresholds at the entry price, any acceptable candle exits
/// the open position: its range always touches the entry price on the
/// triggering side, so a successful step ends flat and emits a trade log.
pub proof fn lemma_zero_thresholds_exit(
    cfg: BbBandConfig,
    w: Seq<Kline>,
    m: BacktestMetric,
    c: Kline,
)
    requires
        metric_wf(m),
        m.position.side != TradeSide::Flat,
        m.position.take_profit_price == m.position.entry_price,
        m.position.stop_loss_price == m.position.entry_price,
        valid_kline(c),
        step_spec(cfg, w, m, c) is Some,
    ensures
        step_spec(cfg, w, m, c)->Some_0.1 is Some,
        step_spec(cfg, w, m, c)->Some_0.0.position == flat_position(),
{
    let p = m.position;
    assert(c.low <= c.high);
    assert(exit_trigger(p, c) is Some);
}

} // verus!
