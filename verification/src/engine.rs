//! The trade state machine.
//!
//! `BBSwing` owns the sliding candle window and drives, per candle, the
//! entry/exit transition over the caller's `BacktestMetric`: `Flat → Open`
//! on a band-break signal, `Open → Flat` when the candle's range crosses a
//! threshold, with the stop-loss checked before the take-profit. The
//! transition is specified by `step_spec`, a pure function of the
//! configuration, the window, the previous state and the current candle.

use vstd::prelude::*;

use crate::arith::{
    lemma_div_lower, lemma_div_upper, mul_div, scale_fraction, CASH_MAX, LEVERAGE_MAX, PRICE_MAX,
    SCALE, SIZE_MAX,
};
use crate::indicator::{band_down, band_up, bollinger_band};
use crate::strategy::prev_bb_band_entry;
use crate::types::{
    all_klines_valid, flat_position, flat_position_exec, metric_wf, valid_config,
    valid_kline, BacktestMetric, BbBandConfig, BollingerBand, EngineError, Kline, Ledger,
    OrderSpec, Position, StrategyType, TradeLog, TradeSide,
};

verus! {

/// The price the engine trades at inside a candle: the midpoint of the
/// candle's range, the only price proxy available from OHLC aggregates.
pub open spec fn mid_price(k: Kline) -> int {
    (k.high + k.low) / 2
}

/// The fee of one fill: `rate * price * size * leverage`, evaluated in
/// fixed point exactly in this staging order.
pub open spec fn fee_amount(rate: int, price: int, size: int, lev: int) -> int {
    ((rate * price / (SCALE as int)) * size / (SCALE as int)) * lev
}

/// The unsigned P&L of one trade: `diff * size * leverage`, with `diff` the
/// distance between entry and exit, evaluated in fixed point exactly in
/// this staging order.
pub open spec fn profit_magnitude(diff: int, size: int, lev: int) -> int {
    (diff * size / (SCALE as int)) * lev
}

/// The signed P&L of one trade: positive when the exit is on the winning
/// side of the entry for the position's direction.
pub open spec fn profit_of(side: TradeSide, entry: int, exit: int, size: int, lev: int) -> int {
    if side == TradeSide::Buy {
        if exit >= entry {
            profit_magnitude(exit - entry, size, lev)
        } else {
            -profit_magnitude(entry - exit, size, lev)
        }
    } else {
        if entry >= exit {
            profit_magnitude(entry - exit, size, lev)
        } else {
            -profit_magnitude(exit - entry, size, lev)
        }
    }
}

/// The capital an entry may draw from: the initial capital capped by the
/// current cash under `Single` sizing, the full current cash under
/// `Compound` sizing.
pub open spec fn avail_capital(
    strategy_type: StrategyType,
    initial_capital: int,
    cash: int,
) -> int {
    if strategy_type == StrategyType::Single {
        if initial_capital <= cash {
            initial_capital
        } else {
            cash
        }
    } else {
        cash
    }
}

/// The size of a new entry: `avail * entry_fraction / entry_price`, and
/// zero when no positive capital is available.
pub open spec fn entry_size_of(
    strategy_type: StrategyType,
    initial_capital: int,
    entry_fraction: int,
    cash: int,
    price: int,
) -> int {
    let avail = avail_capital(strategy_type, initial_capital, cash);
    if avail < 1 {
        0
    } else {
        avail * entry_fraction / price
    }
}

/// The take-profit threshold of a new entry: above the entry for a long,
/// below it for a short.
pub open spec fn tp_price_of(side: TradeSide, entry: int, pct: int) -> int {
    if side == TradeSide::Buy {
        entry + entry * pct / (SCALE as int)
    } else {
        entry - entry * pct / (SCALE as int)
    }
}

/// The stop-loss threshold of a new entry: below the entry for a long,
/// above it for a short.
pub open spec fn sl_price_of(side: TradeSide, entry: int, pct: int) -> int {
    if side == TradeSide::Buy {
        entry - entry * pct / (SCALE as int)
    } else {
        entry + entry * pct / (SCALE as int)
    }
}

/// The entry signal over a full window: short when the window's last close
/// broke above the band, long when it broke below.
pub open spec fn entry_signal(w: Seq<Kline>, width: int) -> Option<TradeSide> {
    if w.last().close > band_up(w, width) {
        Some(TradeSide::Sell)
    } else if w.last().close < band_down(w, width) {
        Some(TradeSide::Buy)
    } else {
        None
    }
}

/// The tie-break rule for exits, named and fixed: the stop-loss is checked
/// before the take-profit, so a candle whose range spans both thresholds is
/// assumed to have hit the stop-loss first.
pub open spec fn exit_trigger(p: Position, k: Kline) -> Option<u64> {
    if p.side == TradeSide::Buy {
        if k.low <= p.stop_loss_price {
            Some(p.stop_loss_price)
        } else if k.high >= p.take_profit_price {
            Some(p.take_profit_price)
        } else {
            None
        }
    } else {
        if k.high >= p.stop_loss_price {
            Some(p.stop_loss_price)
        } else if k.low <= p.take_profit_price {
            Some(p.take_profit_price)
        } else {
            None
        }
    }
}

/// One `Flat → Open` transition check. The entry size is computed before
/// the signal is consulted, so a size beyond the representable range
/// aborts the step (`None`) whether or not the signal fires; a signal with
/// a size that floors to zero opens nothing. `Some((m, None))` is a step
/// without an entry.
pub open spec fn step_entry_spec(cfg: BbBandConfig, w: Seq<Kline>, m: BacktestMetric, c: Kline)
    -> Option<(BacktestMetric, Option<TradeLog>)> {
    let price = mid_price(c);
    let size = entry_size_of(
        cfg.strategy_type,
        cfg.initial_capital as int,
        cfg.entry_fraction as int,
        m.ledger.cash_balance as int,
        price,
    );
    if size > SIZE_MAX {
        None
    } else {
        let sig = entry_signal(w, cfg.band_width as int);
        if sig is Some && size >= 1 {
            let side = sig->Some_0;
            let fee = fee_amount(cfg.fee_rate as int, price, size, cfg.leverage as int);
            if fee > CASH_MAX {
                None
            } else {
                let cash2 = m.ledger.cash_balance - fee;
                let tfee2 = m.ledger.total_fee + fee;
                if cash2 < -CASH_MAX || tfee2 > CASH_MAX {
                    None
                } else {
                    Some(
                        (
                            BacktestMetric {
                                initial_capital: m.initial_capital,
                                ledger: Ledger {
                                    cash_balance: cash2 as i64,
                                    total_fee: tfee2 as u64,
                                    ..m.ledger
                                },
                                position: Position {
                                    side,
                                    size: size as u64,
                                    entry_price: price as u64,
                                    take_profit_price: tp_price_of(
                                        side,
                                        price,
                                        cfg.take_profit_pct as int,
                                    ) as u64,
                                    stop_loss_price: sl_price_of(
                                        side,
                                        price,
                                        cfg.stop_loss_pct as int,
                                    ) as u64,
                                },
                            },
                            None,
                        ),
                    )
                }
            }
        } else {
            Some((m, None))
        }
    }
}

/// One `Open → Flat` transition check: exit accounting when a threshold is
/// crossed, otherwise the position persists. `None` stands for arithmetic
/// leaving the fixed-point range.
pub open spec fn step_exit_spec(cfg: BbBandConfig, m: BacktestMetric, c: Kline) -> Option<
    (BacktestMetric, Option<TradeLog>),
> {
    let p = m.position;
    match exit_trigger(p, c) {
        None => Some((m, None)),
        Some(xp) => {
            let fee = fee_amount(cfg.fee_rate as int, xp as int, p.size as int, cfg.leverage as int);
            let profit = profit_of(
                p.side,
                p.entry_price as int,
                xp as int,
                p.size as int,
                cfg.leverage as int,
            );
            if fee > CASH_MAX || profit > CASH_MAX || profit < -CASH_MAX {
                None
            } else {
                let cash2 = m.ledger.cash_balance + profit - fee;
                let tfee2 = m.ledger.total_fee + fee;
                let tprofit2 = m.ledger.total_profit + profit;
                if cash2 < -CASH_MAX || cash2 > CASH_MAX || tfee2 > CASH_MAX || tprofit2 > CASH_MAX
                    || tprofit2 < -CASH_MAX {
                    None
                } else {
                    let winning = profit - fee >= 0;
                    if (winning && m.ledger.wins == u64::MAX) || (!winning && m.ledger.losses
                        == u64::MAX) {
                        None
                    } else {
                        let wins2 = if winning {
                            m.ledger.wins + 1
                        } else {
                            m.ledger.wins as int
                        };
                        let losses2 = if winning {
                            m.ledger.losses as int
                        } else {
                            m.ledger.losses + 1
                        };
                        let max2 = if cash2 > m.ledger.max_balance {
                            cash2
                        } else {
                            m.ledger.max_balance as int
                        };
                        let min2 = if cash2 < m.ledger.min_balance {
                            cash2
                        } else {
                            m.ledger.min_balance as int
                        };
                        let log = TradeLog {
                            close_time: c.close_time,
                            wins: wins2 as u64,
                            losses: losses2 as u64,
                            cash_balance: cash2 as i64,
                            position_size: p.size,
                            side: p.side,
                            entry_price: p.entry_price,
                            exit_price: xp,
                            profit: profit as i64,
                            fee: fee as u64,
                        };
                        Some(
                            (
                                BacktestMetric {
                                    initial_capital: m.initial_capital,
                                    ledger: Ledger {
                                        cash_balance: cash2 as i64,
                                        total_fee: tfee2 as u64,
                                        total_profit: tprofit2 as i64,
                                        wins: wins2 as u64,
                                        losses: losses2 as u64,
                                        max_balance: max2 as i64,
                                        min_balance: min2 as i64,
                                    },
                                    position: flat_position(),
                                },
                                Some(log),
                            ),
                        )
                    }
                }
            }
        },
    }
}

/// One transition of the trade state machine on one candle, over a full
/// window `w` ending at the candle before `c`. `None` stands for
/// arithmetic leaving the fixed-point range.
pub open spec fn step_spec(cfg: BbBandConfig, w: Seq<Kline>, m: BacktestMetric, c: Kline) -> Option<
    (BacktestMetric, Option<TradeLog>),
> {
    if m.position.side == TradeSide::Flat {
        step_entry_spec(cfg, w, m, c)
    } else {
        step_exit_spec(cfg, m, c)
    }
}

/// The fee of one fill, or `None` when it leaves the cash range.
pub fn calculate_fee(fee_rate: u64, price: u64, size: u64, leverage: u64) -> (r: Option<u64>)
    requires
        1 <= fee_rate <= SCALE,
        price <= 2 * PRICE_MAX,
        size <= SIZE_MAX,
        1 <= leverage <= LEVERAGE_MAX,
    ensures
        match r {
            Some(f) => {
                &&& f == fee_amount(fee_rate as int, price as int, size as int, leverage as int)
                &&& f <= CASH_MAX
            },
            None => fee_amount(fee_rate as int, price as int, size as int, leverage as int)
                > CASH_MAX,
        },
{
    let t1: u128 = mul_div(fee_rate, price, SCALE);
    proof {
        assert((fee_rate as int) * (price as int) <= (price as int) * (SCALE as int))
            by (nonlinear_arith)
            requires
                fee_rate <= SCALE,
                0 <= price,
        ;
        lemma_div_upper((fee_rate as int) * (price as int), price as int, SCALE as int);
    }
    let t1u: u64 = t1 as u64;
    let t2: u128 = mul_div(t1u, size, SCALE);
    proof {
        assert((t1u as int) * (size as int) <= 2_000_000_000_000_000_000_000_000_000_000int)
            by (nonlinear_arith)
            requires
                0 <= t1u <= 2_000_000_000_000_000,
                0 <= size <= 1_000_000_000_000_000,
        ;
        lemma_div_upper(
            (t1u as int) * (size as int),
            200_000_000_000_000_000_000_000_000int,
            SCALE as int,
        );
    }
    proof {
        assert((t2 as int) * (leverage as int) <= 200_000_000_000_000_000_000_000_000_000int)
            by (nonlinear_arith)
            requires
                0 <= t2 <= 200_000_000_000_000_000_000_000_000int,
                0 <= leverage <= 1_000,
        ;
    }
    let t3: u128 = t2 * (leverage as u128);
    if t3 > CASH_MAX as u128 {
        None
    } else {
        Some(t3 as u64)
    }
}

/// The unsigned P&L of one trade, or `None` when it leaves the cash range.
fn profit_part(diff: u64, size: u64, leverage: u64) -> (r: Option<u64>)
    requires
        diff <= 2 * PRICE_MAX,
        size <= SIZE_MAX,
        1 <= leverage <= LEVERAGE_MAX,
    ensures
        match r {
            Some(v) => {
                &&& v == profit_magnitude(diff as int, size as int, leverage as int)
                &&& v <= CASH_MAX
            },
            None => profit_magnitude(diff as int, size as int, leverage as int) > CASH_MAX,
        },
{
    let t1: u128 = mul_div(diff, size, SCALE);
    proof {
        assert((diff as int) * (size as int) <= 2_000_000_000_000_000_000_000_000_000_000int)
            by (nonlinear_arith)
            requires
                0 <= diff <= 2_000_000_000_000_000,
                0 <= size <= 1_000_000_000_000_000,
        ;
        lemma_div_upper(
            (diff as int) * (size as int),
            200_000_000_000_000_000_000_000_000int,
            SCALE as int,
        );
    }
    proof {
        assert((t1 as int) * (leverage as int) <= 200_000_000_000_000_000_000_000_000_000int)
            by (nonlinear_arith)
            requires
                0 <= t1 <= 200_000_000_000_000_000_000_000_000int,
                0 <= leverage <= 1_000,
        ;
    }
    let t2: u128 = t1 * (leverage as u128);
    if t2 > CASH_MAX as u128 {
        None
    } else {
        Some(t2 as u64)
    }
}

/// The size of a new entry under the configured sizing mode.
pub fn compute_entry_size(
    strategy_type: StrategyType,
    initial_capital: u64,
    cash_balance: i64,
    entry_fraction: u64,
    entry_price: u64,
) -> (r: u128)
    requires
        initial_capital <= CASH_MAX,
        1 <= entry_price,
    ensures
        r == entry_size_of(
            strategy_type,
            initial_capital as int,
            entry_fraction as int,
            cash_balance as int,
            entry_price as int,
        ),
{
    let avail: i64 = if strategy_type == StrategyType::Single {
        if (initial_capital as i64) <= cash_balance {
            initial_capital as i64
        } else {
            cash_balance
        }
    } else {
        cash_balance
    };
    if avail < 1 {
        0
    } else {
        mul_div(avail as u64, entry_fraction, entry_price)
    }
}

/// Where, if anywhere, the candle's range exits the open position: the
/// stop-loss before the take-profit, by the named tie-break rule
/// `exit_trigger`.
pub fn exit_trigger_price(p: &Position, k: &Kline) -> (r: Option<u64>)
    requires
        p.side != TradeSide::Flat,
    ensures
        r == exit_trigger(*p, *k),
{
    if p.side == TradeSide::Buy {
        if k.low <= p.stop_loss_price {
            Some(p.stop_loss_price)
        } else if k.high >= p.take_profit_price {
            Some(p.take_profit_price)
        } else {
            None
        }
    } else {
        if k.high >= p.stop_loss_price {
            Some(p.stop_loss_price)
        } else if k.low <= p.take_profit_price {
            Some(p.take_profit_price)
        } else {
            None
        }
    }
}

/// The fee of a fill is never negative.
pub proof fn lemma_fee_nonneg(rate: int, price: int, size: int, lev: int)
    requires
        0 <= rate,
        0 <= price,
        0 <= size,
        0 <= lev,
    ensures
        0 <= fee_amount(rate, price, size, lev),
{
    assert(0 <= rate * price) by (nonlinear_arith)
        requires
            0 <= rate,
            0 <= price,
    ;
    vstd::arithmetic::div_mod::lemma_div_pos_is_pos(rate * price, SCALE as int);
    assert(0 <= (rate * price / (SCALE as int)) * size) by (nonlinear_arith)
        requires
            0 <= rate * price / (SCALE as int),
            0 <= size,
    ;
    vstd::arithmetic::div_mod::lemma_div_pos_is_pos(
        (rate * price / (SCALE as int)) * size,
        SCALE as int,
    );
    assert(0 <= (rate * price / (SCALE as int)) * size / (SCALE as int) * lev) by (nonlinear_arith)
        requires
            0 <= (rate * price / (SCALE as int)) * size / (SCALE as int),
            0 <= lev,
    ;
}

/// A fraction of a price, `price * pct / SCALE` with `pct <= SCALE`, lies
/// between zero and the price.
pub proof fn lemma_price_fraction_bounds(price: int, pct: int)
    requires
        0 <= price,
        0 <= pct <= SCALE,
    ensures
        0 <= price * pct / (SCALE as int) <= price,
{
    assert(0 <= price * pct <= price * (SCALE as int)) by (nonlinear_arith)
        requires
            0 <= price,
            0 <= pct <= SCALE,
    ;
    vstd::arithmetic::div_mod::lemma_div_pos_is_pos(price * pct, SCALE as int);
    lemma_div_upper(price * pct, price, SCALE as int);
}

/// A successful step keeps the metric well formed: at every candle the
/// engine holds either no position or an open one of positive size, and
/// every ledger amount stays in range.
pub proof fn lemma_step_preserves_wf(cfg: BbBandConfig, w: Seq<Kline>, m: BacktestMetric, c: Kline)
    requires
        valid_config(cfg),
        metric_wf(m),
        valid_kline(c),
        step_spec(cfg, w, m, c) is Some,
    ensures
        metric_wf(step_spec(cfg, w, m, c)->Some_0.0),
{
    if m.position.side == TradeSide::Flat {
        let price = mid_price(c);
        lemma_div_lower(c.high + c.low, 1, 2);
        lemma_div_upper(c.high + c.low, PRICE_MAX as int, 2);
        let size = entry_size_of(
            cfg.strategy_type,
            cfg.initial_capital as int,
            cfg.entry_fraction as int,
            m.ledger.cash_balance as int,
            price,
        );
        let sig = entry_signal(w, cfg.band_width as int);
        if size <= SIZE_MAX && sig is Some && size >= 1 {
            let fee = fee_amount(cfg.fee_rate as int, price, size, cfg.leverage as int);
            lemma_fee_nonneg(cfg.fee_rate as int, price, size, cfg.leverage as int);
            lemma_price_fraction_bounds(price, cfg.take_profit_pct as int);
            lemma_price_fraction_bounds(price, cfg.stop_loss_pct as int);
        }
    } else {
        let p = m.position;
        match exit_trigger(p, c) {
            None => {},
            Some(xp) => {
                lemma_fee_nonneg(cfg.fee_rate as int, xp as int, p.size as int, cfg.leverage as int);
            },
        }
    }
}

/// The sliding window after one candle: the candle appended, and the
/// oldest dropped once the window would exceed its capacity.
pub open spec fn window_push(w: Seq<Kline>, k: Kline, cap: int) -> Seq<Kline> {
    let p = w.push(k);
    if p.len() > cap {
        p.subrange(1, p.len() as int)
    } else {
        p
    }
}

/// The swing engine: the sliding candle window together with the strategy
/// parameters it trades by.
pub struct BBSwing {
    pub klines: Vec<Kline>,
    pub strategy_type: StrategyType,
    pub initial_capital: u64,
    pub take_profit_pct: u64,
    pub stop_loss_pct: u64,
    pub fee_rate: u64,
    pub leverage: u64,
    pub entry_fraction: u64,
    pub band_window: usize,
    pub band_width: u64,
}

impl BBSwing {
    /// The configuration this engine trades by.
    pub open spec fn cfg(&self) -> BbBandConfig {
        BbBandConfig {
            initial_capital: self.initial_capital,
            take_profit_pct: self.take_profit_pct,
            stop_loss_pct: self.stop_loss_pct,
            fee_rate: self.fee_rate,
            leverage: self.leverage,
            strategy_type: self.strategy_type,
            entry_fraction: self.entry_fraction,
            band_window: self.band_window,
            band_width: self.band_width,
        }
    }

    /// Well-formed engine: valid parameters, a window no longer than its
    /// capacity, and only acceptable candles in it.
    pub open spec fn wf(&self) -> bool {
        &&& valid_config(self.cfg())
        &&& self.klines@.len() <= self.band_window
        &&& all_klines_valid(self.klines@)
    }

    /// A fresh engine with an empty window.
    pub fn new(config: &BbBandConfig) -> (r: BBSwing)
        requires
            valid_config(*config),
        ensures
            r.cfg() == *config,
            r.klines@ == Seq::<Kline>::empty(),
            r.wf(),
    {
        BBSwing {
            klines: Vec::new(),
            strategy_type: config.strategy_type,
            initial_capital: config.initial_capital,
            take_profit_pct: config.take_profit_pct,
            stop_loss_pct: config.stop_loss_pct,
            fee_rate: config.fee_rate,
            leverage: config.leverage,
            entry_fraction: config.entry_fraction,
            band_window: config.band_window,
            band_width: config.band_width,
        }
    }

    /// Feeds one candle through the state machine. While the window is
    /// still warming up, only the window changes. Once the window is full,
    /// performs exactly the transition `step_spec` describes on `metric`,
    /// returning the trade log of an exit, or `Overflow` (with the state
    /// unchanged) when the transition's arithmetic leaves the fixed-point
    /// range.
    pub fn strategy(&mut self, metric: &mut BacktestMetric, kline: &Kline) -> (r: Result<
        Option<TradeLog>,
        EngineError,
    >)
        requires
            old(self).wf(),
            valid_kline(*kline),
            metric_wf(*old(metric)),
        ensures
            final(self).cfg() == old(self).cfg(),
            match r {
                Ok(lg) => {
                    &&& final(self).klines@ == window_push(
                        old(self).klines@,
                        *kline,
                        old(self).band_window as int,
                    )
                    &&& if old(self).klines@.len() == old(self).band_window {
                        step_spec(old(self).cfg(), old(self).klines@, *old(metric), *kline)
                            == Some((*final(metric), lg))
                    } else {
                        lg is None && *final(metric) == *old(metric)
                    }
                    &&& final(self).wf()
                    &&& metric_wf(*final(metric))
                },
                Err(e) => {
                    &&& e == EngineError::Overflow
                    &&& old(self).klines@.len() == old(self).band_window
                    &&& step_spec(old(self).cfg(), old(self).klines@, *old(metric), *kline)
                        is None
                    &&& *final(self) == *old(self)
                    &&& *final(metric) == *old(metric)
                },
            },
    {
        let ghost cfg0 = self.cfg();
        let ghost w0 = self.klines@;
        let ghost m0 = *metric;
        let mut out: Option<TradeLog> = None;
        if self.klines.len() == self.band_window {
            let band_opt: Option<BollingerBand> = bollinger_band(
                self.band_window,
                self.band_width,
                &self.klines,
            );
            let band: BollingerBand = band_opt.unwrap();
            proof {
                assert(w0.subrange(w0.len() - self.band_window, w0.len() as int) =~= w0);
            }
            if metric.position.side == TradeSide::Flat {
                let price: u64 = (kline.high + kline.low) / 2;
                proof {
                    lemma_div_lower(kline.high + kline.low, 1, 2);
                    lemma_div_upper(kline.high + kline.low, PRICE_MAX as int, 2);
                }
                let s128: u128 = compute_entry_size(
                    self.strategy_type,
                    self.initial_capital,
                    metric.ledger.cash_balance,
                    self.entry_fraction,
                    price,
                );
                if s128 > SIZE_MAX as u128 {
                    proof {
                        assert(step_spec(cfg0, w0, m0, *kline) is None);
                    }
                    return Err(EngineError::Overflow);
                }
                let size: u64 = s128 as u64;
                if size >= 1 {
                    let prev: Kline = self.klines[self.klines.len() - 1];
                    proof {
                        assert(prev == w0.last());
                        assert(valid_kline(prev));
                    }
                    let order_opt: Option<OrderSpec> = prev_bb_band_entry(&prev, &band, size);
                    match order_opt {
                        Some(order) => {
                            proof {
                                assert(entry_signal(w0, cfg0.band_width as int)
                                    == Some(order.side));
                            }
                            let fee_opt: Option<u64> = calculate_fee(
                                self.fee_rate,
                                price,
                                size,
                                self.leverage,
                            );
                            if fee_opt.is_none() {
                                proof {
                                    assert(step_spec(cfg0, w0, m0, *kline) is None);
                                }
                                return Err(EngineError::Overflow);
                            }
                            let fee: u64 = fee_opt.unwrap();
                            let cash2: i64 = metric.ledger.cash_balance - (fee as i64);
                            if cash2 < -CASH_MAX {
                                proof {
                                    assert(step_spec(cfg0, w0, m0, *kline) is None);
                                }
                                return Err(EngineError::Overflow);
                            }
                            let tfee2: u64 = metric.ledger.total_fee + fee;
                            if tfee2 > CASH_MAX as u64 {
                                proof {
                                    assert(step_spec(cfg0, w0, m0, *kline) is None);
                                }
                                return Err(EngineError::Overflow);
                            }
                            let delta_tp: u64 = scale_fraction(price, self.take_profit_pct);
                            let delta_sl: u64 = scale_fraction(price, self.stop_loss_pct);
                            let tp: u64 = if order.side == TradeSide::Buy {
                                price + delta_tp
                            } else {
                                price - delta_tp
                            };
                            let sl: u64 = if order.side == TradeSide::Buy {
                                price - delta_sl
                            } else {
                                price + delta_sl
                            };
                            metric.ledger.cash_balance = cash2;
                            metric.ledger.total_fee = tfee2;
                            metric.position = Position {
                                side: order.side,
                                size,
                                entry_price: price,
                                take_profit_price: tp,
                                stop_loss_price: sl,
                            };
                            proof {
                                assert(step_spec(cfg0, w0, m0, *kline) == Some(
                                    (*metric, None::<TradeLog>),
                                ));
                                lemma_step_preserves_wf(cfg0, w0, m0, *kline);
                            }
                        },
                        None => {
                            proof {
                                assert(entry_signal(w0, cfg0.band_width as int)
                                    is None);
                                assert(step_spec(cfg0, w0, m0, *kline) == Some(
                                    (m0, None::<TradeLog>),
                                ));
                            }
                        },
                    }
                } else {
                    proof {
                        assert(step_spec(cfg0, w0, m0, *kline) == Some((m0, None::<TradeLog>)));
                    }
                }
            } else {
                let p: Position = metric.position;
                let trigger_opt: Option<u64> = exit_trigger_price(&p, kline);
                match trigger_opt {
                    None => {
                        proof {
                            assert(step_spec(cfg0, w0, m0, *kline) == Some(
                                (m0, None::<TradeLog>),
                            ));
                        }
                    },
                    Some(xp) => {
                        let fee_opt: Option<u64> = calculate_fee(
                            self.fee_rate,
                            xp,
                            p.size,
                            self.leverage,
                        );
                        let diff: u64 = if p.side == TradeSide::Buy {
                            if xp >= p.entry_price {
                                xp - p.entry_price
                            } else {
                                p.entry_price - xp
                            }
                        } else {
                            if p.entry_price >= xp {
                                p.entry_price - xp
                            } else {
                                xp - p.entry_price
                            }
                        };
                        let gain: bool = if p.side == TradeSide::Buy {
                            xp >= p.entry_price
                        } else {
                            p.entry_price >= xp
                        };
                        let pm_opt: Option<u64> = profit_part(diff, p.size, self.leverage);
                        if fee_opt.is_none() || pm_opt.is_none() {
                            proof {
                                assert(step_spec(cfg0, w0, m0, *kline) is None);
                            }
                            return Err(EngineError::Overflow);
                        }
                        let fee: u64 = fee_opt.unwrap();
                        let pm: u64 = pm_opt.unwrap();
                        let profit: i64 = if gain {
                            pm as i64
                        } else {
                            -(pm as i64)
                        };
                        proof {
                            assert(profit == profit_of(
                                p.side,
                                p.entry_price as int,
                                xp as int,
                                p.size as int,
                                cfg0.leverage as int,
                            ));
                        }
                        let pf: i64 = profit - (fee as i64);
                        let cash2: i64 = metric.ledger.cash_balance + pf;
                        if cash2 < -CASH_MAX || cash2 > CASH_MAX {
                            proof {
                                assert(step_spec(cfg0, w0, m0, *kline) is None);
                            }
                            return Err(EngineError::Overflow);
                        }
                        let tfee2: u64 = metric.ledger.total_fee + fee;
                        if tfee2 > CASH_MAX as u64 {
                            proof {
                                assert(step_spec(cfg0, w0, m0, *kline) is None);
                            }
                            return Err(EngineError::Overflow);
                        }
                        let tprofit2: i64 = metric.ledger.total_profit + profit;
                        if tprofit2 > CASH_MAX || tprofit2 < -CASH_MAX {
                            proof {
                                assert(step_spec(cfg0, w0, m0, *kline) is None);
                            }
                            return Err(EngineError::Overflow);
                        }
                        let winning: bool = pf >= 0;
                        if (winning && metric.ledger.wins == u64::MAX) || (!winning
                            && metric.ledger.losses == u64::MAX) {
                            proof {
                                assert(step_spec(cfg0, w0, m0, *kline) is None);
                            }
                            return Err(EngineError::Overflow);
                        }
                        let wins2: u64 = if winning {
                            metric.ledger.wins + 1
                        } else {
                            metric.ledger.wins
                        };
                        let losses2: u64 = if winning {
                            metric.ledger.losses
                        } else {
                            metric.ledger.losses + 1
                        };
                        let max2: i64 = if cash2 > metric.ledger.max_balance {
                            cash2
                        } else {
                            metric.ledger.max_balance
                        };
                        let min2: i64 = if cash2 < metric.ledger.min_balance {
                            cash2
                        } else {
                            metric.ledger.min_balance
                        };
                        let log: TradeLog = TradeLog {
                            close_time: kline.close_time,
                            wins: wins2,
                            losses: losses2,
                            cash_balance: cash2,
                            position_size: p.size,
                            side: p.side,
                            entry_price: p.entry_price,
                            exit_price: xp,
                            profit,
                            fee,
                        };
                        metric.ledger = Ledger {
                            cash_balance: cash2,
                            total_fee: tfee2,
                            total_profit: tprofit2,
                            wins: wins2,
                            losses: losses2,
                            max_balance: max2,
                            min_balance: min2,
                        };
                        init_trade(metric);
                        proof {
                            assert(step_spec(cfg0, w0, m0, *kline) == Some((*metric, Some(log))));
                            lemma_step_preserves_wf(cfg0, w0, m0, *kline);
                        }
                        out = Some(log);
                    },
                }
            }
        }
        self.klines.push(*kline);
        if self.klines.len() > self.band_window {
            let _dropped: Kline = self.klines.remove(0);
        }
        proof {
            assert(self.klines@ =~= window_push(w0, *kline, cfg0.band_window as int));
        }
        Ok(out)
    }
}

/// Clears the position after an exit; the ledger is untouched.
pub fn init_trade(metric: &mut BacktestMetric)
    ensures
        final(metric).position == flat_position(),
        final(metric).ledger == old(metric).ledger,
        final(metric).initial_capital == old(metric).initial_capital,
{
    metric.position = flat_position_exec();
}

} // verus!
