//! The entry signal: mean reversion against the previous candle's band.
//!
//! The signal reads the close of the previous, fully closed candle against
//! the band computed over the window ending at that candle — never the
//! current candle — so the decision uses no lookahead.

use vstd::prelude::*;

use crate::types::{valid_kline, BollingerBand, Kline, OrderSpec, TradeSide};

verus! {

/// Proposes an entry order from the previous candle and its band: short
/// when the close broke above the band, long when it broke below, nothing
/// inside the band. The proposed size is passed through unchanged.
pub fn prev_bb_band_entry(prev_kline: &Kline, prev_bb_band: &BollingerBand, entry_size: u64) -> (r:
    Option<OrderSpec>)
    requires
        valid_kline(*prev_kline),
    ensures
        r is Some <==> (prev_kline.close > prev_bb_band.up || prev_kline.close < prev_bb_band.down),
        r matches Some(o) ==> {
            &&& o.position == entry_size
            &&& o.side == (if prev_kline.close > prev_bb_band.up {
                TradeSide::Sell
            } else {
                TradeSide::Buy
            })
        },
{
    let prev_price: i64 = prev_kline.close as i64;
    if prev_price > prev_bb_band.up || prev_price < prev_bb_band.down {
        let side: TradeSide = if prev_price > prev_bb_band.up {
            TradeSide::Sell
        } else {
            TradeSide::Buy
        };
        Some(OrderSpec { position: entry_size, side })
    } else {
        None
    }
}

} // verus!
