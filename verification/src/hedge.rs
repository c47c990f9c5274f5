//! Stable-coin hedging signal.
//!
//! With the band over the cached window in hand, the decision is pure: open
//! a position when there is none (or the last trade closed one) and the
//! close sits below par and at or under the lower band; close it when the
//! last trade was a buy and the close has reached the upper band, selling
//! exactly the open buy's amount.  There is no other exit.

use vstd::prelude::*;
use crate::band::BandQuote;
use crate::dec::{trunc_to, Dec, DEC_DP, DEC_UNIT, MAX_UNITS};
use crate::model::{ArbStableCoin, ArbStableCoinInfo, RecordStatus, TradeKind};

verus! {

/// What the hedging engine should do for one position this round.
#[derive(Clone, Copy, Debug)]
pub enum HedgeSignal {
    /// Open: place a buy at the truncated last close for the configured
    /// amount.
    PlaceBuy { price: Dec, amount: Dec },
    /// Close: place a sell at the truncated last close, sized to the open
    /// buy's amount.
    PlaceSell { price: Dec, amount: Dec },
    /// No signal.
    Hold,
}

/// A buy is wanted when no position is open — no trade yet, or the latest
/// was a sell — and the last close is below par and at or under the lower
/// band.
pub open spec fn buy_wanted(last: Option<ArbStableCoinInfo>, last_close: int, lower: int) -> bool {
    &&& match last {
        None => true,
        Some(t) => t.option_type is Sell,
    }
    &&& last_close < DEC_UNIT
    &&& last_close <= lower
}

/// A sell is wanted when the latest trade was a buy and the last close has
/// reached the upper band.
pub open spec fn sell_wanted(last: Option<ArbStableCoinInfo>, last_close: int, upper: int) -> bool {
    &&& match last {
        None => false,
        Some(t) => t.option_type is Buy,
    }
    &&& last_close >= upper
}

/// The signal for one position: `last_trade` is its most recent trade row,
/// if any, and `last_close` the close of the newest cached candle.
pub fn hedge_signal(
    pos: &ArbStableCoin,
    last_trade: &Option<ArbStableCoinInfo>,
    last_close: Dec,
    band: &BandQuote,
) -> (r: HedgeSignal)
    requires
        pos.price_truncate <= DEC_DP,
        pos.amt_truncate <= DEC_DP,
        0 <= pos.option_amt@ <= MAX_UNITS,
        0 <= last_close@ <= MAX_UNITS,
    ensures
        buy_wanted(*last_trade, last_close@, band.lower@) ==> (r matches HedgeSignal::PlaceBuy {
            price,
            amount,
        } && price@ == trunc_to(last_close@, pos.price_truncate as nat) && amount@ == trunc_to(
            pos.option_amt@,
            pos.amt_truncate as nat,
        )),
        sell_wanted(*last_trade, last_close@, band.upper@) ==> (r matches HedgeSignal::PlaceSell {
            price,
            amount,
        } && price@ == trunc_to(last_close@, pos.price_truncate as nat) && (*last_trade matches Some(
        t) && amount == t.amount)),
        (!buy_wanted(*last_trade, last_close@, band.lower@) && !sell_wanted(
            *last_trade,
            last_close@,
            band.upper@,
        )) ==> r is Hold,
{
    let no_open = match last_trade {
        None => true,
        Some(t) => matches!(t.option_type, TradeKind::Sell),
    };
    let one = Dec::from_units(DEC_UNIT);
    if no_open && last_close.lt(&one) && last_close.le(&band.lower) {
        return HedgeSignal::PlaceBuy {
            price: last_close.trunc_dp(pos.price_truncate),
            amount: pos.option_amt.trunc_dp(pos.amt_truncate),
        };
    }
    match last_trade {
        Some(t) => {
            if matches!(t.option_type, TradeKind::Buy) && last_close.ge(&band.upper) {
                return HedgeSignal::PlaceSell {
                    price: last_close.trunc_dp(pos.price_truncate),
                    amount: t.amount,
                };
            }
        },
        None => {},
    }
    HedgeSignal::Hold
}

/// The trade row recorded for a placed buy or sell: pending until its order
/// is reconciled.
pub fn new_stable_trade(
    pos: &ArbStableCoin,
    option_type: TradeKind,
    price: Dec,
    amount: Dec,
    order_id: u64,
    now: i64,
) -> (r: ArbStableCoinInfo)
    ensures
        r.stable_coin_id == pos.id && r.user_id == pos.user_id,
        r.platform@ == pos.platform@ && r.coin@ == pos.coin@,
        r.market@ == pos.market@ && r.symbol@ == pos.symbol@,
        r.option_type == option_type && r.price == price && r.amount == amount,
        r.order_id == order_id && r.is_ok is UnDone && r.created == now,
{
    ArbStableCoinInfo {
        id: 0,
        stable_coin_id: pos.id,
        user_id: pos.user_id,
        platform: pos.platform.clone(),
        coin: pos.coin.clone(),
        market: pos.market.clone(),
        symbol: pos.symbol.clone(),
        option_type,
        price,
        amount,
        order_id,
        is_ok: RecordStatus::UnDone,
        created: now,
    }
}

} // verus!
