//! Rows and enumerations of the engine's durable state.
//!
//! Leg identification is a closed enumeration rather than a string key, and
//! every money field is a fixed-point [`Dec`].  The well-formedness
//! predicates bound the numeric fields to the envelope within which every
//! computation of the engine stays representable.

use vstd::prelude::*;
use crate::dec::{Dec, DEC_DP, DEC_UNIT, MAX_UNITS};

verus! {

/// Direction of an arbitrage strategy.
#[derive(Clone, Copy, Debug, PartialEq, Eq, Structural)]
pub enum Direction {
    Positive,
    Reverse,
}

/// The direction a strategy row names, decoded from its stored label.
pub fn direction_of(option_choose: &String) -> (r: Option<Direction>)
    ensures
        option_choose@ == "positive"@ ==> r == Some(Direction::Positive),
        option_choose@ == "reverse"@ ==> r == Some(Direction::Reverse),
        (option_choose@ != "positive"@ && option_choose@ != "reverse"@) ==> r is None,
{
    proof {
        reveal_strlit("positive");
        reveal_strlit("reverse");
        assert("positive"@.len() == 8 && "reverse"@.len() == 7);
        assert("positive"@ != "reverse"@);
    }
    let positive: String = "positive".to_owned();
    let reverse: String = "reverse".to_owned();
    if *option_choose == positive {
        Some(Direction::Positive)
    } else if *option_choose == reverse {
        Some(Direction::Reverse)
    } else {
        None
    }
}

/// Venue a leg executes on; `Transfer` marks a wallet-to-wallet move.
#[derive(Clone, Copy, Debug, PartialEq, Eq, Structural)]
pub enum MarketKind {
    Spot,
    Futures,
    Delivery,
    Transfer,
}

/// Kind of one leg of an execution plan.
#[derive(Clone, Copy, Debug, PartialEq, Eq, Structural)]
pub enum LegKind {
    SpotBuy,
    TransferSpotToDelivery,
    DeliverySell,
    DeliveryBuy,
    TransferDeliveryToSpot,
    SpotSell,
    FuturesBuy,
    FuturesSell,
}

/// Lifecycle of a strategy or stable-coin position.
#[derive(Clone, Copy, Debug, PartialEq, Eq, Structural)]
pub enum DoingStatus {
    UnRun,
    Run,
    Done,
}

/// Status of one step: pending until its order or transfer completes.
#[derive(Clone, Copy, Debug, PartialEq, Eq, Structural)]
pub enum StepStatus {
    UnDone,
    Done,
}

/// Status of one append-only execution record.
#[derive(Clone, Copy, Debug, PartialEq, Eq, Structural)]
pub enum RecordStatus {
    UnDone,
    Done,
    Expired,
}

/// A tracked pair whose differential rate the engine follows.
#[derive(Clone, Debug)]
pub struct ArbDiffRate {
    pub id: i64,
    pub platform: String,
    pub coin: String,
    pub option_choose: String,
    pub from_market: String,
    pub from_symbol: String,
    pub to_market: String,
    pub to_symbol: String,
    pub investment_currency: String,
    pub return_currency: String,
    pub diff_status: i8,
    pub created: Option<i64>,
    pub updated: Option<i64>,
    pub bak: Option<String>,
}

/// Latest computed snapshot for one tracked pair; one row per pair id.
#[derive(Clone, Debug)]
pub struct ArbDiffRateInfo {
    pub id: i64,
    pub diff_rate_id: i64,
    pub platform: String,
    pub coin: String,
    pub option_choose: String,
    pub from_market: String,
    pub from_symbol: String,
    pub from_price: Dec,
    pub to_market: String,
    pub to_symbol: String,
    pub to_price: Dec,
    pub diff_price: Dec,
    pub diff_rate: Dec,
    pub created: i64,
    pub updated: i64,
}

impl ArbDiffRateInfo {
    pub open spec fn wf(self) -> bool {
        &&& 0 <= self.from_price@ <= MAX_UNITS
        &&& 0 <= self.to_price@ <= MAX_UNITS
        &&& self.diff_price.in_range()
        &&& self.diff_rate.in_range()
    }
}

/// Append-only history row, written only when the rounded rate changes.
#[derive(Clone, Debug)]
pub struct ArbDiffRateHis {
    pub id: i64,
    pub diff_rate_id: i64,
    pub diff_price: Dec,
    pub diff_rate: Dec,
    pub created: i64,
}

/// An arbitrage strategy.  Created outside the engine; the engine reads it
/// and only ever moves its status to done.
#[derive(Clone, Debug)]
pub struct ArbStrategy {
    pub id: i64,
    pub diff_rate_id: i64,
    pub user_id: i64,
    pub platform: String,
    pub option_choose: Direction,
    pub coin: String,
    pub from_market: MarketKind,
    pub from_symbol: String,
    pub from_price_truncate: u32,
    pub from_amt_truncate: u32,
    pub to_market: MarketKind,
    pub to_symbol: String,
    pub to_price_truncate: u32,
    pub to_amt_truncate: u32,
    pub option_open: Dec,
    pub option_close: Dec,
    pub option_amt: Dec,
    pub contract_mul: i64,
    pub margin_mul: i64,
    pub fok_diff: Dec,
    pub spot_fee: Dec,
    pub futures_fee: Dec,
    pub delivery_fee: Dec,
    pub doing_status: DoingStatus,
}

impl ArbStrategy {
    /// Numeric envelope: truncation widths within the fixed scale, a positive
    /// contract multiplier, fee rates in [0, 1], and amounts small enough
    /// that every product the plan computes fits the representation.
    pub open spec fn wf(self) -> bool {
        &&& self.from_price_truncate <= DEC_DP
        &&& self.from_amt_truncate <= DEC_DP
        &&& self.to_price_truncate <= DEC_DP
        &&& self.to_amt_truncate <= DEC_DP
        &&& self.contract_mul >= 1
        &&& self.margin_mul >= 0
        &&& self.option_open.in_range()
        &&& self.option_close.in_range()
        &&& 0 <= self.option_amt@
        &&& self.option_amt@ * self.margin_mul <= MAX_UNITS
        &&& self.fok_diff.in_range()
        &&& 0 <= self.spot_fee@ <= DEC_UNIT
        &&& 0 <= self.futures_fee@ <= DEC_UNIT
        &&& 0 <= self.delivery_fee@ <= DEC_UNIT
    }
}

/// One step of a strategy's fixed plan.  `current_order_id` is `None` while
/// no order or transfer is outstanding.
#[derive(Clone, Debug)]
pub struct ArbStrategyEx {
    pub id: i64,
    pub arb_strategy_id: i64,
    pub market: MarketKind,
    pub symbol: String,
    pub option_type: LegKind,
    pub option_status: StepStatus,
    pub option_amount: Dec,
    pub option_executed_amt: Dec,
    pub current_order_id: Option<u64>,
}

impl ArbStrategyEx {
    pub open spec fn wf(self) -> bool {
        &&& 0 <= self.option_amount@ <= MAX_UNITS
        &&& 0 <= self.option_executed_amt@ <= MAX_UNITS
    }
}

/// Audit record of one order or transfer attempt against a step.
#[derive(Clone, Debug)]
pub struct ArbStrategyExInfo {
    pub id: i64,
    pub user_id: i64,
    pub platform: String,
    pub option_choose: Direction,
    pub arb_strategy_id: i64,
    pub arb_strategy_ex_id: i64,
    pub coin: String,
    pub market: MarketKind,
    pub symbol: String,
    pub option_type: LegKind,
    pub price: Dec,
    pub amount: Dec,
    pub executed_amt: Dec,
    pub order_id: u64,
    pub is_ok: RecordStatus,
    pub created: i64,
    pub updated: Option<i64>,
}

/// Strategy kind of a stable-coin position.
#[derive(Clone, Copy, Debug, PartialEq, Eq, Structural)]
pub enum StableStrategy {
    Band,
    Percentage,
    FixedThreshold,
}

/// A configured stable-coin hedging instrument.
#[derive(Clone, Debug)]
pub struct ArbStableCoin {
    pub id: i64,
    pub user_id: i64,
    pub platform: String,
    pub coin: String,
    pub market: String,
    pub symbol: String,
    pub price_truncate: u32,
    pub amt_truncate: u32,
    pub strategy: StableStrategy,
    pub option_open: Dec,
    pub option_close: Dec,
    pub option_amt: Dec,
    pub fok_diff: Dec,
    pub doing_status: DoingStatus,
}

impl ArbStableCoin {
    pub open spec fn wf(self) -> bool {
        &&& self.price_truncate <= DEC_DP
        &&& self.amt_truncate <= DEC_DP
        &&& self.option_open.in_range()
        &&& self.option_close.in_range()
        &&& 0 <= self.option_amt@ <= MAX_UNITS
        &&& self.fok_diff.in_range()
    }
}

/// The strategy kind a stable-coin row names, decoded from its stored
/// code.
pub fn strategy_kind_of(code: &String) -> (r: Option<StableStrategy>)
    ensures
        code@ == "11"@ ==> r == Some(StableStrategy::Band),
        code@ == "21"@ ==> r == Some(StableStrategy::Percentage),
        code@ == "31"@ ==> r == Some(StableStrategy::FixedThreshold),
        (code@ != "11"@ && code@ != "21"@ && code@ != "31"@) ==> r is None,
{
    proof {
        reveal_strlit("11");
        reveal_strlit("21");
        reveal_strlit("31");
        assert("11"@[0] == '1' && "21"@[0] == '2' && "31"@[0] == '3');
        assert("11"@ != "21"@ && "11"@ != "31"@ && "21"@ != "31"@);
    }
    let band: String = "11".to_owned();
    let percentage: String = "21".to_owned();
    let fixed: String = "31".to_owned();
    if *code == band {
        Some(StableStrategy::Band)
    } else if *code == percentage {
        Some(StableStrategy::Percentage)
    } else if *code == fixed {
        Some(StableStrategy::FixedThreshold)
    } else {
        None
    }
}

/// Side of a stable-coin trade.
#[derive(Clone, Copy, Debug, PartialEq, Eq, Structural)]
pub enum TradeKind {
    Buy,
    Sell,
}

impl TradeKind {
    /// The label under which the trade row is persisted.
    pub fn label(&self) -> (r: String)
        ensures
            *self is Buy ==> r@ == "buy"@,
            *self is Sell ==> r@ == "sell"@,
    {
        match self {
            TradeKind::Buy => "buy".to_owned(),
            TradeKind::Sell => "sell".to_owned(),
        }
    }
}

/// Append-only record of one stable-coin buy or sell decision.
#[derive(Clone, Debug)]
pub struct ArbStableCoinInfo {
    pub id: i64,
    pub stable_coin_id: i64,
    pub user_id: i64,
    pub platform: String,
    pub coin: String,
    pub market: String,
    pub symbol: String,
    pub option_type: TradeKind,
    pub price: Dec,
    pub amount: Dec,
    pub order_id: u64,
    pub is_ok: RecordStatus,
    pub created: i64,
}

} // verus!
