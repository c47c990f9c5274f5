//! Per-strategy step state machine.
//!
//! One invocation looks at a strategy snapshot, its step rows and the current
//! differential-rate snapshot, and decides the single next thing to do: place
//! an order, reconcile an outstanding one, run a transfer, mark the strategy
//! done, or hold.  The decision is a pure function of durable state — no
//! memory survives between invocations — so redundant deliveries of the same
//! snapshot are harmless.
//!
//! The decision is specified twice: [`positive_decision`] /
//! [`reverse_decision`] give the mathematical model (indices as `int`,
//! strings as character sequences, money as unit counts), and the executable
//! functions are proved to match it clause by clause.  Reverse thresholds
//! run inverted: the differential opens at or below `option_open` and
//! closes at or above `option_close`.

use vstd::prelude::*;
use crate::dec::{
    div_tz, spec_contract_count, trunc_to, contract_count, Dec, DEC_DP, DEC_UNIT, MAX_UNITS,
};
use crate::exchange::{OrderSide, OrderStatusRequest, OrderType, TimeInForce, UniversalTransferType};
use crate::model::{ArbDiffRateInfo, ArbStrategy, ArbStrategyEx, LegKind, MarketKind};

verus! {

/// Why an invocation was abandoned.  The strategy stays running and is
/// retried on the next dispatch.
#[derive(Clone, Copy, Debug, PartialEq, Eq, Structural)]
pub enum StrategyError {
    /// No step rows exist for the strategy.
    NoSteps,
    /// The number of rows does not match the direction's fixed plan length.
    StepCountMismatch,
    /// A leg kind the plan needs is absent from the rows.
    MissingLeg,
    /// The done count does not match the position of the leg about to act.
    OutOfOrder,
    /// A completed order leg carries no order id to read back from.
    MissingOrderId,
}

/// What the worker must do next, in executable form.  Every placement
/// carries its order type and time in force, which the machine always sets
/// to a fill-or-kill limit order.
#[derive(Clone, Debug)]
pub enum StepAction {
    /// Place an order on the spot market.
    PlaceSpotOrder {
        step_index: usize,
        symbol: String,
        side: OrderSide,
        order_type: OrderType,
        time_in_force: TimeInForce,
        price: Dec,
        amount: Dec,
    },
    /// Place an order on the USD-margined futures market.
    PlaceFuturesOrder {
        step_index: usize,
        symbol: String,
        side: OrderSide,
        order_type: OrderType,
        time_in_force: TimeInForce,
        price: Dec,
        amount: Dec,
    },
    /// Place an order on the coin-margined delivery market.
    PlaceDeliveryOrder {
        step_index: usize,
        symbol: String,
        side: OrderSide,
        order_type: OrderType,
        time_in_force: TimeInForce,
        price: Dec,
        amount: Dec,
    },
    /// Read back the status of the outstanding spot order.
    QuerySpotOrder { step_index: usize, req: OrderStatusRequest },
    /// Read back the status of the outstanding futures order.
    QueryFuturesOrder { step_index: usize, symbol: String, order_id: u64 },
    /// Read back the status of the outstanding delivery order.
    QueryDeliveryOrder { step_index: usize, symbol: String, order_id: u64 },
    /// Run a universal transfer; transfers complete synchronously.
    DoTransfer { step_index: usize, coin: String, transfer_type: UniversalTransferType, amount: Dec },
    /// Read the filled base quantity of the delivery buy, to size the
    /// transfer of that amount in the given direction.
    FetchDeliveryFill {
        step_index: usize,
        symbol: String,
        order_id: u64,
        transfer_type: UniversalTransferType,
    },
    /// Every step is done: move the strategy to its terminal status.
    MarkStrategyDone,
    /// Nothing to do this round.
    Hold,
}

/// The decision in model form: indices are `int`, strings are character
/// sequences, money is a count of 10^-8 units.
pub enum ActionModel {
    PlaceSpot { idx: int, symbol: Seq<char>, side: OrderSide, price: int, amount: int },
    PlaceFutures { idx: int, symbol: Seq<char>, side: OrderSide, price: int, amount: int },
    PlaceDelivery { idx: int, symbol: Seq<char>, side: OrderSide, price: int, amount: int },
    QuerySpot { idx: int, symbol: Seq<char>, order_id: int },
    QueryFutures { idx: int, symbol: Seq<char>, order_id: int },
    QueryDelivery { idx: int, symbol: Seq<char>, order_id: int },
    DoTransfer { idx: int, coin: Seq<char>, ttype: UniversalTransferType, amount: int },
    FetchFill { idx: int, symbol: Seq<char>, order_id: int, ttype: UniversalTransferType },
    MarkDone,
    Hold,
}

/// Number of steps whose status is done.
pub open spec fn done_count(steps: Seq<ArbStrategyEx>) -> int
    decreases steps.len(),
{
    if steps.len() == 0 {
        0
    } else {
        done_count(steps.drop_last()) + if steps.last().option_status is Done {
            1int
        } else {
            0int
        }
    }
}

pub proof fn lemma_done_count_bounds(steps: Seq<ArbStrategyEx>)
    ensures
        0 <= done_count(steps) <= steps.len(),
    decreases steps.len(),
{
    if steps.len() > 0 {
        lemma_done_count_bounds(steps.drop_last());
    }
}

/// Index of the row that governs a leg kind: the last row of that kind, as a
/// keyed lookup over the rows would see it.
pub open spec fn find_leg(steps: Seq<ArbStrategyEx>, k: LegKind) -> Option<int>
    decreases steps.len(),
{
    if steps.len() == 0 {
        None
    } else if steps.last().option_type == k {
        Some(steps.len() - 1)
    } else {
        find_leg(steps.drop_last(), k)
    }
}

pub proof fn lemma_find_leg_in_bounds(steps: Seq<ArbStrategyEx>, k: LegKind)
    ensures
        find_leg(steps, k) matches Some(i) ==> 0 <= i < steps.len() && steps[i].option_type == k,
    decreases steps.len(),
{
    if steps.len() > 0 && steps.last().option_type != k {
        lemma_find_leg_in_bounds(steps.drop_last(), k);
    }
}

/// Index of the row that governs a leg kind on a symbol: the reverse plan
/// repeats its kinds, so a leg there is keyed by kind and symbol together.
pub open spec fn find_leg_sym(steps: Seq<ArbStrategyEx>, k: LegKind, sym: Seq<char>) -> Option<
    int,
>
    decreases steps.len(),
{
    if steps.len() == 0 {
        None
    } else if steps.last().option_type == k && steps.last().symbol@ == sym {
        Some(steps.len() - 1)
    } else {
        find_leg_sym(steps.drop_last(), k, sym)
    }
}

pub proof fn lemma_find_leg_sym_in_bounds(steps: Seq<ArbStrategyEx>, k: LegKind, sym: Seq<char>)
    ensures
        find_leg_sym(steps, k, sym) matches Some(i) ==> 0 <= i < steps.len() && steps[
        i].option_type == k && steps[i].symbol@ == sym,
    decreases steps.len(),
{
    if steps.len() > 0 && !(steps.last().option_type == k && steps.last().symbol@ == sym) {
        lemma_find_leg_sym_in_bounds(steps.drop_last(), k, sym);
    }
}

/// Amount left of an executed quantity after the fee comes off, truncated to
/// the configured width: `executed * (1 - fee)` at fixed scale.
pub open spec fn net_amount(executed: int, fee: int, dp: nat) -> int {
    trunc_to(div_tz(executed * (DEC_UNIT - fee), DEC_UNIT as int), dp)
}

/// `reference + fok_diff`, truncated: the price of a buy order.
pub open spec fn buy_price(reference: int, fok: int, dp: nat) -> int {
    trunc_to(reference + fok, dp)
}

/// `reference - fok_diff`, truncated: the price of a sell order.
pub open spec fn sell_price(reference: int, fok: int, dp: nat) -> int {
    trunc_to(reference - fok, dp)
}

pub open spec fn spot_buy_action(
    s: ArbStrategy,
    steps: Seq<ArbStrategyEx>,
    d: ArbDiffRateInfo,
    i0: int,
) -> Result<ActionModel, StrategyError> {
    match steps[i0].current_order_id {
        None => Ok(
            ActionModel::PlaceSpot {
                idx: i0,
                symbol: s.from_symbol@,
                side: OrderSide::Buy,
                price: buy_price(d.from_price@, s.fok_diff@, s.from_price_truncate as nat),
                amount: trunc_to(steps[i0].option_amount@, s.from_amt_truncate as nat),
            },
        ),
        Some(oid) => Ok(
            ActionModel::QuerySpot { idx: i0, symbol: s.from_symbol@, order_id: oid as int },
        ),
    }
}

pub open spec fn delivery_sell_action(
    s: ArbStrategy,
    steps: Seq<ArbStrategyEx>,
    d: ArbDiffRateInfo,
    i1: int,
    i2: int,
) -> Result<ActionModel, StrategyError> {
    match steps[i2].current_order_id {
        None => Ok(
            ActionModel::PlaceDelivery {
                idx: i2,
                symbol: s.to_symbol@,
                side: OrderSide::Sell,
                price: sell_price(d.to_price@, s.fok_diff@, s.to_price_truncate as nat),
                amount: spec_contract_count(
                    steps[i1].option_executed_amt@,
                    d.to_price@,
                    s.contract_mul as int,
                ) * DEC_UNIT,
            },
        ),
        Some(oid) => Ok(
            ActionModel::QueryDelivery { idx: i2, symbol: s.to_symbol@, order_id: oid as int },
        ),
    }
}

pub open spec fn delivery_buy_action(
    s: ArbStrategy,
    steps: Seq<ArbStrategyEx>,
    d: ArbDiffRateInfo,
    i2: int,
    i3: int,
) -> Result<ActionModel, StrategyError> {
    match steps[i3].current_order_id {
        None => Ok(
            ActionModel::PlaceDelivery {
                idx: i3,
                symbol: s.to_symbol@,
                side: OrderSide::Buy,
                price: buy_price(d.to_price@, s.fok_diff@, s.to_price_truncate as nat),
                amount: steps[i2].option_executed_amt@,
            },
        ),
        Some(oid) => Ok(
            ActionModel::QueryDelivery { idx: i3, symbol: s.to_symbol@, order_id: oid as int },
        ),
    }
}

pub open spec fn spot_sell_action(
    s: ArbStrategy,
    steps: Seq<ArbStrategyEx>,
    d: ArbDiffRateInfo,
    i4: int,
    i5: int,
) -> Result<ActionModel, StrategyError> {
    match steps[i5].current_order_id {
        None => Ok(
            ActionModel::PlaceSpot {
                idx: i5,
                symbol: s.from_symbol@,
                side: OrderSide::Sell,
                price: sell_price(d.from_price@, s.fok_diff@, s.from_price_truncate as nat),
                amount: trunc_to(steps[i4].option_executed_amt@, s.from_amt_truncate as nat),
            },
        ),
        Some(oid) => Ok(
            ActionModel::QuerySpot { idx: i5, symbol: s.from_symbol@, order_id: oid as int },
        ),
    }
}

/// Close phase of a positive strategy: buy back the delivery position,
/// transfer the coin home, sell the spot — in that order, gated on the rate
/// having fallen to the close threshold.
pub open spec fn positive_close_phase(
    s: ArbStrategy,
    steps: Seq<ArbStrategyEx>,
    d: ArbDiffRateInfo,
) -> Result<ActionModel, StrategyError> {
    if d.diff_rate@ <= s.option_close@ {
        match find_leg(steps, LegKind::DeliveryBuy) {
            None => Err(StrategyError::MissingLeg),
            Some(i3) => if !(steps[i3].option_status is Done) {
                if done_count(steps) != 3 {
                    Err(StrategyError::OutOfOrder)
                } else {
                    match find_leg(steps, LegKind::DeliverySell) {
                        None => Err(StrategyError::MissingLeg),
                        Some(i2) => delivery_buy_action(s, steps, d, i2, i3),
                    }
                }
            } else {
                match find_leg(steps, LegKind::TransferDeliveryToSpot) {
                    None => Err(StrategyError::MissingLeg),
                    Some(i4) => if !(steps[i4].option_status is Done) {
                        if done_count(steps) != 4 {
                            Err(StrategyError::OutOfOrder)
                        } else {
                            match steps[i3].current_order_id {
                                None => Err(StrategyError::MissingOrderId),
                                Some(oid) => Ok(
                                    ActionModel::FetchFill {
                                        idx: i4,
                                        symbol: s.to_symbol@,
                                        order_id: oid as int,
                                        ttype: UniversalTransferType::CmfutureMain,
                                    },
                                ),
                            }
                        }
                    } else {
                        match find_leg(steps, LegKind::SpotSell) {
                            None => Err(StrategyError::MissingLeg),
                            Some(i5) => if !(steps[i5].option_status is Done) {
                                if done_count(steps) != 5 {
                                    Err(StrategyError::OutOfOrder)
                                } else {
                                    spot_sell_action(s, steps, d, i4, i5)
                                }
                            } else {
                                Ok(ActionModel::Hold)
                            },
                        }
                    },
                }
            },
        }
    } else {
        Ok(ActionModel::Hold)
    }
}

/// Open phase of a positive strategy: buy spot, transfer over, sell the
/// delivery contracts — gated on the rate having reached the open threshold.
/// Once the open legs are done the close phase is considered.
pub open spec fn positive_open_phase(
    s: ArbStrategy,
    steps: Seq<ArbStrategyEx>,
    d: ArbDiffRateInfo,
) -> Result<ActionModel, StrategyError> {
    if d.diff_rate@ >= s.option_open@ {
        match find_leg(steps, LegKind::SpotBuy) {
            None => Err(StrategyError::MissingLeg),
            Some(i0) => if !(steps[i0].option_status is Done) {
                if done_count(steps) != 0 {
                    Err(StrategyError::OutOfOrder)
                } else {
                    spot_buy_action(s, steps, d, i0)
                }
            } else {
                match find_leg(steps, LegKind::TransferSpotToDelivery) {
                    None => Err(StrategyError::MissingLeg),
                    Some(i1) => if !(steps[i1].option_status is Done) {
                        if done_count(steps) != 1 {
                            Err(StrategyError::OutOfOrder)
                        } else {
                            Ok(
                                ActionModel::DoTransfer {
                                    idx: i1,
                                    coin: s.coin@,
                                    ttype: UniversalTransferType::MainCmfuture,
                                    amount: net_amount(
                                        steps[i0].option_executed_amt@,
                                        s.spot_fee@,
                                        s.from_amt_truncate as nat,
                                    ),
                                },
                            )
                        }
                    } else {
                        match find_leg(steps, LegKind::DeliverySell) {
                            None => Err(StrategyError::MissingLeg),
                            Some(i2) => if !(steps[i2].option_status is Done) {
                                if done_count(steps) != 2 {
                                    Err(StrategyError::OutOfOrder)
                                } else {
                                    delivery_sell_action(s, steps, d, i1, i2)
                                }
                            } else {
                                positive_close_phase(s, steps, d)
                            },
                        }
                    },
                }
            },
        }
    } else {
        positive_close_phase(s, steps, d)
    }
}

/// The whole decision for a positive strategy.
pub open spec fn positive_decision(
    s: ArbStrategy,
    steps: Seq<ArbStrategyEx>,
    d: ArbDiffRateInfo,
) -> Result<ActionModel, StrategyError> {
    if steps.len() == 0 {
        Err(StrategyError::NoSteps)
    } else if steps.len() != 6 {
        Err(StrategyError::StepCountMismatch)
    } else if done_count(steps) == 6 {
        Ok(ActionModel::MarkDone)
    } else {
        positive_open_phase(s, steps, d)
    }
}

/// Buy-leg kind of a reverse plan: futures legs on the USD-margined
/// market, delivery legs on the coin-margined one.
pub open spec fn reverse_buy_kind(s: ArbStrategy) -> LegKind {
    if s.from_market == MarketKind::Futures {
        LegKind::FuturesBuy
    } else {
        LegKind::DeliveryBuy
    }
}

/// Sell-leg kind of a reverse plan.
pub open spec fn reverse_sell_kind(s: ArbStrategy) -> LegKind {
    if s.from_market == MarketKind::Futures {
        LegKind::FuturesSell
    } else {
        LegKind::DeliverySell
    }
}

/// Fee taken off a reverse fill: the fee of the market all four legs run
/// on.
pub open spec fn reverse_fee(s: ArbStrategy) -> int {
    if s.from_market == MarketKind::Futures {
        s.futures_fee@
    } else {
        s.delivery_fee@
    }
}

/// The two venue pairings a reverse plan can take: both legs USD-margined
/// or both coin-margined.
pub open spec fn reverse_markets_known(s: ArbStrategy) -> bool {
    ||| (s.from_market == MarketKind::Futures && s.to_market == MarketKind::Futures)
    ||| (s.from_market == MarketKind::Delivery && s.to_market == MarketKind::Delivery)
}

/// A reverse placement goes to the market the plan runs on.
pub open spec fn reverse_place(
    s: ArbStrategy,
    idx: int,
    symbol: Seq<char>,
    side: OrderSide,
    price: int,
    amount: int,
) -> ActionModel {
    if s.from_market == MarketKind::Futures {
        ActionModel::PlaceFutures { idx, symbol, side, price, amount }
    } else {
        ActionModel::PlaceDelivery { idx, symbol, side, price, amount }
    }
}

/// A reverse read-back goes to the market the plan runs on.
pub open spec fn reverse_query(
    s: ArbStrategy,
    idx: int,
    symbol: Seq<char>,
    order_id: int,
) -> ActionModel {
    if s.from_market == MarketKind::Futures {
        ActionModel::QueryFutures { idx, symbol, order_id }
    } else {
        ActionModel::QueryDelivery { idx, symbol, order_id }
    }
}

/// Leg 0: buy the far contract for the step's own budget.
pub open spec fn reverse_far_buy_action(
    s: ArbStrategy,
    steps: Seq<ArbStrategyEx>,
    d: ArbDiffRateInfo,
    i0: int,
) -> Result<ActionModel, StrategyError> {
    match steps[i0].current_order_id {
        None => Ok(
            reverse_place(
                s,
                i0,
                s.from_symbol@,
                OrderSide::Buy,
                buy_price(d.from_price@, s.fok_diff@, s.from_price_truncate as nat),
                trunc_to(steps[i0].option_amount@, s.from_amt_truncate as nat),
            ),
        ),
        Some(oid) => Ok(reverse_query(s, i0, s.from_symbol@, oid as int)),
    }
}

/// Leg 1: sell the perpetual for what the far buy filled, net of fee.
pub open spec fn reverse_perp_sell_action(
    s: ArbStrategy,
    steps: Seq<ArbStrategyEx>,
    d: ArbDiffRateInfo,
    i0: int,
    i1: int,
) -> Result<ActionModel, StrategyError> {
    match steps[i1].current_order_id {
        None => Ok(
            reverse_place(
                s,
                i1,
                s.to_symbol@,
                OrderSide::Sell,
                sell_price(d.to_price@, s.fok_diff@, s.to_price_truncate as nat),
                net_amount(steps[i0].option_executed_amt@, reverse_fee(s), s.to_amt_truncate as nat),
            ),
        ),
        Some(oid) => Ok(reverse_query(s, i1, s.to_symbol@, oid as int)),
    }
}

/// Leg 2: buy the perpetual back for what leg 1 sold, net of fee.
pub open spec fn reverse_perp_buy_action(
    s: ArbStrategy,
    steps: Seq<ArbStrategyEx>,
    d: ArbDiffRateInfo,
    i1: int,
    i2: int,
) -> Result<ActionModel, StrategyError> {
    match steps[i2].current_order_id {
        None => Ok(
            reverse_place(
                s,
                i2,
                s.to_symbol@,
                OrderSide::Buy,
                buy_price(d.to_price@, s.fok_diff@, s.to_price_truncate as nat),
                net_amount(steps[i1].option_executed_amt@, reverse_fee(s), s.to_amt_truncate as nat),
            ),
        ),
        Some(oid) => Ok(reverse_query(s, i2, s.to_symbol@, oid as int)),
    }
}

/// Leg 3: sell the far contract for what leg 2 bought back, net of fee.
pub open spec fn reverse_far_sell_action(
    s: ArbStrategy,
    steps: Seq<ArbStrategyEx>,
    d: ArbDiffRateInfo,
    i2: int,
    i3: int,
) -> Result<ActionModel, StrategyError> {
    match steps[i3].current_order_id {
        None => Ok(
            reverse_place(
                s,
                i3,
                s.from_symbol@,
                OrderSide::Sell,
                sell_price(d.from_price@, s.fok_diff@, s.from_price_truncate as nat),
                net_amount(
                    steps[i2].option_executed_amt@,
                    reverse_fee(s),
                    s.from_amt_truncate as nat,
                ),
            ),
        ),
        Some(oid) => Ok(reverse_query(s, i3, s.from_symbol@, oid as int)),
    }
}

/// Close phase of a reverse strategy: buy the perpetual back and sell the
/// far contract, gated on the rate having risen to the close threshold.
pub open spec fn reverse_close_phase(
    s: ArbStrategy,
    steps: Seq<ArbStrategyEx>,
    d: ArbDiffRateInfo,
) -> Result<ActionModel, StrategyError> {
    if d.diff_rate@ >= s.option_close@ {
        match find_leg_sym(steps, reverse_buy_kind(s), s.to_symbol@) {
            None => Err(StrategyError::MissingLeg),
            Some(i2) => if !(steps[i2].option_status is Done) {
                if done_count(steps) != 2 {
                    Err(StrategyError::OutOfOrder)
                } else {
                    match find_leg_sym(steps, reverse_sell_kind(s), s.to_symbol@) {
                        None => Err(StrategyError::MissingLeg),
                        Some(i1) => reverse_perp_buy_action(s, steps, d, i1, i2),
                    }
                }
            } else {
                match find_leg_sym(steps, reverse_sell_kind(s), s.from_symbol@) {
                    None => Err(StrategyError::MissingLeg),
                    Some(i3) => if !(steps[i3].option_status is Done) {
                        if done_count(steps) != 3 {
                            Err(StrategyError::OutOfOrder)
                        } else {
                            reverse_far_sell_action(s, steps, d, i2, i3)
                        }
                    } else {
                        Ok(ActionModel::Hold)
                    },
                }
            },
        }
    } else {
        Ok(ActionModel::Hold)
    }
}

/// Open phase of a reverse strategy: buy the far contract, sell the
/// perpetual — gated on the rate having fallen to the open threshold (the
/// thresholds run inverted against the positive direction).  Once the open
/// legs are done the close phase is considered.
pub open spec fn reverse_open_phase(
    s: ArbStrategy,
    steps: Seq<ArbStrategyEx>,
    d: ArbDiffRateInfo,
) -> Result<ActionModel, StrategyError> {
    if d.diff_rate@ <= s.option_open@ {
        match find_leg_sym(steps, reverse_buy_kind(s), s.from_symbol@) {
            None => Err(StrategyError::MissingLeg),
            Some(i0) => if !(steps[i0].option_status is Done) {
                if done_count(steps) != 0 {
                    Err(StrategyError::OutOfOrder)
                } else {
                    reverse_far_buy_action(s, steps, d, i0)
                }
            } else {
                match find_leg_sym(steps, reverse_sell_kind(s), s.to_symbol@) {
                    None => Err(StrategyError::MissingLeg),
                    Some(i1) => if !(steps[i1].option_status is Done) {
                        if done_count(steps) != 1 {
                            Err(StrategyError::OutOfOrder)
                        } else {
                            reverse_perp_sell_action(s, steps, d, i0, i1)
                        }
                    } else {
                        reverse_close_phase(s, steps, d)
                    },
                }
            },
        }
    } else {
        reverse_close_phase(s, steps, d)
    }
}

/// The whole decision for a reverse strategy.  Legs are keyed by kind and
/// symbol, since the four-leg plan repeats its kinds; a venue pairing
/// outside the two known shapes is held, as the provisioner builds no plan
/// for it.
pub open spec fn reverse_decision(
    s: ArbStrategy,
    steps: Seq<ArbStrategyEx>,
    d: ArbDiffRateInfo,
) -> Result<ActionModel, StrategyError> {
    if steps.len() == 0 {
        Err(StrategyError::NoSteps)
    } else if steps.len() != 4 {
        Err(StrategyError::StepCountMismatch)
    } else if done_count(steps) == 4 {
        Ok(ActionModel::MarkDone)
    } else if !reverse_markets_known(s) {
        Ok(ActionModel::Hold)
    } else {
        reverse_open_phase(s, steps, d)
    }
}

/// The decision for a strategy of either direction.
pub open spec fn decision(
    s: ArbStrategy,
    steps: Seq<ArbStrategyEx>,
    d: ArbDiffRateInfo,
) -> Result<ActionModel, StrategyError> {
    if s.option_choose is Positive {
        positive_decision(s, steps, d)
    } else {
        reverse_decision(s, steps, d)
    }
}

/// The executable action realizes the model: same discriminant, same index,
/// same values, strings equal as character sequences.
pub open spec fn step_action_matches(a: StepAction, m: ActionModel) -> bool {
    match m {
        ActionModel::PlaceSpot { idx, symbol, side, price, amount } => a matches
            StepAction::PlaceSpotOrder {
            step_index,
            symbol: sy,
            side: sd,
            order_type: ot,
            time_in_force: tif,
            price: p,
            amount: am,
        } && step_index == idx && sy@ == symbol && sd == side && ot == OrderType::Limit && tif
            == TimeInForce::FOK && p@ == price && am@ == amount,
        ActionModel::PlaceFutures { idx, symbol, side, price, amount } => a matches
            StepAction::PlaceFuturesOrder {
            step_index,
            symbol: sy,
            side: sd,
            order_type: ot,
            time_in_force: tif,
            price: p,
            amount: am,
        } && step_index == idx && sy@ == symbol && sd == side && ot == OrderType::Limit && tif
            == TimeInForce::FOK && p@ == price && am@ == amount,
        ActionModel::PlaceDelivery { idx, symbol, side, price, amount } => a matches
            StepAction::PlaceDeliveryOrder {
            step_index,
            symbol: sy,
            side: sd,
            order_type: ot,
            time_in_force: tif,
            price: p,
            amount: am,
        } && step_index == idx && sy@ == symbol && sd == side && ot == OrderType::Limit && tif
            == TimeInForce::FOK && p@ == price && am@ == amount,
        ActionModel::QuerySpot { idx, symbol, order_id } => a matches StepAction::QuerySpotOrder {
            step_index,
            req,
        } && step_index == idx && req.symbol@ == symbol && (req.order_id matches Some(oid) && oid
            == order_id) && req.orig_client_order_id is None && req.recv_window is None,
        ActionModel::QueryFutures { idx, symbol, order_id } => a matches
            StepAction::QueryFuturesOrder {
            step_index,
            symbol: sy,
            order_id: oid,
        } && step_index == idx && sy@ == symbol && oid == order_id,
        ActionModel::QueryDelivery { idx, symbol, order_id } => a matches
            StepAction::QueryDeliveryOrder {
            step_index,
            symbol: sy,
            order_id: oid,
        } && step_index == idx && sy@ == symbol && oid == order_id,
        ActionModel::DoTransfer { idx, coin, ttype, amount } => a matches StepAction::DoTransfer {
            step_index,
            coin: c,
            transfer_type: t,
            amount: am,
        } && step_index == idx && c@ == coin && t == ttype && am@ == amount,
        ActionModel::FetchFill { idx, symbol, order_id, ttype } => a matches
            StepAction::FetchDeliveryFill {
            step_index,
            symbol: sy,
            order_id: oid,
            transfer_type: t,
        } && step_index == idx && sy@ == symbol && oid == order_id && t == ttype,
        ActionModel::MarkDone => a is MarkStrategyDone,
        ActionModel::Hold => a is Hold,
    }
}

pub open spec fn action_matches(
    r: Result<StepAction, StrategyError>,
    m: Result<ActionModel, StrategyError>,
) -> bool {
    match m {
        Ok(am) => r matches Ok(a) && step_action_matches(a, am),
        Err(em) => r matches Err(e) && e == em,
    }
}

/// Count of done steps among the rows.
pub fn count_done(steps: &Vec<ArbStrategyEx>) -> (r: usize)
    ensures
        r == done_count(steps@),
{
    let mut r: usize = 0;
    let mut i: usize = 0;
    proof {
        assert(steps@.subrange(0, 0) =~= Seq::<ArbStrategyEx>::empty());
    }
    while i < steps.len()
        invariant
            i <= steps@.len(),
            r <= i,
            r == done_count(steps@.subrange(0, i as int)),
        decreases steps@.len() - i,
    {
        proof {
            assert(steps@.subrange(0, i + 1).drop_last() =~= steps@.subrange(0, i as int));
            assert(steps@.subrange(0, i + 1).last() == steps@[i as int]);
        }
        if matches!(steps[i].option_status, crate::model::StepStatus::Done) {
            r = r + 1;
        }
        i = i + 1;
    }
    proof {
        assert(steps@.subrange(0, steps@.len() as int) =~= steps@);
    }
    r
}

fn find_leg_upto(steps: &Vec<ArbStrategyEx>, k: LegKind, n: usize) -> (r: Option<usize>)
    requires
        n <= steps@.len(),
    ensures
        ({
            let f = find_leg(steps@.subrange(0, n as int), k);
            match r {
                Some(i) => f == Some(i as int) && i < n,
                None => f is None,
            }
        }),
    decreases n,
{
    if n == 0 {
        proof {
            assert(steps@.subrange(0, 0) =~= Seq::<ArbStrategyEx>::empty());
        }
        None
    } else {
        proof {
            assert(steps@.subrange(0, n as int).last() == steps@[n - 1]);
            assert(steps@.subrange(0, n as int).drop_last() =~= steps@.subrange(0, n - 1));
        }
        if steps[n - 1].option_type == k {
            Some(n - 1)
        } else {
            find_leg_upto(steps, k, n - 1)
        }
    }
}

/// Index of the row that governs a leg kind, if any row carries it.
pub fn find_leg_idx(steps: &Vec<ArbStrategyEx>, k: LegKind) -> (r: Option<usize>)
    ensures
        ({
            let f = find_leg(steps@, k);
            match r {
                Some(i) => f == Some(i as int) && i < steps@.len(),
                None => f is None,
            }
        }),
{
    proof {
        assert(steps@.subrange(0, steps@.len() as int) =~= steps@);
    }
    find_leg_upto(steps, k, steps.len())
}

fn find_leg_sym_upto(steps: &Vec<ArbStrategyEx>, k: LegKind, sym: &String, n: usize) -> (r:
    Option<usize>)
    requires
        n <= steps@.len(),
    ensures
        ({
            let f = find_leg_sym(steps@.subrange(0, n as int), k, sym@);
            match r {
                Some(i) => f == Some(i as int) && i < n,
                None => f is None,
            }
        }),
    decreases n,
{
    if n == 0 {
        proof {
            assert(steps@.subrange(0, 0) =~= Seq::<ArbStrategyEx>::empty());
        }
        None
    } else {
        proof {
            assert(steps@.subrange(0, n as int).last() == steps@[n - 1]);
            assert(steps@.subrange(0, n as int).drop_last() =~= steps@.subrange(0, n - 1));
        }
        if steps[n - 1].option_type == k && steps[n - 1].symbol == *sym {
            Some(n - 1)
        } else {
            find_leg_sym_upto(steps, k, sym, n - 1)
        }
    }
}

/// Index of the row that governs a leg kind on a symbol, if any row
/// carries both.
pub fn find_leg_sym_idx(steps: &Vec<ArbStrategyEx>, k: LegKind, sym: &String) -> (r: Option<usize>)
    ensures
        ({
            let f = find_leg_sym(steps@, k, sym@);
            match r {
                Some(i) => f == Some(i as int) && i < steps@.len(),
                None => f is None,
            }
        }),
{
    proof {
        assert(steps@.subrange(0, steps@.len() as int) =~= steps@);
    }
    find_leg_sym_upto(steps, k, sym, steps.len())
}

/// `executed * (1 - fee)` truncated to `dp` places.
pub fn take_fee(executed: Dec, fee: Dec, dp: u32) -> (r: Dec)
    requires
        0 <= executed@ <= MAX_UNITS,
        0 <= fee@ <= DEC_UNIT,
        dp <= DEC_DP,
    ensures
        r@ == net_amount(executed@, fee@, dp as nat),
{
    proof {
        assert(0 <= executed@ * (DEC_UNIT - fee@) <= MAX_UNITS * DEC_UNIT) by (nonlinear_arith)
            requires
                0 <= executed@ <= MAX_UNITS,
                0 <= fee@ <= DEC_UNIT,
        ;
        crate::dec::lemma_div_tz_bounds(executed@ * (DEC_UNIT - fee@), DEC_UNIT as int);
    }
    let one = Dec::from_units(DEC_UNIT);
    let net = executed.mul_trunc(one.sub(fee));
    net.trunc_dp(dp)
}

/// `reference + fok_diff` truncated: the price at which a buy is quoted.
pub fn quote_buy_price(reference: Dec, fok: Dec, dp: u32) -> (r: Dec)
    requires
        reference.in_range(),
        fok.in_range(),
        dp <= DEC_DP,
    ensures
        r@ == buy_price(reference@, fok@, dp as nat),
{
    reference.add(fok).trunc_dp(dp)
}

/// `reference - fok_diff` truncated: the price at which a sell is quoted.
pub fn quote_sell_price(reference: Dec, fok: Dec, dp: u32) -> (r: Dec)
    requires
        reference.in_range(),
        fok.in_range(),
        dp <= DEC_DP,
    ensures
        r@ == sell_price(reference@, fok@, dp as nat),
{
    reference.sub(fok).trunc_dp(dp)
}

/// All rows within the numeric envelope.
pub open spec fn steps_wf(steps: Seq<ArbStrategyEx>) -> bool {
    forall|i: int| 0 <= i < steps.len() ==> (#[trigger] steps[i]).wf()
}

/// Decide the next action for a positive strategy.
pub fn next_action_positive(s: &ArbStrategy, steps: &Vec<ArbStrategyEx>, d: &ArbDiffRateInfo) -> (r:
    Result<StepAction, StrategyError>)
    requires
        s.wf(),
        d.wf(),
        steps_wf(steps@),
    ensures
        action_matches(r, positive_decision(*s, steps@, *d)),
{
    if steps.len() == 0 {
        return Err(StrategyError::NoSteps);
    }
    if steps.len() != 6 {
        return Err(StrategyError::StepCountMismatch);
    }
    let n_done = count_done(steps);
    if n_done == 6 {
        return Ok(StepAction::MarkStrategyDone);
    }
    // Open phase.
    if d.diff_rate.ge(&s.option_open) {
        let i0 = match find_leg_idx(steps, LegKind::SpotBuy) {
            Some(i) => i,
            None => {
                return Err(StrategyError::MissingLeg);
            },
        };
        if !matches!(steps[i0].option_status, crate::model::StepStatus::Done) {
            if n_done != 0 {
                return Err(StrategyError::OutOfOrder);
            }
            return match steps[i0].current_order_id {
                None => Ok(
                    StepAction::PlaceSpotOrder {
                        step_index: i0,
                        symbol: s.from_symbol.clone(),
                        side: OrderSide::Buy,
                        order_type: OrderType::Limit,
                        time_in_force: TimeInForce::FOK,
                        price: quote_buy_price(d.from_price, s.fok_diff, s.from_price_truncate),
                        amount: steps[i0].option_amount.trunc_dp(s.from_amt_truncate),
                    },
                ),
                Some(oid) => Ok(
                    StepAction::QuerySpotOrder {
                        step_index: i0,
                        req: OrderStatusRequest {
                            symbol: s.from_symbol.clone(),
                            order_id: Some(oid),
                            orig_client_order_id: None,
                            recv_window: None,
                        },
                    },
                ),
            };
        }
        let i1 = match find_leg_idx(steps, LegKind::TransferSpotToDelivery) {
            Some(i) => i,
            None => {
                return Err(StrategyError::MissingLeg);
            },
        };
        if !matches!(steps[i1].option_status, crate::model::StepStatus::Done) {
            if n_done != 1 {
                return Err(StrategyError::OutOfOrder);
            }
            let amount = take_fee(steps[i0].option_executed_amt, s.spot_fee, s.from_amt_truncate);
            return Ok(
                StepAction::DoTransfer {
                    step_index: i1,
                    coin: s.coin.clone(),
                    transfer_type: UniversalTransferType::MainCmfuture,
                    amount,
                },
            );
        }
        let i2 = match find_leg_idx(steps, LegKind::DeliverySell) {
            Some(i) => i,
            None => {
                return Err(StrategyError::MissingLeg);
            },
        };
        if !matches!(steps[i2].option_status, crate::model::StepStatus::Done) {
            if n_done != 2 {
                return Err(StrategyError::OutOfOrder);
            }
            return match steps[i2].current_order_id {
                None => {
                    let n = contract_count(
                        steps[i1].option_executed_amt,
                        d.to_price,
                        s.contract_mul,
                    );
                    Ok(
                        StepAction::PlaceDeliveryOrder {
                            step_index: i2,
                            symbol: s.to_symbol.clone(),
                            side: OrderSide::Sell,
                            order_type: OrderType::Limit,
                            time_in_force: TimeInForce::FOK,
                            price: quote_sell_price(d.to_price, s.fok_diff, s.to_price_truncate),
                            amount: Dec::from_units(n * DEC_UNIT),
                        },
                    )
                },
                Some(oid) => Ok(
                    StepAction::QueryDeliveryOrder {
                        step_index: i2,
                        symbol: s.to_symbol.clone(),
                        order_id: oid,
                    },
                ),
            };
        }
    }
    next_action_positive_close(s, steps, d, n_done)
}

/// Decide the close-phase action for a positive strategy whose open legs are
/// past, or whose rate sits below the open threshold.
fn next_action_positive_close(
    s: &ArbStrategy,
    steps: &Vec<ArbStrategyEx>,
    d: &ArbDiffRateInfo,
    n_done: usize,
) -> (r: Result<StepAction, StrategyError>)
    requires
        s.wf(),
        d.wf(),
        steps_wf(steps@),
        n_done == done_count(steps@),
    ensures
        action_matches(r, positive_close_phase(*s, steps@, *d)),
{
    if !d.diff_rate.le(&s.option_close) {
        return Ok(StepAction::Hold);
    }
    let i3 = match find_leg_idx(steps, LegKind::DeliveryBuy) {
        Some(i) => i,
        None => {
            return Err(StrategyError::MissingLeg);
        },
    };
    if !matches!(steps[i3].option_status, crate::model::StepStatus::Done) {
        if n_done != 3 {
            return Err(StrategyError::OutOfOrder);
        }
        let i2 = match find_leg_idx(steps, LegKind::DeliverySell) {
            Some(i) => i,
            None => {
                return Err(StrategyError::MissingLeg);
            },
        };
        return match steps[i3].current_order_id {
            None => Ok(
                StepAction::PlaceDeliveryOrder {
                    step_index: i3,
                    symbol: s.to_symbol.clone(),
                    side: OrderSide::Buy,
                    order_type: OrderType::Limit,
                    time_in_force: TimeInForce::FOK,
                    price: quote_buy_price(d.to_price, s.fok_diff, s.to_price_truncate),
                    amount: steps[i2].option_executed_amt,
                },
            ),
            Some(oid) => Ok(
                StepAction::QueryDeliveryOrder {
                    step_index: i3,
                    symbol: s.to_symbol.clone(),
                    order_id: oid,
                },
            ),
        };
    }
    let i4 = match find_leg_idx(steps, LegKind::TransferDeliveryToSpot) {
        Some(i) => i,
        None => {
            return Err(StrategyError::MissingLeg);
        },
    };
    if !matches!(steps[i4].option_status, crate::model::StepStatus::Done) {
        if n_done != 4 {
            return Err(StrategyError::OutOfOrder);
        }
        return match steps[i3].current_order_id {
            None => Err(StrategyError::MissingOrderId),
            Some(oid) => Ok(
                StepAction::FetchDeliveryFill {
                    step_index: i4,
                    symbol: s.to_symbol.clone(),
                    order_id: oid,
                    transfer_type: UniversalTransferType::CmfutureMain,
                },
            ),
        };
    }
    let i5 = match find_leg_idx(steps, LegKind::SpotSell) {
        Some(i) => i,
        None => {
            return Err(StrategyError::MissingLeg);
        },
    };
    if !matches!(steps[i5].option_status, crate::model::StepStatus::Done) {
        if n_done != 5 {
            return Err(StrategyError::OutOfOrder);
        }
        return match steps[i5].current_order_id {
            None => Ok(
                StepAction::PlaceSpotOrder {
                    step_index: i5,
                    symbol: s.from_symbol.clone(),
                    side: OrderSide::Sell,
                    order_type: OrderType::Limit,
                    time_in_force: TimeInForce::FOK,
                    price: quote_sell_price(d.from_price, s.fok_diff, s.from_price_truncate),
                    amount: steps[i4].option_executed_amt.trunc_dp(s.from_amt_truncate),
                },
            ),
            Some(oid) => Ok(
                StepAction::QuerySpotOrder {
                    step_index: i5,
                    req: OrderStatusRequest {
                        symbol: s.from_symbol.clone(),
                        order_id: Some(oid),
                        orig_client_order_id: None,
                        recv_window: None,
                    },
                },
            ),
        };
    }
    Ok(StepAction::Hold)
}

/// An order placement on the margined market the reverse plan runs on:
/// always a fill-or-kill limit order.
fn place_margined(usdm: bool, step_index: usize, symbol: String, side: OrderSide, price: Dec,
    amount: Dec) -> (a: StepAction)
    ensures
        usdm ==> (a matches StepAction::PlaceFuturesOrder {
            step_index: si,
            symbol: sy,
            side: sd,
            order_type: ot,
            time_in_force: tif,
            price: p,
            amount: am,
        } && si == step_index && sy@ == symbol@ && sd == side && ot == OrderType::Limit && tif
            == TimeInForce::FOK && p == price && am == amount),
        !usdm ==> (a matches StepAction::PlaceDeliveryOrder {
            step_index: si,
            symbol: sy,
            side: sd,
            order_type: ot,
            time_in_force: tif,
            price: p,
            amount: am,
        } && si == step_index && sy@ == symbol@ && sd == side && ot == OrderType::Limit && tif
            == TimeInForce::FOK && p == price && am == amount),
{
    if usdm {
        StepAction::PlaceFuturesOrder {
            step_index,
            symbol,
            side,
            order_type: OrderType::Limit,
            time_in_force: TimeInForce::FOK,
            price,
            amount,
        }
    } else {
        StepAction::PlaceDeliveryOrder {
            step_index,
            symbol,
            side,
            order_type: OrderType::Limit,
            time_in_force: TimeInForce::FOK,
            price,
            amount,
        }
    }
}

/// A status read-back on the margined market the reverse plan runs on.
fn query_margined(usdm: bool, step_index: usize, symbol: String, order_id: u64) -> (a: StepAction)
    ensures
        usdm ==> (a matches StepAction::QueryFuturesOrder {
            step_index: si,
            symbol: sy,
            order_id: oid,
        } && si == step_index && sy@ == symbol@ && oid == order_id),
        !usdm ==> (a matches StepAction::QueryDeliveryOrder {
            step_index: si,
            symbol: sy,
            order_id: oid,
        } && si == step_index && sy@ == symbol@ && oid == order_id),
{
    if usdm {
        StepAction::QueryFuturesOrder { step_index, symbol, order_id }
    } else {
        StepAction::QueryDeliveryOrder { step_index, symbol, order_id }
    }
}

/// Decide the next action for a reverse strategy.
pub fn next_action_reverse(s: &ArbStrategy, steps: &Vec<ArbStrategyEx>, d: &ArbDiffRateInfo) -> (r:
    Result<StepAction, StrategyError>)
    requires
        s.wf(),
        d.wf(),
        steps_wf(steps@),
    ensures
        action_matches(r, reverse_decision(*s, steps@, *d)),
{
    if steps.len() == 0 {
        return Err(StrategyError::NoSteps);
    }
    if steps.len() != 4 {
        return Err(StrategyError::StepCountMismatch);
    }
    let n_done = count_done(steps);
    if n_done == 4 {
        return Ok(StepAction::MarkStrategyDone);
    }
    let usdm = matches!(s.from_market, MarketKind::Futures) && matches!(
        s.to_market,
        MarketKind::Futures,
    );
    let coinm = matches!(s.from_market, MarketKind::Delivery) && matches!(
        s.to_market,
        MarketKind::Delivery,
    );
    if !usdm && !coinm {
        return Ok(StepAction::Hold);
    }
    let buy_kind = if usdm {
        LegKind::FuturesBuy
    } else {
        LegKind::DeliveryBuy
    };
    let sell_kind = if usdm {
        LegKind::FuturesSell
    } else {
        LegKind::DeliverySell
    };
    let fee = if usdm {
        s.futures_fee
    } else {
        s.delivery_fee
    };
    // Open phase.
    if d.diff_rate.le(&s.option_open) {
        let i0 = match find_leg_sym_idx(steps, buy_kind, &s.from_symbol) {
            Some(i) => i,
            None => {
                return Err(StrategyError::MissingLeg);
            },
        };
        if !matches!(steps[i0].option_status, crate::model::StepStatus::Done) {
            if n_done != 0 {
                return Err(StrategyError::OutOfOrder);
            }
            return match steps[i0].current_order_id {
                None => Ok(
                    place_margined(
                        usdm,
                        i0,
                        s.from_symbol.clone(),
                        OrderSide::Buy,
                        quote_buy_price(d.from_price, s.fok_diff, s.from_price_truncate),
                        steps[i0].option_amount.trunc_dp(s.from_amt_truncate),
                    ),
                ),
                Some(oid) => Ok(query_margined(usdm, i0, s.from_symbol.clone(), oid)),
            };
        }
        let i1 = match find_leg_sym_idx(steps, sell_kind, &s.to_symbol) {
            Some(i) => i,
            None => {
                return Err(StrategyError::MissingLeg);
            },
        };
        if !matches!(steps[i1].option_status, crate::model::StepStatus::Done) {
            if n_done != 1 {
                return Err(StrategyError::OutOfOrder);
            }
            return match steps[i1].current_order_id {
                None => Ok(
                    place_margined(
                        usdm,
                        i1,
                        s.to_symbol.clone(),
                        OrderSide::Sell,
                        quote_sell_price(d.to_price, s.fok_diff, s.to_price_truncate),
                        take_fee(steps[i0].option_executed_amt, fee, s.to_amt_truncate),
                    ),
                ),
                Some(oid) => Ok(query_margined(usdm, i1, s.to_symbol.clone(), oid)),
            };
        }
    }
    next_action_reverse_close(s, steps, d, n_done, usdm)
}

/// Decide the close-phase action for a reverse strategy whose open legs are
/// past, or whose rate sits above the open threshold.
fn next_action_reverse_close(
    s: &ArbStrategy,
    steps: &Vec<ArbStrategyEx>,
    d: &ArbDiffRateInfo,
    n_done: usize,
    usdm: bool,
) -> (r: Result<StepAction, StrategyError>)
    requires
        s.wf(),
        d.wf(),
        steps_wf(steps@),
        n_done == done_count(steps@),
        reverse_markets_known(*s),
        usdm == (s.from_market == MarketKind::Futures),
    ensures
        action_matches(r, reverse_close_phase(*s, steps@, *d)),
{
    if !d.diff_rate.ge(&s.option_close) {
        return Ok(StepAction::Hold);
    }
    let buy_kind = if usdm {
        LegKind::FuturesBuy
    } else {
        LegKind::DeliveryBuy
    };
    let sell_kind = if usdm {
        LegKind::FuturesSell
    } else {
        LegKind::DeliverySell
    };
    let fee = if usdm {
        s.futures_fee
    } else {
        s.delivery_fee
    };
    let i2 = match find_leg_sym_idx(steps, buy_kind, &s.to_symbol) {
        Some(i) => i,
        None => {
            return Err(StrategyError::MissingLeg);
        },
    };
    if !matches!(steps[i2].option_status, crate::model::StepStatus::Done) {
        if n_done != 2 {
            return Err(StrategyError::OutOfOrder);
        }
        let i1 = match find_leg_sym_idx(steps, sell_kind, &s.to_symbol) {
            Some(i) => i,
            None => {
                return Err(StrategyError::MissingLeg);
            },
        };
        return match steps[i2].current_order_id {
            None => Ok(
                place_margined(
                    usdm,
                    i2,
                    s.to_symbol.clone(),
                    OrderSide::Buy,
                    quote_buy_price(d.to_price, s.fok_diff, s.to_price_truncate),
                    take_fee(steps[i1].option_executed_amt, fee, s.to_amt_truncate),
                ),
            ),
            Some(oid) => Ok(query_margined(usdm, i2, s.to_symbol.clone(), oid)),
        };
    }
    let i3 = match find_leg_sym_idx(steps, sell_kind, &s.from_symbol) {
        Some(i) => i,
        None => {
            return Err(StrategyError::MissingLeg);
        },
    };
    if !matches!(steps[i3].option_status, crate::model::StepStatus::Done) {
        if n_done != 3 {
            return Err(StrategyError::OutOfOrder);
        }
        return match steps[i3].current_order_id {
            None => Ok(
                place_margined(
                    usdm,
                    i3,
                    s.from_symbol.clone(),
                    OrderSide::Sell,
                    quote_sell_price(d.from_price, s.fok_diff, s.from_price_truncate),
                    take_fee(steps[i2].option_executed_amt, fee, s.from_amt_truncate),
                ),
            ),
            Some(oid) => Ok(query_margined(usdm, i3, s.from_symbol.clone(), oid)),
        };
    }
    Ok(StepAction::Hold)
}

/// Decide the next action for a strategy of either direction.
pub fn next_action(s: &ArbStrategy, steps: &Vec<ArbStrategyEx>, d: &ArbDiffRateInfo) -> (r: Result<
    StepAction,
    StrategyError,
>)
    requires
        s.wf(),
        d.wf(),
        steps_wf(steps@),
    ensures
        action_matches(r, decision(*s, steps@, *d)),
{
    match s.option_choose {
        crate::model::Direction::Positive => next_action_positive(s, steps, d),
        crate::model::Direction::Reverse => next_action_reverse(s, steps, d),
    }
}

} // verus!
