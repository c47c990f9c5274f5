//! Durable-state transitions around one order or transfer.
//!
//! The worker performs the exchange call the machine asked for and hands the
//! outcome back to these functions, which say exactly how the step row, the
//! audit record and the strategy row change.  Every branch is total: a
//! non-filled order clears the step's order id so the next cycle retries,
//! and the step's status is untouched.

use vstd::prelude::*;
use crate::dec::{Dec, DEC_UNIT, MAX_UNITS};
use crate::machine::net_amount;
use crate::model::{
    ArbStrategy, ArbStrategyEx, ArbStrategyExInfo, DoingStatus, RecordStatus, StepStatus,
};

verus! {

/// Terminal outcome of one fill-or-kill order attempt.  Any non-fill is
/// final for the attempt.
#[derive(Clone, Copy, Debug)]
pub enum OrderOutcome {
    Filled { executed_qty: Dec },
    NotFilled,
}

/// Store the exchange's order id on the step once an order is placed.
pub fn record_placement(step: &mut ArbStrategyEx, order_id: u64)
    ensures
        *final(step) == (ArbStrategyEx { current_order_id: Some(order_id), ..*old(step) }),
{
    step.current_order_id = Some(order_id);
}

/// The audit record inserted when an order is placed: pending, nothing
/// executed yet.
pub fn new_order_record(s: &ArbStrategy, step: &ArbStrategyEx, price: Dec, amount: Dec, order_id:
    u64, now: i64) -> (r: ArbStrategyExInfo)
    ensures
        r.user_id == s.user_id && r.platform@ == s.platform@ && r.option_choose == s.option_choose,
        r.arb_strategy_id == s.id && r.arb_strategy_ex_id == step.id && r.coin@ == s.coin@,
        r.market == step.market && r.symbol@ == step.symbol@ && r.option_type == step.option_type,
        r.price == price && r.amount == amount && r.executed_amt@ == 0,
        r.order_id == order_id && r.is_ok is UnDone && r.created == now && r.updated is None,
{
    ArbStrategyExInfo {
        id: 0,
        user_id: s.user_id,
        platform: s.platform.clone(),
        option_choose: s.option_choose,
        arb_strategy_id: s.id,
        arb_strategy_ex_id: step.id,
        coin: s.coin.clone(),
        market: step.market,
        symbol: step.symbol.clone(),
        option_type: step.option_type,
        price,
        amount,
        executed_amt: Dec::zero(),
        order_id,
        is_ok: RecordStatus::UnDone,
        created: now,
        updated: None,
    }
}

/// Reconcile an outstanding order against its read-back status.
///
/// Filled: the step becomes done with the executed quantity, and the record
/// is completed.  Not filled: the step's order id is cleared — the step
/// stays pending for the next cycle — and the record expires.
pub fn reconcile_order(step: &mut ArbStrategyEx, rec: &mut ArbStrategyExInfo, outcome:
    &OrderOutcome, now: i64)
    ensures
        match *outcome {
            OrderOutcome::Filled { executed_qty } => {
                &&& *final(step) == ArbStrategyEx {
                    option_amount: executed_qty,
                    option_executed_amt: executed_qty,
                    option_status: StepStatus::Done,
                    ..*old(step)
                }
                &&& *final(rec) == ArbStrategyExInfo {
                    executed_amt: executed_qty,
                    is_ok: RecordStatus::Done,
                    updated: Some(now),
                    ..*old(rec)
                }
            },
            OrderOutcome::NotFilled => {
                &&& *final(step) == ArbStrategyEx { current_order_id: None, ..*old(step) }
                &&& *final(rec) == ArbStrategyExInfo {
                    is_ok: RecordStatus::Expired,
                    updated: Some(now),
                    ..*old(rec)
                }
            },
        },
{
    match outcome {
        OrderOutcome::Filled { executed_qty } => {
            step.option_amount = *executed_qty;
            step.option_executed_amt = *executed_qty;
            step.option_status = StepStatus::Done;
            rec.executed_amt = *executed_qty;
            rec.is_ok = RecordStatus::Done;
            rec.updated = Some(now);
        },
        OrderOutcome::NotFilled => {
            step.current_order_id = None;
            rec.is_ok = RecordStatus::Expired;
            rec.updated = Some(now);
        },
    }
}

/// Complete a transfer step: transfers are synchronous, so the step becomes
/// done in the same call that ran it.
pub fn apply_transfer(step: &mut ArbStrategyEx, tran_id: u64, amount: Dec)
    ensures
        *final(step) == (ArbStrategyEx {
            current_order_id: Some(tran_id),
            option_status: StepStatus::Done,
            option_amount: amount,
            option_executed_amt: amount,
            ..*old(step)
        }),
{
    step.current_order_id = Some(tran_id);
    step.option_status = StepStatus::Done;
    step.option_amount = amount;
    step.option_executed_amt = amount;
}

/// The audit record of a completed transfer: done on insertion, the amount
/// both asked and executed, no order price.
pub fn new_transfer_record(s: &ArbStrategy, step: &ArbStrategyEx, amount: Dec, tran_id: u64, now:
    i64) -> (r: ArbStrategyExInfo)
    ensures
        r.user_id == s.user_id && r.platform@ == s.platform@ && r.option_choose == s.option_choose,
        r.arb_strategy_id == s.id && r.arb_strategy_ex_id == step.id && r.coin@ == s.coin@,
        r.market == step.market && r.symbol@ == step.symbol@ && r.option_type == step.option_type,
        r.price@ == 0 && r.amount == amount && r.executed_amt == amount,
        r.order_id == tran_id && r.is_ok is Done && r.created == now && r.updated == Some(now),
{
    ArbStrategyExInfo {
        id: 0,
        user_id: s.user_id,
        platform: s.platform.clone(),
        option_choose: s.option_choose,
        arb_strategy_id: s.id,
        arb_strategy_ex_id: step.id,
        coin: s.coin.clone(),
        market: step.market,
        symbol: step.symbol.clone(),
        option_type: step.option_type,
        price: Dec::zero(),
        amount,
        executed_amt: amount,
        order_id: tran_id,
        is_ok: RecordStatus::Done,
        created: now,
        updated: Some(now),
    }
}

/// Size of the close-phase transfer back to spot: the delivery buy's filled
/// base quantity less the delivery fee, truncated to the configured width.
pub fn close_transfer_amount(s: &ArbStrategy, cum_base: Dec) -> (r: Dec)
    requires
        s.wf(),
        0 <= cum_base@ <= MAX_UNITS,
    ensures
        r@ == net_amount(cum_base@, s.delivery_fee@, s.to_amt_truncate as nat),
{
    crate::machine::take_fee(cum_base, s.delivery_fee, s.to_amt_truncate)
}

/// Move a finished strategy to its terminal status.
pub fn mark_strategy_done(s: &mut ArbStrategy)
    ensures
        *final(s) == (ArbStrategy { doing_status: DoingStatus::Done, ..*old(s) }),
{
    s.doing_status = DoingStatus::Done;
}

} // verus!
