//! Ordering and idempotence laws of the step state machine.
//!
//! The machine re-reads durable state on every invocation, so these laws
//! are stated over the decision model: steps complete only in plan order,
//! the done count never passes the plan's fixed length, and reprocessing an
//! unchanged-but-for-the-order-id state reconciles instead of placing a
//! second order.

use vstd::prelude::*;
use crate::machine::{
    done_count, find_leg, find_leg_sym, lemma_done_count_bounds, positive_decision,
    reverse_buy_kind, reverse_decision, reverse_markets_known, reverse_sell_kind, ActionModel,
};
use crate::model::{ArbDiffRateInfo, ArbStrategy, ArbStrategyEx, LegKind};
use crate::plan::positive_leg;

verus! {

/// Done steps form a prefix of the plan: a done step has every earlier step
/// done.
pub open spec fn done_prefix(steps: Seq<ArbStrategyEx>) -> bool {
    forall|j: int, k: int|
        #![trigger steps[j], steps[k]]
        0 <= j < k < steps.len() && steps[k].option_status is Done ==> steps[j].option_status
            is Done
}

/// Under the prefix shape, the done count tells exactly which steps are
/// done: those before it.
pub proof fn lemma_done_count_characterizes(steps: Seq<ArbStrategyEx>)
    requires
        done_prefix(steps),
    ensures
        forall|j: int|
            0 <= j < steps.len() ==> ((#[trigger] steps[j]).option_status is Done <==> j
                < done_count(steps)),
    decreases steps.len(),
{
    if steps.len() > 0 {
        let pre = steps.drop_last();
        let n = steps.len() - 1;
        assert(done_prefix(pre)) by {
            assert(forall|j: int| 0 <= j < pre.len() ==> pre[j] == steps[j]);
        }
        lemma_done_count_characterizes(pre);
        lemma_done_count_bounds(pre);
        if steps.last().option_status is Done {
            assert forall|j: int| 0 <= j < n implies (#[trigger] pre[j]).option_status
                is Done by {
                assert(steps[j].option_status is Done);
            }
            if done_count(pre) < n {
                assert(!(pre[done_count(pre)].option_status is Done));
            }
            assert(done_count(pre) == n);
            assert(done_count(steps) == n + 1);
        } else {
            assert(done_count(steps) == done_count(pre));
        }
        assert forall|j: int|
            0 <= j < steps.len() implies ((#[trigger] steps[j]).option_status is Done <==> j
            < done_count(steps)) by {
            if j < n {
                assert(steps[j] == pre[j]);
            } else {
                assert(steps[j] == steps.last());
            }
        }
    }
}

/// Replacing one step changes the done count only by that step's own
/// status change.
pub proof fn lemma_done_count_update(steps: Seq<ArbStrategyEx>, i: int, e2: ArbStrategyEx)
    requires
        0 <= i < steps.len(),
    ensures
        done_count(steps.update(i, e2)) == done_count(steps) + (if e2.option_status is Done {
            1int
        } else {
            0int
        }) - (if steps[i].option_status is Done {
            1int
        } else {
            0int
        }),
    decreases steps.len(),
{
    let u = steps.update(i, e2);
    if i == steps.len() - 1 {
        assert(u.drop_last() =~= steps.drop_last());
        assert(u.last() == e2);
    } else {
        assert(u.drop_last() =~= steps.drop_last().update(i, e2));
        assert(u.last() == steps.last());
        lemma_done_count_update(steps.drop_last(), i, e2);
    }
}

/// Replacing a step with one of the same leg kind moves no leg lookup.
pub proof fn lemma_find_leg_update_same_kind(
    steps: Seq<ArbStrategyEx>,
    i: int,
    e2: ArbStrategyEx,
    k: LegKind,
)
    requires
        0 <= i < steps.len(),
        e2.option_type == steps[i].option_type,
    ensures
        find_leg(steps.update(i, e2), k) == find_leg(steps, k),
    decreases steps.len(),
{
    let u = steps.update(i, e2);
    if i == steps.len() - 1 {
        assert(u.drop_last() =~= steps.drop_last());
        assert(u.last().option_type == steps.last().option_type);
    } else {
        assert(u.drop_last() =~= steps.drop_last().update(i, e2));
        assert(u.last() == steps.last());
        lemma_find_leg_update_same_kind(steps.drop_last(), i, e2, k);
    }
}

/// When exactly one row carries a kind, the lookup finds it.
pub proof fn lemma_find_leg_unique(steps: Seq<ArbStrategyEx>, k: LegKind, i: int)
    requires
        0 <= i < steps.len(),
        steps[i].option_type == k,
        forall|j: int|
            0 <= j < steps.len() && j != i ==> (#[trigger] steps[j]).option_type != k,
    ensures
        find_leg(steps, k) == Some(i),
    decreases steps.len(),
{
    if i < steps.len() - 1 {
        assert(steps.last().option_type != k);
        let pre = steps.drop_last();
        assert(forall|j: int| 0 <= j < pre.len() ==> pre[j] == steps[j]);
        lemma_find_leg_unique(pre, k, i);
    }
}

/// Rows in canonical positive-plan shape: six rows, one per leg, in plan
/// order.
pub open spec fn wf_positive_steps(steps: Seq<ArbStrategyEx>) -> bool {
    &&& steps.len() == 6
    &&& forall|i: int| 0 <= i < 6 ==> (#[trigger] steps[i]).option_type == positive_leg(i)
}

/// In canonical shape, each leg is found at its own plan position.
pub proof fn lemma_plan_legs_found(steps: Seq<ArbStrategyEx>)
    requires
        wf_positive_steps(steps),
    ensures
        find_leg(steps, LegKind::SpotBuy) == Some(0int),
        find_leg(steps, LegKind::TransferSpotToDelivery) == Some(1int),
        find_leg(steps, LegKind::DeliverySell) == Some(2int),
        find_leg(steps, LegKind::DeliveryBuy) == Some(3int),
        find_leg(steps, LegKind::TransferDeliveryToSpot) == Some(4int),
        find_leg(steps, LegKind::SpotSell) == Some(5int),
{
    lemma_find_leg_unique(steps, LegKind::SpotBuy, 0);
    lemma_find_leg_unique(steps, LegKind::TransferSpotToDelivery, 1);
    lemma_find_leg_unique(steps, LegKind::DeliverySell, 2);
    lemma_find_leg_unique(steps, LegKind::DeliveryBuy, 3);
    lemma_find_leg_unique(steps, LegKind::TransferDeliveryToSpot, 4);
    lemma_find_leg_unique(steps, LegKind::SpotSell, 5);
}

/// Law: legs execute strictly in plan order.  Whatever the machine decides
/// to do acts on the step the done count points at — the first pending step
/// — and a strategy is retired only with every step done.
pub proof fn lemma_action_in_plan_order(
    s: ArbStrategy,
    steps: Seq<ArbStrategyEx>,
    d: ArbDiffRateInfo,
)
    requires
        wf_positive_steps(steps),
    ensures
        match positive_decision(s, steps, d) {
            Ok(a) => match a {
                ActionModel::PlaceSpot { idx, .. } => done_count(steps) == idx && !(steps[
                idx].option_status is Done),
                ActionModel::PlaceDelivery { idx, .. } => done_count(steps) == idx && !(steps[
                idx].option_status is Done),
                ActionModel::QuerySpot { idx, .. } => done_count(steps) == idx && !(steps[
                idx].option_status is Done),
                ActionModel::QueryDelivery { idx, .. } => done_count(steps) == idx && !(steps[
                idx].option_status is Done),
                ActionModel::DoTransfer { idx, .. } => done_count(steps) == idx && !(steps[
                idx].option_status is Done),
                ActionModel::FetchFill { idx, .. } => done_count(steps) == idx && !(steps[
                idx].option_status is Done),
                ActionModel::MarkDone => done_count(steps) == 6,
                ActionModel::Hold => true,
                // futures placements belong to the reverse plan only
                ActionModel::PlaceFutures { .. } => false,
                ActionModel::QueryFutures { .. } => false,
            },
            Err(_) => true,
        },
{
    lemma_plan_legs_found(steps);
}

/// Law: the done count never passes the plan's fixed length, and marking
/// done the step the count points at keeps the done steps a prefix.
pub proof fn lemma_mark_done_preserves_order(
    steps: Seq<ArbStrategyEx>,
    i: int,
    e2: ArbStrategyEx,
)
    requires
        done_prefix(steps),
        0 <= i < steps.len(),
        done_count(steps) == i,
        e2.option_status is Done,
    ensures
        done_prefix(steps.update(i, e2)),
        done_count(steps.update(i, e2)) == i + 1 <= steps.len(),
{
    lemma_done_count_characterizes(steps);
    lemma_done_count_update(steps, i, e2);
    let u = steps.update(i, e2);
    assert forall|j: int, k: int|
        #![trigger u[j], u[k]]
        0 <= j < k < u.len() && u[k].option_status is Done implies u[j].option_status is Done by {
        if k != i {
            assert(u[k] == steps[k]);
            assert(k < i);
        }
        if j != i {
            assert(u[j] == steps[j]);
        }
    }
}

/// Law: reconciling a non-filled order leaves the done count unchanged —
/// the step goes back to pending with its order id cleared.
pub proof fn lemma_clear_order_keeps_count(steps: Seq<ArbStrategyEx>, i: int)
    requires
        0 <= i < steps.len(),
    ensures
        done_count(
            steps.update(i, ArbStrategyEx { current_order_id: None, ..steps[i] }),
        ) == done_count(steps),
{
    lemma_done_count_update(steps, i, ArbStrategyEx { current_order_id: None, ..steps[i] });
}

/// Law: no duplicate placement.  A placement decision only ever targets a
/// pending step with no outstanding order; and once the placed order's id
/// is stored on that step, running the machine again over the otherwise
/// unchanged durable state reads that very order back instead of placing a
/// second one.
pub proof fn lemma_reprocess_after_placement(
    s: ArbStrategy,
    steps: Seq<ArbStrategyEx>,
    d: ArbDiffRateInfo,
    i: int,
    oid: u64,
)
    requires
        0 <= i < steps.len(),
        match positive_decision(s, steps, d) {
            Ok(ActionModel::PlaceSpot { idx, .. }) => idx == i,
            Ok(ActionModel::PlaceDelivery { idx, .. }) => idx == i,
            _ => false,
        },
    ensures
        steps[i].current_order_id is None,
        !(steps[i].option_status is Done),
        ({
            let steps2 = steps.update(
                i,
                ArbStrategyEx { current_order_id: Some(oid), ..steps[i] },
            );
            match positive_decision(s, steps2, d) {
                Ok(ActionModel::QuerySpot { idx, order_id, .. }) => idx == i && order_id
                    == oid as int,
                Ok(ActionModel::QueryDelivery { idx, order_id, .. }) => idx == i && order_id
                    == oid as int,
                _ => false,
            }
        }),
{
    let e2 = ArbStrategyEx { current_order_id: Some(oid), ..steps[i] };
    let steps2 = steps.update(i, e2);
    lemma_done_count_update(steps, i, e2);
    lemma_find_leg_update_same_kind(steps, i, e2, LegKind::SpotBuy);
    lemma_find_leg_update_same_kind(steps, i, e2, LegKind::TransferSpotToDelivery);
    lemma_find_leg_update_same_kind(steps, i, e2, LegKind::DeliverySell);
    lemma_find_leg_update_same_kind(steps, i, e2, LegKind::DeliveryBuy);
    lemma_find_leg_update_same_kind(steps, i, e2, LegKind::TransferDeliveryToSpot);
    lemma_find_leg_update_same_kind(steps, i, e2, LegKind::SpotSell);
    crate::machine::lemma_find_leg_in_bounds(steps, LegKind::SpotBuy);
    crate::machine::lemma_find_leg_in_bounds(steps, LegKind::TransferSpotToDelivery);
    crate::machine::lemma_find_leg_in_bounds(steps, LegKind::DeliverySell);
    crate::machine::lemma_find_leg_in_bounds(steps, LegKind::DeliveryBuy);
    crate::machine::lemma_find_leg_in_bounds(steps, LegKind::TransferDeliveryToSpot);
    crate::machine::lemma_find_leg_in_bounds(steps, LegKind::SpotSell);
    assert(forall|j: int| 0 <= j < steps.len() && j != i ==> steps2[j] == #[trigger] steps[j]);
    assert(steps2[i] == e2);
}

/// Replacing a step with one of the same kind and symbol moves no
/// symbol-keyed leg lookup.
pub proof fn lemma_find_leg_sym_update_same(
    steps: Seq<ArbStrategyEx>,
    i: int,
    e2: ArbStrategyEx,
    k: LegKind,
    sym: Seq<char>,
)
    requires
        0 <= i < steps.len(),
        e2.option_type == steps[i].option_type,
        e2.symbol@ == steps[i].symbol@,
    ensures
        find_leg_sym(steps.update(i, e2), k, sym) == find_leg_sym(steps, k, sym),
    decreases steps.len(),
{
    let u = steps.update(i, e2);
    if i == steps.len() - 1 {
        assert(u.drop_last() =~= steps.drop_last());
        assert(u.last().option_type == steps.last().option_type);
        assert(u.last().symbol@ == steps.last().symbol@);
    } else {
        assert(u.drop_last() =~= steps.drop_last().update(i, e2));
        assert(u.last() == steps.last());
        lemma_find_leg_sym_update_same(steps.drop_last(), i, e2, k, sym);
    }
}

/// When exactly one row carries a kind on a symbol, the lookup finds it.
pub proof fn lemma_find_leg_sym_unique(
    steps: Seq<ArbStrategyEx>,
    k: LegKind,
    sym: Seq<char>,
    i: int,
)
    requires
        0 <= i < steps.len(),
        steps[i].option_type == k && steps[i].symbol@ == sym,
        forall|j: int|
            0 <= j < steps.len() && j != i ==> !((#[trigger] steps[j]).option_type == k
                && steps[j].symbol@ == sym),
    ensures
        find_leg_sym(steps, k, sym) == Some(i),
    decreases steps.len(),
{
    if i < steps.len() - 1 {
        assert(!(steps.last().option_type == k && steps.last().symbol@ == sym));
        let pre = steps.drop_last();
        assert(forall|j: int| 0 <= j < pre.len() ==> pre[j] == steps[j]);
        lemma_find_leg_sym_unique(pre, k, sym, i);
    }
}

/// Rows in canonical reverse-plan shape: four rows on one margined market,
/// buy-sell-buy-sell over the far and perpetual symbols, which differ.
pub open spec fn wf_reverse_steps(s: ArbStrategy, steps: Seq<ArbStrategyEx>) -> bool {
    &&& reverse_markets_known(s)
    &&& s.from_symbol@ != s.to_symbol@
    &&& steps.len() == 4
    &&& steps[0].option_type == reverse_buy_kind(s) && steps[0].symbol@ == s.from_symbol@
    &&& steps[1].option_type == reverse_sell_kind(s) && steps[1].symbol@ == s.to_symbol@
    &&& steps[2].option_type == reverse_buy_kind(s) && steps[2].symbol@ == s.to_symbol@
    &&& steps[3].option_type == reverse_sell_kind(s) && steps[3].symbol@ == s.from_symbol@
}

/// In canonical reverse shape, each leg is found at its own plan position.
pub proof fn lemma_reverse_legs_found(s: ArbStrategy, steps: Seq<ArbStrategyEx>)
    requires
        wf_reverse_steps(s, steps),
    ensures
        find_leg_sym(steps, reverse_buy_kind(s), s.from_symbol@) == Some(0int),
        find_leg_sym(steps, reverse_sell_kind(s), s.to_symbol@) == Some(1int),
        find_leg_sym(steps, reverse_buy_kind(s), s.to_symbol@) == Some(2int),
        find_leg_sym(steps, reverse_sell_kind(s), s.from_symbol@) == Some(3int),
{
    lemma_find_leg_sym_unique(steps, reverse_buy_kind(s), s.from_symbol@, 0);
    lemma_find_leg_sym_unique(steps, reverse_sell_kind(s), s.to_symbol@, 1);
    lemma_find_leg_sym_unique(steps, reverse_buy_kind(s), s.to_symbol@, 2);
    lemma_find_leg_sym_unique(steps, reverse_sell_kind(s), s.from_symbol@, 3);
}

/// Law: reverse legs execute strictly in plan order too.  Whatever the
/// reverse machine decides acts on the step the done count points at, and
/// the strategy is retired only with every step done.
pub proof fn lemma_action_in_plan_order_reverse(
    s: ArbStrategy,
    steps: Seq<ArbStrategyEx>,
    d: ArbDiffRateInfo,
)
    requires
        wf_reverse_steps(s, steps),
    ensures
        match reverse_decision(s, steps, d) {
            Ok(a) => match a {
                ActionModel::PlaceFutures { idx, .. } => done_count(steps) == idx && !(steps[
                idx].option_status is Done),
                ActionModel::PlaceDelivery { idx, .. } => done_count(steps) == idx && !(steps[
                idx].option_status is Done),
                ActionModel::QueryFutures { idx, .. } => done_count(steps) == idx && !(steps[
                idx].option_status is Done),
                ActionModel::QueryDelivery { idx, .. } => done_count(steps) == idx && !(steps[
                idx].option_status is Done),
                ActionModel::MarkDone => done_count(steps) == 4,
                ActionModel::Hold => true,
                // the other actions belong to the positive plan only
                ActionModel::PlaceSpot { .. } => false,
                ActionModel::QuerySpot { .. } => false,
                ActionModel::DoTransfer { .. } => false,
                ActionModel::FetchFill { .. } => false,
            },
            Err(_) => true,
        },
{
    lemma_reverse_legs_found(s, steps);
}

/// Law: no duplicate placement on the reverse side either.  A reverse
/// placement only targets a pending step with no outstanding order, and
/// once its id is stored, reprocessing the otherwise unchanged state reads
/// that order back.
pub proof fn lemma_reprocess_after_placement_reverse(
    s: ArbStrategy,
    steps: Seq<ArbStrategyEx>,
    d: ArbDiffRateInfo,
    i: int,
    oid: u64,
)
    requires
        0 <= i < steps.len(),
        match reverse_decision(s, steps, d) {
            Ok(ActionModel::PlaceFutures { idx, .. }) => idx == i,
            Ok(ActionModel::PlaceDelivery { idx, .. }) => idx == i,
            _ => false,
        },
    ensures
        steps[i].current_order_id is None,
        !(steps[i].option_status is Done),
        ({
            let steps2 = steps.update(
                i,
                ArbStrategyEx { current_order_id: Some(oid), ..steps[i] },
            );
            match reverse_decision(s, steps2, d) {
                Ok(ActionModel::QueryFutures { idx, order_id, .. }) => idx == i && order_id
                    == oid as int,
                Ok(ActionModel::QueryDelivery { idx, order_id, .. }) => idx == i && order_id
                    == oid as int,
                _ => false,
            }
        }),
{
    let e2 = ArbStrategyEx { current_order_id: Some(oid), ..steps[i] };
    let steps2 = steps.update(i, e2);
    lemma_done_count_update(steps, i, e2);
    lemma_find_leg_sym_update_same(steps, i, e2, reverse_buy_kind(s), s.from_symbol@);
    lemma_find_leg_sym_update_same(steps, i, e2, reverse_sell_kind(s), s.to_symbol@);
    lemma_find_leg_sym_update_same(steps, i, e2, reverse_buy_kind(s), s.to_symbol@);
    lemma_find_leg_sym_update_same(steps, i, e2, reverse_sell_kind(s), s.from_symbol@);
    crate::machine::lemma_find_leg_sym_in_bounds(steps, reverse_buy_kind(s), s.from_symbol@);
    crate::machine::lemma_find_leg_sym_in_bounds(steps, reverse_sell_kind(s), s.to_symbol@);
    crate::machine::lemma_find_leg_sym_in_bounds(steps, reverse_buy_kind(s), s.to_symbol@);
    crate::machine::lemma_find_leg_sym_in_bounds(steps, reverse_sell_kind(s), s.from_symbol@);
    assert(forall|j: int| 0 <= j < steps.len() && j != i ==> steps2[j] == #[trigger] steps[j]);
    assert(steps2[i] == e2);
}

} // verus!

