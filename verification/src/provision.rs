//! Strategy provisioner.
//!
//! A running strategy that has no step rows yet gets one row per plan leg,
//! each pending, with a zero executed amount and no outstanding order.  A
//! strategy that already has rows is left alone, so provisioning is
//! idempotent; one whose plan cannot be built is skipped and retried on the
//! next poll.

use vstd::prelude::*;
use crate::dec::{Dec, MAX_UNITS};
use crate::model::{ArbStrategy, ArbStrategyEx, MarketKind, StepStatus};
use crate::plan::{build_plan, expected_step_count, has_plan, is_positive_plan,
    is_reverse_coinm_plan, is_reverse_usdm_plan, ExDesc};

verus! {

/// The descriptor a step row carries.
pub open spec fn desc_of_row(row: ArbStrategyEx) -> ExDesc {
    ExDesc { market: row.market, symbol: row.symbol, option_type: row.option_type }
}

/// A freshly provisioned row: pending, nothing executed, no outstanding
/// order, and the full amount budget `option_amt * margin_mul`.
pub open spec fn fresh_row(s: ArbStrategy, row: ArbStrategyEx) -> bool {
    &&& row.arb_strategy_id == s.id
    &&& row.option_status is UnDone
    &&& row.option_amount@ == s.option_amt@ * s.margin_mul
    &&& row.option_executed_amt@ == 0
    &&& row.current_order_id is None
    &&& row.wf()
}

/// Step rows for a strategy that has none yet; `existing` is the number of
/// rows already present.  Returns nothing when rows exist (steps are
/// provisioned exactly once) or when the plan shape is unknown.
pub fn provision_steps(s: &ArbStrategy, existing: usize) -> (r: Option<Vec<ArbStrategyEx>>)
    requires
        s.wf(),
    ensures
        r is Some <==> (existing == 0 && has_plan(*s)),
        r matches Some(rows) ==> {
            &&& rows@.len() == expected_step_count(s.option_choose)
            &&& forall|i: int| 0 <= i < rows@.len() ==> fresh_row(*s, #[trigger] rows@[i])
            &&& s.option_choose is Positive ==> is_positive_plan(
                *s,
                rows@.map_values(|row: ArbStrategyEx| desc_of_row(row)),
            )
            &&& (s.option_choose is Reverse && s.from_market == MarketKind::Delivery)
                ==> is_reverse_coinm_plan(
                *s,
                rows@.map_values(|row: ArbStrategyEx| desc_of_row(row)),
            )
            &&& (s.option_choose is Reverse && s.from_market == MarketKind::Futures)
                ==> is_reverse_usdm_plan(
                *s,
                rows@.map_values(|row: ArbStrategyEx| desc_of_row(row)),
            )
        },
{
    if existing > 0 {
        return None;
    }
    let descs = match build_plan(s) {
        Some(ds) => ds,
        None => {
            return None;
        },
    };
    proof {
        assert(0 <= s.option_amt@ * s.margin_mul) by (nonlinear_arith)
            requires
                0 <= s.option_amt@,
                0 <= s.margin_mul,
        ;
    }
    let budget = Dec::from_units(s.option_amt.units * (s.margin_mul as i128));
    let mut rows: Vec<ArbStrategyEx> = Vec::new();
    let mut i: usize = 0;
    while i < descs.len()
        invariant
            i <= descs.len(),
            rows@.len() == i,
            s.wf(),
            budget@ == s.option_amt@ * s.margin_mul,
            forall|j: int| 0 <= j < i ==> fresh_row(*s, #[trigger] rows@[j]),
            forall|j: int| 0 <= j < i ==> desc_of_row(#[trigger] rows@[j]).market
                == descs@[j].market && desc_of_row(rows@[j]).symbol@ == descs@[j].symbol@
                && desc_of_row(rows@[j]).option_type == descs@[j].option_type,
        decreases descs.len() - i,
    {
        let d = &descs[i];
        rows.push(
            ArbStrategyEx {
                id: 0,
                arb_strategy_id: s.id,
                market: d.market,
                symbol: d.symbol.clone(),
                option_type: d.option_type,
                option_status: StepStatus::UnDone,
                option_amount: budget,
                option_executed_amt: Dec::zero(),
                current_order_id: None,
            },
        );
        i = i + 1;
    }
    proof {
        let m = rows@.map_values(|row: ArbStrategyEx| desc_of_row(row));
        assert(m.len() == rows@.len());
        assert forall|j: int| 0 <= j < rows@.len() implies (#[trigger] m[j]).market
            == descs@[j].market && m[j].symbol@ == descs@[j].symbol@ && m[j].option_type
            == descs@[j].option_type by {
            assert(m[j] == desc_of_row(rows@[j]));
        }
    }
    Some(rows)
}

} // verus!
