//! Differential-rate engine.
//!
//! Each round reads the two cached prices of a tracked pair, computes the
//! differential and the rate (truncated to four places, and to three for the
//! persisted value), and records: the snapshot row is always refreshed,
//! while a history row is written only when the three-place rate differs
//! from the last one recorded for that pair — the edge trigger that bounds
//! history growth.

use vstd::prelude::*;
use std::collections::HashMap;
use crate::dec::{div_tz, trunc_to, Dec, DEC_UNIT, MAX_UNITS};
use crate::model::Direction;

verus! {

broadcast use vstd::std_specs::hash::group_hash_axioms;

/// The rate of a differential against a base price, truncated toward zero
/// to `dp` decimal places.  A zero base yields a zero rate: a missing price
/// reads as zero, and a zero rate can never cross a threshold in the
/// favorable direction.
pub open spec fn spec_rate(diff: int, denom: int, dp: nat) -> int {
    if denom == 0 {
        0
    } else {
        trunc_to(div_tz(diff * DEC_UNIT, denom), dp)
    }
}

/// One round's computed values for a tracked pair.
#[derive(Clone, Copy, Debug)]
pub struct RateQuote {
    /// Price differential at full scale.
    pub diff: Dec,
    /// Rate truncated to four places, kept on the snapshot row.
    pub rate: Dec,
    /// Rate truncated further to three places, the edge-triggered value.
    pub info_rate: Dec,
}

/// Differential and rate of one tracked pair.  Positive strategies measure
/// `to - from` against the from-price; reverse ones `from - to` against the
/// to-price.
pub fn compute_diff_rate(direction: Direction, from_price: Dec, to_price: Dec) -> (r: RateQuote)
    requires
        0 <= from_price@ <= MAX_UNITS,
        0 <= to_price@ <= MAX_UNITS,
    ensures
        direction is Positive ==> {
            &&& r.diff@ == to_price@ - from_price@
            &&& r.rate@ == spec_rate(r.diff@, from_price@, 4)
            &&& r.info_rate@ == spec_rate(r.diff@, from_price@, 3)
        },
        direction is Reverse ==> {
            &&& r.diff@ == from_price@ - to_price@
            &&& r.rate@ == spec_rate(r.diff@, to_price@, 4)
            &&& r.info_rate@ == spec_rate(r.diff@, to_price@, 3)
        },
{
    let (diff, denom) = match direction {
        Direction::Positive => (to_price.sub(from_price), from_price),
        Direction::Reverse => (from_price.sub(to_price), to_price),
    };
    if denom.is_zero() {
        RateQuote { diff, rate: Dec::zero(), info_rate: Dec::zero() }
    } else {
        let rate8 = diff.div_trunc(denom);
        let rate = rate8.trunc_dp(4);
        let info_rate = rate8.trunc_dp(3);
        proof {
            lemma_trunc_to_compose(rate8@, 4, 3);
        }
        RateQuote { diff, rate, info_rate }
    }
}

/// Truncating to `fine` places and then to `coarse` is truncating to
/// `coarse` directly.
proof fn lemma_trunc_to_compose(x: int, fine: nat, coarse: nat)
    requires
        coarse <= fine <= crate::dec::DEC_DP,
        x > i128::MIN,
    ensures
        trunc_to(trunc_to(x, fine), coarse) == trunc_to(x, coarse),
{
    crate::dec::lemma_trunc_trunc(x, fine, coarse);
}

/// No two consecutive entries equal.
pub open spec fn edge_triggered(h: Seq<int>) -> bool {
    forall|k: int| 1 <= k < h.len() ==> #[trigger] h[k] != h[k - 1]
}

/// In-memory last-seen-rate map with, as ghost state, the full sequence of
/// history rows the engine has written for each pair id.
pub struct DiffRateTracker {
    last: HashMap<i64, Dec>,
    hist: Ghost<Map<int, Seq<int>>>,
}

impl DiffRateTracker {
    /// The map and the ghost histories agree: a key is tracked exactly when
    /// it has history, the last history entry is the tracked rate, and no
    /// history has two equal neighbours.
    pub closed spec fn wf(self) -> bool {
        &&& forall|id: i64| #[trigger]
            self.last@.contains_key(id) <==> self.hist@.contains_key(id as int)
        &&& forall|id: i64| #[trigger] self.last@.contains_key(id) ==> {
            &&& self.hist@[id as int].len() > 0
            &&& self.hist@[id as int].last() == self.last@[id]@
            &&& edge_triggered(self.hist@[id as int])
        }
    }

    /// Rates of the history rows written for `id`, oldest first.
    pub closed spec fn history(self, id: i64) -> Seq<int> {
        if self.hist@.contains_key(id as int) {
            self.hist@[id as int]
        } else {
            Seq::empty()
        }
    }

    pub fn new() -> (t: Self)
        ensures
            t.wf(),
            forall|id: i64| #[trigger] t.history(id) == Seq::<int>::empty(),
    {
        DiffRateTracker { last: HashMap::new(), hist: Ghost(Map::tracked_empty()) }
    }

    /// Record this round's three-place rate for `id`.  Returns whether a
    /// history row must be written: exactly when the pair is new to the map
    /// or the rate differs from the last one written.  The snapshot row is
    /// refreshed by the caller regardless.
    pub fn record(&mut self, id: i64, info_rate: Dec) -> (log: bool)
        requires
            old(self).wf(),
        ensures
            final(self).wf(),
            log <==> !(old(self).history(id).len() > 0 && old(self).history(id).last()
                == info_rate@),
            log ==> final(self).history(id) == old(self).history(id).push(info_rate@),
            !log ==> final(self).history(id) == old(self).history(id),
            forall|x: i64| x != id ==> #[trigger] final(self).history(x) == old(self).history(x),
    {
        let log = match self.last.get(&id) {
            Some(prev) => *prev != info_rate,
            None => true,
        };
        if log {
            self.last.insert(id, info_rate);
            proof {
                let h0 = if old(self).hist@.contains_key(id as int) {
                    old(self).hist@[id as int]
                } else {
                    Seq::empty()
                };
                self.hist@ = self.hist@.insert(id as int, h0.push(info_rate@));
            }
            proof {
                assert forall|x: i64| #[trigger]
                    self.last@.contains_key(x) <==> self.hist@.contains_key(x as int) by {
                    if x != id {
                        assert(self.last@.contains_key(x) == old(self).last@.contains_key(x));
                    }
                }
                assert forall|x: i64| x != id implies #[trigger] self.history(x) == old(
                    self,
                ).history(x) by {
                    assert(x as int != id as int);
                }
            }
        }
        log
    }
}

/// Law: the history of any tracked pair is strictly change-triggered — no
/// two consecutive rows carry the same rate.
pub proof fn lemma_history_edge_triggered(t: DiffRateTracker, id: i64)
    requires
        t.wf(),
    ensures
        edge_triggered(t.history(id)),
{
    if t.hist@.contains_key(id as int) {
        assert(t.last@.contains_key(id));
    }
}

} // verus!
