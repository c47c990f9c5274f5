//! Sharded dispatch.
//!
//! Every running strategy or position is routed to one of a fixed set of
//! single-consumer workers by its id alone.  The routing is deterministic,
//! so all updates for one id land on the same worker — the engine's only
//! serialization boundary.

use vstd::prelude::*;

verus! {

/// Workers each dispatcher runs.
pub const SHARD_COUNT: i64 = 10;

/// The worker that owns an id: `id mod n`.
pub fn shard_of(id: i64, n: i64) -> (r: i64)
    requires
        id >= 0,
        n > 0,
    ensures
        r == id % n,
        0 <= r < n,
{
    ((id as u64) % (n as u64)) as i64
}

} // verus!
