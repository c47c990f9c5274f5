//! Incremental candle window.
//!
//! A `KlineWindow` is a fixed-capacity run of candles, strictly ascending by
//! open time.  The first fetch stores the window verbatim; afterwards only a
//! small page at or after the last cached open time arrives, whose first
//! candle refreshes the still-open last entry and whose remainder slides the
//! window — oldest evicted, newest appended — so the length never grows.

use vstd::prelude::*;
use crate::dec::{Dec, MAX_UNITS};

verus! {

/// One OHLC candle; prices at fixed scale, open time in epoch milliseconds.
#[derive(Clone, Copy, Debug)]
pub struct Candle {
    pub open_time: i64,
    pub open: Dec,
    pub high: Dec,
    pub low: Dec,
    pub close: Dec,
}

impl Candle {
    /// Prices nonnegative and inside the numeric envelope.
    pub open spec fn wf(self) -> bool {
        &&& 0 <= self.open@ <= MAX_UNITS
        &&& 0 <= self.high@ <= MAX_UNITS
        &&& 0 <= self.low@ <= MAX_UNITS
        &&& 0 <= self.close@ <= MAX_UNITS
    }
}

/// Strictly ascending by open time.
pub open spec fn ascending(cs: Seq<Candle>) -> bool {
    forall|i: int| 0 <= i < cs.len() - 1 ==> (#[trigger] cs[i]).open_time < cs[i + 1].open_time
}

pub open spec fn all_wf(cs: Seq<Candle>) -> bool {
    forall|i: int| 0 <= i < cs.len() ==> (#[trigger] cs[i]).wf()
}

/// Evict the oldest candle and append a new one: the window keeps its
/// length.
pub open spec fn evict_push(w: Seq<Candle>, c: Candle) -> Seq<Candle> {
    w.drop_first().push(c)
}

/// Slide the window through `fresh[k..]`, one evict-and-append per candle.
pub open spec fn slide_rest(w: Seq<Candle>, fresh: Seq<Candle>, k: int) -> Seq<Candle>
    decreases fresh.len() - k,
{
    if k < 0 || k >= fresh.len() {
        w
    } else {
        slide_rest(evict_push(w, fresh[k]), fresh, k + 1)
    }
}

/// The whole incremental update: the first fresh candle replaces the last
/// cached entry (the still-open candle refreshed), the rest slide the
/// window.
pub open spec fn slide(w: Seq<Candle>, fresh: Seq<Candle>) -> Seq<Candle>
    recommends
        w.len() >= 1,
        fresh.len() >= 1,
{
    slide_rest(w.update(w.len() - 1, fresh[0]), fresh, 1)
}

/// When an incremental page applies: the window is populated, and a
/// nonempty page is itself ascending, well formed, and starts after the
/// second-to-last cached open time (it refreshes the last entry).
pub open spec fn accepts(w: Seq<Candle>, fresh: Seq<Candle>) -> bool {
    &&& w.len() >= 1
    &&& fresh.len() > 0 ==> {
        &&& ascending(fresh)
        &&& all_wf(fresh)
        &&& w.len() >= 2 ==> fresh[0].open_time > w[w.len() - 2].open_time
    }
}

proof fn lemma_slide_rest_props(w: Seq<Candle>, fresh: Seq<Candle>, k: int)
    requires
        1 <= k <= fresh.len(),
        w.len() >= 1,
        ascending(w),
        all_wf(w),
        ascending(fresh),
        all_wf(fresh),
        w.last() == fresh[k - 1],
    ensures
        slide_rest(w, fresh, k).len() == w.len(),
        ascending(slide_rest(w, fresh, k)),
        all_wf(slide_rest(w, fresh, k)),
    decreases fresh.len() - k,
{
    if k < fresh.len() {
        let w2 = evict_push(w, fresh[k]);
        assert(w2.len() == w.len());
        assert(w2.last() == fresh[k]);
        assert forall|i: int| 0 <= i < w2.len() - 1 implies (#[trigger] w2[i]).open_time < w2[i
            + 1].open_time by {
            if i + 1 < w2.len() - 1 {
                assert(w2[i] == w[i + 1]);
                assert(w2[i + 1] == w[i + 2]);
            } else {
                assert(w2[i] == w.last());
                assert(fresh[k - 1].open_time < fresh[k].open_time);
            }
        }
        assert forall|i: int| 0 <= i < w2.len() implies (#[trigger] w2[i]).wf() by {
            if i < w2.len() - 1 {
                assert(w2[i] == w[i + 1]);
            }
        }
        lemma_slide_rest_props(w2, fresh, k + 1);
    }
}

/// Whether the candles are strictly time-ordered with prices in the
/// envelope.
fn check_candles(cs: &Vec<Candle>) -> (r: bool)
    ensures
        r == (ascending(cs@) && all_wf(cs@)),
{
    let mut i: usize = 0;
    while i < cs.len()
        invariant
            i <= cs@.len(),
            forall|j: int| 0 <= j < i && j + 1 < cs@.len() ==> (#[trigger] cs@[j]).open_time
                < cs@[j + 1].open_time,
            forall|j: int| 0 <= j < i ==> (#[trigger] cs@[j]).wf(),
        decreases cs@.len() - i,
    {
        let c = &cs[i];
        if !(c.open.units >= 0 && c.open.units <= MAX_UNITS && c.high.units >= 0
            && c.high.units <= MAX_UNITS && c.low.units >= 0 && c.low.units <= MAX_UNITS
            && c.close.units >= 0 && c.close.units <= MAX_UNITS) {
            assert(!cs@[i as int].wf());
            return false;
        }
        if i + 1 < cs.len() && !(cs[i].open_time < cs[i + 1].open_time) {
            assert(!ascending(cs@));
            return false;
        }
        i = i + 1;
    }
    true
}

/// Fixed-capacity, time-ordered candle window.
#[derive(Clone, Debug)]
pub struct KlineWindow {
    capacity: usize,
    candles: Vec<Candle>,
}

impl View for KlineWindow {
    type V = Seq<Candle>;

    closed spec fn view(&self) -> Seq<Candle> {
        self.candles@
    }
}

impl KlineWindow {
    pub closed spec fn cap(self) -> int {
        self.capacity as int
    }

    /// Never above capacity, strictly time-ordered, prices in the envelope.
    pub open spec fn wf(self) -> bool {
        &&& self.cap() >= 1
        &&& self@.len() <= self.cap()
        &&& ascending(self@)
        &&& all_wf(self@)
    }

    /// A window over a first full fetch, stored verbatim; nothing when the
    /// fetch does not fit the capacity or is out of order.
    pub fn new(capacity: usize, fetched: Vec<Candle>) -> (r: Option<KlineWindow>)
        ensures
            r is Some <==> (capacity >= 1 && fetched@.len() <= capacity && ascending(fetched@)
                && all_wf(fetched@)),
            r matches Some(w) ==> w.wf() && w@ == fetched@ && w.cap() == capacity,
    {
        if capacity == 0 || fetched.len() > capacity {
            return None;
        }
        if !check_candles(&fetched) {
            return None;
        }
        Some(KlineWindow { capacity, candles: fetched })
    }

    /// Apply one incremental page.  Accepted pages leave the window well
    /// formed at unchanged length; a page that does not apply (empty window,
    /// out-of-order or out-of-envelope candles) leaves it untouched, and an
    /// empty page is a no-op.
    #[verifier::rlimit(60)]
    pub fn apply_increment(&mut self, fresh: &Vec<Candle>) -> (ok: bool)
        requires
            old(self).wf(),
        ensures
            final(self).wf(),
            final(self).cap() == old(self).cap(),
            ok <==> accepts(old(self)@, fresh@),
            (ok && fresh@.len() > 0) ==> final(self)@ == slide(old(self)@, fresh@) && final(
            self)@.len() == old(self)@.len(),
            (!ok || fresh@.len() == 0) ==> final(self)@ == old(self)@,
    {
        let n = self.candles.len();
        if n == 0 {
            return false;
        }
        if fresh.len() == 0 {
            return true;
        }
        if !check_candles(fresh) {
            return false;
        }
        if n >= 2 && !(fresh[0].open_time > self.candles[n - 2].open_time) {
            return false;
        }
        let ghost w0 = self.candles@;
        self.candles.set(n - 1, fresh[0]);
        let ghost wr = self.candles@;
        proof {
            assert(wr == w0.update(w0.len() - 1, fresh@[0]));
        }
        let mut k: usize = 1;
        while k < fresh.len()
            invariant
                1 <= k <= fresh@.len(),
                self.capacity == old(self).capacity,
                self.candles@.len() == wr.len(),
                wr.len() == w0.len() >= 1,
                slide_rest(wr, fresh@, 1) == slide_rest(self.candles@, fresh@, k as int),
            decreases fresh@.len() - k,
        {
            let ghost cur = self.candles@;
            self.candles.remove(0);
            self.candles.push(fresh[k]);
            proof {
                assert(self.candles@ =~= evict_push(cur, fresh@[k as int]));
            }
            k = k + 1;
        }
        proof {
            assert(ascending(wr) && all_wf(wr)) by {
                assert forall|j: int| 0 <= j < wr.len() - 1 implies (#[trigger] wr[j]).open_time
                    < wr[j + 1].open_time by {
                    if j + 1 < wr.len() - 1 {
                        assert(wr[j] == w0[j]);
                        assert(wr[j + 1] == w0[j + 1]);
                    } else {
                        assert(wr[j] == w0[j]);
                    }
                }
                assert forall|j: int| 0 <= j < wr.len() implies (#[trigger] wr[j]).wf() by {
                    if j < wr.len() - 1 {
                        assert(wr[j] == w0[j]);
                    }
                }
            }
            lemma_slide_rest_props(wr, fresh@, 1);
        }
        true
    }

    /// The cached candles, oldest first.
    pub fn candles(&self) -> (r: &Vec<Candle>)
        ensures
            r@ == self@,
    {
        &self.candles
    }

    /// Number of cached candles.
    pub fn len(&self) -> (r: usize)
        ensures
            r == self@.len(),
    {
        self.candles.len()
    }
}

} // verus!
