//! The reverse auction: workers bid for a task, and the delegator picks the
//! bid with the best score of reputation, price efficiency and latency.
use crate::error::{result_view, HiveError, HiveErrorView};
use crate::registry::{reputation_of, AgentRegistry};
use crate::types::AgentId;
use vstd::prelude::*;

verus! {

/// A worker's offer for a task.
#[derive(Debug, Clone)]
pub struct CandidateBid {
    pub worker_id: AgentId,
    pub bid_bounty: u64,
    pub estimated_duration_ms: u64,
    pub reputation_score: u32,
}

/// Picks the winning bid of an auction.
pub struct AuctionMatcher;

/// The bounty a worker asks: the maximum less a discount of at most 50
/// percent, and at least 1.
pub open spec fn dynamic_bid_bounty(max_bounty: u64, discount_percent: u64) -> nat {
    let pct = if discount_percent < 50 {
        discount_percent
    } else {
        50
    };
    let discount = (max_bounty * pct) / 100;
    let asked = max_bounty - discount;
    if asked < 1 {
        1
    } else {
        asked as nat
    }
}

/// The price factor of a bid: how many hundredths of the maximum bounty
/// one unit of the asked bounty buys (100 for a bid of 0).
pub open spec fn price_factor(bid: CandidateBid, max_bounty: u64) -> nat {
    if bid.bid_bounty == 0 {
        100
    } else {
        ((max_bounty * 100) / (bid.bid_bounty as int)) as nat
    }
}

/// The latency penalty of a bid: its estimated duration in units of 50 ms,
/// and at least 1.
pub open spec fn latency_penalty(bid: CandidateBid) -> nat {
    if bid.estimated_duration_ms / 50 < 1 {
        1
    } else {
        (bid.estimated_duration_ms / 50) as nat
    }
}

/// The score of a bid: reputation times price factor, divided by the
/// latency penalty.
pub open spec fn bid_score(bid: CandidateBid, max_bounty: u64) -> nat {
    ((bid.reputation_score as nat) * price_factor(bid, max_bounty)) / latency_penalty(bid)
}

/// Whether scoring `bid` stays within 64-bit arithmetic.
pub open spec fn score_fits(bid: CandidateBid, max_bounty: u64) -> bool {
    &&& max_bounty * 100 <= u64::MAX
    &&& bid.reputation_score * price_factor(bid, max_bounty) <= u64::MAX
}

/// `bids[i]` has the highest score, and no earlier bid ties it.
pub open spec fn is_best_bid(bids: Seq<CandidateBid>, max_bounty: u64, i: int) -> bool {
    &&& 0 <= i < bids.len()
    &&& forall|j: int| 0 <= j < bids.len() ==> bid_score(bids[j], max_bounty) <= bid_score(
        bids[i],
        max_bounty,
    )
    &&& forall|j: int| 0 <= j < i ==> bid_score(bids[j], max_bounty) < bid_score(
        bids[i],
        max_bounty,
    )
}

impl CandidateBid {
    /// A bid from `worker_id` for a task worth at most `max_bounty`, with the
    /// worker's reputation from the registry and the measured latency.
    pub fn create_dynamic_bid(
        worker_id: &str,
        max_bounty: u64,
        discount_percent: u64,
        measured_latency_ms: u64,
        registry: &AgentRegistry,
    ) -> (r: Self)
        requires
            registry.wf(),
            max_bounty * (if discount_percent < 50 {
                discount_percent
            } else {
                50
            }) <= u64::MAX,
        ensures
            r.worker_id@ == worker_id@,
            r.bid_bounty == dynamic_bid_bounty(max_bounty, discount_percent),
            r.estimated_duration_ms == measured_latency_ms,
            r.reputation_score == reputation_of(registry@, worker_id@),
    {
        let reputation_score = registry.get_reputation(worker_id);
        let pct = if discount_percent < 50 {
            discount_percent
        } else {
            50
        };
        let discount = (max_bounty * pct) / 100;
        let asked = max_bounty.saturating_sub(discount);
        let bid_bounty = if asked < 1 {
            1
        } else {
            asked
        };
        CandidateBid {
            worker_id: String::from_str(worker_id),
            bid_bounty,
            estimated_duration_ms: measured_latency_ms,
            reputation_score,
        }
    }

    fn copy(&self) -> (r: Self)
        ensures
            r == *self,
    {
        CandidateBid {
            worker_id: self.worker_id.clone(),
            bid_bounty: self.bid_bounty,
            estimated_duration_ms: self.estimated_duration_ms,
            reputation_score: self.reputation_score,
        }
    }
}

impl AuctionMatcher {
    /// The score of a bid.
    fn compute_score(bid: &CandidateBid, max_bounty: u64) -> (r: u64)
        requires
            score_fits(*bid, max_bounty),
        ensures
            r == bid_score(*bid, max_bounty),
    {
        let price_factor = match (max_bounty * 100).checked_div(bid.bid_bounty) {
            Some(q) => q,
            None => 100,
        };
        let rep_factor = bid.reputation_score as u64;
        let d = bid.estimated_duration_ms / 50;
        let latency_penalty = if d < 1 {
            1
        } else {
            d
        };
        (rep_factor * price_factor) / latency_penalty
    }

    /// The bid with the highest score, the earliest of equal ones; an error
    /// when there is no bid.
    pub fn select_best_bid(bids: &[CandidateBid], max_bounty: u64) -> (r: Result<
        CandidateBid,
        HiveError,
    >)
        requires
            bids@.len() >= 2 ==> forall|i: int|
                0 <= i < bids@.len() ==> score_fits(#[trigger] bids@[i], max_bounty),
        ensures
            r is Ok <==> bids@.len() > 0,
            r matches Ok(b) ==> exists|i: int| is_best_bid(bids@, max_bounty, i) && b == bids@[i],
            r is Err ==> result_view(r) == Err::<CandidateBid, HiveErrorView>(
                HiveErrorView::TaskExecution("No bids received for RFQ"@),
            ),
    {
        if bids.len() == 0 {
            return Err(HiveError::TaskExecutionError(String::from_str("No bids received for RFQ")));
        }
        if bids.len() == 1 {
            assert(is_best_bid(bids@, max_bounty, 0));
            return Ok(bids[0].copy());
        }
        let mut best: usize = 0;
        let mut best_score = Self::compute_score(&bids[0], max_bounty);
        let mut i: usize = 1;
        while i < bids.len()
            invariant
                bids@.len() >= 2,
                forall|k: int| 0 <= k < bids@.len() ==> score_fits(#[trigger] bids@[k], max_bounty),
                1 <= i <= bids@.len(),
                best < i,
                best_score == bid_score(bids@[best as int], max_bounty),
                forall|j: int| 0 <= j < i ==> bid_score(bids@[j], max_bounty) <= best_score,
                forall|j: int| 0 <= j < best ==> bid_score(bids@[j], max_bounty) < best_score,
            decreases bids.len() - i,
        {
            let s = Self::compute_score(&bids[i], max_bounty);
            if s > best_score {
                best = i;
                best_score = s;
            }
            i = i + 1;
        }
        assert(is_best_bid(bids@, max_bounty, best as int));
        Ok(bids[best].copy())
    }
}

// ---------------------------------------------------------------------------
// Laws
// ---------------------------------------------------------------------------

/// Only one bid can be the best.
pub proof fn lemma_best_bid_unique(bids: Seq<CandidateBid>, max_bounty: u64, i: int, j: int)
    requires
        is_best_bid(bids, max_bounty, i),
        is_best_bid(bids, max_bounty, j),
    ensures
        i == j,
{
    let si = bid_score(bids[i], max_bounty);
    let sj = bid_score(bids[j], max_bounty);
    if i < j {
        assert(si < sj);
        assert(sj <= si);
    } else if j < i {
        assert(sj < si);
        assert(si <= sj);
    }
}

/// Of two bids alike but for latency, the faster one scores at least as high.
pub proof fn lemma_faster_bid_scores_higher(fast: CandidateBid, slow: CandidateBid, max_bounty: u64)
    requires
        fast.bid_bounty == slow.bid_bounty,
        fast.reputation_score == slow.reputation_score,
        fast.estimated_duration_ms <= slow.estimated_duration_ms,
    ensures
        bid_score(fast, max_bounty) >= bid_score(slow, max_bounty),
{
    let n: nat = (fast.reputation_score as nat) * price_factor(fast, max_bounty);
    assert(latency_penalty(fast) <= latency_penalty(slow)) by (nonlinear_arith)
        requires
            fast.estimated_duration_ms <= slow.estimated_duration_ms,
            latency_penalty(fast) == (if fast.estimated_duration_ms / 50 < 1 {
                1
            } else {
                (fast.estimated_duration_ms / 50) as nat
            }),
            latency_penalty(slow) == (if slow.estimated_duration_ms / 50 < 1 {
                1
            } else {
                (slow.estimated_duration_ms / 50) as nat
            }),
    ;
    assert(n / latency_penalty(fast) >= n / latency_penalty(slow)) by (nonlinear_arith)
        requires
            n >= 0,
            1 <= latency_penalty(fast) <= latency_penalty(slow),
    ;
}

/// A dynamic bid never asks more than the maximum bounty (when that is at
/// least 1), nor less than half of it, nor less than 1.
pub proof fn lemma_dynamic_bid_bounds(max_bounty: u64, discount_percent: u64)
    ensures
        dynamic_bid_bounty(max_bounty, discount_percent) >= 1,
        max_bounty >= 1 ==> dynamic_bid_bounty(max_bounty, discount_percent) <= max_bounty,
        dynamic_bid_bounty(max_bounty, discount_percent) * 2 >= max_bounty,
{
    let pct: int = if discount_percent < 50 {
        discount_percent as int
    } else {
        50
    };
    assert((max_bounty * pct) / 100 <= max_bounty / 2) by (nonlinear_arith)
        requires
            0 <= pct <= 50,
            max_bounty >= 0,
    ;
    assert((max_bounty * pct) / 100 >= 0) by (nonlinear_arith)
        requires
            0 <= pct <= 50,
            max_bounty >= 0,
    ;
}

/// A duration in whole units of 50 ms, counted as at least one unit.
pub open spec fn duration_units(ms: u64) -> int {
    if ms / 50 < 1 {
        1
    } else {
        (ms / 50) as int
    }
}

proof fn lemma_floor_div_strict(n: int, a: int, b: int)
    requires
        1 <= a < b,
        n >= a * b,
    ensures
        n / a > n / b,
{
    let q = n / b;
    assert(q * b <= n) by (nonlinear_arith)
        requires
            q == n / b,
            b >= 1,
    ;
    assert(a * (q + 1) <= n) by (nonlinear_arith)
        requires
            q * b <= n,
            n >= a * b,
            1 <= a < b,
            q >= 0,
    ;
    assert(n / a >= q + 1) by (nonlinear_arith)
        requires
            a * (q + 1) <= n,
            a >= 1,
    ;
}

/// Latency strictly matters: of two bids asking the same bounty with the
/// same reputation, the one estimated in fewer whole 50 ms units scores
/// strictly higher, once reputation times price factor reaches the product
/// of the two unit counts (so that integer division cannot blur the
/// difference).
pub proof fn lemma_lower_latency_scores_strictly_higher(
    fast: CandidateBid,
    slow: CandidateBid,
    max_bounty: u64,
)
    requires
        fast.bid_bounty == slow.bid_bounty,
        fast.bid_bounty > 0,
        fast.reputation_score == slow.reputation_score,
        duration_units(fast.estimated_duration_ms) < duration_units(slow.estimated_duration_ms),
        (fast.reputation_score as int) * ((max_bounty * 100) / (fast.bid_bounty as int))
            >= duration_units(fast.estimated_duration_ms) * duration_units(
            slow.estimated_duration_ms,
        ),
    ensures
        bid_score(fast, max_bounty) > bid_score(slow, max_bounty),
{
    let n = (fast.reputation_score as int) * ((max_bounty * 100) / (fast.bid_bounty as int));
    assert(price_factor(fast, max_bounty) == (max_bounty * 100) / (fast.bid_bounty as int));
    assert(price_factor(slow, max_bounty) == price_factor(fast, max_bounty));
    lemma_floor_div_strict(
        n,
        duration_units(fast.estimated_duration_ms),
        duration_units(slow.estimated_duration_ms),
    );
}

} // verus!
