//! The comparison circuit: a single-elimination tournament that finds the
//! highest bid, the lowest index winning every tie.
use vstd::prelude::*;

verus! {

/// The bids fed to the circuit, one per bidder slot, in submission order.
/// Unused slots hold zero.
pub struct AuctionBatch {
    pub bids: Vec<u64>,
}

/// What the circuit announces: the winning slot and its bid.
#[derive(Clone, Copy, Debug, PartialEq, Eq, Structural)]
pub struct AuctionResult {
    pub winner_index: u64,
    pub winning_bid: u64,
}

/// `i` is the first position of a maximum of `s` within `[lo, hi)`, and `v`
/// is the value there.
pub open spec fn is_first_max(s: Seq<u64>, lo: int, hi: int, i: int, v: u64) -> bool {
    &&& lo <= i < hi
    &&& s[i] == v
    &&& forall|j: int| lo <= j < hi ==> #[trigger] s[j] <= v
    &&& forall|j: int| lo <= j < i ==> #[trigger] s[j] < v
}

/// The winner of a batch: the lowest index holding the highest bid.
pub open spec fn is_winner(bids: Seq<u64>, r: AuctionResult) -> bool {
    is_first_max(bids, 0, bids.len() as int, r.winner_index as int, r.winning_bid)
}

/// Boundaries of the blocks that one round's entrants stand for: they start
/// at zero, end at `n` and strictly increase.
pub open spec fn valid_bounds(b: Seq<int>, n: int) -> bool {
    &&& b.len() >= 2
    &&& b[0] == 0
    &&& b[b.len() - 1] == n
    &&& forall|i: int, j: int| 0 <= i < j < b.len() ==> #[trigger] b[i] < #[trigger] b[j]
}

/// Oblivious select: `a` when `c` holds, else `b`, computed with a mask so
/// that no branch depends on `c`.
pub fn select(c: bool, a: u64, b: u64) -> (r: u64)
    ensures
        r == if c { a } else { b },
{
    let bit: u64 = c as u64;
    let mask: u64 = 0u64.wrapping_sub(bit);
    let r = (a & mask) | (b & !mask);
    assert(bit == 1u64 ==> (a & 0xffff_ffff_ffff_ffffu64) | (b & !0xffff_ffff_ffff_ffffu64) == a)
        by (bit_vector);
    assert(bit == 0u64 ==> (a & 0u64) | (b & !0u64) == b) by (bit_vector);
    r
}

/// One match of the tournament: the left entrant wins when its bid is at
/// least the right one's.
fn play(left: AuctionResult, right: AuctionResult) -> (r: AuctionResult)
    ensures
        r == (if left.winning_bid >= right.winning_bid { left } else { right }),
{
    let win = left.winning_bid >= right.winning_bid;
    AuctionResult {
        winner_index: select(win, left.winner_index, right.winner_index),
        winning_bid: select(win, left.winning_bid, right.winning_bid),
    }
}

/// Runs the tournament over the batch. Entrants are paired `(2k, 2k + 1)`
/// round after round; an odd one out passes to the next round unplayed.
/// The result is the lowest slot holding the highest bid.
pub fn resolve_auction(batch: &AuctionBatch) -> (r: AuctionResult)
    requires
        batch.bids.len() >= 1,
    ensures
        is_winner(batch.bids@, r),
{
    let bids = &batch.bids;
    let n = bids.len();
    let ghost s = bids@;
    let mut round: Vec<AuctionResult> = Vec::new();
    let mut i: usize = 0;
    while i < n
        invariant
            s == bids@,
            n == s.len(),
            i <= n,
            round.len() == i,
            forall|k: int|
                0 <= k < i ==> #[trigger] round@[k] == (AuctionResult {
                    winner_index: k as u64,
                    winning_bid: s[k],
                }),
        decreases n - i,
    {
        round.push(AuctionResult { winner_index: i as u64, winning_bid: bids[i] });
        i = i + 1;
    }
    let ghost mut bounds: Seq<int> = Seq::new((n + 1) as nat, |k: int| k);
    assert forall|k: int| 0 <= k < round.len() implies is_first_max(
        s,
        bounds[k],
        bounds[k + 1],
        round@[k].winner_index as int,
        round@[k].winning_bid,
    ) by {
        assert(round@[k].winner_index as int == k);
    }
    while round.len() > 1
        invariant
            s == bids@,
            round.len() >= 1,
            bounds.len() == round.len() + 1,
            valid_bounds(bounds, s.len() as int),
            forall|k: int|
                0 <= k < round.len() ==> is_first_max(
                    s,
                    bounds[k],
                    bounds[k + 1],
                    (#[trigger] round@[k]).winner_index as int,
                    round@[k].winning_bid,
                ),
        decreases round.len(),
    {
        let m = round.len();
        let half = m / 2 + m % 2;
        let ghost next_bounds: Seq<int> = Seq::new(
            (half + 1) as nat,
            |k: int|
                if k < half {
                    bounds[2 * k]
                } else {
                    bounds[m as int]
                },
        );
        let mut next: Vec<AuctionResult> = Vec::new();
        let mut k: usize = 0;
        while k < half
            invariant
                s == bids@,
                m == round.len(),
                m > 1,
                half == m / 2 + m % 2,
                k <= half,
                next.len() == k,
                bounds.len() == m + 1,
                valid_bounds(bounds, s.len() as int),
                next_bounds.len() == half + 1,
                forall|j: int|
                    0 <= j <= half ==> #[trigger] next_bounds[j] == if j < half {
                        bounds[2 * j]
                    } else {
                        bounds[m as int]
                    },
                forall|j: int|
                    0 <= j < m ==> is_first_max(
                        s,
                        bounds[j],
                        bounds[j + 1],
                        (#[trigger] round@[j]).winner_index as int,
                        round@[j].winning_bid,
                    ),
                forall|j: int|
                    0 <= j < k ==> is_first_max(
                        s,
                        next_bounds[j],
                        next_bounds[j + 1],
                        (#[trigger] next@[j]).winner_index as int,
                        next@[j].winning_bid,
                    ),
            decreases half - k,
        {
            let left = 2 * k;
            let ghost kk = k as int;
            assert(next_bounds[kk] == bounds[2 * kk]);
            if left + 1 < m {
                let w = play(round[left], round[left + 1]);
                proof {
                    let lo = bounds[2 * kk];
                    let mid = bounds[2 * kk + 1];
                    let hi = bounds[2 * kk + 2];
                    assert(is_first_max(s, lo, mid, round@[2 * kk].winner_index as int, round@[2 * kk].winning_bid));
                    assert(is_first_max(s, mid, hi, round@[2 * kk + 1].winner_index as int, round@[2 * kk + 1].winning_bid));
                    assert(lo < mid < hi) by {
                        assert(bounds[2 * kk] < bounds[2 * kk + 1]);
                        assert(bounds[2 * kk + 1] < bounds[2 * kk + 2]);
                    }
                    if kk + 1 < half {
                        assert(next_bounds[kk + 1] == hi);
                    } else {
                        assert(2 * kk + 2 == m);
                        assert(next_bounds[kk + 1] == hi);
                    }
                    assert(is_first_max(s, lo, hi, w.winner_index as int, w.winning_bid));
                }
                next.push(w);
            } else {
                proof {
                    assert(2 * kk + 1 == m);
                    assert(next_bounds[kk + 1] == bounds[2 * kk + 1]);
                }
                next.push(round[left]);
            }
            k = k + 1;
        }
        proof {
            assert forall|i: int, j: int|
                0 <= i < j < next_bounds.len() implies #[trigger] next_bounds[i]
                < #[trigger] next_bounds[j] by {
                if j < half {
                    assert(bounds[2 * i] < bounds[2 * j]);
                } else {
                    assert(bounds[2 * i] < bounds[m as int]);
                }
            }
            bounds = next_bounds;
        }
        round = next;
    }
    let r = round[0];
    r
}

/// Zero padding after the real bids never wins: when the first `k >= 1`
/// slots hold the real bids and every later slot holds zero, the winner is
/// a real bid, and it is the winner among the real bids alone. A real bid
/// of zero that ties with the padding wins by its lower index.
pub proof fn lemma_padding_never_wins(bids: Seq<u64>, k: int, r: AuctionResult)
    requires
        1 <= k <= bids.len(),
        forall|i: int| k <= i < bids.len() ==> #[trigger] bids[i] == 0,
        is_winner(bids, r),
    ensures
        r.winner_index < k,
        is_first_max(bids, 0, k, r.winner_index as int, r.winning_bid),
{
    if r.winner_index >= k {
        assert(bids[r.winner_index as int] == 0);
        assert(bids[0] <= r.winning_bid);
        assert(bids[0] < r.winning_bid);
    }
}

} // verus!
