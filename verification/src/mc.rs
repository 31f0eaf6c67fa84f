//! Monte Carlo move support: selection of the molecule a move acts on.
//!
//! A move may be restricted to molecules of one type (a type is a small
//! integer fingerprint of the molecule). Selection draws uniformly among the
//! eligible molecules; the random draw is the only unverified step, and the
//! choice made from the draw is exact.

use vstd::prelude::*;

verus! {

/// Does a molecule of type `moltype` pass the move's type filter?
pub open spec fn filter_matches(moltype: u64, filter: Option<u64>) -> bool {
    match filter {
        None => true,
        Some(t) => moltype == t,
    }
}

/// The indices of the eligible molecules among the first `n`, in increasing
/// order.
pub open spec fn candidates_upto(moltypes: Seq<u64>, filter: Option<u64>, n: int) -> Seq<int>
    decreases n,
{
    if n <= 0 {
        Seq::empty()
    } else if filter_matches(moltypes[n - 1], filter) {
        candidates_upto(moltypes, filter, n - 1).push(n - 1)
    } else {
        candidates_upto(moltypes, filter, n - 1)
    }
}

/// The indices of all eligible molecules, in increasing order.
pub open spec fn candidates(moltypes: Seq<u64>, filter: Option<u64>) -> Seq<int> {
    candidates_upto(moltypes, filter, moltypes.len() as int)
}

/// Every candidate is a real molecule index and passes the filter, and the
/// candidates are listed in strictly increasing order: each eligible molecule
/// is listed once.
pub proof fn lemma_candidates_eligible(moltypes: Seq<u64>, filter: Option<u64>, n: int)
    requires
        n <= moltypes.len(),
    ensures
        forall|k: int|
            0 <= k < candidates_upto(moltypes, filter, n).len() ==> {
                let c = #[trigger] candidates_upto(moltypes, filter, n)[k];
                0 <= c < n && filter_matches(moltypes[c], filter)
            },
        forall|k: int, l: int|
            0 <= k < l < candidates_upto(moltypes, filter, n).len()
                ==> #[trigger] candidates_upto(moltypes, filter, n)[k] < #[trigger] candidates_upto(
                moltypes,
                filter,
                n,
            )[l],
    decreases n,
{
    if n > 0 {
        lemma_candidates_eligible(moltypes, filter, n - 1);
        let prev = candidates_upto(moltypes, filter, n - 1);
        let cur = candidates_upto(moltypes, filter, n);
        if filter_matches(moltypes[n - 1], filter) {
            assert(cur == prev.push(n - 1));
            assert forall|k: int|
                0 <= k < cur.len() implies {
                let c = #[trigger] cur[k];
                0 <= c < n && filter_matches(moltypes[c], filter)
            } by {
                if k < prev.len() {
                    assert(cur[k] == prev[k]);
                } else {
                    assert(cur[k] == n - 1);
                }
            }
            assert forall|k: int, l: int|
                0 <= k < l < cur.len() implies #[trigger] cur[k] < #[trigger] cur[l] by {
                if l < prev.len() {
                    assert(cur[k] == prev[k] && cur[l] == prev[l]);
                } else {
                    assert(cur[k] == prev[k] && cur[l] == n - 1);
                }
            }
        } else {
            assert(cur == prev);
        }
    }
}

/// An eligible molecule is always among the candidates.
pub proof fn lemma_eligible_is_candidate(
    moltypes: Seq<u64>,
    filter: Option<u64>,
    n: int,
    i: int,
)
    requires
        0 <= i < n <= moltypes.len(),
        filter_matches(moltypes[i], filter),
    ensures
        candidates_upto(moltypes, filter, n).contains(i),
    decreases n,
{
    if i == n - 1 {
        assert(candidates_upto(moltypes, filter, n).last() == i);
    } else {
        lemma_eligible_is_candidate(moltypes, filter, n - 1, i);
        let prefix = candidates_upto(moltypes, filter, n - 1);
        let k = choose|k: int| 0 <= k < prefix.len() && prefix[k] == i;
        assert(candidates_upto(moltypes, filter, n)[k] == i);
    }
}

/// How many molecules are eligible for a move filtered by `filter`, given
/// the types of all molecules in the system.
pub fn eligible_count(moltypes: &Vec<u64>, filter: Option<u64>) -> (n: usize)
    ensures
        n == candidates(moltypes@, filter).len(),
{
    let total = moltypes.len();
    let mut count: usize = 0;
    let mut i: usize = 0;
    while i < total
        invariant
            total == moltypes@.len(),
            i <= total,
            count <= i,
            count == candidates_upto(moltypes@, filter, i as int).len(),
        decreases total - i,
    {
        let eligible = match filter {
            None => true,
            Some(t) => moltypes[i] == t,
        };
        if eligible {
            count += 1;
        }
        i += 1;
    }
    count
}

/// The index of the `k`-th eligible molecule, counting in increasing index
/// order; `None` when fewer than `k + 1` molecules are eligible.
pub fn nth_eligible(moltypes: &Vec<u64>, filter: Option<u64>, k: usize) -> (r: Option<usize>)
    ensures
        k < candidates(moltypes@, filter).len() ==> r == Some(
            candidates(moltypes@, filter)[k as int] as usize,
        ),
        k >= candidates(moltypes@, filter).len() ==> r is None,
{
    let total = moltypes.len();
    let mut seen: usize = 0;
    let mut i: usize = 0;
    while i < total
        invariant
            total == moltypes@.len(),
            i <= total,
            seen <= k,
            seen == candidates_upto(moltypes@, filter, i as int).len(),
        decreases total - i,
    {
        let eligible = match filter {
            None => true,
            Some(t) => moltypes[i] == t,
        };
        if eligible {
            proof {
                lemma_candidates_prefix(moltypes@, filter, i as int + 1, total as int);
                let next = candidates_upto(moltypes@, filter, i as int + 1);
                let all = candidates(moltypes@, filter);
                assert(next == candidates_upto(moltypes@, filter, i as int).push(i as int));
                assert(next.len() == seen + 1);
                assert(next == all.take(seen as int + 1));
                assert(seen + 1 <= all.len());
                assert(all.take(seen as int + 1)[seen as int] == all[seen as int]);
                assert(all[seen as int] == i as int);
            }
            if seen == k {
                return Some(i);
            }
            seen += 1;
        }
        i += 1;
    }
    None
}

/// Per-move acceptance statistics of a Monte Carlo run: for every registered
/// move, how many proposals were attempted and how many of them were
/// accepted, kept for diagnostics.
pub struct MoveStatistics {
    /// One `(accepted, attempted)` counter pair per registered move.
    counters: Vec<(u64, u64)>,
}

impl MoveStatistics {
    /// The `(accepted, attempted)` counters, one pair per move.
    pub closed spec fn view(&self) -> Seq<(u64, u64)> {
        self.counters@
    }

    /// No move has more acceptances than attempts.
    pub open spec fn wf(&self) -> bool {
        forall|k: int| 0 <= k < self@.len() ==> (#[trigger] self@[k]).0 <= self@[k].1
    }

    /// Statistics with no move registered yet.
    pub fn new() -> (stats: MoveStatistics)
        ensures
            stats.wf(),
            stats@ == Seq::<(u64, u64)>::empty(),
    {
        MoveStatistics { counters: Vec::new() }
    }

    /// Register one more move, with nothing attempted yet.
    pub fn register_move(&mut self)
        requires
            old(self)@.len() < usize::MAX,
        ensures
            final(self)@ == old(self)@.push((0u64, 0u64)),
            old(self).wf() ==> final(self).wf(),
    {
        self.counters.push((0, 0));
    }

    /// Tally one proposal of move `index`.
    pub fn record_attempt(&mut self, index: usize)
        requires
            old(self).wf(),
            index < old(self)@.len(),
            old(self)@[index as int].1 < u64::MAX,
        ensures
            final(self).wf(),
            final(self)@ == old(self)@.update(
                index as int,
                (old(self)@[index as int].0, (old(self)@[index as int].1 + 1) as u64),
            ),
    {
        let (accepted, attempted) = self.counters[index];
        self.counters[index] = (accepted, attempted + 1);
    }

    /// Tally the acceptance of the last proposal of move `index`: only a
    /// tallied attempt can be accepted, so acceptances stay below attempts.
    pub fn record_acceptance(&mut self, index: usize)
        requires
            old(self).wf(),
            index < old(self)@.len(),
            old(self)@[index as int].0 < old(self)@[index as int].1,
        ensures
            final(self).wf(),
            final(self)@ == old(self)@.update(
                index as int,
                ((old(self)@[index as int].0 + 1) as u64, old(self)@[index as int].1),
            ),
    {
        let (accepted, attempted) = self.counters[index];
        self.counters[index] = (accepted + 1, attempted);
    }

    /// The number of registered moves.
    pub fn len(&self) -> (n: usize)
        ensures
            n == self@.len(),
    {
        self.counters.len()
    }

    /// The `(accepted, attempted)` counters of move `index`.
    pub fn counts(&self, index: usize) -> (r: (u64, u64))
        requires
            index < self@.len(),
        ensures
            r == self@[index as int],
    {
        self.counters[index]
    }
}

#[verifier::external_type_specification]
#[verifier::external_body]
pub struct ExStdRng(rand::rngs::StdRng);

/// Relies on rand's `RngExt::random_range` over `0..n`: the draw lies in the
/// half-open range, so it is below `n`. Nothing more is assumed of a random
/// draw.
#[verifier::external_body]
fn random_below(rng: &mut rand::rngs::StdRng, n: usize) -> (r: usize)
    requires
        n > 0,
    ensures
        r < n,
{
    rand::RngExt::random_range(rng, 0..n)
}

/// Select the molecule a move acts on: one drawn uniformly among the
/// molecules passing the move's type filter. `None` exactly when no molecule
/// is eligible; a selected molecule always exists and passes the filter.
pub fn select_molecule(
    moltypes: &Vec<u64>,
    filter: Option<u64>,
    rng: &mut rand::rngs::StdRng,
) -> (r: Option<usize>)
    ensures
        r is Some <==> candidates(moltypes@, filter).len() > 0,
        r matches Some(i) ==> i < moltypes@.len() && filter_matches(moltypes@[i as int], filter),
{
    let total = moltypes.len();
    let count = eligible_count(moltypes, filter);
    if count == 0 {
        return None;
    }
    let pick = random_below(rng, count);
    proof {
        lemma_candidates_eligible(moltypes@, filter, moltypes@.len() as int);
    }
    let r = nth_eligible(moltypes, filter, pick);
    proof {
        let c = candidates(moltypes@, filter)[pick as int];
        assert(0 <= c < total);
        assert(c as usize as int == c);
    }
    r
}

/// The candidates among the first `n` molecules are a prefix of the
/// candidates among the first `m`, for `n <= m`.
proof fn lemma_candidates_prefix(moltypes: Seq<u64>, filter: Option<u64>, n: int, m: int)
    requires
        0 <= n <= m <= moltypes.len(),
    ensures
        candidates_upto(moltypes, filter, n).len() <= candidates_upto(moltypes, filter, m).len(),
        candidates_upto(moltypes, filter, n) == candidates_upto(moltypes, filter, m).take(
            candidates_upto(moltypes, filter, n).len() as int,
        ),
    decreases m - n,
{
    let short = candidates_upto(moltypes, filter, n);
    if n == m {
        assert(short =~= short.take(short.len() as int));
    } else {
        lemma_candidates_prefix(moltypes, filter, n, m - 1);
        let mid = candidates_upto(moltypes, filter, m - 1);
        let long = candidates_upto(moltypes, filter, m);
        if filter_matches(moltypes[m - 1], filter) {
            assert(long == mid.push(m - 1));
            assert(mid.take(short.len() as int) =~= long.take(short.len() as int));
        }
    }
}

} // verus!
