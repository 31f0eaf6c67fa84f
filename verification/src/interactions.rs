//! Registry of pairwise interactions, keyed by an unordered pair of particle
//! kinds.
//!
//! The potentials themselves are floating-point objects owned by the caller;
//! the registry stores for each kind pair a handle (the caller's index for
//! the potential), so that looking an interaction up by `(i, j)` or by
//! `(j, i)` always lands on the same potential.

use vstd::prelude::*;

use crate::kinds::ParticleKind;

verus! {

/// The canonical form of an unordered pair of kinds: smaller kind first.
pub open spec fn pair_key(i: ParticleKind, j: ParticleKind) -> (u32, u32) {
    if i.0 <= j.0 {
        (i.0, j.0)
    } else {
        (j.0, i.0)
    }
}

/// Registry of pair interactions: each normalized kind pair maps to at most
/// one potential handle.
pub struct PairInteractions {
    entries: Vec<(u32, u32, usize)>,
}

impl PairInteractions {
    /// The registered entries: `(smaller kind, larger kind, potential handle)`.
    pub closed spec fn view(&self) -> Seq<(u32, u32, usize)> {
        self.entries@
    }

    /// Well-formedness: every stored key is in canonical order, and no key
    /// occurs twice.
    pub closed spec fn wf(&self) -> bool {
        &&& forall|k: int| 0 <= k < self@.len() ==> (#[trigger] self@[k]).0 <= self@[k].1
        &&& forall|k: int, l: int|
            0 <= k < l < self@.len() ==> ((#[trigger] self@[k]).0, self@[k].1) != ((
            #[trigger] self@[l]).0, self@[l].1)
    }

    /// The registry associates the unordered pair `{i, j}` with `potential`.
    pub open spec fn maps_pair(&self, i: ParticleKind, j: ParticleKind, potential: usize) -> bool {
        exists|k: int|
            0 <= k < self@.len() && (#[trigger] self@[k]) == (
            pair_key(i, j).0,
            pair_key(i, j).1,
            potential,
            )
    }

    /// An empty registry.
    pub fn new() -> (registry: PairInteractions)
        ensures
            registry.wf(),
            registry@ == Seq::<(u32, u32, usize)>::empty(),
    {
        PairInteractions { entries: Vec::new() }
    }

    /// Register `potential` for the unordered pair `{i, j}`, replacing any
    /// potential previously registered for that pair. Other pairs keep their
    /// potential.
    pub fn add_pair(&mut self, i: ParticleKind, j: ParticleKind, potential: usize)
        requires
            old(self).wf(),
            old(self)@.len() < usize::MAX,
        ensures
            final(self).wf(),
            final(self).maps_pair(i, j, potential),
            forall|a: ParticleKind, b: ParticleKind, p: usize|
                pair_key(a, b) != pair_key(i, j) ==> (#[trigger] final(self).maps_pair(a, b, p)
                    <==> old(self).maps_pair(a, b, p)),
            forall|p: usize| #[trigger] final(self).maps_pair(i, j, p) ==> p == potential,
    {
        let (lo, hi) = if i.0 <= j.0 {
            (i.0, j.0)
        } else {
            (j.0, i.0)
        };
        let n = self.entries.len();
        let mut k: usize = 0;
        while k < n
            invariant
                n == self@.len(),
                k <= n,
                (lo, hi) == pair_key(i, j),
                self.wf(),
                self@ == old(self)@,
                forall|l: int| 0 <= l < k ==> ((#[trigger] self@[l]).0, self@[l].1) != (lo, hi),
            decreases n - k,
        {
            let entry = self.entries[k];
            if entry.0 == lo && entry.1 == hi {
                self.entries[k] = (lo, hi, potential);
                proof {
                    lemma_same_keys_same_pairs(old(self)@, self@, k as int, potential);
                    assert(self@[k as int] == (pair_key(i, j).0, pair_key(i, j).1, potential));
                    assert forall|a: ParticleKind, b: ParticleKind, p: usize|
                        pair_key(a, b) != pair_key(i, j) implies (#[trigger] self.maps_pair(a, b, p)
                        <==> old(self).maps_pair(a, b, p)) by {
                        if old(self).maps_pair(a, b, p) {
                            let l = choose|l: int|
                                0 <= l < old(self)@.len() && old(self)@[l] == (
                                pair_key(a, b).0,
                                pair_key(a, b).1,
                                p,
                                );
                            assert(l != k);
                            assert(self@[l] == (pair_key(a, b).0, pair_key(a, b).1, p));
                        }
                        if self.maps_pair(a, b, p) {
                            let l = choose|l: int|
                                0 <= l < self@.len() && self@[l] == (
                                pair_key(a, b).0,
                                pair_key(a, b).1,
                                p,
                                );
                            assert(l != k);
                            assert(old(self)@[l] == (pair_key(a, b).0, pair_key(a, b).1, p));
                        }
                    }
                    assert forall|p: usize| #[trigger] self.maps_pair(i, j, p) implies p
                        == potential by {
                        let l = choose|l: int|
                            0 <= l < self@.len() && self@[l] == (
                            pair_key(i, j).0,
                            pair_key(i, j).1,
                            p,
                            );
                        if l != k {
                            assert(((self@[l]).0, self@[l].1) == ((self@[k as int]).0, self@[
                            k as int].1));
                        }
                    }
                }
                return ;
            }
            k += 1;
        }
        self.entries.push((lo, hi, potential));
        proof {
            assert(self@[n as int] == (pair_key(i, j).0, pair_key(i, j).1, potential));
            assert forall|a: ParticleKind, b: ParticleKind, p: usize|
                pair_key(a, b) != pair_key(i, j) implies (#[trigger] self.maps_pair(a, b, p)
                <==> old(self).maps_pair(a, b, p)) by {
                if old(self).maps_pair(a, b, p) {
                    let l = choose|l: int|
                        0 <= l < old(self)@.len() && old(self)@[l] == (
                        pair_key(a, b).0,
                        pair_key(a, b).1,
                        p,
                        );
                    assert(self@[l] == (pair_key(a, b).0, pair_key(a, b).1, p));
                }
                if self.maps_pair(a, b, p) {
                    let l = choose|l: int|
                        0 <= l < self@.len() && self@[l] == (
                        pair_key(a, b).0,
                        pair_key(a, b).1,
                        p,
                        );
                    assert(l < n);
                    assert(old(self)@[l] == (pair_key(a, b).0, pair_key(a, b).1, p));
                }
            }
            assert forall|p: usize| #[trigger] self.maps_pair(i, j, p) implies p
                == potential by {
                let l = choose|l: int|
                    0 <= l < self@.len() && self@[l] == (pair_key(i, j).0, pair_key(i, j).1, p);
                if l < n {
                    assert(((old(self)@[l]).0, old(self)@[l].1) != (lo, hi));
                }
            }
        }
    }

    /// Look up the potential registered for the unordered pair `{i, j}`:
    /// `Some` exactly when the pair was registered, and then the handle that
    /// `add_pair` last stored for it.
    pub fn lookup(&self, i: ParticleKind, j: ParticleKind) -> (r: Option<usize>)
        requires
            self.wf(),
        ensures
            match r {
                Some(p) => self.maps_pair(i, j, p),
                None => forall|p: usize| !self.maps_pair(i, j, p),
            },
    {
        let (lo, hi) = if i.0 <= j.0 {
            (i.0, j.0)
        } else {
            (j.0, i.0)
        };
        let n = self.entries.len();
        let mut k: usize = 0;
        while k < n
            invariant
                n == self@.len(),
                k <= n,
                (lo, hi) == pair_key(i, j),
                forall|l: int| 0 <= l < k ==> ((#[trigger] self@[l]).0, self@[l].1) != (lo, hi),
            decreases n - k,
        {
            let entry = self.entries[k];
            if entry.0 == lo && entry.1 == hi {
                assert(self@[k as int] == (pair_key(i, j).0, pair_key(i, j).1, entry.2));
                return Some(entry.2);
            }
            k += 1;
        }
        None
    }
}

/// Overwriting one entry in place with its own key changes only that entry's
/// potential: all other entries are untouched, and the keys stay distinct.
proof fn lemma_same_keys_same_pairs(
    before: Seq<(u32, u32, usize)>,
    after: Seq<(u32, u32, usize)>,
    k: int,
    potential: usize,
)
    requires
        0 <= k < before.len(),
        after == before.update(k, (before[k].0, before[k].1, potential)),
        forall|l: int, m: int|
            0 <= l < m < before.len() ==> ((#[trigger] before[l]).0, before[l].1) != ((
            #[trigger] before[m]).0, before[m].1),
    ensures
        forall|l: int|
            0 <= l < after.len() && l != k ==> #[trigger] after[l] == before[l],
        after[k] == (before[k].0, before[k].1, potential),
        forall|l: int, m: int|
            0 <= l < m < after.len() ==> ((#[trigger] after[l]).0, after[l].1) != ((
            #[trigger] after[m]).0, after[m].1),
{
    assert forall|l: int, m: int| 0 <= l < m < after.len() implies ((#[trigger] after[l]).0,
    after[l].1) != ((#[trigger] after[m]).0, after[m].1) by {
        assert((before[l].0, before[l].1) != (before[m].0, before[m].1));
        assert(after[l].0 == before[l].0 && after[l].1 == before[l].1);
        assert(after[m].0 == before[m].0 && after[m].1 == before[m].1);
    }
}

/// A well-formed registry holds at most one potential per unordered pair:
/// two potentials registered for the same pair are the same potential.
pub proof fn lemma_maps_pair_unique(
    registry: &PairInteractions,
    i: ParticleKind,
    j: ParticleKind,
    p1: usize,
    p2: usize,
)
    requires
        registry.wf(),
        registry.maps_pair(i, j, p1),
        registry.maps_pair(i, j, p2),
    ensures
        p1 == p2,
{
    let k1 = choose|k: int|
        0 <= k < registry@.len() && registry@[k] == (pair_key(i, j).0, pair_key(i, j).1, p1);
    let k2 = choose|k: int|
        0 <= k < registry@.len() && registry@[k] == (pair_key(i, j).0, pair_key(i, j).1, p2);
    if k1 != k2 {
        assert((registry@[k1].0, registry@[k1].1) == (registry@[k2].0, registry@[k2].1));
    }
}

/// Interaction lookup does not depend on the order of the two kinds: the pair
/// `{i, j}` and the pair `{j, i}` are associated with exactly the same
/// potentials.
pub proof fn lemma_lookup_symmetric(
    registry: &PairInteractions,
    i: ParticleKind,
    j: ParticleKind,
)
    ensures
        forall|p: usize| registry.maps_pair(i, j, p) <==> registry.maps_pair(j, i, p),
{
    assert(pair_key(i, j) == pair_key(j, i));
}

} // verus!
