//! Particle kinds and their assignment from particle names.
//!
//! Particles with the same name share the same kind, a small integer used for
//! fast potential lookup. Kinds are assigned densely, in the order in which
//! new names appear; `ParticleKind::invalid` is a sentinel used before
//! assignment.

use vstd::prelude::*;
use vstd::string::StrSliceExecFns;
use vstd::string::StringExecFns;

verus! {

/// The decimal digit `d` as a character, for `0 <= d < 10`.
pub open spec fn digit_char(d: int) -> char {
    "0123456789"@[d]
}

/// The decimal notation of `n`: most significant digit first, no leading
/// zero (except for `n == 0` itself).
pub open spec fn spec_decimal(n: nat) -> Seq<char>
    decreases n,
{
    if n < 10 {
        seq![digit_char(n as int)]
    } else {
        spec_decimal(n / 10) + seq![digit_char((n % 10) as int)]
    }
}

/// The decimal notation of `value`, as a string.
pub fn decimal_string(value: u32) -> (r: String)
    ensures
        r@ == spec_decimal(value as nat),
    decreases value,
{
    let digits = "0123456789";
    proof {
        reveal_strlit("0123456789");
        assert(digits.is_ascii());
    }
    let low = (value % 10) as usize;
    let digit = digits.substring_ascii(low, low + 1);
    proof {
        assert(digit@ =~= seq![digit_char(low as int)]);
    }
    if value < 10 {
        digit.to_owned()
    } else {
        let mut r = decimal_string(value / 10);
        r.append(digit);
        r
    }
}

/// A particle kind. Particles with the same name will have the same kind.
/// This is used for faster potential lookup.
#[derive(Clone, Copy, Debug, Hash, PartialEq, Eq, PartialOrd, Ord, Structural)]
pub struct ParticleKind(pub u32);

impl ParticleKind {
    /// Get an invalid value (`u32::MAX`) to use as a marker
    pub fn invalid() -> (kind: ParticleKind)
        ensures
            kind.0 == u32::MAX,
    {
        ParticleKind(u32::MAX)
    }

    /// The kind in decimal notation, as displayed in reports.
    pub fn to_text(&self) -> (r: String)
        ensures
            r@ == spec_decimal(self.0 as nat),
    {
        decimal_string(self.0)
    }
}

/// True when `name` occurs in the sequence of registered names.
pub open spec fn registered(names: Seq<Seq<char>>, name: Seq<char>) -> bool {
    exists|i: int| 0 <= i < names.len() && names[i] == name
}

/// The registry assigning a `ParticleKind` to every distinct particle name.
///
/// The system keeps one such registry, and consults it whenever a particle is
/// inserted, so that potential lookup by kind stays consistent with lookup by
/// name.
pub struct KindRegistry {
    names: Vec<String>,
}

impl KindRegistry {
    /// The registered names, in order of kind assignment: the name at index
    /// `k` is the one that kind `k` stands for.
    pub closed spec fn view(&self) -> Seq<Seq<char>> {
        self.names.deep_view()
    }

    /// Well-formedness: registered names are distinct, and there are few
    /// enough of them that every assigned kind is below the invalid marker.
    pub closed spec fn wf(&self) -> bool {
        &&& forall|i: int, j: int|
            0 <= i < j < self@.len() ==> self@[i] != self@[j]
        &&& self@.len() <= u32::MAX
    }

    /// An empty registry: no name has a kind yet.
    pub fn new() -> (registry: KindRegistry)
        ensures
            registry.wf(),
            registry@ == Seq::<Seq<char>>::empty(),
    {
        KindRegistry { names: Vec::new() }
    }

    /// The number of distinct names registered so far.
    pub fn len(&self) -> (n: usize)
        ensures
            n == self@.len(),
    {
        self.names.len()
    }

    /// Get the kind of the particle named `name`, assigning the next unused
    /// kind to it if the name is new. Equal names always give equal kinds,
    /// and the result is never the invalid marker.
    pub fn get_kind(&mut self, name: &str) -> (kind: ParticleKind)
        requires
            old(self).wf(),
            old(self)@.len() < u32::MAX,
        ensures
            final(self).wf(),
            kind.0 < final(self)@.len(),
            final(self)@[kind.0 as int] == name@,
            registered(old(self)@, name@) ==> final(self)@ == old(self)@,
            !registered(old(self)@, name@) ==> final(self)@ == old(self)@.push(name@),
            kind.0 != u32::MAX,
    {
        let owned: String = name.to_owned();
        let n = self.names.len();
        let mut i: usize = 0;
        while i < n
            invariant
                n == self@.len(),
                i <= n,
                owned@ == name@,
                forall|j: int| 0 <= j < i ==> self@[j] != name@,
                self.wf(),
            decreases n - i,
        {
            if self.names[i] == owned {
                return ParticleKind(i as u32);
            }
            i += 1;
        }
        self.names.push(owned);
        assert(self@ == old(self)@.push(name@));
        ParticleKind(n as u32)
    }
}

/// Two registered kinds are equal exactly when the names they stand for are
/// equal: kind assignment is one-to-one over the registered names.
pub proof fn lemma_kinds_injective(registry: &KindRegistry, i: int, j: int)
    requires
        registry.wf(),
        0 <= i < registry@.len(),
        0 <= j < registry@.len(),
    ensures
        i == j <==> registry@[i] == registry@[j],
{
}

} // verus!
