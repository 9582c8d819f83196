//! Resolved destination addresses and their partition by address family.

use vstd::prelude::*;

verus! {

/// The two address families a destination may resolve to.
#[derive(Clone, Copy, Debug, PartialEq, Eq, Structural)]
pub enum Family {
    V4,
    V6,
}

/// An IP address held as its big-endian integer value.
#[derive(Clone, Copy, Debug, PartialEq, Eq, Structural)]
pub enum IpAddress {
    V4(u32),
    V6(u128),
}

/// One resolved address of a destination.
#[derive(Clone, Copy, Debug, PartialEq, Eq, Structural)]
pub struct CandidateAddress {
    pub ip: IpAddress,
    pub port: u16,
}

impl CandidateAddress {
    /// The family of the address.
    pub open spec fn family(&self) -> Family {
        match self.ip {
            IpAddress::V4(_) => Family::V4,
            IpAddress::V6(_) => Family::V6,
        }
    }

    /// Computes [`CandidateAddress::family`].
    pub fn family_of(&self) -> (family: Family)
        ensures
            family == self.family(),
    {
        match self.ip {
            IpAddress::V4(_) => Family::V4,
            IpAddress::V6(_) => Family::V6,
        }
    }
}

/// Some candidate of `s` belongs to `family`.
pub open spec fn has_family(s: Seq<CandidateAddress>, family: Family) -> bool {
    exists|i: int| 0 <= i < s.len() && (#[trigger] s[i]).family() == family
}

/// `i` is the position of the first candidate of `family` in `s`.
pub open spec fn is_first_at(s: Seq<CandidateAddress>, family: Family, i: int) -> bool {
    &&& 0 <= i < s.len()
    &&& s[i].family() == family
    &&& forall|j: int| 0 <= j < i ==> (#[trigger] s[j]).family() != family
}

/// The first candidate of `family` in resolution order, if there is one.
pub open spec fn first_of(s: Seq<CandidateAddress>, family: Family) -> Option<CandidateAddress>
    decreases s.len(),
{
    if s.len() == 0 {
        None
    } else if s[0].family() == family {
        Some(s[0])
    } else {
        first_of(s.drop_first(), family)
    }
}

/// [`first_of`] in terms of positions: it is `None` exactly when no candidate
/// has the family, and otherwise the candidate at the least position that has
/// it.
pub proof fn lemma_first_of(s: Seq<CandidateAddress>, family: Family)
    ensures
        first_of(s, family).is_none() <==> !has_family(s, family),
        first_of(s, family).is_some() ==> exists|i: int|
            is_first_at(s, family, i) && first_of(s, family) == Some(s[i]),
    decreases s.len(),
{
    if s.len() == 0 {
    } else if s[0].family() == family {
        assert(is_first_at(s, family, 0));
    } else {
        let t = s.drop_first();
        lemma_first_of(t, family);
        if has_family(s, family) {
            let i = choose|i: int| 0 <= i < s.len() && (#[trigger] s[i]).family() == family;
            assert(t[i - 1] == s[i]);
            assert(has_family(t, family));
        }
        if has_family(t, family) {
            let i = choose|i: int| 0 <= i < t.len() && (#[trigger] t[i]).family() == family;
            assert(s[i + 1] == t[i]);
        }
        if first_of(t, family).is_some() {
            let i = choose|i: int| is_first_at(t, family, i) && first_of(t, family) == Some(t[i]);
            assert(s[i + 1] == t[i]);
            assert forall|j: int| 0 <= j < i + 1 implies (#[trigger] s[j]).family() != family by {
                if j > 0 {
                    assert(t[j - 1] == s[j]);
                }
            }
            assert(is_first_at(s, family, i + 1));
        }
    }
}

/// The first candidate of `family` is determined by any position that
/// satisfies [`is_first_at`].
pub proof fn lemma_first_at_unique(s: Seq<CandidateAddress>, family: Family, i: int)
    requires
        is_first_at(s, family, i),
    ensures
        first_of(s, family) == Some(s[i]),
{
    lemma_first_of(s, family);
    assert(has_family(s, family));
    let k = choose|k: int| is_first_at(s, family, k) && first_of(s, family) == Some(s[k]);
    if k < i {
        assert(s[k].family() != family);
    } else if i < k {
        assert(s[i].family() != family);
    }
}

/// Finds the first candidate of `family` in resolution order.
pub fn find_first(candidates: &Vec<CandidateAddress>, family: Family) -> (found: Option<
    CandidateAddress,
>)
    ensures
        found == first_of(candidates@, family),
        found.is_some() <==> has_family(candidates@, family),
{
    let mut i: usize = 0;
    while i < candidates.len()
        invariant
            i <= candidates.len(),
            forall|j: int| 0 <= j < i ==> (#[trigger] candidates@[j]).family() != family,
        decreases candidates.len() - i,
    {
        if candidates[i].family_of() == family {
            proof {
                assert(is_first_at(candidates@, family, i as int));
                lemma_first_at_unique(candidates@, family, i as int);
                lemma_first_of(candidates@, family);
            }
            return Some(candidates[i]);
        }
        i += 1;
    }
    proof {
        lemma_first_of(candidates@, family);
    }
    None
}

/// Tells whether any candidate belongs to `family`.
pub fn any_of(candidates: &Vec<CandidateAddress>, family: Family) -> (yes: bool)
    ensures
        yes == has_family(candidates@, family),
{
    find_first(candidates, family).is_some()
}

} // verus!
