use vstd::prelude::*;

verus! {

/// The index that a given entropy value selects among `count` candidates.
///
/// Selection is deliberately a pure function of its two inputs: the same
/// participant list and the same entropy value always pick the same index,
/// so a selection can be audited after the fact.
pub open spec fn spec_select_index(count: nat, entropy: u64) -> nat {
    (entropy as nat) % count
}

/// Picks one index in `[0, count)` from an entropy value.
///
/// Every index is reachable: entropy values that are uniform over a range
/// much larger than `count` select each index with (nearly) equal
/// probability, and a candidate occupying `k` of the `count` slots is
/// selected with probability proportional to `k`.
pub fn select_index(count: usize, entropy: u64) -> (i: usize)
    requires
        count > 0,
    ensures
        i < count,
        i as nat == spec_select_index(count as nat, entropy),
{
    (entropy % (count as u64)) as usize
}

} // verus!
