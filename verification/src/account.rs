use vstd::prelude::*;

verus! {

/// An opaque participant identifier.
///
/// The hosting environment authenticates callers and hands each register
/// call an identifier; the ledger only ever compares identifiers for
/// equality and never interprets them. Duplicates are meaningful: the same
/// identifier may be registered several times within one round.
#[derive(Clone, Copy, PartialEq, Eq, Structural, Debug)]
pub struct AccountId {
    pub id: u64,
}

} // verus!
