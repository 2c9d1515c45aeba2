use vstd::prelude::*;

verus! {

/// An account identifier: an opaque 256-bit value, stored as four 64-bit
/// words. Nothing is assumed of an account beyond equality and its use as a
/// map key.
///
/// The all-zero identifier is reserved as the burn sentinel: tokens
/// transferred to it leave circulation.
#[derive(Clone, Copy, PartialEq, Eq, Structural, Debug)]
pub struct AccountId {
    pub w0: u64,
    pub w1: u64,
    pub w2: u64,
    pub w3: u64,
}

impl AccountId {
    /// The all-zero identifier.
    pub open spec fn zero_spec() -> AccountId {
        AccountId { w0: 0, w1: 0, w2: 0, w3: 0 }
    }

    /// Returns the reserved all-zero identifier, the burn sentinel.
    pub fn zero() -> (r: AccountId)
        ensures
            r == AccountId::zero_spec(),
    {
        AccountId { w0: 0, w1: 0, w2: 0, w3: 0 }
    }

    /// Builds an identifier from its four 64-bit words.
    pub fn from_words(w0: u64, w1: u64, w2: u64, w3: u64) -> (r: AccountId)
        ensures
            r == (AccountId { w0, w1, w2, w3 }),
    {
        AccountId { w0, w1, w2, w3 }
    }
}

} // verus!
