use vstd::prelude::*;

verus! {

/// A 256-bit account identity (a mint, vault, admin or recipient address),
/// held as two plain machine words so that equality is structural.
///
/// The control plane never looks inside an identity; it only stores them and
/// compares them.
#[derive(Clone, Copy, Debug, PartialEq, Eq, Structural)]
pub struct AccountId {
    pub hi: u128,
    pub lo: u128,
}

impl AccountId {
    /// The identity an address field holds when it has been cleared.
    pub open spec fn zero_spec() -> AccountId {
        AccountId { hi: 0, lo: 0 }
    }

    /// The all-zero identity, used for cleared recipient fields.
    pub fn zero() -> (r: AccountId)
        ensures
            r == AccountId::zero_spec(),
    {
        AccountId { hi: 0, lo: 0 }
    }
}

} // verus!
