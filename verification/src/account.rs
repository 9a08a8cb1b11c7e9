use vstd::prelude::*;

verus! {

/// An opaque fixed-width ledger account identifier: 160 bits, split into the
/// low 128 bits and the high 32 bits. The all-zero account is the sentinel
/// for "not yet provisioned".
#[derive(Clone, Copy, Debug, PartialEq, Eq, Hash, Structural)]
pub struct Account {
    pub lo: u128,
    pub hi: u32,
}

impl Account {
    pub fn zero() -> (r: Account)
        ensures
            r.lo == 0 && r.hi == 0,
    {
        Account { lo: 0, hi: 0 }
    }

    pub open spec fn is_zero_spec(&self) -> bool {
        self.lo == 0 && self.hi == 0
    }

    /// Whether this is the "not yet provisioned" sentinel.
    pub fn is_zero(&self) -> (r: bool)
        ensures
            r == self.is_zero_spec(),
    {
        self.lo == 0 && self.hi == 0
    }
}

} // verus!
