use vstd::prelude::*;

verus! {

/// A scaled fixed-point amount: an integer mantissa together with an implied
/// decimal scale. On the wire only the raw mantissa travels.
#[derive(Clone, Copy, Debug, PartialEq, Eq, Structural)]
pub struct Amount {
    pub raw: u128,
    pub scale: u8,
}

impl Amount {
    pub fn from_u128_with_scale(raw: u128, scale: u8) -> (r: Amount)
        ensures
            r.raw == raw && r.scale == scale,
    {
        Amount { raw, scale }
    }

    pub fn to_u128_raw(&self) -> (r: u128)
        ensures
            r == self.raw,
    {
        self.raw
    }
}

} // verus!
