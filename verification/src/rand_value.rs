use vstd::prelude::*;
use crate::amount::Amount;
use crate::vector::Vector;

verus! {

#[verifier::external_type_specification]
#[verifier::external_body]
pub struct ExThreadRng(rand::rngs::ThreadRng);

/// Relies on rand::rng: hands out a handle to the thread-local generator.
/// Nothing is assumed of the values it will produce.
#[verifier::external_body]
pub fn fresh_rng() -> rand::rngs::ThreadRng {
    rand::rng()
}

/// Relies on rand's RngExt::random_range over an inclusive range: the sample
/// lies within the bounds. The call panics only on an empty range, which the
/// precondition rules out.
#[verifier::external_body]
pub fn sample_in_range(rng: &mut rand::rngs::ThreadRng, low: u128, high: u128) -> (r: u128)
    requires
        low <= high,
    ensures
        low <= r <= high,
{
    rand::RngExt::random_range(rng, low..=high)
}

/// A bounded uniform source of scaled fixed-point amounts: every drawn
/// amount has a raw mantissa within `[low, high]` and the configured scale.
/// The generator state itself lives outside and is handed to each draw.
#[derive(Clone, Copy, Debug, PartialEq, Eq, Structural)]
pub struct ValueGen {
    pub low: u128,
    pub high: u128,
    pub scale: u8,
}

impl ValueGen {
    pub fn new(low: u128, high: u128, scale: u8) -> (r: ValueGen)
        requires
            low <= high,
        ensures
            r.low == low && r.high == high && r.scale == scale,
    {
        ValueGen { low, high, scale }
    }

    /// Draw one amount from the given generator.
    pub fn next(&self, rng: &mut rand::rngs::ThreadRng) -> (r: Amount)
        requires
            self.low <= self.high,
        ensures
            self.low <= r.raw <= self.high,
            r.scale == self.scale,
    {
        let raw = sample_in_range(rng, self.low, self.high);
        Amount::from_u128_with_scale(raw, self.scale)
    }

    /// Draw one amount per requested slot: the resulting quantity vector is
    /// positionally aligned with whatever sequence asked for it.
    pub fn draw_vector(&self, rng: &mut rand::rngs::ThreadRng, n: usize) -> (r: Vector)
        requires
            self.low <= self.high,
        ensures
            r@.len() == n,
            forall|k: int| 0 <= k < n ==> self.low <= #[trigger] r@[k] <= self.high,
    {
        let mut data: Vec<u128> = Vec::new();
        let mut i: usize = 0;
        while i < n
            invariant
                i <= n,
                self.low <= self.high,
                data@.len() == i,
                forall|k: int| 0 <= k < i ==> self.low <= #[trigger] data@[k] <= self.high,
            decreases n - i,
        {
            let a = self.next(rng);
            data.push(a.to_u128_raw());
            i += 1;
        }
        Vector::from_vec(data)
    }
}

} // verus!
