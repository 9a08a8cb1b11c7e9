use vstd::prelude::*;
use vstd::slice::slice_to_vec;
use crate::errors::CoreError;
use crate::wire::{
    decode_words, encode_words, lemma_words_round_trip, spec_decode_words, spec_encode_words,
};

verus! {

/// An ordered sequence of scaled fixed-point amounts (raw mantissas),
/// positionally aligned one to one with a label set of the same length.
#[derive(Clone, Debug, PartialEq, Eq)]
pub struct Vector {
    pub data: Vec<u128>,
}

impl View for Vector {
    type V = Seq<u128>;

    open spec fn view(&self) -> Seq<u128> {
        self.data@
    }
}

impl Vector {
    pub fn new() -> (r: Vector)
        ensures
            r@ =~= Seq::<u128>::empty(),
    {
        Vector { data: Vec::new() }
    }

    pub fn from_vec(data: Vec<u128>) -> (r: Vector)
        ensures
            r@ == data@,
    {
        Vector { data }
    }

    pub fn to_vec(&self) -> (r: Vec<u128>)
        ensures
            r@ == self@,
    {
        slice_to_vec(self.data.as_slice())
    }

    pub fn len(&self) -> (r: usize)
        ensures
            r == self@.len(),
    {
        self.data.len()
    }

    /// Lay the amounts out on the wire.
    pub fn encode(&self) -> (r: Vec<u8>)
        ensures
            r@ == spec_encode_words(self@),
    {
        encode_words(&self.data)
    }

    /// Read amounts back off the wire; a ragged blob is rejected.
    pub fn decode(b: &Vec<u8>) -> (r: Result<Vector, CoreError>)
        ensures
            match r {
                Ok(v) => spec_decode_words(b@) == Some(v@),
                Err(e) => spec_decode_words(b@) is None && e == CoreError::WireLength,
            },
    {
        match decode_words(b) {
            Ok(v) => Ok(Vector { data: v }),
            Err(e) => Err(e),
        }
    }

    /// Round trip: decoding an encoded quantity vector yields the original
    /// sequence, for every representable value.
    pub proof fn lemma_round_trip(v: Vector)
        ensures
            spec_decode_words(spec_encode_words(v@)) == Some(v@),
    {
        lemma_words_round_trip(v@);
    }
}

} // verus!
