use vstd::prelude::*;
use vstd::slice::slice_to_vec;
use crate::errors::CoreError;
use crate::wire::{
    decode_words, encode_words, lemma_words_round_trip, spec_decode_words, spec_encode_words,
};

verus! {

/// An ordered sequence of 128-bit asset identifiers. Order is significant:
/// it establishes positional alignment with parallel quantity vectors.
#[derive(Clone, Debug, PartialEq, Eq)]
pub struct Labels {
    pub data: Vec<u128>,
}

impl View for Labels {
    type V = Seq<u128>;

    open spec fn view(&self) -> Seq<u128> {
        self.data@
    }
}

impl Labels {
    pub fn new() -> (r: Labels)
        ensures
            r@ =~= Seq::<u128>::empty(),
    {
        Labels { data: Vec::new() }
    }

    pub fn from_vec_u128(data: Vec<u128>) -> (r: Labels)
        ensures
            r@ == data@,
    {
        Labels { data }
    }

    pub fn to_vec(&self) -> (r: Vec<u128>)
        ensures
            r@ == self@,
    {
        slice_to_vec(self.data.as_slice())
    }

    pub fn len(&self) -> (r: usize)
        ensures
            r == self@.len(),
    {
        self.data.len()
    }

    /// No identifier occurs twice.
    pub open spec fn distinct(&self) -> bool {
        self@.no_duplicates()
    }

    /// Lay the label set out on the wire.
    pub fn encode(&self) -> (r: Vec<u8>)
        ensures
            r@ == spec_encode_words(self@),
    {
        encode_words(&self.data)
    }

    /// Read a label set back off the wire; a ragged blob is rejected.
    pub fn decode(b: &Vec<u8>) -> (r: Result<Labels, CoreError>)
        ensures
            match r {
                Ok(l) => spec_decode_words(b@) == Some(l@),
                Err(e) => spec_decode_words(b@) is None && e == CoreError::WireLength,
            },
    {
        match decode_words(b) {
            Ok(v) => Ok(Labels { data: v }),
            Err(e) => Err(e),
        }
    }

    /// Round trip: decoding an encoded label set yields the original sequence,
    /// for every representable value.
    pub proof fn lemma_round_trip(l: Labels)
        ensures
            spec_decode_words(spec_encode_words(l@)) == Some(l@),
    {
        lemma_words_round_trip(l@);
    }
}

} // verus!
