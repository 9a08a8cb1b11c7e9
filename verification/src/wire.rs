use vstd::prelude::*;
use vstd::bytes::{
    spec_u128_from_le_bytes, spec_u128_to_le_bytes, u128_from_le_bytes, u128_to_le_bytes,
    lemma_auto_spec_u128_to_from_le_bytes,
};
use vstd::slice::slice_subrange;
use crate::errors::CoreError;

verus! {

/// Wire form of a sequence of 128-bit values: each value as sixteen
/// little-endian bytes, concatenated in order.
pub open spec fn spec_encode_words(s: Seq<u128>) -> Seq<u8> {
    Seq::new(16 * s.len(), |k: int| spec_u128_to_le_bytes(s[k / 16])[k % 16])
}

/// The values a well-formed wire blob carries, word by word.
pub open spec fn spec_words_of(b: Seq<u8>) -> Seq<u128> {
    Seq::new(
        (b.len() / 16) as nat,
        |i: int| spec_u128_from_le_bytes(b.subrange(16 * i, 16 * i + 16)),
    )
}

/// Decoding a wire blob: defined exactly when the length is a whole number
/// of words; anything else is a data-integrity error, never a truncation.
pub open spec fn spec_decode_words(b: Seq<u8>) -> Option<Seq<u128>> {
    if b.len() % 16 == 0 {
        Some(spec_words_of(b))
    } else {
        None
    }
}

/// Encoding then decoding hands back exactly the original values.
pub proof fn lemma_words_round_trip(s: Seq<u128>)
    ensures
        spec_decode_words(spec_encode_words(s)) == Some(s),
{
    lemma_auto_spec_u128_to_from_le_bytes();
    let b = spec_encode_words(s);
    assert(b.len() == 16 * s.len());
    assert(b.len() % 16 == 0);
    let w = spec_words_of(b);
    assert forall|i: int| 0 <= i < s.len() implies w[i] == s[i] by {
        assert(b.subrange(16 * i, 16 * i + 16) =~= spec_u128_to_le_bytes(s[i])) by {
            assert forall|j: int| 0 <= j < 16 implies b.subrange(16 * i, 16 * i + 16)[j]
                == spec_u128_to_le_bytes(s[i])[j] by {
                assert(b[16 * i + j] == spec_u128_to_le_bytes(s[(16 * i + j) / 16])[(16 * i + j)
                    % 16]);
                assert((16 * i + j) / 16 == i);
                assert((16 * i + j) % 16 == j);
            }
        }
    }
    assert(w =~= s);
}

/// Lay a sequence of values out on the wire.
pub fn encode_words(v: &Vec<u128>) -> (r: Vec<u8>)
    ensures
        r@ == spec_encode_words(v@),
{
    let ghost goal = spec_encode_words(v@);
    let mut out: Vec<u8> = Vec::new();
    let mut i: usize = 0;
    while i < v.len()
        invariant
            i <= v.len(),
            goal == spec_encode_words(v@),
            goal.len() == 16 * v@.len(),
            out@.len() == 16 * i,
            out@ =~= goal.take(16 * i as int),
        decreases v.len() - i,
    {
        let mut w = u128_to_le_bytes(v[i]);
        proof {
            assert forall|j: int| 0 <= j < 16 implies w@[j] == goal[16 * i + j] by {
                assert(goal[16 * i + j] == spec_u128_to_le_bytes(v@[(16 * i + j) / 16])[(16 * i
                    + j) % 16]);
                assert((16 * i + j) / 16 == i as int);
                assert((16 * i + j) % 16 == j);
            }
        }
        out.append(&mut w);
        i += 1;
        proof {
            assert(out@ =~= goal.take(16 * i as int));
        }
    }
    proof {
        assert(out@ =~= goal);
    }
    out
}

/// Read a sequence of values back off the wire. A blob whose length is not
/// a whole number of words is rejected, never silently cut short.
pub fn decode_words(b: &Vec<u8>) -> (r: Result<Vec<u128>, CoreError>)
    ensures
        match r {
            Ok(v) => spec_decode_words(b@) == Some(v@),
            Err(e) => spec_decode_words(b@) is None && e == CoreError::WireLength,
        },
{
    if b.len() % 16 != 0 {
        return Err(CoreError::WireLength);
    }
    let ghost goal = spec_words_of(b@);
    let n = b.len() / 16;
    let mut out: Vec<u128> = Vec::new();
    let mut i: usize = 0;
    while i < n
        invariant
            i <= n,
            n == b@.len() / 16,
            b@.len() % 16 == 0,
            b@.len() == 16 * n,
            16 * n <= usize::MAX,
            goal == spec_words_of(b@),
            out@.len() == i,
            out@ =~= goal.take(i as int),
        decreases n - i,
    {
        let word = slice_subrange(b.as_slice(), 16 * i, 16 * i + 16);
        let x = u128_from_le_bytes(word);
        out.push(x);
        i += 1;
        proof {
            assert(out@ =~= goal.take(i as int));
        }
    }
    proof {
        assert(out@ =~= goal);
    }
    Ok(out)
}

} // verus!
