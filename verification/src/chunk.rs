use vstd::prelude::*;
use vstd::slice::{slice_subrange, slice_to_vec};
use vstd::arithmetic::div_mod::{lemma_div_plus_one, lemma_mod_sub_multiples_vanish};

verus! {

/// Partition of a sequence into runs of `c` values: every chunk but the last
/// holds exactly `c` values; the last holds the remainder, never padding.
pub open spec fn spec_chunks(s: Seq<u128>, c: nat) -> Seq<Seq<u128>>
    recommends
        c > 0,
    decreases s.len(),
{
    if c == 0 {
        Seq::empty()
    } else if s.len() == 0 {
        Seq::empty()
    } else if s.len() <= c {
        seq![s]
    } else {
        seq![s.take(c as int)] + spec_chunks(s.skip(c as int), c)
    }
}

/// Concatenation of a sequence of chunks, in order.
pub open spec fn spec_concat(ss: Seq<Seq<u128>>) -> Seq<u128>
    decreases ss.len(),
{
    if ss.len() == 0 {
        Seq::empty()
    } else {
        ss[0] + spec_concat(ss.drop_first())
    }
}

/// Chunking is lossless and order-preserving: concatenating all chunks
/// reproduces the original sequence exactly.
pub proof fn lemma_chunks_lossless(s: Seq<u128>, c: nat)
    requires
        c > 0,
    ensures
        spec_concat(spec_chunks(s, c)) =~= s,
    decreases s.len(),
{
    if s.len() == 0 {
    } else if s.len() <= c {
        let ss = spec_chunks(s, c);
        assert(ss.drop_first() =~= Seq::<Seq<u128>>::empty());
        assert(spec_concat(Seq::<Seq<u128>>::empty()) =~= Seq::<u128>::empty());
        assert(spec_concat(ss) =~= ss[0] + spec_concat(ss.drop_first()));
        assert(spec_concat(ss) =~= s);
    } else {
        let ss = spec_chunks(s, c);
        lemma_chunks_lossless(s.skip(c as int), c);
        assert(ss.drop_first() =~= spec_chunks(s.skip(c as int), c));
        assert(spec_concat(ss) =~= s.take(c as int) + spec_concat(spec_chunks(s.skip(c as int), c)));
        assert(s.take(c as int) + s.skip(c as int) =~= s);
    }
}

/// There are exactly ceiling(len / c) chunks.
pub proof fn lemma_chunks_count(s: Seq<u128>, c: nat)
    requires
        c > 0,
    ensures
        spec_chunks(s, c).len() == (s.len() + c - 1) / (c as int),
    decreases s.len(),
{
    if s.len() == 0 {
        vstd::arithmetic::div_mod::lemma_basic_div(c as int - 1, c as int);
    } else if s.len() <= c {
        assert((s.len() + c - 1) / (c as int) == 1) by {
            let n = s.len() as int - 1;
            assert(0 <= n < c);
            lemma_div_plus_one(n, c as int);
            vstd::arithmetic::div_mod::lemma_basic_div(n, c as int);
        }
    } else {
        lemma_chunks_count(s.skip(c as int), c);
        let m = s.len() - c;
        assert(spec_chunks(s, c).len() == 1 + (m + c - 1) / (c as int));
        lemma_div_plus_one(m as int + c - 1, c as int);
        assert(c + (m + c - 1) == s.len() + c - 1);
    }
}

/// A chunk's starting position lies inside the sequence.
pub proof fn lemma_chunks_start(s: Seq<u128>, c: nat, i: int)
    requires
        c > 0,
        0 <= i < spec_chunks(s, c).len(),
    ensures
        c * i < s.len(),
    decreases s.len(),
{
    if s.len() == 0 {
    } else if s.len() <= c {
        assert(c * 0 == 0) by (nonlinear_arith);
    } else {
        if i == 0 {
            assert(c * 0 == 0) by (nonlinear_arith);
        } else {
            let rest = s.skip(c as int);
            lemma_chunks_start(rest, c, i - 1);
            assert(c * i == c + c * (i - 1)) by (nonlinear_arith);
        }
    }
}

/// Each chunk is the corresponding window of the original sequence: chunk `i`
/// holds the values at positions `c * i` up to `c * (i + 1)` (capped at the
/// end). In particular every chunk but the last has length `c`, and the last
/// has length `len mod c`, or `c` when `c` divides `len`.
pub proof fn lemma_chunks_index(s: Seq<u128>, c: nat, i: int)
    requires
        c > 0,
        0 <= i < spec_chunks(s, c).len(),
    ensures
        spec_chunks(s, c)[i] =~= s.subrange(
            c * i,
            if c * (i + 1) <= s.len() { c * (i + 1) } else { s.len() as int },
        ),
    decreases s.len(),
{
    lemma_chunks_start(s, c, i);
    assert(c * i <= c * (i + 1)) by (nonlinear_arith)
        requires c > 0 && i >= 0;
    let cap = if c * (i + 1) <= s.len() { c * (i + 1) } else { s.len() as int };
    if s.len() == 0 {
    } else if s.len() <= c {
        assert(i == 0);
        assert(c * 0 == 0) by (nonlinear_arith);
        assert(c * (0 + 1) == c) by (nonlinear_arith);
        assert(cap == s.len());
        assert(spec_chunks(s, c)[0] =~= s.subrange(0, s.len() as int));
        assert(spec_chunks(s, c)[i] =~= s.subrange(c * i, cap));
    } else {
        if i == 0 {
            assert(c * 0 == 0) by (nonlinear_arith);
            assert(c * (0 + 1) == c) by (nonlinear_arith);
            assert(cap == c as int);
            assert(spec_chunks(s, c)[0] =~= s.subrange(0, c as int));
            assert(spec_chunks(s, c)[i] =~= s.subrange(c * i, cap));
        } else {
            let rest = s.skip(c as int);
            assert(spec_chunks(s, c)[i] =~= spec_chunks(rest, c)[i - 1]);
            lemma_chunks_index(rest, c, i - 1);
            lemma_chunks_start(rest, c, i - 1);
            assert(c * ((i - 1) + 1) == c * i) by (nonlinear_arith);
            assert(c * i == c + c * (i - 1)) by (nonlinear_arith);
            assert(c * (i + 1) == c + c * i) by (nonlinear_arith);
            let cap_r = if c * i <= rest.len() { c * i } else { rest.len() as int };
            assert(cap == c + cap_r);
            assert(rest.subrange(c * (i - 1), cap_r) =~= s.subrange(c * i, cap));
            assert(spec_chunks(s, c)[i] =~= s.subrange(c * i, cap));
        }
    }
    assert(spec_chunks(s, c)[i] =~= s.subrange(
        c * i,
        if c * (i + 1) <= s.len() { c * (i + 1) } else { s.len() as int },
    ));
}

/// The length of the final chunk: the remainder of the division, or a full
/// `c` when the division is even.
pub proof fn lemma_chunks_last(s: Seq<u128>, c: nat)
    requires
        c > 0,
        s.len() > 0,
    ensures
        spec_chunks(s, c).last().len() == if s.len() % c == 0 {
            c as int
        } else {
            (s.len() % c) as int
        },
    decreases s.len(),
{
    if s.len() <= c {
        if s.len() == c {
            vstd::arithmetic::div_mod::lemma_mod_self_0(c as int);
        } else {
            vstd::arithmetic::div_mod::lemma_small_mod(s.len(), c);
        }
    } else {
        let rest = s.skip(c as int);
        lemma_chunks_last(rest, c);
        assert(spec_chunks(s, c).last() =~= spec_chunks(rest, c).last());
        lemma_mod_sub_multiples_vanish(s.len() as int, c as int);
        assert((-(c as int) + s.len()) == rest.len());
    }
}

/// Cut a vector into chunks of `size` values, the last chunk taking whatever
/// remains.
pub fn chunks_of(data: &Vec<u128>, size: usize) -> (r: Vec<Vec<u128>>)
    requires
        size > 0,
    ensures
        r@.map_values(|v: Vec<u128>| v@) =~= spec_chunks(data@, size as nat),
{
    let ghost c = size as nat;
    let mut out: Vec<Vec<u128>> = Vec::new();
    let mut i: usize = 0;
    proof {
        assert(data@.skip(0) =~= data@);
        assert(out@.map_values(|v: Vec<u128>| v@) =~= Seq::<Seq<u128>>::empty());
    }
    while i < data.len()
        invariant
            size > 0,
            c == size as nat,
            i <= data.len(),
            spec_chunks(data@, c) =~= out@.map_values(|v: Vec<u128>| v@) + spec_chunks(
                data@.skip(i as int),
                c,
            ),
        decreases data.len() - i,
    {
        let remaining = data.len() - i;
        let end = if remaining < size {
            data.len()
        } else {
            i + size
        };
        let chunk = slice_to_vec(slice_subrange(data.as_slice(), i, end));
        let ghost prev = out@.map_values(|v: Vec<u128>| v@);
        let ghost tail = data@.skip(i as int);
        out.push(chunk);
        proof {
            assert(out@.map_values(|v: Vec<u128>| v@) =~= prev + seq![chunk@]);
            if remaining <= size {
                assert(spec_chunks(tail, c) =~= seq![tail]);
                assert(chunk@ =~= tail);
                assert(data@.skip(end as int).len() == 0);
                assert(spec_chunks(data@.skip(end as int), c) =~= Seq::<Seq<u128>>::empty());
            } else {
                assert(chunk@ =~= tail.take(size as int));
                assert(tail.skip(size as int) =~= data@.skip(end as int));
                assert(spec_chunks(tail, c) =~= seq![chunk@] + spec_chunks(
                    data@.skip(end as int),
                    c,
                ));
            }
            assert(spec_chunks(data@, c) =~= out@.map_values(|v: Vec<u128>| v@) + spec_chunks(
                data@.skip(end as int),
                c,
            ));
        }
        i = end;
    }
    proof {
        assert(spec_chunks(data@.skip(i as int), c) =~= Seq::<Seq<u128>>::empty());
        assert(out@.map_values(|v: Vec<u128>| v@) =~= spec_chunks(data@, c));
    }
    out
}

} // verus!
