use vstd::prelude::*;
use vstd::seq_lib::group_to_multiset_ensures;
use rand::seq::IndexedRandom;
use crate::labels::Labels;
use crate::rand_value::fresh_rng;

verus! {

/// Relies on rand's IndexedRandom::sample: `min(amount, len)` elements of the
/// slice, drawn without repetition (distinct positions), in random order.
/// Of the order nothing is assumed; what comes back is a sub-multiset.
#[verifier::external_body]
fn sample_labels(rng: &mut rand::rngs::ThreadRng, data: &Vec<u128>, amount: usize) -> (r: Vec<
    u128,
>)
    ensures
        r@.len() == if amount <= data@.len() {
            amount as int
        } else {
            data@.len() as int
        },
        r@.to_multiset().subset_of(data@.to_multiset()),
{
    data.as_slice().sample(rng, amount).cloned().collect()
}

/// Values never decrease from left to right.
pub open spec fn sorted_nondec(s: Seq<u128>) -> bool {
    forall|i: int, j: int| 0 <= i <= j < s.len() ==> s[i] <= s[j]
}

/// Insert one value into a sorted vector, keeping it sorted.
fn insert_sorted(out: &mut Vec<u128>, x: u128)
    requires
        sorted_nondec(old(out)@),
    ensures
        final(out)@.len() == old(out)@.len() + 1,
        sorted_nondec(final(out)@),
        final(out)@.to_multiset() == old(out)@.to_multiset().insert(x),
{
    broadcast use group_to_multiset_ensures;
    broadcast use vstd::multiset::group_multiset_axioms;

    let mut k: usize = 0;
    while k < out.len() && out[k] < x
        invariant
            k <= out@.len(),
            sorted_nondec(out@),
            forall|m: int| 0 <= m < k ==> out@[m] < x,
            out@ == old(out)@,
        decreases out@.len() - k,
    {
        k += 1;
    }
    let ghost prev = out@;
    out.insert(k, x);
    proof {
        let t = out@;
        assert(t.remove(k as int) =~= prev);
        assert(t[k as int] == x);
        assert(t.remove(k as int).to_multiset() =~= t.to_multiset().remove(x));
        assert(t.to_multiset().contains(x)) by {
            assert(t.contains(x));
        }
        assert(t.to_multiset() =~= prev.to_multiset().insert(x));
    }
}

/// Sort the values of a vector into non-decreasing order, keeping exactly
/// the same values.
fn sort_values(v: &Vec<u128>) -> (r: Vec<u128>)
    ensures
        sorted_nondec(r@),
        r@.to_multiset() == v@.to_multiset(),
        r@.len() == v@.len(),
{
    broadcast use group_to_multiset_ensures;
    broadcast use vstd::multiset::group_multiset_axioms;

    let mut out: Vec<u128> = Vec::new();
    let mut i: usize = 0;
    proof {
        assert(v@.take(0) =~= Seq::<u128>::empty());
        assert(Seq::<u128>::empty().to_multiset() =~= out@.to_multiset());
    }
    while i < v.len()
        invariant
            i <= v@.len(),
            out@.len() == i,
            sorted_nondec(out@),
            out@.to_multiset() == v@.take(i as int).to_multiset(),
        decreases v@.len() - i,
    {
        insert_sorted(&mut out, v[i]);
        i += 1;
        proof {
            let x = v@[i as int - 1];
            assert(v@.take(i as int) =~= v@.take(i as int - 1).push(x));
            vstd::seq_lib::to_multiset_build::<u128>(v@.take(i as int - 1), x);
        }
    }
    proof {
        assert(v@.take(v@.len() as int) =~= v@);
    }
    out
}

/// Drawing without replacement from a duplicate-free pool keeps the drawn
/// values duplicate-free; with the sorted order this makes the submitted
/// ordering canonical: it depends on nothing but which assets were chosen.
pub proof fn lemma_pick_from_distinct_is_distinct(chosen: Seq<u128>, market: Seq<u128>)
    requires
        market.no_duplicates(),
        chosen.to_multiset().subset_of(market.to_multiset()),
    ensures
        chosen.no_duplicates(),
{
    broadcast use vstd::multiset::group_multiset_axioms;

    market.lemma_multiset_has_no_duplicates();
    assert forall|x: u128| chosen.to_multiset().contains(x) implies chosen.to_multiset().count(x)
        == 1 by {
        assert(chosen.to_multiset().count(x) <= market.to_multiset().count(x));
        assert(market.to_multiset().contains(x));
    }
    chosen.lemma_multiset_has_no_duplicates_conv();
}

/// Choose `index_size` distinct assets from the market set, uniformly and
/// without replacement, and hand them back in canonical sorted order: the
/// sampling is randomized, but the submitted order is deterministic. When
/// the market holds fewer assets than asked for, all of them are chosen.
pub fn rand_pick_assets(assets: &Labels, index_size: usize) -> (r: Labels)
    ensures
        r@.len() == if index_size <= assets@.len() {
            index_size as int
        } else {
            assets@.len() as int
        },
        sorted_nondec(r@),
        r@.to_multiset().subset_of(assets@.to_multiset()),
        assets@.no_duplicates() ==> r@.no_duplicates(),
{
    let mut rng = fresh_rng();
    let chosen = sample_labels(&mut rng, &assets.data, index_size);
    let sorted = sort_values(&chosen);
    let r = Labels::from_vec_u128(sorted);
    proof {
        if assets@.no_duplicates() {
            lemma_pick_from_distinct_is_distinct(r@, assets@);
        }
    }
    r
}

} // verus!
