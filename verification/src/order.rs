//! A stable insertion sort over any type with a total preorder, proved to
//! return a sorted permutation of its input.

use vstd::prelude::*;
use vstd::seq_lib::*;
use vstd::multiset::Multiset;

verus! {

/// A type with a total preorder on its values, computable and proved.
pub trait Ordered: Sized {
    spec fn key_le(self, other: Self) -> bool;

    fn le(&self, other: &Self) -> (r: bool)
        ensures
            r == self.key_le(*other),
    ;

    proof fn lemma_total_preorder(a: Self, b: Self, c: Self)
        ensures
            a.key_le(a),
            a.key_le(b) && b.key_le(c) ==> a.key_le(c),
            a.key_le(b) || b.key_le(a),
    ;
}

/// Every element is at most every later one.
pub open spec fn sorted<T: Ordered>(s: Seq<T>) -> bool {
    forall|i: int, j: int| 0 <= i < j < s.len() ==> #[trigger] s[i].key_le(#[trigger] s[j])
}

/// Sorts `v` by its preorder; equal elements keep their relative order.
pub fn sort_stable<T: Ordered>(v: Vec<T>) -> (r: Vec<T>)
    ensures
        sorted(r@),
        r@.to_multiset() =~= v@.to_multiset(),
        r@.len() == v@.len(),
{
    broadcast use vstd::seq_lib::group_to_multiset_ensures, vstd::multiset::group_multiset_axioms;

    let ghost original = v@;
    let mut rest = v;
    let mut out: Vec<T> = Vec::new();
    assert(out@.to_multiset() =~= Multiset::empty());
    while rest.len() > 0
        invariant
            sorted(out@),
            out@.to_multiset().add(rest@.to_multiset()) =~= original.to_multiset(),
        decreases rest.len(),
    {
        let ghost before = rest@;
        let x = rest.remove(0);
        assert(before.remove(0) == rest@);
        proof {
            to_multiset_remove(before, 0);
            assert(before.contains(x)) by {
                assert(before[0] == x);
            }
            to_multiset_contains(before, x);
        }
        let mut p: usize = 0;
        while p < out.len() && out[p].le(&x)
            invariant
                p <= out.len(),
                sorted(out@),
                forall|j: int| 0 <= j < p ==> #[trigger] out@[j].key_le(x),
            decreases out.len() - p,
        {
            p = p + 1;
        }
        proof {
            if p < out.len() {
                T::lemma_total_preorder(out@[p as int], x, x);
                assert forall|j: int| p <= j < out.len() implies x.key_le(#[trigger] out@[j]) by {
                    if j > p {
                        assert(out@[p as int].key_le(out@[j]));
                    }
                    T::lemma_total_preorder(x, out@[p as int], out@[j]);
                }
            }
        }
        let ghost old_out = out@;
        out.insert(p, x);
        proof {
            assert(out@ =~= old_out.insert(p as int, x));
            to_multiset_insert(old_out, p as int, x);
            assert forall|i: int, j: int| 0 <= i < j < out@.len() implies #[trigger] out@[i].key_le(
                #[trigger] out@[j],
            ) by {
                if i < p && j == p {
                } else if i < p && j > p {
                    assert(old_out[i].key_le(x));
                    assert(x.key_le(old_out[j - 1]));
                    T::lemma_total_preorder(old_out[i], x, old_out[j - 1]);
                } else if i == p {
                } else if i < p {
                } else {
                    assert(old_out[i - 1].key_le(old_out[j - 1]));
                }
            }
        }
    }
    assert(rest@.to_multiset() =~= Multiset::empty());
    proof {
        to_multiset_len(out@);
        to_multiset_len(original);
    }
    out
}

} // verus!
