//! Ordered maps kept as vectors sorted by a two-part text key, as an ordered
//! map of text keys (or of pairs of text keys) iterates.

use vstd::prelude::*;
use crate::text::{text_lt, text_less, str_eq, lemma_text_order};

verus! {

/// A value that carries its own key: a pair of texts (the second part is empty for single keys).
pub trait Keyed: Sized {
    spec fn key(&self) -> (Seq<char>, Seq<char>);

    fn key_first(&self) -> (r: &str)
        ensures
            r@ == self.key().0,
    ;

    fn key_second(&self) -> (r: &str)
        ensures
            r@ == self.key().1,
    ;
}

/// Lexicographic order on key pairs.
pub open spec fn pair_lt(a: (Seq<char>, Seq<char>), b: (Seq<char>, Seq<char>)) -> bool {
    text_lt(a.0, b.0) || (a.0 == b.0 && text_lt(a.1, b.1))
}

pub proof fn lemma_pair_order(
    a: (Seq<char>, Seq<char>),
    b: (Seq<char>, Seq<char>),
    c: (Seq<char>, Seq<char>),
)
    ensures
        !pair_lt(a, a),
        pair_lt(a, b) && pair_lt(b, c) ==> pair_lt(a, c),
        !pair_lt(a, b) && !pair_lt(b, a) ==> a == b,
{
    lemma_text_order(a.0, b.0, c.0);
    lemma_text_order(a.1, b.1, c.1);
    lemma_text_order(a.0, a.0, a.0);
    lemma_text_order(a.1, a.1, a.1);
    lemma_text_order(b.0, a.0, c.0);
    lemma_text_order(b.1, a.1, c.1);
}

/// Keys strictly increase along the sequence, so each key occurs at most once.
pub open spec fn keys_sorted<T: Keyed>(s: Seq<T>) -> bool {
    forall|i: int, j: int| 0 <= i < j < s.len() ==> pair_lt(#[trigger] s[i].key(), #[trigger] s[j].key())
}

pub open spec fn has_key<T: Keyed>(s: Seq<T>, k: (Seq<char>, Seq<char>)) -> bool {
    exists|i: int| 0 <= i < s.len() && #[trigger] s[i].key() == k
}

/// The entry with key `k`.
pub open spec fn lookup<T: Keyed>(s: Seq<T>, k: (Seq<char>, Seq<char>)) -> Option<T> {
    if has_key(s, k) {
        Some(s[choose|i: int| 0 <= i < s.len() && #[trigger] s[i].key() == k])
    } else {
        None
    }
}

/// In a sorted sequence, the entry at a position is the one its key finds.
pub proof fn lemma_lookup_at<T: Keyed>(s: Seq<T>, i: int)
    requires
        keys_sorted(s),
        0 <= i < s.len(),
    ensures
        lookup(s, s[i].key()) == Some(s[i]),
{
    assert(has_key(s, s[i].key()));
    let j = choose|j: int| 0 <= j < s.len() && #[trigger] s[j].key() == s[i].key();
    if j != i {
        lemma_pair_order(s[i].key(), s[j].key(), s[j].key());
        if i < j {
            assert(pair_lt(s[i].key(), s[j].key()));
        } else {
            assert(pair_lt(s[j].key(), s[i].key()));
        }
    }
}

proof fn lemma_filter_singleton_len<T>(x: T, f: spec_fn(T) -> bool)
    ensures
        seq![x].filter(f).len() == (if f(x) { 1nat } else { 0nat }),
{
    reveal(Seq::filter);
    assert(seq![x].drop_last() =~= Seq::<T>::empty());
    assert(Seq::<T>::empty().filter(f) =~= Seq::<T>::empty());
}

/// Replacing or inserting one entry `x` adds at most one entry that `f` keeps, and only if `f`
/// keeps `x`.
pub proof fn lemma_filter_len_after_put<T>(a: Seq<T>, b: Seq<T>, x: T, f: spec_fn(T) -> bool)
    requires
        (exists|i: int| 0 <= i < a.len() && b == #[trigger] a.update(i, x))
            || (exists|i: int| 0 <= i <= a.len() && b == #[trigger] a.insert(i, x)),
    ensures
        b.filter(f).len() <= a.filter(f).len() + (if f(x) { 1nat } else { 0nat }),
{
    broadcast use Seq::filter_distributes_over_add;
    lemma_filter_singleton_len(x, f);
    if exists|i: int| 0 <= i < a.len() && b == #[trigger] a.update(i, x) {
        let i = choose|i: int| 0 <= i < a.len() && b == #[trigger] a.update(i, x);
        assert(a =~= a.take(i) + seq![a[i]] + a.skip(i + 1));
        assert(b =~= a.take(i) + seq![x] + a.skip(i + 1));
        lemma_filter_singleton_len(a[i], f);
        assert((a.take(i) + seq![a[i]] + a.skip(i + 1)).filter(f)
            == a.take(i).filter(f) + seq![a[i]].filter(f) + a.skip(i + 1).filter(f));
        assert((a.take(i) + seq![x] + a.skip(i + 1)).filter(f)
            == a.take(i).filter(f) + seq![x].filter(f) + a.skip(i + 1).filter(f));
    } else {
        let i = choose|i: int| 0 <= i <= a.len() && b == #[trigger] a.insert(i, x);
        assert(a =~= a.take(i) + a.skip(i));
        assert(b =~= a.take(i) + seq![x] + a.skip(i));
        assert((a.take(i) + a.skip(i)).filter(f) == a.take(i).filter(f) + a.skip(i).filter(f));
        assert((a.take(i) + seq![x] + a.skip(i)).filter(f)
            == a.take(i).filter(f) + seq![x].filter(f) + a.skip(i).filter(f));
    }
}

/// Finds the position of key `(a, b)`.
pub fn find<T: Keyed>(v: &Vec<T>, a: &str, b: &str) -> (r: Option<usize>)
    requires
        keys_sorted(v@),
    ensures
        match r {
            Some(i) => i < v@.len() && v@[i as int].key() == (a@, b@) && lookup(v@, (a@, b@)) == Some(
                v@[i as int],
            ),
            None => lookup(v@, (a@, b@)) is None,
        },
{
    let mut i: usize = 0;
    while i < v.len()
        invariant
            i <= v@.len(),
            keys_sorted(v@),
            forall|j: int| 0 <= j < i ==> #[trigger] v@[j].key() != (a@, b@),
        decreases v@.len() - i,
    {
        if str_eq(v[i].key_first(), a) && str_eq(v[i].key_second(), b) {
            proof {
                lemma_lookup_at(v@, i as int);
            }
            return Some(i);
        }
        i = i + 1;
    }
    None
}

/// Whether `x` comes before key `(a, b)`.
fn key_before<T: Keyed>(x: &T, a: &str, b: &str) -> (r: bool)
    ensures
        r == pair_lt(x.key(), (a@, b@)),
{
    let x0 = x.key_first();
    let x1 = x.key_second();
    text_less(x0, a) || (str_eq(x0, a) && text_less(x1, b))
}

/// Inserts `item`, replacing the entry with the same key if there is one.
pub fn upsert<T: Keyed>(v: &mut Vec<T>, item: T)
    requires
        keys_sorted(old(v)@),
    ensures
        keys_sorted(final(v)@),
        lookup(final(v)@, item.key()) == Some(item),
        forall|k: (Seq<char>, Seq<char>)| k != item.key() ==> lookup(final(v)@, k) == lookup(old(v)@, k),
        has_key(old(v)@, item.key()) ==> final(v)@.len() == old(v)@.len(),
        !has_key(old(v)@, item.key()) ==> final(v)@.len() == old(v)@.len() + 1,
        (exists|i: int| 0 <= i < old(v)@.len() && final(v)@ == #[trigger] old(v)@.update(i, item))
            || (exists|i: int| 0 <= i <= old(v)@.len() && final(v)@ == #[trigger] old(v)@.insert(i, item)),
{
    let ghost k = item.key();
    let mut p: usize = 0;
    while p < v.len() && key_before(&v[p], item.key_first(), item.key_second())
        invariant
            p <= v@.len(),
            k == item.key(),
            keys_sorted(v@),
            forall|j: int| 0 <= j < p ==> pair_lt(#[trigger] v@[j].key(), k),
        decreases v@.len() - p,
    {
        p = p + 1;
    }
    let ghost before = v@;
    proof {
        // Every entry from `p` on has a key at least `k`.
        assert forall|j: int| p <= j < before.len() implies !pair_lt(#[trigger] before[j].key(), k) by {
            if j > p {
                assert(pair_lt(before[p as int].key(), before[j].key()));
                lemma_pair_order(before[p as int].key(), before[j].key(), k);
                lemma_pair_order(before[j].key(), k, before[j].key());
                if pair_lt(before[j].key(), k) {
                    lemma_pair_order(before[p as int].key(), before[j].key(), k);
                }
            }
        }
    }
    if p < v.len() && str_eq(v[p].key_first(), item.key_first()) && str_eq(
        v[p].key_second(),
        item.key_second(),
    ) {
        v.set(p, item);
        proof {
            assert(v@ == before.update(p as int, item));
            assert forall|i: int, j: int| 0 <= i < j < v@.len() implies pair_lt(
                #[trigger] v@[i].key(),
                #[trigger] v@[j].key(),
            ) by {
                assert(pair_lt(before[i].key(), before[j].key()));
            }
            lemma_lookup_at(v@, p as int);
            assert(has_key(before, k)) by {
                assert(before[p as int].key() == k);
            }
            assert forall|k2: (Seq<char>, Seq<char>)| k2 != k implies lookup(v@, k2) == lookup(
                before,
                k2,
            ) by {
                if has_key(before, k2) {
                    let j = choose|j: int| 0 <= j < before.len() && #[trigger] before[j].key() == k2;
                    lemma_lookup_at(before, j);
                    assert(v@[j].key() == k2);
                    lemma_lookup_at(v@, j);
                } else {
                    assert forall|j: int| 0 <= j < v@.len() implies #[trigger] v@[j].key() != k2 by {
                        if j != p {
                            assert(v@[j] == before[j]);
                        }
                    }
                }
            }
        }
    } else {
        proof {
            if p < before.len() {
                lemma_pair_order(before[p as int].key(), k, k);
                assert(pair_lt(k, before[p as int].key()));
                assert forall|j: int| p <= j < before.len() implies pair_lt(k, #[trigger] before[j].key()) by {
                    if j > p {
                        assert(pair_lt(before[p as int].key(), before[j].key()));
                        lemma_pair_order(k, before[p as int].key(), before[j].key());
                    }
                }
            }
            assert forall|j: int| 0 <= j < before.len() implies #[trigger] before[j].key() != k by {
                if j < p {
                    lemma_pair_order(k, k, k);
                } else {
                    lemma_pair_order(k, k, k);
                }
            }
        }
        v.insert(p, item);
        proof {
            assert(v@ == before.insert(p as int, item));
            assert forall|i: int, j: int| 0 <= i < j < v@.len() implies pair_lt(
                #[trigger] v@[i].key(),
                #[trigger] v@[j].key(),
            ) by {
                if i < p && j == p {
                } else if i < p && j > p {
                    lemma_pair_order(before[i].key(), k, before[j - 1].key());
                } else if i == p {
                } else if i < p {
                } else {
                    assert(pair_lt(before[i - 1].key(), before[j - 1].key()));
                }
            }
            lemma_lookup_at(v@, p as int);
            assert forall|k2: (Seq<char>, Seq<char>)| k2 != k implies lookup(v@, k2) == lookup(
                before,
                k2,
            ) by {
                if has_key(before, k2) {
                    let j = choose|j: int| 0 <= j < before.len() && #[trigger] before[j].key() == k2;
                    lemma_lookup_at(before, j);
                    let jj = if j < p { j } else { j + 1 };
                    assert(v@[jj] == before[j]);
                    lemma_lookup_at(v@, jj);
                } else {
                    assert forall|j: int| 0 <= j < v@.len() implies #[trigger] v@[j].key() != k2 by {
                        if j < p {
                            assert(v@[j] == before[j]);
                        } else if j > p {
                            assert(v@[j] == before[j - 1]);
                        }
                    }
                }
            }
        }
    }
}

/// Removes the entry with key `(a, b)` and returns it.
pub fn remove_key<T: Keyed>(v: &mut Vec<T>, a: &str, b: &str) -> (r: Option<T>)
    requires
        keys_sorted(old(v)@),
    ensures
        keys_sorted(final(v)@),
        r == lookup(old(v)@, (a@, b@)),
        r is None ==> final(v)@ == old(v)@,
        lookup(final(v)@, (a@, b@)) is None,
        forall|k: (Seq<char>, Seq<char>)| k != (a@, b@) ==> lookup(final(v)@, k) == lookup(old(v)@, k),
{
    match find(v, a, b) {
        None => None,
        Some(i) => {
            let ghost before = v@;
            let x = v.remove(i);
            proof {
                let k = (a@, b@);
                assert(v@ == before.remove(i as int));
                assert forall|p: int, q: int| 0 <= p < q < v@.len() implies pair_lt(
                    #[trigger] v@[p].key(),
                    #[trigger] v@[q].key(),
                ) by {
                    if p < i && q >= i {
                        assert(pair_lt(before[p].key(), before[q + 1].key()));
                    } else if p >= i {
                        assert(pair_lt(before[p + 1].key(), before[q + 1].key()));
                    } else {
                        assert(pair_lt(before[p].key(), before[q].key()));
                    }
                }
                assert forall|j: int| 0 <= j < v@.len() implies #[trigger] v@[j].key() != k by {
                    let jj = if j < i { j } else { j + 1 };
                    assert(v@[j] == before[jj]);
                    if jj < i {
                        assert(pair_lt(before[jj].key(), before[i as int].key()));
                    } else {
                        assert(pair_lt(before[i as int].key(), before[jj].key()));
                    }
                    lemma_pair_order(k, k, k);
                }
                assert forall|k2: (Seq<char>, Seq<char>)| k2 != k implies lookup(v@, k2) == lookup(
                    before,
                    k2,
                ) by {
                    if has_key(before, k2) {
                        let j = choose|j: int| 0 <= j < before.len() && #[trigger] before[j].key() == k2;
                        lemma_lookup_at(before, j);
                        assert(j != i);
                        let jj = if j < i { j } else { j - 1 };
                        assert(v@[jj] == before[j]);
                        lemma_lookup_at(v@, jj);
                    } else {
                        assert forall|j: int| 0 <= j < v@.len() implies #[trigger] v@[j].key() != k2 by {
                            let jj = if j < i { j } else { j + 1 };
                            assert(v@[j] == before[jj]);
                        }
                    }
                }
            }
            Some(x)
        },
    }
}

/// The last entry of `list` with key `k`.
pub open spec fn last_with_key<T: Keyed>(list: Seq<T>, k: (Seq<char>, Seq<char>)) -> Option<T>
    decreases list.len(),
{
    if list.len() == 0 {
        None
    } else if list.last().key() == k {
        Some(list.last())
    } else {
        last_with_key(list.drop_last(), k)
    }
}

/// Builds an ordered map from a list of entries; a later entry replaces an earlier one with the
/// same key, as collecting into an ordered map does.
pub fn collect_map<T: Keyed>(list: Vec<T>) -> (r: Vec<T>)
    ensures
        keys_sorted(r@),
        forall|k: (Seq<char>, Seq<char>)| #[trigger] lookup(r@, k) == last_with_key(list@, k),
{
    let ghost original = list@;
    let mut rest = list;
    let mut out: Vec<T> = Vec::new();
    let mut taken: usize = 0;
    assert(original.len() == rest.len());
    while rest.len() > 0
        invariant
            keys_sorted(out@),
            taken + rest@.len() == original.len(),
            original.len() <= usize::MAX,
            rest@ == original.subrange(taken as int, original.len() as int),
            forall|k: (Seq<char>, Seq<char>)| #[trigger] lookup(out@, k) == last_with_key(
                original.subrange(0, taken as int),
                k,
            ),
        decreases rest.len(),
    {
        let ghost before_rest = rest@;
        let x = rest.remove(0);
        assert(x == original[taken as int]);
        let ghost prefix = original.subrange(0, taken + 1);
        assert(prefix.drop_last() =~= original.subrange(0, taken as int));
        assert(prefix.last() == x);
        upsert(&mut out, x);
        taken = taken + 1;
        assert(rest@ =~= original.subrange(taken as int, original.len() as int));
    }
    assert(original.subrange(0, taken as int) =~= original);
    out
}

} // verus!
