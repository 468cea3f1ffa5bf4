//! Stable ordering by an integer key (the behaviour of `sort_by_key`).
use vstd::prelude::*;
use vstd::multiset::*;

verus! {

/// A value that is ordered by an integer key.
pub trait SortKey {
    spec fn sort_key(&self) -> int;

    fn key(&self) -> (k: i128)
        ensures
            k == self.sort_key(),
    ;
}

/// The key function of a `SortKey` type.
pub open spec fn key_of<T: SortKey>() -> spec_fn(T) -> int {
    |x: T| x.sort_key()
}

/// `s` (already ordered) with `x` placed after every element whose key is not
/// larger than its own.
pub open spec fn insert_by<T>(s: Seq<T>, x: T, key: spec_fn(T) -> int) -> Seq<T>
    decreases s.len(),
{
    if s.len() == 0 {
        seq![x]
    } else if key(s.last()) <= key(x) {
        s.push(x)
    } else {
        insert_by(s.drop_last(), x, key).push(s.last())
    }
}

/// The stable sort of `s` by `key`: insertion of each element, left to right.
/// This is what `sort_by_key` computes.
pub open spec fn sort_by<T>(s: Seq<T>, key: spec_fn(T) -> int) -> Seq<T>
    decreases s.len(),
{
    if s.len() == 0 {
        s
    } else {
        insert_by(sort_by(s.drop_last(), key), s.last(), key)
    }
}

pub open spec fn sorted_by<T>(s: Seq<T>, key: spec_fn(T) -> int) -> bool {
    forall|i: int, j: int| 0 <= i <= j < s.len() ==> key(s[i]) <= key(s[j])
}

pub open spec fn keys_at_most<T>(s: Seq<T>, key: spec_fn(T) -> int, b: int) -> bool {
    forall|i: int| 0 <= i < s.len() ==> key(s[i]) <= b
}

proof fn lemma_insert_bound<T>(s: Seq<T>, x: T, key: spec_fn(T) -> int, b: int)
    requires
        keys_at_most(s, key, b),
        key(x) <= b,
    ensures
        keys_at_most(insert_by(s, x, key), key, b),
    decreases s.len(),
{
    if s.len() == 0 {
    } else if key(s.last()) <= key(x) {
    } else {
        lemma_insert_bound(s.drop_last(), x, key, b);
    }
}

proof fn lemma_insert_sorted<T>(s: Seq<T>, x: T, key: spec_fn(T) -> int)
    requires
        sorted_by(s, key),
    ensures
        sorted_by(insert_by(s, x, key), key),
        insert_by(s, x, key).len() == s.len() + 1,
        insert_by(s, x, key).to_multiset() == s.to_multiset().insert(x),
    decreases s.len(),
{
    broadcast use vstd::seq_lib::group_to_multiset_ensures;

    if s.len() == 0 {
        assert(seq![x] =~= Seq::<T>::empty().push(x));
        assert(s =~= Seq::<T>::empty());
    } else if key(s.last()) <= key(x) {
    } else {
        let d = s.drop_last();
        assert(sorted_by(d, key));
        lemma_insert_sorted(d, x, key);
        assert(keys_at_most(d, key, key(s.last())));
        lemma_insert_bound(d, x, key, key(s.last()));
        assert(d.push(s.last()) =~= s);
        let r = insert_by(d, x, key);
        assert(r.push(s.last()).to_multiset() == r.to_multiset().insert(s.last()));
        assert(s.to_multiset() == d.to_multiset().insert(s.last()));
        assert(r.to_multiset().insert(s.last()) =~= d.to_multiset().insert(x).insert(s.last()));
        assert(d.to_multiset().insert(x).insert(s.last()) =~= d.to_multiset().insert(s.last()).insert(x));
    }
}

/// Law: the stable sort orders by key, keeps the length, and is a permutation.
pub proof fn lemma_sort_by_sorted_permutation<T>(s: Seq<T>, key: spec_fn(T) -> int)
    ensures
        sorted_by(sort_by(s, key), key),
        sort_by(s, key).len() == s.len(),
        sort_by(s, key).to_multiset() == s.to_multiset(),
    decreases s.len(),
{
    broadcast use vstd::seq_lib::group_to_multiset_ensures;

    if s.len() > 0 {
        lemma_sort_by_sorted_permutation(s.drop_last(), key);
        lemma_insert_sorted(sort_by(s.drop_last(), key), s.last(), key);
        assert(s.drop_last().push(s.last()) =~= s);
    }
}

proof fn lemma_insert_by_map<A, B>(
    s: Seq<A>,
    x: A,
    f: spec_fn(A) -> B,
    ka: spec_fn(A) -> int,
    kb: spec_fn(B) -> int,
)
    requires
        forall|a: A| #[trigger] ka(a) == kb(f(a)),
    ensures
        insert_by(s, x, ka).map_values(f) == insert_by(s.map_values(f), f(x), kb),
    decreases s.len(),
{
    let sm = s.map_values(f);
    if s.len() == 0 {
        assert(insert_by(s, x, ka).map_values(f) =~= seq![f(x)]);
    } else {
        assert(sm.last() == f(s.last()));
        assert(ka(s.last()) == kb(f(s.last())));
        assert(ka(x) == kb(f(x)));
        if ka(s.last()) <= ka(x) {
            assert(s.push(x).map_values(f) =~= sm.push(f(x)));
        } else {
            lemma_insert_by_map(s.drop_last(), x, f, ka, kb);
            assert(sm.drop_last() =~= s.drop_last().map_values(f));
            let r = insert_by(s.drop_last(), x, ka);
            assert(r.push(s.last()).map_values(f) =~= r.map_values(f).push(f(s.last())));
        }
    }
}

/// Sorting commutes with a map that keeps the keys.
pub proof fn lemma_sort_by_map<A, B>(
    s: Seq<A>,
    f: spec_fn(A) -> B,
    ka: spec_fn(A) -> int,
    kb: spec_fn(B) -> int,
)
    requires
        forall|a: A| #[trigger] ka(a) == kb(f(a)),
    ensures
        sort_by(s, ka).map_values(f) == sort_by(s.map_values(f), kb),
    decreases s.len(),
{
    let sm = s.map_values(f);
    if s.len() == 0 {
        assert(sm =~= Seq::<B>::empty());
        assert(sort_by(s, ka).map_values(f) =~= Seq::<B>::empty());
    } else {
        lemma_sort_by_map(s.drop_last(), f, ka, kb);
        assert(sm.drop_last() =~= s.drop_last().map_values(f));
        lemma_insert_by_map(sort_by(s.drop_last(), ka), s.last(), f, ka, kb);
    }
}

/// Law: sorting neither adds nor drops an element.
pub proof fn lemma_sort_by_same_elements<T>(s: Seq<T>, key: spec_fn(T) -> int)
    ensures
        forall|x: T| #[trigger] sort_by(s, key).contains(x) <==> s.contains(x),
{
    broadcast use vstd::seq_lib::group_to_multiset_ensures;

    lemma_sort_by_sorted_permutation(s, key);
    assert forall|x: T| #[trigger] sort_by(s, key).contains(x) <==> s.contains(x) by {
        assert(sort_by(s, key).to_multiset().count(x) == s.to_multiset().count(x));
    }
}

/// Inserts `x` into an ordered vector after all elements of no larger key.
pub fn insert_by_key_vec<T: SortKey>(r: &mut Vec<T>, x: T)
    ensures
        final(r)@ == insert_by(old(r)@, x, key_of::<T>()),
{
    let ghost s = r@;
    let k = x.key();
    let mut p = r.len();
    assert(s.take(p as int) =~= s);
    assert(insert_by(s, x, key_of::<T>()) + s.skip(p as int) =~= insert_by(s, x, key_of::<T>()));
    while p > 0 && r[p - 1].key() > k
        invariant
            r@ == s,
            p <= s.len(),
            k == x.sort_key(),
            insert_by(s, x, key_of::<T>()) == insert_by(s.take(p as int), x, key_of::<T>()) + s.skip(p as int),
        decreases p,
    {
        assert(key_of::<T>()(s[p - 1]) == s[p - 1].sort_key());
        proof {
            let t = s.take(p as int);
            assert(t.last() == s[p - 1]);
            assert(t.drop_last() =~= s.take(p - 1));
            assert(insert_by(t, x, key_of::<T>()) == insert_by(s.take(p - 1), x, key_of::<T>()).push(s[p - 1]));
            assert(insert_by(s.take(p - 1), x, key_of::<T>()).push(s[p - 1]) + s.skip(p as int)
                =~= insert_by(s.take(p - 1), x, key_of::<T>()) + s.skip(p - 1));
        }
        p = p - 1;
    }
    proof {
        let t = s.take(p as int);
        if p == 0 {
            assert(t =~= Seq::<T>::empty());
        } else {
            assert(t.last() == s[p - 1]);
        }
        assert(insert_by(t, x, key_of::<T>()) =~= t.push(x));
        assert(s.insert(p as int, x) =~= t.push(x) + s.skip(p as int));
    }
    r.insert(p, x);
}

/// `sort_by_key` on a vector: the stable sort by key.
pub fn sort_vec_by_key<T: SortKey>(v: Vec<T>) -> (r: Vec<T>)
    ensures
        r@ == sort_by(v@, key_of::<T>()),
{
    let ghost orig = v@;
    let n = v.len();
    let mut rest = v;
    let mut r: Vec<T> = Vec::new();
    let mut k: usize = 0;
    while rest.len() > 0
        invariant
            n == orig.len(),
            k <= orig.len(),
            rest@ == orig.skip(k as int),
            r@ == sort_by(orig.take(k as int), key_of::<T>()),
        decreases rest@.len(),
    {
        assert(rest@.len() == orig.len() - k);
        let x = rest.remove(0);
        proof {
            let t = orig.take(k + 1);
            assert(t.drop_last() =~= orig.take(k as int));
            assert(t.last() == orig[k as int]);
            assert(x == orig[k as int]);
        }
        insert_by_key_vec(&mut r, x);
        k = k + 1;
        assert(rest@ =~= orig.skip(k as int));
    }
    assert(orig.take(k as int) =~= orig);
    r
}

} // verus!
