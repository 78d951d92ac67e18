//! Ordering of the three lengths of a parcel or container.

use vstd::multiset::Multiset;
use vstd::prelude::*;

verus! {

/// True when `s` is ordered ascending.
pub open spec fn is_sorted(s: Seq<u64>) -> bool {
    forall|i: int, j: int| 0 <= i <= j < s.len() ==> s[i] <= s[j]
}

/// The smallest of three values.
pub open spec fn min3(a: u64, b: u64, c: u64) -> u64 {
    if a <= b && a <= c {
        a
    } else if b <= c {
        b
    } else {
        c
    }
}

/// The middle one of three values.
pub open spec fn mid3(a: u64, b: u64, c: u64) -> u64 {
    if (b <= a && a <= c) || (c <= a && a <= b) {
        a
    } else if (a <= b && b <= c) || (c <= b && b <= a) {
        b
    } else {
        c
    }
}

/// The largest of three values.
pub open spec fn max3(a: u64, b: u64, c: u64) -> u64 {
    if a >= b && a >= c {
        a
    } else if b >= c {
        b
    } else {
        c
    }
}

/// The ascending reordering of a three-element sequence.
pub open spec fn sort3(s: Seq<u64>) -> Seq<u64> {
    seq![min3(s[0], s[1], s[2]), mid3(s[0], s[1], s[2]), max3(s[0], s[1], s[2])]
}

/// Sorting three values yields an ascending sequence.
pub proof fn lemma_sort3_sorted(s: Seq<u64>)
    requires
        s.len() == 3,
    ensures
        is_sorted(sort3(s)),
        sort3(s).len() == 3,
{
}

/// Sorting keeps exactly the stored values, multiplicity included.
pub proof fn lemma_sort3_permutes(s: Seq<u64>)
    requires
        s.len() == 3,
    ensures
        sort3(s).to_multiset() == s.to_multiset(),
{
    let t = sort3(s);
    assert(s =~= seq![s[0], s[1], s[2]]);
    lemma_multiset_of_three(s[0], s[1], s[2]);
    lemma_multiset_of_three(t[0], t[1], t[2]);
    assert(t =~= seq![t[0], t[1], t[2]]);
    assert(t.to_multiset() =~= s.to_multiset());
}

/// The multiset of a three-element sequence, written out.
proof fn lemma_multiset_of_three(a: u64, b: u64, c: u64)
    ensures
        seq![a, b, c].to_multiset()
            == Multiset::<u64>::empty().insert(a).insert(b).insert(c),
{
    let s = seq![a, b, c];
    assert(s =~= seq![a, b].push(c));
    assert(seq![a, b] =~= seq![a].push(b));
    assert(seq![a] =~= Seq::<u64>::empty().push(a));
    Seq::<u64>::empty().to_multiset_ensures();
    seq![a].to_multiset_ensures();
    seq![a, b].to_multiset_ensures();
}

/// Returns a copy of the three stored lengths, reordered ascending.
pub fn sorted_copy3(dims: &Vec<u64>) -> (r: Vec<u64>)
    requires
        dims@.len() == 3,
    ensures
        r@ == sort3(dims@),
        is_sorted(r@),
        r@.len() == 3,
{
    let mut a: u64 = dims[0];
    let mut b: u64 = dims[1];
    let mut c: u64 = dims[2];
    if a > b {
        let t: u64 = a;
        a = b;
        b = t;
    }
    if b > c {
        let t: u64 = b;
        b = c;
        c = t;
    }
    if a > b {
        let t: u64 = a;
        a = b;
        b = t;
    }
    let mut r: Vec<u64> = Vec::new();
    r.push(a);
    r.push(b);
    r.push(c);
    proof {
        assert(r@ =~= sort3(dims@));
    }
    r
}

} // verus!
