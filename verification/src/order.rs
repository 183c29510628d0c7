//! The order of names: character by character, a prefix before what extends
//! it; and a merge sort of strings by that order.

use vstd::prelude::*;
use vstd::relations::{sorted_by, total_ordering};
use vstd::seq_lib::lemma_multiset_commutative;
use crate::text::{chars_of, views};

verus! {

/// Whether `a` stands before `b`, or is `b`, in the order of names.
pub open spec fn lex_le(a: Seq<char>, b: Seq<char>) -> bool
    decreases a.len(),
{
    if a.len() == 0 {
        true
    } else if b.len() == 0 {
        false
    } else if a[0] == b[0] {
        lex_le(a.drop_first(), b.drop_first())
    } else {
        (a[0] as u32) < (b[0] as u32)
    }
}

/// The order of names as a relation.
pub open spec fn name_order() -> spec_fn(Seq<char>, Seq<char>) -> bool {
    |a: Seq<char>, b: Seq<char>| lex_le(a, b)
}

/// Every name stands in the order with itself.
pub proof fn lemma_lex_le_reflexive(a: Seq<char>)
    ensures
        lex_le(a, a),
    decreases a.len(),
{
    if a.len() > 0 {
        lemma_lex_le_reflexive(a.drop_first());
    }
}

/// Two names that stand before each other are one name.
pub proof fn lemma_lex_le_antisymmetric(a: Seq<char>, b: Seq<char>)
    requires
        lex_le(a, b),
        lex_le(b, a),
    ensures
        a == b,
    decreases a.len(),
{
    if a.len() == 0 || b.len() == 0 {
        assert(a =~= b);
    } else {
        lemma_lex_le_antisymmetric(a.drop_first(), b.drop_first());
        assert(a =~= seq![a[0]] + a.drop_first());
        assert(b =~= seq![b[0]] + b.drop_first());
    }
}

/// The order of names passes on from pair to pair.
pub proof fn lemma_lex_le_transitive(a: Seq<char>, b: Seq<char>, c: Seq<char>)
    requires
        lex_le(a, b),
        lex_le(b, c),
    ensures
        lex_le(a, c),
    decreases a.len(),
{
    if a.len() > 0 && b.len() > 0 && c.len() > 0 && a[0] == b[0] && b[0] == c[0] {
        lemma_lex_le_transitive(a.drop_first(), b.drop_first(), c.drop_first());
    }
}

/// Of two names one stands before the other.
pub proof fn lemma_lex_le_connected(a: Seq<char>, b: Seq<char>)
    ensures
        lex_le(a, b) || lex_le(b, a),
    decreases a.len(),
{
    if a.len() > 0 && b.len() > 0 {
        if a[0] == b[0] {
            lemma_lex_le_connected(a.drop_first(), b.drop_first());
        } else if a[0] as u32 == b[0] as u32 {
            vstd::utf8::char_u32_cast(a[0], a[0] as u32);
            vstd::utf8::char_u32_cast(b[0], a[0] as u32);
        }
    }
}

/// The order of names is a total order.
pub proof fn lemma_name_order_total()
    ensures
        total_ordering(name_order()),
{
    let r = name_order();
    assert forall|x: Seq<char>| #[trigger] r(x, x) by {
        lemma_lex_le_reflexive(x);
    }
    assert forall|x: Seq<char>, y: Seq<char>| #[trigger] r(x, y) && #[trigger] r(y, x) implies x
        == y by {
        lemma_lex_le_antisymmetric(x, y);
    }
    assert forall|x: Seq<char>, y: Seq<char>, z: Seq<char>| #[trigger]
        r(x, y) && #[trigger] r(y, z) implies r(x, z) by {
        lemma_lex_le_transitive(x, y, z);
    }
    assert forall|x: Seq<char>, y: Seq<char>| #[trigger] r(x, y) || #[trigger] r(y, x) by {
        lemma_lex_le_connected(x, y);
    }
}

/// Whether `a` stands before `b`, or is `b`, in the order of names.
pub fn name_le(a: &Vec<char>, b: &Vec<char>) -> (r: bool)
    ensures
        r == lex_le(a@, b@),
{
    let mut i: usize = 0;
    assert(a@.skip(0) =~= a@ && b@.skip(0) =~= b@);
    loop
        invariant
            i <= a.len(),
            i <= b.len(),
            lex_le(a@, b@) == lex_le(a@.skip(i as int), b@.skip(i as int)),
        decreases a.len() - i,
    {
        if i == a.len() {
            return true;
        }
        if i == b.len() {
            return false;
        }
        let x = a[i];
        let y = b[i];
        assert(a@.skip(i as int)[0] == x && b@.skip(i as int)[0] == y);
        if x != y {
            return (x as u32) < (y as u32);
        }
        assert(a@.skip(i as int).drop_first() =~= a@.skip(i + 1));
        assert(b@.skip(i as int).drop_first() =~= b@.skip(i + 1));
        i += 1;
    }
}

/// The name at each place of `idx`, where `keys` holds the names.
pub open spec fn keyed(keys: Seq<Vec<char>>, idx: Seq<usize>) -> Seq<Seq<char>> {
    idx.map_values(|i: usize| keys[i as int]@)
}

/// Whether `idx` names places of `keys` whose names ascend.
pub open spec fn ascending(keys: Seq<Vec<char>>, idx: Seq<usize>) -> bool {
    &&& forall|i: int| 0 <= i < idx.len() ==> (#[trigger] idx[i]) < keys.len()
    &&& forall|i: int, j: int|
        0 <= i < j < idx.len() ==> lex_le(
            #[trigger] keys[idx[i] as int]@,
            #[trigger] keys[idx[j] as int]@,
        )
}

/// The places from `lo` up to `hi`, in order.
pub open spec fn places(lo: int, hi: int) -> Seq<usize> {
    Seq::new((hi - lo) as nat, |k: int| (lo + k) as usize)
}

/// Merges two ascending runs of places into one.
fn merge(keys: &Vec<Vec<char>>, left: &Vec<usize>, right: &Vec<usize>) -> (out: Vec<usize>)
    requires
        ascending(keys@, left@),
        ascending(keys@, right@),
    ensures
        ascending(keys@, out@),
        out@.to_multiset() == left@.to_multiset().add(right@.to_multiset()),
{
    broadcast use vstd::seq_lib::group_to_multiset_ensures;
    broadcast use vstd::multiset::group_multiset_axioms;

    let mut out: Vec<usize> = Vec::new();
    let mut i: usize = 0;
    let mut j: usize = 0;
    assert(left@.take(0) =~= Seq::empty());
    assert(right@.take(0) =~= Seq::empty());
    while i < left.len() || j < right.len()
        invariant
            i <= left.len(),
            j <= right.len(),
            ascending(keys@, left@),
            ascending(keys@, right@),
            ascending(keys@, out@),
            out@.to_multiset() == left@.take(i as int).to_multiset().add(
                right@.take(j as int).to_multiset(),
            ),
            forall|k: int|
                0 <= k < out.len() && i < left.len() ==> lex_le(
                    #[trigger] keys[out@[k] as int]@,
                    keys[left@[i as int] as int]@,
                ),
            forall|k: int|
                0 <= k < out.len() && j < right.len() ==> lex_le(
                    #[trigger] keys[out@[k] as int]@,
                    keys[right@[j as int] as int]@,
                ),
        decreases left.len() - i + right.len() - j,
    {
        let ghost before = out@;
        let take_left = if j == right.len() {
            true
        } else if i == left.len() {
            false
        } else {
            name_le(&keys[left[i]], &keys[right[j]])
        };
        if take_left {
            let x = left[i];
            out.push(x);
            proof {
                assert(left@.take(i + 1) =~= left@.take(i as int).push(x));
                assert(out@ =~= before.push(x));
                vstd::seq_lib::to_multiset_build(before, x);
                vstd::seq_lib::to_multiset_build(left@.take(i as int), x);
                assert(out@.to_multiset() =~= left@.take(i + 1).to_multiset().add(
                    right@.take(j as int).to_multiset(),
                ));
                assert forall|k: int| 0 <= k < out.len() && i + 1 < left.len() implies lex_le(
                    #[trigger] keys[out@[k] as int]@,
                    keys[left@[i + 1] as int]@,
                ) by {
                    if k < before.len() {
                        lemma_lex_le_transitive(
                            keys[before[k] as int]@,
                            keys[x as int]@,
                            keys[left@[i + 1] as int]@,
                        );
                    }
                }
            }
            i += 1;
        } else {
            let y = right[j];
            out.push(y);
            proof {
                assert(right@.take(j + 1) =~= right@.take(j as int).push(y));
                assert(out@ =~= before.push(y));
                vstd::seq_lib::to_multiset_build(before, y);
                vstd::seq_lib::to_multiset_build(right@.take(j as int), y);
                assert(out@.to_multiset() =~= left@.take(i as int).to_multiset().add(
                    right@.take(j + 1).to_multiset(),
                ));
                if i < left.len() {
                    lemma_lex_le_connected(keys[left@[i as int] as int]@, keys[y as int]@);
                }
                assert forall|k: int| 0 <= k < out.len() && j + 1 < right.len() implies lex_le(
                    #[trigger] keys[out@[k] as int]@,
                    keys[right@[j + 1] as int]@,
                ) by {
                    if k < before.len() {
                        lemma_lex_le_transitive(
                            keys[before[k] as int]@,
                            keys[y as int]@,
                            keys[right@[j + 1] as int]@,
                        );
                    }
                }
            }
            j += 1;
        }
    }
    assert(left@.take(i as int) =~= left@);
    assert(right@.take(j as int) =~= right@);
    out
}

/// The places from `lo` up to `hi`, ordered by the names they hold.
fn sort_places(keys: &Vec<Vec<char>>, lo: usize, hi: usize) -> (out: Vec<usize>)
    requires
        lo <= hi <= keys.len(),
    ensures
        ascending(keys@, out@),
        out@.to_multiset() == places(lo as int, hi as int).to_multiset(),
    decreases hi - lo,
{
    broadcast use vstd::seq_lib::group_to_multiset_ensures;

    if hi - lo <= 1 {
        let mut out: Vec<usize> = Vec::new();
        if hi > lo {
            out.push(lo);
        }
        assert(out@ =~= places(lo as int, hi as int));
        out
    } else {
        let mid = lo + (hi - lo) / 2;
        let left = sort_places(keys, lo, mid);
        let right = sort_places(keys, mid, hi);
        proof {
            lemma_multiset_commutative(places(lo as int, mid as int), places(mid as int, hi as int));
            assert(places(lo as int, mid as int) + places(mid as int, hi as int) =~= places(
                lo as int,
                hi as int,
            ));
        }
        merge(keys, &left, &right)
    }
}

/// Two sequences with the same members, each as often, still have the same
/// members, each as often, when one function is applied to all of them.
pub proof fn lemma_map_keeps_members<A, B>(a: Seq<A>, b: Seq<A>, f: spec_fn(A) -> B)
    requires
        a.to_multiset() == b.to_multiset(),
    ensures
        a.map_values(f).to_multiset() == b.map_values(f).to_multiset(),
    decreases a.len(),
{
    broadcast use vstd::seq_lib::group_to_multiset_ensures;
    broadcast use vstd::multiset::group_multiset_axioms;

    if a.len() == 0 {
        vstd::seq_lib::to_multiset_len(a);
        vstd::seq_lib::to_multiset_len(b);
        assert(b.len() == 0);
        assert(a.map_values(f) =~= b.map_values(f));
    } else {
        let x = a.last();
        assert(a.to_multiset().count(x) > 0);
        assert(b.contains(x));
        let j = choose|j: int| 0 <= j < b.len() && b[j] == x;
        let a1 = a.drop_last();
        let b1 = b.remove(j);
        assert(a1 =~= a.remove(a.len() - 1));
        assert(a1.to_multiset() =~= b1.to_multiset());
        lemma_map_keeps_members(a1, b1, f);
        assert(a.map_values(f) =~= a1.map_values(f).push(f(x)));
        assert(b.map_values(f).remove(j) =~= b1.map_values(f));
        assert(b.map_values(f)[j] == f(x));
        assert(b.map_values(f).to_multiset().count(f(x)) > 0);
        assert(b.map_values(f).to_multiset() =~= b1.map_values(f).to_multiset().insert(f(x)));
    }
}

/// The strings of `names` in the order of names. What is equal stays as
/// often as it was.
pub fn sort_strings(names: &Vec<String>) -> (out: Vec<String>)
    ensures
        sorted_by(views(out@), name_order()),
        views(out@).to_multiset() == views(names@).to_multiset(),
        out.len() == names.len(),
{
    let mut keys: Vec<Vec<char>> = Vec::new();
    let mut i: usize = 0;
    while i < names.len()
        invariant
            i <= names.len(),
            keys.len() == i,
            forall|k: int| 0 <= k < i ==> (#[trigger] keys@[k])@ == names@[k]@,
        decreases names.len() - i,
    {
        keys.push(chars_of(names[i].as_str()));
        i += 1;
    }
    let idx = sort_places(&keys, 0, names.len());
    let mut out: Vec<String> = Vec::new();
    let mut k: usize = 0;
    assert(idx.len() == names.len()) by {
        vstd::seq_lib::to_multiset_len(idx@);
        vstd::seq_lib::to_multiset_len(places(0, names.len() as int));
    }
    while k < idx.len()
        invariant
            k <= idx.len(),
            out.len() == k,
            keys.len() == names.len(),
            ascending(keys@, idx@),
            forall|m: int| 0 <= m < keys.len() ==> (#[trigger] keys@[m])@ == names@[m]@,
            forall|m: int| 0 <= m < k ==> (#[trigger] out@[m])@ == keys@[idx@[m] as int]@,
        decreases idx.len() - k,
    {
        out.push(names[idx[k]].clone());
        k += 1;
    }
    proof {
        let f = |p: usize| views(names@)[p as int];
        assert(views(out@) =~= idx@.map_values(f));
        assert(places(0, names.len() as int).map_values(f) =~= views(names@));
        lemma_map_keeps_members(idx@, places(0, names.len() as int), f);
        assert forall|a: int, b: int| 0 <= a < b < views(out@).len() implies #[trigger] name_order()(
            views(out@)[a],
            views(out@)[b],
        ) by {
            assert(lex_le(keys@[idx@[a] as int]@, keys@[idx@[b] as int]@));
        }
    }
    out
}

} // verus!
