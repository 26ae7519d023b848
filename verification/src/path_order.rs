//! The order in which tree files are visited: by path, byte for byte.
use vstd::prelude::*;
use crate::key::byte_strings;

verus! {

/// Whether two byte strings agree on their first `k` bytes.
pub open spec fn agree_upto(a: Seq<u8>, b: Seq<u8>, k: int) -> bool {
    &&& 0 <= k <= a.len()
    &&& k <= b.len()
    &&& forall|i: int| 0 <= i < k ==> a[i] == b[i]
}

/// Whether `k` shows that `a` comes no later than `b`: the two agree before `k`, and
/// there `a` ends or holds the smaller byte.
pub open spec fn decides_le(a: Seq<u8>, b: Seq<u8>, k: int) -> bool {
    agree_upto(a, b, k) && (k == a.len() || (k < b.len() && a[k] < b[k]))
}

/// Lexicographic order on byte strings: `a` comes no later than `b`.
pub open spec fn lex_le(a: Seq<u8>, b: Seq<u8>) -> bool {
    exists|k: int| decides_le(a, b, k)
}

/// Whether a list of paths is in lexicographic order.
pub open spec fn is_sorted(paths: Seq<Seq<u8>>) -> bool {
    forall|i: int, j: int|
        0 <= i < j < paths.len() ==> lex_le(#[trigger] paths[i], #[trigger] paths[j])
}

/// Whether `ordered` is the visiting order of `listing`: the same paths, each as often,
/// in lexicographic order.
pub open spec fn is_visiting_order(ordered: Seq<Seq<u8>>, listing: Seq<Seq<u8>>) -> bool {
    is_sorted(ordered) && ordered.to_multiset() == listing.to_multiset()
}

/// No index can decide against two strings that differ first at `k` the other way.
proof fn lemma_first_difference(a: Seq<u8>, b: Seq<u8>, k: int)
    requires
        agree_upto(a, b, k),
        k < a.len(),
        k == b.len() || a[k] > b[k],
    ensures
        !lex_le(a, b),
{
    assert forall|m: int| !decides_le(a, b, m) by {
        if decides_le(a, b, m) {
            if m < k {
                assert(a[m] == b[m]);
            } else if m > k {
                assert(a[k] == b[k]);
            }
        }
    }
}

/// Any two byte strings are ordered one way or the other.
pub proof fn lemma_lex_total(a: Seq<u8>, b: Seq<u8>)
    ensures
        lex_le(a, b) || lex_le(b, a),
{
    lemma_total_from(a, b, 0);
}

proof fn lemma_total_from(a: Seq<u8>, b: Seq<u8>, k: int)
    requires
        agree_upto(a, b, k),
    ensures
        lex_le(a, b) || lex_le(b, a),
    decreases a.len() - k,
{
    if k == a.len() {
        assert(decides_le(a, b, k));
    } else if k == b.len() {
        assert(decides_le(b, a, k));
    } else if a[k] < b[k] {
        assert(decides_le(a, b, k));
    } else if a[k] > b[k] {
        assert(decides_le(b, a, k));
    } else {
        lemma_total_from(a, b, k + 1);
    }
}

/// Two byte strings that are ordered both ways are the same string.
pub proof fn lemma_lex_antisymmetric(a: Seq<u8>, b: Seq<u8>)
    requires
        lex_le(a, b),
        lex_le(b, a),
    ensures
        a == b,
{
    let k1 = choose|k: int| decides_le(a, b, k);
    let k2 = choose|k: int| decides_le(b, a, k);
    if k1 < a.len() {
        if k2 < k1 {
            assert(a[k2] == b[k2]);
        } else if k1 < k2 {
            assert(b[k1] == a[k1]);
        }
        assert(false);
    }
    if k2 < b.len() {
        if k1 < k2 {
            assert(b[k1] == a[k1]);
        } else if k2 < k1 {
            assert(a[k2] == b[k2]);
        }
        assert(false);
    }
    assert(a =~= b);
}

/// The order is transitive.
pub proof fn lemma_lex_transitive(a: Seq<u8>, b: Seq<u8>, c: Seq<u8>)
    requires
        lex_le(a, b),
        lex_le(b, c),
    ensures
        lex_le(a, c),
{
    let k1 = choose|k: int| decides_le(a, b, k);
    let k2 = choose|k: int| decides_le(b, c, k);
    if k1 <= k2 {
        assert(agree_upto(a, c, k1));
        if k1 < a.len() && k1 < k2 {
            assert(b[k1] == c[k1]);
        }
        assert(decides_le(a, c, k1));
    } else {
        assert(agree_upto(a, c, k2));
        assert(a[k2] == b[k2]);
        assert(decides_le(a, c, k2));
    }
}

/// Compares two paths byte for byte.
pub fn path_le(a: &Vec<u8>, b: &Vec<u8>) -> (r: bool)
    ensures
        r == lex_le(a@, b@),
{
    let mut i: usize = 0;
    while i < a.len() && i < b.len()
        invariant
            agree_upto(a@, b@, i as int),
        decreases a.len() - i,
    {
        if a[i] < b[i] {
            assert(decides_le(a@, b@, i as int));
            return true;
        }
        if a[i] > b[i] {
            proof {
                lemma_first_difference(a@, b@, i as int);
            }
            return false;
        }
        i += 1;
    }
    if i == a.len() {
        assert(decides_le(a@, b@, i as int));
        true
    } else {
        proof {
            lemma_first_difference(a@, b@, i as int);
        }
        false
    }
}

/// Inserting a path into a list adds it once to the paths that the list holds.
proof fn lemma_insert_adds_one(s: Seq<Seq<u8>>, at: int, path: Seq<u8>)
    requires
        0 <= at <= s.len(),
    ensures
        s.insert(at, path).to_multiset() == s.to_multiset().insert(path),
{
    broadcast use vstd::seq_lib::group_to_multiset_ensures;

    let grown = s.insert(at, path);
    assert(grown.remove(at) =~= s);
    assert(grown[at] == path);
    vstd::seq_lib::to_multiset_remove(grown, at);
    grown.to_multiset_ensures();
    assert(grown.remove(at).to_multiset() =~= grown.to_multiset().remove(path));
    assert(grown.contains(path));
    assert(grown.to_multiset() =~= s.to_multiset().insert(path));
}

/// Puts one path into a sorted list at its place.
fn insert_sorted(ordered: &mut Vec<Vec<u8>>, path: Vec<u8>)
    requires
        is_sorted(byte_strings(old(ordered)@)),
    ensures
        is_sorted(byte_strings(final(ordered)@)),
        byte_strings(final(ordered)@).to_multiset() == byte_strings(
            old(ordered)@,
        ).to_multiset().insert(path@),
{
    let ghost before = byte_strings(ordered@);
    let mut at: usize = 0;
    while at < ordered.len() && path_le(&ordered[at], &path)
        invariant
            at <= ordered.len(),
            ordered@ == old(ordered)@,
            before == byte_strings(ordered@),
            forall|i: int| 0 <= i < at ==> lex_le(#[trigger] before[i], path@),
        decreases ordered.len() - at,
    {
        at += 1;
    }
    ordered.insert(at, path);
    proof {
        let after = byte_strings(ordered@);
        assert(after =~= before.insert(at as int, path@));
        lemma_insert_adds_one(before, at as int, path@);
        assert forall|i: int, j: int| 0 <= i < j < after.len() implies lex_le(
            #[trigger] after[i],
            #[trigger] after[j],
        ) by {
            if j < at {
                assert(lex_le(before[i], before[j]));
            } else if j == at {
                assert(lex_le(before[i], path@));
            } else if i == at {
                lemma_lex_total(before[at as int], path@);
                if j - 1 > at {
                    assert(lex_le(before[at as int], before[j - 1]));
                    lemma_lex_transitive(path@, before[at as int], before[j - 1]);
                }
            } else if i < at {
                assert(lex_le(before[i], before[j - 1]));
            } else {
                assert(lex_le(before[i - 1], before[j - 1]));
            }
        }
    }
}

/// Sorts a directory listing into the order in which its files are visited.
pub fn sort_paths(listing: Vec<Vec<u8>>) -> (ordered: Vec<Vec<u8>>)
    ensures
        is_visiting_order(byte_strings(ordered@), byte_strings(listing@)),
{
    broadcast use vstd::seq_lib::group_to_multiset_ensures;

    let mut rest = listing;
    let mut ordered: Vec<Vec<u8>> = Vec::new();
    assert(byte_strings(ordered@) =~= Seq::<Seq<u8>>::empty());
    while rest.len() > 0
        invariant
            is_sorted(byte_strings(ordered@)),
            byte_strings(ordered@).to_multiset().add(byte_strings(rest@).to_multiset())
                == byte_strings(listing@).to_multiset(),
        decreases rest.len(),
    {
        let ghost held = byte_strings(rest@);
        let ghost done = byte_strings(ordered@);
        let path = rest.pop().unwrap();
        proof {
            assert(byte_strings(rest@) =~= held.drop_last());
            assert(held =~= held.drop_last().push(path@));
            vstd::seq_lib::to_multiset_build(held.drop_last(), path@);
            assert(held.to_multiset() =~= held.drop_last().to_multiset().insert(path@));
        }
        insert_sorted(&mut ordered, path);
        assert(byte_strings(ordered@).to_multiset().add(byte_strings(rest@).to_multiset())
            =~= done.to_multiset().add(held.to_multiset()));
    }
    assert(byte_strings(rest@) =~= Seq::<Seq<u8>>::empty());
    assert(byte_strings(ordered@).to_multiset() =~= byte_strings(listing@).to_multiset());
    ordered
}

/// The head of a sorted list comes no later than any path that the list holds.
proof fn lemma_head_is_least(s: Seq<Seq<u8>>, path: Seq<u8>)
    requires
        is_sorted(s),
        s.contains(path),
    ensures
        lex_le(s[0], path),
{
    let at = choose|i: int| 0 <= i < s.len() && s[i] == path;
    if at == 0 {
        assert(decides_le(path, path, path.len() as int));
    } else {
        assert(lex_le(s[0], s[at]));
    }
}

/// A listing has one visiting order: two sorted lists that hold the same paths, each as
/// often, are the same list.
pub proof fn lemma_visiting_order_unique(first: Seq<Seq<u8>>, second: Seq<Seq<u8>>)
    requires
        is_sorted(first),
        is_sorted(second),
        first.to_multiset() == second.to_multiset(),
    ensures
        first == second,
    decreases first.len(),
{
    broadcast use vstd::seq_lib::group_to_multiset_ensures;

    first.to_multiset_ensures();
    second.to_multiset_ensures();
    assert(first.len() == second.len());
    if first.len() == 0 {
        assert(first =~= second);
    } else {
        assert(first.contains(first[0]));
        assert(second.contains(second[0]));
        assert(first.to_multiset().count(first[0]) > 0);
        assert(second.to_multiset().count(second[0]) > 0);
        assert(second.to_multiset().count(first[0]) > 0);
        assert(first.to_multiset().count(second[0]) > 0);
        assert(second.contains(first[0]));
        assert(first.contains(second[0]));
        lemma_head_is_least(first, second[0]);
        lemma_head_is_least(second, first[0]);
        lemma_lex_antisymmetric(first[0], second[0]);
        let a = first.remove(0);
        let b = second.remove(0);
        vstd::seq_lib::to_multiset_remove(first, 0);
        vstd::seq_lib::to_multiset_remove(second, 0);
        assert(a.to_multiset() =~= b.to_multiset());
        assert forall|i: int, j: int| 0 <= i < j < a.len() implies lex_le(
            #[trigger] a[i],
            #[trigger] a[j],
        ) by {
            assert(lex_le(first[i + 1], first[j + 1]));
        }
        assert forall|i: int, j: int| 0 <= i < j < b.len() implies lex_le(
            #[trigger] b[i],
            #[trigger] b[j],
        ) by {
            assert(lex_le(second[i + 1], second[j + 1]));
        }
        lemma_visiting_order_unique(a, b);
        assert(first =~= seq![first[0]] + a);
        assert(second =~= seq![second[0]] + b);
    }
}

/// The order of the visit does not depend on the order in which the directory was
/// listed: two listings of the same files have the same visiting order.
pub proof fn lemma_order_ignores_enumeration(
    first_listing: Seq<Seq<u8>>,
    second_listing: Seq<Seq<u8>>,
    first_order: Seq<Seq<u8>>,
    second_order: Seq<Seq<u8>>,
)
    requires
        first_listing.to_multiset() == second_listing.to_multiset(),
        is_visiting_order(first_order, first_listing),
        is_visiting_order(second_order, second_listing),
    ensures
        first_order == second_order,
{
    lemma_visiting_order_unique(first_order, second_order);
}

} // verus!
