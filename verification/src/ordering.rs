//! The order of the registry: file names compared character by character.
//!
//! Because every migration file name starts with its timestamp, this order
//! is also the order in time.

use vstd::prelude::*;
use vstd::string::*;
use crate::naming::{is_migration_file_name, lemma_conforming_name_shape, version_of};

verus! {

/// The names that a vector of strings holds, each by its characters.
pub open spec fn name_seq(v: Seq<String>) -> Seq<Seq<char>> {
    Seq::new(v.len(), |i: int| v[i]@)
}

/// Whether `a` and `b` agree on every position before `k`.
pub open spec fn agree_before(a: Seq<char>, b: Seq<char>, k: int) -> bool {
    forall|j: int| 0 <= j < k ==> a[j] == b[j]
}

/// Whether `k` is the first position at which `a` and `b` differ.
pub open spec fn first_difference(a: Seq<char>, b: Seq<char>, k: int) -> bool {
    &&& 0 <= k < a.len()
    &&& k < b.len()
    &&& a[k] != b[k]
    &&& agree_before(a, b, k)
}

/// Whether `b` starts with the whole of `a`.
pub open spec fn starts_with(b: Seq<char>, a: Seq<char>) -> bool {
    a.len() <= b.len() && agree_before(a, b, a.len() as int)
}

/// Lexical order: `a` comes no later than `b` if `b` starts with `a`, or if
/// at the first position where they differ `a` has the smaller character.
pub open spec fn name_le(a: Seq<char>, b: Seq<char>) -> bool {
    starts_with(b, a) || exists|k: int| #[trigger] first_difference(a, b, k) && a[k] < b[k]
}

/// Whether the names stand in lexical order.
pub open spec fn sorted(names: Seq<Seq<char>>) -> bool {
    forall|i: int, j: int| 0 <= i < j < names.len() ==> name_le(names[i], names[j])
}

proof fn lemma_total_from(a: Seq<char>, b: Seq<char>, i: int)
    requires
        0 <= i <= a.len(),
        i <= b.len(),
        agree_before(a, b, i),
    ensures
        name_le(a, b) || name_le(b, a),
    decreases a.len() - i,
{
    if i == a.len() {
        assert(starts_with(b, a));
    } else if i == b.len() {
        assert(starts_with(a, b));
    } else if a[i] != b[i] {
        assert(first_difference(a, b, i));
        assert(first_difference(b, a, i));
    } else {
        lemma_total_from(a, b, i + 1);
    }
}

/// Any two names are ordered one way or the other.
pub proof fn lemma_name_le_total(a: Seq<char>, b: Seq<char>)
    ensures
        name_le(a, b) || name_le(b, a),
{
    lemma_total_from(a, b, 0);
}

/// A name comes no later than itself.
pub proof fn lemma_name_le_reflexive(a: Seq<char>)
    ensures
        name_le(a, a),
{
    assert(starts_with(a, a));
}

/// What comes no later than a second name, which comes no later than a
/// third, comes no later than the third.
pub proof fn lemma_name_le_transitive(a: Seq<char>, b: Seq<char>, c: Seq<char>)
    requires
        name_le(a, b),
        name_le(b, c),
    ensures
        name_le(a, c),
{
    if starts_with(b, a) {
        if starts_with(c, b) {
            assert(starts_with(c, a));
        } else {
            let k = choose|k: int| #[trigger] first_difference(b, c, k) && b[k] < c[k];
            if k < a.len() {
                assert(first_difference(a, c, k));
            } else {
                assert(starts_with(c, a));
            }
        }
    } else {
        let k1 = choose|k: int| #[trigger] first_difference(a, b, k) && a[k] < b[k];
        if starts_with(c, b) {
            assert(first_difference(a, c, k1));
        } else {
            let k2 = choose|k: int| #[trigger] first_difference(b, c, k) && b[k] < c[k];
            if k1 <= k2 {
                assert(first_difference(a, c, k1));
            } else {
                assert(first_difference(a, c, k2));
            }
        }
    }
}

/// Two names that each come no later than the other are the same name.
pub proof fn lemma_name_le_antisymmetric(a: Seq<char>, b: Seq<char>)
    requires
        name_le(a, b),
        name_le(b, a),
    ensures
        a == b,
{
    if starts_with(b, a) {
        if starts_with(a, b) {
            assert(a =~= b);
        } else {
            let k = choose|k: int| #[trigger] first_difference(b, a, k) && b[k] < a[k];
            assert(a[k] == b[k]);
        }
    } else {
        let k1 = choose|k: int| #[trigger] first_difference(a, b, k) && a[k] < b[k];
        if starts_with(a, b) {
            assert(a[k1] == b[k1]);
        } else {
            let k2 = choose|k: int| #[trigger] first_difference(b, a, k) && b[k] < a[k];
            if k1 < k2 {
                assert(b[k1] == a[k1]);
            } else if k2 < k1 {
                assert(a[k2] == b[k2]);
            }
        }
    }
}

/// Sorting has one outcome: two sorted sequences that hold the same names,
/// each as often as the other, are the same sequence.
pub proof fn lemma_sorted_is_unique(a: Seq<Seq<char>>, b: Seq<Seq<char>>)
    requires
        sorted(a),
        sorted(b),
        a.to_multiset() == b.to_multiset(),
    ensures
        a == b,
    decreases a.len(),
{
    a.to_multiset_ensures();
    b.to_multiset_ensures();
    assert(a.len() == b.len());
    if a.len() == 0 {
        assert(a =~= b);
    } else {
        assert(a.contains(a[0]));
        assert(b.to_multiset().count(a[0]) > 0);
        assert(b.contains(a[0]));
        let j = choose|j: int| 0 <= j < b.len() && b[j] == a[0];
        assert(b.contains(b[0]));
        assert(a.to_multiset().count(b[0]) > 0);
        assert(a.contains(b[0]));
        let i = choose|i: int| 0 <= i < a.len() && a[i] == b[0];
        lemma_name_le_reflexive(a[0]);
        lemma_name_le_reflexive(b[0]);
        assert(name_le(b[0], b[j]));
        assert(name_le(a[0], a[i]));
        lemma_name_le_antisymmetric(a[0], b[0]);
        let ra = a.remove(0);
        let rb = b.remove(0);
        assert(ra.to_multiset() == rb.to_multiset());
        assert forall|x: int, y: int| 0 <= x < y < ra.len() implies name_le(ra[x], ra[y]) by {
            assert(ra[x] == a[x + 1] && ra[y] == a[y + 1]);
        }
        assert forall|x: int, y: int| 0 <= x < y < rb.len() implies name_le(rb[x], rb[y]) by {
            assert(rb[x] == b[x + 1] && rb[y] == b[y + 1]);
        }
        lemma_sorted_is_unique(ra, rb);
        assert forall|k: int| 0 <= k < a.len() implies a[k] == b[k] by {
            if k > 0 {
                assert(a[k] == ra[k - 1]);
                assert(b[k] == rb[k - 1]);
            }
        }
        assert(a =~= b);
    }
}

/// The order of the file names is the order of the versions: of two
/// migration file names, the one that comes no later carries the version
/// that comes no later.
pub proof fn lemma_name_order_is_version_order(a: Seq<char>, b: Seq<char>)
    requires
        is_migration_file_name(a),
        is_migration_file_name(b),
        name_le(a, b),
    ensures
        name_le(version_of(a), version_of(b)),
{
    lemma_conforming_name_shape(a);
    lemma_conforming_name_shape(b);
    let va = version_of(a);
    let vb = version_of(b);
    assert(forall|j: int| 0 <= j < 14 ==> va[j] == a[j + 1] && vb[j] == b[j + 1]);
    if starts_with(b, a) {
        assert(starts_with(vb, va));
    } else {
        let k = choose|k: int| #[trigger] first_difference(a, b, k) && a[k] < b[k];
        if 1 <= k <= 14 {
            assert(first_difference(va, vb, k - 1));
        } else {
            assert(k != 0);
            assert(starts_with(vb, va));
        }
    }
}

/// Tells whether `a` comes no later than `b` in lexical order.
pub fn name_precedes(a: &str, b: &str) -> (r: bool)
    ensures
        r == name_le(a@, b@),
{
    let la: usize = a.unicode_len();
    let lb: usize = b.unicode_len();
    let mut i: usize = 0;
    while i < la && i < lb
        invariant
            i <= la,
            i <= lb,
            la == a@.len(),
            lb == b@.len(),
            agree_before(a@, b@, i as int),
        decreases la - i,
    {
        let ca = a.get_char(i);
        let cb = b.get_char(i);
        if ca != cb {
            proof {
                assert(first_difference(a@, b@, i as int));
                assert forall|k: int| #[trigger] first_difference(a@, b@, k) implies k == i by {
                    if k < i {
                        assert(a@[k] == b@[k]);
                    } else if k > i {
                        assert(a@[i as int] == b@[i as int]);
                    }
                }
            }
            return ca < cb;
        }
        i += 1;
    }
    proof {
        assert forall|k: int| !#[trigger] first_difference(a@, b@, k) by {
            if first_difference(a@, b@, k) {
                assert(a@[k] == b@[k]);
            }
        }
    }
    la <= lb
}

/// Inserting an item into a sequence adds it to what the sequence holds.
pub proof fn lemma_insert_holds(s: Seq<Seq<char>>, p: int, x: Seq<char>)
    requires
        0 <= p <= s.len(),
    ensures
        s.insert(p, x).to_multiset() =~= s.to_multiset().insert(x),
{
    broadcast use vstd::seq_lib::group_to_multiset_ensures;

    let t = s.insert(p, x);
    assert(t.remove(p) =~= s);
    assert(t[p] == x);
    assert(t.contains(x));
    assert(t.to_multiset().count(x) > 0);
    assert(t.remove(p).to_multiset() =~= t.to_multiset().remove(x));
}

/// Whether `p` is the place of `name` among `names`: every name before `p`
/// comes no later than `name`, and the name at `p`, if there is one, comes
/// later.
pub open spec fn is_place_of(names: Seq<Seq<char>>, name: Seq<char>, p: int) -> bool {
    &&& 0 <= p <= names.len()
    &&& forall|j: int| 0 <= j < p ==> name_le(#[trigger] names[j], name)
    &&& p < names.len() ==> !name_le(names[p], name)
}

/// Puts `name` into a sorted vector at its place: behind every name that
/// comes no later, before every name that comes later.
pub fn insert_sorted(names: &mut Vec<String>, name: String)
    requires
        sorted(name_seq(old(names)@)),
    ensures
        sorted(name_seq(final(names)@)),
        exists|p: int|
            #[trigger] is_place_of(name_seq(old(names)@), name@, p) && name_seq(
                old(names)@,
            ).insert(p, name@) == name_seq(final(names)@),
        name_seq(final(names)@).to_multiset() == name_seq(old(names)@).to_multiset().insert(name@),
{
    let ghost before = name_seq(names@);
    let mut p: usize = 0;
    while p < names.len() && name_precedes(names[p].as_str(), name.as_str())
        invariant
            p <= names@.len(),
            names@ == old(names)@,
            forall|j: int| 0 <= j < p ==> name_le(#[trigger] before[j], name@),
            before == name_seq(names@),
        decreases names@.len() - p,
    {
        p += 1;
    }
    names.insert(p, name);
    proof {
        let after = name_seq(names@);
        assert(after =~= before.insert(p as int, name@));
        assert(is_place_of(before, name@, p as int));
        lemma_insert_holds(before, p as int, name@);
        assert forall|i: int, j: int| 0 <= i < j < after.len() implies name_le(
            after[i],
            after[j],
        ) by {
            if j > p && i > p {
                assert(after[i] == before[i - 1]);
                assert(after[j] == before[j - 1]);
            } else if j > p {
                assert(after[j] == before[j - 1]);
                lemma_name_le_total(before[p as int], name@);
                if j - 1 > p {
                    lemma_name_le_transitive(name@, before[p as int], before[j - 1]);
                }
                if i < p {
                    lemma_name_le_transitive(before[i], name@, before[j - 1]);
                }
            }
        }
    }
}

/// Sorts names into lexical order.
pub fn sort_names(names: &Vec<String>) -> (out: Vec<String>)
    ensures
        sorted(name_seq(out@)),
        name_seq(out@).to_multiset() == name_seq(names@).to_multiset(),
        out@.len() == names@.len(),
{
    let mut out: Vec<String> = Vec::new();
    let mut i: usize = 0;
    assert(name_seq(names@).take(0) =~= name_seq(out@));
    while i < names.len()
        invariant
            i <= names@.len(),
            out@.len() == i,
            sorted(name_seq(out@)),
            name_seq(out@).to_multiset() == name_seq(names@).take(i as int).to_multiset(),
        decreases names@.len() - i,
    {
        let item = names[i].clone();
        proof {
            let all = name_seq(names@);
            assert(all[i as int] == item@);
            assert(all.take(i + 1) =~= all.take(i as int).push(item@));
            vstd::seq_lib::to_multiset_build(all.take(i as int), item@);
            assert(name_seq(out@).len() == out@.len());
        }
        insert_sorted(&mut out, item);
        proof {
            assert(name_seq(out@).len() == out@.len());
        }
        i += 1;
    }
    assert(name_seq(names@).take(i as int) =~= name_seq(names@));
    assert(name_seq(out@).len() == out@.len());
    assert(name_seq(names@).len() == names@.len());
    out
}

} // verus!
