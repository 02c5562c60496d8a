//! Ordering of attribute entries by their names.
use crate::text::{compare_texts, text_less};
use std::cmp::Ordering;
use vstd::multiset::Multiset;
use vstd::prelude::*;

verus! {

/// Orders two name-value pairs by their names, lexicographically.
pub fn sort_by_key<'r, 's>(a: &'r (&String, &String), b: &'s (&String, &String)) -> (r: Ordering)
    ensures
        (r == Ordering::Less) == text_less(a.0@, b.0@),
        (r == Ordering::Equal) == (a.0@ == b.0@),
        (r == Ordering::Greater) == text_less(b.0@, a.0@),
{
    let c = compare_texts(a.0.as_str(), b.0.as_str());
    if c < 0 {
        Ordering::Less
    } else if c == 0 {
        Ordering::Equal
    } else {
        Ordering::Greater
    }
}

/// No text comes before itself.
pub proof fn lemma_text_less_irreflexive(a: Seq<char>)
    ensures
        !text_less(a, a),
    decreases a.len(),
{
    if a.len() > 0 {
        lemma_text_less_irreflexive(a.drop_first());
    }
}

/// Of two different texts, exactly one comes first.
pub proof fn lemma_text_less_trichotomy(a: Seq<char>, b: Seq<char>)
    ensures
        !(text_less(a, b) && text_less(b, a)),
        a != b ==> text_less(a, b) || text_less(b, a),
    decreases a.len(),
{
    if a.len() > 0 && b.len() > 0 && a[0] == b[0] {
        lemma_text_less_trichotomy(a.drop_first(), b.drop_first());
        if a.drop_first() == b.drop_first() {
            assert(a =~= seq![a[0]] + a.drop_first());
            assert(b =~= seq![b[0]] + b.drop_first());
        }
    } else if a.len() == 0 && b.len() == 0 {
        assert(a =~= b);
    }
}

/// The order of texts is transitive.
pub proof fn lemma_text_less_transitive(a: Seq<char>, b: Seq<char>, c: Seq<char>)
    requires
        text_less(a, b),
        text_less(b, c),
    ensures
        text_less(a, c),
    decreases a.len(),
{
    if a.len() > 0 && b.len() > 0 && c.len() > 0 && a[0] == b[0] && b[0] == c[0] {
        lemma_text_less_transitive(a.drop_first(), b.drop_first(), c.drop_first());
    }
}

/// `sort_by_key` is a total order on names: it answers `Equal` exactly for
/// equal names, swapping the arguments reverses its answer, and it is
/// transitive.
pub proof fn law_sort_by_key_total_order(a: Seq<char>, b: Seq<char>, c: Seq<char>)
    ensures
        !text_less(a, a),
        text_less(a, b) ==> !text_less(b, a),
        a != b ==> text_less(a, b) || text_less(b, a),
        text_less(a, b) && text_less(b, c) ==> text_less(a, c),
{
    lemma_text_less_irreflexive(a);
    lemma_text_less_trichotomy(a, b);
    if text_less(a, b) && text_less(b, c) {
        lemma_text_less_transitive(a, b, c);
    }
}

/// The views of borrowed name-value pairs.
pub open spec fn pair_views(v: Seq<(&String, &String)>) -> Seq<(Seq<char>, Seq<char>)> {
    v.map_values(|p: (&String, &String)| (p.0@, p.1@))
}

/// `sorted` with `x` placed after every entry whose name does not come after
/// the name of `x`.
pub open spec fn insert_sorted(x: (Seq<char>, Seq<char>), sorted: Seq<(Seq<char>, Seq<char>)>) -> Seq<
    (Seq<char>, Seq<char>),
>
    decreases sorted.len(),
{
    if sorted.len() == 0 {
        seq![x]
    } else if text_less(x.0, sorted[0].0) {
        seq![x] + sorted
    } else {
        seq![sorted[0]] + insert_sorted(x, sorted.drop_first())
    }
}

/// The entries ordered by name (entries with equal names keep their order).
pub open spec fn sorted_entries(entries: Seq<(Seq<char>, Seq<char>)>) -> Seq<(Seq<char>, Seq<char>)>
    decreases entries.len(),
{
    if entries.len() == 0 {
        Seq::empty()
    } else {
        insert_sorted(entries.last(), sorted_entries(entries.drop_last()))
    }
}

/// Whether the names of the entries never decrease.
pub open spec fn names_ordered(s: Seq<(Seq<char>, Seq<char>)>) -> bool {
    forall|i: int, j: int| 0 <= i < j < s.len() ==> !text_less(#[trigger] s[j].0, #[trigger] s[i].0)
}

/// Inserting at the first entry whose name comes after that of `x`.
proof fn lemma_insert_sorted_at(
    x: (Seq<char>, Seq<char>),
    sorted: Seq<(Seq<char>, Seq<char>)>,
    p: int,
)
    requires
        0 <= p <= sorted.len(),
        forall|j: int| 0 <= j < p ==> !text_less(x.0, (#[trigger] sorted[j]).0),
        p == sorted.len() || text_less(x.0, sorted[p].0),
    ensures
        insert_sorted(x, sorted) == sorted.take(p) + seq![x] + sorted.skip(p),
    decreases p,
{
    if p == 0 {
        assert(sorted.take(0) + seq![x] + sorted.skip(0) =~= seq![x] + sorted);
        if sorted.len() == 0 {
            assert(seq![x] + sorted =~= seq![x]);
        }
    } else {
        let rest = sorted.drop_first();
        assert forall|j: int| 0 <= j < p - 1 implies !text_less(x.0, (#[trigger] rest[j]).0) by {
            assert(rest[j] == sorted[j + 1]);
        }
        if p < sorted.len() {
            assert(rest[p - 1] == sorted[p]);
        }
        lemma_insert_sorted_at(x, rest, p - 1);
        assert(!text_less(x.0, sorted[0].0));
        assert(seq![sorted[0]] + (rest.take(p - 1) + seq![x] + rest.skip(p - 1)) =~= sorted.take(p)
            + seq![x] + sorted.skip(p));
    }
}

/// Inserting into ordered entries keeps them ordered, and adds exactly `x`.
proof fn lemma_insert_sorted_props(x: (Seq<char>, Seq<char>), sorted: Seq<(Seq<char>, Seq<char>)>)
    requires
        names_ordered(sorted),
    ensures
        names_ordered(insert_sorted(x, sorted)),
        insert_sorted(x, sorted).to_multiset() == sorted.to_multiset().insert(x),
    decreases sorted.len(),
{
    broadcast use vstd::seq_lib::group_to_multiset_ensures;

    if sorted.len() == 0 {
        assert(seq![x] =~= Seq::<(Seq<char>, Seq<char>)>::empty().push(x));
    } else if text_less(x.0, sorted[0].0) {
        let r = seq![x] + sorted;
        assert forall|i: int, j: int| 0 <= i < j < r.len() implies !text_less(
            #[trigger] r[j].0,
            #[trigger] r[i].0,
        ) by {
            if i == 0 {
                lemma_text_less_trichotomy(x.0, sorted[j - 1].0);
                if j - 1 > 0 {
                    assert(!text_less(sorted[j - 1].0, sorted[0].0));
                    lemma_text_less_trichotomy(sorted[j - 1].0, sorted[0].0);
                    if text_less(sorted[j - 1].0, x.0) {
                        lemma_text_less_transitive(sorted[j - 1].0, x.0, sorted[0].0);
                    }
                }
            } else {
                assert(r[i] == sorted[i - 1]);
                assert(r[j] == sorted[j - 1]);
            }
        }
        assert(r =~= seq![x] + sorted);
        vstd::seq_lib::lemma_multiset_commutative(seq![x], sorted);
        assert(seq![x].to_multiset() =~= Multiset::empty().insert(x)) by {
            assert(seq![x] =~= Seq::<(Seq<char>, Seq<char>)>::empty().push(x));
        }
    } else {
        let rest = sorted.drop_first();
        assert forall|i: int, j: int| 0 <= i < j < rest.len() implies !text_less(
            #[trigger] rest[j].0,
            #[trigger] rest[i].0,
        ) by {
            assert(rest[i] == sorted[i + 1]);
            assert(rest[j] == sorted[j + 1]);
        }
        lemma_insert_sorted_props(x, rest);
        let ins = insert_sorted(x, rest);
        let r = seq![sorted[0]] + ins;
        assert forall|k: int| 0 <= k < ins.len() implies !text_less(
            (#[trigger] ins[k]).0,
            sorted[0].0,
        ) by {
            assert(ins.to_multiset().count(ins[k]) > 0);
            assert(ins.to_multiset() == rest.to_multiset().insert(x));
            if ins[k] != x {
                assert(rest.to_multiset().count(ins[k]) > 0);
                let m = choose|m: int| 0 <= m < rest.len() && rest[m] == ins[k];
                assert(rest[m] == sorted[m + 1]);
            } else {
                lemma_text_less_trichotomy(x.0, sorted[0].0);
            }
        }
        assert forall|i: int, j: int| 0 <= i < j < r.len() implies !text_less(
            #[trigger] r[j].0,
            #[trigger] r[i].0,
        ) by {
            if i == 0 {
                assert(r[j] == ins[j - 1]);
            } else {
                assert(r[i] == ins[i - 1]);
                assert(r[j] == ins[j - 1]);
            }
        }
        assert(sorted =~= seq![sorted[0]] + rest);
        vstd::seq_lib::lemma_multiset_commutative(seq![sorted[0]], ins);
        vstd::seq_lib::lemma_multiset_commutative(seq![sorted[0]], rest);
    }
}

/// Sorting entries by name yields the same entries (with their
/// multiplicities) with names in order.
pub proof fn law_sorted_entries(entries: Seq<(Seq<char>, Seq<char>)>)
    ensures
        names_ordered(sorted_entries(entries)),
        sorted_entries(entries).to_multiset() == entries.to_multiset(),
    decreases entries.len(),
{
    broadcast use vstd::seq_lib::group_to_multiset_ensures;

    if entries.len() > 0 {
        law_sorted_entries(entries.drop_last());
        lemma_insert_sorted_props(entries.last(), sorted_entries(entries.drop_last()));
        assert(entries =~= entries.drop_last().push(entries.last()));
    }
}

/// Whether the name of `a` comes after that of `b`, by `sort_by_key`.
fn name_after(a: &(&String, &String), b: &(&String, &String)) -> (r: bool)
    ensures
        r == text_less(b.0@, a.0@),
{
    match sort_by_key(a, b) {
        Ordering::Greater => true,
        _ => false,
    }
}

/// The entries ordered by name with `sort_by_key` (an insertion sort, which
/// keeps entries with equal names in their order).
pub fn sort_entries<'a>(entries: &Vec<(&'a String, &'a String)>) -> (r: Vec<(&'a String, &'a String)>)
    ensures
        pair_views(r@) == sorted_entries(pair_views(entries@)),
{
    let mut r: Vec<(&'a String, &'a String)> = Vec::new();
    let mut i: usize = 0;
    while i < entries.len()
        invariant
            i <= entries.len(),
            pair_views(r@) == sorted_entries(pair_views(entries@).take(i as int)),
        decreases entries.len() - i,
    {
        let x = entries[i];
        let mut p: usize = 0;
        let mut found = false;
        while p < r.len() && !found
            invariant
                p <= r.len(),
                forall|j: int| 0 <= j < p ==> !text_less(x.0@, (#[trigger] r@[j]).0@),
                found ==> p < r.len() && text_less(x.0@, r@[p as int].0@),
            decreases r.len() - p + (if found { 0int } else { 1int }),
        {
            if name_after(&r[p], &x) {
                found = true;
            } else {
                p = p + 1;
            }
        }
        proof {
            let sv = pair_views(r@);
            let xv = (x.0@, x.1@);
            assert forall|j: int| 0 <= j < p implies !text_less(xv.0, (#[trigger] sv[j]).0) by {
                assert(sv[j].0 == r@[j].0@);
            }
            if (p as int) < sv.len() {
                assert(sv[p as int].0 == r@[p as int].0@);
            }
            lemma_insert_sorted_at(xv, sv, p as int);
        }
        let ghost before = r;
        r.insert(p, x);
        proof {
            let ev = pair_views(entries@);
            assert(ev.take(i + 1).drop_last() =~= ev.take(i as int));
            assert(ev.take(i + 1).last() == (x.0@, x.1@));
            assert(pair_views(r@) =~= pair_views(before@).take(p as int) + seq![(x.0@, x.1@)]
                + pair_views(before@).skip(p as int));
        }
        i = i + 1;
    }
    proof {
        assert(pair_views(entries@).take(entries.len() as int) =~= pair_views(entries@));
    }
    r
}

} // verus!
