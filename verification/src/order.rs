//! Stable sorting by keys that compare in dictionary order.

use vstd::prelude::*;

verus! {

/// Dictionary order of integer sequences: a prefix comes first.
pub open spec fn key_le(a: Seq<i64>, b: Seq<i64>) -> bool
    decreases a.len(),
{
    if a.len() == 0 {
        true
    } else if b.len() == 0 {
        false
    } else if a[0] != b[0] {
        a[0] < b[0]
    } else {
        key_le(a.drop_first(), b.drop_first())
    }
}

/// Text as a sort key; dictionary order of the keys is the order of the texts.
pub open spec fn text_key(s: Seq<char>) -> Seq<i64> {
    Seq::new(s.len(), |i: int| s[i] as i64)
}

/// The sequence with `x` put in behind the last entry whose key is not above its own.
pub open spec fn put_sorted<T>(s: Seq<(Seq<i64>, T)>, x: (Seq<i64>, T)) -> Seq<(Seq<i64>, T)>
    decreases s.len(),
{
    if s.len() == 0 || key_le(s.last().0, x.0) {
        s.push(x)
    } else {
        put_sorted(s.drop_last(), x).push(s.last())
    }
}

/// The entries in ascending order of their keys, entries with one key in their given order.
pub open spec fn sorted_entries<T>(s: Seq<(Seq<i64>, T)>) -> Seq<(Seq<i64>, T)>
    decreases s.len(),
{
    if s.len() == 0 {
        s
    } else {
        put_sorted(sorted_entries(s.drop_last()), s.last())
    }
}

/// The items in ascending order of their keys.
pub open spec fn sorted_by_key<T>(items: Seq<T>, key: spec_fn(T) -> Seq<i64>) -> Seq<T> {
    sorted_entries(items.map_values(|x: T| (key(x), x))).map_values(|p: (Seq<i64>, T)| p.1)
}

// ---------------------------------------------------------------------------
// The order is total
// ---------------------------------------------------------------------------

pub proof fn lemma_key_reflexive(a: Seq<i64>)
    ensures
        key_le(a, a),
    decreases a.len(),
{
    if a.len() > 0 {
        lemma_key_reflexive(a.drop_first());
    }
}

pub proof fn lemma_key_total(a: Seq<i64>, b: Seq<i64>)
    ensures
        key_le(a, b) || key_le(b, a),
    decreases a.len(),
{
    if a.len() > 0 && b.len() > 0 {
        lemma_key_total(a.drop_first(), b.drop_first());
    }
}

pub proof fn lemma_key_transitive(a: Seq<i64>, b: Seq<i64>, c: Seq<i64>)
    requires
        key_le(a, b),
        key_le(b, c),
    ensures
        key_le(a, c),
    decreases a.len(),
{
    if a.len() > 0 && b.len() > 0 && c.len() > 0 && a[0] == b[0] && b[0] == c[0] {
        lemma_key_transitive(a.drop_first(), b.drop_first(), c.drop_first());
    }
}

pub proof fn lemma_key_antisymmetric(a: Seq<i64>, b: Seq<i64>)
    requires
        key_le(a, b),
        key_le(b, a),
    ensures
        a == b,
    decreases a.len(),
{
    if a.len() > 0 && b.len() > 0 {
        lemma_key_antisymmetric(a.drop_first(), b.drop_first());
        assert(a =~= seq![a[0]] + a.drop_first());
        assert(b =~= seq![b[0]] + b.drop_first());
    } else {
        assert(a =~= b);
    }
}

// ---------------------------------------------------------------------------
// Laws of sorting
// ---------------------------------------------------------------------------

pub open spec fn ascending<T>(s: Seq<(Seq<i64>, T)>) -> bool {
    forall|i: int, j: int| 0 <= i <= j < s.len() ==> key_le(#[trigger] s[i].0, #[trigger] s[j].0)
}

proof fn lemma_put_ascending<T>(s: Seq<(Seq<i64>, T)>, x: (Seq<i64>, T))
    requires
        ascending(s),
    ensures
        ascending(put_sorted(s, x)),
        put_sorted(s, x).to_multiset() == s.to_multiset().insert(x),
        put_sorted(s, x).len() == s.len() + 1,
        forall|k: Seq<i64>| #[trigger]
            with_key(put_sorted(s, x), k) == (if x.0 == k {
                with_key(s, k).push(x)
            } else {
                with_key(s, k)
            }),
        forall|b: Seq<i64>|
            (forall|i: int| 0 <= i < s.len() ==> key_le(#[trigger] s[i].0, b)) && key_le(x.0, b)
                ==> (forall|i: int|
                0 <= i < put_sorted(s, x).len() ==> #[trigger] key_le(put_sorted(s, x)[i].0, b)),
    decreases s.len(),
{
    broadcast use vstd::multiset::group_multiset_axioms;
    broadcast use vstd::seq_lib::group_to_multiset_ensures;

    if s.len() == 0 || key_le(s.last().0, x.0) {
        lemma_key_reflexive(x.0);
        assert forall|i: int, j: int| 0 <= i <= j < s.push(x).len() implies key_le(
            #[trigger] s.push(x)[i].0,
            #[trigger] s.push(x)[j].0,
        ) by {
            if j == s.len() && i < j {
                lemma_key_transitive(s[i].0, s.last().0, x.0);
            }
        }
        assert forall|k: Seq<i64>| #[trigger] with_key(put_sorted(s, x), k) == (if x.0 == k {
            with_key(s, k).push(x)
        } else {
            with_key(s, k)
        }) by {
            assert(s.push(x).drop_last() =~= s);
        }
    } else {
        let front = s.drop_last();
        let last = s.last();
        lemma_put_ascending(front, x);
        lemma_key_total(x.0, last.0);
        lemma_key_reflexive(last.0);
        let r = put_sorted(front, x);
        assert(forall|i: int| 0 <= i < front.len() ==> key_le(#[trigger] front[i].0, last.0));
        assert forall|i: int, j: int| 0 <= i <= j < r.push(last).len() implies key_le(
            #[trigger] r.push(last)[i].0,
            #[trigger] r.push(last)[j].0,
        ) by {
            if j == r.len() && i < j {
                assert(key_le(r[i].0, last.0));
            }
        }
        assert(s =~= front.push(last));
        assert(put_sorted(s, x).to_multiset() =~= s.to_multiset().insert(x));
        assert forall|k: Seq<i64>| #[trigger] with_key(put_sorted(s, x), k) == (if x.0 == k {
            with_key(s, k).push(x)
        } else {
            with_key(s, k)
        }) by {
            assert(r.push(last).drop_last() =~= r);
            assert(with_key(r, k) == (if x.0 == k {
                with_key(front, k).push(x)
            } else {
                with_key(front, k)
            }));
            if x.0 == k && last.0 == k {
                lemma_key_reflexive(k);
            }
        }
        assert forall|b: Seq<i64>|
            (forall|i: int| 0 <= i < s.len() ==> key_le(#[trigger] s[i].0, b)) && key_le(
                x.0,
                b,
            ) implies (forall|i: int|
            0 <= i < put_sorted(s, x).len() ==> #[trigger] key_le(put_sorted(s, x)[i].0, b)) by {
            assert(forall|i: int| 0 <= i < front.len() ==> key_le(#[trigger] front[i].0, b)) by {
                assert(forall|i: int| 0 <= i < front.len() ==> front[i] == s[i]);
            }
            assert(key_le(s[s.len() - 1].0, b));
            assert forall|i: int| 0 <= i < r.push(last).len() implies #[trigger] key_le(
                r.push(last)[i].0,
                b,
            ) by {
                if i < r.len() {
                    assert(key_le(r[i].0, b));
                }
            }
        }
    }
}

/// The entries with one key, in order.
pub open spec fn with_key<T>(s: Seq<(Seq<i64>, T)>, k: Seq<i64>) -> Seq<(Seq<i64>, T)>
    decreases s.len(),
{
    if s.len() == 0 {
        s
    } else if s.last().0 == k {
        with_key(s.drop_last(), k).push(s.last())
    } else {
        with_key(s.drop_last(), k)
    }
}

/// Sorting gives the same entries in ascending order of their keys, and it is stable: the entries
/// that share a key stand in the order in which they came.
pub proof fn law_sorting_is_a_stable_permutation<T>(s: Seq<(Seq<i64>, T)>)
    ensures
        ascending(sorted_entries(s)),
        sorted_entries(s).to_multiset() == s.to_multiset(),
        sorted_entries(s).len() == s.len(),
        forall|k: Seq<i64>| #[trigger] with_key(sorted_entries(s), k) == with_key(s, k),
    decreases s.len(),
{
    broadcast use vstd::seq_lib::group_to_multiset_ensures;

    if s.len() > 0 {
        law_sorting_is_a_stable_permutation(s.drop_last());
        lemma_put_ascending(sorted_entries(s.drop_last()), s.last());
        assert(s =~= s.drop_last().push(s.last()));
    }
}

// ---------------------------------------------------------------------------
// Sorting
// ---------------------------------------------------------------------------

pub fn key_of_text(s: &str) -> (r: Vec<i64>)
    ensures
        r@ == text_key(s@),
{
    let mut r: Vec<i64> = Vec::new();
    for c in it: s.chars()
        invariant
            it.seq() == s@,
            r@ == text_key(s@).take(it.index()),
    {
        r.push(c as i64);
        assert(r@ =~= text_key(s@).take(it.index() + 1));
    }
    assert(r@ =~= text_key(s@));
    r
}

pub fn key_not_above(a: &Vec<i64>, b: &Vec<i64>) -> (r: bool)
    ensures
        r == key_le(a@, b@),
{
    let mut i: usize = 0;
    assert(a@.skip(0) =~= a@);
    assert(b@.skip(0) =~= b@);
    while i < a.len()
        invariant
            i <= a.len(),
            i <= b.len(),
            key_le(a@, b@) == key_le(a@.skip(i as int), b@.skip(i as int)),
        decreases a.len() - i,
    {
        if i == b.len() {
            return false;
        }
        if a[i] != b[i] {
            return a[i] < b[i];
        }
        assert(a@.skip(i as int).drop_first() =~= a@.skip(i + 1));
        assert(b@.skip(i as int).drop_first() =~= b@.skip(i + 1));
        i += 1;
    }
    true
}

proof fn lemma_put_at<T>(s: Seq<(Seq<i64>, T)>, x: (Seq<i64>, T), p: int)
    requires
        0 <= p <= s.len(),
        p == 0 || key_le(s[p - 1].0, x.0),
        forall|i: int| p <= i < s.len() ==> !key_le(#[trigger] s[i].0, x.0),
    ensures
        put_sorted(s, x) == s.insert(p, x),
    decreases s.len() - p,
{
    if p == s.len() {
        assert(s.insert(p, x) =~= s.push(x));
    } else {
        let front = s.drop_last();
        assert forall|i: int| p <= i < front.len() implies !key_le(#[trigger] front[i].0, x.0) by {
            assert(front[i] == s[i]);
        }
        lemma_put_at(front, x, p);
        assert(!key_le(s[s.len() - 1].0, x.0));
        assert(s.insert(p, x) =~= front.insert(p, x).push(s.last()));
    }
}

pub fn stable_sort<T: DeepView>(entries: Vec<(Vec<i64>, T)>) -> (r: Vec<(Vec<i64>, T)>)
    ensures
        r.deep_view() == sorted_entries(entries.deep_view()),
{
    let ghost all = entries.deep_view();
    let mut rest = entries;
    let mut out: Vec<(Vec<i64>, T)> = Vec::new();
    let ghost mut done: int = 0;
    assert(all.skip(0) =~= all);
    assert(out.deep_view() =~= sorted_entries(all.take(0)));
    while rest.len() > 0
        invariant
            0 <= done <= all.len(),
            rest.deep_view() == all.skip(done),
            out.deep_view() == sorted_entries(all.take(done)),
        decreases rest.len(),
    {
        let ghost before = rest.deep_view();
        assert(rest.deep_view().len() == rest.len());
        let x = rest.remove(0);
        assert(x.deep_view() == before[0]);
        assert(rest.deep_view() =~= before.skip(1));
        assert(rest.deep_view() =~= all.skip(done + 1));
        assert(all.take(done + 1).drop_last() =~= all.take(done));
        assert(all.take(done + 1).last() == x.deep_view());
        let ghost placed = out.deep_view();
        let ghost entry = x.deep_view();
        let mut p: usize = out.len();
        while p > 0 && !key_not_above(&out[p - 1].0, &x.0)
            invariant
                p <= out.len(),
                placed == out.deep_view(),
                entry == x.deep_view(),
                forall|i: int| p <= i < placed.len() ==> !key_le(#[trigger] placed[i].0, entry.0),
            decreases p,
        {
            assert(out@[p - 1].deep_view() == placed[p - 1]);
            assert(out@[p - 1].0.deep_view() =~= out@[p - 1].0@);
            assert(x.0.deep_view() =~= x.0@);
            p -= 1;
        }
        assert(p > 0 ==> out@[p - 1].deep_view() == placed[p - 1]);
        assert(p > 0 ==> out@[p - 1].0.deep_view() =~= out@[p - 1].0@);
        assert(x.0.deep_view() =~= x.0@);
        proof {
            lemma_put_at(placed, entry, p as int);
        }
        out.insert(p, x);
        assert(out.deep_view() =~= placed.insert(p as int, entry));
        proof {
            done = done + 1;
        }
    }
    assert(all.skip(done).len() == 0);
    assert(all.take(done) =~= all);
    out
}

/// The items in ascending order of the keys that `key` gives.
pub(crate) fn sort_list<A: DeepView, F: Fn(&A) -> Vec<i64>>(
    items: Vec<A>,
    key: F,
    Ghost(g): Ghost<spec_fn(A::V) -> Seq<i64>>,
) -> (r: Vec<A>)
    requires
        forall|x: &A| call_requires(key, (x,)),
        forall|x: &A, y: Vec<i64>| #[trigger] call_ensures(key, (x,), y) ==> y@ == g(x.deep_view()),
    ensures
        r.deep_view() == sorted_by_key(items.deep_view(), g),
{
    let ghost all = items.deep_view();
    let ghost pair = |x: A::V| (g(x), x);
    let mut rest = items;
    let mut entries: Vec<(Vec<i64>, A)> = Vec::new();
    let ghost mut done: int = 0;
    assert(all.skip(0) =~= all);
    assert(entries.deep_view() =~= all.take(0).map_values(pair));
    while rest.len() > 0
        invariant
            0 <= done <= all.len(),
            pair == (|x: A::V| (g(x), x)),
            rest.deep_view() == all.skip(done),
            entries.deep_view() == all.take(done).map_values(pair),
            forall|x: &A| call_requires(key, (x,)),
            forall|x: &A, y: Vec<i64>| #[trigger]
                call_ensures(key, (x,), y) ==> y@ == g(x.deep_view()),
        decreases rest.len(),
    {
        let ghost before = rest.deep_view();
        assert(rest.deep_view().len() == rest.len());
        let x = rest.remove(0);
        assert(x.deep_view() == before[0]);
        assert(rest.deep_view() =~= before.skip(1));
        assert(rest.deep_view() =~= all.skip(done + 1));
        proof {
            crate::list::lemma_mapped_step(all, done, pair);
        }
        let k = key(&x);
        assert(k.deep_view() =~= k@);
        crate::list::extend_by(&mut entries, (k, x));
        proof {
            done = done + 1;
        }
    }
    assert(all.skip(done).len() == 0);
    assert(all.take(done) =~= all);
    let sorted = stable_sort(entries);
    let ghost whole = sorted.deep_view();
    let ghost second = |p: (Seq<i64>, A::V)| p.1;
    let mut left = sorted;
    let mut out: Vec<A> = Vec::new();
    let ghost mut moved: int = 0;
    assert(whole.skip(0) =~= whole);
    assert(out.deep_view() =~= whole.take(0).map_values(second));
    while left.len() > 0
        invariant
            0 <= moved <= whole.len(),
            second == (|p: (Seq<i64>, A::V)| p.1),
            left.deep_view() == whole.skip(moved),
            out.deep_view() == whole.take(moved).map_values(second),
        decreases left.len(),
    {
        let ghost before = left.deep_view();
        assert(left.deep_view().len() == left.len());
        let (k, x) = left.remove(0);
        assert(x.deep_view() == before[0].1);
        assert(left.deep_view() =~= before.skip(1));
        assert(left.deep_view() =~= whole.skip(moved + 1));
        proof {
            crate::list::lemma_mapped_step(whole, moved, second);
        }
        crate::list::extend_by(&mut out, x);
        proof {
            moved = moved + 1;
        }
    }
    assert(whole.skip(moved).len() == 0);
    assert(whole.take(moved) =~= whole);
    out
}

} // verus!
