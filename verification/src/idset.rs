//! Sets of identifiers, in dictionary order.

use vstd::prelude::*;

use crate::list::{collect_list, collected, extend_by};
use crate::order::{
    key_le, key_not_above, key_of_text, lemma_key_antisymmetric, lemma_key_total,
    lemma_key_transitive, text_key,
};
use crate::text::same;

verus! {

pub open spec fn text_le(a: Seq<char>, b: Seq<char>) -> bool {
    key_le(text_key(a), text_key(b))
}

/// The ordered set with `x` in it.
pub open spec fn set_with(set: Seq<Seq<char>>, x: Seq<char>) -> Seq<Seq<char>>
    decreases set.len(),
{
    if set.len() == 0 {
        seq![x]
    } else if set.last() == x {
        set
    } else if text_le(set.last(), x) {
        set.push(x)
    } else {
        set_with(set.drop_last(), x).push(set.last())
    }
}

/// The ordered set of the texts.
pub open spec fn set_of(items: Seq<Seq<char>>) -> Seq<Seq<char>>
    decreases items.len(),
{
    if items.len() == 0 {
        Seq::empty()
    } else {
        set_with(set_of(items.drop_last()), items.last())
    }
}

pub open spec fn kept_if_in(x: Seq<char>, other: Seq<Seq<char>>, wanted: bool) -> Option<Seq<char>> {
    if other.contains(x) == wanted {
        Some(x)
    } else {
        None
    }
}

/// What the first sequence holds and the second holds too, or does not, in order.
pub open spec fn kept(a: Seq<Seq<char>>, b: Seq<Seq<char>>, wanted: bool) -> Seq<Seq<char>> {
    collected(a, |x: Seq<char>| kept_if_in(x, b, wanted))
}

/// What both sets hold, in order.
pub open spec fn intersection_of(a: Seq<Seq<char>>, b: Seq<Seq<char>>) -> Seq<Seq<char>> {
    kept(a, b, true)
}

/// What the first set holds and the second does not, in order.
pub open spec fn difference_of(a: Seq<Seq<char>>, b: Seq<Seq<char>>) -> Seq<Seq<char>> {
    kept(a, b, false)
}

pub fn has_text(list: &Vec<String>, x: &str) -> (r: bool)
    ensures
        r == list.deep_view().contains(x@),
{
    let ghost all = list.deep_view();
    let mut i: usize = 0;
    while i < list.len()
        invariant
            i <= list.len(),
            all == list.deep_view(),
            forall|k: int| 0 <= k < i ==> all[k] != x@,
        decreases list.len() - i,
    {
        assert(all[i as int] == list@[i as int]@);
        if same(list[i].as_str(), x) {
            assert(all.contains(x@));
            return true;
        }
        i += 1;
    }
    false
}

/// Puts `x` into the first `upto` entries of the ordered set.
fn place(set: &Vec<String>, upto: usize, x: &str) -> (r: Vec<String>)
    requires
        upto <= set.len(),
    ensures
        r.deep_view() == set_with(set.deep_view().take(upto as int), x@),
    decreases upto,
{
    let ghost here = set.deep_view().take(upto as int);
    if upto == 0 {
        let mut r: Vec<String> = Vec::new();
        extend_by(&mut r, x.to_owned());
        assert(r.deep_view() =~= seq![x@]);
        return r;
    }
    assert(here.last() == set@[upto - 1]@);
    assert(here.drop_last() =~= set.deep_view().take(upto - 1));
    let last = set[upto - 1].as_str();
    if same(last, x) || key_not_above(&key_of_text(last), &key_of_text(x)) {
        let mut r: Vec<String> = Vec::new();
        let mut i: usize = 0;
        while i < upto
            invariant
                i <= upto <= set.len(),
                r.deep_view() == set.deep_view().take(i as int),
            decreases upto - i,
        {
            extend_by(&mut r, set[i].clone());
            i += 1;
            assert(r.deep_view() =~= set.deep_view().take(i as int));
        }
        if !same(last, x) {
            extend_by(&mut r, x.to_owned());
        }
        r
    } else {
        let mut r = place(set, upto - 1, x);
        extend_by(&mut r, last.to_owned());
        r
    }
}

pub fn insert_text(set: Vec<String>, x: &str) -> (r: Vec<String>)
    ensures
        r.deep_view() == set_with(set.deep_view(), x@),
{
    let n: usize = set.len();
    let r = place(&set, n, x);
    assert(set.deep_view().take(n as int) =~= set.deep_view());
    r
}

pub fn ordered_set(items: &Vec<String>) -> (r: Vec<String>)
    ensures
        r.deep_view() == set_of(items.deep_view()),
{
    let ghost all = items.deep_view();
    let mut set: Vec<String> = Vec::new();
    let mut i: usize = 0;
    assert(set.deep_view() =~= set_of(all.take(0)));
    while i < items.len()
        invariant
            i <= items.len(),
            all == items.deep_view(),
            set.deep_view() == set_of(all.take(i as int)),
        decreases items.len() - i,
    {
        assert(all.take(i + 1).drop_last() =~= all.take(i as int));
        assert(all.take(i + 1).last() == items@[i as int]@);
        set = insert_text(set, items[i].as_str());
        i += 1;
    }
    assert(all.take(i as int) =~= all);
    set
}

fn keep_where(a: &Vec<String>, b: &Vec<String>, wanted: bool) -> (r: Vec<String>)
    ensures
        r.deep_view() == kept(a.deep_view(), b.deep_view(), wanted),
{
    let keep = |x: &String| -> (r: Option<String>)
        ensures
            r.deep_view() == kept_if_in(x@, b.deep_view(), wanted),
    {
        if has_text(b, x.as_str()) == wanted {
            Some(x.clone())
        } else {
            None
        }
    };
    collect_list(a, keep, Ghost(|x: Seq<char>| kept_if_in(x, b.deep_view(), wanted)))
}

pub fn intersection(a: &Vec<String>, b: &Vec<String>) -> (r: Vec<String>)
    ensures
        r.deep_view() == intersection_of(a.deep_view(), b.deep_view()),
{
    keep_where(a, b, true)
}

pub fn difference(a: &Vec<String>, b: &Vec<String>) -> (r: Vec<String>)
    ensures
        r.deep_view() == difference_of(a.deep_view(), b.deep_view()),
{
    keep_where(a, b, false)
}

// ---------------------------------------------------------------------------
// Laws
// ---------------------------------------------------------------------------

/// Whether a sequence of texts is in ascending order without repeats.
pub open spec fn is_ordered_set(s: Seq<Seq<char>>) -> bool {
    forall|i: int, j: int|
        0 <= i < j < s.len() ==> #[trigger] text_le(s[i], s[j]) && s[i] != s[j]
}

proof fn lemma_char_key_injective(c: char, d: char)
    requires
        c as i64 == d as i64,
    ensures
        c == d,
{
}

proof fn lemma_text_key_injective(a: Seq<char>, b: Seq<char>)
    requires
        text_key(a) == text_key(b),
    ensures
        a == b,
{
    assert(text_key(a).len() == a.len());
    assert(text_key(b).len() == b.len());
    assert forall|i: int| 0 <= i < a.len() implies a[i] == b[i] by {
        assert(text_key(a)[i] == a[i] as i64);
        assert(text_key(b)[i] == b[i] as i64);
        lemma_char_key_injective(a[i], b[i]);
    }
    assert(a =~= b);
}

/// Texts that are in order both ways are the same.
pub proof fn lemma_text_order(a: Seq<char>, b: Seq<char>)
    requires
        text_le(a, b),
        text_le(b, a),
    ensures
        a == b,
{
    crate::order::lemma_key_antisymmetric(text_key(a), text_key(b));
    lemma_text_key_injective(a, b);
}

pub(crate) proof fn lemma_set_with(set: Seq<Seq<char>>, x: Seq<char>)
    requires
        is_ordered_set(set),
    ensures
        is_ordered_set(set_with(set, x)),
        forall|y: Seq<char>| #[trigger]
            set_with(set, x).contains(y) <==> (set.contains(y) || y == x),
    decreases set.len(),
{
    let r = set_with(set, x);
    if set.len() == 0 {
        assert forall|y: Seq<char>| #[trigger] r.contains(y) <==> (set.contains(y) || y == x) by {
            assert(r[0] == x);
            if y == x {
                assert(r.contains(r[0]));
            }
        }
    } else if set.last() == x {
        assert forall|y: Seq<char>| #[trigger] r.contains(y) <==> (set.contains(y) || y == x) by {
            assert(set[set.len() - 1] == x);
        }
    } else if text_le(set.last(), x) {
        assert forall|i: int, j: int| 0 <= i < j < r.len() implies #[trigger] text_le(r[i], r[j])
            && r[i] != r[j] by {
            if j == set.len() {
                if i < set.len() - 1 {
                    assert(text_le(set[i], set[set.len() - 1]));
                    lemma_key_transitive(text_key(set[i]), text_key(set.last()), text_key(x));
                    if set[i] == x {
                        lemma_key_antisymmetric(text_key(set[i]), text_key(set.last()));
                        lemma_text_key_injective(set[i], set.last());
                    }
                }
            } else {
                assert(text_le(set[i], set[j]));
            }
        }
        assert forall|y: Seq<char>| #[trigger] r.contains(y) <==> (set.contains(y) || y == x) by {
            if set.contains(y) {
                let k = choose|k: int| 0 <= k < set.len() && set[k] == y;
                assert(r[k] == y);
            }
            if y == x {
                assert(r[set.len() as int] == x);
            }
            if r.contains(y) {
                let k = choose|k: int| 0 <= k < r.len() && r[k] == y;
                if k < set.len() {
                    assert(set[k] == y);
                }
            }
        }
    } else {
        let front = set.drop_last();
        let last = set.last();
        assert(is_ordered_set(front)) by {
            assert forall|i: int, j: int| 0 <= i < j < front.len() implies #[trigger] text_le(
                front[i],
                front[j],
            ) && front[i] != front[j] by {
                assert(text_le(set[i], set[j]));
            }
        }
        lemma_set_with(front, x);
        let inner = set_with(front, x);
        lemma_key_total(text_key(last), text_key(x));
        assert forall|i: int, j: int| 0 <= i < j < r.len() implies #[trigger] text_le(r[i], r[j])
            && r[i] != r[j] by {
            if j == inner.len() {
                assert(inner.contains(inner[i]));
                if inner[i] != x {
                    let k = choose|k: int| 0 <= k < front.len() && front[k] == inner[i];
                    assert(text_le(set[k], set[set.len() - 1]));
                }
            } else {
                assert(text_le(inner[i], inner[j]));
            }
        }
        assert forall|y: Seq<char>| #[trigger] r.contains(y) <==> (set.contains(y) || y == x) by {
            if r.contains(y) {
                let k = choose|k: int| 0 <= k < r.len() && r[k] == y;
                if k < inner.len() {
                    assert(inner.contains(y));
                    if front.contains(y) {
                        let m = choose|m: int| 0 <= m < front.len() && front[m] == y;
                        assert(set[m] == y);
                    }
                } else {
                    assert(set[set.len() - 1] == y);
                }
            }
            if set.contains(y) {
                let k = choose|k: int| 0 <= k < set.len() && set[k] == y;
                if k < front.len() {
                    assert(front[k] == y);
                    assert(inner.contains(y));
                    let m = choose|m: int| 0 <= m < inner.len() && inner[m] == y;
                    assert(r[m] == y);
                } else {
                    assert(r[inner.len() as int] == y);
                }
            }
            if y == x {
                assert(inner.contains(x));
                let m = choose|m: int| 0 <= m < inner.len() && inner[m] == x;
                assert(r[m] == x);
            }
        }
    }
}

/// The ordered set of texts holds exactly those texts, in ascending order, each once.
pub proof fn law_set_holds_each_text_once(items: Seq<Seq<char>>)
    ensures
        is_ordered_set(set_of(items)),
        forall|y: Seq<char>| #[trigger] set_of(items).contains(y) <==> items.contains(y),
    decreases items.len(),
{
    if items.len() > 0 {
        law_set_holds_each_text_once(items.drop_last());
        lemma_set_with(set_of(items.drop_last()), items.last());
        assert forall|y: Seq<char>| #[trigger] set_of(items).contains(y) <==> items.contains(y) by {
            if items.contains(y) {
                let k = choose|k: int| 0 <= k < items.len() && items[k] == y;
                if k < items.len() - 1 {
                    assert(items.drop_last()[k] == y);
                }
            }
            if items.drop_last().contains(y) {
                let k = choose|k: int| 0 <= k < items.drop_last().len() && items.drop_last()[k]
                    == y;
                assert(items[k] == y);
            }
            if y == items.last() {
                assert(items[items.len() - 1] == y);
            }
        }
    }
}

proof fn lemma_kept_contains(a: Seq<Seq<char>>, b: Seq<Seq<char>>, wanted: bool)
    ensures
        forall|y: Seq<char>| #[trigger]
            kept(a, b, wanted).contains(y) <==> (a.contains(y) && b.contains(y) == wanted),
    decreases a.len(),
{
    if a.len() > 0 {
        lemma_kept_contains(a.drop_last(), b, wanted);
        let front = kept(a.drop_last(), b, wanted);
        let r = kept(a, b, wanted);
        assert forall|y: Seq<char>| #[trigger] r.contains(y) <==> (a.contains(y) && b.contains(y)
            == wanted) by {
            if r.contains(y) {
                let k = choose|k: int| 0 <= k < r.len() && r[k] == y;
                if k < front.len() {
                    assert(front[k] == y);
                    assert(front.contains(y));
                    let m = choose|m: int| 0 <= m < a.drop_last().len() && a.drop_last()[m] == y;
                    assert(a[m] == y);
                } else {
                    assert(a[a.len() - 1] == y);
                }
            }
            if a.contains(y) && b.contains(y) == wanted {
                let k = choose|k: int| 0 <= k < a.len() && a[k] == y;
                if k < a.len() - 1 {
                    assert(a.drop_last()[k] == y);
                    assert(front.contains(y));
                    let m = choose|m: int| 0 <= m < front.len() && front[m] == y;
                    assert(r[m] == y);
                } else {
                    assert(r[front.len() as int] == y);
                }
            }
        }
    }
}

proof fn lemma_kept_ordered(a: Seq<Seq<char>>, b: Seq<Seq<char>>, wanted: bool)
    requires
        is_ordered_set(a),
    ensures
        is_ordered_set(kept(a, b, wanted)),
    decreases a.len(),
{
    if a.len() > 0 {
        let fewer = a.drop_last();
        let front = kept(fewer, b, wanted);
        let r = kept(a, b, wanted);
        assert forall|i: int, j: int| 0 <= i < j < fewer.len() implies #[trigger] text_le(
            fewer[i],
            fewer[j],
        ) && fewer[i] != fewer[j] by {
            assert(text_le(a[i], a[j]));
        }
        lemma_kept_ordered(fewer, b, wanted);
        lemma_kept_contains(fewer, b, wanted);
        assert forall|i: int, j: int| 0 <= i < j < r.len() implies #[trigger] text_le(r[i], r[j])
            && r[i] != r[j] by {
            assert(r[i] == front[i]);
            if j < front.len() {
                assert(text_le(front[i], front[j]));
            } else {
                assert(front.contains(front[i]));
                let m = choose|m: int| 0 <= m < fewer.len() && fewer[m] == front[i];
                assert(text_le(a[m], a[a.len() - 1]));
            }
        }
    }
}

/// The intersection holds what both hold; the difference holds what the first alone holds. Where
/// the first is in ascending order without repeats, so are they.
pub proof fn law_intersection_and_difference(a: Seq<Seq<char>>, b: Seq<Seq<char>>)
    ensures
        forall|y: Seq<char>| #[trigger]
            intersection_of(a, b).contains(y) <==> (a.contains(y) && b.contains(y)),
        forall|y: Seq<char>| #[trigger]
            difference_of(a, b).contains(y) <==> (a.contains(y) && !b.contains(y)),
        is_ordered_set(a) ==> is_ordered_set(intersection_of(a, b)),
        is_ordered_set(a) ==> is_ordered_set(difference_of(a, b)),
{
    lemma_kept_contains(a, b, true);
    lemma_kept_contains(a, b, false);
    if is_ordered_set(a) {
        lemma_kept_ordered(a, b, true);
        lemma_kept_ordered(a, b, false);
    }
}

} // verus!
