//! Lists, seen through what their items stand for.

use vstd::prelude::*;

verus! {

/// Puts `item` at the end of the list.
pub fn extend_by<T: DeepView>(list: &mut Vec<T>, item: T)
    ensures
        final(list).deep_view() == old(list).deep_view().push(item.deep_view()),
{
    let ghost before = list.deep_view();
    list.push(item);
    assert(list.deep_view() =~= before.push(item.deep_view()));
}

/// The first `n` items, or all of them where there are fewer.
pub open spec fn first_of<T>(s: Seq<T>, n: nat) -> Seq<T> {
    if n < s.len() {
        s.take(n as int)
    } else {
        s
    }
}

/// Cuts the list down to its first `n` items.
pub fn keep_first<T: DeepView>(list: &mut Vec<T>, n: usize)
    ensures
        final(list).deep_view() == first_of(old(list).deep_view(), n as nat),
{
    let ghost before = list.deep_view();
    if n < list.len() {
        list.truncate(n);
        assert(list.deep_view() =~= before.take(n as int));
    }
}

/// Moves all items of `more` to the end of the list.
pub fn move_in<T: DeepView>(list: &mut Vec<T>, more: Vec<T>)
    ensures
        final(list).deep_view() == old(list).deep_view() + more.deep_view(),
{
    let ghost before = list.deep_view();
    let ghost added = more.deep_view();
    let mut rest = more;
    list.append(&mut rest);
    assert(list.deep_view() =~= before + added);
}

/// The list in the opposite order.
pub fn reversed<T: DeepView>(list: Vec<T>) -> (r: Vec<T>)
    ensures
        r.deep_view() == list.deep_view().reverse(),
{
    let ghost all = list.deep_view();
    let mut rest = list;
    let mut out: Vec<T> = Vec::new();
    assert(out.deep_view() =~= all.reverse().take(0));
    assert(rest.deep_view() =~= all.take(all.len() as int));
    while rest.len() > 0
        invariant
            rest.len() <= all.len(),
            rest.deep_view() == all.take(rest.len() as int),
            out.deep_view() == all.reverse().take(all.len() - rest.len()),
        decreases rest.len(),
    {
        let ghost before = rest.deep_view();
        let ghost n = rest.len() as int;
        match rest.pop() {
            Some(x) => {
                assert(x.deep_view() == before[n - 1]);
                assert(rest.deep_view() =~= all.take(n - 1));
                extend_by(&mut out, x);
                assert(out.deep_view() =~= all.reverse().take(all.len() - n + 1));
            },
            None => {},
        }
    }
    assert(out.deep_view() =~= all.reverse());
    out
}

/// What `f` gives for the items for which it gives something, in order.
pub open spec fn collected<A, B>(s: Seq<A>, f: spec_fn(A) -> Option<B>) -> Seq<B>
    decreases s.len(),
{
    if s.len() == 0 {
        Seq::empty()
    } else {
        match f(s.last()) {
            Some(b) => collected(s.drop_last(), f).push(b),
            None => collected(s.drop_last(), f),
        }
    }
}

/// What is collected comes from an item of the list.
pub proof fn lemma_collected_from<A, B>(s: Seq<A>, f: spec_fn(A) -> Option<B>, i: int)
    requires
        0 <= i < collected(s, f).len(),
    ensures
        exists|k: int| 0 <= k < s.len() && f(#[trigger] s[k]) == Some(collected(s, f)[i]),
    decreases s.len(),
{
    let front = collected(s.drop_last(), f);
    if i < front.len() {
        lemma_collected_from(s.drop_last(), f, i);
        let k = choose|k: int|
            0 <= k < s.drop_last().len() && f(#[trigger] s.drop_last()[k]) == Some(front[i]);
        assert(s[k] == s.drop_last()[k]);
    } else {
        assert(f(s[s.len() - 1]) == Some(collected(s, f)[i]));
    }
}

/// One more item of a list that is being collected.
pub proof fn lemma_collected_step<A, B>(s: Seq<A>, i: int, f: spec_fn(A) -> Option<B>)
    requires
        0 <= i < s.len(),
    ensures
        collected(s.take(i + 1), f) == (match f(s[i]) {
            Some(b) => collected(s.take(i), f).push(b),
            None => collected(s.take(i), f),
        }),
{
    assert(s.take(i + 1).drop_last() =~= s.take(i));
    assert(s.take(i + 1).last() == s[i]);
}

/// One more item of a list that is being mapped.
pub proof fn lemma_mapped_step<A, B>(s: Seq<A>, i: int, f: spec_fn(A) -> B)
    requires
        0 <= i < s.len(),
    ensures
        s.take(i + 1).map_values(f) == s.take(i).map_values(f).push(f(s[i])),
{
    assert(s.take(i + 1).map_values(f) =~= s.take(i).map_values(f).push(f(s[i])));
}

/// The list of what `f` gives for each item.
pub(crate) fn map_list<A: DeepView, B: DeepView, F: Fn(&A) -> B>(
    items: &Vec<A>,
    f: F,
    Ghost(g): Ghost<spec_fn(A::V) -> B::V>,
) -> (r: Vec<B>)
    requires
        forall|x: &A| call_requires(f, (x,)),
        forall|x: &A, y: B| #[trigger] call_ensures(f, (x,), y) ==> y.deep_view() == g(x.deep_view()),
    ensures
        r.deep_view() == items.deep_view().map_values(g),
{
    let ghost all = items.deep_view();
    let mut out: Vec<B> = Vec::new();
    let mut i: usize = 0;
    assert(out.deep_view() =~= all.take(0).map_values(g));
    while i < items.len()
        invariant
            i <= items.len(),
            all == items.deep_view(),
            forall|x: &A| call_requires(f, (x,)),
            forall|x: &A, y: B| #[trigger]
                call_ensures(f, (x,), y) ==> y.deep_view() == g(x.deep_view()),
            out.deep_view() == all.take(i as int).map_values(g),
        decreases items.len() - i,
    {
        proof {
            lemma_mapped_step(all, i as int, g);
        }
        let y = f(&items[i]);
        extend_by(&mut out, y);
        i += 1;
    }
    assert(all.take(i as int) =~= all);
    out
}

/// The list of what `f` gives for the items for which it gives something.
pub(crate) fn collect_list<A: DeepView, B: DeepView, F: Fn(&A) -> Option<B>>(
    items: &Vec<A>,
    f: F,
    Ghost(g): Ghost<spec_fn(A::V) -> Option<B::V>>,
) -> (r: Vec<B>)
    requires
        forall|x: &A| call_requires(f, (x,)),
        forall|x: &A, y: Option<B>| #[trigger]
            call_ensures(f, (x,), y) ==> y.deep_view() == g(x.deep_view()),
    ensures
        r.deep_view() == collected(items.deep_view(), g),
{
    let ghost all = items.deep_view();
    let mut out: Vec<B> = Vec::new();
    let mut i: usize = 0;
    assert(out.deep_view() =~= collected(all.take(0), g));
    while i < items.len()
        invariant
            i <= items.len(),
            all == items.deep_view(),
            forall|x: &A| call_requires(f, (x,)),
            forall|x: &A, y: Option<B>| #[trigger]
                call_ensures(f, (x,), y) ==> y.deep_view() == g(x.deep_view()),
            out.deep_view() == collected(all.take(i as int), g),
        decreases items.len() - i,
    {
        proof {
            lemma_collected_step(all, i as int, g);
        }
        if let Some(y) = f(&items[i]) {
            extend_by(&mut out, y);
        }
        i += 1;
    }
    assert(all.take(i as int) =~= all);
    out
}

/// The lists that `f` gives for the items, one after another.
pub open spec fn spread<A, B>(s: Seq<A>, f: spec_fn(A) -> Seq<B>) -> Seq<B>
    decreases s.len(),
{
    if s.len() == 0 {
        Seq::empty()
    } else {
        spread(s.drop_last(), f) + f(s.last())
    }
}

pub(crate) fn spread_list<A: DeepView, B: DeepView, F: Fn(&A) -> Vec<B>>(
    items: &Vec<A>,
    f: F,
    Ghost(g): Ghost<spec_fn(A::V) -> Seq<B::V>>,
) -> (r: Vec<B>)
    requires
        forall|x: &A| call_requires(f, (x,)),
        forall|x: &A, y: Vec<B>| #[trigger]
            call_ensures(f, (x,), y) ==> y.deep_view() == g(x.deep_view()),
    ensures
        r.deep_view() == spread(items.deep_view(), g),
{
    let ghost all = items.deep_view();
    let mut out: Vec<B> = Vec::new();
    let mut i: usize = 0;
    assert(out.deep_view() =~= spread(all.take(0), g));
    while i < items.len()
        invariant
            i <= items.len(),
            all == items.deep_view(),
            forall|x: &A| call_requires(f, (x,)),
            forall|x: &A, y: Vec<B>| #[trigger]
                call_ensures(f, (x,), y) ==> y.deep_view() == g(x.deep_view()),
            out.deep_view() == spread(all.take(i as int), g),
        decreases items.len() - i,
    {
        assert(all.take(i + 1).drop_last() =~= all.take(i as int));
        let y = f(&items[i]);
        move_in(&mut out, y);
        i += 1;
    }
    assert(all.take(i as int) =~= all);
    out
}

} // verus!
