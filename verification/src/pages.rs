//! How answers of several pages are read: each page is asked for with the token that the page
//! before it gives, and what all pages hold is put together in their order.

use vstd::prelude::*;

use crate::extract::{ids_in, lists_in, tweets_in, users_in};
use crate::fetch::{
    collection_entries_in, collection_tweets, found_users, ids_from, list_params, member_ids,
    next_position, next_token, owned_lists, owned_lists_from, pages_come_next, relationship_ids,
    tweets_collected, tweets_from, users_looked_up, with_page_size,
};
use crate::findings::comes_to;
use crate::json::Data;
use crate::list::{collected, first_of, spread};
use crate::params::{get_with, has_param, other_than, retried, set_param, user_params, AuthScheme};
use crate::session::{call, done, AskData, Method, ReplyData, StopData, Talk};
use crate::text::{decimal, joined};

verus! {

/// What is asked for to get the pages: the first as it is, each other with the token in the page
/// before it.
pub open spec fn asks(
    method: Method,
    path: Seq<char>,
    params: Seq<(Seq<char>, Seq<char>)>,
    key: Seq<char>,
    token: spec_fn(Data) -> Option<Seq<char>>,
    pages: Seq<Data>,
) -> Seq<AskData> {
    Seq::new(
        pages.len(),
        |i: int|
            AskData::Api(
                retried(
                    method,
                    path,
                    if i == 0 {
                        params
                    } else {
                        set_param(params, key, token(pages[i - 1])->Some_0)
                    },
                ),
            ),
    )
}

/// The talk once the pages were read.
pub open spec fn after_pages(
    t: Talk,
    method: Method,
    path: Seq<char>,
    params: Seq<(Seq<char>, Seq<char>)>,
    key: Seq<char>,
    token: spec_fn(Data) -> Option<Seq<char>>,
    pages: Seq<Data>,
) -> Talk {
    Talk {
        replies: t.replies,
        next: t.next + pages.len(),
        said: Seq::empty(),
        asked: t.asked + asks(method, path, params, key, token, pages),
    }
}

/// Whether every page but the last names a next one.
pub open spec fn go_on(pages: Seq<Data>, token: spec_fn(Data) -> Option<Seq<char>>) -> bool {
    forall|i: int| 0 <= i < pages.len() - 1 ==> token(#[trigger] pages[i]) is Some
}

proof fn lemma_kept_twice(
    params: Seq<(Seq<char>, Seq<char>)>,
    key: Seq<char>,
)
    ensures
        ({
            let f = |p: (Seq<char>, Seq<char>)| other_than(p, key);
            collected(collected(params, f), f) == collected(params, f)
        }),
    decreases params.len(),
{
    let f = |p: (Seq<char>, Seq<char>)| other_than(p, key);
    if params.len() > 0 {
        let front = collected(params.drop_last(), f);
        lemma_kept_twice(params.drop_last(), key);
        if params.last().0 != key {
            assert(front.push(params.last()).drop_last() =~= front);
        }
    }
}

/// A parameter that is set anew replaces the one before.
pub proof fn law_parameter_is_replaced(
    params: Seq<(Seq<char>, Seq<char>)>,
    key: Seq<char>,
    first: Seq<char>,
    second: Seq<char>,
)
    ensures
        set_param(set_param(params, key, first), key, second) == set_param(params, key, second),
{
    let f = |p: (Seq<char>, Seq<char>)| other_than(p, key);
    let kept = collected(params, f);
    lemma_kept_twice(params, key);
    assert(kept.push((key, first)).drop_last() =~= kept);
    assert(collected(kept.push((key, first)), f) == collected(kept, f));
}

proof fn lemma_spread_front<A, B>(s: Seq<A>, f: spec_fn(A) -> Seq<B>)
    requires
        s.len() > 0,
    ensures
        spread(s, f) == f(s[0]) + spread(s.drop_first(), f),
    decreases s.len(),
{
    let rest = s.drop_first();
    if s.len() == 1 {
        assert(s.drop_last() =~= Seq::<A>::empty());
        assert(spread(s.drop_last(), f) =~= Seq::<B>::empty());
        assert(rest =~= Seq::<A>::empty());
        assert(spread(rest, f) =~= Seq::<B>::empty());
        assert(spread(s, f) =~= f(s[0]) + spread(rest, f));
    } else {
        lemma_spread_front(s.drop_last(), f);
        assert(s.drop_last().drop_first() =~= rest.drop_last());
        assert(rest.last() == s.last());
        assert(spread(s, f) =~= f(s[0]) + spread(rest, f));
    }
}

proof fn lemma_asks_front(
    method: Method,
    path: Seq<char>,
    params: Seq<(Seq<char>, Seq<char>)>,
    key: Seq<char>,
    token: spec_fn(Data) -> Option<Seq<char>>,
    pages: Seq<Data>,
)
    requires
        pages.len() > 1,
    ensures
        asks(method, path, params, key, token, pages) == seq![
            AskData::Api(retried(method, path, params)),
        ] + asks(
            method,
            path,
            set_param(params, key, token(pages[0])->Some_0),
            key,
            token,
            pages.drop_first(),
        ),
{
    let next = set_param(params, key, token(pages[0])->Some_0);
    let rest = pages.drop_first();
    let all = asks(method, path, params, key, token, pages);
    let fewer = asks(method, path, next, key, token, rest);
    assert forall|i: int| 0 <= i < pages.len() implies #[trigger] all[i] == (seq![
        AskData::Api(retried(method, path, params)),
    ] + fewer)[i] by {
        if i > 1 {
            assert(rest[i - 2] == pages[i - 1]);
            law_parameter_is_replaced(
                params,
                key,
                token(pages[0])->Some_0,
                token(pages[i - 1])->Some_0,
            );
        }
    }
    assert(all =~= seq![AskData::Api(retried(method, path, params))] + fewer);
}

proof fn lemma_rest_comes_next(t: Talk, u: Talk, pages: Seq<Data>)
    requires
        pages_come_next(t, pages),
        pages.len() > 0,
        u.replies == t.replies,
        u.next == t.next + 1,
    ensures
        pages_come_next(u, pages.drop_first()),
{
    let rest = pages.drop_first();
    assert forall|i: int| 0 <= i < rest.len() implies u.replies[u.next + i] == ReplyData::Api(
        Ok(#[trigger] rest[i]),
    ) by {
        assert(rest[i] == pages[i + 1]);
    }
}

// ---------------------------------------------------------------------------
// Identifiers
// ---------------------------------------------------------------------------

proof fn lemma_ids_from(
    t: Talk,
    path: Seq<char>,
    params: Seq<(Seq<char>, Seq<char>)>,
    ids: Seq<Seq<char>>,
    most: nat,
    pages: Seq<Data>,
)
    requires
        0 < pages.len() <= most,
        pages_come_next(t, pages),
        go_on(pages, |p: Data| next_token(p)),
        next_token(pages.last()) is None,
    ensures
        ids_from(t, path, params, ids, most) == done(
            after_pages(
                t,
                Method::GetOauth2,
                path,
                params,
                "pagination_token"@,
                |p: Data| next_token(p),
                pages,
            ),
            ids + spread(pages, |p: Data| ids_in(p)),
        ),
    decreases pages.len(),
{
    let token = |p: Data| next_token(p);
    let f = |p: Data| ids_in(p);
    let key = "pagination_token"@;
    let first = call(t, retried(Method::GetOauth2, path, params));
    assert(t.replies[t.next + 0int] == ReplyData::Api(Ok(pages[0])));
    assert(first.1 == Ok::<Data, StopData>(pages[0]));
    lemma_spread_front(pages, f);
    let rest = pages.drop_first();
    if pages.len() == 1 {
        assert(rest =~= Seq::<Data>::empty());
        assert(spread(pages, f) =~= ids_in(pages[0]));
        assert(asks(Method::GetOauth2, path, params, key, token, pages) =~= seq![
            AskData::Api(retried(Method::GetOauth2, path, params)),
        ]);
        assert(first.0.asked =~= t.asked + asks(
            Method::GetOauth2,
            path,
            params,
            key,
            token,
            pages,
        ));
    } else {
        assert(token(pages[0]) is Some);
        let next = set_param(params, key, token(pages[0])->Some_0);
        lemma_rest_comes_next(t, first.0, pages);
        assert forall|i: int| 0 <= i < rest.len() - 1 implies token(#[trigger] rest[i]) is Some by {
            assert(rest[i] == pages[i + 1]);
        }
        lemma_ids_from(first.0, path, next, ids + ids_in(pages[0]), (most - 1) as nat, rest);
        lemma_asks_front(Method::GetOauth2, path, params, key, token, pages);
        assert(first.0.asked + asks(Method::GetOauth2, path, next, key, token, rest) =~= t.asked
            + asks(Method::GetOauth2, path, params, key, token, pages));
        assert(ids + ids_in(pages[0]) + spread(rest, f) =~= ids + spread(pages, f));
    }
}

/// Followers, followed users and the members of a list are read page by page, from under the user
/// and the list, and all of them are found: what the pages hold, one page behind the other.
pub proof fn law_identifiers_are_read_from_all_pages(t: Talk, id: Seq<char>, pages: Seq<Data>)
    requires
        0 < pages.len() <= 51,
        pages_come_next(t, pages),
        go_on(pages, |p: Data| next_token(p)),
        next_token(pages.last()) is None,
    ensures
        ({
            let key = "pagination_token"@;
            let token = |p: Data| next_token(p);
            let all = spread(pages, |p: Data| ids_in(p));
            let many = seq![("max_results"@, "1000"@), ("user.fields"@, "id,username"@)];
            let some = seq![("max_results"@, "100"@), ("user.fields"@, "id,username"@)];
            let get = Method::GetOauth2;
            let followers = "/2/users/"@ + id + "/followers"@;
            let following = "/2/users/"@ + id + "/following"@;
            let members = "/2/lists/"@ + id + "/members"@;
            &&& relationship_ids(t, id, "followers"@) == done(
                after_pages(t, get, followers, many, key, token, pages),
                all,
            )
            &&& relationship_ids(t, id, "following"@) == done(
                after_pages(t, get, following, many, key, token, pages),
                all,
            )
            &&& member_ids(t, id) == done(
                after_pages(t, get, members, some, key, token, pages),
                all,
            )
        }),
{
    let many = seq![("max_results"@, "1000"@), ("user.fields"@, "id,username"@)];
    let some = seq![("max_results"@, "100"@), ("user.fields"@, "id,username"@)];
    let all = spread(pages, |p: Data| ids_in(p));
    assert(Seq::<Seq<char>>::empty() + all =~= all);
    reveal_strlit("followers");
    reveal_strlit("following");
    assert("followers"@[6] != "following"@[6]);
    lemma_ids_from(t, "/2/users/"@ + id + "/followers"@, many, Seq::empty(), 51, pages);
    lemma_ids_from(t, "/2/users/"@ + id + "/following"@, many, Seq::empty(), 51, pages);
    lemma_ids_from(t, "/2/lists/"@ + id + "/members"@, some, Seq::empty(), 51, pages);
}

/// Users are looked up a hundred at a time, by their identifiers with commas between; the users
/// that all answers hold are put together in order.
pub proof fn law_users_are_looked_up_by_the_hundred(
    t: Talk,
    ids: Seq<Seq<char>>,
    users: Seq<Data>,
)
    ensures
        ids.len() == 0 ==> users_looked_up(t, ids, users) == done(t, users),
        0 < ids.len() ==> {
            let some = if ids.len() <= 100 {
                ids
            } else {
                ids.take(100)
            };
            let more = ids.skip(some.len() as int);
            let asked = call(
                t,
                retried(
                    Method::GetOauth2,
                    "/2/users"@,
                    seq![("ids"@, joined(some, ","@))] + user_params(),
                ),
            );
            &&& asked.1 is Ok ==> users_looked_up(t, ids, users) == users_looked_up(
                asked.0,
                more,
                users + users_in(asked.1->Ok_0),
            )
            &&& asked.1 is Err ==> users_looked_up(t, ids, users).1 is Err
        },
{
    if 0 < ids.len() <= 100 {
        assert(ids.take(ids.len() as int) =~= ids);
    }
}

// ---------------------------------------------------------------------------
// Lists
// ---------------------------------------------------------------------------

proof fn lemma_owned_lists_from(
    t: Talk,
    path: Seq<char>,
    params: Seq<(Seq<char>, Seq<char>)>,
    lists: Seq<Data>,
    most: nat,
    pages: Seq<Data>,
)
    requires
        0 < pages.len() <= most,
        pages_come_next(t, pages),
        go_on(pages, |p: Data| next_token(p)),
        next_token(pages.last()) is None,
    ensures
        owned_lists_from(t, path, params, lists, most) == done(
            after_pages(
                t,
                Method::GetOauth2,
                path,
                params,
                "pagination_token"@,
                |p: Data| next_token(p),
                pages,
            ),
            lists + spread(pages, |p: Data| lists_in(p)),
        ),
    decreases pages.len(),
{
    let token = |p: Data| next_token(p);
    let f = |p: Data| lists_in(p);
    let key = "pagination_token"@;
    let first = call(t, retried(Method::GetOauth2, path, params));
    assert(t.replies[t.next + 0int] == ReplyData::Api(Ok(pages[0])));
    assert(first.1 == Ok::<Data, StopData>(pages[0]));
    lemma_spread_front(pages, f);
    let rest = pages.drop_first();
    if pages.len() == 1 {
        assert(rest =~= Seq::<Data>::empty());
        assert(spread(pages, f) =~= lists_in(pages[0]));
        assert(asks(Method::GetOauth2, path, params, key, token, pages) =~= seq![
            AskData::Api(retried(Method::GetOauth2, path, params)),
        ]);
        assert(first.0.asked =~= t.asked + asks(
            Method::GetOauth2,
            path,
            params,
            key,
            token,
            pages,
        ));
    } else {
        assert(token(pages[0]) is Some);
        let next = set_param(params, key, token(pages[0])->Some_0);
        lemma_rest_comes_next(t, first.0, pages);
        assert forall|i: int| 0 <= i < rest.len() - 1 implies token(#[trigger] rest[i]) is Some by {
            assert(rest[i] == pages[i + 1]);
        }
        lemma_owned_lists_from(
            first.0,
            path,
            next,
            lists + lists_in(pages[0]),
            (most - 1) as nat,
            rest,
        );
        lemma_asks_front(Method::GetOauth2, path, params, key, token, pages);
        assert(first.0.asked + asks(Method::GetOauth2, path, next, key, token, rest) =~= t.asked
            + asks(Method::GetOauth2, path, params, key, token, pages));
        assert(lists + lists_in(pages[0]) + spread(rest, f) =~= lists + spread(pages, f));
    }
}

/// The lists of a user are read page by page from under the user, and all of them are found.
pub proof fn law_owned_lists_are_read_from_all_pages(t: Talk, id: Seq<char>, pages: Seq<Data>)
    requires
        0 < pages.len() <= 51,
        pages_come_next(t, pages),
        go_on(pages, |p: Data| next_token(p)),
        next_token(pages.last()) is None,
    ensures
        owned_lists(t, id) == done(
            after_pages(
                t,
                Method::GetOauth2,
                "/2/users/"@ + id + "/owned_lists"@,
                seq![("max_results"@, "100"@)] + list_params(),
                "pagination_token"@,
                |p: Data| next_token(p),
                pages,
            ),
            spread(pages, |p: Data| lists_in(p)),
        ),
{
    let all = spread(pages, |p: Data| lists_in(p));
    assert(Seq::<Data>::empty() + all =~= all);
    lemma_owned_lists_from(
        t,
        "/2/users/"@ + id + "/owned_lists"@,
        seq![("max_results"@, "100"@)] + list_params(),
        Seq::empty(),
        51,
        pages,
    );
}

// ---------------------------------------------------------------------------
// Tweets
// ---------------------------------------------------------------------------

proof fn lemma_tweets_from(
    t: Talk,
    path: Seq<char>,
    params: Seq<(Seq<char>, Seq<char>)>,
    auth: AuthScheme,
    limit: nat,
    tweets: Seq<Data>,
    most: nat,
    pages: Seq<Data>,
)
    requires
        0 < pages.len() <= most,
        pages_come_next(t, pages),
        go_on(pages, |p: Data| next_token(p)),
        forall|k: int|
            0 < k < pages.len() ==> tweets.len() + spread(
                #[trigger] pages.take(k),
                |p: Data| tweets_in(p),
            ).len() < limit,
        next_token(pages.last()) is None || tweets.len() + spread(
            pages,
            |p: Data| tweets_in(p),
        ).len() >= limit,
    ensures
        tweets_from(t, path, params, auth, limit, tweets, most) == done(
            after_pages(
                t,
                get_with(auth),
                path,
                params,
                "pagination_token"@,
                |p: Data| next_token(p),
                pages,
            ),
            first_of(tweets + spread(pages, |p: Data| tweets_in(p)), limit),
        ),
    decreases pages.len(),
{
    let token = |p: Data| next_token(p);
    let f = |p: Data| tweets_in(p);
    let key = "pagination_token"@;
    let method = get_with(auth);
    let first = call(t, retried(method, path, params));
    assert(t.replies[t.next + 0int] == ReplyData::Api(Ok(pages[0])));
    assert(first.1 == Ok::<Data, StopData>(pages[0]));
    lemma_spread_front(pages, f);
    let rest = pages.drop_first();
    let all = tweets + tweets_in(pages[0]);
    if pages.len() == 1 {
        assert(rest =~= Seq::<Data>::empty());
        assert(spread(pages, f) =~= tweets_in(pages[0]));
        assert(asks(method, path, params, key, token, pages) =~= seq![
            AskData::Api(retried(method, path, params)),
        ]);
        assert(first.0.asked =~= t.asked + asks(method, path, params, key, token, pages));
    } else {
        assert(token(pages[0]) is Some);
        let next = set_param(params, key, token(pages[0])->Some_0);
        lemma_rest_comes_next(t, first.0, pages);
        assert forall|i: int| 0 <= i < rest.len() - 1 implies token(#[trigger] rest[i]) is Some by {
            assert(rest[i] == pages[i + 1]);
        }
        assert(pages.take(1) =~= seq![pages[0]]);
        lemma_spread_front(pages.take(1), f);
        assert(pages.take(1).drop_first() =~= Seq::<Data>::empty());
        assert(spread(pages.take(1), f) =~= tweets_in(pages[0]));
        assert(all.len() < limit);
        assert forall|k: int| 0 < k < rest.len() implies all.len() + spread(
            #[trigger] rest.take(k),
            f,
        ).len() < limit by {
            lemma_spread_front(pages.take(k + 1), f);
            assert(pages.take(k + 1).drop_first() =~= rest.take(k));
        }
        lemma_tweets_from(first.0, path, next, auth, limit, all, (most - 1) as nat, rest);
        lemma_asks_front(method, path, params, key, token, pages);
        assert(first.0.asked + asks(method, path, next, key, token, rest) =~= t.asked + asks(
            method,
            path,
            params,
            key,
            token,
            pages,
        ));
        assert(all + spread(rest, f) =~= tweets + spread(pages, f));
    }
}

/// Tweets are read page by page until there are as many as wanted or no page is left: what is found
/// are the first so many of those that the pages hold, one page behind the other. Where no page
/// size is given, it is the number wanted, and 100 at most.
pub proof fn law_tweets_are_read_from_the_pages(
    t: Talk,
    path: Seq<char>,
    params: Seq<(Seq<char>, Seq<char>)>,
    auth: AuthScheme,
    limit: nat,
    pages: Seq<Data>,
)
    requires
        0 < limit,
        0 < pages.len() <= 51,
        pages_come_next(t, pages),
        go_on(pages, |p: Data| next_token(p)),
        forall|k: int|
            0 < k < pages.len() ==> spread(#[trigger] pages.take(k), |p: Data| tweets_in(p)).len()
                < limit,
        next_token(pages.last()) is None || spread(pages, |p: Data| tweets_in(p)).len() >= limit,
    ensures
        ({
            let all = spread(pages, |p: Data| tweets_in(p));
            let sized = if has_param(params, "max_results"@) {
                params
            } else {
                params.push(
                    (
                        "max_results"@,
                        decimal(
                            if limit < 100 {
                                limit
                            } else {
                                100
                            },
                        ),
                    ),
                )
            };
            let method = match auth {
                AuthScheme::OAuth1User => Method::Get,
                AuthScheme::OAuth2Bearer => Method::GetOauth2,
                AuthScheme::OAuth2User => Method::GetOauth2User,
            };
            tweets_collected(t, path, params, auth, limit) == done(
                after_pages(
                    t,
                    method,
                    path,
                    sized,
                    "pagination_token"@,
                    |p: Data| next_token(p),
                    pages,
                ),
                if all.len() <= limit {
                    all
                } else {
                    all.take(limit as int)
                },
            )
        }),
{
    let all = spread(pages, |p: Data| tweets_in(p));
    assert(Seq::<Data>::empty() + all =~= all);
    let sized = with_page_size(params, limit);
    lemma_tweets_from(t, path, sized, auth, limit, Seq::empty(), 51, pages);
    assert(all.len() == limit ==> all.take(limit as int) =~= all);
}

/// Nothing is asked for where no tweets are wanted.
pub proof fn law_no_tweets_no_pages(
    t: Talk,
    path: Seq<char>,
    params: Seq<(Seq<char>, Seq<char>)>,
    auth: AuthScheme,
    id: Seq<char>,
)
    ensures
        tweets_collected(t, path, params, auth, 0) == done(t, Seq::<Data>::empty()),
        collection_tweets(t, id, 0) == done(t, Seq::<Data>::empty()),
{
}

/// Where all that is wanted of a collection is in one page, it is asked for under the collection's
/// identifier, and the first so many tweets of the page are found.
pub proof fn law_collection_is_read(t: Talk, id: Seq<char>, limit: nat, page: Data)
    requires
        0 < limit,
        t.next < t.replies.len(),
        t.replies[t.next as int] == ReplyData::Api(Ok(page)),
        next_position(page) is None || collection_entries_in(page).len() >= limit,
    ensures
        ({
            let step = collection_tweets(t, id, limit);
            let all = collection_entries_in(page);
            &&& comes_to(
                step,
                if all.len() <= limit {
                    all
                } else {
                    all.take(limit as int)
                },
            )
            &&& step.0.asked == t.asked.push(
                AskData::Api(
                    retried(
                        Method::Get,
                        "/1.1/collections/entries.json"@,
                        seq![
                            ("id"@, id),
                            (
                                "count"@,
                                decimal(
                                    if limit < 200 {
                                        limit
                                    } else {
                                        200
                                    },
                                ),
                            ),
                        ],
                    ),
                ),
            )
        }),
{
    let all = collection_entries_in(page);
    assert(Seq::<Data>::empty() + all =~= all);
    assert(all.len() == limit ==> all.take(limit as int) =~= all);
}

/// A search for users asks for the words; the users of a single page are found.
pub proof fn law_users_are_searched_for(t: Talk, query: Seq<char>, page: Data)
    requires
        t.next < t.replies.len(),
        t.replies[t.next as int] == ReplyData::Api(Ok(page)),
        next_token(page) is None,
    ensures
        comes_to(found_users(t, query), users_in(page)),
        found_users(t, query).0.asked == t.asked.push(
            AskData::Api(
                retried(
                    Method::Get,
                    "/2/users/search"@,
                    seq![("query"@, query), ("max_results"@, "100"@)] + user_params(),
                ),
            ),
        ),
{
    assert(Seq::<Data>::empty() + users_in(page) =~= users_in(page));
    if users_in(page).len() == 0 {
        assert(users_in(page) =~= Seq::<Data>::empty());
    }
}

} // verus!
