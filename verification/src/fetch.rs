//! Fetching users, tweets, lists and collections, page by page.

use vstd::prelude::*;

use crate::extract::{
    array_or_none, copy_of_array, extract_ids, extract_lists, extract_tweets, extract_users,
    ids_in, lists_in, tweets_in, users_in,
};
use crate::json::{
    array_from, array_in, get_from, get_in, lookup, object_json, or_empty, put, str_from, text_in,
    text_or_empty, value_id, words_in, words_in_value, Data, Json,
};
use crate::list::{collect_list, collected, extend_by, first_of, keep_first, move_in, spread};
use crate::params::{
    at_most, copy_params, get_method, get_with, has_param, one_param, other_than, pair, plain,
    replace_param, request, request_retried, retried, set_param, user_params, v2_user_params,
    AuthScheme, MAX_PAGE, MAX_SEARCH_RESULTS, V2_LIST_FIELDS, V2_USER_FIELDS,
};
use crate::session::{
    ask_api, bind, both, call, done, fail, replies_left, Ask, AskData, BackendError, CommandError,
    CredentialsData, ErrorData, FaultData, Method, ReplyData, Session, Step, Stop, StopData, Talk,
};
use crate::text::{
    alphanumeric, cat2, cat3, chars_of, contains, contains_text, decimal, decimal_usize,
    eq_ignore_ascii_case, is_alphanumeric, join, joined, lower_char, lowered, same, to_lower_char,
    trim_both, trim_matches, CharSet,
};
use crate::words::{bare_name, extract_owner_and_list, owner_and_list, strip_at, user_param, user_query_param};

verus! {

// ---------------------------------------------------------------------------
// First items
// ---------------------------------------------------------------------------

pub open spec fn first_item(items: Seq<Data>) -> Option<Data> {
    if items.len() > 0 {
        Some(items[0])
    } else {
        None
    }
}

pub fn take_first(items: Vec<Json>) -> (r: Option<Json>)
    ensures
        r.deep_view() == first_item(items.deep_view()),
{
    let mut items = items;
    assert(items.deep_view().len() == items@.len());
    if items.len() > 0 {
        assert(items.deep_view()[0] == items@[0]@);
        Some(items.remove(0))
    } else {
        None
    }
}

pub open spec fn first_or(items: Seq<Data>, default: Data) -> Data {
    match first_item(items) {
        Some(d) => d,
        None => default,
    }
}

pub fn take_first_or(items: Vec<Json>, default: Json) -> (r: Json)
    ensures
        r@ == first_or(items.deep_view(), default@),
{
    match take_first(items) {
        Some(j) => j,
        None => default,
    }
}

/// The token of the next page, where there is one.
pub open spec fn next_token(page: Data) -> Option<Seq<char>> {
    text_in(get_in(page.get("meta"@), "next_token"@))
}

fn find_next_token(page: &Json) -> (r: Option<&String>)
    ensures
        r.deep_view() == next_token(page@),
{
    str_from(get_from(page.get("meta"), "next_token"))
}

// ---------------------------------------------------------------------------
// Users
// ---------------------------------------------------------------------------

pub open spec fn user_path(user: Seq<char>, by_id: bool) -> Seq<char> {
    if by_id {
        "/2/users/"@ + user
    } else {
        "/2/users/by/username/"@ + bare_name(user)
    }
}

/// A user by identifier or by name; nothing where the response holds none.
pub open spec fn user_fetched(t: Talk, user: Seq<char>, by_id: bool) -> Step<Data> {
    bind(
        call(t, retried(Method::GetOauth2, user_path(user, by_id), user_params())),
        |t: Talk, d: Data| done(t, first_or(users_in(d), Data::Null)),
    )
}

pub fn fetch_user(s: &mut Session, user: &str, by_id: bool) -> (r: Result<Json, Stop>)
    ensures
        (final(s).talk(), both(r)) == user_fetched(old(s).talk(), user@, by_id),
{
    let path = if by_id {
        cat2("/2/users/", user)
    } else {
        cat2("/2/users/by/username/", strip_at(user).as_str())
    };
    let response = s.call(request_retried(Method::GetOauth2, path, v2_user_params()))?;
    Ok(take_first_or(extract_users(&response), Json::Null))
}

/// The identifier of a user, which is looked up where a name is given.
pub open spec fn user_id_resolved(t: Talk, user: Seq<char>, by_id: bool) -> Step<Seq<char>> {
    if by_id {
        done(t, user)
    } else {
        bind(
            user_fetched(t, user, false),
            |t: Talk, d: Data|
                done(
                    t,
                    match d.id() {
                        Some(id) => id,
                        None => bare_name(user),
                    },
                ),
        )
    }
}

pub fn resolve_user_id(s: &mut Session, user: &str, by_id: bool) -> (r: Result<String, Stop>)
    ensures
        (final(s).talk(), both(r)) == user_id_resolved(old(s).talk(), user@, by_id),
{
    if by_id {
        return Ok(user.to_owned());
    }
    let resolved = fetch_user(s, user, false)?;
    match value_id(&resolved) {
        Some(id) => Ok(id),
        None => Ok(strip_at(user)),
    }
}

/// Whether the credentials hold an OAuth 2.0 user context.
pub open spec fn has_user_context(credentials: Option<CredentialsData>) -> bool {
    match credentials {
        Some(c) => c.oauth2_user is Some,
        None => false,
    }
}

/// The user of the account. With a user context that is used; else the call is signed the older
/// way, and where that is out of service the older API is asked.
pub open spec fn current_user(t: Talk, user_context: bool) -> Step<Data> {
    if user_context {
        bind(
            call(t, retried(Method::GetOauth2User, "/2/users/me"@, user_params())),
            |t: Talk, d: Data| done(t, first_or(users_in(d), Data::Null)),
        )
    } else {
        bind(
            ask_api(t, AskData::Api(retried(Method::Get, "/2/users/me"@, user_params()))),
            |t: Talk, r: Result<Data, FaultData>|
                match r {
                    Ok(d) => done(t, first_or(users_in(d), Data::Null)),
                    Err(FaultData::Http(message)) => if contains_text(message, "503"@) {
                        bind(
                            call(
                                t,
                                plain(
                                    Method::Get,
                                    "/1.1/account/verify_credentials.json"@,
                                    Seq::empty(),
                                ),
                            ),
                            |t: Talk, d: Data| done(t, first_or(users_in(d), Data::Null)),
                        )
                    } else {
                        fail(t, ErrorData::Backend(FaultData::Http(message)))
                    },
                    Err(e) => fail(t, ErrorData::Backend(e)),
                },
        )
    }
}

pub fn fetch_current_user_with_credentials(s: &mut Session, user_context: bool) -> (r: Result<
    Json,
    Stop,
>)
    ensures
        (final(s).talk(), both(r)) == current_user(old(s).talk(), user_context),
{
    if user_context {
        let response = s.call(
            request_retried(Method::GetOauth2User, "/2/users/me".to_owned(), v2_user_params()),
        )?;
        return Ok(take_first_or(extract_users(&response), Json::Null));
    }
    let ask = Ask::Api(request_retried(Method::Get, "/2/users/me".to_owned(), v2_user_params()));
    let response = match s.api(ask)? {
        Ok(response) => response,
        Err(BackendError::Http(message)) => {
            if contains(message.as_str(), "503") {
                s.call(
                    request(
                        Method::Get,
                        "/1.1/account/verify_credentials.json".to_owned(),
                        crate::params::no_params(),
                    ),
                )?
            } else {
                return Err(Stop::Fail(CommandError::Backend(BackendError::Http(message))));
            }
        },
        Err(e) => {
            return Err(Stop::Fail(CommandError::Backend(e)));
        },
    };
    Ok(take_first_or(extract_users(&response), Json::Null))
}

pub fn fetch_current_user(s: &mut Session) -> (r: Result<Json, Stop>)
    ensures
        (final(s).talk(), both(r)) == current_user(old(s).talk(), false),
{
    fetch_current_user_with_credentials(s, false)
}

pub open spec fn current_user_id(t: Talk, user_context: bool) -> Step<Seq<char>> {
    bind(current_user(t, user_context), |t: Talk, d: Data| done(t, or_empty(d.id())))
}

pub fn current_id(s: &mut Session, user_context: bool) -> (r: Result<String, Stop>)
    ensures
        (final(s).talk(), both(r)) == current_user_id(old(s).talk(), user_context),
{
    let me = fetch_current_user_with_credentials(s, user_context)?;
    match value_id(&me) {
        Some(id) => Ok(id),
        None => Ok(String::new()),
    }
}

pub fn authenticated_user_id(s: &mut Session) -> (r: Result<String, Stop>)
    ensures
        (final(s).talk(), both(r)) == current_user_id(old(s).talk(), false),
{
    current_id(s, false)
}

pub open spec fn bookmark_owner(t: Talk) -> Step<Seq<char>> {
    bind(
        call(
            t,
            retried(
                Method::GetOauth2User,
                "/2/users/me"@,
                seq![("user.fields"@, "id,username"@)],
            ),
        ),
        |t: Talk, d: Data| done(t, words_in(get_in(d.get("data"@), "id"@))),
    )
}

pub fn authenticated_user_id_for_bookmarks(s: &mut Session) -> (r: Result<String, Stop>)
    ensures
        (final(s).talk(), both(r)) == bookmark_owner(old(s).talk()),
{
    let response = s.call(
        request_retried(
            Method::GetOauth2User,
            "/2/users/me".to_owned(),
            one_param("user.fields", "id,username"),
        ),
    )?;
    Ok(words_in_value(get_from(response.get("data"), "id")))
}

/// Users by identifier, a hundred at a time.
pub open spec fn users_looked_up(t: Talk, ids: Seq<Seq<char>>, users: Seq<Data>) -> Step<Seq<Data>>
    decreases ids.len(),
{
    if ids.len() == 0 {
        done(t, users)
    } else {
        let n = at_most(100, ids.len());
        bind(
            call(
                t,
                retried(
                    Method::GetOauth2,
                    "/2/users"@,
                    seq![("ids"@, joined(ids.take(n as int), ","@))] + user_params(),
                ),
            ),
            |t: Talk, d: Data| users_looked_up(t, ids.skip(n as int), users + users_in(d)),
        )
    }
}

fn look_up_from(s: &mut Session, ids: &Vec<String>, from: usize, users: Vec<Json>) -> (r: Result<
    Vec<Json>,
    Stop,
>)
    requires
        from <= ids.len(),
    ensures
        (final(s).talk(), both(r)) == users_looked_up(
            old(s).talk(),
            ids.deep_view().skip(from as int),
            users.deep_view(),
        ),
    decreases ids.len() - from,
{
    let ghost rest = ids.deep_view().skip(from as int);
    if from == ids.len() {
        return Ok(users);
    }
    let left: usize = ids.len() - from;
    let n: usize = if 100 < left {
        100
    } else {
        left
    };
    let mut chunk: Vec<String> = Vec::new();
    let mut i: usize = 0;
    assert(chunk.deep_view() =~= rest.take(0));
    while i < n
        invariant
            i <= n,
            from + n <= ids.len(),
            rest == ids.deep_view().skip(from as int),
            chunk.deep_view() == rest.take(i as int),
        decreases n - i,
    {
        extend_by(&mut chunk, ids[from + i].clone());
        i += 1;
        assert(chunk.deep_view() =~= rest.take(i as int));
    }
    let mut params = one_param("ids", join(&chunk, ",").as_str());
    move_in(&mut params, v2_user_params());
    let response = s.call(request_retried(Method::GetOauth2, "/2/users".to_owned(), params))?;
    let mut users = users;
    move_in(&mut users, extract_users(&response));
    assert(rest.skip(n as int) =~= ids.deep_view().skip(from + n));
    look_up_from(s, ids, from + n, users)
}

pub fn lookup_users_by_ids(s: &mut Session, ids: &Vec<String>) -> (r: Result<Vec<Json>, Stop>)
    ensures
        (final(s).talk(), both(r)) == users_looked_up(
            old(s).talk(),
            ids.deep_view(),
            Seq::empty(),
        ),
{
    let users: Vec<Json> = Vec::new();
    assert(users.deep_view() =~= Seq::empty());
    assert(ids.deep_view().skip(0) =~= ids.deep_view());
    look_up_from(s, ids, 0, users)
}

// ---------------------------------------------------------------------------
// Pages
// ---------------------------------------------------------------------------

/// Identifiers, from up to so many pages.
pub open spec fn ids_from(
    t: Talk,
    path: Seq<char>,
    params: Seq<(Seq<char>, Seq<char>)>,
    ids: Seq<Seq<char>>,
    pages: nat,
) -> Step<Seq<Seq<char>>>
    decreases pages,
{
    if pages == 0 {
        done(t, ids)
    } else {
        bind(
            call(t, retried(Method::GetOauth2, path, params)),
            |t: Talk, d: Data|
                match next_token(d) {
                    Some(token) => ids_from(
                        t,
                        path,
                        set_param(params, "pagination_token"@, token),
                        ids + ids_in(d),
                        (pages - 1) as nat,
                    ),
                    None => done(t, ids + ids_in(d)),
                },
        )
    }
}

fn collect_ids(
    s: &mut Session,
    path: &str,
    params: Vec<(String, String)>,
    ids: Vec<String>,
    pages: usize,
) -> (r: Result<Vec<String>, Stop>)
    ensures
        (final(s).talk(), both(r)) == ids_from(
            old(s).talk(),
            path@,
            params.deep_view(),
            ids.deep_view(),
            pages as nat,
        ),
    decreases pages,
{
    if pages == 0 {
        return Ok(ids);
    }
    let response = s.call(request_retried(Method::GetOauth2, path.to_owned(), copy_params(&params)))?;
    let mut ids = ids;
    move_in(&mut ids, extract_ids(&response));
    match find_next_token(&response) {
        Some(token) => {
            let next = replace_param(params, "pagination_token", token.as_str());
            collect_ids(s, path, next, ids, pages - 1)
        },
        None => Ok(ids),
    }
}

pub open spec fn id_params(size: Seq<char>) -> Seq<(Seq<char>, Seq<char>)> {
    seq![("max_results"@, size), ("user.fields"@, "id,username"@)]
}

fn make_id_params(size: &str) -> (r: Vec<(String, String)>)
    ensures
        r.deep_view() == id_params(size@),
{
    let r: Vec<(String, String)> = vec![
        pair("max_results", size),
        pair("user.fields", "id,username"),
    ];
    assert(r.deep_view() =~= id_params(size@));
    r
}

/// The identifiers of the followers of a user, or of those that the user follows.
pub open spec fn relationship_ids(
    t: Talk,
    user_id: Seq<char>,
    relationship: Seq<char>,
) -> Step<Seq<Seq<char>>> {
    ids_from(
        t,
        "/2/users/"@ + user_id + (if relationship == "followers"@ {
            "/followers"@
        } else {
            "/following"@
        }),
        id_params("1000"@),
        Seq::empty(),
        MAX_PAGE as nat,
    )
}

pub fn fetch_relationship_ids_v2(s: &mut Session, user_id: &str, relationship: &str) -> (r: Result<
    Vec<String>,
    Stop,
>)
    ensures
        (final(s).talk(), both(r)) == relationship_ids(old(s).talk(), user_id@, relationship@),
{
    let tail = if same(relationship, "followers") {
        "/followers"
    } else {
        "/following"
    };
    let endpoint = cat3("/2/users/", user_id, tail);
    let ids: Vec<String> = Vec::new();
    assert(ids.deep_view() =~= Seq::empty());
    collect_ids(s, endpoint.as_str(), make_id_params("1000"), ids, MAX_PAGE)
}

pub open spec fn member_ids(t: Talk, list_id: Seq<char>) -> Step<Seq<Seq<char>>> {
    ids_from(
        t,
        "/2/lists/"@ + list_id + "/members"@,
        id_params("100"@),
        Seq::empty(),
        MAX_PAGE as nat,
    )
}

pub fn fetch_list_member_ids_v2(s: &mut Session, list_id: &str) -> (r: Result<Vec<String>, Stop>)
    ensures
        (final(s).talk(), both(r)) == member_ids(old(s).talk(), list_id@),
{
    let endpoint = cat3("/2/lists/", list_id, "/members");
    let ids: Vec<String> = Vec::new();
    assert(ids.deep_view() =~= Seq::empty());
    collect_ids(s, endpoint.as_str(), make_id_params("100"), ids, MAX_PAGE)
}

/// Tweets, from up to so many pages, until there are `limit` of them.
pub open spec fn tweets_from(
    t: Talk,
    path: Seq<char>,
    params: Seq<(Seq<char>, Seq<char>)>,
    auth: AuthScheme,
    limit: nat,
    tweets: Seq<Data>,
    pages: nat,
) -> Step<Seq<Data>>
    decreases pages,
{
    if pages == 0 {
        done(t, first_of(tweets, limit))
    } else {
        bind(
            call(t, retried(get_with(auth), path, params)),
            |t: Talk, d: Data|
                {
                    let all = tweets + tweets_in(d);
                    if all.len() >= limit {
                        done(t, first_of(all, limit))
                    } else {
                        match next_token(d) {
                            Some(token) => tweets_from(
                                t,
                                path,
                                set_param(params, "pagination_token"@, token),
                                auth,
                                limit,
                                all,
                                (pages - 1) as nat,
                            ),
                            None => done(t, first_of(all, limit)),
                        }
                    }
                },
        )
    }
}

fn collect_tweets(
    s: &mut Session,
    path: &str,
    params: Vec<(String, String)>,
    auth: AuthScheme,
    limit: usize,
    tweets: Vec<Json>,
    pages: usize,
) -> (r: Result<Vec<Json>, Stop>)
    ensures
        (final(s).talk(), both(r)) == tweets_from(
            old(s).talk(),
            path@,
            params.deep_view(),
            auth,
            limit as nat,
            tweets.deep_view(),
            pages as nat,
        ),
    decreases pages,
{
    let mut tweets = tweets;
    if pages == 0 {
        keep_first(&mut tweets, limit);
        return Ok(tweets);
    }
    let response = s.call(
        request_retried(get_method(auth), path.to_owned(), copy_params(&params)),
    )?;
    move_in(&mut tweets, extract_tweets(&response));
    assert(tweets.deep_view().len() == tweets@.len());
    if tweets.len() >= limit {
        keep_first(&mut tweets, limit);
        return Ok(tweets);
    }
    match find_next_token(&response) {
        Some(token) => {
            let next = replace_param(params, "pagination_token", token.as_str());
            collect_tweets(s, path, next, auth, limit, tweets, pages - 1)
        },
        None => {
            keep_first(&mut tweets, limit);
            Ok(tweets)
        },
    }
}

/// The parameters with a page size, where they have none.
pub open spec fn with_page_size(
    params: Seq<(Seq<char>, Seq<char>)>,
    limit: nat,
) -> Seq<(Seq<char>, Seq<char>)> {
    if has_param(params, "max_results"@) {
        params
    } else {
        params.push(("max_results"@, decimal(at_most(limit, MAX_SEARCH_RESULTS as nat))))
    }
}

/// Up to `limit` tweets.
pub open spec fn tweets_collected(
    t: Talk,
    path: Seq<char>,
    params: Seq<(Seq<char>, Seq<char>)>,
    auth: AuthScheme,
    limit: nat,
) -> Step<Seq<Data>> {
    if limit == 0 {
        done(t, Seq::empty())
    } else {
        tweets_from(
            t,
            path,
            with_page_size(params, limit),
            auth,
            limit,
            Seq::empty(),
            MAX_PAGE as nat,
        )
    }
}

pub fn collect_tweets_paginated(
    s: &mut Session,
    path: &str,
    params: Vec<(String, String)>,
    auth: AuthScheme,
    limit: usize,
) -> (r: Result<Vec<Json>, Stop>)
    ensures
        (final(s).talk(), both(r)) == tweets_collected(
            old(s).talk(),
            path@,
            params.deep_view(),
            auth,
            limit as nat,
        ),
{
    let tweets: Vec<Json> = Vec::new();
    assert(tweets.deep_view() =~= Seq::empty());
    if limit == 0 {
        return Ok(tweets);
    }
    let mut params = params;
    if crate::options::find_text(&params, "max_results").is_none() {
        let n: usize = if limit < MAX_SEARCH_RESULTS {
            limit
        } else {
            MAX_SEARCH_RESULTS
        };
        extend_by(&mut params, ("max_results".to_owned(), decimal_usize(n)));
    }
    collect_tweets(s, path, params, auth, limit, tweets, MAX_PAGE)
}

/// The lists of a user, from up to so many pages.
pub open spec fn owned_lists_from(
    t: Talk,
    path: Seq<char>,
    params: Seq<(Seq<char>, Seq<char>)>,
    lists: Seq<Data>,
    pages: nat,
) -> Step<Seq<Data>>
    decreases pages,
{
    if pages == 0 {
        done(t, lists)
    } else {
        bind(
            call(t, retried(Method::GetOauth2, path, params)),
            |t: Talk, d: Data|
                match next_token(d) {
                    Some(token) => owned_lists_from(
                        t,
                        path,
                        set_param(params, "pagination_token"@, token),
                        lists + lists_in(d),
                        (pages - 1) as nat,
                    ),
                    None => done(t, lists + lists_in(d)),
                },
        )
    }
}

fn collect_lists(
    s: &mut Session,
    path: &str,
    params: Vec<(String, String)>,
    lists: Vec<Json>,
    pages: usize,
) -> (r: Result<Vec<Json>, Stop>)
    ensures
        (final(s).talk(), both(r)) == owned_lists_from(
            old(s).talk(),
            path@,
            params.deep_view(),
            lists.deep_view(),
            pages as nat,
        ),
    decreases pages,
{
    if pages == 0 {
        return Ok(lists);
    }
    let response = s.call(request_retried(Method::GetOauth2, path.to_owned(), copy_params(&params)))?;
    let mut lists = lists;
    move_in(&mut lists, extract_lists(&response));
    match find_next_token(&response) {
        Some(token) => {
            let next = replace_param(params, "pagination_token", token.as_str());
            collect_lists(s, path, next, lists, pages - 1)
        },
        None => Ok(lists),
    }
}

pub open spec fn list_params() -> Seq<(Seq<char>, Seq<char>)> {
    seq![
        ("list.fields"@, V2_LIST_FIELDS@),
        ("expansions"@, "owner_id"@),
        ("user.fields"@, V2_USER_FIELDS@),
    ]
}

pub fn v2_list_params() -> (r: Vec<(String, String)>)
    ensures
        r.deep_view() == list_params(),
{
    let r: Vec<(String, String)> = vec![
        pair("list.fields", V2_LIST_FIELDS),
        pair("expansions", "owner_id"),
        pair("user.fields", V2_USER_FIELDS),
    ];
    assert(r.deep_view() =~= list_params());
    r
}

pub open spec fn owned_lists(t: Talk, user_id: Seq<char>) -> Step<Seq<Data>> {
    owned_lists_from(
        t,
        "/2/users/"@ + user_id + "/owned_lists"@,
        seq![("max_results"@, "100"@)] + list_params(),
        Seq::empty(),
        MAX_PAGE as nat,
    )
}

pub fn collect_owned_lists_paginated(s: &mut Session, user_id: &str) -> (r: Result<
    Vec<Json>,
    Stop,
>)
    ensures
        (final(s).talk(), both(r)) == owned_lists(old(s).talk(), user_id@),
{
    let endpoint = cat3("/2/users/", user_id, "/owned_lists");
    let mut params = one_param("max_results", "100");
    move_in(&mut params, v2_list_params());
    let lists: Vec<Json> = Vec::new();
    assert(lists.deep_view() =~= Seq::empty());
    collect_lists(s, endpoint.as_str(), params, lists, MAX_PAGE)
}

/// Users that a search finds, from up to so many pages; a page that repeats the one before, or
/// holds none, is the last.
pub open spec fn found_users_from(
    t: Talk,
    params: Seq<(Seq<char>, Seq<char>)>,
    users: Seq<Data>,
    previous: Option<Seq<Seq<char>>>,
    pages: nat,
) -> Step<Seq<Data>>
    decreases pages,
{
    if pages == 0 {
        done(t, users)
    } else {
        bind(
            call(t, retried(Method::Get, "/2/users/search"@, params)),
            |t: Talk, d: Data|
                {
                    let page = users_in(d);
                    let ids = collected(page, |u: Data| u.id());
                    if page.len() == 0 || previous == Some(ids) {
                        done(t, users)
                    } else {
                        match next_token(d) {
                            Some(token) => found_users_from(
                                t,
                                set_param(params, "next_token"@, token),
                                users + page,
                                Some(ids),
                                (pages - 1) as nat,
                            ),
                            None => done(t, users + page),
                        }
                    }
                },
        )
    }
}

fn same_texts(a: &Vec<String>, b: &Vec<String>) -> (r: bool)
    ensures
        r == (a.deep_view() == b.deep_view()),
{
    assert(a.deep_view().len() == a@.len());
    assert(b.deep_view().len() == b@.len());
    if a.len() != b.len() {
        return false;
    }
    let mut i: usize = 0;
    while i < a.len()
        invariant
            i <= a.len(),
            a.len() == b.len(),
            forall|k: int| 0 <= k < i ==> a@[k]@ == b@[k]@,
        decreases a.len() - i,
    {
        if !same(a[i].as_str(), b[i].as_str()) {
            assert(a.deep_view()[i as int] != b.deep_view()[i as int]);
            return false;
        }
        i += 1;
    }
    assert(a.deep_view() =~= b.deep_view());
    true
}

fn search_users(
    s: &mut Session,
    params: Vec<(String, String)>,
    users: Vec<Json>,
    previous: Option<Vec<String>>,
    pages: usize,
) -> (r: Result<Vec<Json>, Stop>)
    ensures
        (final(s).talk(), both(r)) == found_users_from(
            old(s).talk(),
            params.deep_view(),
            users.deep_view(),
            previous.deep_view(),
            pages as nat,
        ),
    decreases pages,
{
    if pages == 0 {
        return Ok(users);
    }
    let response = s.call(
        request_retried(Method::Get, "/2/users/search".to_owned(), copy_params(&params)),
    )?;
    let page = extract_users(&response);
    let id = |u: &Json| -> (r: Option<String>)
        ensures
            r.deep_view() == u@.id(),
    {
        value_id(u)
    };
    let ids = collect_list(&page, id, Ghost(|u: Data| u.id()));
    assert(page.deep_view().len() == page@.len());
    if page.len() == 0 {
        return Ok(users);
    }
    if let Some(before) = &previous {
        if same_texts(before, &ids) {
            return Ok(users);
        }
    }
    let mut users = users;
    move_in(&mut users, page);
    match find_next_token(&response) {
        Some(token) => {
            let next = replace_param(params, "next_token", token.as_str());
            search_users(s, next, users, Some(ids), pages - 1)
        },
        None => Ok(users),
    }
}

pub open spec fn user_search_params(query: Seq<char>) -> Seq<(Seq<char>, Seq<char>)> {
    seq![("query"@, query), ("max_results"@, "100"@)] + user_params()
}

pub open spec fn found_users(t: Talk, query: Seq<char>) -> Step<Seq<Data>> {
    found_users_from(t, user_search_params(query), Seq::empty(), None, MAX_PAGE as nat)
}

pub fn collect_user_search_pages(s: &mut Session, query: &str) -> (r: Result<Vec<Json>, Stop>)
    ensures
        (final(s).talk(), both(r)) == found_users(old(s).talk(), query@),
{
    let mut params: Vec<(String, String)> = vec![pair("query", query), pair("max_results", "100")];
    assert(params.deep_view() =~= seq![("query"@, query@), ("max_results"@, "100"@)]);
    move_in(&mut params, v2_user_params());
    let users: Vec<Json> = Vec::new();
    assert(users.deep_view() =~= Seq::empty());
    search_users(s, params, users, None, MAX_PAGE)
}

// ---------------------------------------------------------------------------
// Lists by name
// ---------------------------------------------------------------------------

/// The name in small letters, each run of other characters than letters, digits and `_` as one
/// dash; `dashed` says whether a dash stands right before.
pub open spec fn slug_from(s: Seq<char>, dashed: bool) -> Seq<char>
    decreases s.len(),
{
    if s.len() == 0 {
        s
    } else if is_alphanumeric(s[0]) || s[0] == '_' {
        seq![lower_char(s[0])] + slug_from(s.drop_first(), false)
    } else if dashed {
        slug_from(s.drop_first(), true)
    } else {
        seq!['-'] + slug_from(s.drop_first(), true)
    }
}

pub open spec fn slug(s: Seq<char>) -> Seq<char> {
    trim_both(slug_from(s, false), CharSet::Only('-'))
}

pub fn slugify_list_name(value: &str) -> (r: String)
    ensures
        r@ == slug(value@),
{
    let v = chars_of(value);
    let mut output = String::new();
    let mut previous_dash = false;
    let mut i: usize = 0;
    assert(v@.skip(0) =~= v@);
    assert(output@ + slug_from(v@, false) =~= slug_from(v@, false));
    while i < v.len()
        invariant
            i <= v.len(),
            output@ + slug_from(v@.skip(i as int), previous_dash) == slug_from(v@, false),
        decreases v.len() - i,
    {
        let ghost before = output@;
        let ghost rest = v@.skip(i as int);
        assert(rest.drop_first() =~= v@.skip(i + 1));
        let ch = v[i];
        if alphanumeric(ch) || ch == '_' {
            output.push(to_lower_char(ch));
            assert(output@ + slug_from(v@.skip(i + 1), false) =~= before + slug_from(
                rest,
                previous_dash,
            ));
            previous_dash = false;
        } else if !previous_dash {
            output.push('-');
            assert(output@ + slug_from(v@.skip(i + 1), true) =~= before + slug_from(rest, false));
            previous_dash = true;
        }
        i += 1;
    }
    assert(output@ + v@.skip(i as int) =~= output@);
    trim_matches(output.as_str(), &CharSet::Only('-'))
}

/// Whether a list goes by the name: as it is written, or by its slug.
pub open spec fn list_is_named(list: Data, name: Seq<char>) -> bool {
    let own = or_empty(text_in(list.get_either("slug"@, "name"@)));
    lowered(own) == lowered(name) || slug(own) == slug(name)
}

/// The first list that goes by the name.
pub open spec fn list_named(lists: Seq<Data>, name: Seq<char>) -> Option<Data>
    decreases lists.len(),
{
    if lists.len() == 0 {
        None
    } else if list_is_named(lists[0], name) {
        Some(lists[0])
    } else {
        list_named(lists.drop_first(), name)
    }
}

fn find_list_id(lists: &Vec<Json>, name: &str) -> (r: Option<String>)
    ensures
        r.deep_view() == (match list_named(lists.deep_view(), name@) {
            Some(list) => list.id(),
            None => None,
        }),
{
    let ghost all = lists.deep_view();
    let desired = slugify_list_name(name);
    let mut i: usize = 0;
    assert(all.skip(0) =~= all);
    while i < lists.len()
        invariant
            i <= lists.len(),
            all == lists.deep_view(),
            desired@ == slug(name@),
            list_named(all, name@) == list_named(all.skip(i as int), name@),
        decreases lists.len() - i,
    {
        assert(all.skip(i as int)[0] == lists@[i as int]@);
        assert(all.skip(i as int).drop_first() =~= all.skip(i + 1));
        let own = text_or_empty(str_from(lists[i].get_either("slug", "name")));
        if eq_ignore_ascii_case(own.as_str(), name) || same(
            slugify_list_name(own.as_str()).as_str(),
            desired.as_str(),
        ) {
            return value_id(&lists[i]);
        }
        i += 1;
    }
    None
}

/// The identifier of the list that the argument names.
pub open spec fn list_id_resolved(
    t: Talk,
    user_list: Seq<char>,
    by_id: bool,
    default_owner: Seq<char>,
) -> Step<Seq<char>> {
    if by_id {
        done(t, user_list)
    } else {
        let (owner, name) = owner_and_list(user_list, false, default_owner);
        bind(
            user_id_resolved(t, owner, false),
            |t: Talk, owner_id: Seq<char>|
                bind(
                    owned_lists(t, owner_id),
                    |t: Talk, lists: Seq<Data>|
                        done(
                            t,
                            match list_named(lists, name) {
                                Some(list) => match list.id() {
                                    Some(id) => id,
                                    None => name,
                                },
                                None => name,
                            },
                        ),
                ),
        )
    }
}

pub fn resolve_list_id(s: &mut Session, user_list: &str, by_id: bool, default_owner: &str) -> (r:
    Result<String, Stop>)
    ensures
        (final(s).talk(), both(r)) == list_id_resolved(
            old(s).talk(),
            user_list@,
            by_id,
            default_owner@,
        ),
{
    if by_id {
        return Ok(user_list.to_owned());
    }
    let (owner, name) = extract_owner_and_list(user_list, false, default_owner);
    let owner_id = resolve_user_id(s, owner.as_str(), false)?;
    let lists = collect_owned_lists_paginated(s, owner_id.as_str())?;
    match find_list_id(&lists, name.as_str()) {
        Some(id) => Ok(id),
        None => Ok(name),
    }
}

// ---------------------------------------------------------------------------
// Collections
// ---------------------------------------------------------------------------

/// The entries of an object, or none.
pub open spec fn entries_in(value: Option<Data>) -> Seq<(Seq<char>, Data)> {
    match value {
        Some(Data::Object(entries)) => entries,
        _ => Seq::empty(),
    }
}

/// The record under the identifier, carrying the identifier.
pub open spec fn identified(record: Data, id: Seq<char>) -> Data {
    match record {
        Data::Object(entries) => Data::Object(entries.push(("id_str"@, Data::Text(id)))),
        other => other,
    }
}

fn with_entry(record: &Json, key: &str, value: Json) -> (r: Json)
    ensures
        r@ == (match record@ {
            Data::Object(entries) => Data::Object(entries.push((key@, value@))),
            other => other,
        }),
{
    let copy = record.copy();
    match copy {
        Json::Object(object) => {
            proof {
                crate::json::lemma_object_data(object);
            }
            let mut entries = object;
            put(&mut entries, key, value);
            object_json(entries)
        },
        other => other,
    }
}

fn get_member<'a>(value: Option<&'a Json>, key: &str) -> (r: Option<&'a Json>)
    ensures
        r.deep_view() == lookup(entries_in(value.deep_view()), key@),
{
    match value {
        Some(v) => {
            match v {
                Json::Object(entries) => {
                    proof {
                        crate::json::lemma_object_data(*entries);
                    }
                },
                _ => {},
            }
            v.get(key)
        },
        None => None,
    }
}

/// The collection that a result names, where the response holds it.
pub open spec fn collection_for(result: Data, timelines: Seq<(Seq<char>, Data)>) -> Option<Data> {
    let id = result.words_at("timeline_id"@);
    match lookup(timelines, id) {
        Some(timeline) => Some(identified(timeline, id)),
        None => None,
    }
}

/// The collections in a response, in the order of its results.
pub open spec fn collections_in(page: Data) -> Seq<Data> {
    let timelines = entries_in(get_in(page.get("objects"@), "timelines"@));
    collected(
        array_or_none(array_in(get_in(page.get("response"@), "results"@))),
        |r: Data| collection_for(r, timelines),
    )
}

pub fn extract_collections(page: &Json) -> (r: Vec<Json>)
    ensures
        r.deep_view() == collections_in(page@),
{
    let timelines = get_from(page.get("objects"), "timelines");
    let results = copy_of_array(array_from(get_from(page.get("response"), "results")));
    let find = |result: &Json| -> (r: Option<Json>)
        ensures
            r.deep_view() == collection_for(result@, entries_in(timelines.deep_view())),
    {
        let id = result.words_at("timeline_id");
        match get_member(timelines, id.as_str()) {
            Some(timeline) => Some(with_entry(timeline, "id_str", Json::Text(id))),
            None => None,
        }
    };
    collect_list(
        &results,
        find,
        Ghost(|r: Data| collection_for(r, entries_in(timelines.deep_view()))),
    )
}

/// Where the next page of collections starts.
pub open spec fn next_cursor(page: Data) -> Option<Seq<char>> {
    match text_in(get_in(get_in(page.get("response"@), "cursors"@), "next_cursor"@)) {
        Some(s) => if s.len() > 0 {
            Some(s)
        } else {
            None
        },
        None => None,
    }
}

/// The collections of a user, from up to so many pages.
pub open spec fn collections_from(
    t: Talk,
    params: Seq<(Seq<char>, Seq<char>)>,
    collections: Seq<Data>,
    pages: nat,
) -> Step<Seq<Data>>
    decreases pages,
{
    if pages == 0 {
        done(t, collections)
    } else {
        bind(
            call(t, retried(Method::Get, "/1.1/collections/list.json"@, params)),
            |t: Talk, d: Data|
                match next_cursor(d) {
                    Some(cursor) => collections_from(
                        t,
                        set_param(params, "cursor"@, cursor),
                        collections + collections_in(d),
                        (pages - 1) as nat,
                    ),
                    None => done(t, collections + collections_in(d)),
                },
        )
    }
}

#[verifier::loop_isolation(false)]
fn collect_collections(
    s: &mut Session,
    params: Vec<(String, String)>,
    collections: Vec<Json>,
) -> (r: Result<Vec<Json>, Stop>)
    ensures
        (final(s).talk(), both(r)) == collections_from(
            old(s).talk(),
            params.deep_view(),
            collections.deep_view(),
            replies_left(old(s).talk()) + 1,
        ),
{
    let ghost whole = collections_from(
        s.talk(),
        params.deep_view(),
        collections.deep_view(),
        replies_left(s.talk()) + 1,
    );
    let mut params = params;
    let mut collections = collections;
    loop
        invariant
            whole == collections_from(
                s.talk(),
                params.deep_view(),
                collections.deep_view(),
                replies_left(s.talk()) + 1,
            ),
        decreases replies_left(s.talk()),
    {
        let response = s.call(
            request_retried(
                Method::Get,
                "/1.1/collections/list.json".to_owned(),
                copy_params(&params),
            ),
        )?;
        move_in(&mut collections, extract_collections(&response));
        match str_from(get_from(get_from(response.get("response"), "cursors"), "next_cursor")) {
            Some(cursor) => {
                if cursor.as_str().is_empty() {
                    return Ok(collections);
                }
                params = replace_param(params, "cursor", cursor.as_str());
            },
            None => return Ok(collections),
        }
    }
}

/// All collections of a user, page after page until one names no next page. Every page takes one
/// of the replies that are left, and at most one more page is asked for.
pub open spec fn user_collections(t: Talk, user: Seq<char>, by_id: bool) -> Step<Seq<Data>> {
    collections_from(t, seq![user_param(by_id, user)], Seq::empty(), replies_left(t) + 1)
}

/// Fetches all collections of a user.
pub fn fetch_user_collections(s: &mut Session, user: &str, by_id: bool) -> (r: Result<
    Vec<Json>,
    Stop,
>)
    ensures
        (final(s).talk(), both(r)) == user_collections(old(s).talk(), user@, by_id),
{
    let params: Vec<(String, String)> = vec![user_query_param(by_id, user)];
    assert(params.deep_view() =~= seq![user_param(by_id, user@)]);
    let collections: Vec<Json> = Vec::new();
    assert(collections.deep_view() =~= Seq::empty());
    collect_collections(s, params, collections)
}

/// The first collection of the name, whatever the case of ASCII letters.
pub open spec fn collection_named(collections: Seq<Data>, name: Seq<char>) -> Option<Data>
    decreases collections.len(),
{
    if collections.len() == 0 {
        None
    } else if lowered(collections[0].words_at("name"@)) == lowered(name) {
        Some(collections[0])
    } else {
        collection_named(collections.drop_first(), name)
    }
}

fn find_collection_id(collections: &Vec<Json>, name: &str) -> (r: Option<String>)
    ensures
        r.deep_view() == (match collection_named(collections.deep_view(), name@) {
            Some(c) => c.id(),
            None => None,
        }),
{
    let ghost all = collections.deep_view();
    let mut i: usize = 0;
    assert(all.skip(0) =~= all);
    while i < collections.len()
        invariant
            i <= collections.len(),
            all == collections.deep_view(),
            collection_named(all, name@) == collection_named(all.skip(i as int), name@),
        decreases collections.len() - i,
    {
        assert(all.skip(i as int)[0] == collections@[i as int]@);
        assert(all.skip(i as int).drop_first() =~= all.skip(i + 1));
        if eq_ignore_ascii_case(collections[i].words_at("name").as_str(), name) {
            return value_id(&collections[i]);
        }
        i += 1;
    }
    None
}

/// The identifier of the collection that the argument names.
pub open spec fn collection_id_resolved(
    t: Talk,
    name_or_id: Seq<char>,
    by_id: bool,
    default_owner: Seq<char>,
) -> Step<Seq<char>> {
    if by_id {
        done(t, name_or_id)
    } else {
        bind(
            user_collections(t, default_owner, false),
            |t: Talk, collections: Seq<Data>|
                done(
                    t,
                    match collection_named(collections, name_or_id) {
                        Some(c) => match c.id() {
                            Some(id) => id,
                            None => name_or_id,
                        },
                        None => name_or_id,
                    },
                ),
        )
    }
}

pub fn resolve_collection_id(
    s: &mut Session,
    name_or_id: &str,
    by_id: bool,
    default_owner: &str,
) -> (r: Result<String, Stop>)
    ensures
        (final(s).talk(), both(r)) == collection_id_resolved(
            old(s).talk(),
            name_or_id@,
            by_id,
            default_owner@,
        ),
{
    if by_id {
        return Ok(name_or_id.to_owned());
    }
    let collections = fetch_user_collections(s, default_owner, false)?;
    match find_collection_id(&collections, name_or_id) {
        Some(id) => Ok(id),
        None => Ok(name_or_id.to_owned()),
    }
}

/// The identifier of the author in a tweet of a collection.
pub open spec fn entry_author_id(tweet: Data) -> Option<Seq<char>> {
    match tweet.get("user"@) {
        Some(Data::Object(u)) => match Data::Object(u).get_either("id_str"@, "id"@) {
            Some(v) => v.as_words(),
            None => None,
        },
        _ => None,
    }
}

/// The tweet of an entry of a collection, with its author in full where the response holds both.
pub open spec fn entry_tweet(
    entry: Data,
    tweets: Seq<(Seq<char>, Data)>,
    users: Seq<(Seq<char>, Data)>,
) -> Option<Data> {
    match lookup(tweets, or_empty(text_in(get_in(entry.get("tweet"@), "id"@)))) {
        None => None,
        Some(tweet) => match entry_author_id(tweet) {
            None => Some(tweet),
            Some(id) => match lookup(users, id) {
                None => Some(tweet),
                Some(user) => Some(
                    match tweet {
                        Data::Object(entries) => Data::Object(entries.push(("user"@, user))),
                        other => other,
                    },
                ),
            },
        },
    }
}

/// The tweets of a collection in a response, in the order of its timeline.
pub open spec fn collection_entries_in(page: Data) -> Seq<Data> {
    let tweets = entries_in(get_in(page.get("objects"@), "tweets"@));
    let users = entries_in(get_in(page.get("objects"@), "users"@));
    collected(
        array_or_none(array_in(get_in(page.get("response"@), "timeline"@))),
        |e: Data| entry_tweet(e, tweets, users),
    )
}

fn author_id_in_entry(tweet: &Json) -> (r: Option<String>)
    ensures
        r.deep_view() == entry_author_id(tweet@),
{
    match tweet.get("user") {
        Some(user) => {
            if user.is_object() {
                match user.get_either("id_str", "id") {
                    Some(v) => v.as_words(),
                    None => None,
                }
            } else {
                None
            }
        },
        None => None,
    }
}

fn tweet_of_entry(entry: &Json, tweets: Option<&Json>, users: Option<&Json>) -> (r: Option<Json>)
    ensures
        r.deep_view() == entry_tweet(
            entry@,
            entries_in(tweets.deep_view()),
            entries_in(users.deep_view()),
        ),
{
    let id = text_or_empty(str_from(get_from(entry.get("tweet"), "id")));
    match get_member(tweets, id.as_str()) {
        None => None,
        Some(tweet) => match author_id_in_entry(tweet) {
            None => Some(tweet.copy()),
            Some(uid) => match get_member(users, uid.as_str()) {
                None => Some(tweet.copy()),
                Some(user) => Some(with_entry(tweet, "user", user.copy())),
            },
        },
    }
}

pub fn extract_collection_entries(value: &Json) -> (r: Vec<Json>)
    ensures
        r.deep_view() == collection_entries_in(value@),
{
    let tweets = get_from(value.get("objects"), "tweets");
    let users = get_from(value.get("objects"), "users");
    let timeline = copy_of_array(array_from(get_from(value.get("response"), "timeline")));
    let find = |e: &Json| -> (r: Option<Json>)
        ensures
            r.deep_view() == entry_tweet(
                e@,
                entries_in(tweets.deep_view()),
                entries_in(users.deep_view()),
            ),
    {
        tweet_of_entry(e, tweets, users)
    };
    collect_list(
        &timeline,
        find,
        Ghost(
            |e: Data|
                entry_tweet(e, entries_in(tweets.deep_view()), entries_in(users.deep_view())),
        ),
    )
}

pub open spec fn position_in(page: Data) -> Option<Data> {
    get_in(page.get("response"@), "position"@)
}

/// Where the next page of a collection ends, where the page was cut short.
pub open spec fn next_position(page: Data) -> Option<Seq<char>> {
    let cut = match get_in(position_in(page), "was_truncated"@) {
        Some(v) => v.as_flag() == Some(true),
        None => false,
    };
    if cut {
        text_in(get_in(position_in(page), "min_position"@))
    } else {
        None
    }
}

fn find_next_position(page: &Json) -> (r: Option<&String>)
    ensures
        r.deep_view() == next_position(page@),
{
    let position = get_from(page.get("response"), "position");
    let cut = match get_from(position, "was_truncated") {
        Some(v) => match v.as_bool() {
            Some(b) => b,
            None => false,
        },
        None => false,
    };
    if cut {
        str_from(get_from(position, "min_position"))
    } else {
        None
    }
}

/// Tweets of a collection, from up to so many pages, until there are `limit` of them.
pub open spec fn entries_from(
    t: Talk,
    params: Seq<(Seq<char>, Seq<char>)>,
    limit: nat,
    tweets: Seq<Data>,
    pages: nat,
) -> Step<Seq<Data>>
    decreases pages,
{
    if pages == 0 {
        done(t, first_of(tweets, limit))
    } else {
        bind(
            call(t, retried(Method::Get, "/1.1/collections/entries.json"@, params)),
            |t: Talk, d: Data|
                {
                    let all = tweets + collection_entries_in(d);
                    if all.len() >= limit {
                        done(t, first_of(all, limit))
                    } else {
                        match next_position(d) {
                            Some(position) => entries_from(
                                t,
                                set_param(params, "max_position"@, position),
                                limit,
                                all,
                                (pages - 1) as nat,
                            ),
                            None => done(t, first_of(all, limit)),
                        }
                    }
                },
        )
    }
}

fn collect_entries(
    s: &mut Session,
    params: Vec<(String, String)>,
    limit: usize,
    tweets: Vec<Json>,
    pages: usize,
) -> (r: Result<Vec<Json>, Stop>)
    ensures
        (final(s).talk(), both(r)) == entries_from(
            old(s).talk(),
            params.deep_view(),
            limit as nat,
            tweets.deep_view(),
            pages as nat,
        ),
    decreases pages,
{
    let mut tweets = tweets;
    if pages == 0 {
        keep_first(&mut tweets, limit);
        return Ok(tweets);
    }
    let response = s.call(
        request_retried(
            Method::Get,
            "/1.1/collections/entries.json".to_owned(),
            copy_params(&params),
        ),
    )?;
    move_in(&mut tweets, extract_collection_entries(&response));
    assert(tweets.deep_view().len() == tweets@.len());
    if tweets.len() >= limit {
        keep_first(&mut tweets, limit);
        return Ok(tweets);
    }
    match find_next_position(&response) {
        Some(position) => {
            let next = replace_param(params, "max_position", position.as_str());
            collect_entries(s, next, limit, tweets, pages - 1)
        },
        None => {
            keep_first(&mut tweets, limit);
            Ok(tweets)
        },
    }
}

pub open spec fn collection_tweets(t: Talk, collection_id: Seq<char>, limit: nat) -> Step<
    Seq<Data>,
> {
    if limit == 0 {
        done(t, Seq::empty())
    } else {
        entries_from(
            t,
            seq![("id"@, collection_id), ("count"@, decimal(at_most(limit, 200)))],
            limit,
            Seq::empty(),
            MAX_PAGE as nat,
        )
    }
}

pub fn collect_collection_entries(s: &mut Session, collection_id: &str, limit: usize) -> (r: Result<
    Vec<Json>,
    Stop,
>)
    ensures
        (final(s).talk(), both(r)) == collection_tweets(old(s).talk(), collection_id@, limit as nat),
{
    let tweets: Vec<Json> = Vec::new();
    assert(tweets.deep_view() =~= Seq::empty());
    if limit == 0 {
        return Ok(tweets);
    }
    let n: usize = if limit < 200 {
        limit
    } else {
        200
    };
    let params: Vec<(String, String)> = vec![
        pair("id", collection_id),
        ("count".to_owned(), decimal_usize(n)),
    ];
    assert(params.deep_view() =~= seq![
        ("id"@, collection_id@),
        ("count"@, decimal(at_most(limit as nat, 200))),
    ]);
    collect_entries(s, params, limit, tweets, MAX_PAGE)
}

/// What a response says of one collection.
pub open spec fn collection_metadata(value: Data, collection_id: Seq<char>) -> Data {
    match lookup(entries_in(get_in(value.get("objects"@), "timelines"@)), collection_id) {
        Some(timeline) => identified(timeline, collection_id),
        None => Data::Null,
    }
}

pub fn extract_collection_metadata(value: &Json, collection_id: &str) -> (r: Json)
    ensures
        r@ == collection_metadata(value@, collection_id@),
{
    match get_member(get_from(value.get("objects"), "timelines"), collection_id) {
        Some(timeline) => with_entry(timeline, "id_str", Json::Text(collection_id.to_owned())),
        None => Json::Null,
    }
}

// ---------------------------------------------------------------------------
// Laws
// ---------------------------------------------------------------------------

proof fn lemma_tweets_from(
    t: Talk,
    path: Seq<char>,
    params: Seq<(Seq<char>, Seq<char>)>,
    auth: AuthScheme,
    limit: nat,
    tweets: Seq<Data>,
    pages: nat,
)
    ensures
        ({
            let step = tweets_from(t, path, params, auth, limit, tweets, pages);
            &&& step.1 matches Ok(found) ==> found.len() <= limit
            &&& t.next <= step.0.next <= t.next + pages
        }),
    decreases pages,
{
    if pages > 0 {
        let asked = call(t, retried(get_with(auth), path, params));
        if let Ok(d) = asked.1 {
            let all = tweets + tweets_in(d);
            if all.len() < limit {
                if let Some(token) = next_token(d) {
                    lemma_tweets_from(
                        asked.0,
                        path,
                        set_param(params, "pagination_token"@, token),
                        auth,
                        limit,
                        all,
                        (pages - 1) as nat,
                    );
                }
            }
        }
    }
}

/// No more tweets are collected than are asked for, and no more pages are read than there may be.
pub proof fn law_collecting_is_bounded(
    t: Talk,
    path: Seq<char>,
    params: Seq<(Seq<char>, Seq<char>)>,
    auth: AuthScheme,
    limit: nat,
)
    ensures
        tweets_collected(t, path, params, auth, limit).1 matches Ok(found) ==> found.len() <= limit,
        t.next <= tweets_collected(t, path, params, auth, limit).0.next <= t.next + MAX_PAGE,
{
    lemma_tweets_from(
        t,
        path,
        with_page_size(params, limit),
        auth,
        limit,
        Seq::empty(),
        MAX_PAGE as nat,
    );
}

/// Whether the replies that come next are the pages, in their order.
pub open spec fn pages_come_next(t: Talk, pages: Seq<Data>) -> bool {
    &&& t.next + pages.len() <= t.replies.len()
    &&& forall|i: int|
        0 <= i < pages.len() ==> t.replies[t.next + i] == ReplyData::Api(Ok(#[trigger] pages[i]))
}

/// The collections in all pages, page after page.
pub open spec fn collections_of(pages: Seq<Data>) -> Seq<Data> {
    spread(pages, |page: Data| collections_in(page))
}

/// The parameters of the request for the page behind these: the user, and where there are pages
/// the cursor that the last of them gives.
pub open spec fn params_behind(user: Seq<char>, by_id: bool, pages: Seq<Data>) -> Seq<
    (Seq<char>, Seq<char>),
> {
    if pages.len() == 0 {
        seq![user_param(by_id, user)]
    } else {
        seq![user_param(by_id, user), ("cursor"@, next_cursor(pages.last())->0)]
    }
}

/// What is asked for once these pages are known.
pub open spec fn page_asked_for(user: Seq<char>, by_id: bool, pages: Seq<Data>) -> AskData {
    AskData::Api(
        retried(
            Method::Get,
            "/1.1/collections/list.json"@,
            params_behind(user, by_id, pages),
        ),
    )
}

/// What was asked for to get these pages.
pub open spec fn pages_asked_for(user: Seq<char>, by_id: bool, pages: Seq<Data>) -> Seq<AskData> {
    Seq::new(pages.len(), |i: int| page_asked_for(user, by_id, pages.take(i)))
}

proof fn lemma_page_is_asked_for(user: Seq<char>, by_id: bool, pages: Seq<Data>)
    requires
        pages.len() > 0,
    ensures
        pages_asked_for(user, by_id, pages) == pages_asked_for(
            user,
            by_id,
            pages.drop_last(),
        ).push(page_asked_for(user, by_id, pages.drop_last())),
{
    let before = pages.drop_last();
    assert forall|i: int| 0 <= i < pages.len() implies #[trigger] pages.take(i) == before.take(
        i,
    ) by {
        assert(pages.take(i) =~= before.take(i));
    }
    assert(before.take(before.len() as int) =~= before);
    assert(pages_asked_for(user, by_id, pages) =~= pages_asked_for(user, by_id, before).push(
        page_asked_for(user, by_id, before),
    ));
}

proof fn lemma_cursor_is_replaced(user: Seq<char>, by_id: bool, pages: Seq<Data>, cursor: Seq<char>)
    ensures
        set_param(params_behind(user, by_id, pages), "cursor"@, cursor) == seq![
            user_param(by_id, user),
            ("cursor"@, cursor),
        ],
{
    reveal_strlit("cursor");
    reveal_strlit("user_id");
    reveal_strlit("screen_name");
    let who = user_param(by_id, user);
    assert(who.0.len() != "cursor"@.len());
    let f = |p: (Seq<char>, Seq<char>)| other_than(p, "cursor"@);
    let params = params_behind(user, by_id, pages);
    assert(seq![who].drop_last() =~= Seq::<(Seq<char>, Seq<char>)>::empty());
    assert(collected(seq![who].drop_last(), f) =~= Seq::<(Seq<char>, Seq<char>)>::empty());
    assert(collected(seq![who], f) =~= seq![who]);
    if pages.len() > 0 {
        assert(params.drop_last() =~= seq![who]);
        assert(collected(params, f) == collected(params.drop_last(), f));
    }
    assert(set_param(params, "cursor"@, cursor) =~= seq![who, ("cursor"@, cursor)]);
}

/// Pages that are there and name a next page are read, one reply for each.
proof fn lemma_pages_are_read(t: Talk, user: Seq<char>, by_id: bool, pages: Seq<Data>, most: nat)
    requires
        pages_come_next(t, pages),
        pages.len() <= most,
        forall|i: int| 0 <= i < pages.len() ==> next_cursor(#[trigger] pages[i]) is Some,
    ensures
        ({
            let behind = Talk {
                replies: t.replies,
                next: t.next + pages.len(),
                said: if pages.len() == 0 {
                    t.said
                } else {
                    Seq::empty()
                },
                asked: t.asked + pages_asked_for(user, by_id, pages),
            };
            collections_from(t, params_behind(user, by_id, Seq::empty()), Seq::empty(), most)
                == collections_from(
                behind,
                params_behind(user, by_id, pages),
                collections_of(pages),
                (most - pages.len()) as nat,
            )
        }),
    decreases pages.len(),
{
    if pages.len() > 0 {
        let before = pages.drop_last();
        let last = pages.last();
        assert forall|i: int| 0 <= i < before.len() implies t.replies[t.next + i]
            == ReplyData::Api(Ok(#[trigger] before[i])) && next_cursor(before[i]) is Some by {
            assert(before[i] == pages[i]);
        }
        lemma_pages_are_read(t, user, by_id, before, most);
        assert(pages[pages.len() - 1] == last);
        let middle = Talk {
            replies: t.replies,
            next: t.next + before.len(),
            said: if before.len() == 0 {
                t.said
            } else {
                Seq::empty()
            },
            asked: t.asked + pages_asked_for(user, by_id, before),
        };
        let request = retried(
            Method::Get,
            "/1.1/collections/list.json"@,
            params_behind(user, by_id, before),
        );
        assert(call(middle, request).1 == Ok::<Data, StopData>(last));
        lemma_page_is_asked_for(user, by_id, pages);
        assert(middle.asked.push(AskData::Api(request)) =~= t.asked + pages_asked_for(
            user,
            by_id,
            pages,
        ));
        lemma_cursor_is_replaced(user, by_id, before, next_cursor(last)->0);
        assert(collections_of(pages) == collections_of(before) + collections_in(last));
    }
}

/// All collections of a user are fetched: where every page is there and the last one names no next
/// page, the collections are those of all pages, one page behind the other, however many pages
/// there are.
pub proof fn law_all_collections_are_fetched(
    t: Talk,
    user: Seq<char>,
    by_id: bool,
    pages: Seq<Data>,
)
    requires
        pages.len() > 0,
        pages_come_next(t, pages),
        forall|i: int| 0 <= i < pages.len() - 1 ==> next_cursor(#[trigger] pages[i]) is Some,
        next_cursor(pages.last()) is None,
    ensures
        user_collections(t, user, by_id) == done(
            Talk {
                replies: t.replies,
                next: t.next + pages.len(),
                said: Seq::empty(),
                asked: t.asked + pages_asked_for(user, by_id, pages),
            },
            collections_of(pages),
        ),
{
    let before = pages.drop_last();
    let last = pages.last();
    assert forall|i: int| 0 <= i < before.len() implies t.replies[t.next + i] == ReplyData::Api(
        Ok(#[trigger] before[i]),
    ) && next_cursor(before[i]) is Some by {
        assert(before[i] == pages[i]);
    }
    let most = replies_left(t) + 1;
    lemma_pages_are_read(t, user, by_id, before, most);
    assert(pages[pages.len() - 1] == last);
    lemma_page_is_asked_for(user, by_id, pages);
    assert((t.asked + pages_asked_for(user, by_id, before)).push(
        page_asked_for(user, by_id, before),
    ) =~= t.asked + pages_asked_for(user, by_id, pages));
    assert(collections_of(pages) == collections_of(before) + collections_in(last));
}

/// The page behind those that are there is asked for with the cursor that the last of them gives,
/// and with no other; the first page is asked for without one.
pub proof fn law_pages_of_collections_follow_the_cursor(
    t: Talk,
    user: Seq<char>,
    by_id: bool,
    pages: Seq<Data>,
)
    requires
        pages_come_next(t, pages),
        t.replies.len() == t.next + pages.len(),
        forall|i: int| 0 <= i < pages.len() ==> next_cursor(#[trigger] pages[i]) is Some,
    ensures
        user_collections(t, user, by_id).1 == Err::<Seq<Data>, StopData>(
            StopData::Ask(
                AskData::Api(
                    retried(
                        Method::Get,
                        "/1.1/collections/list.json"@,
                        params_behind(user, by_id, pages),
                    ),
                ),
            ),
        ),
{
    lemma_pages_are_read(t, user, by_id, pages, replies_left(t) + 1);
}

/// A number of pages beyond the replies that are left makes no difference.
pub(crate) proof fn lemma_pages_beyond_the_replies(
    t: Talk,
    params: Seq<(Seq<char>, Seq<char>)>,
    collections: Seq<Data>,
    some: nat,
    more: nat,
)
    requires
        replies_left(t) < some,
        replies_left(t) < more,
    ensures
        collections_from(t, params, collections, some) == collections_from(
            t,
            params,
            collections,
            more,
        ),
    decreases some,
{
    let first = call(t, retried(Method::Get, "/1.1/collections/list.json"@, params));
    if let Ok(d) = first.1 {
        if let Some(cursor) = next_cursor(d) {
            lemma_pages_beyond_the_replies(
                first.0,
                set_param(params, "cursor"@, cursor),
                collections + collections_in(d),
                (some - 1) as nat,
                (more - 1) as nat,
            );
        }
    }
}

/// The characters of a slug.
pub open spec fn is_slug_char(c: char) -> bool {
    c == '-' || c == '_' || (is_alphanumeric(c) && !crate::text::is_upper(c))
}

pub open spec fn is_slug_text(s: Seq<char>) -> bool {
    forall|i: int| 0 <= i < s.len() ==> is_slug_char(#[trigger] s[i])
}

proof fn lemma_slug_from(s: Seq<char>, dashed: bool)
    ensures
        is_slug_text(slug_from(s, dashed)),
    decreases s.len(),
{
    if s.len() > 0 {
        lemma_slug_from(s.drop_first(), false);
        lemma_slug_from(s.drop_first(), true);
        let c = s[0];
        assert(is_alphanumeric(c) || c == '_' ==> is_slug_char(lower_char(c)));
    }
}

proof fn lemma_trimmed_slug(s: Seq<char>)
    requires
        is_slug_text(s),
    ensures
        is_slug_text(crate::text::trim_back(s, CharSet::Only('-'))),
        is_slug_text(crate::text::trim_front(s, CharSet::Only('-'))),
    decreases s.len(),
{
    if s.len() > 0 {
        assert(is_slug_text(s.drop_last())) by {
            assert forall|i: int| 0 <= i < s.drop_last().len() implies is_slug_char(
                #[trigger] s.drop_last()[i],
            ) by {
                assert(s.drop_last()[i] == s[i]);
            }
        }
        assert(is_slug_text(s.drop_first())) by {
            assert forall|i: int| 0 <= i < s.drop_first().len() implies is_slug_char(
                #[trigger] s.drop_first()[i],
            ) by {
                assert(s.drop_first()[i] == s[i + 1]);
            }
        }
        lemma_trimmed_slug(s.drop_last());
        lemma_trimmed_slug(s.drop_first());
    }
}

/// A slug holds lower-case letters, digits, underscores and hyphens alone.
pub proof fn law_slug_is_plain(s: Seq<char>)
    ensures
        is_slug_text(slug(s)),
{
    lemma_slug_from(s, false);
    let text = slug_from(s, false);
    lemma_trimmed_slug(text);
    lemma_trimmed_slug(crate::text::trim_front(text, CharSet::Only('-')));
    lemma_trimmed_slug(crate::text::trim_back(text, CharSet::Only('-')));
}

} // verus!
