//! Commands that show tweets: timelines, single tweets, threads and searches.

use vstd::prelude::*;

use crate::act::{fetch_tweet, tweet_fetched};
use crate::extract::{
    extract_tweets, filter_tweets_by_query, text_of, tweet_text, tweets_in, tweets_matching,
};
use crate::fetch::{
    authenticated_user_id_for_bookmarks, bookmark_owner, collect_tweets_paginated, current_id,
    current_user_id, first_item, list_id_resolved, resolve_list_id, resolve_user_id, take_first,
    tweets_collected, user_id_resolved,
};
use crate::invocation::{
    arg_or_active_name, args_behind, first_or_active, Invocation, InvocationData,
};
use crate::json::{array_json, object_json, put, Data, Json};
use crate::list::{collect_list, collected, extend_by, move_in};
use crate::options::{opt_bool, opt_usize_or, Options, OptionsData};
use crate::order::{key_le, sort_list, sorted_by_key};
use crate::params::{
    bookmark_params, bookmark_v2_params, pair, plain, request, timeline_params, timeline_v2_params,
    tweet_params, v2_tweet_params, AuthScheme, DEFAULT_NUM_RESULTS,
};
use crate::present::{
    ensure_min_args, need_args, show_status, show_tweets, show_tweets_or_json, status_shown,
    tweets_or_json, tweets_shown,
};
use crate::session::{
    bind, both, call, done, say, say_json, unit, Method, Session, Step, Stop, Talk,
};
use crate::show::{id_or_empty, id_or_none};
use crate::text::{
    begins_with, cat2, cat3, join, joined, parse_unsigned, read_unsigned, same, starts_with,
};

verus! {

pub open spec fn wanted_count(options: OptionsData) -> nat {
    options.number_or("number"@, DEFAULT_NUM_RESULTS as nat)
}

fn count_wanted(options: &Options) -> (r: usize)
    ensures
        r == wanted_count(options@),
{
    opt_usize_or(options, "number", DEFAULT_NUM_RESULTS)
}

/// How many tweets a search within a timeline goes through.
pub open spec fn search_depth() -> nat {
    5100
}

// ---------------------------------------------------------------------------
// Timelines
// ---------------------------------------------------------------------------

pub open spec fn bookmarks(t: Talk, call: InvocationData) -> Step<i32> {
    bind(
        bookmark_owner(t),
        |t: Talk, me: Seq<char>|
            bind(
                tweets_collected(
                    t,
                    "/2/users/"@ + me + "/bookmarks"@,
                    bookmark_params(call.options),
                    AuthScheme::OAuth2User,
                    wanted_count(call.options),
                ),
                |t: Talk, tweets: Seq<Data>|
                    bind(
                        tweets_or_json(t, tweets, call.options),
                        |t: Talk, u: ()| done(t, 0i32),
                    ),
            ),
    )
}

pub fn run_bookmarks(s: &mut Session, call: &Invocation) -> (r: Result<i32, Stop>)
    ensures
        (final(s).talk(), both(r)) == bookmarks(old(s).talk(), call@),
{
    let me = authenticated_user_id_for_bookmarks(s)?;
    let tweets = collect_tweets_paginated(
        s,
        cat3("/2/users/", me.as_str(), "/bookmarks").as_str(),
        bookmark_v2_params(&call.options),
        AuthScheme::OAuth2User,
        count_wanted(&call.options),
    )?;
    show_tweets_or_json(s, tweets, &call.options)?;
    Ok(0)
}

pub open spec fn favorites(t: Talk, call: InvocationData, who: Seq<char>) -> Step<i32> {
    bind(
        user_id_resolved(t, first_or_active(call.args, who), call.by_id()),
        |t: Talk, id: Seq<char>|
            bind(
                tweets_collected(
                    t,
                    "/2/users/"@ + id + "/liked_tweets"@,
                    timeline_params(call.options),
                    AuthScheme::OAuth1User,
                    wanted_count(call.options),
                ),
                |t: Talk, tweets: Seq<Data>|
                    bind(
                        tweets_shown(t, tweets, call.options),
                        |t: Talk, u: ()| done(t, 0i32),
                    ),
            ),
    )
}

pub fn run_favorites(s: &mut Session, call: &Invocation, who: &str) -> (r: Result<i32, Stop>)
    ensures
        (final(s).talk(), both(r)) == favorites(old(s).talk(), call@, who@),
{
    let user = arg_or_active_name(&call.args, who);
    let id = resolve_user_id(s, user.as_str(), opt_bool(&call.options, "id"))?;
    let tweets = collect_tweets_paginated(
        s,
        cat3("/2/users/", id.as_str(), "/liked_tweets").as_str(),
        timeline_v2_params(&call.options),
        AuthScheme::OAuth1User,
        count_wanted(&call.options),
    )?;
    show_tweets(s, &tweets, &call.options)?;
    Ok(0)
}

/// Tweets that mention the account.
pub open spec fn mentions_collected(
    t: Talk,
    call: InvocationData,
    user_context: bool,
    limit: nat,
) -> Step<Seq<Data>> {
    bind(
        current_user_id(t, user_context),
        |t: Talk, me: Seq<char>|
            tweets_collected(
                t,
                "/2/users/"@ + me + "/mentions"@,
                timeline_params(call.options),
                AuthScheme::OAuth1User,
                limit,
            ),
    )
}

fn collect_mentions(s: &mut Session, call: &Invocation, user_context: bool, limit: usize) -> (r:
    Result<Vec<Json>, Stop>)
    ensures
        (final(s).talk(), both(r)) == mentions_collected(
            old(s).talk(),
            call@,
            user_context,
            limit as nat,
        ),
{
    let me = current_id(s, user_context)?;
    collect_tweets_paginated(
        s,
        cat3("/2/users/", me.as_str(), "/mentions").as_str(),
        timeline_v2_params(&call.options),
        AuthScheme::OAuth1User,
        limit,
    )
}

pub open spec fn mentions(t: Talk, call: InvocationData, user_context: bool) -> Step<i32> {
    bind(
        mentions_collected(t, call, user_context, wanted_count(call.options)),
        |t: Talk, tweets: Seq<Data>|
            bind(tweets_shown(t, tweets, call.options), |t: Talk, u: ()| done(t, 0i32)),
    )
}

pub fn run_mentions(s: &mut Session, call: &Invocation, user_context: bool) -> (r: Result<
    i32,
    Stop,
>)
    ensures
        (final(s).talk(), both(r)) == mentions(old(s).talk(), call@, user_context),
{
    let limit: usize = count_wanted(&call.options);
    let tweets = collect_mentions(s, call, user_context, limit)?;
    show_tweets(s, &tweets, &call.options)?;
    Ok(0)
}

/// The tweets of a user.
pub open spec fn user_tweets_collected(
    t: Talk,
    user: Seq<char>,
    call: InvocationData,
    limit: nat,
) -> Step<Seq<Data>> {
    bind(
        user_id_resolved(t, user, call.by_id()),
        |t: Talk, id: Seq<char>|
            tweets_collected(
                t,
                "/2/users/"@ + id + "/tweets"@,
                timeline_params(call.options),
                AuthScheme::OAuth2Bearer,
                limit,
            ),
    )
}

fn collect_user_tweets(s: &mut Session, user: &str, call: &Invocation, limit: usize) -> (r: Result<
    Vec<Json>,
    Stop,
>)
    ensures
        (final(s).talk(), both(r)) == user_tweets_collected(
            old(s).talk(),
            user@,
            call@,
            limit as nat,
        ),
{
    let id = resolve_user_id(s, user, opt_bool(&call.options, "id"))?;
    collect_tweets_paginated(
        s,
        cat3("/2/users/", id.as_str(), "/tweets").as_str(),
        timeline_v2_params(&call.options),
        AuthScheme::OAuth2Bearer,
        limit,
    )
}

/// The tweets of the account that others repeated.
pub open spec fn reposts_collected(t: Talk, call: InvocationData, limit: nat) -> Step<Seq<Data>> {
    tweets_collected(
        t,
        "/2/users/reposts_of_me"@,
        timeline_params(call.options),
        AuthScheme::OAuth1User,
        limit,
    )
}

fn collect_reposts(s: &mut Session, call: &Invocation, limit: usize) -> (r: Result<Vec<Json>, Stop>)
    ensures
        (final(s).talk(), both(r)) == reposts_collected(old(s).talk(), call@, limit as nat),
{
    collect_tweets_paginated(
        s,
        "/2/users/reposts_of_me",
        timeline_v2_params(&call.options),
        AuthScheme::OAuth1User,
        limit,
    )
}

pub open spec fn if_retweet(tweet: Data) -> Option<Data> {
    if begins_with(text_of(tweet, false), "RT @"@) {
        Some(tweet)
    } else {
        None
    }
}

/// The tweets that repeat others.
pub open spec fn retweets_among(tweets: Seq<Data>) -> Seq<Data> {
    collected(tweets, |t: Data| if_retweet(t))
}

fn keep_retweets(tweets: &Vec<Json>) -> (r: Vec<Json>)
    ensures
        r.deep_view() == retweets_among(tweets.deep_view()),
{
    let keep = |t: &Json| -> (r: Option<Json>)
        ensures
            r.deep_view() == if_retweet(t@),
    {
        if starts_with(tweet_text(t, false).as_str(), "RT @") {
            Some(t.copy())
        } else {
            None
        }
    };
    collect_list(tweets, keep, Ghost(|t: Data| if_retweet(t)))
}

/// Retweets by the named user, or of the account's own tweets where none is named.
pub open spec fn retweets_collected(
    t: Talk,
    user: Option<Seq<char>>,
    call: InvocationData,
    limit: nat,
) -> Step<Seq<Data>> {
    match user {
        Some(name) => bind(
            user_tweets_collected(t, name, call, limit),
            |t: Talk, tweets: Seq<Data>| done(t, retweets_among(tweets)),
        ),
        None => reposts_collected(t, call, limit),
    }
}

fn collect_retweets(s: &mut Session, user: Option<&String>, call: &Invocation, limit: usize) -> (r:
    Result<Vec<Json>, Stop>)
    ensures
        (final(s).talk(), both(r)) == retweets_collected(
            old(s).talk(),
            user.deep_view(),
            call@,
            limit as nat,
        ),
{
    match user {
        Some(name) => {
            let tweets = collect_user_tweets(s, name.as_str(), call, limit)?;
            Ok(keep_retweets(&tweets))
        },
        None => collect_reposts(s, call, limit),
    }
}

pub open spec fn retweets(t: Talk, call: InvocationData) -> Step<i32> {
    bind(
        retweets_collected(
            t,
            crate::invocation::arg_at(call.args, 0),
            call,
            wanted_count(call.options),
        ),
        |t: Talk, tweets: Seq<Data>|
            bind(tweets_shown(t, tweets, call.options), |t: Talk, u: ()| done(t, 0i32)),
    )
}

pub fn run_retweets(s: &mut Session, call: &Invocation) -> (r: Result<i32, Stop>)
    ensures
        (final(s).talk(), both(r)) == retweets(old(s).talk(), call@),
{
    let limit: usize = count_wanted(&call.options);
    let user = crate::invocation::get_arg(&call.args, 0);
    let tweets = collect_retweets(s, user, call, limit)?;
    show_tweets(s, &tweets, &call.options)?;
    Ok(0)
}

pub open spec fn retweets_of_me(t: Talk, call: InvocationData) -> Step<i32> {
    bind(
        reposts_collected(t, call, wanted_count(call.options)),
        |t: Talk, tweets: Seq<Data>|
            bind(tweets_shown(t, tweets, call.options), |t: Talk, u: ()| done(t, 0i32)),
    )
}

pub fn run_retweets_of_me(s: &mut Session, call: &Invocation) -> (r: Result<i32, Stop>)
    ensures
        (final(s).talk(), both(r)) == retweets_of_me(old(s).talk(), call@),
{
    let limit: usize = count_wanted(&call.options);
    let tweets = collect_reposts(s, call, limit)?;
    show_tweets(s, &tweets, &call.options)?;
    Ok(0)
}

/// The timeline of the named user, or of the account where none is named.
pub open spec fn timeline_collected(
    t: Talk,
    user: Option<Seq<char>>,
    call: InvocationData,
    user_context: bool,
    limit: nat,
) -> Step<Seq<Data>> {
    match user {
        Some(name) => user_tweets_collected(t, name, call, limit),
        None => bind(
            current_user_id(t, user_context),
            |t: Talk, me: Seq<char>|
                tweets_collected(
                    t,
                    "/2/users/"@ + me + "/timelines/reverse_chronological"@,
                    timeline_params(call.options),
                    AuthScheme::OAuth1User,
                    limit,
                ),
        ),
    }
}

fn collect_timeline(
    s: &mut Session,
    user: Option<&String>,
    call: &Invocation,
    user_context: bool,
    limit: usize,
) -> (r: Result<Vec<Json>, Stop>)
    ensures
        (final(s).talk(), both(r)) == timeline_collected(
            old(s).talk(),
            user.deep_view(),
            call@,
            user_context,
            limit as nat,
        ),
{
    match user {
        Some(name) => collect_user_tweets(s, name.as_str(), call, limit),
        None => {
            let me = current_id(s, user_context)?;
            collect_tweets_paginated(
                s,
                cat3("/2/users/", me.as_str(), "/timelines/reverse_chronological").as_str(),
                timeline_v2_params(&call.options),
                AuthScheme::OAuth1User,
                limit,
            )
        },
    }
}

pub open spec fn timeline(t: Talk, call: InvocationData, user_context: bool) -> Step<i32> {
    bind(
        timeline_collected(
            t,
            crate::invocation::arg_at(call.args, 0),
            call,
            user_context,
            wanted_count(call.options),
        ),
        |t: Talk, tweets: Seq<Data>|
            bind(tweets_or_json(t, tweets, call.options), |t: Talk, u: ()| done(t, 0i32)),
    )
}

pub fn run_timeline(s: &mut Session, call: &Invocation, user_context: bool) -> (r: Result<
    i32,
    Stop,
>)
    ensures
        (final(s).talk(), both(r)) == timeline(old(s).talk(), call@, user_context),
{
    let limit: usize = count_wanted(&call.options);
    let user = crate::invocation::get_arg(&call.args, 0);
    let tweets = collect_timeline(s, user, call, user_context, limit)?;
    show_tweets_or_json(s, tweets, &call.options)?;
    Ok(0)
}

// ---------------------------------------------------------------------------
// One tweet
// ---------------------------------------------------------------------------

/// A number that orders tweets by age.
pub open spec fn age_key(tweet: Data) -> Seq<i64> {
    match read_unsigned(id_or_none(tweet), u64::MAX as nat) {
        Some(n) => seq![(n / 0x1_0000_0000) as i64, (n % 0x1_0000_0000) as i64],
        None => seq![0i64, 0i64],
    }
}

fn key_of_age(tweet: &Json) -> (r: Vec<i64>)
    ensures
        r@ == age_key(tweet@),
{
    let n: u64 = match parse_unsigned(id_or_empty(tweet).as_str(), u64::MAX) {
        Some(n) => n,
        None => 0,
    };
    let r: Vec<i64> = vec![(n / 0x1_0000_0000) as i64, (n % 0x1_0000_0000) as i64];
    assert(r@ =~= age_key(tweet@));
    r
}

/// The age keys order tweets as their numbers do.
pub proof fn law_age_keys_order_numbers(a: nat, b: nat)
    requires
        a <= u64::MAX,
        b <= u64::MAX,
    ensures
        key_le(
            seq![(a / 0x1_0000_0000) as i64, (a % 0x1_0000_0000) as i64],
            seq![(b / 0x1_0000_0000) as i64, (b % 0x1_0000_0000) as i64],
        ) <==> a <= b,
{
    let x = seq![(a / 0x1_0000_0000) as i64, (a % 0x1_0000_0000) as i64];
    let y = seq![(b / 0x1_0000_0000) as i64, (b % 0x1_0000_0000) as i64];
    reveal_with_fuel(key_le, 3);
    assert(x.drop_first()[0] == x[1]);
    assert(y.drop_first()[0] == y[1]);
    assert(x.drop_first().drop_first().len() == 0);
}

pub open spec fn if_other(tweet: Data, id: Seq<char>) -> Option<Data> {
    if id_or_none(tweet) == id {
        None
    } else {
        Some(tweet)
    }
}

/// The tweet and the rest of its conversation.
pub open spec fn thread_collected(t: Talk, status: Data) -> Step<Seq<Data>> {
    match status.text_at("conversation_id"@) {
        None => done(t, seq![status]),
        Some(conversation) => bind(
            call(
                t,
                plain(
                    Method::GetOauth2,
                    "/2/tweets/search/recent"@,
                    seq![
                        ("query"@, "conversation_id:"@ + conversation),
                        ("max_results"@, "100"@),
                    ] + tweet_params(),
                ),
            ),
            |t: Talk, d: Data|
                done(
                    t,
                    seq![status] + collected(
                        tweets_in(d),
                        |x: Data| if_other(x, id_or_none(status)),
                    ),
                ),
        ),
    }
}

fn collect_thread(s: &mut Session, status: &Json) -> (r: Result<Vec<Json>, Stop>)
    ensures
        (final(s).talk(), both(r)) == thread_collected(old(s).talk(), status@),
{
    let mut thread: Vec<Json> = vec![status.copy()];
    assert(thread.deep_view() =~= seq![status@]);
    if let Some(conversation) = status.get_str("conversation_id") {
        let query = cat2("conversation_id:", conversation.as_str());
        let mut params: Vec<(String, String)> = vec![
            pair("query", query.as_str()),
            pair("max_results", "100"),
        ];
        assert(params.deep_view() =~= seq![("query"@, query@), ("max_results"@, "100"@)]);
        move_in(&mut params, v2_tweet_params());
        let response = s.call(
            request(Method::GetOauth2, "/2/tweets/search/recent".to_owned(), params),
        )?;
        let id = id_or_empty(status);
        let keep = |x: &Json| -> (r: Option<Json>)
            ensures
                r.deep_view() == if_other(x@, id@),
        {
            if same(id_or_empty(x).as_str(), id.as_str()) {
                None
            } else {
                Some(x.copy())
            }
        };
        let others = collect_list(
            &extract_tweets(&response),
            keep,
            Ghost(|x: Data| if_other(x, id_or_none(status@))),
        );
        move_in(&mut thread, others);
    }
    Ok(thread)
}

/// The tweets that a tweet replies to, from the nearest on, up to `depth` of them.
pub open spec fn chain_collected(t: Talk, current: Data, chain: Seq<Data>, depth: nat) -> Step<
    Seq<Data>,
>
    decreases depth,
{
    if depth == 0 {
        done(t, chain)
    } else {
        match current.text_at("in_reply_to_status_id"@) {
            None => done(t, chain),
            Some(parent) => bind(
                call(t, plain(Method::GetOauth2, "/2/tweets/"@ + parent, tweet_params())),
                |t: Talk, d: Data|
                    match first_item(tweets_in(d)) {
                        Some(p) => chain_collected(t, p, chain.push(p), (depth - 1) as nat),
                        None => done(t, chain),
                    },
            ),
        }
    }
}

fn collect_chain(s: &mut Session, current: &Json, chain: Vec<Json>, depth: usize) -> (r: Result<
    Vec<Json>,
    Stop,
>)
    ensures
        (final(s).talk(), both(r)) == chain_collected(
            old(s).talk(),
            current@,
            chain.deep_view(),
            depth as nat,
        ),
    decreases depth,
{
    if depth == 0 {
        return Ok(chain);
    }
    match current.get_str("in_reply_to_status_id") {
        None => Ok(chain),
        Some(parent) => {
            let response = s.call(
                request(Method::GetOauth2, cat2("/2/tweets/", parent.as_str()), v2_tweet_params()),
            )?;
            match take_first(extract_tweets(&response)) {
                Some(p) => {
                    let mut chain = chain;
                    extend_by(&mut chain, p.copy());
                    collect_chain(s, &p, chain, depth - 1)
                },
                None => Ok(chain),
            }
        },
    }
}

pub open spec fn status_json(status: Data, chain: Seq<Data>) -> Data {
    if chain.len() > 0 {
        Data::Object(seq![("status"@, status), ("in_reply_to_chain"@, Data::Array(chain))])
    } else {
        Data::Object(seq![("status"@, status)])
    }
}

/// A tweet and the tweets that it replies to.
pub open spec fn status_with_chain(
    t: Talk,
    status: Data,
    chain: Seq<Data>,
    options: OptionsData,
) -> Step<()> {
    if options.flag("json"@) {
        done(say_json(t, status_json(status, chain)), ())
    } else {
        bind(
            status_shown(t, status, options),
            |t: Talk, u: ()|
                if chain.len() > 0 {
                    tweets_shown(
                        say(say(t, Seq::empty()), "In reply to:"@),
                        chain,
                        options,
                    )
                } else {
                    done(t, ())
                },
        )
    }
}

fn show_status_with_chain(s: &mut Session, status: Json, chain: Vec<Json>, options: &Options) -> (r:
    Result<(), Stop>)
    ensures
        (final(s).talk(), unit(r)) == status_with_chain(
            old(s).talk(),
            status@,
            chain.deep_view(),
            options@,
        ),
{
    assert(chain.deep_view().len() == chain@.len());
    if opt_bool(options, "json") {
        let ghost chained = chain.deep_view();
        let mut result: Vec<(String, Json)> = Vec::new();
        put(&mut result, "status", status);
        if chain.len() > 0 {
            put(&mut result, "in_reply_to_chain", array_json(chain));
        }
        assert(result.deep_view() =~= status_json(status@, chained)->Object_0);
        s.write_json(object_json(result));
        return Ok(());
    }
    show_status(s, &status, options)?;
    if chain.len() > 0 {
        s.say(String::new());
        s.say("In reply to:".to_owned());
        show_tweets(s, &chain, options)?;
    }
    Ok(())
}

pub open spec fn status(t: Talk, call: InvocationData) -> Step<i32> {
    bind(
        need_args(t, call.path, call.args, 1),
        |t: Talk, u: ()|
            bind(
                tweet_fetched(t, call.args[0]),
                |t: Talk, tweet: Data|
                    if call.options.flag("thread"@) {
                        bind(
                            thread_collected(t, tweet),
                            |t: Talk, thread: Seq<Data>|
                                bind(
                                    tweets_or_json(
                                        t,
                                        sorted_by_key(thread, |x: Data| age_key(x)),
                                        call.options,
                                    ),
                                    |t: Talk, u: ()| done(t, 0i32),
                                ),
                        )
                    } else {
                        bind(
                            chain_collected(t, tweet, Seq::empty(), 10),
                            |t: Talk, chain: Seq<Data>|
                                bind(
                                    status_with_chain(t, tweet, chain, call.options),
                                    |t: Talk, u: ()| done(t, 0i32),
                                ),
                        )
                    },
            ),
    )
}

pub fn run_status(s: &mut Session, call: &Invocation) -> (r: Result<i32, Stop>)
    ensures
        (final(s).talk(), both(r)) == status(old(s).talk(), call@),
{
    ensure_min_args(&call.path, &call.args, 1)?;
    assert(call@.args[0] == call.args@[0]@);
    let tweet = fetch_tweet(s, call.args[0].as_str())?;
    if opt_bool(&call.options, "thread") {
        let thread = collect_thread(s, &tweet)?;
        let key = |x: &Json| -> (r: Vec<i64>)
            ensures
                r@ == age_key(x@),
        {
            key_of_age(x)
        };
        let sorted = sort_list(thread, key, Ghost(|x: Data| age_key(x)));
        show_tweets_or_json(s, sorted, &call.options)?;
    } else {
        let none: Vec<Json> = Vec::new();
        assert(none.deep_view() =~= Seq::empty());
        let chain = collect_chain(s, &tweet, none, 10)?;
        show_status_with_chain(s, tweet, chain, &call.options)?;
    }
    Ok(0)
}

// ---------------------------------------------------------------------------
// Searches
// ---------------------------------------------------------------------------

pub open spec fn search_params(query: Seq<char>) -> Seq<(Seq<char>, Seq<char>)> {
    seq![("query"@, query), ("max_results"@, "100"@)] + tweet_params()
}

pub open spec fn search_all(t: Talk, call: InvocationData) -> Step<i32> {
    bind(
        need_args(t, call.path, call.args, 1),
        |t: Talk, u: ()|
            bind(
                tweets_collected(
                    t,
                    "/2/tweets/search/recent"@,
                    search_params(joined(call.args, " "@)),
                    AuthScheme::OAuth2Bearer,
                    wanted_count(call.options),
                ),
                |t: Talk, tweets: Seq<Data>|
                    bind(
                        tweets_or_json(t, tweets, call.options),
                        |t: Talk, u: ()| done(t, 0i32),
                    ),
            ),
    )
}

pub fn run_search_all(s: &mut Session, call: &Invocation) -> (r: Result<i32, Stop>)
    ensures
        (final(s).talk(), both(r)) == search_all(old(s).talk(), call@),
{
    ensure_min_args(&call.path, &call.args, 1)?;
    let query = join(&call.args, " ");
    let mut params: Vec<(String, String)> = vec![
        pair("query", query.as_str()),
        pair("max_results", "100"),
    ];
    assert(params.deep_view() =~= seq![("query"@, query@), ("max_results"@, "100"@)]);
    move_in(&mut params, v2_tweet_params());
    let tweets = collect_tweets_paginated(
        s,
        "/2/tweets/search/recent",
        params,
        AuthScheme::OAuth2Bearer,
        count_wanted(&call.options),
    )?;
    show_tweets_or_json(s, tweets, &call.options)?;
    Ok(0)
}

/// The tweets that hold the query, as a JSON array where that is wished.
pub open spec fn matches_shown(
    t: Talk,
    tweets: Seq<Data>,
    query: Seq<char>,
    options: OptionsData,
) -> Step<i32> {
    bind(
        tweets_or_json(t, tweets_matching(tweets, query), options),
        |t: Talk, u: ()| done(t, 0i32),
    )
}

fn show_matches(s: &mut Session, tweets: &Vec<Json>, query: &str, options: &Options) -> (r: Result<
    i32,
    Stop,
>)
    ensures
        (final(s).talk(), both(r)) == matches_shown(
            old(s).talk(),
            tweets.deep_view(),
            query@,
            options@,
        ),
{
    show_tweets_or_json(s, filter_tweets_by_query(tweets, query), options)?;
    Ok(0)
}

/// The user before the query, where more than the query is given.
pub open spec fn user_before_query(args: Seq<Seq<char>>) -> Option<Seq<char>> {
    if args.len() > 1 {
        Some(args[0])
    } else {
        None
    }
}

fn get_user_before_query(args: &Vec<String>) -> (r: Option<&String>)
    ensures
        r.deep_view() == user_before_query(args.deep_view()),
{
    assert(args.deep_view().len() == args@.len());
    if args.len() > 1 {
        Some(&args[0])
    } else {
        None
    }
}

pub open spec fn search_timeline(t: Talk, call: InvocationData, user_context: bool) -> Step<i32> {
    bind(
        need_args(t, call.path, call.args, 1),
        |t: Talk, u: ()|
            bind(
                timeline_collected(
                    t,
                    user_before_query(call.args),
                    call,
                    user_context,
                    search_depth(),
                ),
                |t: Talk, tweets: Seq<Data>|
                    matches_shown(t, tweets, call.args.last(), call.options),
            ),
    )
}

pub fn run_search_timeline(s: &mut Session, call: &Invocation, user_context: bool) -> (r: Result<
    i32,
    Stop,
>)
    ensures
        (final(s).talk(), both(r)) == search_timeline(old(s).talk(), call@, user_context),
{
    ensure_min_args(&call.path, &call.args, 1)?;
    assert(call@.args.last() == call.args@.last()@);
    let query = call.args[call.args.len() - 1].as_str();
    let user = get_user_before_query(&call.args);
    let tweets = collect_timeline(s, user, call, user_context, 5100)?;
    show_matches(s, &tweets, query, &call.options)
}

pub open spec fn search_mentions(t: Talk, call: InvocationData, user_context: bool) -> Step<i32> {
    bind(
        need_args(t, call.path, call.args, 1),
        |t: Talk, u: ()|
            bind(
                mentions_collected(t, call, user_context, search_depth()),
                |t: Talk, tweets: Seq<Data>|
                    matches_shown(t, tweets, joined(call.args, " "@), call.options),
            ),
    )
}

pub fn run_search_mentions(s: &mut Session, call: &Invocation, user_context: bool) -> (r: Result<
    i32,
    Stop,
>)
    ensures
        (final(s).talk(), both(r)) == search_mentions(old(s).talk(), call@, user_context),
{
    ensure_min_args(&call.path, &call.args, 1)?;
    let tweets = collect_mentions(s, call, user_context, 5100)?;
    show_matches(s, &tweets, join(&call.args, " ").as_str(), &call.options)
}

pub open spec fn search_favorites(t: Talk, call: InvocationData, who: Seq<char>) -> Step<i32> {
    bind(
        need_args(t, call.path, call.args, 1),
        |t: Talk, u: ()|
            bind(
                user_id_resolved(
                    t,
                    match user_before_query(call.args) {
                        Some(user) => user,
                        None => who,
                    },
                    call.by_id(),
                ),
                |t: Talk, id: Seq<char>|
                    bind(
                        tweets_collected(
                            t,
                            "/2/users/"@ + id + "/liked_tweets"@,
                            timeline_params(call.options),
                            AuthScheme::OAuth1User,
                            search_depth(),
                        ),
                        |t: Talk, tweets: Seq<Data>|
                            matches_shown(t, tweets, call.args.last(), call.options),
                    ),
            ),
    )
}

pub fn run_search_favorites(s: &mut Session, call: &Invocation, who: &str) -> (r: Result<i32, Stop>)
    ensures
        (final(s).talk(), both(r)) == search_favorites(old(s).talk(), call@, who@),
{
    ensure_min_args(&call.path, &call.args, 1)?;
    assert(call@.args.last() == call.args@.last()@);
    let query = call.args[call.args.len() - 1].as_str();
    let user = match get_user_before_query(&call.args) {
        Some(user) => user.clone(),
        None => who.to_owned(),
    };
    let id = resolve_user_id(s, user.as_str(), opt_bool(&call.options, "id"))?;
    let tweets = collect_tweets_paginated(
        s,
        cat3("/2/users/", id.as_str(), "/liked_tweets").as_str(),
        timeline_v2_params(&call.options),
        AuthScheme::OAuth1User,
        5100,
    )?;
    show_matches(s, &tweets, query, &call.options)
}

pub open spec fn search_retweets(t: Talk, call: InvocationData) -> Step<i32> {
    bind(
        need_args(t, call.path, call.args, 1),
        |t: Talk, u: ()|
            bind(
                retweets_collected(t, user_before_query(call.args), call, search_depth()),
                |t: Talk, tweets: Seq<Data>|
                    matches_shown(t, tweets, call.args.last(), call.options),
            ),
    )
}

pub fn run_search_retweets(s: &mut Session, call: &Invocation) -> (r: Result<i32, Stop>)
    ensures
        (final(s).talk(), both(r)) == search_retweets(old(s).talk(), call@),
{
    ensure_min_args(&call.path, &call.args, 1)?;
    assert(call@.args.last() == call.args@.last()@);
    let query = call.args[call.args.len() - 1].as_str();
    let user = get_user_before_query(&call.args);
    let tweets = collect_retweets(s, user, call, 5100)?;
    show_matches(s, &tweets, query, &call.options)
}

pub open spec fn search_list(t: Talk, call: InvocationData, who: Seq<char>) -> Step<i32> {
    bind(
        need_args(t, call.path, call.args, 2),
        |t: Talk, u: ()|
            bind(
                list_id_resolved(t, call.args[0], call.by_id(), who),
                |t: Talk, id: Seq<char>|
                    bind(
                        tweets_collected(
                            t,
                            "/2/lists/"@ + id + "/tweets"@,
                            tweet_params(),
                            AuthScheme::OAuth2Bearer,
                            search_depth(),
                        ),
                        |t: Talk, tweets: Seq<Data>|
                            matches_shown(
                                t,
                                tweets,
                                joined(call.args.skip(1), " "@),
                                call.options,
                            ),
                    ),
            ),
    )
}

pub fn run_search_list(s: &mut Session, call: &Invocation, who: &str) -> (r: Result<i32, Stop>)
    ensures
        (final(s).talk(), both(r)) == search_list(old(s).talk(), call@, who@),
{
    ensure_min_args(&call.path, &call.args, 2)?;
    assert(call@.args[0] == call.args@[0]@);
    let query = join(&args_behind(&call.args, 1), " ");
    let id = resolve_list_id(s, call.args[0].as_str(), opt_bool(&call.options, "id"), who)?;
    let tweets = collect_tweets_paginated(
        s,
        cat3("/2/lists/", id.as_str(), "/tweets").as_str(),
        v2_tweet_params(),
        AuthScheme::OAuth2Bearer,
        5100,
    )?;
    show_matches(s, &tweets, query.as_str(), &call.options)
}

} // verus!
