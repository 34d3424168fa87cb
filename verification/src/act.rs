//! Commands that change something: posts, likes, follows, blocks and the profile.

use vstd::prelude::*;

use crate::encode::{base64_of, encode_base64};
use crate::extract::{
    display_user_from_response, extract_tweets, shown_user, text_of, tweet_text, tweets_in,
};
use crate::fetch::{
    authenticated_user_id, authenticated_user_id_for_bookmarks, bookmark_owner, current_user_id,
    fetch_user, first_or, resolve_user_id, take_first_or, user_fetched, user_id_resolved,
};
use crate::idset::{ordered_set, set_of};
use crate::invocation::{args_behind, tell, told, Invocation, InvocationData};
use crate::json::{
    array_json, get_from, get_in, object_json, or_empty, put, str_from, text_in, text_or_empty,
    value_id, words_in_value, Data, Json,
};
use crate::list::{
    collect_list, collected, extend_by, lemma_collected_from, map_list, move_in,
};
use crate::options::{opt_bool, opt_string};
use crate::params::{
    no_params, one_param, pair, plain, request, request_body, request_body_retried,
    request_retried, retried, tweet_params, v2_tweet_params, with_body, with_body_retried,
};
use crate::present::{ensure_min_args, need_args};
use crate::session::{
    ask_file, ask_line, ask_text, bind, both, call, done, fail, say, unit, Ask, AskData,
    CommandError, ErrorData, Method, Session, Step, Stop, StopData, Talk,
};
use crate::stream::one_entry;
use crate::text::{
    begins_with, cat2, cat3, chars_of, eq_ignore_ascii_case, join, joined, lowered, starts_with,
    strip_prefix, trim, trim_back, trim_end, trimmed, CharSet,
};
use crate::words::{
    bare_name, counted, extract_mentions, mentions_in, pluralize, resolve_id_list,
    resolve_user_list, strip_at, user_arg, user_param, user_query_param,
};

verus! {

pub open spec fn ids_of(args: Seq<Seq<char>>) -> Seq<Seq<char>> {
    args.map_values(|a: Seq<char>| trimmed(a))
}

pub open spec fn users_of(args: Seq<Seq<char>>, by_id: bool) -> Seq<Seq<char>> {
    args.map_values(|a: Seq<char>| user_arg(a, by_id))
}

/// A JSON object with one text in it.
pub open spec fn text_body(key: Seq<char>, value: Seq<char>) -> Data {
    Data::Object(seq![(key, Data::Text(value))])
}

fn make_text_body(key: &str, value: &str) -> (r: Json)
    ensures
        r@ == text_body(key@, value@),
{
    one_entry(key, Json::Text(value.to_owned()))
}

// ---------------------------------------------------------------------------
// The same for each of several
// ---------------------------------------------------------------------------

/// A call with a body for each of the texts, which the body holds under the key.
pub open spec fn each_posted(
    t: Talk,
    method: Method,
    retry: bool,
    path: Seq<char>,
    key: Seq<char>,
    texts: Seq<Seq<char>>,
) -> Step<()>
    decreases texts.len(),
{
    if texts.len() == 0 {
        done(t, ())
    } else {
        bind(
            call(
                t,
                if retry {
                    with_body_retried(method, path, text_body(key, texts[0]))
                } else {
                    with_body(method, path, text_body(key, texts[0]))
                },
            ),
            |t: Talk, d: Data| each_posted(t, method, retry, path, key, texts.drop_first()),
        )
    }
}

fn post_each(
    s: &mut Session,
    method: Method,
    retry: bool,
    path: &str,
    key: &str,
    texts: &Vec<String>,
    from: usize,
) -> (r: Result<(), Stop>)
    requires
        from <= texts@.len(),
    ensures
        (final(s).talk(), unit(r)) == each_posted(
            old(s).talk(),
            method,
            retry,
            path@,
            key@,
            texts.deep_view().skip(from as int),
        ),
    decreases texts@.len() - from,
{
    let ghost rest = texts.deep_view().skip(from as int);
    if from == texts.len() {
        return Ok(());
    }
    assert(rest[0] == texts@[from as int]@);
    assert(rest.drop_first() =~= texts.deep_view().skip(from + 1));
    let body = make_text_body(key, texts[from].as_str());
    let call = if retry {
        request_body_retried(method, path.to_owned(), body)
    } else {
        request_body(method, path.to_owned(), body)
    };
    let _ = s.call(call)?;
    post_each(s, method, retry, path, key, texts, from + 1)
}

/// A call that deletes for each of the texts, which ends its path.
pub open spec fn each_deleted(
    t: Talk,
    method: Method,
    retry: bool,
    prefix: Seq<char>,
    texts: Seq<Seq<char>>,
) -> Step<()>
    decreases texts.len(),
{
    if texts.len() == 0 {
        done(t, ())
    } else {
        bind(
            call(
                t,
                if retry {
                    retried(method, prefix + texts[0], Seq::empty())
                } else {
                    plain(method, prefix + texts[0], Seq::empty())
                },
            ),
            |t: Talk, d: Data| each_deleted(t, method, retry, prefix, texts.drop_first()),
        )
    }
}

fn delete_each(
    s: &mut Session,
    method: Method,
    retry: bool,
    prefix: &str,
    texts: &Vec<String>,
    from: usize,
) -> (r: Result<(), Stop>)
    requires
        from <= texts@.len(),
    ensures
        (final(s).talk(), unit(r)) == each_deleted(
            old(s).talk(),
            method,
            retry,
            prefix@,
            texts.deep_view().skip(from as int),
        ),
    decreases texts@.len() - from,
{
    let ghost rest = texts.deep_view().skip(from as int);
    if from == texts.len() {
        return Ok(());
    }
    assert(rest[0] == texts@[from as int]@);
    assert(rest.drop_first() =~= texts.deep_view().skip(from + 1));
    let path = cat2(prefix, texts[from].as_str());
    let call = if retry {
        request_retried(method, path, no_params())
    } else {
        request(method, path, no_params())
    };
    let _ = s.call(call)?;
    delete_each(s, method, retry, prefix, texts, from + 1)
}

/// Each user is resolved and posted as a target; gives the names that the responses show.
pub open spec fn each_targeted(
    t: Talk,
    path: Seq<char>,
    users: Seq<Seq<char>>,
    by_id: bool,
    names: Seq<Seq<char>>,
) -> Step<Seq<Seq<char>>>
    decreases users.len(),
{
    if users.len() == 0 {
        done(t, names)
    } else {
        bind(
            user_id_resolved(t, users[0], by_id),
            |t: Talk, id: Seq<char>|
                bind(
                    call(t, with_body(Method::PostBody, path, text_body("target_user_id"@, id))),
                    |t: Talk, d: Data|
                        each_targeted(
                            t,
                            path,
                            users.drop_first(),
                            by_id,
                            names.push(shown_user(d, users[0])),
                        ),
                ),
        )
    }
}

fn target_each(
    s: &mut Session,
    path: &str,
    users: &Vec<String>,
    by_id: bool,
    names: Vec<String>,
    from: usize,
) -> (r: Result<Vec<String>, Stop>)
    requires
        from <= users@.len(),
    ensures
        (final(s).talk(), both(r)) == each_targeted(
            old(s).talk(),
            path@,
            users.deep_view().skip(from as int),
            by_id,
            names.deep_view(),
        ),
    decreases users@.len() - from,
{
    let ghost rest = users.deep_view().skip(from as int);
    if from == users.len() {
        return Ok(names);
    }
    assert(rest[0] == users@[from as int]@);
    assert(rest.drop_first() =~= users.deep_view().skip(from + 1));
    let id = resolve_user_id(s, users[from].as_str(), by_id)?;
    let response = s.call(
        request_body(
            Method::PostBody,
            path.to_owned(),
            make_text_body("target_user_id", id.as_str()),
        ),
    )?;
    let mut names = names;
    extend_by(&mut names, display_user_from_response(&response, users[from].as_str()));
    target_each(s, path, users, by_id, names, from + 1)
}

/// Each user is resolved and deleted from under the prefix.
pub open spec fn each_untargeted(
    t: Talk,
    prefix: Seq<char>,
    users: Seq<Seq<char>>,
    by_id: bool,
) -> Step<()>
    decreases users.len(),
{
    if users.len() == 0 {
        done(t, ())
    } else {
        bind(
            user_id_resolved(t, users[0], by_id),
            |t: Talk, id: Seq<char>|
                bind(
                    call(t, plain(Method::Delete, prefix + id, Seq::empty())),
                    |t: Talk, d: Data| each_untargeted(t, prefix, users.drop_first(), by_id),
                ),
        )
    }
}

pub fn untarget_each(
    s: &mut Session,
    prefix: &str,
    users: &Vec<String>,
    by_id: bool,
    from: usize,
) -> (r: Result<(), Stop>)
    requires
        from <= users@.len(),
    ensures
        (final(s).talk(), unit(r)) == each_untargeted(
            old(s).talk(),
            prefix@,
            users.deep_view().skip(from as int),
            by_id,
        ),
    decreases users@.len() - from,
{
    let ghost rest = users.deep_view().skip(from as int);
    if from == users.len() {
        return Ok(());
    }
    assert(rest[0] == users@[from as int]@);
    assert(rest.drop_first() =~= users.deep_view().skip(from + 1));
    let id = resolve_user_id(s, users[from].as_str(), by_id)?;
    let _ = s.call(request(Method::Delete, cat2(prefix, id.as_str()), no_params()))?;
    untarget_each(s, prefix, users, by_id, from + 1)
}

// ---------------------------------------------------------------------------
// Bookmarks, likes and retweets
// ---------------------------------------------------------------------------

pub open spec fn bookmark(t: Talk, call: InvocationData, who: Seq<char>) -> Step<i32> {
    bind(
        need_args(t, call.path, call.args, 1),
        |t: Talk, u: ()|
            bind(
                bookmark_owner(t),
                |t: Talk, me: Seq<char>|
                    bind(
                        each_posted(
                            t,
                            Method::PostBodyOauth2User,
                            true,
                            "/2/users/"@ + me + "/bookmarks"@,
                            "tweet_id"@,
                            ids_of(call.args),
                        ),
                        |t: Talk, u: ()|
                            done(
                                say(
                                    t,
                                    told(
                                        who,
                                        " bookmarked "@,
                                        counted(call.args.len(), "post"@, None),
                                    ),
                                ),
                                0i32,
                            ),
                    ),
            ),
    )
}

pub fn run_bookmark(s: &mut Session, call: &Invocation, who: &str) -> (r: Result<i32, Stop>)
    ensures
        (final(s).talk(), both(r)) == bookmark(old(s).talk(), call@, who@),
{
    ensure_min_args(&call.path, &call.args, 1)?;
    let me = authenticated_user_id_for_bookmarks(s)?;
    let ids = resolve_id_list(&call.args);
    assert(ids.deep_view() =~= ids_of(call@.args));
    assert(ids.deep_view().skip(0) =~= ids.deep_view());
    assert(ids.deep_view().len() == ids@.len());
    post_each(
        s,
        Method::PostBodyOauth2User,
        true,
        cat3("/2/users/", me.as_str(), "/bookmarks").as_str(),
        "tweet_id",
        &ids,
        0,
    )?;
    s.say(tell(who, " bookmarked ", pluralize(ids.len(), "post", None).as_str()));
    Ok(0)
}

pub open spec fn unbookmark(t: Talk, call: InvocationData, who: Seq<char>) -> Step<i32> {
    bind(
        need_args(t, call.path, call.args, 1),
        |t: Talk, u: ()|
            bind(
                bookmark_owner(t),
                |t: Talk, me: Seq<char>|
                    bind(
                        each_deleted(
                            t,
                            Method::DeleteOauth2User,
                            true,
                            "/2/users/"@ + me + "/bookmarks/"@,
                            ids_of(call.args),
                        ),
                        |t: Talk, u: ()|
                            done(
                                say(
                                    t,
                                    told(
                                        who,
                                        " removed "@,
                                        counted(call.args.len(), "bookmark"@, None),
                                    ),
                                ),
                                0i32,
                            ),
                    ),
            ),
    )
}

pub fn run_unbookmark(s: &mut Session, call: &Invocation, who: &str) -> (r: Result<i32, Stop>)
    ensures
        (final(s).talk(), both(r)) == unbookmark(old(s).talk(), call@, who@),
{
    ensure_min_args(&call.path, &call.args, 1)?;
    let me = authenticated_user_id_for_bookmarks(s)?;
    let ids = resolve_id_list(&call.args);
    assert(ids.deep_view() =~= ids_of(call@.args));
    assert(ids.deep_view().skip(0) =~= ids.deep_view());
    assert(ids.deep_view().len() == ids@.len());
    delete_each(
        s,
        Method::DeleteOauth2User,
        true,
        cat3("/2/users/", me.as_str(), "/bookmarks/").as_str(),
        &ids,
        0,
    )?;
    s.say(tell(who, " removed ", pluralize(ids.len(), "bookmark", None).as_str()));
    Ok(0)
}

/// Posts each tweet to a collection of the account, and says what was done.
pub open spec fn tweets_posted(
    t: Talk,
    call: InvocationData,
    who: Seq<char>,
    tail: Seq<char>,
    verb: Seq<char>,
) -> Step<i32> {
    bind(
        need_args(t, call.path, call.args, 1),
        |t: Talk, u: ()|
            bind(
                current_user_id(t, false),
                |t: Talk, me: Seq<char>|
                    bind(
                        each_posted(
                            t,
                            Method::PostBody,
                            false,
                            "/2/users/"@ + me + tail,
                            "tweet_id"@,
                            ids_of(call.args),
                        ),
                        |t: Talk, u: ()|
                            done(
                                say(t, told(who, verb, counted(call.args.len(), "tweet"@, None))),
                                0i32,
                            ),
                    ),
            ),
    )
}

fn post_tweets(s: &mut Session, call: &Invocation, who: &str, tail: &str, verb: &str) -> (r: Result<
    i32,
    Stop,
>)
    ensures
        (final(s).talk(), both(r)) == tweets_posted(old(s).talk(), call@, who@, tail@, verb@),
{
    ensure_min_args(&call.path, &call.args, 1)?;
    let ids = resolve_id_list(&call.args);
    assert(ids.deep_view() =~= ids_of(call@.args));
    assert(ids.deep_view().skip(0) =~= ids.deep_view());
    assert(ids.deep_view().len() == ids@.len());
    let me = authenticated_user_id(s)?;
    post_each(
        s,
        Method::PostBody,
        false,
        cat3("/2/users/", me.as_str(), tail).as_str(),
        "tweet_id",
        &ids,
        0,
    )?;
    s.say(tell(who, verb, pluralize(ids.len(), "tweet", None).as_str()));
    Ok(0)
}

pub fn run_favorite(s: &mut Session, call: &Invocation, who: &str) -> (r: Result<i32, Stop>)
    ensures
        (final(s).talk(), both(r)) == tweets_posted(
            old(s).talk(),
            call@,
            who@,
            "/likes"@,
            " favorited "@,
        ),
{
    post_tweets(s, call, who, "/likes", " favorited ")
}

pub fn run_retweet(s: &mut Session, call: &Invocation, who: &str) -> (r: Result<i32, Stop>)
    ensures
        (final(s).talk(), both(r)) == tweets_posted(
            old(s).talk(),
            call@,
            who@,
            "/retweets"@,
            " retweeted "@,
        ),
{
    post_tweets(s, call, who, "/retweets", " retweeted ")
}

pub open spec fn delete_favorite(t: Talk, call: InvocationData) -> Step<i32> {
    bind(
        need_args(t, call.path, call.args, 1),
        |t: Talk, u: ()|
            bind(
                current_user_id(t, false),
                |t: Talk, me: Seq<char>|
                    bind(
                        each_deleted(
                            t,
                            Method::Delete,
                            false,
                            "/2/users/"@ + me + "/likes/"@,
                            ids_of(call.args),
                        ),
                        |t: Talk, u: ()| done(t, 0i32),
                    ),
            ),
    )
}

pub fn run_delete_favorite(s: &mut Session, call: &Invocation) -> (r: Result<i32, Stop>)
    ensures
        (final(s).talk(), both(r)) == delete_favorite(old(s).talk(), call@),
{
    ensure_min_args(&call.path, &call.args, 1)?;
    let me = authenticated_user_id(s)?;
    let ids = resolve_id_list(&call.args);
    assert(ids.deep_view() =~= ids_of(call@.args));
    assert(ids.deep_view().skip(0) =~= ids.deep_view());
    delete_each(
        s,
        Method::Delete,
        false,
        cat3("/2/users/", me.as_str(), "/likes/").as_str(),
        &ids,
        0,
    )?;
    Ok(0)
}

pub open spec fn delete_dm(t: Talk, call: InvocationData) -> Step<i32> {
    bind(
        need_args(t, call.path, call.args, 1),
        |t: Talk, u: ()|
            bind(
                each_deleted(t, Method::Delete, false, "/2/dm_events/"@, ids_of(call.args)),
                |t: Talk, u: ()| done(t, 0i32),
            ),
    )
}

pub fn run_delete_dm(s: &mut Session, call: &Invocation) -> (r: Result<i32, Stop>)
    ensures
        (final(s).talk(), both(r)) == delete_dm(old(s).talk(), call@),
{
    ensure_min_args(&call.path, &call.args, 1)?;
    let ids = resolve_id_list(&call.args);
    assert(ids.deep_view() =~= ids_of(call@.args));
    assert(ids.deep_view().skip(0) =~= ids.deep_view());
    delete_each(s, Method::Delete, false, "/2/dm_events/", &ids, 0)?;
    Ok(0)
}

// ---------------------------------------------------------------------------
// Users
// ---------------------------------------------------------------------------

/// Each user becomes a target of the account; gives their names.
pub open spec fn users_targeted(t: Talk, call: InvocationData, tail: Seq<char>) -> Step<
    Seq<Seq<char>>,
> {
    bind(
        need_args(t, call.path, call.args, 1),
        |t: Talk, u: ()|
            bind(
                current_user_id(t, false),
                |t: Talk, me: Seq<char>|
                    each_targeted(
                        t,
                        "/2/users/"@ + me + tail,
                        users_of(call.args, call.by_id()),
                        call.by_id(),
                        Seq::empty(),
                    ),
            ),
    )
}

fn target_users(s: &mut Session, call: &Invocation, tail: &str) -> (r: Result<Vec<String>, Stop>)
    ensures
        (final(s).talk(), both(r)) == users_targeted(old(s).talk(), call@, tail@),
{
    ensure_min_args(&call.path, &call.args, 1)?;
    let by_id = opt_bool(&call.options, "id");
    let users = resolve_user_list(&call.args, by_id);
    assert(users.deep_view() =~= users_of(call@.args, by_id));
    assert(users.deep_view().skip(0) =~= users.deep_view());
    let me = authenticated_user_id(s)?;
    let names: Vec<String> = Vec::new();
    assert(names.deep_view() =~= Seq::empty());
    target_each(s, cat3("/2/users/", me.as_str(), tail).as_str(), &users, by_id, names, 0)
}

pub open spec fn with_at(name: Seq<char>) -> Seq<char> {
    "@"@ + name
}

/// The names, each with an `@` before it, with spaces between them.
pub open spec fn names_with_at(names: Seq<Seq<char>>) -> Seq<char> {
    joined(names.map_values(|n: Seq<char>| with_at(n)), " "@)
}

fn join_with_at(names: &Vec<String>) -> (r: String)
    ensures
        r@ == names_with_at(names.deep_view()),
{
    let f = |n: &String| -> (r: String)
        ensures
            r@ == with_at(n@),
    {
        cat2("@", n.as_str())
    };
    join(&map_list(names, f, Ghost(|n: Seq<char>| with_at(n))), " ")
}

pub open spec fn block(t: Talk, call: InvocationData, who: Seq<char>) -> Step<i32> {
    bind(
        users_targeted(t, call, "/blocking"@),
        |t: Talk, names: Seq<Seq<char>>|
            {
                let t1 = say(t, told(who, " blocked "@, counted(names.len(), "user"@, None)));
                if names.len() > 0 {
                    done(
                        say(
                            say(t1, Seq::empty()),
                            "Run `x delete block "@ + names_with_at(names) + "` to unblock."@,
                        ),
                        0i32,
                    )
                } else {
                    done(t1, 0i32)
                }
            },
    )
}

pub fn run_block(s: &mut Session, call: &Invocation, who: &str) -> (r: Result<i32, Stop>)
    ensures
        (final(s).talk(), both(r)) == block(old(s).talk(), call@, who@),
{
    let names = target_users(s, call, "/blocking")?;
    assert(names.deep_view().len() == names@.len());
    s.say(tell(who, " blocked ", pluralize(names.len(), "user", None).as_str()));
    if names.len() > 0 {
        s.say(String::new());
        s.say(cat3("Run `x delete block ", join_with_at(&names).as_str(), "` to unblock."));
    }
    Ok(0)
}

pub open spec fn mute(t: Talk, call: InvocationData, who: Seq<char>) -> Step<i32> {
    bind(
        users_targeted(t, call, "/muting"@),
        |t: Talk, names: Seq<Seq<char>>|
            done(say(t, told(who, " muted "@, counted(names.len(), "user"@, None))), 0i32),
    )
}

pub fn run_mute(s: &mut Session, call: &Invocation, who: &str) -> (r: Result<i32, Stop>)
    ensures
        (final(s).talk(), both(r)) == mute(old(s).talk(), call@, who@),
{
    let names = target_users(s, call, "/muting")?;
    assert(names.deep_view().len() == names@.len());
    s.say(tell(who, " muted ", pluralize(names.len(), "user", None).as_str()));
    Ok(0)
}

pub open spec fn follow(t: Talk, call: InvocationData, who: Seq<char>) -> Step<i32> {
    bind(
        users_targeted(t, call, "/following"@),
        |t: Talk, names: Seq<Seq<char>>|
            done(
                say(
                    t,
                    told(
                        who,
                        " is now following "@,
                        counted(names.len(), "more user"@, Some("more users"@)),
                    ),
                ),
                0i32,
            ),
    )
}

pub fn run_follow(s: &mut Session, call: &Invocation, who: &str) -> (r: Result<i32, Stop>)
    ensures
        (final(s).talk(), both(r)) == follow(old(s).talk(), call@, who@),
{
    let names = target_users(s, call, "/following")?;
    assert(names.deep_view().len() == names@.len());
    let count = pluralize(names.len(), "more user", Some("more users"));
    s.say(tell(who, " is now following ", count.as_str()));
    Ok(0)
}

/// Each user is no longer a target of the account.
pub open spec fn users_untargeted(
    t: Talk,
    call: InvocationData,
    who: Seq<char>,
    tail: Seq<char>,
    verb: Seq<char>,
) -> Step<i32> {
    bind(
        need_args(t, call.path, call.args, 1),
        |t: Talk, u: ()|
            bind(
                current_user_id(t, false),
                |t: Talk, me: Seq<char>|
                    bind(
                        each_untargeted(
                            t,
                            "/2/users/"@ + me + tail,
                            users_of(call.args, call.by_id()),
                            call.by_id(),
                        ),
                        |t: Talk, u: ()|
                            done(
                                say(t, told(who, verb, counted(call.args.len(), "user"@, None))),
                                0i32,
                            ),
                    ),
            ),
    )
}

fn untarget_users(s: &mut Session, call: &Invocation, who: &str, tail: &str, verb: &str) -> (r:
    Result<i32, Stop>)
    ensures
        (final(s).talk(), both(r)) == users_untargeted(old(s).talk(), call@, who@, tail@, verb@),
{
    ensure_min_args(&call.path, &call.args, 1)?;
    let by_id = opt_bool(&call.options, "id");
    let me = authenticated_user_id(s)?;
    let users = resolve_user_list(&call.args, by_id);
    assert(users.deep_view() =~= users_of(call@.args, by_id));
    assert(users.deep_view().skip(0) =~= users.deep_view());
    untarget_each(s, cat3("/2/users/", me.as_str(), tail).as_str(), &users, by_id, 0)?;
    assert(call@.args.len() == call.args@.len());
    s.say(tell(who, verb, pluralize(call.args.len(), "user", None).as_str()));
    Ok(0)
}

pub fn run_unfollow(s: &mut Session, call: &Invocation, who: &str) -> (r: Result<i32, Stop>)
    ensures
        (final(s).talk(), both(r)) == users_untargeted(
            old(s).talk(),
            call@,
            who@,
            "/following/"@,
            " is no longer following "@,
        ),
{
    untarget_users(s, call, who, "/following/", " is no longer following ")
}

pub fn run_delete_block(s: &mut Session, call: &Invocation, who: &str) -> (r: Result<i32, Stop>)
    ensures
        (final(s).talk(), both(r)) == users_untargeted(
            old(s).talk(),
            call@,
            who@,
            "/blocking/"@,
            " unblocked "@,
        ),
{
    untarget_users(s, call, who, "/blocking/", " unblocked ")
}

pub fn run_delete_mute(s: &mut Session, call: &Invocation, who: &str) -> (r: Result<i32, Stop>)
    ensures
        (final(s).talk(), both(r)) == users_untargeted(
            old(s).talk(),
            call@,
            who@,
            "/muting/"@,
            " unmuted "@,
        ),
{
    untarget_users(s, call, who, "/muting/", " unmuted ")
}

pub open spec fn each_reported(t: Talk, users: Seq<Seq<char>>, by_id: bool) -> Step<()>
    decreases users.len(),
{
    if users.len() == 0 {
        done(t, ())
    } else {
        bind(
            call(
                t,
                plain(
                    Method::Post,
                    "/1.1/users/report_spam.json"@,
                    seq![user_param(by_id, users[0])],
                ),
            ),
            |t: Talk, d: Data| each_reported(t, users.drop_first(), by_id),
        )
    }
}

fn report_each(s: &mut Session, users: &Vec<String>, by_id: bool, from: usize) -> (r: Result<
    (),
    Stop,
>)
    requires
        from <= users@.len(),
    ensures
        (final(s).talk(), unit(r)) == each_reported(
            old(s).talk(),
            users.deep_view().skip(from as int),
            by_id,
        ),
    decreases users@.len() - from,
{
    let ghost rest = users.deep_view().skip(from as int);
    if from == users.len() {
        return Ok(());
    }
    assert(rest[0] == users@[from as int]@);
    assert(rest.drop_first() =~= users.deep_view().skip(from + 1));
    let params: Vec<(String, String)> = vec![user_query_param(by_id, users[from].as_str())];
    assert(params.deep_view() =~= seq![user_param(by_id, rest[0])]);
    let _ = s.call(request(Method::Post, "/1.1/users/report_spam.json".to_owned(), params))?;
    report_each(s, users, by_id, from + 1)
}

pub open spec fn report_spam(t: Talk, call: InvocationData, who: Seq<char>) -> Step<i32> {
    bind(
        need_args(t, call.path, call.args, 1),
        |t: Talk, u: ()|
            bind(
                each_reported(t, users_of(call.args, call.by_id()), call.by_id()),
                |t: Talk, u: ()|
                    done(
                        say(
                            t,
                            told(who, " reported "@, counted(call.args.len(), "user"@, None)),
                        ),
                        0i32,
                    ),
            ),
    )
}

pub fn run_report_spam(s: &mut Session, call: &Invocation, who: &str) -> (r: Result<i32, Stop>)
    ensures
        (final(s).talk(), both(r)) == report_spam(old(s).talk(), call@, who@),
{
    ensure_min_args(&call.path, &call.args, 1)?;
    let by_id = opt_bool(&call.options, "id");
    let users = resolve_user_list(&call.args, by_id);
    assert(users.deep_view() =~= users_of(call@.args, by_id));
    assert(users.deep_view().skip(0) =~= users.deep_view());
    assert(users.deep_view().len() == users@.len());
    report_each(s, &users, by_id, 0)?;
    s.say(tell(who, " reported ", pluralize(users.len(), "user", None).as_str()));
    Ok(0)
}

// ---------------------------------------------------------------------------
// Files
// ---------------------------------------------------------------------------

/// A path with `~/` replaced by the home directory, where that is known.
pub open spec fn expanded_path(path: Seq<char>, home: Option<Seq<char>>) -> Seq<char> {
    match home {
        Some(h) => if begins_with(path, "~/"@) {
            joined_path(h, path.skip("~/"@.len() as int))
        } else {
            path
        },
        None => path,
    }
}

/// A path within a directory; an absolute path stands for itself.
pub open spec fn joined_path(dir: Seq<char>, path: Seq<char>) -> Seq<char> {
    if begins_with(path, "/"@) {
        path
    } else if dir.len() > 0 && dir.last() != '/' {
        dir + "/"@ + path
    } else {
        dir + path
    }
}

pub fn expand_path(path: &str, home: Option<&String>) -> (r: String)
    ensures
        r@ == expanded_path(path@, home.deep_view()),
{
    match home {
        Some(dir) => match strip_prefix(path, "~/") {
            Some(suffix) => {
                if starts_with(suffix.as_str(), "/") {
                    return suffix;
                }
                let chars = chars_of(dir.as_str());
                if chars.len() > 0 && chars[chars.len() - 1] != '/' {
                    cat3(dir.as_str(), "/", suffix.as_str())
                } else {
                    cat2(dir.as_str(), suffix.as_str())
                }
            },
            None => path.to_owned(),
        },
        None => path.to_owned(),
    }
}

/// The bytes of a file in Base64.
pub open spec fn file_encoded(t: Talk, path: Seq<char>) -> Step<Seq<char>> {
    bind(
        home_for(t, path),
        |t: Talk, home: Option<Seq<char>>|
            bind(
                ask_file(t, expanded_path(path, home)),
                |t: Talk, bytes: Seq<u8>| done(t, base64_of(bytes)),
            ),
    )
}

/// The home directory, where the path needs it.
pub open spec fn home_for(t: Talk, path: Seq<char>) -> Step<Option<Seq<char>>> {
    if begins_with(path, "~/"@) {
        ask_text(t, AskData::Env("HOME"@))
    } else {
        done(t, None)
    }
}

pub fn load_file_as_base64(s: &mut Session, path: &str) -> (r: Result<String, Stop>)
    ensures
        (final(s).talk(), both(r)) == file_encoded(old(s).talk(), path@),
{
    let home = if starts_with(path, "~/") {
        s.text(Ask::Env("HOME".to_owned()))?
    } else {
        None
    };
    let bytes = s.file(expand_path(path, home.as_ref()))?;
    Ok(encode_base64(&bytes))
}

/// The identifier that an upload gives.
pub open spec fn media_id_in(response: Data) -> Seq<char> {
    match response.text_at("media_id_string"@) {
        Some(id) => id,
        None => crate::json::words_in(response.get("media_id"@)),
    }
}

/// Uploads a file and gives its identifier.
pub open spec fn media_uploaded(t: Talk, path: Seq<char>) -> Step<Seq<char>> {
    bind(
        file_encoded(t, path),
        |t: Talk, data: Seq<char>|
            bind(
                call(
                    t,
                    retried(Method::Post, "/1.1/media/upload.json"@, seq![("media_data"@, data)]),
                ),
                |t: Talk, d: Data|
                    if media_id_in(d).len() == 0 {
                        fail(t, ErrorData::Io("Media upload did not return a media_id"@))
                    } else {
                        done(t, media_id_in(d))
                    },
            ),
    )
}

pub fn upload_media(s: &mut Session, path: &str) -> (r: Result<String, Stop>)
    ensures
        (final(s).talk(), both(r)) == media_uploaded(old(s).talk(), path@),
{
    let data = load_file_as_base64(s, path)?;
    let response = s.call(
        request_retried(
            Method::Post,
            "/1.1/media/upload.json".to_owned(),
            one_param("media_data", data.as_str()),
        ),
    )?;
    let id = match response.get_str("media_id_string") {
        Some(id) => id.clone(),
        None => words_in_value(response.get("media_id")),
    };
    if id.as_str().is_empty() {
        return Err(
            Stop::Fail(CommandError::Io("Media upload did not return a media_id".to_owned())),
        );
    }
    Ok(id)
}

/// What a post carries of an uploaded file.
pub open spec fn media_entry(id: Option<Seq<char>>) -> Seq<(Seq<char>, Data)> {
    match id {
        Some(i) => seq![
            ("media"@, Data::Object(seq![("media_ids"@, Data::Array(seq![Data::Text(i)]))])),
        ],
        None => Seq::empty(),
    }
}

fn put_media(body: &mut Vec<(String, Json)>, id: Option<String>)
    ensures
        final(body).deep_view() == old(body).deep_view() + media_entry(id.deep_view()),
{
    let ghost before = body.deep_view();
    match id {
        Some(i) => {
            let ids: Vec<Json> = vec![Json::Text(i)];
            assert(ids.deep_view() =~= seq![Data::Text(i@)]);
            put(body, "media", one_entry("media_ids", array_json(ids)));
        },
        None => {},
    }
    assert(body.deep_view() =~= before + media_entry(id.deep_view()));
}

// ---------------------------------------------------------------------------
// Posts
// ---------------------------------------------------------------------------

/// The identifier of a new tweet.
pub open spec fn new_id(response: Data) -> Seq<char> {
    match response.id() {
        Some(id) => id,
        None => match response.get("data"@) {
            Some(d) => or_empty(d.id()),
            None => Seq::empty(),
        },
    }
}

fn find_new_id(response: &Json) -> (r: String)
    ensures
        r@ == new_id(response@),
{
    match value_id(response) {
        Some(id) => id,
        None => match response.get("data") {
            Some(d) => match value_id(d) {
                Some(id) => id,
                None => String::new(),
            },
            None => String::new(),
        },
    }
}

/// What was posted, and how to take it back.
pub open spec fn posted_said(t: Talk, line: Seq<char>, id: Seq<char>) -> Talk {
    if id.len() > 0 {
        say(
            say(say(t, line), Seq::empty()),
            "Run `x delete status "@ + id + "` to delete."@,
        )
    } else {
        say(t, line)
    }
}

fn say_posted(s: &mut Session, line: String, id: &str)
    ensures
        final(s).talk() == posted_said(old(s).talk(), line@, id@),
{
    s.say(line);
    if !id.is_empty() {
        s.say(String::new());
        s.say(cat3("Run `x delete status ", id, "` to delete."));
    }
}

/// The uploaded file of a post, where one is given.
pub open spec fn file_uploaded(t: Talk, file: Option<Seq<char>>) -> Step<Option<Seq<char>>> {
    match file {
        Some(path) => bind(
            media_uploaded(t, path),
            |t: Talk, id: Seq<char>| done(t, Some(id)),
        ),
        None => done(t, None),
    }
}

fn upload_file(s: &mut Session, file: Option<&String>) -> (r: Result<Option<String>, Stop>)
    ensures
        (final(s).talk(), both(r)) == file_uploaded(old(s).talk(), file.deep_view()),
{
    match file {
        Some(path) => {
            let id = upload_media(s, path.as_str())?;
            Ok(Some(id))
        },
        None => Ok(None),
    }
}

pub open spec fn update(t: Talk, call: InvocationData, who: Seq<char>) -> Step<i32> {
    bind(
        file_uploaded(t, call.options.text("file"@)),
        |t: Talk, media: Option<Seq<char>>|
            bind(
                if media is None {
                    need_args(t, call.path, call.args, 1)
                } else {
                    done(t, ())
                },
                |t: Talk, u: ()|
                    bind(
                        crate::session::call(
                            t,
                            with_body(
                                Method::PostBody,
                                "/2/tweets"@,
                                Data::Object(
                                    seq![("text"@, Data::Text(joined(call.args, " "@)))]
                                        + media_entry(media),
                                ),
                            ),
                        ),
                        |t: Talk, d: Data|
                            done(
                                posted_said(t, "Tweet posted by @"@ + who + "."@, new_id(d)),
                                0i32,
                            ),
                    ),
            ),
    )
}

pub fn run_update(s: &mut Session, call: &Invocation, who: &str) -> (r: Result<i32, Stop>)
    ensures
        (final(s).talk(), both(r)) == update(old(s).talk(), call@, who@),
{
    let media = upload_file(s, opt_string(&call.options, "file"))?;
    if media.is_none() {
        ensure_min_args(&call.path, &call.args, 1)?;
    }
    let mut body: Vec<(String, Json)> = Vec::new();
    let message = join(&call.args, " ");
    put(&mut body, "text", Json::Text(message));
    assert(body.deep_view() =~= seq![("text"@, Data::Text(message@))]);
    put_media(&mut body, media);
    let response = s.call(
        request_body(Method::PostBody, "/2/tweets".to_owned(), object_json(body)),
    )?;
    let id = find_new_id(&response);
    say_posted(s, cat3("Tweet posted by @", who, "."), id.as_str());
    Ok(0)
}

/// A tweet by identifier; the response itself where it holds none.
pub open spec fn tweet_fetched(t: Talk, id: Seq<char>) -> Step<Data> {
    bind(
        call(t, plain(Method::GetOauth2, "/2/tweets/"@ + id, tweet_params())),
        |t: Talk, d: Data| done(t, first_or(tweets_in(d), d)),
    )
}

pub fn fetch_tweet(s: &mut Session, id: &str) -> (r: Result<Json, Stop>)
    ensures
        (final(s).talk(), both(r)) == tweet_fetched(old(s).talk(), id@),
{
    let response = s.call(request(Method::GetOauth2, cat2("/2/tweets/", id), v2_tweet_params()))?;
    Ok(take_first_or(extract_tweets(&response), response))
}

pub open spec fn tweet_author(status: Data) -> Option<Seq<char>> {
    text_in(get_in(status.get("user"@), "screen_name"@))
}

/// A user other than the account itself.
pub open spec fn someone_else(user: Seq<char>, who: Seq<char>) -> Option<Seq<char>> {
    if lowered(user) == lowered(who) {
        None
    } else {
        Some(user)
    }
}

/// The users that a reply is addressed to: the author and, if so wished, all that the tweet
/// mentions, in order and each once; never the account itself.
pub open spec fn addressees(status: Data, all: bool, who: Seq<char>) -> Seq<Seq<char>> {
    let author = seq![or_empty(tweet_author(status))];
    let users = if all {
        set_of(author + mentions_in(text_of(status, false)))
    } else {
        author
    };
    collected(users, |u: Seq<char>| someone_else(u, who))
}

fn find_addressees(status: &Json, all: bool, who: &str) -> (r: Vec<String>)
    ensures
        r.deep_view() == addressees(status@, all, who@),
{
    let author = text_or_empty(str_from(get_from(status.get("user"), "screen_name")));
    let mut users: Vec<String> = vec![author];
    assert(users.deep_view() =~= seq![or_empty(tweet_author(status@))]);
    if all {
        move_in(&mut users, extract_mentions(tweet_text(status, false).as_str()));
        users = ordered_set(&users);
    }
    let keep = |u: &String| -> (r: Option<String>)
        ensures
            r.deep_view() == someone_else(u@, who@),
    {
        if eq_ignore_ascii_case(u.as_str(), who) {
            None
        } else {
            Some(u.clone())
        }
    };
    collect_list(&users, keep, Ghost(|u: Seq<char>| someone_else(u, who@)))
}

pub open spec fn addressed(user: Seq<char>) -> Seq<char> {
    "@"@ + bare_name(user)
}

pub open spec fn reply_prefix(users: Seq<Seq<char>>) -> Seq<char> {
    joined(users.map_values(|u: Seq<char>| addressed(u)), " "@)
}

fn make_reply_prefix(users: &Vec<String>) -> (r: String)
    ensures
        r@ == reply_prefix(users.deep_view()),
{
    let f = |u: &String| -> (r: String)
        ensures
            r@ == addressed(u@),
    {
        cat2("@", strip_at(u.as_str()).as_str())
    };
    join(&map_list(users, f, Ghost(|u: Seq<char>| addressed(u))), " ")
}

pub open spec fn reply_body(id: Seq<char>, text: Seq<char>, media: Option<Seq<char>>) -> Data {
    Data::Object(
        seq![
            ("text"@, Data::Text(text)),
            ("reply"@, text_body("in_reply_to_tweet_id"@, id)),
        ] + media_entry(media),
    )
}

pub open spec fn reply(t: Talk, call: InvocationData, who: Seq<char>) -> Step<i32> {
    bind(
        need_args(t, call.path, call.args, 1),
        |t: Talk, u: ()|
            bind(
                tweet_fetched(t, call.args[0]),
                |t: Talk, status: Data|
                    {
                        let prefix = reply_prefix(
                            addressees(status, call.options.flag("all"@), who),
                        );
                        let text = trimmed(prefix + " "@ + joined(call.args.skip(1), " "@));
                        bind(
                            file_uploaded(t, call.options.text("file"@)),
                            |t: Talk, media: Option<Seq<char>>|
                                bind(
                                    crate::session::call(
                                        t,
                                        with_body(
                                            Method::PostBody,
                                            "/2/tweets"@,
                                            reply_body(call.args[0], text, media),
                                        ),
                                    ),
                                    |t: Talk, d: Data|
                                        done(
                                            posted_said(
                                                t,
                                                "Reply posted by @"@ + who + " to "@ + prefix
                                                    + "."@,
                                                new_id(d),
                                            ),
                                            0i32,
                                        ),
                                ),
                        )
                    },
            ),
    )
}

pub fn run_reply(s: &mut Session, call: &Invocation, who: &str) -> (r: Result<i32, Stop>)
    ensures
        (final(s).talk(), both(r)) == reply(old(s).talk(), call@, who@),
{
    ensure_min_args(&call.path, &call.args, 1)?;
    assert(call@.args[0] == call.args@[0]@);
    let status_id = call.args[0].clone();
    let status = fetch_tweet(s, status_id.as_str())?;
    let users = find_addressees(&status, opt_bool(&call.options, "all"), who);
    let prefix = make_reply_prefix(&users);
    let message = join(&args_behind(&call.args, 1), " ");
    let text = trim(prefix.clone().concat(" ").concat(message.as_str()).as_str());
    let media = upload_file(s, opt_string(&call.options, "file"))?;
    let mut body: Vec<(String, Json)> = Vec::new();
    put(&mut body, "text", Json::Text(text));
    put(&mut body, "reply", make_text_body("in_reply_to_tweet_id", status_id.as_str()));
    assert(body.deep_view() =~= seq![
        ("text"@, Data::Text(text@)),
        ("reply"@, text_body("in_reply_to_tweet_id"@, status_id@)),
    ]);
    put_media(&mut body, media);
    let response = s.call(
        request_body(Method::PostBody, "/2/tweets".to_owned(), object_json(body)),
    )?;
    let id = find_new_id(&response);
    let line = cat2("Reply posted by @", who).concat(" to ").concat(prefix.as_str()).concat(".");
    say_posted(s, line, id.as_str());
    Ok(0)
}

pub open spec fn dm_target(t: Talk, call: InvocationData) -> Step<Seq<char>> {
    if call.by_id() {
        done(t, call.args[0])
    } else {
        bind(
            user_fetched(t, call.args[0], false),
            |t: Talk, user: Data|
                done(
                    t,
                    match user.id() {
                        Some(id) => id,
                        None => call.args[0],
                    },
                ),
        )
    }
}

pub open spec fn dm(t: Talk, call: InvocationData, who: Seq<char>) -> Step<i32> {
    bind(
        need_args(t, call.path, call.args, 2),
        |t: Talk, u: ()|
            bind(
                dm_target(t, call),
                |t: Talk, target: Seq<char>|
                    bind(
                        crate::session::call(
                            t,
                            with_body(
                                Method::PostBody,
                                "/2/dm_conversations/with/"@ + target + "/messages"@,
                                text_body("text"@, joined(call.args.skip(1), " "@)),
                            ),
                        ),
                        |t: Talk, d: Data|
                            done(
                                say(
                                    t,
                                    "Direct Message sent from @"@ + who + " to @"@ + bare_name(
                                        call.args[0],
                                    ) + "."@,
                                ),
                                0i32,
                            ),
                    ),
            ),
    )
}

pub fn run_dm(s: &mut Session, call: &Invocation, who: &str) -> (r: Result<i32, Stop>)
    ensures
        (final(s).talk(), both(r)) == dm(old(s).talk(), call@, who@),
{
    ensure_min_args(&call.path, &call.args, 2)?;
    assert(call@.args[0] == call.args@[0]@);
    let target = if opt_bool(&call.options, "id") {
        call.args[0].clone()
    } else {
        let user = fetch_user(s, call.args[0].as_str(), false)?;
        match value_id(&user) {
            Some(id) => id,
            None => call.args[0].clone(),
        }
    };
    let message = join(&args_behind(&call.args, 1), " ");
    let _ = s.call(
        request_body(
            Method::PostBody,
            cat3("/2/dm_conversations/with/", target.as_str(), "/messages"),
            make_text_body("text", message.as_str()),
        ),
    )?;
    let line = cat2("Direct Message sent from @", who).concat(" to @").concat(
        strip_at(call.args[0].as_str()).as_str(),
    ).concat(".");
    s.say(line);
    Ok(0)
}

// ---------------------------------------------------------------------------
// Deleting tweets
// ---------------------------------------------------------------------------

/// A line of the user without the line break at its end.
pub open spec fn prompted(t: Talk, label: Seq<char>) -> Step<Seq<char>> {
    bind(
        ask_line(t, label + " "@),
        |t: Talk, line: Seq<char>| done(t, trim_back(line, CharSet::LineBreaks)),
    )
}

pub fn prompt(s: &mut Session, label: &str) -> (r: Result<String, Stop>)
    ensures
        (final(s).talk(), both(r)) == prompted(old(s).talk(), label@),
{
    let line = s.line(cat2(label, " "))?;
    Ok(trim_end(line.as_str(), &CharSet::LineBreaks))
}

pub open spec fn delete_question(name: Seq<char>, text: Seq<char>) -> Seq<char> {
    "Are you sure you want to permanently delete @"@ + name + "'s status: \""@ + text
        + "\"? [y/N]"@
}

/// Deletes one tweet, once the user agrees where that is not forced.
pub open spec fn status_deleted(t: Talk, who: Seq<char>, id: Seq<char>, force: bool) -> Step<()> {
    if force {
        bind(
            call(t, plain(Method::Delete, "/2/tweets/"@ + id, Seq::empty())),
            |t: Talk, d: Data|
                done(say(t, "@"@ + who + " deleted Tweet "@ + id + "."@), ()),
        )
    } else {
        bind(
            tweet_fetched(t, id),
            |t: Talk, status: Data|
                {
                    let name = match tweet_author(status) {
                        Some(n) => n,
                        None => "unknown"@,
                    };
                    let text = text_of(status, false);
                    bind(
                        prompted(t, delete_question(name, text)),
                        |t: Talk, answer: Seq<char>|
                            if lowered(answer) == lowered("y"@) {
                                bind(
                                    call(
                                        t,
                                        plain(Method::Delete, "/2/tweets/"@ + id, Seq::empty()),
                                    ),
                                    |t: Talk, d: Data|
                                        done(
                                            say(
                                                t,
                                                "@"@ + who + " deleted the Tweet: \""@ + text
                                                    + "\""@,
                                            ),
                                            (),
                                        ),
                                )
                            } else {
                                done(t, ())
                            },
                    )
                },
        )
    }
}

fn delete_one_status(s: &mut Session, who: &str, id: &str, force: bool) -> (r: Result<(), Stop>)
    ensures
        (final(s).talk(), unit(r)) == status_deleted(old(s).talk(), who@, id@, force),
{
    if force {
        let _ = s.call(request(Method::Delete, cat2("/2/tweets/", id), no_params()))?;
        s.say(cat2("@", who).concat(" deleted Tweet ").concat(id).concat("."));
        return Ok(());
    }
    let status = fetch_tweet(s, id)?;
    let name = match str_from(get_from(status.get("user"), "screen_name")) {
        Some(n) => n.clone(),
        None => "unknown".to_owned(),
    };
    let text = tweet_text(&status, false);
    let question = cat2("Are you sure you want to permanently delete @", name.as_str()).concat(
        "'s status: \"",
    ).concat(text.as_str()).concat("\"? [y/N]");
    let answer = prompt(s, question.as_str())?;
    if !eq_ignore_ascii_case(answer.as_str(), "y") {
        return Ok(());
    }
    let _ = s.call(request(Method::Delete, cat2("/2/tweets/", id), no_params()))?;
    s.say(cat2("@", who).concat(" deleted the Tweet: \"").concat(text.as_str()).concat("\""));
    Ok(())
}

pub open spec fn statuses_deleted(
    t: Talk,
    who: Seq<char>,
    ids: Seq<Seq<char>>,
    force: bool,
) -> Step<()>
    decreases ids.len(),
{
    if ids.len() == 0 {
        done(t, ())
    } else {
        bind(
            status_deleted(t, who, ids[0], force),
            |t: Talk, u: ()| statuses_deleted(t, who, ids.drop_first(), force),
        )
    }
}

fn delete_statuses(s: &mut Session, who: &str, ids: &Vec<String>, force: bool, from: usize) -> (r:
    Result<(), Stop>)
    requires
        from <= ids@.len(),
    ensures
        (final(s).talk(), unit(r)) == statuses_deleted(
            old(s).talk(),
            who@,
            ids.deep_view().skip(from as int),
            force,
        ),
    decreases ids@.len() - from,
{
    let ghost rest = ids.deep_view().skip(from as int);
    if from == ids.len() {
        return Ok(());
    }
    assert(rest[0] == ids@[from as int]@);
    assert(rest.drop_first() =~= ids.deep_view().skip(from + 1));
    delete_one_status(s, who, ids[from].as_str(), force)?;
    delete_statuses(s, who, ids, force, from + 1)
}

pub open spec fn delete_status(t: Talk, call: InvocationData, who: Seq<char>) -> Step<i32> {
    bind(
        need_args(t, call.path, call.args, 1),
        |t: Talk, u: ()|
            bind(
                statuses_deleted(t, who, ids_of(call.args), call.options.flag("force"@)),
                |t: Talk, u: ()| done(t, 0i32),
            ),
    )
}

pub fn run_delete_status(s: &mut Session, call: &Invocation, who: &str) -> (r: Result<i32, Stop>)
    ensures
        (final(s).talk(), both(r)) == delete_status(old(s).talk(), call@, who@),
{
    ensure_min_args(&call.path, &call.args, 1)?;
    let ids = resolve_id_list(&call.args);
    assert(ids.deep_view() =~= ids_of(call@.args));
    assert(ids.deep_view().skip(0) =~= ids.deep_view());
    delete_statuses(s, who, &ids, opt_bool(&call.options, "force"), 0)?;
    Ok(0)
}

// ---------------------------------------------------------------------------
// Addresses
// ---------------------------------------------------------------------------

pub open spec fn open_address(call: InvocationData) -> Seq<char> {
    if call.options.flag("status"@) {
        "https://twitter.com/i/web/status/"@ + call.args[0]
    } else if call.by_id() {
        "https://twitter.com/i/user/"@ + call.args[0]
    } else {
        "https://twitter.com/"@ + bare_name(call.args[0])
    }
}

pub open spec fn open(t: Talk, call: InvocationData) -> Step<i32> {
    bind(
        need_args(t, call.path, call.args, 1),
        |t: Talk, u: ()| done(say(t, open_address(call)), 0i32),
    )
}

pub fn run_open(s: &mut Session, call: &Invocation) -> (r: Result<i32, Stop>)
    ensures
        (final(s).talk(), both(r)) == open(old(s).talk(), call@),
{
    ensure_min_args(&call.path, &call.args, 1)?;
    assert(call@.args[0] == call.args@[0]@);
    let target = call.args[0].as_str();
    let address = if opt_bool(&call.options, "status") {
        cat2("https://twitter.com/i/web/status/", target)
    } else if opt_bool(&call.options, "id") {
        cat2("https://twitter.com/i/user/", target)
    } else {
        cat2("https://twitter.com/", strip_at(target).as_str())
    };
    s.say(address);
    Ok(0)
}

// ---------------------------------------------------------------------------
// The profile
// ---------------------------------------------------------------------------

/// Posts one value of the profile, and says that it was updated.
pub open spec fn profile_set(
    t: Talk,
    call: InvocationData,
    who: Seq<char>,
    path: Seq<char>,
    key: Seq<char>,
    whole: bool,
    what: Seq<char>,
) -> Step<i32> {
    bind(
        need_args(t, call.path, call.args, 1),
        |t: Talk, u: ()|
            bind(
                crate::session::call(
                    t,
                    plain(
                        Method::Post,
                        path,
                        seq![
                            (
                                key,
                                if whole {
                                    joined(call.args, " "@)
                                } else {
                                    call.args[0]
                                },
                            ),
                        ],
                    ),
                ),
                |t: Talk, d: Data|
                    done(say(t, "@"@ + who + "'s "@ + what + " has been updated."@), 0i32),
            ),
    )
}

pub fn run_profile_set(
    s: &mut Session,
    call: &Invocation,
    who: &str,
    path: &str,
    key: &str,
    whole: bool,
    what: &str,
) -> (r: Result<i32, Stop>)
    ensures
        (final(s).talk(), both(r)) == profile_set(
            old(s).talk(),
            call@,
            who@,
            path@,
            key@,
            whole,
            what@,
        ),
{
    ensure_min_args(&call.path, &call.args, 1)?;
    assert(call@.args[0] == call.args@[0]@);
    let value = if whole {
        join(&call.args, " ")
    } else {
        call.args[0].clone()
    };
    let _ = s.call(request(Method::Post, path.to_owned(), one_param(key, value.as_str())))?;
    s.say(cat2("@", who).concat("'s ").concat(what).concat(" has been updated."));
    Ok(0)
}

pub open spec fn set_profile_image(t: Talk, call: InvocationData, who: Seq<char>) -> Step<i32> {
    bind(
        need_args(t, call.path, call.args, 1),
        |t: Talk, u: ()|
            bind(
                file_encoded(t, call.args[0]),
                |t: Talk, image: Seq<char>|
                    bind(
                        crate::session::call(
                            t,
                            plain(
                                Method::Post,
                                "/1.1/account/update_profile_image.json"@,
                                seq![("image"@, image)],
                            ),
                        ),
                        |t: Talk, d: Data|
                            done(say(t, "@"@ + who + "'s image has been updated."@), 0i32),
                    ),
            ),
    )
}

pub fn run_set_profile_image(s: &mut Session, call: &Invocation, who: &str) -> (r: Result<
    i32,
    Stop,
>)
    ensures
        (final(s).talk(), both(r)) == set_profile_image(old(s).talk(), call@, who@),
{
    ensure_min_args(&call.path, &call.args, 1)?;
    assert(call@.args[0] == call.args@[0]@);
    let image = load_file_as_base64(s, call.args[0].as_str())?;
    let _ = s.call(
        request(
            Method::Post,
            "/1.1/account/update_profile_image.json".to_owned(),
            one_param("image", image.as_str()),
        ),
    )?;
    s.say(cat3("@", who, "'s image has been updated."));
    Ok(0)
}

pub open spec fn background_params(image: Seq<char>, tile: bool) -> Seq<(Seq<char>, Seq<char>)> {
    if tile {
        seq![("image"@, image), ("skip_status"@, "true"@), ("tile"@, "true"@)]
    } else {
        seq![("image"@, image), ("skip_status"@, "true"@)]
    }
}

pub open spec fn set_background(t: Talk, call: InvocationData, who: Seq<char>) -> Step<i32> {
    bind(
        need_args(t, call.path, call.args, 1),
        |t: Talk, u: ()|
            bind(
                file_encoded(t, call.args[0]),
                |t: Talk, image: Seq<char>|
                    bind(
                        crate::session::call(
                            t,
                            plain(
                                Method::Post,
                                "/1.1/account/update_profile_background_image.json"@,
                                background_params(image, call.options.flag("tile"@)),
                            ),
                        ),
                        |t: Talk, d: Data|
                            done(
                                say(t, "@"@ + who + "'s background image has been updated."@),
                                0i32,
                            ),
                    ),
            ),
    )
}

pub fn run_set_background(s: &mut Session, call: &Invocation, who: &str) -> (r: Result<i32, Stop>)
    ensures
        (final(s).talk(), both(r)) == set_background(old(s).talk(), call@, who@),
{
    ensure_min_args(&call.path, &call.args, 1)?;
    assert(call@.args[0] == call.args@[0]@);
    let image = load_file_as_base64(s, call.args[0].as_str())?;
    let tile = opt_bool(&call.options, "tile");
    let mut params: Vec<(String, String)> = vec![
        pair("image", image.as_str()),
        pair("skip_status", "true"),
    ];
    if tile {
        params.push(pair("tile", "true"));
    }
    assert(params.deep_view() =~= background_params(image@, tile));
    let _ = s.call(
        request(
            Method::Post,
            "/1.1/account/update_profile_background_image.json".to_owned(),
            params,
        ),
    )?;
    s.say(cat3("@", who, "'s background image has been updated."));
    Ok(0)
}

// ---------------------------------------------------------------------------
// Laws
// ---------------------------------------------------------------------------

/// Without force, a tweet is deleted only after the user has answered yes: where the next thing
/// asked for is the deletion, the last reply was that answer.
pub proof fn law_deleting_needs_a_yes(t: Talk, who: Seq<char>, id: Seq<char>)
    requires
        t.next <= t.replies.len(),
        status_deleted(t, who, id, false).1 == Err::<(), StopData>(
            StopData::Ask(AskData::Api(plain(Method::Delete, "/2/tweets/"@ + id, Seq::empty()))),
        ),
    ensures
        t.replies.len() > 0,
        t.replies.last() matches crate::session::ReplyData::Line(Ok(line)) && lowered(
            trim_back(line, CharSet::LineBreaks),
        ) == lowered("y"@),
{
    let fetched = tweet_fetched(t, id);
    if let Ok(status) = fetched.1 {
        let name = match tweet_author(status) {
            Some(n) => n,
            None => "unknown"@,
        };
        let text = text_of(status, false);
        let question = delete_question(name, text);
        let answered = prompted(fetched.0, question);
        assert(answered.1 is Ok);
        assert(answered.0.next == answered.0.replies.len());
    } else {
        assert(plain(Method::Delete, "/2/tweets/"@ + id, Seq::empty()).method == Method::Delete);
    }
}

/// A reply never addresses the account that posts it, whatever the case of its letters.
pub proof fn law_replies_address_others(status: Data, all: bool, who: Seq<char>, i: int)
    requires
        0 <= i < addressees(status, all, who).len(),
    ensures
        lowered(addressees(status, all, who)[i]) != lowered(who),
{
    let author = seq![or_empty(tweet_author(status))];
    let users = if all {
        set_of(author + mentions_in(text_of(status, false)))
    } else {
        author
    };
    lemma_collected_from(users, |u: Seq<char>| someone_else(u, who), i);
}

} // verus!
