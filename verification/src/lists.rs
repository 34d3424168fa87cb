//! Commands about lists and collections.

use vstd::prelude::*;

use crate::act::{ids_of, untarget_each, each_untargeted, users_of};
use crate::extract::{extract_lists, lists_in};
use crate::fetch::{
    collect_collection_entries, collect_owned_lists_paginated, collect_tweets_paginated,
    collection_id_resolved, collection_metadata, collection_tweets, extract_collection_metadata,
    fetch_list_member_ids_v2, fetch_user_collections, first_or, list_id_resolved, list_params,
    member_ids, owned_lists, resolve_collection_id, resolve_list_id, resolve_user_id,
    take_first_or, tweets_collected, user_collections, user_id_resolved, v2_list_params,
};
use crate::invocation::{
    arg_at, arg_or_active_name, args_behind, first_or_active, get_arg, Invocation, InvocationData,
};
use crate::json::{object_json, or_empty, put, Data, Json};
use crate::options::{opt_bool, opt_string, opt_usize_or};
use crate::params::{
    add_param_if, no_params, one_param, pair, param_if, plain, request, request_body,
    request_retried, retried, timeline_params, timeline_v2_params, with_body, AuthScheme,
    DEFAULT_NUM_RESULTS,
};
use crate::people::{ended, ids_shown, show_ids};
use crate::present::{
    ensure_min_args, list_info_shown, lists_shown, need_args, show_list_information, show_lists,
    show_tweets, tweets_shown,
};
use crate::session::{
    bind, both, call, done, say, say_all, unit, Method, Session, Step, Stop, Talk,
};
use crate::show::{
    collection_info_lines, collections_lines, print_collection_information, print_collections,
};
use crate::stream::one_entry;
use crate::text::{cat2, cat3};
use crate::words::{counted, pluralize, resolve_id_list, resolve_user_list};

verus! {

// ---------------------------------------------------------------------------
// Lists
// ---------------------------------------------------------------------------

pub open spec fn lists(t: Talk, call: InvocationData, who: Seq<char>) -> Step<i32> {
    bind(
        user_id_resolved(t, first_or_active(call.args, who), call.by_id()),
        |t: Talk, id: Seq<char>|
            bind(
                owned_lists(t, id),
                |t: Talk, found: Seq<Data>| ended(lists_shown(t, found, call.options)),
            ),
    )
}

pub fn run_lists(s: &mut Session, call: &Invocation, who: &str) -> (r: Result<i32, Stop>)
    ensures
        (final(s).talk(), both(r)) == lists(old(s).talk(), call@, who@),
{
    let user = arg_or_active_name(&call.args, who);
    let id = resolve_user_id(s, user.as_str(), opt_bool(&call.options, "id"))?;
    let found = collect_owned_lists_paginated(s, id.as_str())?;
    show_lists(s, &found, &call.options)?;
    Ok(0)
}

pub open spec fn list_body(call: InvocationData) -> Data {
    Data::Object(
        seq![
            ("name"@, Data::Text(call.args[0])),
            ("description"@, Data::Text(or_empty(arg_at(call.args, 1)))),
            ("private"@, Data::Bool(call.options.flag("private"@))),
        ],
    )
}

pub open spec fn list_create(t: Talk, call: InvocationData, who: Seq<char>) -> Step<i32> {
    bind(
        need_args(t, call.path, call.args, 1),
        |t: Talk, u: ()|
            bind(
                crate::session::call(t, with_body(Method::PostBody, "/2/lists"@, list_body(call))),
                |t: Talk, d: Data|
                    done(
                        say(t, "@"@ + who + " created the list \""@ + call.args[0] + "\"."@),
                        0i32,
                    ),
            ),
    )
}

pub fn run_list_create(s: &mut Session, call: &Invocation, who: &str) -> (r: Result<i32, Stop>)
    ensures
        (final(s).talk(), both(r)) == list_create(old(s).talk(), call@, who@),
{
    ensure_min_args(&call.path, &call.args, 1)?;
    assert(call@.args[0] == call.args@[0]@);
    let description = match get_arg(&call.args, 1) {
        Some(d) => d.clone(),
        None => String::new(),
    };
    let mut body: Vec<(String, Json)> = Vec::new();
    put(&mut body, "name", Json::Text(call.args[0].clone()));
    put(&mut body, "description", Json::Text(description));
    put(&mut body, "private", Json::Bool(opt_bool(&call.options, "private")));
    assert(body.deep_view() =~= list_body(call@)->Object_0);
    let _ = s.call(request_body(Method::PostBody, "/2/lists".to_owned(), object_json(body)))?;
    let line = cat2("@", who).concat(" created the list \"").concat(
        call.args[0].as_str(),
    ).concat("\".");
    s.say(line);
    Ok(0)
}

/// Puts each user on a list.
pub open spec fn members_added(
    t: Talk,
    path: Seq<char>,
    users: Seq<Seq<char>>,
    by_id: bool,
) -> Step<()>
    decreases users.len(),
{
    if users.len() == 0 {
        done(t, ())
    } else {
        bind(
            user_id_resolved(t, users[0], by_id),
            |t: Talk, id: Seq<char>|
                bind(
                    call(
                        t,
                        with_body(
                            Method::PostBody,
                            path,
                            Data::Object(seq![("user_id"@, Data::Text(id))]),
                        ),
                    ),
                    |t: Talk, d: Data| members_added(t, path, users.drop_first(), by_id),
                ),
        )
    }
}

fn add_members(s: &mut Session, path: &str, users: &Vec<String>, by_id: bool, from: usize) -> (r:
    Result<(), Stop>)
    requires
        from <= users@.len(),
    ensures
        (final(s).talk(), unit(r)) == members_added(
            old(s).talk(),
            path@,
            users.deep_view().skip(from as int),
            by_id,
        ),
    decreases users@.len() - from,
{
    let ghost rest = users.deep_view().skip(from as int);
    if from == users.len() {
        return Ok(());
    }
    assert(rest[0] == users@[from as int]@);
    assert(rest.drop_first() =~= users.deep_view().skip(from + 1));
    let id = resolve_user_id(s, users[from].as_str(), by_id)?;
    let _ = s.call(
        request_body(Method::PostBody, path.to_owned(), one_entry("user_id", Json::Text(id))),
    )?;
    add_members(s, path, users, by_id, from + 1)
}

pub open spec fn list_changed_line(
    who: Seq<char>,
    verb: Seq<char>,
    count: nat,
    middle: Seq<char>,
    name: Seq<char>,
) -> Seq<char> {
    "@"@ + who + verb + counted(count, "member"@, None) + middle + name + "\"."@
}

fn tell_list_changed(who: &str, verb: &str, count: usize, middle: &str, name: &str) -> (r: String)
    ensures
        r@ == list_changed_line(who@, verb@, count as nat, middle@, name@),
{
    let mut r = "@".to_owned();
    r.append(who);
    r.append(verb);
    r.append(pluralize(count, "member", None).as_str());
    r.append(middle);
    r.append(name);
    r.append("\".");
    r
}

pub open spec fn list_add(t: Talk, call: InvocationData, who: Seq<char>) -> Step<i32> {
    bind(
        need_args(t, call.path, call.args, 2),
        |t: Talk, u: ()|
            {
                let members = users_of(call.args.skip(1), call.by_id());
                bind(
                    list_id_resolved(t, call.args[0], call.by_id(), who),
                    |t: Talk, id: Seq<char>|
                        bind(
                            members_added(
                                t,
                                "/2/lists/"@ + id + "/members"@,
                                members,
                                call.by_id(),
                            ),
                            |t: Talk, u: ()|
                                done(
                                    say(
                                        t,
                                        list_changed_line(
                                            who,
                                            " added "@,
                                            members.len(),
                                            " to the list \""@,
                                            call.args[0],
                                        ),
                                    ),
                                    0i32,
                                ),
                        ),
                )
            },
    )
}

pub fn run_list_add(s: &mut Session, call: &Invocation, who: &str) -> (r: Result<i32, Stop>)
    ensures
        (final(s).talk(), both(r)) == list_add(old(s).talk(), call@, who@),
{
    ensure_min_args(&call.path, &call.args, 2)?;
    assert(call@.args[0] == call.args@[0]@);
    let by_id = opt_bool(&call.options, "id");
    let users = resolve_user_list(&args_behind(&call.args, 1), by_id);
    assert(users.deep_view() =~= users_of(call@.args.skip(1), by_id));
    assert(users.deep_view().skip(0) =~= users.deep_view());
    assert(users.deep_view().len() == users@.len());
    let id = resolve_list_id(s, call.args[0].as_str(), by_id, who)?;
    add_members(s, cat3("/2/lists/", id.as_str(), "/members").as_str(), &users, by_id, 0)?;
    s.say(
        tell_list_changed(
            who,
            " added ",
            users.len(),
            " to the list \"",
            call.args[0].as_str(),
        ),
    );
    Ok(0)
}

pub open spec fn list_remove(t: Talk, call: InvocationData, who: Seq<char>) -> Step<i32> {
    bind(
        need_args(t, call.path, call.args, 2),
        |t: Talk, u: ()|
            {
                let members = users_of(call.args.skip(1), call.by_id());
                bind(
                    list_id_resolved(t, call.args[0], call.by_id(), who),
                    |t: Talk, id: Seq<char>|
                        bind(
                            each_untargeted(
                                t,
                                "/2/lists/"@ + id + "/members/"@,
                                members,
                                call.by_id(),
                            ),
                            |t: Talk, u: ()|
                                done(
                                    say(
                                        t,
                                        list_changed_line(
                                            who,
                                            " removed "@,
                                            members.len(),
                                            " from the list \""@,
                                            call.args[0],
                                        ),
                                    ),
                                    0i32,
                                ),
                        ),
                )
            },
    )
}

pub fn run_list_remove(s: &mut Session, call: &Invocation, who: &str) -> (r: Result<i32, Stop>)
    ensures
        (final(s).talk(), both(r)) == list_remove(old(s).talk(), call@, who@),
{
    ensure_min_args(&call.path, &call.args, 2)?;
    assert(call@.args[0] == call.args@[0]@);
    let by_id = opt_bool(&call.options, "id");
    let users = resolve_user_list(&args_behind(&call.args, 1), by_id);
    assert(users.deep_view() =~= users_of(call@.args.skip(1), by_id));
    assert(users.deep_view().skip(0) =~= users.deep_view());
    assert(users.deep_view().len() == users@.len());
    let id = resolve_list_id(s, call.args[0].as_str(), by_id, who)?;
    untarget_each(s, cat3("/2/lists/", id.as_str(), "/members/").as_str(), &users, by_id, 0)?;
    s.say(
        tell_list_changed(
            who,
            " removed ",
            users.len(),
            " from the list \"",
            call.args[0].as_str(),
        ),
    );
    Ok(0)
}

pub open spec fn list_information(t: Talk, call: InvocationData, who: Seq<char>) -> Step<i32> {
    bind(
        need_args(t, call.path, call.args, 1),
        |t: Talk, u: ()|
            bind(
                list_id_resolved(t, call.args[0], call.by_id(), who),
                |t: Talk, id: Seq<char>|
                    bind(
                        crate::session::call(
                            t,
                            plain(Method::GetOauth2, "/2/lists/"@ + id, list_params()),
                        ),
                        |t: Talk, d: Data|
                            ended(list_info_shown(t, first_or(lists_in(d), d), call.options)),
                    ),
            ),
    )
}

pub fn run_list_information(s: &mut Session, call: &Invocation, who: &str) -> (r: Result<i32, Stop>)
    ensures
        (final(s).talk(), both(r)) == list_information(old(s).talk(), call@, who@),
{
    ensure_min_args(&call.path, &call.args, 1)?;
    assert(call@.args[0] == call.args@[0]@);
    let id = resolve_list_id(s, call.args[0].as_str(), opt_bool(&call.options, "id"), who)?;
    let response = s.call(
        request(Method::GetOauth2, cat2("/2/lists/", id.as_str()), v2_list_params()),
    )?;
    let list = take_first_or(extract_lists(&response), response);
    show_list_information(s, &list, &call.options)?;
    Ok(0)
}

pub open spec fn list_members(t: Talk, call: InvocationData, who: Seq<char>) -> Step<i32> {
    bind(
        need_args(t, call.path, call.args, 1),
        |t: Talk, u: ()|
            bind(
                list_id_resolved(t, call.args[0], call.by_id(), who),
                |t: Talk, id: Seq<char>|
                    bind(
                        member_ids(t, id),
                        |t: Talk, ids: Seq<Seq<char>>| ids_shown(t, ids, call.options),
                    ),
            ),
    )
}

pub fn run_list_members(s: &mut Session, call: &Invocation, who: &str) -> (r: Result<i32, Stop>)
    ensures
        (final(s).talk(), both(r)) == list_members(old(s).talk(), call@, who@),
{
    ensure_min_args(&call.path, &call.args, 1)?;
    assert(call@.args[0] == call.args@[0]@);
    let id = resolve_list_id(s, call.args[0].as_str(), opt_bool(&call.options, "id"), who)?;
    let ids = fetch_list_member_ids_v2(s, id.as_str())?;
    show_ids(s, &ids, &call.options)
}

pub open spec fn list_timeline(t: Talk, call: InvocationData, who: Seq<char>) -> Step<i32> {
    bind(
        need_args(t, call.path, call.args, 1),
        |t: Talk, u: ()|
            bind(
                list_id_resolved(t, call.args[0], call.by_id(), who),
                |t: Talk, id: Seq<char>|
                    bind(
                        tweets_collected(
                            t,
                            "/2/lists/"@ + id + "/tweets"@,
                            timeline_params(call.options),
                            AuthScheme::OAuth2Bearer,
                            call.options.number_or("number"@, DEFAULT_NUM_RESULTS as nat),
                        ),
                        |t: Talk, tweets: Seq<Data>|
                            ended(tweets_shown(t, tweets, call.options)),
                    ),
            ),
    )
}

pub fn run_list_timeline(s: &mut Session, call: &Invocation, who: &str) -> (r: Result<i32, Stop>)
    ensures
        (final(s).talk(), both(r)) == list_timeline(old(s).talk(), call@, who@),
{
    ensure_min_args(&call.path, &call.args, 1)?;
    assert(call@.args[0] == call.args@[0]@);
    let id = resolve_list_id(s, call.args[0].as_str(), opt_bool(&call.options, "id"), who)?;
    let tweets = collect_tweets_paginated(
        s,
        cat3("/2/lists/", id.as_str(), "/tweets").as_str(),
        timeline_v2_params(&call.options),
        AuthScheme::OAuth2Bearer,
        opt_usize_or(&call.options, "number", DEFAULT_NUM_RESULTS),
    )?;
    show_tweets(s, &tweets, &call.options)?;
    Ok(0)
}

pub open spec fn delete_list(t: Talk, call: InvocationData, who: Seq<char>) -> Step<i32> {
    bind(
        need_args(t, call.path, call.args, 1),
        |t: Talk, u: ()|
            bind(
                list_id_resolved(t, call.args[0], call.by_id(), who),
                |t: Talk, id: Seq<char>|
                    bind(
                        crate::session::call(
                            t,
                            plain(Method::Delete, "/2/lists/"@ + id, Seq::empty()),
                        ),
                        |t: Talk, d: Data| done(t, 0i32),
                    ),
            ),
    )
}

pub fn run_delete_list(s: &mut Session, call: &Invocation, who: &str) -> (r: Result<i32, Stop>)
    ensures
        (final(s).talk(), both(r)) == delete_list(old(s).talk(), call@, who@),
{
    ensure_min_args(&call.path, &call.args, 1)?;
    assert(call@.args[0] == call.args@[0]@);
    let id = resolve_list_id(s, call.args[0].as_str(), opt_bool(&call.options, "id"), who)?;
    let _ = s.call(request(Method::Delete, cat2("/2/lists/", id.as_str()), no_params()))?;
    Ok(0)
}

// ---------------------------------------------------------------------------
// Collections
// ---------------------------------------------------------------------------

pub open spec fn collections(t: Talk, call: InvocationData, who: Seq<char>) -> Step<i32> {
    bind(
        user_collections(t, first_or_active(call.args, who), call.by_id()),
        |t: Talk, found: Seq<Data>|
            done(say_all(t, collections_lines(found, call.options)), 0i32),
    )
}

pub fn run_collections(s: &mut Session, call: &Invocation, who: &str) -> (r: Result<i32, Stop>)
    ensures
        (final(s).talk(), both(r)) == collections(old(s).talk(), call@, who@),
{
    let user = arg_or_active_name(&call.args, who);
    let found = fetch_user_collections(s, user.as_str(), opt_bool(&call.options, "id"))?;
    s.say_lines(print_collections(&found, &call.options));
    Ok(0)
}

pub open spec fn collection_params(call: InvocationData) -> Seq<(Seq<char>, Seq<char>)> {
    seq![("name"@, call.args[0])] + param_if("description"@, arg_at(call.args, 1)) + param_if(
        "url"@,
        call.options.text("url"@),
    ) + param_if("timeline_order"@, call.options.text("timeline_order"@))
}

pub open spec fn collection_create(t: Talk, call: InvocationData, who: Seq<char>) -> Step<i32> {
    bind(
        need_args(t, call.path, call.args, 1),
        |t: Talk, u: ()|
            bind(
                crate::session::call(
                    t,
                    retried(
                        Method::Post,
                        "/1.1/collections/create.json"@,
                        collection_params(call),
                    ),
                ),
                |t: Talk, d: Data|
                    done(
                        say(
                            t,
                            "@"@ + who + " created the collection \""@ + call.args[0] + "\"."@,
                        ),
                        0i32,
                    ),
            ),
    )
}

pub fn run_collection_create(s: &mut Session, call: &Invocation, who: &str) -> (r: Result<
    i32,
    Stop,
>)
    ensures
        (final(s).talk(), both(r)) == collection_create(old(s).talk(), call@, who@),
{
    ensure_min_args(&call.path, &call.args, 1)?;
    assert(call@.args[0] == call.args@[0]@);
    let mut params = one_param("name", call.args[0].as_str());
    add_param_if(&mut params, "description", get_arg(&call.args, 1));
    add_param_if(&mut params, "url", opt_string(&call.options, "url"));
    add_param_if(&mut params, "timeline_order", opt_string(&call.options, "timeline_order"));
    let _ = s.call(
        request_retried(Method::Post, "/1.1/collections/create.json".to_owned(), params),
    )?;
    let line = cat2("@", who).concat(" created the collection \"").concat(
        call.args[0].as_str(),
    ).concat("\".");
    s.say(line);
    Ok(0)
}

/// A call for each tweet of a collection.
pub open spec fn entries_changed(
    t: Talk,
    path: Seq<char>,
    id: Seq<char>,
    tweets: Seq<Seq<char>>,
) -> Step<()>
    decreases tweets.len(),
{
    if tweets.len() == 0 {
        done(t, ())
    } else {
        bind(
            call(t, retried(Method::Post, path, seq![("id"@, id), ("tweet_id"@, tweets[0])])),
            |t: Talk, d: Data| entries_changed(t, path, id, tweets.drop_first()),
        )
    }
}

fn change_entries(s: &mut Session, path: &str, id: &str, tweets: &Vec<String>, from: usize) -> (r:
    Result<(), Stop>)
    requires
        from <= tweets@.len(),
    ensures
        (final(s).talk(), unit(r)) == entries_changed(
            old(s).talk(),
            path@,
            id@,
            tweets.deep_view().skip(from as int),
        ),
    decreases tweets@.len() - from,
{
    let ghost rest = tweets.deep_view().skip(from as int);
    if from == tweets.len() {
        return Ok(());
    }
    assert(rest[0] == tweets@[from as int]@);
    assert(rest.drop_first() =~= tweets.deep_view().skip(from + 1));
    let params: Vec<(String, String)> = vec![
        pair("id", id),
        pair("tweet_id", tweets[from].as_str()),
    ];
    assert(params.deep_view() =~= seq![("id"@, id@), ("tweet_id"@, rest[0])]);
    let _ = s.call(request_retried(Method::Post, path.to_owned(), params))?;
    change_entries(s, path, id, tweets, from + 1)
}

/// Adds tweets to a collection, or removes them from it.
pub open spec fn collection_changed(
    t: Talk,
    call: InvocationData,
    who: Seq<char>,
    path: Seq<char>,
    verb: Seq<char>,
    tail: Seq<char>,
) -> Step<i32> {
    bind(
        need_args(t, call.path, call.args, 2),
        |t: Talk, u: ()|
            {
                let tweets = ids_of(call.args.skip(1));
                bind(
                    collection_id_resolved(t, call.args[0], call.by_id(), who),
                    |t: Talk, id: Seq<char>|
                        bind(
                            entries_changed(t, path, id, tweets),
                            |t: Talk, u: ()|
                                done(
                                    say(
                                        t,
                                        "@"@ + who + verb + counted(tweets.len(), "tweet"@, None)
                                            + tail,
                                    ),
                                    0i32,
                                ),
                        ),
                )
            },
    )
}

fn change_collection(
    s: &mut Session,
    call: &Invocation,
    who: &str,
    path: &str,
    verb: &str,
    tail: &str,
) -> (r: Result<i32, Stop>)
    ensures
        (final(s).talk(), both(r)) == collection_changed(
            old(s).talk(),
            call@,
            who@,
            path@,
            verb@,
            tail@,
        ),
{
    ensure_min_args(&call.path, &call.args, 2)?;
    assert(call@.args[0] == call.args@[0]@);
    let id = resolve_collection_id(s, call.args[0].as_str(), opt_bool(&call.options, "id"), who)?;
    let tweets = resolve_id_list(&args_behind(&call.args, 1));
    assert(tweets.deep_view() =~= ids_of(call@.args.skip(1)));
    assert(tweets.deep_view().skip(0) =~= tweets.deep_view());
    assert(tweets.deep_view().len() == tweets@.len());
    change_entries(s, path, id.as_str(), &tweets, 0)?;
    let mut line = cat2("@", who);
    line.append(verb);
    line.append(pluralize(tweets.len(), "tweet", None).as_str());
    line.append(tail);
    s.say(line);
    Ok(0)
}

pub fn run_collection_add(s: &mut Session, call: &Invocation, who: &str) -> (r: Result<i32, Stop>)
    ensures
        (final(s).talk(), both(r)) == collection_changed(
            old(s).talk(),
            call@,
            who@,
            "/1.1/collections/entries/add.json"@,
            " added "@,
            " to the collection."@,
        ),
{
    change_collection(
        s,
        call,
        who,
        "/1.1/collections/entries/add.json",
        " added ",
        " to the collection.",
    )
}

pub fn run_collection_remove(s: &mut Session, call: &Invocation, who: &str) -> (r: Result<
    i32,
    Stop,
>)
    ensures
        (final(s).talk(), both(r)) == collection_changed(
            old(s).talk(),
            call@,
            who@,
            "/1.1/collections/entries/remove.json"@,
            " removed "@,
            " from the collection."@,
        ),
{
    change_collection(
        s,
        call,
        who,
        "/1.1/collections/entries/remove.json",
        " removed ",
        " from the collection.",
    )
}

pub open spec fn collection_entries(t: Talk, call: InvocationData, who: Seq<char>) -> Step<i32> {
    bind(
        need_args(t, call.path, call.args, 1),
        |t: Talk, u: ()|
            bind(
                collection_id_resolved(t, call.args[0], call.by_id(), who),
                |t: Talk, id: Seq<char>|
                    bind(
                        collection_tweets(
                            t,
                            id,
                            call.options.number_or("number"@, DEFAULT_NUM_RESULTS as nat),
                        ),
                        |t: Talk, tweets: Seq<Data>|
                            ended(tweets_shown(t, tweets, call.options)),
                    ),
            ),
    )
}

pub fn run_collection_entries(s: &mut Session, call: &Invocation, who: &str) -> (r: Result<
    i32,
    Stop,
>)
    ensures
        (final(s).talk(), both(r)) == collection_entries(old(s).talk(), call@, who@),
{
    ensure_min_args(&call.path, &call.args, 1)?;
    assert(call@.args[0] == call.args@[0]@);
    let id = resolve_collection_id(s, call.args[0].as_str(), opt_bool(&call.options, "id"), who)?;
    let number: usize = opt_usize_or(&call.options, "number", DEFAULT_NUM_RESULTS);
    let tweets = collect_collection_entries(s, id.as_str(), number)?;
    show_tweets(s, &tweets, &call.options)?;
    Ok(0)
}

pub open spec fn collection_information(t: Talk, call: InvocationData, who: Seq<char>) -> Step<
    i32,
> {
    bind(
        need_args(t, call.path, call.args, 1),
        |t: Talk, u: ()|
            bind(
                collection_id_resolved(t, call.args[0], call.by_id(), who),
                |t: Talk, id: Seq<char>|
                    bind(
                        crate::session::call(
                            t,
                            retried(
                                Method::Get,
                                "/1.1/collections/show.json"@,
                                seq![("id"@, id)],
                            ),
                        ),
                        |t: Talk, d: Data|
                            done(
                                say_all(
                                    t,
                                    collection_info_lines(
                                        collection_metadata(d, id),
                                        call.options,
                                    ),
                                ),
                                0i32,
                            ),
                    ),
            ),
    )
}

pub fn run_collection_information(s: &mut Session, call: &Invocation, who: &str) -> (r: Result<
    i32,
    Stop,
>)
    ensures
        (final(s).talk(), both(r)) == collection_information(old(s).talk(), call@, who@),
{
    ensure_min_args(&call.path, &call.args, 1)?;
    assert(call@.args[0] == call.args@[0]@);
    let id = resolve_collection_id(s, call.args[0].as_str(), opt_bool(&call.options, "id"), who)?;
    let response = s.call(
        request_retried(
            Method::Get,
            "/1.1/collections/show.json".to_owned(),
            one_param("id", id.as_str()),
        ),
    )?;
    let collection = extract_collection_metadata(&response, id.as_str());
    s.say_lines(print_collection_information(&collection, &call.options));
    Ok(0)
}

pub open spec fn collection_update_params(id: Seq<char>, call: InvocationData) -> Seq<
    (Seq<char>, Seq<char>),
> {
    seq![("id"@, id)] + param_if("name"@, call.options.text("name"@)) + param_if(
        "description"@,
        call.options.text("description"@),
    ) + param_if("url"@, call.options.text("url"@))
}

pub open spec fn collection_update(t: Talk, call: InvocationData, who: Seq<char>) -> Step<i32> {
    bind(
        need_args(t, call.path, call.args, 1),
        |t: Talk, u: ()|
            bind(
                collection_id_resolved(t, call.args[0], call.by_id(), who),
                |t: Talk, id: Seq<char>|
                    bind(
                        crate::session::call(
                            t,
                            retried(
                                Method::Post,
                                "/1.1/collections/update.json"@,
                                collection_update_params(id, call),
                            ),
                        ),
                        |t: Talk, d: Data|
                            done(say(t, "@"@ + who + " updated the collection."@), 0i32),
                    ),
            ),
    )
}

pub fn run_collection_update(s: &mut Session, call: &Invocation, who: &str) -> (r: Result<
    i32,
    Stop,
>)
    ensures
        (final(s).talk(), both(r)) == collection_update(old(s).talk(), call@, who@),
{
    ensure_min_args(&call.path, &call.args, 1)?;
    assert(call@.args[0] == call.args@[0]@);
    let id = resolve_collection_id(s, call.args[0].as_str(), opt_bool(&call.options, "id"), who)?;
    let mut params = one_param("id", id.as_str());
    add_param_if(&mut params, "name", opt_string(&call.options, "name"));
    add_param_if(&mut params, "description", opt_string(&call.options, "description"));
    add_param_if(&mut params, "url", opt_string(&call.options, "url"));
    let _ = s.call(
        request_retried(Method::Post, "/1.1/collections/update.json".to_owned(), params),
    )?;
    s.say(cat3("@", who, " updated the collection."));
    Ok(0)
}

pub open spec fn delete_collection(t: Talk, call: InvocationData, who: Seq<char>) -> Step<i32> {
    bind(
        need_args(t, call.path, call.args, 1),
        |t: Talk, u: ()|
            bind(
                collection_id_resolved(t, call.args[0], call.by_id(), who),
                |t: Talk, id: Seq<char>|
                    bind(
                        crate::session::call(
                            t,
                            retried(
                                Method::Post,
                                "/1.1/collections/destroy.json"@,
                                seq![("id"@, id)],
                            ),
                        ),
                        |t: Talk, d: Data|
                            done(say(t, "@"@ + who + " deleted the collection."@), 0i32),
                    ),
            ),
    )
}

pub fn run_delete_collection(s: &mut Session, call: &Invocation, who: &str) -> (r: Result<
    i32,
    Stop,
>)
    ensures
        (final(s).talk(), both(r)) == delete_collection(old(s).talk(), call@, who@),
{
    ensure_min_args(&call.path, &call.args, 1)?;
    assert(call@.args[0] == call.args@[0]@);
    let id = resolve_collection_id(s, call.args[0].as_str(), opt_bool(&call.options, "id"), who)?;
    let _ = s.call(
        request_retried(
            Method::Post,
            "/1.1/collections/destroy.json".to_owned(),
            one_param("id", id.as_str()),
        ),
    )?;
    s.say(cat3("@", who, " deleted the collection."));
    Ok(0)
}

} // verus!
