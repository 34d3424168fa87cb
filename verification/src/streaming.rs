//! Commands that show tweets as they come.

use vstd::prelude::*;

use crate::act::ids_of;
use crate::fetch::{
    authenticated_user_id, current_user_id, fetch_list_member_ids_v2, fetch_relationship_ids_v2,
    list_id_resolved, member_ids, relationship_ids, resolve_list_id,
};
use crate::invocation::{Invocation, InvocationData};
use crate::list::map_list;
use crate::options::{opt_bool, Options, OptionsData};
use crate::params::{stream_params, v2_stream_params, AuthScheme};
use crate::people::ended;
use crate::present::{ensure_min_args, need_args};
use crate::session::{bind, both, done, Session, Step, Stop, Talk};
use crate::stream::{
    filtered_streamed, stream_filtered_tweets, stream_tweets, tweets_streamed,
};
use crate::text::cat2;
use crate::words::resolve_id_list;

verus! {

/// The search terms for the tweets of the users.
pub open spec fn tweets_from(ids: Seq<Seq<char>>) -> Seq<Seq<char>> {
    ids.map_values(|id: Seq<char>| "from:"@ + id)
}

fn terms_for(ids: &Vec<String>) -> (r: Vec<String>)
    ensures
        r.deep_view() == tweets_from(ids.deep_view()),
{
    let term = |id: &String| -> (r: String)
        ensures
            r@ == "from:"@ + id@,
    {
        cat2("from:", id.as_str())
    };
    map_list(ids, term, Ghost(|id: Seq<char>| "from:"@ + id))
}

/// The tweets of the users as they come, unless there is no user.
pub open spec fn users_streamed(t: Talk, ids: Seq<Seq<char>>, options: OptionsData) -> Step<i32> {
    if ids.len() == 0 {
        done(t, 0i32)
    } else {
        ended(filtered_streamed(t, tweets_from(ids), options))
    }
}

fn stream_users(s: &mut Session, ids: &Vec<String>, options: &Options) -> (r: Result<i32, Stop>)
    ensures
        (final(s).talk(), both(r)) == users_streamed(old(s).talk(), ids.deep_view(), options@),
{
    assert(ids.deep_view().len() == ids@.len());
    if ids.len() == 0 {
        return Ok(0);
    }
    stream_filtered_tweets(s, &terms_for(ids), options)?;
    Ok(0)
}

pub open spec fn stream_timeline(t: Talk, call: InvocationData) -> Step<i32> {
    bind(
        current_user_id(t, false),
        |t: Talk, me: Seq<char>|
            bind(
                relationship_ids(t, me, "following"@),
                |t: Talk, ids: Seq<Seq<char>>| users_streamed(t, ids, call.options),
            ),
    )
}

pub fn run_stream_timeline(s: &mut Session, call: &Invocation) -> (r: Result<i32, Stop>)
    ensures
        (final(s).talk(), both(r)) == stream_timeline(old(s).talk(), call@),
{
    let me = authenticated_user_id(s)?;
    let ids = fetch_relationship_ids_v2(s, me.as_str(), "following")?;
    stream_users(s, &ids, &call.options)
}

pub open spec fn stream_all(t: Talk, call: InvocationData) -> Step<i32> {
    ended(
        tweets_streamed(
            t,
            "/2/tweets/sample/stream"@,
            stream_params(),
            AuthScheme::OAuth2Bearer,
            call.options,
        ),
    )
}

pub fn run_stream_all(s: &mut Session, call: &Invocation) -> (r: Result<i32, Stop>)
    ensures
        (final(s).talk(), both(r)) == stream_all(old(s).talk(), call@),
{
    stream_tweets(
        s,
        "/2/tweets/sample/stream",
        v2_stream_params(),
        AuthScheme::OAuth2Bearer,
        &call.options,
    )?;
    Ok(0)
}

pub open spec fn stream_search(t: Talk, call: InvocationData) -> Step<i32> {
    bind(
        need_args(t, call.path, call.args, 1),
        |t: Talk, u: ()| ended(filtered_streamed(t, call.args, call.options)),
    )
}

pub fn run_stream_search(s: &mut Session, call: &Invocation) -> (r: Result<i32, Stop>)
    ensures
        (final(s).talk(), both(r)) == stream_search(old(s).talk(), call@),
{
    ensure_min_args(&call.path, &call.args, 1)?;
    stream_filtered_tweets(s, &call.args, &call.options)?;
    Ok(0)
}

pub open spec fn stream_named_users(t: Talk, call: InvocationData) -> Step<i32> {
    bind(
        need_args(t, call.path, call.args, 1),
        |t: Talk, u: ()|
            ended(filtered_streamed(t, tweets_from(ids_of(call.args)), call.options)),
    )
}

pub fn run_stream_users(s: &mut Session, call: &Invocation) -> (r: Result<i32, Stop>)
    ensures
        (final(s).talk(), both(r)) == stream_named_users(old(s).talk(), call@),
{
    ensure_min_args(&call.path, &call.args, 1)?;
    let ids = resolve_id_list(&call.args);
    assert(ids.deep_view() =~= ids_of(call@.args));
    stream_filtered_tweets(s, &terms_for(&ids), &call.options)?;
    Ok(0)
}

pub open spec fn stream_list(t: Talk, call: InvocationData, who: Seq<char>) -> Step<i32> {
    bind(
        need_args(t, call.path, call.args, 1),
        |t: Talk, u: ()|
            bind(
                list_id_resolved(t, call.args[0], call.by_id(), who),
                |t: Talk, id: Seq<char>|
                    bind(
                        member_ids(t, id),
                        |t: Talk, ids: Seq<Seq<char>>| users_streamed(t, ids, call.options),
                    ),
            ),
    )
}

pub fn run_stream_list(s: &mut Session, call: &Invocation, who: &str) -> (r: Result<i32, Stop>)
    ensures
        (final(s).talk(), both(r)) == stream_list(old(s).talk(), call@, who@),
{
    ensure_min_args(&call.path, &call.args, 1)?;
    assert(call@.args[0] == call.args@[0]@);
    let id = resolve_list_id(s, call.args[0].as_str(), opt_bool(&call.options, "id"), who)?;
    let ids = fetch_list_member_ids_v2(s, id.as_str())?;
    stream_users(s, &ids, &call.options)
}

} // verus!
