//! A command that is run again, with more replies known, does again what it did.

use vstd::prelude::*;

use crate::act::{self, text_body};
use crate::authorize;
use crate::command;
use crate::extract::{ids_in, lists_in, shown_user, tweets_in, users_in};
use crate::fetch::{
    self, collection_entries_in, collections_in, first_item, lemma_pages_beyond_the_replies,
    next_cursor, next_position, next_token, user_id_resolved,
};
use crate::idset::{intersection_of, set_of};
use crate::invocation::InvocationData;
use crate::json::Data;
use crate::list::collected;
use crate::lists;
use crate::messages;
use crate::options::OptionsData;
use crate::params::{
    at_most, get_with, plain, retried, set_param, tweet_params, user_params, with_body,
    with_body_retried, AuthScheme,
};
use crate::paths::Remote;
use crate::people::{self, Circle};
use crate::places;
use crate::present;
use crate::session::{
    self, call, replies_left, say, say_all, say_err, say_json, with_more, AskData, BookData,
    CredentialsData, ErrorData, Method, OAuth2Data, ReplyData, RequestData, SignedData, Step,
    StopData, StreamKind, Talk,
};
use crate::stream;
use crate::streaming;
use crate::text::joined;
use crate::time::Instant;
use crate::timelines;
use crate::words::user_param;

verus! {

/// Whether a talk has used no more replies than it has.
spec fn is_sound(t: Talk) -> bool {
    t.next <= t.replies.len()
}

/// Whether a step stays the same once more replies are known: where it came to an end it comes to
/// the same end, with the same sayings and the same replies used; where it stopped to ask, it had
/// used all replies.
spec fn stays<A>(t: Talk, more: Seq<ReplyData>, step: Step<A>, again: Step<A>) -> bool {
    &&& step.0.replies == t.replies
    &&& t.next <= step.0.next <= t.replies.len()
    &&& match step.1 {
        Err(StopData::Ask(a)) => step.0.next == t.replies.len(),
        _ => again == (with_more(step.0, more), step.1),
    }
}

broadcast proof fn lemma_say(t: Talk, more: Seq<ReplyData>, line: Seq<char>)
    ensures
        #[trigger] say(with_more(t, more), line) == with_more(say(t, line), more),
{
}

broadcast proof fn lemma_say_err(t: Talk, more: Seq<ReplyData>, line: Seq<char>)
    ensures
        #[trigger] say_err(with_more(t, more), line) == with_more(say_err(t, line), more),
{
}

broadcast proof fn lemma_say_json(t: Talk, more: Seq<ReplyData>, value: Data)
    ensures
        #[trigger] say_json(with_more(t, more), value) == with_more(say_json(t, value), more),
{
}

broadcast proof fn lemma_say_all(t: Talk, more: Seq<ReplyData>, lines: Seq<Seq<char>>)
    ensures
        #[trigger] say_all(with_more(t, more), lines) == with_more(say_all(t, lines), more),
{
}

/// What is said does not depend on the replies that are known.
broadcast group group_saying {
    lemma_say,
    lemma_say_err,
    lemma_say_json,
    lemma_say_all,
}

// ---------------------------------------------------------------------------
// Asks
// ---------------------------------------------------------------------------

broadcast proof fn steady_ask(t: Talk, more: Seq<ReplyData>, a: AskData)
    requires
        is_sound(t),
    ensures
        stays(t, more, session::ask(t, a), #[trigger] session::ask(with_more(t, more), a)),
{
    if t.next < t.replies.len() {
        assert((t.replies + more)[t.next as int] == t.replies[t.next as int]);
    }
}

broadcast proof fn steady_ask_profiles(t: Talk, more: Seq<ReplyData>)
    requires
        is_sound(t),
    ensures
        stays(
            t,
            more,
            session::ask_profiles(t),
            #[trigger] session::ask_profiles(with_more(t, more)),
        ),
{
    broadcast use steady_ask;
}

broadcast proof fn steady_ask_named(t: Talk, more: Seq<ReplyData>, a: AskData)
    requires
        is_sound(t),
    ensures
        stays(
            t,
            more,
            session::ask_named(t, a),
            #[trigger] session::ask_named(with_more(t, more), a),
        ),
{
    broadcast use steady_ask;
}

broadcast proof fn steady_ask_done(t: Talk, more: Seq<ReplyData>, a: AskData)
    requires
        is_sound(t),
    ensures
        stays(
            t,
            more,
            session::ask_done(t, a),
            #[trigger] session::ask_done(with_more(t, more), a),
        ),
{
    broadcast use steady_ask;
}

broadcast proof fn steady_ask_api(t: Talk, more: Seq<ReplyData>, a: AskData)
    requires
        is_sound(t),
    ensures
        stays(t, more, session::ask_api(t, a), #[trigger] session::ask_api(with_more(t, more), a)),
{
    broadcast use steady_ask;
}

broadcast proof fn steady_call(t: Talk, more: Seq<ReplyData>, request: RequestData)
    requires
        is_sound(t),
    ensures
        stays(
            t,
            more,
            session::call(t, request),
            #[trigger] session::call(with_more(t, more), request),
        ),
{
    broadcast use steady_ask_api;
}

broadcast proof fn steady_ask_stream(t: Talk, more: Seq<ReplyData>, a: AskData)
    requires
        is_sound(t),
    ensures
        stays(
            t,
            more,
            session::ask_stream(t, a),
            #[trigger] session::ask_stream(with_more(t, more), a),
        ),
{
    broadcast use steady_ask;
}

broadcast proof fn steady_ask_credentials(t: Talk, more: Seq<ReplyData>)
    requires
        is_sound(t),
    ensures
        stays(
            t,
            more,
            session::ask_credentials(t),
            #[trigger] session::ask_credentials(with_more(t, more)),
        ),
{
    broadcast use steady_ask;
}

broadcast proof fn steady_ask_attempt(t: Talk, more: Seq<ReplyData>, a: AskData)
    requires
        is_sound(t),
    ensures
        stays(
            t,
            more,
            session::ask_attempt(t, a),
            #[trigger] session::ask_attempt(with_more(t, more), a),
        ),
{
    broadcast use steady_ask;
}

broadcast proof fn steady_ask_line(t: Talk, more: Seq<ReplyData>, text: Seq<char>)
    requires
        is_sound(t),
    ensures
        stays(
            t,
            more,
            session::ask_line(t, text),
            #[trigger] session::ask_line(with_more(t, more), text),
        ),
{
    broadcast use steady_ask;
}

broadcast proof fn steady_ask_file(t: Talk, more: Seq<ReplyData>, path: Seq<char>)
    requires
        is_sound(t),
    ensures
        stays(
            t,
            more,
            session::ask_file(t, path),
            #[trigger] session::ask_file(with_more(t, more), path),
        ),
{
    broadcast use steady_ask;
}

broadcast proof fn steady_ask_clock(t: Talk, more: Seq<ReplyData>, instants: Seq<Instant>)
    requires
        is_sound(t),
    ensures
        stays(
            t,
            more,
            session::ask_clock(t, instants),
            #[trigger] session::ask_clock(with_more(t, more), instants),
        ),
{
    broadcast use steady_ask;
}

broadcast proof fn steady_ask_millis(t: Talk, more: Seq<ReplyData>)
    requires
        is_sound(t),
    ensures
        stays(t, more, session::ask_millis(t), #[trigger] session::ask_millis(with_more(t, more))),
{
    broadcast use steady_ask;
}

broadcast proof fn steady_ask_text(t: Talk, more: Seq<ReplyData>, a: AskData)
    requires
        is_sound(t),
    ensures
        stays(
            t,
            more,
            session::ask_text(t, a),
            #[trigger] session::ask_text(with_more(t, more), a),
        ),
{
    broadcast use steady_ask;
}

broadcast proof fn steady_ask_browse(t: Talk, more: Seq<ReplyData>, uri: Seq<char>)
    requires
        is_sound(t),
    ensures
        stays(
            t,
            more,
            session::ask_browse(t, uri),
            #[trigger] session::ask_browse(with_more(t, more), uri),
        ),
{
    broadcast use steady_ask;
}

broadcast proof fn steady_ask_token(t: Talk, more: Seq<ReplyData>, len: nat)
    requires
        is_sound(t),
    ensures
        stays(
            t,
            more,
            session::ask_token(t, len),
            #[trigger] session::ask_token(with_more(t, more), len),
        ),
{
    broadcast use steady_ask;
}

broadcast proof fn steady_ask_page(t: Talk, more: Seq<ReplyData>, url: Seq<char>)
    requires
        is_sound(t),
    ensures
        stays(
            t,
            more,
            session::ask_page(t, url),
            #[trigger] session::ask_page(with_more(t, more), url),
        ),
{
    broadcast use steady_ask;
}

broadcast proof fn steady_ask_json_page(t: Talk, more: Seq<ReplyData>, url: Seq<char>)
    requires
        is_sound(t),
    ensures
        stays(
            t,
            more,
            session::ask_json_page(t, url),
            #[trigger] session::ask_json_page(with_more(t, more), url),
        ),
{
    broadcast use steady_ask;
}

broadcast proof fn steady_ask_signed(t: Talk, more: Seq<ReplyData>, request: SignedData)
    requires
        is_sound(t),
    ensures
        stays(
            t,
            more,
            session::ask_signed(t, request),
            #[trigger] session::ask_signed(with_more(t, more), request),
        ),
{
    broadcast use steady_ask;
}

// ---------------------------------------------------------------------------
// Showing
// ---------------------------------------------------------------------------

broadcast proof fn steady_need_args(
    t: Talk,
    more: Seq<ReplyData>,
    path: Seq<Seq<char>>,
    args: Seq<Seq<char>>,
    expected: nat,
)
    requires
        is_sound(t),
    ensures
        stays(
            t,
            more,
            present::need_args(t, path, args, expected),
            #[trigger] present::need_args(with_more(t, more), path, args, expected),
        ),
{
}

broadcast proof fn steady_clock_for(
    t: Talk,
    more: Seq<ReplyData>,
    wanted: bool,
    instants: Seq<Instant>,
)
    requires
        is_sound(t),
    ensures
        stays(
            t,
            more,
            present::clock_for(t, wanted, instants),
            #[trigger] present::clock_for(with_more(t, more), wanted, instants),
        ),
{
    broadcast use steady_ask_clock;
}

broadcast proof fn steady_tweets_shown(
    t: Talk,
    more: Seq<ReplyData>,
    tweets: Seq<Data>,
    options: OptionsData,
)
    requires
        is_sound(t),
    ensures
        stays(
            t,
            more,
            present::tweets_shown(t, tweets, options),
            #[trigger] present::tweets_shown(with_more(t, more), tweets, options),
        ),
{
    broadcast use {steady_clock_for, group_saying};
}

broadcast proof fn steady_tweets_or_json(
    t: Talk,
    more: Seq<ReplyData>,
    tweets: Seq<Data>,
    options: OptionsData,
)
    requires
        is_sound(t),
    ensures
        stays(
            t,
            more,
            present::tweets_or_json(t, tweets, options),
            #[trigger] present::tweets_or_json(with_more(t, more), tweets, options),
        ),
{
    broadcast use {steady_tweets_shown, group_saying};
}

broadcast proof fn steady_users_shown(
    t: Talk,
    more: Seq<ReplyData>,
    users: Seq<Data>,
    options: OptionsData,
)
    requires
        is_sound(t),
    ensures
        stays(
            t,
            more,
            present::users_shown(t, users, options),
            #[trigger] present::users_shown(with_more(t, more), users, options),
        ),
{
    broadcast use {steady_clock_for, group_saying};
}

broadcast proof fn steady_whois_shown(
    t: Talk,
    more: Seq<ReplyData>,
    user: Data,
    options: OptionsData,
)
    requires
        is_sound(t),
    ensures
        stays(
            t,
            more,
            present::whois_shown(t, user, options),
            #[trigger] present::whois_shown(with_more(t, more), user, options),
        ),
{
    broadcast use {steady_clock_for, group_saying};
}

broadcast proof fn steady_status_shown(
    t: Talk,
    more: Seq<ReplyData>,
    status: Data,
    options: OptionsData,
)
    requires
        is_sound(t),
    ensures
        stays(
            t,
            more,
            present::status_shown(t, status, options),
            #[trigger] present::status_shown(with_more(t, more), status, options),
        ),
{
    broadcast use {steady_clock_for, group_saying};
}

broadcast proof fn steady_lists_shown(
    t: Talk,
    more: Seq<ReplyData>,
    lists: Seq<Data>,
    options: OptionsData,
)
    requires
        is_sound(t),
    ensures
        stays(
            t,
            more,
            present::lists_shown(t, lists, options),
            #[trigger] present::lists_shown(with_more(t, more), lists, options),
        ),
{
    broadcast use {steady_clock_for, group_saying};
}

broadcast proof fn steady_list_info_shown(
    t: Talk,
    more: Seq<ReplyData>,
    list: Data,
    options: OptionsData,
)
    requires
        is_sound(t),
    ensures
        stays(
            t,
            more,
            present::list_info_shown(t, list, options),
            #[trigger] present::list_info_shown(with_more(t, more), list, options),
        ),
{
    broadcast use {steady_clock_for, group_saying};
}

// ---------------------------------------------------------------------------
// Fetching
// ---------------------------------------------------------------------------

broadcast proof fn steady_user_fetched(t: Talk, more: Seq<ReplyData>, user: Seq<char>, by_id: bool)
    requires
        is_sound(t),
    ensures
        stays(
            t,
            more,
            fetch::user_fetched(t, user, by_id),
            #[trigger] fetch::user_fetched(with_more(t, more), user, by_id),
        ),
{
    broadcast use steady_call;
}

broadcast proof fn steady_user_id_resolved(
    t: Talk,
    more: Seq<ReplyData>,
    user: Seq<char>,
    by_id: bool,
)
    requires
        is_sound(t),
    ensures
        stays(
            t,
            more,
            fetch::user_id_resolved(t, user, by_id),
            #[trigger] fetch::user_id_resolved(with_more(t, more), user, by_id),
        ),
{
    broadcast use steady_user_fetched;
}

broadcast proof fn steady_current_user(t: Talk, more: Seq<ReplyData>, user_context: bool)
    requires
        is_sound(t),
    ensures
        stays(
            t,
            more,
            fetch::current_user(t, user_context),
            #[trigger] fetch::current_user(with_more(t, more), user_context),
        ),
{
    broadcast use {steady_call, steady_ask_api};
}

broadcast proof fn steady_current_user_id(t: Talk, more: Seq<ReplyData>, user_context: bool)
    requires
        is_sound(t),
    ensures
        stays(
            t,
            more,
            fetch::current_user_id(t, user_context),
            #[trigger] fetch::current_user_id(with_more(t, more), user_context),
        ),
{
    broadcast use steady_current_user;
}

broadcast proof fn steady_bookmark_owner(t: Talk, more: Seq<ReplyData>)
    requires
        is_sound(t),
    ensures
        stays(
            t,
            more,
            fetch::bookmark_owner(t),
            #[trigger] fetch::bookmark_owner(with_more(t, more)),
        ),
{
    broadcast use steady_call;
}

broadcast proof fn steady_users_looked_up(
    t: Talk,
    more: Seq<ReplyData>,
    ids: Seq<Seq<char>>,
    users: Seq<Data>,
)
    requires
        is_sound(t),
    ensures
        stays(
            t,
            more,
            fetch::users_looked_up(t, ids, users),
            #[trigger] fetch::users_looked_up(with_more(t, more), ids, users),
        ),
    decreases ids.len(),
{
    broadcast use steady_call;
    if ids.len() > 0 {
        let n = at_most(100, ids.len());
        let first = call(
            t,
            retried(
                Method::GetOauth2,
                "/2/users"@,
                seq![("ids"@, joined(ids.take(n as int), ","@))] + user_params(),
            ),
        );
        if let Ok(d) = first.1 {
            steady_users_looked_up(first.0, more, ids.skip(n as int), users + users_in(d));
        }
    }
}

broadcast proof fn steady_ids_from(
    t: Talk,
    more: Seq<ReplyData>,
    path: Seq<char>,
    params: Seq<(Seq<char>, Seq<char>)>,
    ids: Seq<Seq<char>>,
    pages: nat,
)
    requires
        is_sound(t),
    ensures
        stays(
            t,
            more,
            fetch::ids_from(t, path, params, ids, pages),
            #[trigger] fetch::ids_from(with_more(t, more), path, params, ids, pages),
        ),
    decreases pages,
{
    broadcast use steady_call;
    if pages > 0 {
        let first = call(t, retried(Method::GetOauth2, path, params));
        if let Ok(d) = first.1 {
            if let Some(token) = next_token(d) {
                let next = set_param(params, "pagination_token"@, token);
                steady_ids_from(first.0, more, path, next, ids + ids_in(d), (pages - 1) as nat);
            }
        }
    }
}

broadcast proof fn steady_relationship_ids(
    t: Talk,
    more: Seq<ReplyData>,
    user_id: Seq<char>,
    relationship: Seq<char>,
)
    requires
        is_sound(t),
    ensures
        stays(
            t,
            more,
            fetch::relationship_ids(t, user_id, relationship),
            #[trigger] fetch::relationship_ids(with_more(t, more), user_id, relationship),
        ),
{
    broadcast use steady_ids_from;
}

broadcast proof fn steady_member_ids(t: Talk, more: Seq<ReplyData>, list_id: Seq<char>)
    requires
        is_sound(t),
    ensures
        stays(
            t,
            more,
            fetch::member_ids(t, list_id),
            #[trigger] fetch::member_ids(with_more(t, more), list_id),
        ),
{
    broadcast use steady_ids_from;
}

broadcast proof fn steady_tweets_from(
    t: Talk,
    more: Seq<ReplyData>,
    path: Seq<char>,
    params: Seq<(Seq<char>, Seq<char>)>,
    auth: AuthScheme,
    limit: nat,
    tweets: Seq<Data>,
    pages: nat,
)
    requires
        is_sound(t),
    ensures
        stays(
            t,
            more,
            fetch::tweets_from(t, path, params, auth, limit, tweets, pages),
            #[trigger] fetch::tweets_from(
                with_more(t, more),
                path,
                params,
                auth,
                limit,
                tweets,
                pages,
            ),
        ),
    decreases pages,
{
    broadcast use steady_call;
    if pages > 0 {
        let first = call(t, retried(get_with(auth), path, params));
        if let Ok(d) = first.1 {
            if let Some(token) = next_token(d) {
                steady_tweets_from(
                    first.0,
                    more,
                    path,
                    set_param(params, "pagination_token"@, token),
                    auth,
                    limit,
                    tweets + tweets_in(d),
                    (pages - 1) as nat,
                );
            }
        }
    }
}

broadcast proof fn steady_tweets_collected(
    t: Talk,
    more: Seq<ReplyData>,
    path: Seq<char>,
    params: Seq<(Seq<char>, Seq<char>)>,
    auth: AuthScheme,
    limit: nat,
)
    requires
        is_sound(t),
    ensures
        stays(
            t,
            more,
            fetch::tweets_collected(t, path, params, auth, limit),
            #[trigger] fetch::tweets_collected(with_more(t, more), path, params, auth, limit),
        ),
{
    broadcast use steady_tweets_from;
}

broadcast proof fn steady_owned_lists_from(
    t: Talk,
    more: Seq<ReplyData>,
    path: Seq<char>,
    params: Seq<(Seq<char>, Seq<char>)>,
    lists: Seq<Data>,
    pages: nat,
)
    requires
        is_sound(t),
    ensures
        stays(
            t,
            more,
            fetch::owned_lists_from(t, path, params, lists, pages),
            #[trigger] fetch::owned_lists_from(with_more(t, more), path, params, lists, pages),
        ),
    decreases pages,
{
    broadcast use steady_call;
    if pages > 0 {
        let first = call(t, retried(Method::GetOauth2, path, params));
        if let Ok(d) = first.1 {
            if let Some(token) = next_token(d) {
                let next = set_param(params, "pagination_token"@, token);
                let all = lists + lists_in(d);
                steady_owned_lists_from(first.0, more, path, next, all, (pages - 1) as nat);
            }
        }
    }
}

broadcast proof fn steady_owned_lists(t: Talk, more: Seq<ReplyData>, user_id: Seq<char>)
    requires
        is_sound(t),
    ensures
        stays(
            t,
            more,
            fetch::owned_lists(t, user_id),
            #[trigger] fetch::owned_lists(with_more(t, more), user_id),
        ),
{
    broadcast use steady_owned_lists_from;
}

broadcast proof fn steady_found_users_from(
    t: Talk,
    more: Seq<ReplyData>,
    params: Seq<(Seq<char>, Seq<char>)>,
    users: Seq<Data>,
    previous: Option<Seq<Seq<char>>>,
    pages: nat,
)
    requires
        is_sound(t),
    ensures
        stays(
            t,
            more,
            fetch::found_users_from(t, params, users, previous, pages),
            #[trigger] fetch::found_users_from(with_more(t, more), params, users, previous, pages),
        ),
    decreases pages,
{
    broadcast use steady_call;
    if pages > 0 {
        let first = call(t, retried(Method::Get, "/2/users/search"@, params));
        if let Ok(d) = first.1 {
            if let Some(token) = next_token(d) {
                let page = users_in(d);
                steady_found_users_from(
                    first.0,
                    more,
                    set_param(params, "next_token"@, token),
                    users + page,
                    Some(collected(page, |u: Data| u.id())),
                    (pages - 1) as nat,
                );
            }
        }
    }
}

broadcast proof fn steady_found_users(t: Talk, more: Seq<ReplyData>, query: Seq<char>)
    requires
        is_sound(t),
    ensures
        stays(
            t,
            more,
            fetch::found_users(t, query),
            #[trigger] fetch::found_users(with_more(t, more), query),
        ),
{
    broadcast use steady_found_users_from;
}

broadcast proof fn steady_list_id_resolved(
    t: Talk,
    more: Seq<ReplyData>,
    user_list: Seq<char>,
    by_id: bool,
    default_owner: Seq<char>,
)
    requires
        is_sound(t),
    ensures
        stays(
            t,
            more,
            fetch::list_id_resolved(t, user_list, by_id, default_owner),
            #[trigger] fetch::list_id_resolved(with_more(t, more), user_list, by_id, default_owner),
        ),
{
    broadcast use {steady_user_id_resolved, steady_owned_lists};
}

broadcast proof fn steady_collections_from(
    t: Talk,
    more: Seq<ReplyData>,
    params: Seq<(Seq<char>, Seq<char>)>,
    collections: Seq<Data>,
    pages: nat,
)
    requires
        is_sound(t),
    ensures
        stays(
            t,
            more,
            fetch::collections_from(t, params, collections, pages),
            #[trigger] fetch::collections_from(with_more(t, more), params, collections, pages),
        ),
    decreases pages,
{
    broadcast use steady_call;
    if pages > 0 {
        let first = call(t, retried(Method::Get, "/1.1/collections/list.json"@, params));
        if let Ok(d) = first.1 {
            if let Some(cursor) = next_cursor(d) {
                let next = set_param(params, "cursor"@, cursor);
                let all = collections + collections_in(d);
                steady_collections_from(first.0, more, next, all, (pages - 1) as nat);
            }
        }
    }
}

broadcast proof fn steady_user_collections(
    t: Talk,
    more: Seq<ReplyData>,
    user: Seq<char>,
    by_id: bool,
)
    requires
        is_sound(t),
    ensures
        stays(
            t,
            more,
            fetch::user_collections(t, user, by_id),
            #[trigger] fetch::user_collections(with_more(t, more), user, by_id),
        ),
{
    let params = seq![user_param(by_id, user)];
    let pages = replies_left(t) + 1;
    let most = replies_left(with_more(t, more)) + 1;
    steady_collections_from(t, more, params, Seq::empty(), most);
    lemma_pages_beyond_the_replies(t, params, Seq::empty(), pages, most);
}

broadcast proof fn steady_collection_id_resolved(
    t: Talk,
    more: Seq<ReplyData>,
    name_or_id: Seq<char>,
    by_id: bool,
    default_owner: Seq<char>,
)
    requires
        is_sound(t),
    ensures
        stays(
            t,
            more,
            fetch::collection_id_resolved(t, name_or_id, by_id, default_owner),
            #[trigger] fetch::collection_id_resolved(
                with_more(t, more),
                name_or_id,
                by_id,
                default_owner,
            ),
        ),
{
    broadcast use steady_user_collections;
}

broadcast proof fn steady_entries_from(
    t: Talk,
    more: Seq<ReplyData>,
    params: Seq<(Seq<char>, Seq<char>)>,
    limit: nat,
    tweets: Seq<Data>,
    pages: nat,
)
    requires
        is_sound(t),
    ensures
        stays(
            t,
            more,
            fetch::entries_from(t, params, limit, tweets, pages),
            #[trigger] fetch::entries_from(with_more(t, more), params, limit, tweets, pages),
        ),
    decreases pages,
{
    broadcast use steady_call;
    if pages > 0 {
        let first = call(t, retried(Method::Get, "/1.1/collections/entries.json"@, params));
        if let Ok(d) = first.1 {
            if let Some(position) = next_position(d) {
                let next = set_param(params, "max_position"@, position);
                let all = tweets + collection_entries_in(d);
                steady_entries_from(first.0, more, next, limit, all, (pages - 1) as nat);
            }
        }
    }
}

broadcast proof fn steady_collection_tweets(
    t: Talk,
    more: Seq<ReplyData>,
    collection_id: Seq<char>,
    limit: nat,
)
    requires
        is_sound(t),
    ensures
        stays(
            t,
            more,
            fetch::collection_tweets(t, collection_id, limit),
            #[trigger] fetch::collection_tweets(with_more(t, more), collection_id, limit),
        ),
{
    broadcast use steady_entries_from;
}

// ---------------------------------------------------------------------------
// Acting
// ---------------------------------------------------------------------------

broadcast proof fn steady_each_posted(
    t: Talk,
    more: Seq<ReplyData>,
    method: Method,
    retry: bool,
    path: Seq<char>,
    key: Seq<char>,
    texts: Seq<Seq<char>>,
)
    requires
        is_sound(t),
    ensures
        stays(
            t,
            more,
            act::each_posted(t, method, retry, path, key, texts),
            #[trigger] act::each_posted(with_more(t, more), method, retry, path, key, texts),
        ),
    decreases texts.len(),
{
    broadcast use steady_call;
    if texts.len() > 0 {
        let body = text_body(key, texts[0]);
        let first = call(
            t,
            if retry {
                with_body_retried(method, path, body)
            } else {
                with_body(method, path, body)
            },
        );
        if first.1 is Ok {
            steady_each_posted(first.0, more, method, retry, path, key, texts.drop_first());
        }
    }
}

broadcast proof fn steady_each_deleted(
    t: Talk,
    more: Seq<ReplyData>,
    method: Method,
    retry: bool,
    prefix: Seq<char>,
    texts: Seq<Seq<char>>,
)
    requires
        is_sound(t),
    ensures
        stays(
            t,
            more,
            act::each_deleted(t, method, retry, prefix, texts),
            #[trigger] act::each_deleted(with_more(t, more), method, retry, prefix, texts),
        ),
    decreases texts.len(),
{
    broadcast use steady_call;
    if texts.len() > 0 {
        let path = prefix + texts[0];
        let first = call(
            t,
            if retry {
                retried(method, path, Seq::empty())
            } else {
                plain(method, path, Seq::empty())
            },
        );
        if first.1 is Ok {
            steady_each_deleted(first.0, more, method, retry, prefix, texts.drop_first());
        }
    }
}

broadcast proof fn steady_each_targeted(
    t: Talk,
    more: Seq<ReplyData>,
    path: Seq<char>,
    users: Seq<Seq<char>>,
    by_id: bool,
    names: Seq<Seq<char>>,
)
    requires
        is_sound(t),
    ensures
        stays(
            t,
            more,
            act::each_targeted(t, path, users, by_id, names),
            #[trigger] act::each_targeted(with_more(t, more), path, users, by_id, names),
        ),
    decreases users.len(),
{
    broadcast use {steady_user_id_resolved, steady_call};
    if users.len() > 0 {
        let first = user_id_resolved(t, users[0], by_id);
        if let Ok(id) = first.1 {
            let body = text_body("target_user_id"@, id);
            let second = call(first.0, with_body(Method::PostBody, path, body));
            if let Ok(d) = second.1 {
                let all = names.push(shown_user(d, users[0]));
                steady_each_targeted(second.0, more, path, users.drop_first(), by_id, all);
            }
        }
    }
}

broadcast proof fn steady_each_untargeted(
    t: Talk,
    more: Seq<ReplyData>,
    prefix: Seq<char>,
    users: Seq<Seq<char>>,
    by_id: bool,
)
    requires
        is_sound(t),
    ensures
        stays(
            t,
            more,
            act::each_untargeted(t, prefix, users, by_id),
            #[trigger] act::each_untargeted(with_more(t, more), prefix, users, by_id),
        ),
    decreases users.len(),
{
    broadcast use {steady_user_id_resolved, steady_call};
    if users.len() > 0 {
        let first = user_id_resolved(t, users[0], by_id);
        if let Ok(id) = first.1 {
            let second = call(first.0, plain(Method::Delete, prefix + id, Seq::empty()));
            if second.1 is Ok {
                steady_each_untargeted(second.0, more, prefix, users.drop_first(), by_id);
            }
        }
    }
}

broadcast proof fn steady_bookmark(
    t: Talk,
    more: Seq<ReplyData>,
    call: InvocationData,
    who: Seq<char>,
)
    requires
        is_sound(t),
    ensures
        stays(
            t,
            more,
            act::bookmark(t, call, who),
            #[trigger] act::bookmark(with_more(t, more), call, who),
        ),
{
    broadcast use {steady_need_args, steady_bookmark_owner, steady_each_posted, group_saying};
}

broadcast proof fn steady_unbookmark(
    t: Talk,
    more: Seq<ReplyData>,
    call: InvocationData,
    who: Seq<char>,
)
    requires
        is_sound(t),
    ensures
        stays(
            t,
            more,
            act::unbookmark(t, call, who),
            #[trigger] act::unbookmark(with_more(t, more), call, who),
        ),
{
    broadcast use {steady_need_args, steady_bookmark_owner, steady_each_deleted, group_saying};
}

broadcast proof fn steady_tweets_posted(
    t: Talk,
    more: Seq<ReplyData>,
    call: InvocationData,
    who: Seq<char>,
    tail: Seq<char>,
    verb: Seq<char>,
)
    requires
        is_sound(t),
    ensures
        stays(
            t,
            more,
            act::tweets_posted(t, call, who, tail, verb),
            #[trigger] act::tweets_posted(with_more(t, more), call, who, tail, verb),
        ),
{
    broadcast use {steady_need_args, steady_current_user_id, steady_each_posted, group_saying};
}

broadcast proof fn steady_delete_favorite(t: Talk, more: Seq<ReplyData>, call: InvocationData)
    requires
        is_sound(t),
    ensures
        stays(
            t,
            more,
            act::delete_favorite(t, call),
            #[trigger] act::delete_favorite(with_more(t, more), call),
        ),
{
    broadcast use {steady_need_args, steady_current_user_id, steady_each_deleted};
}

broadcast proof fn steady_delete_dm(t: Talk, more: Seq<ReplyData>, call: InvocationData)
    requires
        is_sound(t),
    ensures
        stays(
            t,
            more,
            act::delete_dm(t, call),
            #[trigger] act::delete_dm(with_more(t, more), call),
        ),
{
    broadcast use {steady_need_args, steady_each_deleted};
}

broadcast proof fn steady_users_targeted(
    t: Talk,
    more: Seq<ReplyData>,
    call: InvocationData,
    tail: Seq<char>,
)
    requires
        is_sound(t),
    ensures
        stays(
            t,
            more,
            act::users_targeted(t, call, tail),
            #[trigger] act::users_targeted(with_more(t, more), call, tail),
        ),
{
    broadcast use {steady_need_args, steady_current_user_id, steady_each_targeted};
}

broadcast proof fn steady_block(t: Talk, more: Seq<ReplyData>, call: InvocationData, who: Seq<char>)
    requires
        is_sound(t),
    ensures
        stays(
            t,
            more,
            act::block(t, call, who),
            #[trigger] act::block(with_more(t, more), call, who),
        ),
{
    broadcast use {steady_users_targeted, group_saying};
}

broadcast proof fn steady_mute(t: Talk, more: Seq<ReplyData>, call: InvocationData, who: Seq<char>)
    requires
        is_sound(t),
    ensures
        stays(
            t,
            more,
            act::mute(t, call, who),
            #[trigger] act::mute(with_more(t, more), call, who),
        ),
{
    broadcast use {steady_users_targeted, group_saying};
}

broadcast proof fn steady_follow(
    t: Talk,
    more: Seq<ReplyData>,
    call: InvocationData,
    who: Seq<char>,
)
    requires
        is_sound(t),
    ensures
        stays(
            t,
            more,
            act::follow(t, call, who),
            #[trigger] act::follow(with_more(t, more), call, who),
        ),
{
    broadcast use {steady_users_targeted, group_saying};
}

broadcast proof fn steady_users_untargeted(
    t: Talk,
    more: Seq<ReplyData>,
    call: InvocationData,
    who: Seq<char>,
    tail: Seq<char>,
    verb: Seq<char>,
)
    requires
        is_sound(t),
    ensures
        stays(
            t,
            more,
            act::users_untargeted(t, call, who, tail, verb),
            #[trigger] act::users_untargeted(with_more(t, more), call, who, tail, verb),
        ),
{
    broadcast use {steady_need_args, steady_current_user_id, steady_each_untargeted, group_saying};
}

broadcast proof fn steady_each_reported(
    t: Talk,
    more: Seq<ReplyData>,
    users: Seq<Seq<char>>,
    by_id: bool,
)
    requires
        is_sound(t),
    ensures
        stays(
            t,
            more,
            act::each_reported(t, users, by_id),
            #[trigger] act::each_reported(with_more(t, more), users, by_id),
        ),
    decreases users.len(),
{
    broadcast use steady_call;
    if users.len() > 0 {
        let params = seq![user_param(by_id, users[0])];
        let first = call(t, plain(Method::Post, "/1.1/users/report_spam.json"@, params));
        if first.1 is Ok {
            steady_each_reported(first.0, more, users.drop_first(), by_id);
        }
    }
}

broadcast proof fn steady_report_spam(
    t: Talk,
    more: Seq<ReplyData>,
    call: InvocationData,
    who: Seq<char>,
)
    requires
        is_sound(t),
    ensures
        stays(
            t,
            more,
            act::report_spam(t, call, who),
            #[trigger] act::report_spam(with_more(t, more), call, who),
        ),
{
    broadcast use {steady_need_args, steady_each_reported, group_saying};
}

broadcast proof fn steady_home_for(t: Talk, more: Seq<ReplyData>, path: Seq<char>)
    requires
        is_sound(t),
    ensures
        stays(t, more, act::home_for(t, path), #[trigger] act::home_for(with_more(t, more), path)),
{
    broadcast use steady_ask_text;
}

broadcast proof fn steady_file_encoded(t: Talk, more: Seq<ReplyData>, path: Seq<char>)
    requires
        is_sound(t),
    ensures
        stays(
            t,
            more,
            act::file_encoded(t, path),
            #[trigger] act::file_encoded(with_more(t, more), path),
        ),
{
    broadcast use {steady_home_for, steady_ask_file};
}

broadcast proof fn steady_media_uploaded(t: Talk, more: Seq<ReplyData>, path: Seq<char>)
    requires
        is_sound(t),
    ensures
        stays(
            t,
            more,
            act::media_uploaded(t, path),
            #[trigger] act::media_uploaded(with_more(t, more), path),
        ),
{
    broadcast use {steady_file_encoded, steady_call};
}

broadcast proof fn steady_file_uploaded(t: Talk, more: Seq<ReplyData>, file: Option<Seq<char>>)
    requires
        is_sound(t),
    ensures
        stays(
            t,
            more,
            act::file_uploaded(t, file),
            #[trigger] act::file_uploaded(with_more(t, more), file),
        ),
{
    broadcast use steady_media_uploaded;
}

broadcast proof fn steady_update(
    t: Talk,
    more: Seq<ReplyData>,
    call: InvocationData,
    who: Seq<char>,
)
    requires
        is_sound(t),
    ensures
        stays(
            t,
            more,
            act::update(t, call, who),
            #[trigger] act::update(with_more(t, more), call, who),
        ),
{
    broadcast use {steady_file_uploaded, steady_need_args, steady_call, group_saying};
}

broadcast proof fn steady_tweet_fetched(t: Talk, more: Seq<ReplyData>, id: Seq<char>)
    requires
        is_sound(t),
    ensures
        stays(
            t,
            more,
            act::tweet_fetched(t, id),
            #[trigger] act::tweet_fetched(with_more(t, more), id),
        ),
{
    broadcast use steady_call;
}

broadcast proof fn steady_reply(t: Talk, more: Seq<ReplyData>, call: InvocationData, who: Seq<char>)
    requires
        is_sound(t),
    ensures
        stays(
            t,
            more,
            act::reply(t, call, who),
            #[trigger] act::reply(with_more(t, more), call, who),
        ),
{
    broadcast use {
        steady_need_args, steady_tweet_fetched, steady_file_uploaded, steady_call, group_saying,
    };
}

broadcast proof fn steady_dm_target(t: Talk, more: Seq<ReplyData>, call: InvocationData)
    requires
        is_sound(t),
    ensures
        stays(
            t,
            more,
            act::dm_target(t, call),
            #[trigger] act::dm_target(with_more(t, more), call),
        ),
{
    broadcast use steady_user_fetched;
}

broadcast proof fn steady_dm(t: Talk, more: Seq<ReplyData>, call: InvocationData, who: Seq<char>)
    requires
        is_sound(t),
    ensures
        stays(t, more, act::dm(t, call, who), #[trigger] act::dm(with_more(t, more), call, who)),
{
    broadcast use {steady_need_args, steady_dm_target, steady_call, group_saying};
}

broadcast proof fn steady_prompted(t: Talk, more: Seq<ReplyData>, label: Seq<char>)
    requires
        is_sound(t),
    ensures
        stays(
            t,
            more,
            act::prompted(t, label),
            #[trigger] act::prompted(with_more(t, more), label),
        ),
{
    broadcast use steady_ask_line;
}

broadcast proof fn steady_status_deleted(
    t: Talk,
    more: Seq<ReplyData>,
    who: Seq<char>,
    id: Seq<char>,
    force: bool,
)
    requires
        is_sound(t),
    ensures
        stays(
            t,
            more,
            act::status_deleted(t, who, id, force),
            #[trigger] act::status_deleted(with_more(t, more), who, id, force),
        ),
{
    broadcast use {steady_call, steady_tweet_fetched, steady_prompted, group_saying};
}

broadcast proof fn steady_statuses_deleted(
    t: Talk,
    more: Seq<ReplyData>,
    who: Seq<char>,
    ids: Seq<Seq<char>>,
    force: bool,
)
    requires
        is_sound(t),
    ensures
        stays(
            t,
            more,
            act::statuses_deleted(t, who, ids, force),
            #[trigger] act::statuses_deleted(with_more(t, more), who, ids, force),
        ),
    decreases ids.len(),
{
    broadcast use steady_status_deleted;
    if ids.len() > 0 {
        let first = act::status_deleted(t, who, ids[0], force);
        if first.1 is Ok {
            steady_statuses_deleted(first.0, more, who, ids.drop_first(), force);
        }
    }
}

broadcast proof fn steady_delete_status(
    t: Talk,
    more: Seq<ReplyData>,
    call: InvocationData,
    who: Seq<char>,
)
    requires
        is_sound(t),
    ensures
        stays(
            t,
            more,
            act::delete_status(t, call, who),
            #[trigger] act::delete_status(with_more(t, more), call, who),
        ),
{
    broadcast use {steady_need_args, steady_statuses_deleted};
}

broadcast proof fn steady_open(t: Talk, more: Seq<ReplyData>, call: InvocationData)
    requires
        is_sound(t),
    ensures
        stays(t, more, act::open(t, call), #[trigger] act::open(with_more(t, more), call)),
{
    broadcast use {steady_need_args, group_saying};
}

broadcast proof fn steady_profile_set(
    t: Talk,
    more: Seq<ReplyData>,
    call: InvocationData,
    who: Seq<char>,
    path: Seq<char>,
    key: Seq<char>,
    whole: bool,
    what: Seq<char>,
)
    requires
        is_sound(t),
    ensures
        stays(
            t,
            more,
            act::profile_set(t, call, who, path, key, whole, what),
            #[trigger] act::profile_set(with_more(t, more), call, who, path, key, whole, what),
        ),
{
    broadcast use {steady_need_args, steady_call, group_saying};
}

broadcast proof fn steady_set_profile_image(
    t: Talk,
    more: Seq<ReplyData>,
    call: InvocationData,
    who: Seq<char>,
)
    requires
        is_sound(t),
    ensures
        stays(
            t,
            more,
            act::set_profile_image(t, call, who),
            #[trigger] act::set_profile_image(with_more(t, more), call, who),
        ),
{
    broadcast use {steady_need_args, steady_file_encoded, steady_call, group_saying};
}

broadcast proof fn steady_set_background(
    t: Talk,
    more: Seq<ReplyData>,
    call: InvocationData,
    who: Seq<char>,
)
    requires
        is_sound(t),
    ensures
        stays(
            t,
            more,
            act::set_background(t, call, who),
            #[trigger] act::set_background(with_more(t, more), call, who),
        ),
{
    broadcast use {steady_need_args, steady_file_encoded, steady_call, group_saying};
}

// ---------------------------------------------------------------------------
// Users
// ---------------------------------------------------------------------------

broadcast proof fn steady_users(t: Talk, more: Seq<ReplyData>, call: InvocationData)
    requires
        is_sound(t),
    ensures
        stays(t, more, people::users(t, call), #[trigger] people::users(with_more(t, more), call)),
{
    broadcast use {steady_need_args, steady_call, steady_users_shown};
}

broadcast proof fn steady_whois(t: Talk, more: Seq<ReplyData>, call: InvocationData)
    requires
        is_sound(t),
    ensures
        stays(t, more, people::whois(t, call), #[trigger] people::whois(with_more(t, more), call)),
{
    broadcast use {steady_need_args, steady_user_fetched, steady_whois_shown};
}

broadcast proof fn steady_whoami(
    t: Talk,
    more: Seq<ReplyData>,
    call: InvocationData,
    active: bool,
    user_context: bool,
)
    requires
        is_sound(t),
    ensures
        stays(
            t,
            more,
            people::whoami(t, call, active, user_context),
            #[trigger] people::whoami(with_more(t, more), call, active, user_context),
        ),
{
    broadcast use {steady_current_user, steady_whois_shown, group_saying};
}

broadcast proof fn steady_search_users(t: Talk, more: Seq<ReplyData>, call: InvocationData)
    requires
        is_sound(t),
    ensures
        stays(
            t,
            more,
            people::search_users(t, call),
            #[trigger] people::search_users(with_more(t, more), call),
        ),
{
    broadcast use {steady_need_args, steady_found_users, steady_users_shown, group_saying};
}

broadcast proof fn steady_own_users(
    t: Talk,
    more: Seq<ReplyData>,
    call: InvocationData,
    tail: Seq<char>,
)
    requires
        is_sound(t),
    ensures
        stays(
            t,
            more,
            people::own_users(t, call, tail),
            #[trigger] people::own_users(with_more(t, more), call, tail),
        ),
{
    broadcast use {steady_current_user_id, steady_call, steady_users_shown};
}

broadcast proof fn steady_ids_shown(
    t: Talk,
    more: Seq<ReplyData>,
    ids: Seq<Seq<char>>,
    options: OptionsData,
)
    requires
        is_sound(t),
    ensures
        stays(
            t,
            more,
            people::ids_shown(t, ids, options),
            #[trigger] people::ids_shown(with_more(t, more), ids, options),
        ),
{
    broadcast use {steady_users_looked_up, steady_users_shown};
}

broadcast proof fn steady_related(
    t: Talk,
    more: Seq<ReplyData>,
    call: InvocationData,
    who: Seq<char>,
    relationship: Seq<char>,
)
    requires
        is_sound(t),
    ensures
        stays(
            t,
            more,
            people::related(t, call, who, relationship),
            #[trigger] people::related(with_more(t, more), call, who, relationship),
        ),
{
    broadcast use {steady_user_id_resolved, steady_relationship_ids, steady_ids_shown};
}

broadcast proof fn steady_circle_shown(
    t: Talk,
    more: Seq<ReplyData>,
    call: InvocationData,
    who: Seq<char>,
    circle: Circle,
)
    requires
        is_sound(t),
    ensures
        stays(
            t,
            more,
            people::circle_shown(t, call, who, circle),
            #[trigger] people::circle_shown(with_more(t, more), call, who, circle),
        ),
{
    broadcast use {steady_user_id_resolved, steady_relationship_ids, steady_ids_shown};
}

broadcast proof fn steady_second_user_id(t: Talk, more: Seq<ReplyData>, call: InvocationData)
    requires
        is_sound(t),
    ensures
        stays(
            t,
            more,
            people::second_user_id(t, call),
            #[trigger] people::second_user_id(with_more(t, more), call),
        ),
{
    broadcast use {steady_user_id_resolved, steady_current_user_id};
}

broadcast proof fn steady_followings_following(t: Talk, more: Seq<ReplyData>, call: InvocationData)
    requires
        is_sound(t),
    ensures
        stays(
            t,
            more,
            people::followings_following(t, call),
            #[trigger] people::followings_following(with_more(t, more), call),
        ),
{
    broadcast use {
        steady_need_args, steady_user_id_resolved, steady_second_user_id, steady_relationship_ids,
        steady_ids_shown,
    };
}

broadcast proof fn steady_all_resolved(
    t: Talk,
    more: Seq<ReplyData>,
    names: Seq<Seq<char>>,
    by_id: bool,
    ids: Seq<Seq<char>>,
)
    requires
        is_sound(t),
    ensures
        stays(
            t,
            more,
            people::all_resolved(t, names, by_id, ids),
            #[trigger] people::all_resolved(with_more(t, more), names, by_id, ids),
        ),
    decreases names.len(),
{
    broadcast use steady_user_id_resolved;
    if names.len() > 0 {
        let first = user_id_resolved(t, names[0], by_id);
        if let Ok(id) = first.1 {
            steady_all_resolved(first.0, more, names.drop_first(), by_id, ids.push(id));
        }
    }
}

broadcast proof fn steady_with_active(
    t: Talk,
    more: Seq<ReplyData>,
    ids: Seq<Seq<char>>,
    who: Seq<char>,
)
    requires
        is_sound(t),
    ensures
        stays(
            t,
            more,
            people::with_active(t, ids, who),
            #[trigger] people::with_active(with_more(t, more), ids, who),
        ),
{
    broadcast use steady_user_id_resolved;
}

broadcast proof fn steady_common_ids(
    t: Talk,
    more: Seq<ReplyData>,
    users: Seq<Seq<char>>,
    relationship: Seq<char>,
    common: Option<Seq<Seq<char>>>,
)
    requires
        is_sound(t),
    ensures
        stays(
            t,
            more,
            people::common_ids(t, users, relationship, common),
            #[trigger] people::common_ids(with_more(t, more), users, relationship, common),
        ),
    decreases users.len(),
{
    broadcast use steady_relationship_ids;
    if users.len() > 0 {
        steady_relationship_ids(t, more, users[0], relationship);
        let first = fetch::relationship_ids(t, users[0], relationship);
        if let Ok(ids) = first.1 {
            let both = match common {
                Some(set) => intersection_of(set, set_of(ids)),
                None => set_of(ids),
            };
            steady_common_ids(first.0, more, users.drop_first(), relationship, Some(both));
        }
    }
}

broadcast proof fn steady_intersection_shown(
    t: Talk,
    more: Seq<ReplyData>,
    call: InvocationData,
    who: Seq<char>,
)
    requires
        is_sound(t),
    ensures
        stays(
            t,
            more,
            people::intersection_shown(t, call, who),
            #[trigger] people::intersection_shown(with_more(t, more), call, who),
        ),
{
    broadcast use {
        steady_need_args, steady_all_resolved, steady_with_active, steady_common_ids,
        steady_ids_shown,
    };
}

broadcast proof fn steady_answered(
    t: Talk,
    more: Seq<ReplyData>,
    yes: bool,
    yes_line: Seq<char>,
    no_line: Seq<char>,
)
    requires
        is_sound(t),
    ensures
        stays(
            t,
            more,
            people::answered(t, yes, yes_line, no_line),
            #[trigger] people::answered(with_more(t, more), yes, yes_line, no_line),
        ),
{
    broadcast use group_saying;
}

broadcast proof fn steady_does_follow(
    t: Talk,
    more: Seq<ReplyData>,
    call: InvocationData,
    who: Seq<char>,
)
    requires
        is_sound(t),
    ensures
        stays(
            t,
            more,
            people::does_follow(t, call, who),
            #[trigger] people::does_follow(with_more(t, more), call, who),
        ),
{
    broadcast use {
        steady_need_args, steady_user_id_resolved, steady_relationship_ids, steady_answered,
    };
}

broadcast proof fn steady_does_contain(
    t: Talk,
    more: Seq<ReplyData>,
    call: InvocationData,
    who: Seq<char>,
)
    requires
        is_sound(t),
    ensures
        stays(
            t,
            more,
            people::does_contain(t, call, who),
            #[trigger] people::does_contain(with_more(t, more), call, who),
        ),
{
    broadcast use {
        steady_need_args, steady_list_id_resolved, steady_user_id_resolved, steady_member_ids,
        steady_answered,
    };
}

broadcast proof fn steady_audience_of(
    t: Talk,
    more: Seq<ReplyData>,
    users: Seq<Seq<char>>,
    audience: Seq<Seq<char>>,
)
    requires
        is_sound(t),
    ensures
        stays(
            t,
            more,
            people::audience_of(t, users, audience),
            #[trigger] people::audience_of(with_more(t, more), users, audience),
        ),
    decreases users.len(),
{
    broadcast use steady_relationship_ids;
    if users.len() > 0 {
        steady_relationship_ids(t, more, users[0], "followers"@);
        let first = fetch::relationship_ids(t, users[0], "followers"@);
        if let Ok(ids) = first.1 {
            steady_audience_of(first.0, more, users.drop_first(), audience + ids);
        }
    }
}

broadcast proof fn steady_reach(t: Talk, more: Seq<ReplyData>, call: InvocationData)
    requires
        is_sound(t),
    ensures
        stays(t, more, people::reach(t, call), #[trigger] people::reach(with_more(t, more), call)),
{
    broadcast use {steady_need_args, steady_call, steady_audience_of, group_saying};
}

// ---------------------------------------------------------------------------
// Timelines
// ---------------------------------------------------------------------------

broadcast proof fn steady_bookmarks(t: Talk, more: Seq<ReplyData>, call: InvocationData)
    requires
        is_sound(t),
    ensures
        stays(
            t,
            more,
            timelines::bookmarks(t, call),
            #[trigger] timelines::bookmarks(with_more(t, more), call),
        ),
{
    broadcast use {steady_bookmark_owner, steady_tweets_collected, steady_tweets_or_json};
}

broadcast proof fn steady_favorites(
    t: Talk,
    more: Seq<ReplyData>,
    call: InvocationData,
    who: Seq<char>,
)
    requires
        is_sound(t),
    ensures
        stays(
            t,
            more,
            timelines::favorites(t, call, who),
            #[trigger] timelines::favorites(with_more(t, more), call, who),
        ),
{
    broadcast use {steady_user_id_resolved, steady_tweets_collected, steady_tweets_shown};
}

broadcast proof fn steady_mentions_collected(
    t: Talk,
    more: Seq<ReplyData>,
    call: InvocationData,
    user_context: bool,
    limit: nat,
)
    requires
        is_sound(t),
    ensures
        stays(
            t,
            more,
            timelines::mentions_collected(t, call, user_context, limit),
            #[trigger] timelines::mentions_collected(with_more(t, more), call, user_context, limit),
        ),
{
    broadcast use {steady_current_user_id, steady_tweets_collected};
}

broadcast proof fn steady_mentions(
    t: Talk,
    more: Seq<ReplyData>,
    call: InvocationData,
    user_context: bool,
)
    requires
        is_sound(t),
    ensures
        stays(
            t,
            more,
            timelines::mentions(t, call, user_context),
            #[trigger] timelines::mentions(with_more(t, more), call, user_context),
        ),
{
    broadcast use {steady_mentions_collected, steady_tweets_shown};
}

broadcast proof fn steady_user_tweets_collected(
    t: Talk,
    more: Seq<ReplyData>,
    user: Seq<char>,
    call: InvocationData,
    limit: nat,
)
    requires
        is_sound(t),
    ensures
        stays(
            t,
            more,
            timelines::user_tweets_collected(t, user, call, limit),
            #[trigger] timelines::user_tweets_collected(with_more(t, more), user, call, limit),
        ),
{
    broadcast use {steady_user_id_resolved, steady_tweets_collected};
}

broadcast proof fn steady_reposts_collected(
    t: Talk,
    more: Seq<ReplyData>,
    call: InvocationData,
    limit: nat,
)
    requires
        is_sound(t),
    ensures
        stays(
            t,
            more,
            timelines::reposts_collected(t, call, limit),
            #[trigger] timelines::reposts_collected(with_more(t, more), call, limit),
        ),
{
    broadcast use steady_tweets_collected;
}

broadcast proof fn steady_retweets_collected(
    t: Talk,
    more: Seq<ReplyData>,
    user: Option<Seq<char>>,
    call: InvocationData,
    limit: nat,
)
    requires
        is_sound(t),
    ensures
        stays(
            t,
            more,
            timelines::retweets_collected(t, user, call, limit),
            #[trigger] timelines::retweets_collected(with_more(t, more), user, call, limit),
        ),
{
    broadcast use {steady_user_tweets_collected, steady_reposts_collected};
}

broadcast proof fn steady_retweets(t: Talk, more: Seq<ReplyData>, call: InvocationData)
    requires
        is_sound(t),
    ensures
        stays(
            t,
            more,
            timelines::retweets(t, call),
            #[trigger] timelines::retweets(with_more(t, more), call),
        ),
{
    broadcast use {steady_retweets_collected, steady_tweets_shown};
}

broadcast proof fn steady_retweets_of_me(t: Talk, more: Seq<ReplyData>, call: InvocationData)
    requires
        is_sound(t),
    ensures
        stays(
            t,
            more,
            timelines::retweets_of_me(t, call),
            #[trigger] timelines::retweets_of_me(with_more(t, more), call),
        ),
{
    broadcast use {steady_reposts_collected, steady_tweets_shown};
}

broadcast proof fn steady_timeline_collected(
    t: Talk,
    more: Seq<ReplyData>,
    user: Option<Seq<char>>,
    call: InvocationData,
    user_context: bool,
    limit: nat,
)
    requires
        is_sound(t),
    ensures
        stays(
            t,
            more,
            timelines::timeline_collected(t, user, call, user_context, limit),
            #[trigger] timelines::timeline_collected(
                with_more(t, more),
                user,
                call,
                user_context,
                limit,
            ),
        ),
{
    broadcast use {steady_user_tweets_collected, steady_current_user_id, steady_tweets_collected};
}

broadcast proof fn steady_timeline(
    t: Talk,
    more: Seq<ReplyData>,
    call: InvocationData,
    user_context: bool,
)
    requires
        is_sound(t),
    ensures
        stays(
            t,
            more,
            timelines::timeline(t, call, user_context),
            #[trigger] timelines::timeline(with_more(t, more), call, user_context),
        ),
{
    broadcast use {steady_timeline_collected, steady_tweets_or_json};
}

broadcast proof fn steady_thread_collected(t: Talk, more: Seq<ReplyData>, status: Data)
    requires
        is_sound(t),
    ensures
        stays(
            t,
            more,
            timelines::thread_collected(t, status),
            #[trigger] timelines::thread_collected(with_more(t, more), status),
        ),
{
    broadcast use steady_call;
}

broadcast proof fn steady_chain_collected(
    t: Talk,
    more: Seq<ReplyData>,
    current: Data,
    chain: Seq<Data>,
    depth: nat,
)
    requires
        is_sound(t),
    ensures
        stays(
            t,
            more,
            timelines::chain_collected(t, current, chain, depth),
            #[trigger] timelines::chain_collected(with_more(t, more), current, chain, depth),
        ),
    decreases depth,
{
    broadcast use steady_call;
    if depth > 0 {
        if let Some(parent) = current.text_at("in_reply_to_status_id"@) {
            let first = call(
                t,
                plain(Method::GetOauth2, "/2/tweets/"@ + parent, tweet_params()),
            );
            if let Ok(d) = first.1 {
                if let Some(p) = first_item(tweets_in(d)) {
                    steady_chain_collected(first.0, more, p, chain.push(p), (depth - 1) as nat);
                }
            }
        }
    }
}

broadcast proof fn steady_status_with_chain(
    t: Talk,
    more: Seq<ReplyData>,
    status: Data,
    chain: Seq<Data>,
    options: OptionsData,
)
    requires
        is_sound(t),
    ensures
        stays(
            t,
            more,
            timelines::status_with_chain(t, status, chain, options),
            #[trigger] timelines::status_with_chain(with_more(t, more), status, chain, options),
        ),
{
    broadcast use {steady_status_shown, steady_tweets_shown, group_saying};
}

broadcast proof fn steady_status(t: Talk, more: Seq<ReplyData>, call: InvocationData)
    requires
        is_sound(t),
    ensures
        stays(
            t,
            more,
            timelines::status(t, call),
            #[trigger] timelines::status(with_more(t, more), call),
        ),
{
    broadcast use {
        steady_need_args, steady_tweet_fetched, steady_thread_collected, steady_tweets_or_json,
        steady_chain_collected, steady_status_with_chain,
    };
}

broadcast proof fn steady_search_all(t: Talk, more: Seq<ReplyData>, call: InvocationData)
    requires
        is_sound(t),
    ensures
        stays(
            t,
            more,
            timelines::search_all(t, call),
            #[trigger] timelines::search_all(with_more(t, more), call),
        ),
{
    broadcast use {steady_need_args, steady_tweets_collected, steady_tweets_or_json};
}

broadcast proof fn steady_matches_shown(
    t: Talk,
    more: Seq<ReplyData>,
    tweets: Seq<Data>,
    query: Seq<char>,
    options: OptionsData,
)
    requires
        is_sound(t),
    ensures
        stays(
            t,
            more,
            timelines::matches_shown(t, tweets, query, options),
            #[trigger] timelines::matches_shown(with_more(t, more), tweets, query, options),
        ),
{
    broadcast use steady_tweets_or_json;
}

broadcast proof fn steady_search_timeline(
    t: Talk,
    more: Seq<ReplyData>,
    call: InvocationData,
    user_context: bool,
)
    requires
        is_sound(t),
    ensures
        stays(
            t,
            more,
            timelines::search_timeline(t, call, user_context),
            #[trigger] timelines::search_timeline(with_more(t, more), call, user_context),
        ),
{
    broadcast use {steady_need_args, steady_timeline_collected, steady_matches_shown};
}

broadcast proof fn steady_search_mentions(
    t: Talk,
    more: Seq<ReplyData>,
    call: InvocationData,
    user_context: bool,
)
    requires
        is_sound(t),
    ensures
        stays(
            t,
            more,
            timelines::search_mentions(t, call, user_context),
            #[trigger] timelines::search_mentions(with_more(t, more), call, user_context),
        ),
{
    broadcast use {steady_need_args, steady_mentions_collected, steady_matches_shown};
}

broadcast proof fn steady_search_favorites(
    t: Talk,
    more: Seq<ReplyData>,
    call: InvocationData,
    who: Seq<char>,
)
    requires
        is_sound(t),
    ensures
        stays(
            t,
            more,
            timelines::search_favorites(t, call, who),
            #[trigger] timelines::search_favorites(with_more(t, more), call, who),
        ),
{
    broadcast use {
        steady_need_args, steady_user_id_resolved, steady_tweets_collected, steady_matches_shown,
    };
}

broadcast proof fn steady_search_retweets(t: Talk, more: Seq<ReplyData>, call: InvocationData)
    requires
        is_sound(t),
    ensures
        stays(
            t,
            more,
            timelines::search_retweets(t, call),
            #[trigger] timelines::search_retweets(with_more(t, more), call),
        ),
{
    broadcast use {steady_need_args, steady_retweets_collected, steady_matches_shown};
}

broadcast proof fn steady_search_list(
    t: Talk,
    more: Seq<ReplyData>,
    call: InvocationData,
    who: Seq<char>,
)
    requires
        is_sound(t),
    ensures
        stays(
            t,
            more,
            timelines::search_list(t, call, who),
            #[trigger] timelines::search_list(with_more(t, more), call, who),
        ),
{
    broadcast use {
        steady_need_args, steady_list_id_resolved, steady_tweets_collected, steady_matches_shown,
    };
}

// ---------------------------------------------------------------------------
// Lists and collections
// ---------------------------------------------------------------------------

broadcast proof fn steady_lists(t: Talk, more: Seq<ReplyData>, call: InvocationData, who: Seq<char>)
    requires
        is_sound(t),
    ensures
        stays(
            t,
            more,
            lists::lists(t, call, who),
            #[trigger] lists::lists(with_more(t, more), call, who),
        ),
{
    broadcast use {steady_user_id_resolved, steady_owned_lists, steady_lists_shown};
}

broadcast proof fn steady_list_create(
    t: Talk,
    more: Seq<ReplyData>,
    call: InvocationData,
    who: Seq<char>,
)
    requires
        is_sound(t),
    ensures
        stays(
            t,
            more,
            lists::list_create(t, call, who),
            #[trigger] lists::list_create(with_more(t, more), call, who),
        ),
{
    broadcast use {steady_need_args, steady_call, group_saying};
}

broadcast proof fn steady_members_added(
    t: Talk,
    more: Seq<ReplyData>,
    path: Seq<char>,
    users: Seq<Seq<char>>,
    by_id: bool,
)
    requires
        is_sound(t),
    ensures
        stays(
            t,
            more,
            lists::members_added(t, path, users, by_id),
            #[trigger] lists::members_added(with_more(t, more), path, users, by_id),
        ),
    decreases users.len(),
{
    broadcast use {steady_user_id_resolved, steady_call};
    if users.len() > 0 {
        let first = user_id_resolved(t, users[0], by_id);
        if let Ok(id) = first.1 {
            let body = Data::Object(seq![("user_id"@, Data::Text(id))]);
            let second = call(first.0, with_body(Method::PostBody, path, body));
            if second.1 is Ok {
                steady_members_added(second.0, more, path, users.drop_first(), by_id);
            }
        }
    }
}

broadcast proof fn steady_list_add(
    t: Talk,
    more: Seq<ReplyData>,
    call: InvocationData,
    who: Seq<char>,
)
    requires
        is_sound(t),
    ensures
        stays(
            t,
            more,
            lists::list_add(t, call, who),
            #[trigger] lists::list_add(with_more(t, more), call, who),
        ),
{
    broadcast use {steady_need_args, steady_list_id_resolved, steady_members_added, group_saying};
}

broadcast proof fn steady_list_remove(
    t: Talk,
    more: Seq<ReplyData>,
    call: InvocationData,
    who: Seq<char>,
)
    requires
        is_sound(t),
    ensures
        stays(
            t,
            more,
            lists::list_remove(t, call, who),
            #[trigger] lists::list_remove(with_more(t, more), call, who),
        ),
{
    broadcast use {steady_need_args, steady_list_id_resolved, steady_each_untargeted, group_saying};
}

broadcast proof fn steady_list_information(
    t: Talk,
    more: Seq<ReplyData>,
    call: InvocationData,
    who: Seq<char>,
)
    requires
        is_sound(t),
    ensures
        stays(
            t,
            more,
            lists::list_information(t, call, who),
            #[trigger] lists::list_information(with_more(t, more), call, who),
        ),
{
    broadcast use {steady_need_args, steady_list_id_resolved, steady_call, steady_list_info_shown};
}

broadcast proof fn steady_list_members(
    t: Talk,
    more: Seq<ReplyData>,
    call: InvocationData,
    who: Seq<char>,
)
    requires
        is_sound(t),
    ensures
        stays(
            t,
            more,
            lists::list_members(t, call, who),
            #[trigger] lists::list_members(with_more(t, more), call, who),
        ),
{
    broadcast use {steady_need_args, steady_list_id_resolved, steady_member_ids, steady_ids_shown};
}

broadcast proof fn steady_list_timeline(
    t: Talk,
    more: Seq<ReplyData>,
    call: InvocationData,
    who: Seq<char>,
)
    requires
        is_sound(t),
    ensures
        stays(
            t,
            more,
            lists::list_timeline(t, call, who),
            #[trigger] lists::list_timeline(with_more(t, more), call, who),
        ),
{
    broadcast use {
        steady_need_args, steady_list_id_resolved, steady_tweets_collected, steady_tweets_shown,
    };
}

broadcast proof fn steady_delete_list(
    t: Talk,
    more: Seq<ReplyData>,
    call: InvocationData,
    who: Seq<char>,
)
    requires
        is_sound(t),
    ensures
        stays(
            t,
            more,
            lists::delete_list(t, call, who),
            #[trigger] lists::delete_list(with_more(t, more), call, who),
        ),
{
    broadcast use {steady_need_args, steady_list_id_resolved, steady_call};
}

broadcast proof fn steady_collections(
    t: Talk,
    more: Seq<ReplyData>,
    call: InvocationData,
    who: Seq<char>,
)
    requires
        is_sound(t),
    ensures
        stays(
            t,
            more,
            lists::collections(t, call, who),
            #[trigger] lists::collections(with_more(t, more), call, who),
        ),
{
    broadcast use {steady_user_collections, group_saying};
}

broadcast proof fn steady_collection_create(
    t: Talk,
    more: Seq<ReplyData>,
    call: InvocationData,
    who: Seq<char>,
)
    requires
        is_sound(t),
    ensures
        stays(
            t,
            more,
            lists::collection_create(t, call, who),
            #[trigger] lists::collection_create(with_more(t, more), call, who),
        ),
{
    broadcast use {steady_need_args, steady_call, group_saying};
}

broadcast proof fn steady_entries_changed(
    t: Talk,
    more: Seq<ReplyData>,
    path: Seq<char>,
    id: Seq<char>,
    tweets: Seq<Seq<char>>,
)
    requires
        is_sound(t),
    ensures
        stays(
            t,
            more,
            lists::entries_changed(t, path, id, tweets),
            #[trigger] lists::entries_changed(with_more(t, more), path, id, tweets),
        ),
    decreases tweets.len(),
{
    broadcast use steady_call;
    if tweets.len() > 0 {
        let params = seq![("id"@, id), ("tweet_id"@, tweets[0])];
        let first = call(t, retried(Method::Post, path, params));
        if first.1 is Ok {
            steady_entries_changed(first.0, more, path, id, tweets.drop_first());
        }
    }
}

broadcast proof fn steady_collection_changed(
    t: Talk,
    more: Seq<ReplyData>,
    call: InvocationData,
    who: Seq<char>,
    path: Seq<char>,
    verb: Seq<char>,
    tail: Seq<char>,
)
    requires
        is_sound(t),
    ensures
        stays(
            t,
            more,
            lists::collection_changed(t, call, who, path, verb, tail),
            #[trigger] lists::collection_changed(with_more(t, more), call, who, path, verb, tail),
        ),
{
    broadcast use {
        steady_need_args, steady_collection_id_resolved, steady_entries_changed, group_saying,
    };
}

broadcast proof fn steady_collection_entries(
    t: Talk,
    more: Seq<ReplyData>,
    call: InvocationData,
    who: Seq<char>,
)
    requires
        is_sound(t),
    ensures
        stays(
            t,
            more,
            lists::collection_entries(t, call, who),
            #[trigger] lists::collection_entries(with_more(t, more), call, who),
        ),
{
    broadcast use {
        steady_need_args, steady_collection_id_resolved, steady_collection_tweets,
        steady_tweets_shown,
    };
}

broadcast proof fn steady_collection_information(
    t: Talk,
    more: Seq<ReplyData>,
    call: InvocationData,
    who: Seq<char>,
)
    requires
        is_sound(t),
    ensures
        stays(
            t,
            more,
            lists::collection_information(t, call, who),
            #[trigger] lists::collection_information(with_more(t, more), call, who),
        ),
{
    broadcast use {steady_need_args, steady_collection_id_resolved, steady_call, group_saying};
}

broadcast proof fn steady_collection_update(
    t: Talk,
    more: Seq<ReplyData>,
    call: InvocationData,
    who: Seq<char>,
)
    requires
        is_sound(t),
    ensures
        stays(
            t,
            more,
            lists::collection_update(t, call, who),
            #[trigger] lists::collection_update(with_more(t, more), call, who),
        ),
{
    broadcast use {steady_need_args, steady_collection_id_resolved, steady_call, group_saying};
}

broadcast proof fn steady_delete_collection(
    t: Talk,
    more: Seq<ReplyData>,
    call: InvocationData,
    who: Seq<char>,
)
    requires
        is_sound(t),
    ensures
        stays(
            t,
            more,
            lists::delete_collection(t, call, who),
            #[trigger] lists::delete_collection(with_more(t, more), call, who),
        ),
{
    broadcast use {steady_need_args, steady_collection_id_resolved, steady_call, group_saying};
}

// ---------------------------------------------------------------------------
// Direct messages
// ---------------------------------------------------------------------------

broadcast proof fn steady_dms_fetched(t: Talk, more: Seq<ReplyData>, number: nat)
    requires
        is_sound(t),
    ensures
        stays(
            t,
            more,
            messages::dms_fetched(t, number),
            #[trigger] messages::dms_fetched(with_more(t, more), number),
        ),
{
    broadcast use {steady_ask_api, steady_call};
}

broadcast proof fn steady_users_completed(
    t: Talk,
    more: Seq<ReplyData>,
    users: Seq<(Seq<char>, Data)>,
    missing: Seq<Seq<char>>,
)
    requires
        is_sound(t),
    ensures
        stays(
            t,
            more,
            messages::users_completed(t, users, missing),
            #[trigger] messages::users_completed(with_more(t, more), users, missing),
        ),
{
    broadcast use steady_users_looked_up;
}

broadcast proof fn steady_direct_messages(
    t: Talk,
    more: Seq<ReplyData>,
    options: OptionsData,
    sent: bool,
)
    requires
        is_sound(t),
    ensures
        stays(
            t,
            more,
            messages::direct_messages(t, options, sent),
            #[trigger] messages::direct_messages(with_more(t, more), options, sent),
        ),
{
    broadcast use {
        steady_dms_fetched, steady_current_user, steady_users_completed, steady_clock_for,
        group_saying,
    };
}

// ---------------------------------------------------------------------------
// Trends and places
// ---------------------------------------------------------------------------

broadcast proof fn steady_trends(t: Talk, more: Seq<ReplyData>, call: InvocationData)
    requires
        is_sound(t),
    ensures
        stays(
            t,
            more,
            places::trends(t, call),
            #[trigger] places::trends(with_more(t, more), call),
        ),
{
    broadcast use {steady_call, group_saying};
}

broadcast proof fn steady_trend_locations(t: Talk, more: Seq<ReplyData>, call: InvocationData)
    requires
        is_sound(t),
    ensures
        stays(
            t,
            more,
            places::trend_locations(t, call),
            #[trigger] places::trend_locations(with_more(t, more), call),
        ),
{
    broadcast use {steady_call, group_saying};
}

broadcast proof fn steady_ip_info(t: Talk, more: Seq<ReplyData>)
    requires
        is_sound(t),
    ensures
        stays(t, more, places::ip_info(t), #[trigger] places::ip_info(with_more(t, more))),
{
    broadcast use {steady_ask_page, steady_ask_json_page};
}

broadcast proof fn steady_my_location(t: Talk, more: Seq<ReplyData>)
    requires
        is_sound(t),
    ensures
        stays(t, more, places::my_location(t), #[trigger] places::my_location(with_more(t, more))),
{
    broadcast use {steady_ip_info, group_saying};
}

broadcast proof fn steady_decimal_or_zero(t: Talk, more: Seq<ReplyData>, text: Seq<char>)
    requires
        is_sound(t),
    ensures
        stays(
            t,
            more,
            places::decimal_or_zero(t, text),
            #[trigger] places::decimal_or_zero(with_more(t, more), text),
        ),
{
    broadcast use steady_ask_text;
}

broadcast proof fn steady_decimals_or_zero(
    t: Talk,
    more: Seq<ReplyData>,
    lat: Seq<char>,
    lng: Seq<char>,
)
    requires
        is_sound(t),
    ensures
        stays(
            t,
            more,
            places::decimals_or_zero(t, lat, lng),
            #[trigger] places::decimals_or_zero(with_more(t, more), lat, lng),
        ),
{
    broadcast use steady_decimal_or_zero;
}

broadcast proof fn steady_ip_coordinates(t: Talk, more: Seq<ReplyData>)
    requires
        is_sound(t),
    ensures
        stays(
            t,
            more,
            places::ip_coordinates(t),
            #[trigger] places::ip_coordinates(with_more(t, more)),
        ),
{
    broadcast use {steady_ip_info, steady_decimals_or_zero};
}

broadcast proof fn steady_address_coordinates(t: Talk, more: Seq<ReplyData>, address: Seq<char>)
    requires
        is_sound(t),
    ensures
        stays(
            t,
            more,
            places::address_coordinates(t, address),
            #[trigger] places::address_coordinates(with_more(t, more), address),
        ),
{
    broadcast use {steady_ask_json_page, steady_decimals_or_zero};
}

broadcast proof fn steady_coordinates(t: Talk, more: Seq<ReplyData>, args: Seq<Seq<char>>)
    requires
        is_sound(t),
    ensures
        stays(
            t,
            more,
            places::coordinates(t, args),
            #[trigger] places::coordinates(with_more(t, more), args),
        ),
{
    broadcast use {steady_ip_coordinates, steady_address_coordinates, steady_ask_text};
}

broadcast proof fn steady_nearby_places(t: Talk, more: Seq<ReplyData>, call: InvocationData)
    requires
        is_sound(t),
    ensures
        stays(
            t,
            more,
            places::nearby_places(t, call),
            #[trigger] places::nearby_places(with_more(t, more), call),
        ),
{
    broadcast use {steady_coordinates, steady_call};
}

broadcast proof fn steady_places(t: Talk, more: Seq<ReplyData>, call: InvocationData)
    requires
        is_sound(t),
    ensures
        stays(
            t,
            more,
            places::places(t, call),
            #[trigger] places::places(with_more(t, more), call),
        ),
{
    broadcast use {steady_need_args, steady_coordinates, steady_call};
}

broadcast proof fn steady_place(t: Talk, more: Seq<ReplyData>, call: InvocationData)
    requires
        is_sound(t),
    ensures
        stays(t, more, places::place(t, call), #[trigger] places::place(with_more(t, more), call)),
{
    broadcast use {steady_need_args, steady_call, group_saying};
}

// ---------------------------------------------------------------------------
// Streams
// ---------------------------------------------------------------------------

broadcast proof fn steady_rules_removed(t: Talk, more: Seq<ReplyData>, ids: Seq<Seq<char>>)
    requires
        is_sound(t),
    ensures
        stays(
            t,
            more,
            stream::rules_removed(t, ids),
            #[trigger] stream::rules_removed(with_more(t, more), ids),
        ),
{
    broadcast use steady_call;
}

broadcast proof fn steady_rules_cleared(t: Talk, more: Seq<ReplyData>)
    requires
        is_sound(t),
    ensures
        stays(
            t,
            more,
            stream::rules_cleared(t),
            #[trigger] stream::rules_cleared(with_more(t, more)),
        ),
{
    broadcast use {steady_call, steady_rules_removed};
}

broadcast proof fn steady_rules_installed(t: Talk, more: Seq<ReplyData>, terms: Seq<Seq<char>>)
    requires
        is_sound(t),
    ensures
        stays(
            t,
            more,
            stream::rules_installed(t, terms),
            #[trigger] stream::rules_installed(with_more(t, more), terms),
        ),
{
    broadcast use {steady_rules_cleared, steady_ask_millis, steady_call};
}

broadcast proof fn steady_stream_limit(t: Talk, more: Seq<ReplyData>)
    requires
        is_sound(t),
    ensures
        stays(
            t,
            more,
            stream::stream_limit(t),
            #[trigger] stream::stream_limit(with_more(t, more)),
        ),
{
    broadcast use steady_ask_text;
}

broadcast proof fn steady_streamed(
    t: Talk,
    more: Seq<ReplyData>,
    kind: StreamKind,
    path: Seq<char>,
    params: Seq<(Seq<char>, Seq<char>)>,
    auth: AuthScheme,
)
    requires
        is_sound(t),
    ensures
        stays(
            t,
            more,
            stream::streamed(t, kind, path, params, auth),
            #[trigger] stream::streamed(with_more(t, more), kind, path, params, auth),
        ),
{
    broadcast use {steady_stream_limit, steady_ask_stream};
}

broadcast proof fn steady_tweets_streamed(
    t: Talk,
    more: Seq<ReplyData>,
    path: Seq<char>,
    params: Seq<(Seq<char>, Seq<char>)>,
    auth: AuthScheme,
    options: OptionsData,
)
    requires
        is_sound(t),
    ensures
        stays(
            t,
            more,
            stream::tweets_streamed(t, path, params, auth, options),
            #[trigger] stream::tweets_streamed(with_more(t, more), path, params, auth, options),
        ),
{
    broadcast use {steady_streamed, group_saying};
}

broadcast proof fn steady_filtered_streamed(
    t: Talk,
    more: Seq<ReplyData>,
    terms: Seq<Seq<char>>,
    options: OptionsData,
)
    requires
        is_sound(t),
    ensures
        stays(
            t,
            more,
            stream::filtered_streamed(t, terms, options),
            #[trigger] stream::filtered_streamed(with_more(t, more), terms, options),
        ),
{
    broadcast use {steady_rules_installed, steady_rules_removed, steady_tweets_streamed};
}

broadcast proof fn steady_matrix_streamed(t: Talk, more: Seq<ReplyData>)
    requires
        is_sound(t),
    ensures
        stays(
            t,
            more,
            stream::matrix_streamed(t),
            #[trigger] stream::matrix_streamed(with_more(t, more)),
        ),
{
    broadcast use {steady_rules_installed, steady_rules_removed, steady_streamed};
}

// ---------------------------------------------------------------------------
// Stream commands
// ---------------------------------------------------------------------------

broadcast proof fn steady_users_streamed(
    t: Talk,
    more: Seq<ReplyData>,
    ids: Seq<Seq<char>>,
    options: OptionsData,
)
    requires
        is_sound(t),
    ensures
        stays(
            t,
            more,
            streaming::users_streamed(t, ids, options),
            #[trigger] streaming::users_streamed(with_more(t, more), ids, options),
        ),
{
    broadcast use {steady_filtered_streamed, steady_tweets_from};
}

broadcast proof fn steady_stream_timeline(t: Talk, more: Seq<ReplyData>, call: InvocationData)
    requires
        is_sound(t),
    ensures
        stays(
            t,
            more,
            streaming::stream_timeline(t, call),
            #[trigger] streaming::stream_timeline(with_more(t, more), call),
        ),
{
    broadcast use {steady_current_user_id, steady_relationship_ids, steady_users_streamed};
}

broadcast proof fn steady_stream_all(t: Talk, more: Seq<ReplyData>, call: InvocationData)
    requires
        is_sound(t),
    ensures
        stays(
            t,
            more,
            streaming::stream_all(t, call),
            #[trigger] streaming::stream_all(with_more(t, more), call),
        ),
{
    broadcast use steady_tweets_streamed;
}

broadcast proof fn steady_stream_search(t: Talk, more: Seq<ReplyData>, call: InvocationData)
    requires
        is_sound(t),
    ensures
        stays(
            t,
            more,
            streaming::stream_search(t, call),
            #[trigger] streaming::stream_search(with_more(t, more), call),
        ),
{
    broadcast use {steady_need_args, steady_filtered_streamed};
}

broadcast proof fn steady_stream_named_users(t: Talk, more: Seq<ReplyData>, call: InvocationData)
    requires
        is_sound(t),
    ensures
        stays(
            t,
            more,
            streaming::stream_named_users(t, call),
            #[trigger] streaming::stream_named_users(with_more(t, more), call),
        ),
{
    broadcast use {steady_need_args, steady_filtered_streamed, steady_tweets_from};
}

broadcast proof fn steady_stream_list(
    t: Talk,
    more: Seq<ReplyData>,
    call: InvocationData,
    who: Seq<char>,
)
    requires
        is_sound(t),
    ensures
        stays(
            t,
            more,
            streaming::stream_list(t, call, who),
            #[trigger] streaming::stream_list(with_more(t, more), call, who),
        ),
{
    broadcast use {
        steady_need_args, steady_list_id_resolved, steady_member_ids, steady_users_streamed,
    };
}

// ---------------------------------------------------------------------------
// Authorization
// ---------------------------------------------------------------------------

broadcast proof fn steady_env_or_prompt(
    t: Talk,
    more: Seq<ReplyData>,
    name: Seq<char>,
    label: Seq<char>,
)
    requires
        is_sound(t),
    ensures
        stays(
            t,
            more,
            authorize::env_or_prompt(t, name, label),
            #[trigger] authorize::env_or_prompt(with_more(t, more), name, label),
        ),
{
    broadcast use {steady_ask_text, steady_prompted};
}

broadcast proof fn steady_first_env(
    t: Talk,
    more: Seq<ReplyData>,
    first: Seq<char>,
    second: Seq<char>,
)
    requires
        is_sound(t),
    ensures
        stays(
            t,
            more,
            authorize::first_env(t, first, second),
            #[trigger] authorize::first_env(with_more(t, more), first, second),
        ),
{
    broadcast use steady_ask_text;
}

broadcast proof fn steady_prompted_with_default(
    t: Talk,
    more: Seq<ReplyData>,
    label: Seq<char>,
    default: Seq<char>,
)
    requires
        is_sound(t),
    ensures
        stays(
            t,
            more,
            authorize::prompted_with_default(t, label, default),
            #[trigger] authorize::prompted_with_default(with_more(t, more), label, default),
        ),
{
    broadcast use steady_prompted;
}

broadcast proof fn steady_opened(t: Talk, more: Seq<ReplyData>, uri: Seq<char>, dry_run: bool)
    requires
        is_sound(t),
    ensures
        stays(
            t,
            more,
            authorize::opened(t, uri, dry_run),
            #[trigger] authorize::opened(with_more(t, more), uri, dry_run),
        ),
{
    broadcast use {steady_ask_browse, group_saying};
}

broadcast proof fn steady_opened_on_enter(
    t: Talk,
    more: Seq<ReplyData>,
    label: Seq<char>,
    uri: Seq<char>,
    dry_run: bool,
)
    requires
        is_sound(t),
    ensures
        stays(
            t,
            more,
            authorize::opened_on_enter(t, label, uri, dry_run),
            #[trigger] authorize::opened_on_enter(with_more(t, more), label, uri, dry_run),
        ),
{
    broadcast use {steady_prompted, steady_opened, group_saying};
}

broadcast proof fn steady_settled<T>(t: Talk, more: Seq<ReplyData>, r: Result<T, ErrorData>)
    requires
        is_sound(t),
    ensures
        stays(
            t,
            more,
            authorize::settled(t, r),
            #[trigger] authorize::settled(with_more(t, more), r),
        ),
{
}

broadcast proof fn steady_tokens_asked(
    t: Talk,
    more: Seq<ReplyData>,
    request: SignedData,
    answer: Seq<char>,
)
    requires
        is_sound(t),
    ensures
        stays(
            t,
            more,
            authorize::tokens_asked(t, request, answer),
            #[trigger] authorize::tokens_asked(with_more(t, more), request, answer),
        ),
{
    broadcast use {steady_ask_signed, steady_settled};
}

broadcast proof fn steady_request_token(
    t: Talk,
    more: Seq<ReplyData>,
    key: Seq<char>,
    secret: Seq<char>,
)
    requires
        is_sound(t),
    ensures
        stays(
            t,
            more,
            authorize::request_token(t, key, secret),
            #[trigger] authorize::request_token(with_more(t, more), key, secret),
        ),
{
    broadcast use steady_tokens_asked;
}

broadcast proof fn steady_access_token(
    t: Talk,
    more: Seq<ReplyData>,
    key: Seq<char>,
    secret: Seq<char>,
    token: (Seq<char>, Seq<char>),
    pin: Seq<char>,
)
    requires
        is_sound(t),
    ensures
        stays(
            t,
            more,
            authorize::access_token(t, key, secret, token, pin),
            #[trigger] authorize::access_token(with_more(t, more), key, secret, token, pin),
        ),
{
    broadcast use steady_tokens_asked;
}

broadcast proof fn steady_verified_name(
    t: Talk,
    more: Seq<ReplyData>,
    key: Seq<char>,
    secret: Seq<char>,
    token: (Seq<char>, Seq<char>),
)
    requires
        is_sound(t),
    ensures
        stays(
            t,
            more,
            authorize::verified_name(t, key, secret, token),
            #[trigger] authorize::verified_name(with_more(t, more), key, secret, token),
        ),
{
    broadcast use steady_ask_api;
}

broadcast proof fn steady_application_keys(
    t: Talk,
    more: Seq<ReplyData>,
    fresh: bool,
    display_uri: bool,
)
    requires
        is_sound(t),
    ensures
        stays(
            t,
            more,
            authorize::application_keys(t, fresh, display_uri),
            #[trigger] authorize::application_keys(with_more(t, more), fresh, display_uri),
        ),
{
    broadcast use {steady_opened_on_enter, steady_env_or_prompt, group_saying};
}

broadcast proof fn steady_pin_asked(
    t: Talk,
    more: Seq<ReplyData>,
    token: Seq<char>,
    display_uri: bool,
)
    requires
        is_sound(t),
    ensures
        stays(
            t,
            more,
            authorize::pin_asked(t, token, display_uri),
            #[trigger] authorize::pin_asked(with_more(t, more), token, display_uri),
        ),
{
    broadcast use {steady_opened_on_enter, steady_env_or_prompt, group_saying};
}

broadcast proof fn steady_account_saved(
    t: Talk,
    more: Seq<ReplyData>,
    key: Seq<char>,
    secret: Seq<char>,
    access: (Seq<char>, Seq<char>, Option<Seq<char>>),
)
    requires
        is_sound(t),
    ensures
        stays(
            t,
            more,
            authorize::account_saved(t, key, secret, access),
            #[trigger] authorize::account_saved(with_more(t, more), key, secret, access),
        ),
{
    broadcast use {steady_verified_name, steady_ask_done, group_saying};
}

broadcast proof fn steady_authorized_oauth1(
    t: Talk,
    more: Seq<ReplyData>,
    book: BookData,
    display_uri: bool,
)
    requires
        is_sound(t),
    ensures
        stays(
            t,
            more,
            authorize::authorized_oauth1(t, book, display_uri),
            #[trigger] authorize::authorized_oauth1(with_more(t, more), book, display_uri),
        ),
{
    broadcast use {
        steady_application_keys, steady_request_token, steady_pin_asked, steady_access_token,
        steady_account_saved,
    };
}

broadcast proof fn steady_client_secret_asked(t: Talk, more: Seq<ReplyData>)
    requires
        is_sound(t),
    ensures
        stays(
            t,
            more,
            authorize::client_secret_asked(t),
            #[trigger] authorize::client_secret_asked(with_more(t, more)),
        ),
{
    broadcast use {steady_first_env, steady_prompted};
}

broadcast proof fn steady_redirect_uri_asked(t: Talk, more: Seq<ReplyData>)
    requires
        is_sound(t),
    ensures
        stays(
            t,
            more,
            authorize::redirect_uri_asked(t),
            #[trigger] authorize::redirect_uri_asked(with_more(t, more)),
        ),
{
    broadcast use {steady_first_env, steady_prompted_with_default};
}

broadcast proof fn steady_client_asked(t: Talk, more: Seq<ReplyData>, display_uri: bool)
    requires
        is_sound(t),
    ensures
        stays(
            t,
            more,
            authorize::client_asked(t, display_uri),
            #[trigger] authorize::client_asked(with_more(t, more), display_uri),
        ),
{
    broadcast use {
        steady_opened_on_enter, steady_first_env, steady_prompted, steady_client_secret_asked,
        steady_redirect_uri_asked, group_saying,
    };
}

broadcast proof fn steady_scopes_asked(t: Talk, more: Seq<ReplyData>)
    requires
        is_sound(t),
    ensures
        stays(
            t,
            more,
            authorize::scopes_asked(t),
            #[trigger] authorize::scopes_asked(with_more(t, more)),
        ),
{
    broadcast use steady_first_env;
}

broadcast proof fn steady_code_asked(
    t: Talk,
    more: Seq<ReplyData>,
    client_id: Seq<char>,
    redirect_uri: Seq<char>,
    scopes: Seq<Seq<char>>,
    state: Seq<char>,
    verifier: Seq<char>,
    display_uri: bool,
)
    requires
        is_sound(t),
    ensures
        stays(
            t,
            more,
            authorize::code_asked(t, client_id, redirect_uri, scopes, state, verifier, display_uri),
            #[trigger] authorize::code_asked(
                with_more(t, more),
                client_id,
                redirect_uri,
                scopes,
                state,
                verifier,
                display_uri,
            ),
        ),
{
    broadcast use {
        steady_settled, steady_opened_on_enter, steady_first_env, steady_prompted, group_saying,
    };
}

broadcast proof fn steady_expiry(t: Talk, more: Seq<ReplyData>, lasts: Option<i64>)
    requires
        is_sound(t),
    ensures
        stays(
            t,
            more,
            authorize::expiry(t, lasts),
            #[trigger] authorize::expiry(with_more(t, more), lasts),
        ),
{
    broadcast use steady_ask_millis;
}

broadcast proof fn steady_code_exchanged(
    t: Talk,
    more: Seq<ReplyData>,
    client_id: Seq<char>,
    client_secret: Option<Seq<char>>,
    redirect_uri: Seq<char>,
    code: Seq<char>,
    verifier: Seq<char>,
    requested: Seq<Seq<char>>,
)
    requires
        is_sound(t),
    ensures
        stays(
            t,
            more,
            authorize::code_exchanged(
                t,
                client_id,
                client_secret,
                redirect_uri,
                code,
                verifier,
                requested,
            ),
            #[trigger] authorize::code_exchanged(
                with_more(t, more),
                client_id,
                client_secret,
                redirect_uri,
                code,
                verifier,
                requested,
            ),
        ),
{
    broadcast use {steady_ask_api, steady_expiry};
}

broadcast proof fn steady_token_owner(t: Talk, more: Seq<ReplyData>, access: Seq<char>)
    requires
        is_sound(t),
    ensures
        stays(
            t,
            more,
            authorize::token_owner(t, access),
            #[trigger] authorize::token_owner(with_more(t, more), access),
        ),
{
    broadcast use steady_ask_api;
}

broadcast proof fn steady_oauth2_saved(
    t: Talk,
    more: Seq<ReplyData>,
    existing: Option<CredentialsData>,
    client_id: Seq<char>,
    user: OAuth2Data,
)
    requires
        is_sound(t),
    ensures
        stays(
            t,
            more,
            authorize::oauth2_saved(t, existing, client_id, user),
            #[trigger] authorize::oauth2_saved(with_more(t, more), existing, client_id, user),
        ),
{
    broadcast use {steady_token_owner, steady_ask_done, group_saying};
}

broadcast proof fn steady_exchanged_and_saved(
    t: Talk,
    more: Seq<ReplyData>,
    existing: Option<CredentialsData>,
    client: (Seq<char>, Option<Seq<char>>, Seq<char>),
    scopes: Seq<Seq<char>>,
    state: Seq<char>,
    verifier: Seq<char>,
    display_uri: bool,
)
    requires
        is_sound(t),
    ensures
        stays(
            t,
            more,
            authorize::exchanged_and_saved(
                t,
                existing,
                client,
                scopes,
                state,
                verifier,
                display_uri,
            ),
            #[trigger] authorize::exchanged_and_saved(
                with_more(t, more),
                existing,
                client,
                scopes,
                state,
                verifier,
                display_uri,
            ),
        ),
{
    broadcast use {steady_code_asked, steady_code_exchanged, steady_oauth2_saved};
}

broadcast proof fn steady_authorized_oauth2(
    t: Talk,
    more: Seq<ReplyData>,
    existing: Option<CredentialsData>,
    display_uri: bool,
)
    requires
        is_sound(t),
    ensures
        stays(
            t,
            more,
            authorize::authorized_oauth2(t, existing, display_uri),
            #[trigger] authorize::authorized_oauth2(with_more(t, more), existing, display_uri),
        ),
{
    broadcast use {
        steady_client_asked, steady_scopes_asked, steady_ask_token, steady_exchanged_and_saved,
    };
}

broadcast proof fn steady_authorized(
    t: Talk,
    more: Seq<ReplyData>,
    options: OptionsData,
    book: BookData,
)
    requires
        is_sound(t),
    ensures
        stays(
            t,
            more,
            authorize::authorized(t, options, book),
            #[trigger] authorize::authorized(with_more(t, more), options, book),
        ),
{
    broadcast use {steady_authorized_oauth2, steady_authorized_oauth1};
}

// ---------------------------------------------------------------------------
// Commands
// ---------------------------------------------------------------------------

broadcast proof fn steady_set_active(t: Talk, more: Seq<ReplyData>, call: InvocationData)
    requires
        is_sound(t),
    ensures
        stays(
            t,
            more,
            command::set_active(t, call),
            #[trigger] command::set_active(with_more(t, more), call),
        ),
{
    broadcast use {steady_need_args, steady_ask_named, group_saying};
}

broadcast proof fn steady_delete_account(t: Talk, more: Seq<ReplyData>, call: InvocationData)
    requires
        is_sound(t),
    ensures
        stays(
            t,
            more,
            command::delete_account(t, call),
            #[trigger] command::delete_account(with_more(t, more), call),
        ),
{
    broadcast use {steady_need_args, steady_ask_done};
}

broadcast proof fn steady_local(
    t: Talk,
    more: Seq<ReplyData>,
    call: InvocationData,
    version: Seq<char>,
)
    requires
        is_sound(t),
    ensures
        stays(
            t,
            more,
            command::local(t, call, version),
            #[trigger] command::local(with_more(t, more), call, version),
        ),
{
    broadcast use {steady_ask_profiles, steady_set_active, steady_delete_account, group_saying};
}

broadcast proof fn steady_performed_in_group(
    t: Talk,
    more: Seq<ReplyData>,
    call: InvocationData,
    book: BookData,
    command: Remote,
)
    requires
        is_sound(t),
    ensures
        stays(
            t,
            more,
            command::performed_in_group(t, call, book, command),
            #[trigger] command::performed_in_group(with_more(t, more), call, book, command),
        ),
{
    broadcast use {
        steady_users_untargeted, steady_delete_favorite, steady_delete_status, steady_delete_dm,
        steady_delete_collection, steady_delete_list, steady_collection_create,
        steady_collection_changed, steady_collection_entries, steady_collection_information,
        steady_collection_update, steady_list_create, steady_list_add, steady_list_remove,
        steady_list_information, steady_list_members, steady_list_timeline, steady_search_all,
        steady_search_timeline, steady_search_mentions, steady_search_favorites,
        steady_search_retweets, steady_search_list, steady_search_users, steady_profile_set,
        steady_set_profile_image, steady_set_background, steady_stream_timeline, steady_stream_all,
        steady_stream_search, steady_matrix_streamed, steady_stream_named_users, steady_stream_list,
        group_saying,
    };
}

broadcast proof fn steady_performed_alone(
    t: Talk,
    more: Seq<ReplyData>,
    call: InvocationData,
    book: BookData,
    command: Remote,
)
    requires
        is_sound(t),
    ensures
        stays(
            t,
            more,
            command::performed_alone(t, call, book, command),
            #[trigger] command::performed_alone(with_more(t, more), call, book, command),
        ),
{
    broadcast use {
        steady_authorized, steady_bookmark, steady_bookmarks, steady_open, steady_block,
        steady_mute, steady_follow, steady_users_untargeted, steady_unbookmark, steady_report_spam,
        steady_tweets_posted, steady_dm, steady_update, steady_reply, steady_does_follow,
        steady_does_contain, steady_reach, steady_matrix_streamed, steady_direct_messages,
        steady_favorites, steady_mentions, steady_retweets, steady_retweets_of_me, steady_timeline,
        steady_status, steady_users, steady_whois, steady_whoami, steady_related,
        steady_circle_shown, steady_followings_following, steady_intersection_shown,
        steady_own_users, steady_lists, steady_collections, steady_trends, steady_my_location,
        steady_nearby_places, steady_place, steady_places, steady_trend_locations,
        steady_performed_in_group,
    };
}

broadcast proof fn steady_remote(t: Talk, more: Seq<ReplyData>, call: InvocationData)
    requires
        is_sound(t),
    ensures
        stays(
            t,
            more,
            command::remote(t, call),
            #[trigger] command::remote(with_more(t, more), call),
        ),
{
    broadcast use {steady_ask_profiles, steady_performed_alone};
}

broadcast proof fn steady_credentials_kept(
    t: Talk,
    more: Seq<ReplyData>,
    active: Option<(Seq<char>, Seq<char>)>,
    loaded: CredentialsData,
)
    requires
        is_sound(t),
    ensures
        stays(
            t,
            more,
            command::credentials_kept(t, active, loaded),
            #[trigger] command::credentials_kept(with_more(t, more), active, loaded),
        ),
{
    broadcast use {steady_ask_credentials, steady_ask_attempt};
}

broadcast proof fn steady_remote_for_account(t: Talk, more: Seq<ReplyData>, call: InvocationData)
    requires
        is_sound(t),
    ensures
        stays(
            t,
            more,
            command::remote_for_account(t, call),
            #[trigger] command::remote_for_account(with_more(t, more), call),
        ),
{
    broadcast use {steady_ask_profiles, steady_ask_stream, steady_credentials_kept, steady_remote};
}

broadcast proof fn steady_command(
    t: Talk,
    more: Seq<ReplyData>,
    call: InvocationData,
    version: Seq<char>,
    connected: bool,
)
    requires
        is_sound(t),
    ensures
        stays(
            t,
            more,
            command::command(t, call, version, connected),
            #[trigger] command::command(with_more(t, more), call, version, connected),
        ),
{
    broadcast use {steady_local, steady_remote, steady_remote_for_account};
}

/// A command that came to its end comes to the same end, with the same sayings, however many more
/// replies are known. One that stops to ask has used all replies, so that what it asks for is the
/// reply that comes next.
pub proof fn law_commands_are_steady(
    replies: Seq<ReplyData>,
    more: Seq<ReplyData>,
    call: InvocationData,
    version: Seq<char>,
    connected: bool,
)
    ensures
        ({
            let start = Talk { replies, next: 0, said: Seq::empty(), asked: Seq::empty() };
            let step = command::command(start, call, version, connected);
            let again = command::command(with_more(start, more), call, version, connected);
            &&& step.0.next <= replies.len()
            &&& match step.1 {
                Err(StopData::Ask(a)) => step.0.next == replies.len(),
                _ => again.0.next == step.0.next && again.0.said == step.0.said && again.1
                    == step.1,
            }
        }),
{
    let start = Talk { replies, next: 0, said: Seq::empty(), asked: Seq::empty() };
    steady_command(start, more, call, version, connected);
}

} // verus!
