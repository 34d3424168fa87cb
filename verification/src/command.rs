//! Running a command.

use vstd::prelude::*;

use crate::act::{
    block, bookmark, delete_dm, delete_favorite, delete_status, dm, follow, mute, profile_set,
    reply, report_spam, run_block, run_bookmark, run_delete_block, run_delete_dm,
    run_delete_favorite, run_delete_mute, run_delete_status, run_dm, run_favorite, run_follow,
    run_mute, run_open, run_profile_set, run_reply, run_report_spam, run_retweet,
    run_set_background, run_set_profile_image, run_unbookmark, run_unfollow, run_update,
    set_background, set_profile_image, tweets_posted, unbookmark, update, users_untargeted,
};
use crate::authorize::{authorized, run_authorize};
use crate::fetch::{has_user_context};
use crate::invocation::{arg_at, get_arg, Invocation, InvocationData};
use crate::list::{extend_by, spread, spread_list};
use crate::lists::{
    collection_changed, collection_create, collection_entries, collection_information,
    collection_update, collections, delete_collection, delete_list, list_add, list_create,
    list_information, list_members, list_remove, list_timeline, lists, run_collection_add,
    run_collection_create, run_collection_entries, run_collection_information,
    run_collection_remove, run_collection_update, run_collections, run_delete_collection,
    run_delete_list, run_list_add, run_list_create, run_list_information, run_list_members,
    run_list_remove, run_list_timeline, run_lists,
};
use crate::messages::{direct_messages, handle_direct_messages};
use crate::options::{opt_usize_or};
use crate::paths::{classify_local, classify_remote, local_at, remote_at, Local, Remote};
use crate::people::{
    circle_shown, does_contain, does_follow, ended, followings_following, intersection_shown,
    own_users, reach, related, run_circle, run_does_contain, run_does_follow,
    run_followings_following, run_intersection, run_own_users, run_reach, run_related,
    run_search_users, run_users, run_whoami, run_whois, search_users, users, whoami, whois, Circle,
};
use crate::places::{
    my_location, nearby_places, place, places, run_my_location, run_nearby_places, run_place,
    run_places, run_trend_locations, run_trends, trend_locations, trends,
};
use crate::present::{ensure_min_args, need_args};
use crate::ruler::{numbered_ruler_line, ruler_line};
use crate::session::{
    active_profile_name_or_unknown, ask_attempt, ask_credentials, ask_done, ask_named, ask_profiles,
    ask_stream, bind, both, done, fail, say, say_all, say_err, unit, Ask, AskData, BackendError,
    BookData, CommandError, Credentials, CredentialsData, ErrorData, FaultData, OAuth2User,
    ProfileBook, Session, Step, Stop, StopData, Talk,
};
use crate::stream::{matrix_streamed, run_matrix_stream};
use crate::streaming::{
    run_stream_all, run_stream_list, run_stream_search, run_stream_timeline, run_stream_users,
    stream_all, stream_list, stream_named_users, stream_search, stream_timeline,
};
use crate::text::{blank, cat2, cat3, eq_ignore_ascii_case, join, joined, lowered, same, spaces};
use crate::timelines::{
    bookmarks, favorites, mentions, retweets, retweets_of_me, run_bookmarks, run_favorites,
    run_mentions, run_retweets, run_retweets_of_me, run_search_all, run_search_favorites,
    run_search_list, run_search_mentions, run_search_retweets, run_search_timeline, run_status,
    run_timeline, search_all, search_favorites, search_list, search_mentions, search_retweets,
    search_timeline, status, timeline,
};

verus! {

// ---------------------------------------------------------------------------
// Commands that need the configuration file at most
// ---------------------------------------------------------------------------

/// Whether a key of an account is the active one.
pub open spec fn is_active(
    active: Option<(Seq<char>, Seq<char>)>,
    name: Seq<char>,
    key: Seq<char>,
) -> bool {
    match active {
        Some((n, k)) => lowered(n) == lowered(name) && lowered(k) == lowered(key),
        None => false,
    }
}

pub open spec fn key_line(
    active: Option<(Seq<char>, Seq<char>)>,
    name: Seq<char>,
    key: Seq<char>,
) -> Seq<char> {
    if is_active(active, name, key) {
        "  "@ + key + " (active)"@
    } else {
        "  "@ + key
    }
}

/// The lines for an account: its name, and its keys.
pub open spec fn profile_lines(
    active: Option<(Seq<char>, Seq<char>)>,
    profile: (Seq<char>, Seq<Seq<char>>),
) -> Seq<Seq<char>> {
    seq![profile.0] + profile.1.map_values(|key: Seq<char>| key_line(active, profile.0, key))
}

fn print_profile(active: &Option<(String, String)>, profile: &(String, Vec<String>)) -> (r: Vec<
    String,
>)
    ensures
        r.deep_view() == profile_lines(active.deep_view(), profile.deep_view()),
{
    let ghost keys = profile.1.deep_view();
    let ghost f = |key: Seq<char>| key_line(active.deep_view(), profile.0@, key);
    let mut lines: Vec<String> = vec![profile.0.clone()];
    assert(lines.deep_view() =~= seq![profile.0@]);
    let mut i: usize = 0;
    assert(lines.deep_view() =~= seq![profile.0@] + keys.take(0).map_values(f));
    while i < profile.1.len()
        invariant
            i <= profile.1@.len(),
            keys == profile.1.deep_view(),
            f == (|key: Seq<char>| key_line(active.deep_view(), profile.0@, key)),
            lines.deep_view() == seq![profile.0@] + keys.take(i as int).map_values(f),
        decreases profile.1@.len() - i,
    {
        proof {
            crate::list::lemma_mapped_step(keys, i as int, f);
        }
        assert(keys[i as int] == profile.1@[i as int]@);
        let key = profile.1[i].as_str();
        let is_active = match active {
            Some((n, k)) => eq_ignore_ascii_case(n.as_str(), profile.0.as_str())
                && eq_ignore_ascii_case(k.as_str(), key),
            None => false,
        };
        let line = if is_active {
            cat3("  ", key, " (active)")
        } else {
            cat2("  ", key)
        };
        extend_by(&mut lines, line);
        i += 1;
        assert(lines.deep_view() =~= seq![profile.0@] + keys.take(i as int).map_values(f));
    }
    assert(keys.take(i as int) =~= keys);
    lines
}

/// The lines for all accounts.
pub open spec fn accounts_lines(book: BookData) -> Seq<Seq<char>> {
    spread(
        book.profiles,
        |profile: (Seq<char>, Seq<Seq<char>>)| profile_lines(book.active, profile),
    )
}

pub fn print_accounts(book: &ProfileBook) -> (r: Vec<String>)
    ensures
        r.deep_view() == accounts_lines(book.deep_view()),
{
    let print = |profile: &(String, Vec<String>)| -> (r: Vec<String>)
        ensures
            r.deep_view() == profile_lines(book.active.deep_view(), profile.deep_view()),
    {
        print_profile(&book.active, profile)
    };
    spread_list(
        &book.profiles,
        print,
        Ghost(
            |profile: (Seq<char>, Seq<Seq<char>>)|
                profile_lines(book.active.deep_view(), profile),
        ),
    )
}

pub open spec fn set_active(t: Talk, call: InvocationData) -> Step<Option<i32>> {
    bind(
        need_args(t, call.path, call.args, 1),
        |t: Talk, u: ()|
            bind(
                ask_named(
                    t,
                    AskData::SetActive { user: call.args[0], key: arg_at(call.args, 1) },
                ),
                |t: Talk, name: Seq<char>|
                    done(
                        say(t, "Active account has been updated to "@ + name + "."@),
                        Some(0i32),
                    ),
            ),
    )
}

fn run_set_active(s: &mut Session, call: &Invocation) -> (r: Result<Option<i32>, Stop>)
    ensures
        (final(s).talk(), both(r)) == set_active(old(s).talk(), call@),
{
    ensure_min_args(&call.path, &call.args, 1)?;
    assert(call@.args[0] == call.args@[0]@);
    let key = match get_arg(&call.args, 1) {
        Some(k) => Some(k.clone()),
        None => None,
    };
    let name = s.named(Ask::SetActive { user: call.args[0].clone(), key })?;
    s.say(cat3("Active account has been updated to ", name.as_str(), "."));
    Ok(Some(0))
}

pub open spec fn delete_account(t: Talk, call: InvocationData) -> Step<Option<i32>> {
    bind(
        need_args(t, call.path, call.args, 1),
        |t: Talk, u: ()|
            bind(
                ask_done(
                    t,
                    AskData::DeleteAccount { user: call.args[0], key: arg_at(call.args, 1) },
                ),
                |t: Talk, u: ()| done(t, Some(0i32)),
            ),
    )
}

fn run_delete_account(s: &mut Session, call: &Invocation) -> (r: Result<Option<i32>, Stop>)
    ensures
        (final(s).talk(), both(r)) == delete_account(old(s).talk(), call@),
{
    ensure_min_args(&call.path, &call.args, 1)?;
    assert(call@.args[0] == call.args@[0]@);
    let key = match get_arg(&call.args, 1) {
        Some(k) => Some(k.clone()),
        None => None,
    };
    s.done(Ask::DeleteAccount { user: call.args[0].clone(), key })?;
    Ok(Some(0))
}

/// A command that needs the configuration file at most; nothing where the path leads to another.
pub open spec fn local(t: Talk, call: InvocationData, version: Seq<char>) -> Step<Option<i32>> {
    match local_at(call.path) {
        Local::Version => done(say(t, version), Some(0i32)),
        Local::Ruler => done(
            say(t, spaces(call.options.number_or("indent"@, 0) as int) + ruler_line()),
            Some(0i32),
        ),
        Local::Accounts => bind(
            ask_profiles(t),
            |t: Talk, book: BookData| done(say_all(t, accounts_lines(book)), Some(0i32)),
        ),
        Local::SetActive => set_active(t, call),
        Local::DeleteAccount => delete_account(t, call),
        Local::Other => done(t, None),
    }
}

pub fn execute_local_command(s: &mut Session, call: &Invocation, version: &str) -> (r: Result<
    Option<i32>,
    Stop,
>)
    ensures
        (final(s).talk(), both(r)) == local(old(s).talk(), call@, version@),
{
    match classify_local(&call.path) {
        Local::Version => {
            s.say(version.to_owned());
            Ok(Some(0))
        },
        Local::Ruler => {
            let indent: usize = opt_usize_or(&call.options, "indent", 0);
            s.say(cat2(blank(indent).as_str(), numbered_ruler_line().as_str()));
            Ok(Some(0))
        },
        Local::Accounts => {
            let book = s.profiles()?;
            s.say_lines(print_accounts(&book));
            Ok(Some(0))
        },
        Local::SetActive => run_set_active(s, call),
        Local::DeleteAccount => run_delete_account(s, call),
        Local::Other => Ok(None),
    }
}

// ---------------------------------------------------------------------------
// Commands that talk to the API
// ---------------------------------------------------------------------------

/// What is said of a path that leads to no command.
pub open spec fn unsupported(path: Seq<Seq<char>>) -> Seq<char> {
    "Unsupported command path '"@ + joined(path, " "@)
        + "'. If this is a legacy alias, run `x --help` to inspect available commands."@
}

/// A command of one name.
pub open spec fn performed_alone(
    t: Talk,
    call: InvocationData,
    book: BookData,
    command: Remote,
) -> Step<i32> {
    let who = book.active_name();
    let with_context = has_user_context(book.credentials);
    match command {
        Remote::Authorize => ended(authorized(t, call.options, book)),
        Remote::Bookmark => bookmark(t, call, who),
        Remote::Bookmarks => bookmarks(t, call),
        Remote::Open => crate::act::open(t, call),
        Remote::Block => block(t, call, who),
        Remote::Mute => mute(t, call, who),
        Remote::Follow => follow(t, call, who),
        Remote::Unfollow => users_untargeted(
            t,
            call,
            who,
            "/following/"@,
            " is no longer following "@,
        ),
        Remote::Unbookmark => unbookmark(t, call, who),
        Remote::ReportSpam => report_spam(t, call, who),
        Remote::Favorite => tweets_posted(t, call, who, "/likes"@, " favorited "@),
        Remote::Retweet => tweets_posted(t, call, who, "/retweets"@, " retweeted "@),
        Remote::Dm => dm(t, call, who),
        Remote::Update => update(t, call, who),
        Remote::Reply => reply(t, call, who),
        Remote::DoesFollow => does_follow(t, call, who),
        Remote::DoesContain => does_contain(t, call, who),
        Remote::Reach => reach(t, call),
        Remote::Matrix => ended(matrix_streamed(t)),
        Remote::DirectMessages => ended(direct_messages(t, call.options, false)),
        Remote::DirectMessagesSent => ended(direct_messages(t, call.options, true)),
        Remote::Favorites => favorites(t, call, who),
        Remote::Mentions => mentions(t, call, with_context),
        Remote::Retweets => retweets(t, call),
        Remote::RetweetsOfMe => retweets_of_me(t, call),
        Remote::Timeline => timeline(t, call, with_context),
        Remote::Status => status(t, call),
        Remote::Users => users(t, call),
        Remote::Whois => whois(t, call),
        Remote::Whoami => whoami(t, call, book.active is Some, with_context),
        Remote::Followings => related(t, call, who, "following"@),
        Remote::Followers => related(t, call, who, "followers"@),
        Remote::Friends => circle_shown(t, call, who, Circle::Friends),
        Remote::Groupies => circle_shown(t, call, who, Circle::Groupies),
        Remote::Leaders => circle_shown(t, call, who, Circle::Leaders),
        Remote::FollowingsFollowing => followings_following(t, call),
        Remote::Intersection => intersection_shown(t, call, who),
        Remote::Blocks => own_users(t, call, "/blocking"@),
        Remote::Muted => own_users(t, call, "/muting"@),
        Remote::Lists => lists(t, call, who),
        Remote::Collections => collections(t, call, who),
        Remote::Trends => trends(t, call),
        Remote::MyLocation => my_location(t),
        Remote::NearbyPlaces => nearby_places(t, call),
        Remote::Place => place(t, call),
        Remote::Places => places(t, call),
        Remote::TrendLocations => trend_locations(t, call),
        _ => performed_in_group(t, call, book, command),
    }
}

/// A command of a group.
pub open spec fn performed_in_group(
    t: Talk,
    call: InvocationData,
    book: BookData,
    command: Remote,
) -> Step<i32> {
    let who = book.active_name();
    let with_context = has_user_context(book.credentials);
    match command {
        Remote::DeleteBlock => users_untargeted(t, call, who, "/blocking/"@, " unblocked "@),
        Remote::DeleteMute => users_untargeted(t, call, who, "/muting/"@, " unmuted "@),
        Remote::DeleteFavorite => delete_favorite(t, call),
        Remote::DeleteStatus => delete_status(t, call, who),
        Remote::DeleteDm => delete_dm(t, call),
        Remote::DeleteCollection => delete_collection(t, call, who),
        Remote::DeleteList => delete_list(t, call, who),
        Remote::CollectionCreate => collection_create(t, call, who),
        Remote::CollectionAdd => collection_changed(
            t,
            call,
            who,
            "/1.1/collections/entries/add.json"@,
            " added "@,
            " to the collection."@,
        ),
        Remote::CollectionEntries => collection_entries(t, call, who),
        Remote::CollectionInformation => collection_information(t, call, who),
        Remote::CollectionRemove => collection_changed(
            t,
            call,
            who,
            "/1.1/collections/entries/remove.json"@,
            " removed "@,
            " from the collection."@,
        ),
        Remote::CollectionUpdate => collection_update(t, call, who),
        Remote::ListCreate => list_create(t, call, who),
        Remote::ListAdd => list_add(t, call, who),
        Remote::ListRemove => list_remove(t, call, who),
        Remote::ListInformation => list_information(t, call, who),
        Remote::ListMembers => list_members(t, call, who),
        Remote::ListTimeline => list_timeline(t, call, who),
        Remote::SearchAll => search_all(t, call),
        Remote::SearchTimeline => search_timeline(t, call, with_context),
        Remote::SearchMentions => search_mentions(t, call, with_context),
        Remote::SearchFavorites => search_favorites(t, call, who),
        Remote::SearchRetweets => search_retweets(t, call),
        Remote::SearchList => search_list(t, call, who),
        Remote::SearchUsers => search_users(t, call),
        Remote::SetBio => profile_set(
            t,
            call,
            who,
            "/1.1/account/update_profile.json"@,
            "description"@,
            true,
            "bio"@,
        ),
        Remote::SetLanguage => profile_set(
            t,
            call,
            who,
            "/1.1/account/settings.json"@,
            "lang"@,
            false,
            "language"@,
        ),
        Remote::SetLocation => profile_set(
            t,
            call,
            who,
            "/1.1/account/update_profile.json"@,
            "location"@,
            true,
            "location"@,
        ),
        Remote::SetName => profile_set(
            t,
            call,
            who,
            "/1.1/account/update_profile.json"@,
            "name"@,
            true,
            "name"@,
        ),
        Remote::SetProfileLinkColor => profile_set(
            t,
            call,
            who,
            "/1.1/account/update_profile.json"@,
            "profile_link_color"@,
            false,
            "profile link color"@,
        ),
        Remote::SetWebsite => profile_set(
            t,
            call,
            who,
            "/1.1/account/update_profile.json"@,
            "url"@,
            false,
            "website"@,
        ),
        Remote::SetProfileImage => set_profile_image(t, call, who),
        Remote::SetProfileBackgroundImage => set_background(t, call, who),
        Remote::StreamTimeline => stream_timeline(t, call),
        Remote::StreamAll => stream_all(t, call),
        Remote::StreamSearch => stream_search(t, call),
        Remote::StreamMatrix => ended(matrix_streamed(t)),
        Remote::StreamUsers => stream_named_users(t, call),
        Remote::StreamList => stream_list(t, call, who),
        _ => done(say_err(t, unsupported(call.path)), 2i32),
    }
}

/// A command that talks to the API, on the accounts as the configuration file has them.
pub open spec fn remote(t: Talk, call: InvocationData) -> Step<i32> {
    bind(
        ask_profiles(t),
        |t: Talk, book: BookData| performed_alone(t, call, book, remote_at(call.path)),
    )
}

fn perform_alone(s: &mut Session, call: &Invocation, book: &ProfileBook, command: Remote) -> (r:
    Result<i32, Stop>)
    ensures
        (final(s).talk(), both(r)) == performed_alone(
            old(s).talk(),
            call@,
            book.deep_view(),
            command,
        ),
{
    let name = active_profile_name_or_unknown(book);
    let who = name.as_str();
    let user_context = holds_user_context(book);
    match command {
        Remote::Authorize => {
            run_authorize(s, &call.options, book)?;
            Ok(0)
        },
        Remote::Bookmark => run_bookmark(s, call, who),
        Remote::Bookmarks => run_bookmarks(s, call),
        Remote::Open => run_open(s, call),
        Remote::Block => run_block(s, call, who),
        Remote::Mute => run_mute(s, call, who),
        Remote::Follow => run_follow(s, call, who),
        Remote::Unfollow => run_unfollow(s, call, who),
        Remote::Unbookmark => run_unbookmark(s, call, who),
        Remote::ReportSpam => run_report_spam(s, call, who),
        Remote::Favorite => run_favorite(s, call, who),
        Remote::Retweet => run_retweet(s, call, who),
        Remote::Dm => run_dm(s, call, who),
        Remote::Update => run_update(s, call, who),
        Remote::Reply => run_reply(s, call, who),
        Remote::DoesFollow => run_does_follow(s, call, who),
        Remote::DoesContain => run_does_contain(s, call, who),
        Remote::Reach => run_reach(s, call),
        Remote::Matrix => {
            run_matrix_stream(s)?;
            Ok(0)
        },
        Remote::DirectMessages => {
            handle_direct_messages(s, &call.options, false)?;
            Ok(0)
        },
        Remote::DirectMessagesSent => {
            handle_direct_messages(s, &call.options, true)?;
            Ok(0)
        },
        Remote::Favorites => run_favorites(s, call, who),
        Remote::Mentions => run_mentions(s, call, user_context),
        Remote::Retweets => run_retweets(s, call),
        Remote::RetweetsOfMe => run_retweets_of_me(s, call),
        Remote::Timeline => run_timeline(s, call, user_context),
        Remote::Status => run_status(s, call),
        Remote::Users => run_users(s, call),
        Remote::Whois => run_whois(s, call),
        Remote::Whoami => run_whoami(s, call, book.active.is_some(), user_context),
        Remote::Followings => run_related(s, call, who, "following"),
        Remote::Followers => run_related(s, call, who, "followers"),
        Remote::Friends => run_circle(s, call, who, Circle::Friends),
        Remote::Groupies => run_circle(s, call, who, Circle::Groupies),
        Remote::Leaders => run_circle(s, call, who, Circle::Leaders),
        Remote::FollowingsFollowing => run_followings_following(s, call),
        Remote::Intersection => run_intersection(s, call, who),
        Remote::Blocks => run_own_users(s, call, "/blocking"),
        Remote::Muted => run_own_users(s, call, "/muting"),
        Remote::Lists => run_lists(s, call, who),
        Remote::Collections => run_collections(s, call, who),
        Remote::Trends => run_trends(s, call),
        Remote::MyLocation => run_my_location(s),
        Remote::NearbyPlaces => run_nearby_places(s, call),
        Remote::Place => run_place(s, call),
        Remote::Places => run_places(s, call),
        Remote::TrendLocations => run_trend_locations(s, call),
        _ => perform_in_group(s, call, book, command),
    }
}

fn perform_in_group(s: &mut Session, call: &Invocation, book: &ProfileBook, command: Remote) -> (r:
    Result<i32, Stop>)
    ensures
        (final(s).talk(), both(r)) == performed_in_group(
            old(s).talk(),
            call@,
            book.deep_view(),
            command,
        ),
{
    let name = active_profile_name_or_unknown(book);
    let who = name.as_str();
    let user_context = holds_user_context(book);
    match command {
        Remote::DeleteBlock => run_delete_block(s, call, who),
        Remote::DeleteMute => run_delete_mute(s, call, who),
        Remote::DeleteFavorite => run_delete_favorite(s, call),
        Remote::DeleteStatus => run_delete_status(s, call, who),
        Remote::DeleteDm => run_delete_dm(s, call),
        Remote::DeleteCollection => run_delete_collection(s, call, who),
        Remote::DeleteList => run_delete_list(s, call, who),
        Remote::CollectionCreate => run_collection_create(s, call, who),
        Remote::CollectionAdd => run_collection_add(s, call, who),
        Remote::CollectionEntries => run_collection_entries(s, call, who),
        Remote::CollectionInformation => run_collection_information(s, call, who),
        Remote::CollectionRemove => run_collection_remove(s, call, who),
        Remote::CollectionUpdate => run_collection_update(s, call, who),
        Remote::ListCreate => run_list_create(s, call, who),
        Remote::ListAdd => run_list_add(s, call, who),
        Remote::ListRemove => run_list_remove(s, call, who),
        Remote::ListInformation => run_list_information(s, call, who),
        Remote::ListMembers => run_list_members(s, call, who),
        Remote::ListTimeline => run_list_timeline(s, call, who),
        Remote::SearchAll => run_search_all(s, call),
        Remote::SearchTimeline => run_search_timeline(s, call, user_context),
        Remote::SearchMentions => run_search_mentions(s, call, user_context),
        Remote::SearchFavorites => run_search_favorites(s, call, who),
        Remote::SearchRetweets => run_search_retweets(s, call),
        Remote::SearchList => run_search_list(s, call, who),
        Remote::SearchUsers => run_search_users(s, call),
        Remote::SetBio => run_profile_set(
            s,
            call,
            who,
            "/1.1/account/update_profile.json",
            "description",
            true,
            "bio",
        ),
        Remote::SetLanguage => run_profile_set(
            s,
            call,
            who,
            "/1.1/account/settings.json",
            "lang",
            false,
            "language",
        ),
        Remote::SetLocation => run_profile_set(
            s,
            call,
            who,
            "/1.1/account/update_profile.json",
            "location",
            true,
            "location",
        ),
        Remote::SetName => run_profile_set(
            s,
            call,
            who,
            "/1.1/account/update_profile.json",
            "name",
            true,
            "name",
        ),
        Remote::SetProfileLinkColor => run_profile_set(
            s,
            call,
            who,
            "/1.1/account/update_profile.json",
            "profile_link_color",
            false,
            "profile link color",
        ),
        Remote::SetWebsite => run_profile_set(
            s,
            call,
            who,
            "/1.1/account/update_profile.json",
            "url",
            false,
            "website",
        ),
        Remote::SetProfileImage => run_set_profile_image(s, call, who),
        Remote::SetProfileBackgroundImage => run_set_background(s, call, who),
        Remote::StreamTimeline => run_stream_timeline(s, call),
        Remote::StreamAll => run_stream_all(s, call),
        Remote::StreamSearch => run_stream_search(s, call),
        Remote::StreamMatrix => {
            run_matrix_stream(s)?;
            Ok(0)
        },
        Remote::StreamUsers => run_stream_users(s, call),
        Remote::StreamList => run_stream_list(s, call, who),
        _ => {
            s.say_err(
                cat3(
                    "Unsupported command path '",
                    join(&call.path, " ").as_str(),
                    "'. If this is a legacy alias, run `x --help` to inspect available commands.",
                ),
            );
            Ok(2)
        },
    }
}

fn holds_user_context(book: &ProfileBook) -> (r: bool)
    ensures
        r == has_user_context(book.deep_view().credentials),
{
    match &book.credentials {
        Some(c) => c.oauth2_user.is_some(),
        None => false,
    }
}

pub fn execute_remote_command(s: &mut Session, call: &Invocation) -> (r: Result<i32, Stop>)
    ensures
        (final(s).talk(), both(r)) == remote(old(s).talk(), call@),
{
    let book = s.profiles()?;
    perform_alone(s, call, &book, classify_remote(&call.path))
}

// ---------------------------------------------------------------------------
// The account that a command runs for
// ---------------------------------------------------------------------------

fn same_options(a: &Option<String>, b: &Option<String>) -> (r: bool)
    ensures
        r == (a.deep_view() == b.deep_view()),
{
    match (a, b) {
        (Some(x), Some(y)) => same(x.as_str(), y.as_str()),
        (None, None) => true,
        _ => false,
    }
}

fn same_texts(a: &Vec<String>, b: &Vec<String>) -> (r: bool)
    ensures
        r == (a.deep_view() == b.deep_view()),
{
    let ghost x = a.deep_view();
    let ghost y = b.deep_view();
    assert(x.len() == a@.len() && y.len() == b@.len());
    if a.len() != b.len() {
        return false;
    }
    let mut i: usize = 0;
    while i < a.len()
        invariant
            i <= a@.len(),
            a@.len() == b@.len(),
            x == a.deep_view(),
            y == b.deep_view(),
            forall|k: int| 0 <= k < i ==> x[k] == y[k],
        decreases a@.len() - i,
    {
        assert(x[i as int] == a@[i as int]@ && y[i as int] == b@[i as int]@);
        if !same(a[i].as_str(), b[i].as_str()) {
            return false;
        }
        i += 1;
    }
    assert(x =~= y);
    true
}

fn same_context(a: &OAuth2User, b: &OAuth2User) -> (r: bool)
    ensures
        r == (a.deep_view() == b.deep_view()),
{
    same(a.client_id.as_str(), b.client_id.as_str()) && same_options(
        &a.client_secret,
        &b.client_secret,
    ) && same(a.access_token.as_str(), b.access_token.as_str()) && same_options(
        &a.refresh_token,
        &b.refresh_token,
    ) && same_instant(a.expires_at, b.expires_at) && same_texts(&a.scopes, &b.scopes)
}

fn same_instant(a: Option<i64>, b: Option<i64>) -> (r: bool)
    ensures
        r == (a == b),
{
    match (a, b) {
        (Some(x), Some(y)) => x == y,
        (None, None) => true,
        _ => false,
    }
}

pub fn same_credentials(a: &Credentials, b: &Credentials) -> (r: bool)
    ensures
        r == (a.deep_view() == b.deep_view()),
{
    let contexts = match (&a.oauth2_user, &b.oauth2_user) {
        (Some(x), Some(y)) => same_context(x, y),
        (None, None) => true,
        _ => false,
    };
    contexts && same(a.username.as_str(), b.username.as_str()) && same(
        a.consumer_key.as_str(),
        b.consumer_key.as_str(),
    ) && same(a.consumer_secret.as_str(), b.consumer_secret.as_str()) && same(
        a.token.as_str(),
        b.token.as_str(),
    ) && same(a.secret.as_str(), b.secret.as_str()) && same_options(
        &a.bearer_token,
        &b.bearer_token,
    )
}

/// Stores the credentials where they are no longer those that the command began with.
pub open spec fn credentials_kept(
    t: Talk,
    active: Option<(Seq<char>, Seq<char>)>,
    loaded: CredentialsData,
) -> Step<()> {
    bind(
        ask_credentials(t),
        |t: Talk, now: CredentialsData|
            match active {
                Some((name, key)) => if now != loaded {
                    ask_attempt(
                        t,
                        AskData::StoreCredentials { name, storage_key: key, credentials: now },
                    )
                } else {
                    done(t, ())
                },
                None => done(t, ()),
            },
    )
}

fn keep_credentials(s: &mut Session, active: &Option<(String, String)>, loaded: &Credentials) -> (r:
    Result<(), Stop>)
    ensures
        (final(s).talk(), unit(r)) == credentials_kept(
            old(s).talk(),
            active.deep_view(),
            loaded.deep_view(),
        ),
{
    let now = s.refreshed()?;
    match active {
        Some((name, key)) => if same_credentials(&now, loaded) {
            Ok(())
        } else {
            s.attempt(
                Ask::StoreCredentials {
                    name: name.clone(),
                    storage_key: key.clone(),
                    credentials: now,
                },
            )
        },
        None => Ok(()),
    }
}

/// Once a command has come to its end, renewed credentials are stored; that counts for a command
/// that failed as well.
pub open spec fn kept_after(
    step: Step<i32>,
    active: Option<(Seq<char>, Seq<char>)>,
    loaded: CredentialsData,
) -> Step<i32> {
    match step.1 {
        Err(StopData::Ask(a)) => step,
        outcome => {
            let kept = credentials_kept(step.0, active, loaded);
            match kept.1 {
                Ok(u) => (kept.0, outcome),
                Err(stop) => (kept.0, Err(stop)),
            }
        },
    }
}

/// A command that talks to the API for the active account.
pub open spec fn remote_for_account(t: Talk, call: InvocationData) -> Step<i32> {
    bind(
        ask_profiles(t),
        |t: Talk, book: BookData|
            match book.credentials {
                None => fail(t, ErrorData::Backend(FaultData::MissingCredentials)),
                Some(credentials) => bind(
                    ask_stream(t, AskData::Connect(credentials)),
                    |t: Talk, r: Result<(), FaultData>|
                        match r {
                            Err(e) => fail(t, ErrorData::Backend(e)),
                            Ok(u) => kept_after(remote(t, call), book.active, credentials),
                        },
                ),
            },
    )
}

pub fn execute_remote_with_profile_backend(s: &mut Session, call: &Invocation) -> (r: Result<
    i32,
    Stop,
>)
    ensures
        (final(s).talk(), both(r)) == remote_for_account(old(s).talk(), call@),
{
    let book = s.profiles()?;
    let credentials = match &book.credentials {
        Some(c) => c,
        None => {
            return Err(Stop::Fail(CommandError::Backend(BackendError::MissingCredentials)));
        },
    };
    if let Err(e) = s.stream(Ask::Connect(credentials.copy()))? {
        return Err(Stop::Fail(CommandError::Backend(e)));
    }
    let result = execute_remote_command(s, call);
    match result {
        Err(Stop::Ask(a)) => Err(Stop::Ask(a)),
        outcome => {
            keep_credentials(s, &book.active, credentials)?;
            outcome
        },
    }
}

/// The whole of a command: on a connection that is there, or on one for the active account.
pub open spec fn command(
    t: Talk,
    call: InvocationData,
    version: Seq<char>,
    connected: bool,
) -> Step<i32> {
    bind(
        local(t, call, version),
        |t: Talk, code: Option<i32>|
            match code {
                Some(c) => done(t, c),
                None => if connected {
                    remote(t, call)
                } else {
                    remote_for_account(t, call)
                },
            },
    )
}

pub fn execute_command(s: &mut Session, call: &Invocation, version: &str, connected: bool) -> (r:
    Result<i32, Stop>)
    ensures
        (final(s).talk(), both(r)) == command(old(s).talk(), call@, version@, connected),
{
    match execute_local_command(s, call, version)? {
        Some(code) => Ok(code),
        None => if connected {
            execute_remote_command(s, call)
        } else {
            execute_remote_with_profile_backend(s, call)
        },
    }
}

// ---------------------------------------------------------------------------
// Laws
// ---------------------------------------------------------------------------

/// The arguments that a command cannot do without. An update can do with a file alone.
pub open spec fn least_args(command: Remote) -> nat {
    match command {
        Remote::Bookmark => 1,
        Remote::Open => 1,
        Remote::Block => 1,
        Remote::Mute => 1,
        Remote::Follow => 1,
        Remote::Unfollow => 1,
        Remote::Unbookmark => 1,
        Remote::ReportSpam => 1,
        Remote::Favorite => 1,
        Remote::Retweet => 1,
        Remote::Reply => 1,
        Remote::DoesFollow => 1,
        Remote::DoesContain => 1,
        Remote::Reach => 1,
        Remote::Status => 1,
        Remote::Users => 1,
        Remote::Whois => 1,
        Remote::FollowingsFollowing => 1,
        Remote::Intersection => 1,
        Remote::Place => 1,
        Remote::Places => 1,
        Remote::DeleteBlock => 1,
        Remote::DeleteMute => 1,
        Remote::DeleteFavorite => 1,
        Remote::DeleteStatus => 1,
        Remote::DeleteDm => 1,
        Remote::DeleteCollection => 1,
        Remote::DeleteList => 1,
        Remote::CollectionCreate => 1,
        Remote::CollectionEntries => 1,
        Remote::CollectionInformation => 1,
        Remote::CollectionUpdate => 1,
        Remote::ListCreate => 1,
        Remote::ListInformation => 1,
        Remote::ListMembers => 1,
        Remote::ListTimeline => 1,
        Remote::SearchAll => 1,
        Remote::SearchTimeline => 1,
        Remote::SearchMentions => 1,
        Remote::SearchFavorites => 1,
        Remote::SearchRetweets => 1,
        Remote::SearchUsers => 1,
        Remote::SetBio => 1,
        Remote::SetLanguage => 1,
        Remote::SetLocation => 1,
        Remote::SetName => 1,
        Remote::SetProfileLinkColor => 1,
        Remote::SetWebsite => 1,
        Remote::SetProfileImage => 1,
        Remote::SetProfileBackgroundImage => 1,
        Remote::StreamSearch => 1,
        Remote::StreamUsers => 1,
        Remote::StreamList => 1,
        Remote::Dm => 2,
        Remote::CollectionAdd => 2,
        Remote::CollectionRemove => 2,
        Remote::ListAdd => 2,
        Remote::ListRemove => 2,
        Remote::SearchList => 2,
        _ => 0,
    }
}

/// A command with fewer arguments than it cannot do without fails with that error, and asks for
/// nothing and says nothing before it.
pub proof fn law_missing_arguments_stop_a_command(
    t: Talk,
    call: InvocationData,
    book: BookData,
    command: Remote,
)
    requires
        call.args.len() < least_args(command),
    ensures
        performed_alone(t, call, book, command) == fail::<i32>(
            t,
            ErrorData::MissingArguments {
                command: joined(call.path, " "@),
                expected: least_args(command),
            },
        ),
{
}

/// A path that leads to no command is told, with an exit code of its own, and nothing is asked for
/// once the accounts are known.
pub proof fn law_unknown_paths_are_told(t: Talk, call: InvocationData, book: BookData)
    requires
        remote_at(call.path) == Remote::Unknown,
    ensures
        performed_alone(t, call, book, remote_at(call.path)) == done(
            say_err(t, unsupported(call.path)),
            2i32,
        ),
{
}

/// Without an active account, a command that talks to the API fails before it asks for anything
/// but the accounts.
pub proof fn law_no_account_no_call(t: Talk, call: InvocationData)
    requires
        ask_profiles(t).1 matches Ok(book) && book.credentials is None,
    ensures
        remote_for_account(t, call) == fail::<i32>(
            ask_profiles(t).0,
            ErrorData::Backend(FaultData::MissingCredentials),
        ),
{
}

/// What a command came to, as a step ends.
pub open spec fn as_ended(outcome: Result<i32, ErrorData>) -> Result<i32, StopData> {
    match outcome {
        Ok(code) => Ok(code),
        Err(e) => Err(StopData::Fail(e)),
    }
}

/// Renewed credentials are stored whether the command succeeded or failed; whatever comes of the
/// attempt, what came of the command is kept.
pub proof fn law_renewed_credentials_are_stored(
    t: Talk,
    outcome: Result<i32, ErrorData>,
    name: Seq<char>,
    key: Seq<char>,
    loaded: CredentialsData,
    renewed: CredentialsData,
    attempt: Result<(), Seq<char>>,
)
    requires
        t.replies.len() == t.next + 1,
        t.replies.last() == crate::session::ReplyData::Credentials(renewed),
        renewed != loaded,
    ensures
        kept_after((t, as_ended(outcome)), Some((name, key)), loaded).1 == Err::<i32, StopData>(
            StopData::Ask(
                AskData::StoreCredentials { name, storage_key: key, credentials: renewed },
            ),
        ),
        kept_after(
            (
                Talk {
                    replies: t.replies.push(crate::session::ReplyData::Done(attempt)),
                    ..t
                },
                as_ended(outcome),
            ),
            Some((name, key)),
            loaded,
        ).1 == as_ended(outcome),
{
    let more = t.replies.push(crate::session::ReplyData::Done(attempt));
    assert(more[t.next as int] == t.replies[t.next as int]);
    assert(more[t.next as int + 1] == crate::session::ReplyData::Done(attempt));
}

} // verus!
