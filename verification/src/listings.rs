//! What commands that list something ask the API for, and what of the answers they show.

use vstd::prelude::*;

use crate::act::tweet_fetched;
use crate::command::performed_alone;
use crate::extract::{lists_in, text_of, tweets_in, users_in};
use crate::fetch::{
    bookmark_owner, collection_id_resolved, collection_metadata, collection_tweets, current_user,
    current_user_id, found_users, has_user_context, list_id_resolved, list_params, member_ids,
    owned_lists, relationship_ids, tweets_collected, user_collections, user_fetched,
    user_id_resolved,
};
use crate::findings::{comes_to, lemma_ordered_sets_agree, liked_by, looked_up, subject, with_code};
use crate::idset::{is_ordered_set, set_of};
use crate::invocation::InvocationData;
use crate::json::{or_empty, text_in, Data};
use crate::list::collected;
use crate::params::{
    bookmark_params, plain, retried, timeline_params, tweet_params, user_params, AuthScheme,
};
use crate::paths::Remote;
use crate::present::{
    list_info_shown, lists_shown, status_shown, tweets_or_json, tweets_shown, users_shown,
    whois_shown,
};
use crate::session::{call, done, say, say_all, say_err, say_json, AskData, BookData, Method, Talk};
use crate::text::joined;
use crate::timelines::{
    chain_collected, mentions_collected, reposts_collected, retweets_among, thread_collected,
    timeline_collected, user_tweets_collected,
};
use crate::words::bare_name;

verus! {

// ---------------------------------------------------------------------------
// Tweets
// ---------------------------------------------------------------------------

/// The tweets of a user are those under the user's identifier; the timeline of the account is the
/// account's, newest first; mentions and bookmarks are the account's; the account's tweets that
/// others repeated have a place of their own.
pub proof fn law_timelines_are_those_of_their_users(
    t: Talk,
    call: InvocationData,
    user: Seq<char>,
    id: Seq<char>,
    context: bool,
    limit: nat,
)
    ensures
        ({
            let named = user_id_resolved(t, user, call.by_id());
            let own = current_user_id(t, context);
            let params = timeline_params(call.options);
            &&& comes_to(named, id) ==> user_tweets_collected(t, user, call, limit)
                == tweets_collected(
                named.0,
                "/2/users/"@ + id + "/tweets"@,
                params,
                AuthScheme::OAuth2Bearer,
                limit,
            )
            &&& timeline_collected(t, Some(user), call, context, limit) == user_tweets_collected(
                t,
                user,
                call,
                limit,
            )
            &&& comes_to(own, id) ==> timeline_collected(t, None, call, context, limit)
                == tweets_collected(
                own.0,
                "/2/users/"@ + id + "/timelines/reverse_chronological"@,
                params,
                AuthScheme::OAuth1User,
                limit,
            )
            &&& comes_to(own, id) ==> mentions_collected(t, call, context, limit)
                == tweets_collected(
                own.0,
                "/2/users/"@ + id + "/mentions"@,
                params,
                AuthScheme::OAuth1User,
                limit,
            )
            &&& reposts_collected(t, call, limit) == tweets_collected(
                t,
                "/2/users/reposts_of_me"@,
                params,
                AuthScheme::OAuth1User,
                limit,
            )
        }),
{
}

/// Whether a tweet repeats another: its text says so.
pub open spec fn is_repeat(tweet: Data) -> bool {
    let text = or_empty(text_in(tweet.get_either("full_text"@, "text"@)));
    text.len() >= 4 && text[0] == 'R' && text[1] == 'T' && text[2] == ' ' && text[3] == '@'
}

/// The retweets of a user are those of the user's tweets that repeat another, in their order.
pub proof fn law_retweets_are_repeats(tweets: Seq<Data>)
    ensures
        retweets_among(tweets) == tweets.filter(|x: Data| is_repeat(x)),
    decreases tweets.len(),
{
    reveal(Seq::filter);
    if tweets.len() > 0 {
        law_retweets_are_repeats(tweets.drop_last());
        let text = text_of(tweets.last(), false);
        reveal_strlit("RT @");
        assert("RT @"@ =~= seq!['R', 'T', ' ', '@']);
        if is_repeat(tweets.last()) {
            assert(text.subrange(0, 4) =~= "RT @"@);
        }
        if crate::text::begins_with(text, "RT @"@) {
            assert(text.subrange(0, 4)[0] == 'R');
            assert(text.subrange(0, 4)[1] == 'T');
            assert(text.subrange(0, 4)[2] == ' ');
            assert(text.subrange(0, 4)[3] == '@');
        }
    }
}

/// `timeline`, `mentions`, `favorites`, `retweets`, `retweets_of_me` and `bookmarks` show the
/// tweets of their kind, as many as the number says, and 20 where none is given. A user may be
/// named for `timeline`, `favorites` and `retweets`.
pub proof fn law_timelines_are_shown(
    t: Talk,
    call: InvocationData,
    book: BookData,
    id: Seq<char>,
    tweets: Seq<Data>,
)
    ensures
        ({
            let limit = call.options.number_or("number"@, 20);
            let context = has_user_context(book.credentials);
            let user = if call.args.len() > 0 {
                Some(call.args[0])
            } else {
                None
            };
            let timeline = timeline_collected(t, user, call, context, limit);
            let mentions = mentions_collected(t, call, context, limit);
            let named = user_id_resolved(t, subject(call, book), call.by_id());
            let favorites = liked_by(named.0, id, call, limit);
            let reposts = reposts_collected(t, call, limit);
            let own = user_tweets_collected(t, call.args[0], call, limit);
            let owner = bookmark_owner(t);
            let bookmarks = tweets_collected(
                owner.0,
                "/2/users/"@ + id + "/bookmarks"@,
                bookmark_params(call.options),
                AuthScheme::OAuth2User,
                limit,
            );
            &&& comes_to(timeline, tweets) ==> performed_alone(t, call, book, Remote::Timeline)
                == with_code(tweets_or_json(timeline.0, tweets, call.options), 0)
            &&& comes_to(mentions, tweets) ==> performed_alone(t, call, book, Remote::Mentions)
                == with_code(tweets_shown(mentions.0, tweets, call.options), 0)
            &&& comes_to(named, id) && comes_to(favorites, tweets) ==> performed_alone(
                t,
                call,
                book,
                Remote::Favorites,
            ) == with_code(tweets_shown(favorites.0, tweets, call.options), 0)
            &&& call.args.len() == 0 && comes_to(reposts, tweets) ==> performed_alone(
                t,
                call,
                book,
                Remote::Retweets,
            ) == with_code(tweets_shown(reposts.0, tweets, call.options), 0)
            &&& call.args.len() > 0 && comes_to(own, tweets) ==> performed_alone(
                t,
                call,
                book,
                Remote::Retweets,
            ) == with_code(
                tweets_shown(own.0, tweets.filter(|x: Data| is_repeat(x)), call.options),
                0,
            )
            &&& comes_to(reposts, tweets) ==> performed_alone(t, call, book, Remote::RetweetsOfMe)
                == with_code(tweets_shown(reposts.0, tweets, call.options), 0)
            &&& comes_to(owner, id) && comes_to(bookmarks, tweets) ==> performed_alone(
                t,
                call,
                book,
                Remote::Bookmarks,
            ) == with_code(tweets_or_json(bookmarks.0, tweets, call.options), 0)
        }),
{
    law_retweets_are_repeats(tweets);
}

/// `status` fetches the tweet that is named. With `--thread` it shows the tweet's conversation from
/// the oldest tweet to the newest; else the tweet, and then those that it replies to.
pub proof fn law_status_is_shown(
    t: Talk,
    call: InvocationData,
    book: BookData,
    tweet: Data,
    others: Seq<Data>,
)
    requires
        call.args.len() >= 1,
        comes_to(tweet_fetched(t, call.args[0]), tweet),
    ensures
        ({
            let fetched = tweet_fetched(t, call.args[0]);
            let thread = thread_collected(fetched.0, tweet);
            let chain = chain_collected(fetched.0, tweet, Seq::empty(), 10);
            let step = performed_alone(t, call, book, Remote::Status);
            &&& call.options.flag("thread"@) && comes_to(thread, others) ==> step == with_code(
                tweets_or_json(
                    thread.0,
                    crate::order::sorted_by_key(
                        others,
                        |x: Data| crate::timelines::age_key(x),
                    ),
                    call.options,
                ),
                0,
            )
            &&& !call.options.flag("thread"@) && comes_to(chain, others) && call.options.flag(
                "json"@,
            ) ==> step == done(
                say_json(
                    chain.0,
                    Data::Object(
                        if others.len() > 0 {
                            seq![
                                ("status"@, tweet),
                                ("in_reply_to_chain"@, Data::Array(others)),
                            ]
                        } else {
                            seq![("status"@, tweet)]
                        },
                    ),
                ),
                0i32,
            )
            &&& !call.options.flag("thread"@) && comes_to(chain, others) && !call.options.flag(
                "json"@,
            ) && others.len() == 0 ==> step == with_code(
                status_shown(chain.0, tweet, call.options),
                0,
            )
            &&& !call.options.flag("thread"@) && comes_to(chain, others) && !call.options.flag(
                "json"@,
            ) && others.len() > 0 && status_shown(chain.0, tweet, call.options).1 is Ok
                ==> step == with_code(
                tweets_shown(
                    say(
                        say(status_shown(chain.0, tweet, call.options).0, Seq::empty()),
                        "In reply to:"@,
                    ),
                    others,
                    call.options,
                ),
                0,
            )
        }),
{
}

/// A tweet is fetched by its identifier; the tweet shown is the first that the answer holds.
pub proof fn law_tweet_is_fetched(t: Talk, id: Seq<char>)
    ensures
        ({
            let asked = call(t, plain(Method::GetOauth2, "/2/tweets/"@ + id, tweet_params()));
            &&& asked.1 is Ok && tweets_in(asked.1->Ok_0).len() > 0 ==> tweet_fetched(t, id)
                == done(asked.0, tweets_in(asked.1->Ok_0)[0])
            &&& asked.1 is Err ==> tweet_fetched(t, id).1 is Err
        }),
{
}

/// A thread is the tweet and the other tweets that a search for its conversation finds.
pub proof fn law_thread_is_the_conversation(t: Talk, status: Data, conversation: Seq<char>)
    requires
        status.text_at("conversation_id"@) == Some(conversation),
    ensures
        ({
            let asked = call(
                t,
                plain(
                    Method::GetOauth2,
                    "/2/tweets/search/recent"@,
                    seq![
                        ("query"@, "conversation_id:"@ + conversation),
                        ("max_results"@, "100"@),
                    ] + tweet_params(),
                ),
            );
            asked.1 is Ok ==> thread_collected(t, status) == done(
                asked.0,
                seq![status] + tweets_in(asked.1->Ok_0).filter(
                    |x: Data| or_empty(x.id()) != or_empty(status.id()),
                ),
            )
        }),
{
    let asked = call(
        t,
        plain(
            Method::GetOauth2,
            "/2/tweets/search/recent"@,
            seq![("query"@, "conversation_id:"@ + conversation), ("max_results"@, "100"@)]
                + tweet_params(),
        ),
    );
    if asked.1 is Ok {
        lemma_others(tweets_in(asked.1->Ok_0), status);
    }
}

proof fn lemma_others(tweets: Seq<Data>, status: Data)
    ensures
        collected(
            tweets,
            |x: Data| crate::timelines::if_other(x, crate::show::id_or_none(status)),
        ) == tweets.filter(|x: Data| or_empty(x.id()) != or_empty(status.id())),
    decreases tweets.len(),
{
    reveal(Seq::filter);
    if tweets.len() > 0 {
        lemma_others(tweets.drop_last(), status);
    }
}

/// The tweets that a tweet replies to are fetched one after the other, each by the identifier that
/// the one before names.
pub proof fn law_chain_goes_from_reply_to_reply(
    t: Talk,
    current: Data,
    chain: Seq<Data>,
    depth: nat,
)
    requires
        depth > 0,
    ensures
        ({
            let step = chain_collected(t, current, chain, depth);
            match current.text_at("in_reply_to_status_id"@) {
                None => step == done(t, chain),
                Some(parent) => {
                    let asked = call(
                        t,
                        plain(Method::GetOauth2, "/2/tweets/"@ + parent, tweet_params()),
                    );
                    &&& asked.1 is Ok && tweets_in(asked.1->Ok_0).len() > 0 ==> {
                        let found = tweets_in(asked.1->Ok_0)[0];
                        step == chain_collected(
                            asked.0,
                            found,
                            chain.push(found),
                            (depth - 1) as nat,
                        )
                    }
                    &&& asked.1 is Ok && tweets_in(asked.1->Ok_0).len() == 0 ==> step == done(
                        asked.0,
                        chain,
                    )
                },
            }
        }),
{
}

// ---------------------------------------------------------------------------
// Users
// ---------------------------------------------------------------------------

/// A user is fetched by name or by identifier; the user is the first that the answer holds. The
/// identifier of a user is given, or is the one in the answer for the name.
pub proof fn law_users_are_fetched(t: Talk, user: Seq<char>, by_id: bool)
    ensures
        ({
            let asked = call(
                t,
                retried(
                    Method::GetOauth2,
                    if by_id {
                        "/2/users/"@ + user
                    } else {
                        "/2/users/by/username/"@ + bare_name(user)
                    },
                    user_params(),
                ),
            );
            let found = users_in(asked.1->Ok_0);
            &&& asked.1 is Ok && found.len() > 0 ==> user_fetched(t, user, by_id) == done(
                asked.0,
                found[0],
            )
            &&& by_id ==> user_id_resolved(t, user, by_id) == done(t, user)
            &&& !by_id && asked.1 is Ok && found.len() > 0 && found[0].id() is Some
                ==> user_id_resolved(t, user, by_id) == done(asked.0, found[0].id()->Some_0)
        }),
{
}

/// The account's user is the one that the API answers with for the account itself.
pub proof fn law_account_is_asked_for(t: Talk, context: bool, answer: Data, id: Seq<char>)
    requires
        t.next < t.replies.len(),
        t.replies[t.next as int] == crate::session::ReplyData::Api(Ok(answer)),
        users_in(answer).len() > 0,
        users_in(answer)[0].id() == Some(id),
    ensures
        comes_to(current_user(t, context), users_in(answer)[0]),
        comes_to(current_user_id(t, context), id),
        current_user_id(t, context).0.asked == t.asked.push(
            AskData::Api(
                retried(
                    if context {
                        Method::GetOauth2User
                    } else {
                        Method::Get
                    },
                    "/2/users/me"@,
                    user_params(),
                ),
            ),
        ),
        answer.get("data"@) matches Some(data) ==> (data.get("id"@) matches Some(v) ==> (
        v.as_words() matches Some(words) ==> comes_to(bookmark_owner(t), words))),
        bookmark_owner(t).0.asked == t.asked.push(
            AskData::Api(
                retried(
                    Method::GetOauth2User,
                    "/2/users/me"@,
                    seq![("user.fields"@, "id,username"@)],
                ),
            ),
        ),
{
}

/// `whois` shows the user that is named; `whoami` the account's user, where there is an account.
pub proof fn law_whois_and_whoami_are_shown(
    t: Talk,
    call: InvocationData,
    book: BookData,
    user: Data,
)
    ensures
        ({
            let named = user_fetched(t, call.args[0], call.by_id());
            let own = current_user(t, has_user_context(book.credentials));
            &&& call.args.len() >= 1 && comes_to(named, user) ==> performed_alone(
                t,
                call,
                book,
                Remote::Whois,
            ) == with_code(whois_shown(named.0, user, call.options), 0)
            &&& book.active is Some && comes_to(own, user) ==> performed_alone(
                t,
                call,
                book,
                Remote::Whoami,
            ) == with_code(whois_shown(own.0, user, call.options), 0)
            &&& book.active is None ==> performed_alone(t, call, book, Remote::Whoami) == done(
                say_err(
                    t,
                    "You haven't authorized an account, run `x authorize` to get started."@,
                ),
                0i32,
            )
        }),
{
}

/// `users` asks for all users named at once, by name or by identifier, and shows those that the
/// answer holds; `search users` shows those that a search for its words finds; `blocks` and `muted`
/// show those that the account blocks and mutes.
pub proof fn law_users_are_shown(
    t: Talk,
    call: InvocationData,
    book: BookData,
    answer: Data,
    id: Seq<char>,
)
    ensures
        ({
            let by_id = crate::session::call(
                t,
                plain(
                    Method::GetOauth2,
                    "/2/users"@,
                    seq![("ids"@, joined(call.args, ","@))] + user_params(),
                ),
            );
            let by_name = crate::session::call(
                t,
                plain(
                    Method::GetOauth2,
                    "/2/users/by"@,
                    seq![
                        (
                            "usernames"@,
                            joined(
                                Seq::new(call.args.len(), |i: int| bare_name(call.args[i])),
                                ","@,
                            ),
                        ),
                    ] + user_params(),
                ),
            );
            let own = current_user_id(t, false);
            let fields = seq![("user.fields"@, crate::params::V2_USER_FIELDS@)];
            let blocking = crate::session::call(
                own.0,
                plain(Method::Get, "/2/users/"@ + id + "/blocking"@, fields),
            );
            let muting = crate::session::call(
                own.0,
                plain(Method::Get, "/2/users/"@ + id + "/muting"@, fields),
            );
            let found = found_users(t, joined(call.args, " "@));
            &&& call.args.len() >= 1 && call.by_id() && comes_to(by_id, answer)
                ==> performed_alone(t, call, book, Remote::Users) == with_code(
                users_shown(by_id.0, users_in(answer), call.options),
                0,
            )
            &&& call.args.len() >= 1 && !call.by_id() && comes_to(by_name, answer)
                ==> performed_alone(t, call, book, Remote::Users) == with_code(
                users_shown(by_name.0, users_in(answer), call.options),
                0,
            )
            &&& comes_to(own, id) && comes_to(blocking, answer) ==> performed_alone(
                t,
                call,
                book,
                Remote::Blocks,
            ) == with_code(users_shown(blocking.0, users_in(answer), call.options), 0)
            &&& comes_to(own, id) && comes_to(muting, answer) ==> performed_alone(
                t,
                call,
                book,
                Remote::Muted,
            ) == with_code(users_shown(muting.0, users_in(answer), call.options), 0)
            &&& call.args.len() >= 1 && found.1 is Ok && !call.options.flag("json"@)
                ==> performed_alone(t, call, book, Remote::SearchUsers) == with_code(
                users_shown(found.0, found.1->Ok_0, call.options),
                0,
            )
            &&& call.args.len() >= 1 && found.1 is Ok && call.options.flag("json"@)
                ==> performed_alone(t, call, book, Remote::SearchUsers) == done(
                say_json(found.0, Data::Array(found.1->Ok_0)),
                0i32,
            )
        }),
{
    assert(call.args.map_values(|a: Seq<char>| bare_name(a)) =~= Seq::new(
        call.args.len(),
        |i: int| bare_name(call.args[i]),
    ));
}

/// `followings_following` shows those among the users that the second user follows that follow the
/// first, each once; the second user is the account where none is named.
pub proof fn law_followings_following_are_shown(
    t: Talk,
    call: InvocationData,
    book: BookData,
    first: Seq<char>,
    second: Seq<char>,
    followers: Seq<Seq<char>>,
    following: Seq<Seq<char>>,
    shown: Seq<Seq<char>>,
)
    requires
        call.args.len() >= 1,
        ({
            let one = user_id_resolved(t, call.args[0], call.by_id());
            let two = if call.args.len() > 1 {
                user_id_resolved(one.0, call.args[1], call.by_id())
            } else {
                current_user_id(one.0, false)
            };
            let to_first = relationship_ids(two.0, first, "followers"@);
            &&& comes_to(one, first)
            &&& comes_to(two, second)
            &&& comes_to(to_first, followers)
            &&& comes_to(relationship_ids(to_first.0, second, "following"@), following)
        }),
        is_ordered_set(shown),
        forall|x: Seq<char>| #[trigger]
            shown.contains(x) <==> followers.contains(x) && following.contains(x),
    ensures
        ({
            let one = user_id_resolved(t, call.args[0], call.by_id());
            let two = if call.args.len() > 1 {
                user_id_resolved(one.0, call.args[1], call.by_id())
            } else {
                current_user_id(one.0, false)
            };
            let to_first = relationship_ids(two.0, first, "followers"@);
            let of_second = relationship_ids(to_first.0, second, "following"@);
            performed_alone(t, call, book, Remote::FollowingsFollowing) == looked_up(
                of_second.0,
                shown,
                call,
            )
        }),
{
    let ids = crate::idset::intersection_of(set_of(followers), set_of(following));
    assert forall|x: Seq<char>| #[trigger] ids.contains(x) <==> shown.contains(x) by {
        crate::people::law_circles_divide_the_users(followers, following, x);
    }
    crate::people::law_circles_divide_the_users(followers, following, Seq::empty());
    lemma_ordered_sets_agree(ids, shown);
}

// ---------------------------------------------------------------------------
// Lists and collections
// ---------------------------------------------------------------------------

/// `lists` shows the lists of the user; `list information`, `list members` and `list timeline` are
/// about the list that is named: what it is, who is on it, and what those say.
pub proof fn law_lists_are_shown(
    t: Talk,
    call: InvocationData,
    book: BookData,
    id: Seq<char>,
    answer: Data,
    members: Seq<Seq<char>>,
    found: Seq<Data>,
)
    ensures
        ({
            let who = book.active_name();
            let user = user_id_resolved(t, subject(call, book), call.by_id());
            let owned = owned_lists(user.0, id);
            let list = list_id_resolved(t, call.args[0], call.by_id(), who);
            let told = crate::session::call(
                list.0,
                plain(Method::GetOauth2, "/2/lists/"@ + id, list_params()),
            );
            let on_it = member_ids(list.0, id);
            let tweets = tweets_collected(
                list.0,
                "/2/lists/"@ + id + "/tweets"@,
                timeline_params(call.options),
                AuthScheme::OAuth2Bearer,
                call.options.number_or("number"@, 20),
            );
            &&& comes_to(user, id) && comes_to(owned, found) ==> performed_alone(
                t,
                call,
                book,
                Remote::Lists,
            ) == with_code(lists_shown(owned.0, found, call.options), 0)
            &&& call.args.len() >= 1 && comes_to(list, id) && comes_to(told, answer) && lists_in(
                answer,
            ).len() > 0 ==> performed_alone(t, call, book, Remote::ListInformation) == with_code(
                list_info_shown(told.0, lists_in(answer)[0], call.options),
                0,
            )
            &&& call.args.len() >= 1 && comes_to(list, id) && comes_to(on_it, members)
                ==> performed_alone(t, call, book, Remote::ListMembers) == looked_up(
                on_it.0,
                members,
                call,
            )
            &&& call.args.len() >= 1 && comes_to(list, id) && comes_to(tweets, found)
                ==> performed_alone(t, call, book, Remote::ListTimeline) == with_code(
                tweets_shown(tweets.0, found, call.options),
                0,
            )
        }),
{
}

/// A list goes by the name where its slug or name is written so, whatever the case of ASCII
/// letters, or comes to the same slug.
pub open spec fn goes_by(list: Data, name: Seq<char>) -> bool {
    let own = or_empty(text_in(list.get_either("slug"@, "name"@)));
    crate::text::lowered(own) == crate::text::lowered(name) || crate::fetch::slug(own)
        == crate::fetch::slug(name)
}

/// A list that is named stands for the first list of its owner that goes by the name; the owner is
/// the one written before a slash, or the account. An identifier stands for itself.
pub proof fn law_list_is_resolved(
    t: Talk,
    arg: Seq<char>,
    by_id: bool,
    who: Seq<char>,
    owner: Seq<char>,
    name: Seq<char>,
    owner_id: Seq<char>,
    lists: Seq<Data>,
    at: int,
    id: Seq<char>,
)
    ensures
        by_id ==> list_id_resolved(t, arg, by_id, who) == done(t, arg),
        ({
            let user = user_id_resolved(t, owner, false);
            let owned = owned_lists(user.0, owner_id);
            &&& !by_id
            &&& !name.contains('/')
            &&& arg == owner + seq!['/'] + name && !owner.contains('/') && owner == bare_name(
                owner,
            ) || arg == name && owner == who
            &&& comes_to(user, owner_id)
            &&& comes_to(owned, lists)
            &&& 0 <= at < lists.len()
            &&& goes_by(lists[at], name)
            &&& forall|i: int| 0 <= i < at ==> !goes_by(#[trigger] lists[i], name)
            &&& lists[at].id() == Some(id)
        }) ==> comes_to(list_id_resolved(t, arg, by_id, who), id),
{
    let user = user_id_resolved(t, owner, false);
    let owned = owned_lists(user.0, owner_id);
    if !by_id && !name.contains('/') && (arg == owner + seq!['/'] + name && !owner.contains('/')
        && owner == bare_name(owner) || arg == name && owner == who) && comes_to(user, owner_id)
        && comes_to(owned, lists) && 0 <= at < lists.len() && goes_by(lists[at], name) && (forall|
        i: int,
    |
        0 <= i < at ==> !goes_by(#[trigger] lists[i], name)) && lists[at].id() == Some(id) {
        lemma_first_named(lists, name, at);
        if arg == owner + seq!['/'] + name && !owner.contains('/') && owner == bare_name(owner) {
            lemma_first_slash(owner, name);
            assert(crate::words::owner_and_list(arg, false, who) == (owner, name));
        } else {
            lemma_no_slash(arg);
            assert(crate::words::owner_and_list(arg, false, who) == (owner, name));
        }
    }
}

proof fn lemma_first_named(lists: Seq<Data>, name: Seq<char>, at: int)
    requires
        0 <= at < lists.len(),
        goes_by(lists[at], name),
        forall|i: int| 0 <= i < at ==> !goes_by(#[trigger] lists[i], name),
    ensures
        crate::fetch::list_named(lists, name) == Some(lists[at]),
    decreases lists.len(),
{
    if at > 0 {
        assert(!goes_by(lists[0], name));
        let rest = lists.drop_first();
        assert forall|i: int| 0 <= i < at - 1 implies !goes_by(#[trigger] rest[i], name) by {
            assert(rest[i] == lists[i + 1]);
        }
        lemma_first_named(rest, name, at - 1);
    }
}

proof fn lemma_first_slash(owner: Seq<char>, name: Seq<char>)
    requires
        !owner.contains('/'),
    ensures
        crate::text::split_at_first(owner + seq!['/'] + name, '/') == Some((owner, name)),
{
    let s = owner + seq!['/'] + name;
    lemma_first_in(owner, name);
    let n = owner.len() as int;
    assert(s.take(n) =~= owner);
    assert(s.skip(n + 1) =~= name);
}

proof fn lemma_first_in(owner: Seq<char>, name: Seq<char>)
    requires
        !owner.contains('/'),
    ensures
        crate::text::first_in(
            owner + seq!['/'] + name,
            crate::text::CharSet::Only('/'),
        ) == owner.len(),
    decreases owner.len(),
{
    let s = owner + seq!['/'] + name;
    if owner.len() > 0 {
        let rest = owner.drop_first();
        assert(owner.contains(owner[0]));
        assert forall|i: int| 0 <= i < rest.len() implies rest[i] != '/' by {
            assert(owner.contains(owner[i + 1]));
        }
        lemma_first_in(rest, name);
        assert(s.drop_first() =~= rest + seq!['/'] + name);
    }
}

proof fn lemma_no_slash(s: Seq<char>)
    requires
        !s.contains('/'),
    ensures
        crate::text::split_at_first(s, '/') is None,
        crate::text::first_in(s, crate::text::CharSet::Only('/')) == s.len(),
    decreases s.len(),
{
    if s.len() > 0 {
        let rest = s.drop_first();
        assert(s.contains(s[0]));
        assert forall|i: int| 0 <= i < rest.len() implies rest[i] != '/' by {
            assert(s.contains(s[i + 1]));
        }
        lemma_no_slash(rest);
    }
}

/// `collections` shows the collections of the user; `collection entries` and `collection
/// information` are about the collection that is named: its tweets, and what it is.
pub proof fn law_collections_are_shown(
    t: Talk,
    call: InvocationData,
    book: BookData,
    id: Seq<char>,
    answer: Data,
    found: Seq<Data>,
)
    ensures
        ({
            let who = book.active_name();
            let owned = user_collections(t, subject(call, book), call.by_id());
            let named = collection_id_resolved(t, call.args[0], call.by_id(), who);
            let tweets = collection_tweets(named.0, id, call.options.number_or("number"@, 20));
            let told = crate::session::call(
                named.0,
                retried(Method::Get, "/1.1/collections/show.json"@, seq![("id"@, id)]),
            );
            &&& comes_to(owned, found) ==> performed_alone(t, call, book, Remote::Collections)
                == done(
                say_all(owned.0, crate::show::collections_lines(found, call.options)),
                0i32,
            )
            &&& call.args.len() >= 1 && comes_to(named, id) && comes_to(tweets, found)
                ==> performed_alone(t, call, book, Remote::CollectionEntries) == with_code(
                tweets_shown(tweets.0, found, call.options),
                0,
            )
            &&& call.args.len() >= 1 && comes_to(named, id) && comes_to(told, answer)
                ==> performed_alone(t, call, book, Remote::CollectionInformation) == done(
                say_all(
                    told.0,
                    crate::show::collection_info_lines(
                        collection_metadata(answer, id),
                        call.options,
                    ),
                ),
                0i32,
            )
        }),
{
}

} // verus!
