//! What commands find: which tweets, users and lists they show, and what they answer.

use vstd::prelude::*;

use crate::command::performed_alone;
use crate::extract::{tweet_matches, tweets_matching};
use crate::fetch::{
    has_user_context, list_id_resolved, member_ids, relationship_ids, user_id_resolved,
    users_looked_up,
};
use crate::idset::is_ordered_set;
use crate::invocation::InvocationData;
use crate::json::{or_empty, text_in, Data};
use crate::params::{timeline_params, tweet_params, AuthScheme};
use crate::paths::Remote;
use crate::present::{tweets_or_json, tweets_shown, users_shown};
use crate::session::{call, done, say_json, BookData, SayingData, Step, StopData, Talk};
use crate::text::{contains_text, joined, lowered, stands_at};
use crate::timelines::{
    mentions_collected, reposts_collected, retweets_collected, timeline_collected,
    user_tweets_collected,
};
use crate::words::{bare_name, owner_and_list};

verus! {

/// A step that came to a value.
pub open spec fn comes_to<A>(step: Step<A>, value: A) -> bool {
    step.1 == Ok::<A, StopData>(value)
}

/// A step that ends a command well.
pub open spec fn with_code(step: Step<()>, code: i32) -> Step<i32> {
    match step.1 {
        Ok(u) => (step.0, Ok(code)),
        Err(stop) => (step.0, Err(stop)),
    }
}

// ---------------------------------------------------------------------------
// Searching
// ---------------------------------------------------------------------------

/// Whether the text of a tweet holds the query somewhere, whatever the case of ASCII letters.
pub open spec fn holds(tweet: Data, query: Seq<char>) -> bool {
    let text = lowered(or_empty(text_in(tweet.get_either("full_text"@, "text"@))));
    let wanted = lowered(query);
    exists|i: int| #[trigger] occurs(text, wanted, i)
}

/// Whether a text stands in another from the place on, character by character.
pub open spec fn occurs(text: Seq<char>, part: Seq<char>, i: int) -> bool {
    &&& 0 <= i
    &&& i + part.len() <= text.len()
    &&& forall|k: int| 0 <= k < part.len() ==> #[trigger] part[k] == text[i + k]
}

proof fn lemma_occurs(text: Seq<char>, part: Seq<char>)
    ensures
        contains_text(text, part) <==> exists|i: int| #[trigger] occurs(text, part, i),
{
    if contains_text(text, part) {
        let i = choose|i: int| stands_at(text, part, i);
        assert forall|k: int| 0 <= k < part.len() implies #[trigger] part[k] == text[i + k] by {
            assert(text.subrange(i, i + part.len())[k] == text[i + k]);
        }
        assert(occurs(text, part, i));
    }
    if exists|i: int| #[trigger] occurs(text, part, i) {
        let i = choose|i: int| #[trigger] occurs(text, part, i);
        assert(text.subrange(i, i + part.len()) =~= part);
        assert(stands_at(text, part, i));
    }
}

/// A search within tweets keeps those that hold the query, in their order, and no others.
pub proof fn law_matches_hold_the_query(tweets: Seq<Data>, query: Seq<char>)
    ensures
        tweets_matching(tweets, query) == tweets.filter(|x: Data| holds(x, query)),
    decreases tweets.len(),
{
    reveal(Seq::filter);
    let pred = |x: Data| holds(x, query);
    if tweets.len() > 0 {
        law_matches_hold_the_query(tweets.drop_last(), query);
        let last = tweets.last();
        let text = lowered(or_empty(text_in(last.get_either("full_text"@, "text"@))));
        lemma_occurs(text, lowered(query));
        if query.len() == 0 {
            assert(occurs(text, lowered(query), 0));
            assert(tweets =~= tweets.drop_last().push(last));
        } else {
            assert(tweet_matches(last, query) <==> holds(last, query));
        }
        assert(tweets_matching(tweets, query) =~= tweets.filter(pred));
    } else {
        assert(tweets_matching(tweets, query) =~= tweets.filter(pred));
    }
}

/// Tweets that a search shows out of those that it went through.
pub open spec fn selection_shown(
    fetched: Step<Seq<Data>>,
    query: Seq<char>,
    call: InvocationData,
) -> Step<i32> {
    let kept = fetched.1->Ok_0.filter(|x: Data| holds(x, query));
    with_code(
        if call.options.flag("json"@) {
            done(say_json(fetched.0, Data::Array(kept)), ())
        } else {
            tweets_shown(fetched.0, kept, call.options)
        },
        0,
    )
}

/// `search timeline` looks for its last argument, and in the tweets of the user before it where
/// there is one: what is shown are those of the fetched tweets that hold that text, all of them and
/// no others. Where only the query is given, it goes through the account's own timeline.
pub proof fn law_search_timeline_finds_the_query(
    t: Talk,
    call: InvocationData,
    book: BookData,
    user: Seq<char>,
    query: Seq<char>,
)
    ensures
        ({
            let context = has_user_context(book.credentials);
            let of_user = user_tweets_collected(t, user, call, 5100);
            let own = timeline_collected(t, None, call, context, 5100);
            let step = performed_alone(t, call, book, Remote::SearchTimeline);
            &&& call.args == seq![user, query] && of_user.1 is Ok ==> step == selection_shown(
                of_user,
                query,
                call,
            )
            &&& call.args == seq![query] && own.1 is Ok ==> step == selection_shown(
                own,
                query,
                call,
            )
        }),
{
    let context = has_user_context(book.credentials);
    let of_user = user_tweets_collected(t, user, call, 5100);
    let own = timeline_collected(t, None, call, context, 5100);
    if of_user.1 is Ok {
        law_matches_hold_the_query(of_user.1->Ok_0, query);
    }
    if own.1 is Ok {
        law_matches_hold_the_query(own.1->Ok_0, query);
    }
}

/// What a search in a user's tweets shows depends on the user only by the tweets that are fetched:
/// with the same tweets and the same query it shows the same, whoever is named.
pub proof fn law_search_depends_on_the_query(
    t: Talk,
    call: InvocationData,
    other: InvocationData,
    book: BookData,
)
    requires
        call.args.len() == 2,
        other.args.len() == 2,
        call.args[1] == other.args[1],
        call.options == other.options,
        user_tweets_collected(t, call.args[0], call, 5100).1 is Ok,
        user_tweets_collected(t, call.args[0], call, 5100) == user_tweets_collected(
            t,
            other.args[0],
            other,
            5100,
        ),
    ensures
        performed_alone(t, call, book, Remote::SearchTimeline) == performed_alone(
            t,
            other,
            book,
            Remote::SearchTimeline,
        ),
{
    assert(call.args =~= seq![call.args[0], call.args[1]]);
    assert(other.args =~= seq![other.args[0], other.args[1]]);
    law_search_timeline_finds_the_query(t, call, book, call.args[0], call.args[1]);
    law_search_timeline_finds_the_query(t, other, book, other.args[0], other.args[1]);
    let found = user_tweets_collected(t, call.args[0], call, 5100);
    assert(selection_shown(found, call.args[1], call) == selection_shown(
        found,
        other.args[1],
        other,
    ));
}

/// `search favorites` looks for its last argument in the tweets that the user before it likes;
/// without a user, in those that the account likes.
pub proof fn law_search_favorites_finds_the_query(
    t: Talk,
    call: InvocationData,
    book: BookData,
    user: Seq<char>,
    query: Seq<char>,
    id: Seq<char>,
)
    requires
        call.args == seq![user, query] || call.args == seq![query] && user == book.active_name(),
        comes_to(user_id_resolved(t, user, call.by_id()), id),
        liked_by(user_id_resolved(t, user, call.by_id()).0, id, call, 5100).1 is Ok,
    ensures
        performed_alone(t, call, book, Remote::SearchFavorites) == selection_shown(
            liked_by(user_id_resolved(t, user, call.by_id()).0, id, call, 5100),
            query,
            call,
        ),
{
    let liked = liked_by(user_id_resolved(t, user, call.by_id()).0, id, call, 5100);
    law_matches_hold_the_query(liked.1->Ok_0, query);
}

/// `search retweets` looks for its last argument in the tweets that the user before it repeats;
/// without a user, in those of the account that others repeat.
pub proof fn law_search_retweets_finds_the_query(
    t: Talk,
    call: InvocationData,
    book: BookData,
    user: Seq<char>,
    query: Seq<char>,
)
    ensures
        ({
            let repeated = retweets_collected(t, Some(user), call, 5100);
            let own = reposts_collected(t, call, 5100);
            let step = performed_alone(t, call, book, Remote::SearchRetweets);
            &&& call.args == seq![user, query] && repeated.1 is Ok ==> step == selection_shown(
                repeated,
                query,
                call,
            )
            &&& call.args == seq![query] && own.1 is Ok ==> step == selection_shown(
                own,
                query,
                call,
            )
        }),
{
    let repeated = retweets_collected(t, Some(user), call, 5100);
    let own = reposts_collected(t, call, 5100);
    if repeated.1 is Ok {
        law_matches_hold_the_query(repeated.1->Ok_0, query);
    }
    if own.1 is Ok {
        law_matches_hold_the_query(own.1->Ok_0, query);
    }
}

/// The tweets that a user likes.
pub open spec fn liked_by(t: Talk, id: Seq<char>, call: InvocationData, limit: nat) -> Step<
    Seq<Data>,
> {
    crate::fetch::tweets_collected(
        t,
        "/2/users/"@ + id + "/liked_tweets"@,
        timeline_params(call.options),
        AuthScheme::OAuth1User,
        limit,
    )
}

/// `search mentions` looks for all of its words in the tweets that mention the account; `search
/// list` looks for the words behind the list in the tweets of that list, and `search all` asks the
/// API for all of its words.
pub proof fn law_search_mentions_list_and_all(
    t: Talk,
    call: InvocationData,
    book: BookData,
    query: Seq<char>,
    list: Seq<char>,
)
    ensures
        ({
            let who = book.active_name();
            let context = has_user_context(book.credentials);
            let mentioning = mentions_collected(t, call, context, 5100);
            let found = list_id_resolved(t, call.args[0], call.by_id(), who);
            let listed = crate::fetch::tweets_collected(
                found.0,
                "/2/lists/"@ + list + "/tweets"@,
                tweet_params(),
                AuthScheme::OAuth2Bearer,
                5100,
            );
            let all = crate::fetch::tweets_collected(
                t,
                "/2/tweets/search/recent"@,
                seq![("query"@, query), ("max_results"@, "100"@)] + tweet_params(),
                AuthScheme::OAuth2Bearer,
                call.options.number_or("number"@, 20),
            );
            &&& call.args.len() >= 1 && query == joined(call.args, " "@) && mentioning.1 is Ok
                ==> performed_alone(t, call, book, Remote::SearchMentions) == selection_shown(
                mentioning,
                query,
                call,
            )
            &&& call.args.len() >= 2 && query == joined(call.args.skip(1), " "@) && comes_to(
                found,
                list,
            ) && listed.1 is Ok ==> performed_alone(t, call, book, Remote::SearchList)
                == selection_shown(listed, query, call)
            &&& call.args.len() >= 1 && query == joined(call.args, " "@) && all.1 is Ok
                ==> performed_alone(t, call, book, Remote::SearchAll) == with_code(
                tweets_or_json(all.0, all.1->Ok_0, call.options),
                0,
            )
        }),
{
    let context = has_user_context(book.credentials);
    let mentioning = mentions_collected(t, call, context, 5100);
    let found = list_id_resolved(t, call.args[0], call.by_id(), book.active_name());
    let listed = crate::fetch::tweets_collected(
        found.0,
        "/2/lists/"@ + list + "/tweets"@,
        tweet_params(),
        AuthScheme::OAuth2Bearer,
        5100,
    );
    if mentioning.1 is Ok {
        law_matches_hold_the_query(mentioning.1->Ok_0, query);
    }
    if listed.1 is Ok {
        law_matches_hold_the_query(listed.1->Ok_0, query);
    }
}

// ---------------------------------------------------------------------------
// Questions
// ---------------------------------------------------------------------------

/// `does_follow`: where the first user has the identifier `a`, the second `b`, and those that `a`
/// follows are known, the answer is yes, with code 0, exactly if `b` is among them; else it is no,
/// with code 1. The second user is the account where only one is named.
pub proof fn law_does_follow_answers(
    t: Talk,
    call: InvocationData,
    book: BookData,
    a: Seq<char>,
    b: Seq<char>,
    followed: Seq<Seq<char>>,
)
    requires
        call.args.len() >= 1,
        ({
            let first = asked_user(call.args[0], call);
            let second = if call.args.len() > 1 {
                asked_user(call.args[1], call)
            } else {
                book.active_name()
            };
            let one = user_id_resolved(t, first, call.by_id());
            let two = user_id_resolved(one.0, second, call.by_id());
            &&& comes_to(one, a)
            &&& comes_to(two, b)
            &&& comes_to(relationship_ids(two.0, a, "following"@), followed)
        }),
    ensures
        ({
            let first = bare_name(asked_user(call.args[0], call));
            let second = bare_name(
                if call.args.len() > 1 {
                    asked_user(call.args[1], call)
                } else {
                    book.active_name()
                },
            );
            let step = performed_alone(t, call, book, Remote::DoesFollow);
            &&& step.1 == Ok::<i32, StopData>(
                if followed.contains(b) {
                    0
                } else {
                    1
                },
            )
            &&& step.0.said.len() > 0
            &&& followed.contains(b) ==> step.0.said.last() == SayingData::Out(
                "Yes, @"@ + first + " follows @"@ + second + "."@,
            )
            &&& !followed.contains(b) ==> step.0.said.last() == SayingData::Complaint(
                "No, @"@ + first + " does not follow @"@ + second + "."@,
            )
        }),
{
}

/// A user as the argument names one: without the `@`, unless users are named by identifier.
pub open spec fn asked_user(arg: Seq<char>, call: InvocationData) -> Seq<char> {
    if call.by_id() {
        arg
    } else {
        bare_name(arg)
    }
}

/// Following is asked of the first user: with the users exchanged, and each following only the
/// other way round, the answers differ.
pub proof fn law_following_has_a_direction(
    t: Talk,
    call: InvocationData,
    other: InvocationData,
    book: BookData,
    followed: Seq<Seq<char>>,
    others: Seq<Seq<char>>,
)
    requires
        call.by_id(),
        other.by_id(),
        call.args.len() == 2,
        other.args == seq![call.args[1], call.args[0]],
        comes_to(relationship_ids(t, call.args[0], "following"@), followed),
        comes_to(relationship_ids(t, call.args[1], "following"@), others),
        followed.contains(call.args[1]),
        !others.contains(call.args[0]),
    ensures
        performed_alone(t, call, book, Remote::DoesFollow).1 == Ok::<i32, StopData>(0),
        performed_alone(t, other, book, Remote::DoesFollow).1 == Ok::<i32, StopData>(1),
{
    law_does_follow_answers(t, call, book, call.args[0], call.args[1], followed);
    law_does_follow_answers(t, other, book, call.args[1], call.args[0], others);
}

/// `does_contain`: where the list, the user and the members of the list are known, the answer is
/// yes, with code 0, exactly if the user is among the members; else it is no, with code 1.
pub proof fn law_does_contain_answers(
    t: Talk,
    call: InvocationData,
    book: BookData,
    list: Seq<char>,
    user: Seq<char>,
    members: Seq<Seq<char>>,
)
    requires
        call.args.len() >= 1,
        ({
            let who = book.active_name();
            let named = if call.args.len() > 1 {
                asked_user(call.args[1], call)
            } else {
                who
            };
            let one = list_id_resolved(t, call.args[0], call.by_id(), who);
            let two = user_id_resolved(one.0, named, call.by_id());
            &&& comes_to(one, list)
            &&& comes_to(two, user)
            &&& comes_to(member_ids(two.0, list), members)
        }),
    ensures
        ({
            let who = book.active_name();
            let name = if call.by_id() {
                call.args[0]
            } else {
                owner_and_list(call.args[0], false, who).1
            };
            let named = bare_name(
                if call.args.len() > 1 {
                    asked_user(call.args[1], call)
                } else {
                    who
                },
            );
            let step = performed_alone(t, call, book, Remote::DoesContain);
            &&& step.1 == Ok::<i32, StopData>(
                if members.contains(user) {
                    0
                } else {
                    1
                },
            )
            &&& step.0.said.len() > 0
            &&& members.contains(user) ==> step.0.said.last() == SayingData::Out(
                "Yes, "@ + name + " contains @"@ + named + "."@,
            )
            &&& !members.contains(user) ==> step.0.said.last() == SayingData::Complaint(
                "No, "@ + name + " does not contain @"@ + named + "."@,
            )
        }),
{
}

// ---------------------------------------------------------------------------
// Relations
// ---------------------------------------------------------------------------

/// Users that are looked up by identifier and shown.
pub open spec fn looked_up(t: Talk, ids: Seq<Seq<char>>, call: InvocationData) -> Step<i32> {
    let found = users_looked_up(t, ids, Seq::empty());
    match found.1 {
        Ok(users) => with_code(users_shown(found.0, users, call.options), 0),
        Err(stop) => (found.0, Err(stop)),
    }
}

/// The user that a command is about: the one named first, or the account.
pub open spec fn subject(call: InvocationData, book: BookData) -> Seq<char> {
    if call.args.len() > 0 {
        call.args[0]
    } else {
        book.active_name()
    }
}

/// `followers` shows those that follow the user, `followings` those that the user follows, in the
/// order in which the API gives them.
pub proof fn law_followers_and_followings_are_shown(
    t: Talk,
    call: InvocationData,
    book: BookData,
    id: Seq<char>,
    ids: Seq<Seq<char>>,
)
    requires
        comes_to(user_id_resolved(t, subject(call, book), call.by_id()), id),
    ensures
        ({
            let known = user_id_resolved(t, subject(call, book), call.by_id()).0;
            let followers = relationship_ids(known, id, "followers"@);
            let following = relationship_ids(known, id, "following"@);
            &&& comes_to(followers, ids) ==> performed_alone(t, call, book, Remote::Followers)
                == looked_up(followers.0, ids, call)
            &&& comes_to(following, ids) ==> performed_alone(t, call, book, Remote::Followings)
                == looked_up(following.0, ids, call)
        }),
{
}

/// `friends` shows those that follow the user and are followed by the user, `groupies` those that
/// follow and are not followed, `leaders` those that are followed and do not follow; each once, in
/// ascending order of their identifiers.
pub proof fn law_friends_groupies_and_leaders_are_shown(
    t: Talk,
    call: InvocationData,
    book: BookData,
    id: Seq<char>,
    following: Seq<Seq<char>>,
    followers: Seq<Seq<char>>,
    shown: Seq<Seq<char>>,
    command: Remote,
)
    requires
        ({
            let known = user_id_resolved(t, subject(call, book), call.by_id());
            let one = relationship_ids(known.0, id, "following"@);
            &&& comes_to(known, id)
            &&& comes_to(one, following)
            &&& comes_to(relationship_ids(one.0, id, "followers"@), followers)
        }),
        command == Remote::Friends || command == Remote::Groupies || command == Remote::Leaders,
        is_ordered_set(shown),
        forall|x: Seq<char>| #[trigger]
            shown.contains(x) <==> match command {
                Remote::Friends => following.contains(x) && followers.contains(x),
                Remote::Groupies => followers.contains(x) && !following.contains(x),
                _ => following.contains(x) && !followers.contains(x),
            },
    ensures
        ({
            let known = user_id_resolved(t, subject(call, book), call.by_id());
            let one = relationship_ids(known.0, id, "following"@);
            let two = relationship_ids(one.0, id, "followers"@);
            performed_alone(t, call, book, command) == looked_up(two.0, shown, call)
        }),
{
    let circle = match command {
        Remote::Friends => crate::people::Circle::Friends,
        Remote::Groupies => crate::people::Circle::Groupies,
        _ => crate::people::Circle::Leaders,
    };
    let ids = crate::people::in_circle(circle, following, followers);
    assert forall|x: Seq<char>| #[trigger] ids.contains(x) <==> shown.contains(x) by {
        crate::people::law_circles_divide_the_users(following, followers, x);
    }
    crate::people::law_circles_divide_the_users(following, followers, Seq::empty());
    lemma_ordered_sets_agree(ids, shown);
}

/// Two ascending lists without repeats that hold the same texts are the same.
pub proof fn lemma_ordered_sets_agree(a: Seq<Seq<char>>, b: Seq<Seq<char>>)
    requires
        is_ordered_set(a),
        is_ordered_set(b),
        forall|x: Seq<char>| #[trigger] a.contains(x) <==> b.contains(x),
    ensures
        a == b,
    decreases a.len(),
{
    if a.len() == 0 {
        if b.len() > 0 {
            assert(b.contains(b[0]));
            assert(a.contains(b[0]));
        }
        assert(a =~= b);
    } else {
        let x = a.last();
        assert(a.contains(x));
        assert(b.contains(x));
        let y = b.last();
        assert(b.contains(y));
        assert(a.contains(y));
        let i = choose|i: int| 0 <= i < a.len() && a[i] == y;
        let j = choose|j: int| 0 <= j < b.len() && b[j] == x;
        if x != y {
            assert(crate::idset::text_le(a[i], a[a.len() - 1]));
            assert(crate::idset::text_le(b[j], b[b.len() - 1]));
            crate::idset::lemma_text_order(x, y);
        }
        let p = a.drop_last();
        let q = b.drop_last();
        assert forall|z: Seq<char>| #[trigger] p.contains(z) <==> q.contains(z) by {
            if p.contains(z) {
                let k = choose|k: int| 0 <= k < p.len() && p[k] == z;
                assert(crate::idset::text_le(a[k], a[a.len() - 1]));
                assert(a.contains(z));
                assert(b.contains(z));
                let m = choose|m: int| 0 <= m < b.len() && b[m] == z;
                assert(q[m] == z);
            }
            if q.contains(z) {
                let k = choose|k: int| 0 <= k < q.len() && q[k] == z;
                assert(crate::idset::text_le(b[k], b[b.len() - 1]));
                assert(b.contains(z));
                assert(a.contains(z));
                let m = choose|m: int| 0 <= m < a.len() && a[m] == z;
                assert(p[m] == z);
            }
        }
        assert forall|i: int, j: int| 0 <= i < j < p.len() implies #[trigger]
            crate::idset::text_le(p[i], p[j]) && p[i] != p[j] by {
            assert(crate::idset::text_le(a[i], a[j]));
        }
        assert forall|i: int, j: int| 0 <= i < j < q.len() implies #[trigger]
            crate::idset::text_le(q[i], q[j]) && q[i] != q[j] by {
            assert(crate::idset::text_le(b[i], b[j]));
        }
        lemma_ordered_sets_agree(p, q);
        assert(a =~= p.push(x));
        assert(b =~= q.push(y));
    }
}

} // verus!
