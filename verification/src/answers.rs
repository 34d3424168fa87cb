//! What the answers of the API hold: which tweets, users, lists and identifiers, in which order,
//! and what comes along with them.

use vstd::prelude::*;

use crate::columns::says;
use crate::extract::{
    ids_in, included, includes_of, indexed, keyed, lists_in, media_of, normal_list, normal_tweet,
    normal_user, place_of, reference_id, tweets_in, user_with_pinned, users_in, Includes,
};
use crate::json::{array_in, get_in, lookup, text_in, Data, NumberData};
use crate::list::collected;
use crate::options::OptionsData;
use crate::shapes::law_tweet_counts;
use crate::show::status_rows;
use crate::time::ClockData;
use crate::words::delimited;

verus! {

// ---------------------------------------------------------------------------
// What comes along
// ---------------------------------------------------------------------------

/// A record that an answer holds along with others is found by its identifier; of several with the
/// same identifier the last counts.
pub proof fn law_included_records_are_found(records: Seq<Data>, i: int, id: Seq<char>)
    requires
        0 <= i < records.len(),
        records[i].id() == Some(id),
        forall|k: int| i < k < records.len() ==> (#[trigger] records[k]).id() != Some(id),
    ensures
        lookup(indexed(Some(records)), id) == Some(records[i]),
    decreases records.len(),
{
    let f = |d: Data| keyed(d.id(), d);
    let front = records.drop_last();
    let last = records.last();
    if i == records.len() - 1 {
        assert(collected(records, f).last() == (id, last));
    } else {
        assert(records[records.len() - 1].id() != Some(id));
        assert forall|k: int| i < k < front.len() implies (#[trigger] front[k]).id() != Some(
            id,
        ) by {
            assert(front[k] == records[k]);
        }
        law_included_records_are_found(front, i, id);
        match f(last) {
            Some(b) => {
                assert(collected(records, f).drop_last() =~= collected(front, f));
            },
            None => {},
        }
    }
}

/// Where no record has the identifier, none is found.
pub proof fn law_missing_records_are_not_found(records: Seq<Data>, id: Seq<char>)
    requires
        forall|k: int| 0 <= k < records.len() ==> (#[trigger] records[k]).id() != Some(id),
    ensures
        lookup(indexed(Some(records)), id) is None,
    decreases records.len(),
{
    let f = |d: Data| keyed(d.id(), d);
    if records.len() > 0 {
        let front = records.drop_last();
        assert(records[records.len() - 1].id() != Some(id));
        assert forall|k: int| 0 <= k < front.len() implies (#[trigger] front[k]).id() != Some(
            id,
        ) by {
            assert(front[k] == records[k]);
        }
        law_missing_records_are_not_found(front, id);
        match f(records.last()) {
            Some(b) => {
                assert(collected(records, f).drop_last() =~= collected(front, f));
            },
            None => {},
        }
    }
}

/// The author of a tweet in an answer is the user among those that come along whose identifier the
/// tweet names as its author's.
pub proof fn law_tweet_carries_its_author(
    value: Data,
    tweet: Data,
    users: Seq<Data>,
    i: int,
    id: Seq<char>,
)
    requires
        tweet.get("user"@) is None,
        tweet.text_at("author_id"@) == Some(id),
        included(value, "users"@) == Some(users),
        0 <= i < users.len(),
        users[i].id() == Some(id),
        forall|k: int| i < k < users.len() ==> (#[trigger] users[k]).id() != Some(id),
    ensures
        normal_tweet(tweet, includes_of(value)).get("user"@) == Some(normal_user(users[i])),
{
    law_included_records_are_found(users, i, id);
    crate::shapes::law_tweet_fields(tweet, includes_of(value));
}

/// The first reference of a type is the one that counts.
pub proof fn law_first_reference_counts(refs: Seq<Data>, kind: Seq<char>, i: int)
    requires
        0 <= i < refs.len(),
        refs[i].text_at("type"@) == Some(kind),
        forall|k: int| 0 <= k < i ==> (#[trigger] refs[k]).text_at("type"@) != Some(kind),
    ensures
        reference_id(Some(refs), kind) == refs[i].text_at("id"@),
    decreases refs.len(),
{
    if i > 0 {
        assert(refs[0].text_at("type"@) != Some(kind));
        let rest = refs.drop_first();
        assert forall|k: int| 0 <= k < i - 1 implies (#[trigger] rest[k]).text_at("type"@) != Some(
            kind,
        ) by {
            assert(rest[k] == refs[k + 1]);
        }
        law_first_reference_counts(rest, kind, i - 1);
    }
}

/// What a tweet replies to and what it quotes are told apart by the types of its references.
pub proof fn law_replies_and_quotes_are_told_apart(
    tweet: Data,
    inc: Includes,
    refs: Seq<Data>,
    i: int,
    kind: Seq<char>,
    id: Seq<char>,
)
    requires
        tweet.get("user"@) is None,
        tweet.array_at("referenced_tweets"@) == Some(refs),
        0 <= i < refs.len(),
        refs[i].text_at("type"@) == Some(kind),
        refs[i].text_at("id"@) == Some(id),
        forall|k: int| 0 <= k < i ==> (#[trigger] refs[k]).text_at("type"@) != Some(kind),
    ensures
        kind == "replied_to"@ ==> normal_tweet(tweet, inc).text_at("in_reply_to_status_id"@)
            == Some(id),
        kind == "quoted"@ ==> normal_tweet(tweet, inc).text_at("quoted_status_id"@) == Some(id),
{
    law_first_reference_counts(refs, kind, i);
    crate::shapes::law_tweet_fields(tweet, inc);
}

// ---------------------------------------------------------------------------
// Answers
// ---------------------------------------------------------------------------

/// An answer with several tweets holds all of them, in order and in the older shape; an answer with
/// one holds that one; a list of tweets is taken as it is.
pub proof fn law_answers_hold_tweets(value: Data, items: Seq<Data>, i: int)
    ensures
        value == Data::Array(items) ==> tweets_in(value) == items,
        value.as_array() is None && value.array_at("statuses"@) is None && value.get("data"@)
            == Some(Data::Array(items)) ==> tweets_in(value).len() == items.len() && (0 <= i
            < items.len() ==> tweets_in(value)[i] == normal_tweet(items[i], includes_of(value))),
        value.as_array() is None && value.array_at("statuses"@) is None && value.get(
            "data"@,
        ) is Some && value.get("data"@)->Some_0 is Object ==> tweets_in(value) == seq![
            normal_tweet(value.get("data"@)->Some_0, includes_of(value)),
        ],
{
}

/// An answer with several users holds all of them, in order and in the older shape, each with the
/// tweet that the user has pinned; an answer with one holds that one.
pub proof fn law_answers_hold_users(value: Data, items: Seq<Data>, i: int)
    requires
        value.as_array() is None,
        value.array_at("users"@) is None,
    ensures
        value.get("data"@) == Some(Data::Array(items)) ==> users_in(value).len() == items.len()
            && (0 <= i < items.len() ==> users_in(value)[i] == user_with_pinned(
            items[i],
            indexed(included(value, "tweets"@)),
        )),
        value.get("data"@) matches Some(Data::Object(o)) ==> users_in(value) == seq![
            user_with_pinned(
                value.get("data"@)->Some_0,
                indexed(included(value, "tweets"@)),
            ),
        ],
{
}

/// A user keeps all fields where a pinned tweet comes along; the tweet is the user's status.
pub proof fn law_pinned_tweet_is_the_status(
    user: Data,
    tweets: Seq<(Seq<char>, Data)>,
    key: Seq<char>,
)
    requires
        user.get("screen_name"@) is None,
    ensures
        user.text_at("pinned_tweet_id"@) is None ==> user_with_pinned(user, tweets) == normal_user(
            user,
        ),
        key != "status"@ ==> user_with_pinned(user, tweets).get(key) == normal_user(user).get(key),
        user.text_at("pinned_tweet_id"@) matches Some(id) ==> (lookup(tweets, id) matches Some(
            tweet,
        ) ==> user_with_pinned(user, tweets).get("status"@) == Some(
            normal_tweet(tweet, Includes::none()),
        )),
{
    if let Some(id) = user.text_at("pinned_tweet_id"@) {
        if let Some(tweet) = lookup(tweets, id) {
            let entries = normal_user(user)->Object_0;
            let all = entries.push(("status"@, normal_tweet(tweet, Includes::none())));
            assert(all.drop_last() =~= entries);
        }
    }
}

/// An answer with several lists holds all of them, in order and in the older shape, each with its
/// owner; an answer with one holds that one.
pub proof fn law_answers_hold_lists(value: Data, items: Seq<Data>, i: int)
    requires
        value.as_array() is None,
        value.array_at("lists"@) is None,
    ensures
        value.get("data"@) == Some(Data::Array(items)) ==> lists_in(value).len() == items.len()
            && (0 <= i < items.len() ==> lists_in(value)[i] == normal_list(
            items[i],
            indexed(included(value, "users"@)),
        )),
        value.get("data"@) matches Some(Data::Object(o)) ==> lists_in(value) == seq![
            normal_list(value.get("data"@)->Some_0, indexed(included(value, "users"@))),
        ],
{
}

/// The identifiers in an answer are those of its records, in order.
pub proof fn law_answers_hold_identifiers(value: Data, items: Seq<Data>, i: int)
    requires
        value.array_at("ids"@) is None,
        value.get("data"@) == Some(Data::Array(items)),
        forall|k: int| 0 <= k < items.len() ==> (#[trigger] items[k]).id() is Some,
        0 <= i < items.len(),
    ensures
        ids_in(value).len() == items.len(),
        items[i].id() == Some(ids_in(value)[i]),
{
    lemma_all_ids(items, i);
}

proof fn lemma_all_ids(items: Seq<Data>, i: int)
    requires
        forall|k: int| 0 <= k < items.len() ==> (#[trigger] items[k]).id() is Some,
        0 <= i < items.len(),
    ensures
        collected(items, |d: Data| d.id()).len() == items.len(),
        items[i].id() == Some(collected(items, |d: Data| d.id())[i]),
    decreases items.len(),
{
    let front = items.drop_last();
    assert(items[items.len() - 1].id() is Some);
    assert forall|k: int| 0 <= k < front.len() implies (#[trigger] front[k]).id() is Some by {
        assert(front[k] == items[k]);
    }
    if front.len() > 0 {
        lemma_all_ids(
            front,
            if i < front.len() {
                i
            } else {
                0
            },
        );
    }
}

/// A tweet's likes are shown as its favorites: whatever the other counts are, `status` says them
/// behind that label, with commas between the thousands; the retweets likewise.
pub proof fn law_likes_are_shown_as_favorites(
    tweet: Data,
    inc: Includes,
    likes: u64,
    retweets: u64,
    options: OptionsData,
    clock: ClockData,
)
    requires
        tweet.get("user"@) is None,
        likes <= 0x7fff_ffff_ffff_ffff,
        retweets <= 0x7fff_ffff_ffff_ffff,
        get_in(tweet.get("public_metrics"@), "like_count"@) == Some(
            Data::Number(NumberData::Unsigned(likes)),
        ),
        get_in(tweet.get("public_metrics"@), "retweet_count"@) == Some(
            Data::Number(NumberData::Unsigned(retweets)),
        ),
    ensures
        says(
            status_rows(normal_tweet(tweet, inc), options, clock),
            "Favorites"@,
            delimited(likes as int, ','),
        ),
        says(
            status_rows(normal_tweet(tweet, inc), options, clock),
            "Retweets"@,
            delimited(retweets as int, ','),
        ),
{
    law_tweet_counts(tweet, inc);
    crate::columns::law_status_details(normal_tweet(tweet, inc), options, clock);
}

/// The place of a tweet is the one among those that come along that it names, and its media are
/// those, in the order in which it names them.
pub proof fn law_place_and_media_come_along(
    tweet: Data,
    places: Seq<(Seq<char>, Data)>,
    media: Seq<(Seq<char>, Data)>,
)
    ensures
        place_of(tweet, places) == (match text_in(get_in(tweet.get("geo"@), "place_id"@)) {
            Some(id) => lookup(places, id),
            None => None,
        }),
        array_in(get_in(tweet.get("attachments"@), "media_keys"@)) is None ==> media_of(
            tweet,
            media,
        ).len() == 0,
        array_in(get_in(tweet.get("attachments"@), "media_keys"@)) matches Some(keys) ==> (
        keys.len() == 1 && keys[0] is Text && lookup(media, keys[0]->Text_0) is Some ==> media_of(
            tweet,
            media,
        ) == seq![lookup(media, keys[0]->Text_0)->Some_0]),
{
    if let Some(keys) = array_in(get_in(tweet.get("attachments"@), "media_keys"@)) {
        if keys.len() == 1 && keys[0] is Text && lookup(media, keys[0]->Text_0) is Some {
            reveal_with_fuel(collected, 2);
            assert(keys.drop_last().len() == 0);
            assert(media_of(tweet, media) =~= seq![lookup(media, keys[0]->Text_0)->Some_0]);
        }
    }
}

} // verus!
