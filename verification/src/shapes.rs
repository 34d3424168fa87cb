//! What tweets, users and lists hold once they are in the older shape: each field of a record
//! comes from the one field of the answer that it stands for.

use vstd::prelude::*;

use crate::extract::{
    articles_in, author_of, array_entry, flat_tweet, id_entries, media_of, normal_list,
    normal_tweet, normal_user, place_of, quoted_of, reference_id, Includes,
};
use crate::json::{entry, get_in, lookup, or_empty, text_entry, text_in, Data};

verus! {

// ---------------------------------------------------------------------------
// Entries
// ---------------------------------------------------------------------------

/// Of two lists of entries, the second counts where it has the key.
pub broadcast proof fn lemma_lookup_both(
    a: Seq<(Seq<char>, Data)>,
    b: Seq<(Seq<char>, Data)>,
    key: Seq<char>,
)
    ensures
        #[trigger] lookup(a + b, key) == (match lookup(b, key) {
            Some(v) => Some(v),
            None => lookup(a, key),
        }),
    decreases b.len(),
{
    if b.len() == 0 {
        assert(a + b =~= a);
    } else {
        assert((a + b).drop_last() =~= a + b.drop_last());
        assert((a + b).last() == b.last());
        lemma_lookup_both(a, b.drop_last(), key);
    }
}

pub broadcast proof fn lemma_lookup_entry(k: Seq<char>, value: Option<Data>, key: Seq<char>)
    ensures
        #[trigger] lookup(entry(k, value), key) == (if k == key {
            value
        } else {
            None
        }),
{
    reveal_with_fuel(lookup, 2);
    assert(entry(k, value).len() <= 1);
}

pub broadcast proof fn lemma_lookup_text_entry(
    k: Seq<char>,
    value: Option<Seq<char>>,
    key: Seq<char>,
)
    ensures
        #[trigger] lookup(text_entry(k, value), key) == (if k == key {
            as_text(value)
        } else {
            None
        }),
{
    reveal_with_fuel(lookup, 2);
    assert(text_entry(k, value).len() <= 1);
}

pub broadcast proof fn lemma_lookup_array_entry(k: Seq<char>, items: Seq<Data>, key: Seq<char>)
    ensures
        #[trigger] lookup(array_entry(k, items), key) == (if k == key {
            as_array(items)
        } else {
            None
        }),
{
    reveal_with_fuel(lookup, 2);
    assert(array_entry(k, items).len() <= 1);
}

broadcast proof fn lemma_lookup_one(k: Seq<char>, value: Data, key: Seq<char>)
    ensures
        #[trigger] lookup(seq![(k, value)], key) == (if k == key {
            Some(value)
        } else {
            None
        }),
{
    reveal_with_fuel(lookup, 2);
}

/// A text as a value, where there is one.
pub open spec fn as_text(text: Option<Seq<char>>) -> Option<Data> {
    match text {
        Some(s) => Some(Data::Text(s)),
        None => None,
    }
}

/// Items as a value, where there are any.
pub open spec fn as_array(items: Seq<Data>) -> Option<Data> {
    if items.len() > 0 {
        Some(Data::Array(items))
    } else {
        None
    }
}

/// The identifier of a record as a value, where it has one.
pub open spec fn id_value(record: Data) -> Option<Data> {
    match record.id() {
        Some(id) => if id.len() > 0 {
            Some(Data::Text(id))
        } else {
            None
        },
        None => None,
    }
}

broadcast proof fn lemma_lookup_ids(record: Data, key: Seq<char>)
    ensures
        #[trigger] lookup(id_entries(record), key) == (if key == "id"@ || key == "id_str"@ {
            id_value(record)
        } else {
            None
        }),
{
    reveal_with_fuel(lookup, 3);
    reveal_strlit("id");
    reveal_strlit("id_str");
    let entries = id_entries(record);
    if entries.len() > 0 {
        assert(entries.drop_last() =~= seq![("id"@, entries[0].1)]);
        assert(entries.drop_last().drop_last().len() == 0);
    }
}

broadcast group group_lookup {
    lemma_lookup_both,
    lemma_lookup_entry,
    lemma_lookup_text_entry,
    lemma_lookup_array_entry,
    lemma_lookup_one,
    lemma_lookup_ids,
}

// ---------------------------------------------------------------------------
// Tweets
// ---------------------------------------------------------------------------

/// The counts of a tweet are those that its metrics give: likes as favorites, and retweets, replies
/// and quotes under their own names, each whatever the others are.
pub proof fn law_tweet_counts(tweet: Data, inc: Includes)
    requires
        tweet.get("user"@) is None,
    ensures
        ({
            let normal = normal_tweet(tweet, inc);
            let metrics = tweet.get("public_metrics"@);
            &&& normal.get("favorite_count"@) == get_in(metrics, "like_count"@)
            &&& normal.get("retweet_count"@) == get_in(metrics, "retweet_count"@)
            &&& normal.get("reply_count"@) == get_in(metrics, "reply_count"@)
            &&& normal.get("quote_count"@) == get_in(metrics, "quote_count"@)
        }),
{
    lemma_flat_tweet(tweet, inc, quoted_of(tweet.array_at("referenced_tweets"@), inc));
}

/// A tweet keeps its identifier, text, time, source, conversation and entities; what it replies to
/// and what it quotes are the first references of those types; its author, place and media are
/// those that the answer gives along with it.
pub proof fn law_tweet_fields(tweet: Data, inc: Includes)
    requires
        tweet.get("user"@) is None,
    ensures
        ({
            let normal = normal_tweet(tweet, inc);
            let refs = tweet.array_at("referenced_tweets"@);
            let text = text_in(tweet.get_either("full_text"@, "text"@));
            &&& normal.get("id"@) == id_value(tweet)
            &&& normal.get("id_str"@) == id_value(tweet)
            &&& normal.get("text"@) == as_text(text)
            &&& normal.get("full_text"@) == as_text(text)
            &&& normal.get("created_at"@) == as_text(tweet.text_at("created_at"@))
            &&& normal.get("source"@) == tweet.get("source"@)
            &&& normal.get("conversation_id"@) == as_text(tweet.text_at("conversation_id"@))
            &&& normal.get("entities"@) == tweet.get("entities"@)
            &&& normal.get("in_reply_to_status_id"@) == as_text(
                reference_id(refs, "replied_to"@),
            )
            &&& normal.get("quoted_status_id"@) == as_text(reference_id(refs, "quoted"@))
            &&& normal.get("quoted_status"@) == quoted_of(refs, inc)
            &&& normal.get("user"@) == author_of(tweet, inc.users)
            &&& normal.get("place"@) == place_of(tweet, inc.places)
            &&& normal.get("media"@) == as_array(media_of(tweet, inc.media))
            &&& normal.get("articles"@) == as_array(articles_in(tweet.get("entities"@)))
        }),
{
    lemma_flat_tweet(tweet, inc, quoted_of(tweet.array_at("referenced_tweets"@), inc));
}

proof fn lemma_flat_tweet(tweet: Data, inc: Includes, quoted: Option<Data>)
    requires
        tweet.get("user"@) is None,
    ensures
        ({
            let normal = flat_tweet(tweet, inc, quoted);
            let metrics = tweet.get("public_metrics"@);
            let refs = tweet.array_at("referenced_tweets"@);
            let text = text_in(tweet.get_either("full_text"@, "text"@));
            &&& normal.get("favorite_count"@) == get_in(metrics, "like_count"@)
            &&& normal.get("retweet_count"@) == get_in(metrics, "retweet_count"@)
            &&& normal.get("reply_count"@) == get_in(metrics, "reply_count"@)
            &&& normal.get("quote_count"@) == get_in(metrics, "quote_count"@)
            &&& normal.get("id"@) == id_value(tweet)
            &&& normal.get("id_str"@) == id_value(tweet)
            &&& normal.get("text"@) == as_text(text)
            &&& normal.get("full_text"@) == as_text(text)
            &&& normal.get("created_at"@) == as_text(tweet.text_at("created_at"@))
            &&& normal.get("source"@) == tweet.get("source"@)
            &&& normal.get("conversation_id"@) == as_text(tweet.text_at("conversation_id"@))
            &&& normal.get("entities"@) == tweet.get("entities"@)
            &&& normal.get("in_reply_to_status_id"@) == as_text(
                reference_id(refs, "replied_to"@),
            )
            &&& normal.get("quoted_status_id"@) == as_text(reference_id(refs, "quoted"@))
            &&& normal.get("quoted_status"@) == quoted
            &&& normal.get("user"@) == author_of(tweet, inc.users)
            &&& normal.get("place"@) == place_of(tweet, inc.places)
            &&& normal.get("media"@) == as_array(media_of(tweet, inc.media))
            &&& normal.get("articles"@) == as_array(articles_in(tweet.get("entities"@)))
        }),
{
    broadcast use group_lookup;
    lemma_tweet_keys();
}

proof fn lemma_tweet_keys()
    ensures
        "id"@ != "id_str"@,
        "id"@ != "text"@,
        "id"@ != "full_text"@,
        "id"@ != "created_at"@,
        "id"@ != "source"@,
        "id"@ != "conversation_id"@,
        "id"@ != "in_reply_to_status_id"@,
        "id"@ != "quoted_status_id"@,
        "id"@ != "quoted_status"@,
        "id"@ != "entities"@,
        "id"@ != "articles"@,
        "id"@ != "retweet_count"@,
        "id"@ != "favorite_count"@,
        "id"@ != "reply_count"@,
        "id"@ != "quote_count"@,
        "id"@ != "user"@,
        "id"@ != "place"@,
        "id"@ != "media"@,
        "id_str"@ != "text"@,
        "id_str"@ != "full_text"@,
        "id_str"@ != "created_at"@,
        "id_str"@ != "source"@,
        "id_str"@ != "conversation_id"@,
        "id_str"@ != "in_reply_to_status_id"@,
        "id_str"@ != "quoted_status_id"@,
        "id_str"@ != "quoted_status"@,
        "id_str"@ != "entities"@,
        "id_str"@ != "articles"@,
        "id_str"@ != "retweet_count"@,
        "id_str"@ != "favorite_count"@,
        "id_str"@ != "reply_count"@,
        "id_str"@ != "quote_count"@,
        "id_str"@ != "user"@,
        "id_str"@ != "place"@,
        "id_str"@ != "media"@,
        "text"@ != "full_text"@,
        "text"@ != "created_at"@,
        "text"@ != "source"@,
        "text"@ != "conversation_id"@,
        "text"@ != "in_reply_to_status_id"@,
        "text"@ != "quoted_status_id"@,
        "text"@ != "quoted_status"@,
        "text"@ != "entities"@,
        "text"@ != "articles"@,
        "text"@ != "retweet_count"@,
        "text"@ != "favorite_count"@,
        "text"@ != "reply_count"@,
        "text"@ != "quote_count"@,
        "text"@ != "user"@,
        "text"@ != "place"@,
        "text"@ != "media"@,
        "full_text"@ != "created_at"@,
        "full_text"@ != "source"@,
        "full_text"@ != "conversation_id"@,
        "full_text"@ != "in_reply_to_status_id"@,
        "full_text"@ != "quoted_status_id"@,
        "full_text"@ != "quoted_status"@,
        "full_text"@ != "entities"@,
        "full_text"@ != "articles"@,
        "full_text"@ != "retweet_count"@,
        "full_text"@ != "favorite_count"@,
        "full_text"@ != "reply_count"@,
        "full_text"@ != "quote_count"@,
        "full_text"@ != "user"@,
        "full_text"@ != "place"@,
        "full_text"@ != "media"@,
        "created_at"@ != "source"@,
        "created_at"@ != "conversation_id"@,
        "created_at"@ != "in_reply_to_status_id"@,
        "created_at"@ != "quoted_status_id"@,
        "created_at"@ != "quoted_status"@,
        "created_at"@ != "entities"@,
        "created_at"@ != "articles"@,
        "created_at"@ != "retweet_count"@,
        "created_at"@ != "favorite_count"@,
        "created_at"@ != "reply_count"@,
        "created_at"@ != "quote_count"@,
        "created_at"@ != "user"@,
        "created_at"@ != "place"@,
        "created_at"@ != "media"@,
        "source"@ != "conversation_id"@,
        "source"@ != "in_reply_to_status_id"@,
        "source"@ != "quoted_status_id"@,
        "source"@ != "quoted_status"@,
        "source"@ != "entities"@,
        "source"@ != "articles"@,
        "source"@ != "retweet_count"@,
        "source"@ != "favorite_count"@,
        "source"@ != "reply_count"@,
        "source"@ != "quote_count"@,
        "source"@ != "user"@,
        "source"@ != "place"@,
        "source"@ != "media"@,
        "conversation_id"@ != "in_reply_to_status_id"@,
        "conversation_id"@ != "quoted_status_id"@,
        "conversation_id"@ != "quoted_status"@,
        "conversation_id"@ != "entities"@,
        "conversation_id"@ != "articles"@,
        "conversation_id"@ != "retweet_count"@,
        "conversation_id"@ != "favorite_count"@,
        "conversation_id"@ != "reply_count"@,
        "conversation_id"@ != "quote_count"@,
        "conversation_id"@ != "user"@,
        "conversation_id"@ != "place"@,
        "conversation_id"@ != "media"@,
        "in_reply_to_status_id"@ != "quoted_status_id"@,
        "in_reply_to_status_id"@ != "quoted_status"@,
        "in_reply_to_status_id"@ != "entities"@,
        "in_reply_to_status_id"@ != "articles"@,
        "in_reply_to_status_id"@ != "retweet_count"@,
        "in_reply_to_status_id"@ != "favorite_count"@,
        "in_reply_to_status_id"@ != "reply_count"@,
        "in_reply_to_status_id"@ != "quote_count"@,
        "in_reply_to_status_id"@ != "user"@,
        "in_reply_to_status_id"@ != "place"@,
        "in_reply_to_status_id"@ != "media"@,
        "quoted_status_id"@ != "quoted_status"@,
        "quoted_status_id"@ != "entities"@,
        "quoted_status_id"@ != "articles"@,
        "quoted_status_id"@ != "retweet_count"@,
        "quoted_status_id"@ != "favorite_count"@,
        "quoted_status_id"@ != "reply_count"@,
        "quoted_status_id"@ != "quote_count"@,
        "quoted_status_id"@ != "user"@,
        "quoted_status_id"@ != "place"@,
        "quoted_status_id"@ != "media"@,
        "quoted_status"@ != "entities"@,
        "quoted_status"@ != "articles"@,
        "quoted_status"@ != "retweet_count"@,
        "quoted_status"@ != "favorite_count"@,
        "quoted_status"@ != "reply_count"@,
        "quoted_status"@ != "quote_count"@,
        "quoted_status"@ != "user"@,
        "quoted_status"@ != "place"@,
        "quoted_status"@ != "media"@,
        "entities"@ != "articles"@,
        "entities"@ != "retweet_count"@,
        "entities"@ != "favorite_count"@,
        "entities"@ != "reply_count"@,
        "entities"@ != "quote_count"@,
        "entities"@ != "user"@,
        "entities"@ != "place"@,
        "entities"@ != "media"@,
        "articles"@ != "retweet_count"@,
        "articles"@ != "favorite_count"@,
        "articles"@ != "reply_count"@,
        "articles"@ != "quote_count"@,
        "articles"@ != "user"@,
        "articles"@ != "place"@,
        "articles"@ != "media"@,
        "retweet_count"@ != "favorite_count"@,
        "retweet_count"@ != "reply_count"@,
        "retweet_count"@ != "quote_count"@,
        "retweet_count"@ != "user"@,
        "retweet_count"@ != "place"@,
        "retweet_count"@ != "media"@,
        "favorite_count"@ != "reply_count"@,
        "favorite_count"@ != "quote_count"@,
        "favorite_count"@ != "user"@,
        "favorite_count"@ != "place"@,
        "favorite_count"@ != "media"@,
        "reply_count"@ != "quote_count"@,
        "reply_count"@ != "user"@,
        "reply_count"@ != "place"@,
        "reply_count"@ != "media"@,
        "quote_count"@ != "user"@,
        "quote_count"@ != "place"@,
        "quote_count"@ != "media"@,
        "user"@ != "place"@,
        "user"@ != "media"@,
        "place"@ != "media"@,
{
    reveal_strlit("id");
    assert("id"@.len() == 2);
    reveal_strlit("id_str");
    assert("id_str"@.len() == 6);
    reveal_strlit("text");
    assert("text"@.len() == 4);
    reveal_strlit("full_text");
    assert("full_text"@.len() == 9);
    reveal_strlit("created_at");
    assert("created_at"@.len() == 10);
    reveal_strlit("source");
    assert("source"@.len() == 6);
    reveal_strlit("conversation_id");
    assert("conversation_id"@.len() == 15);
    reveal_strlit("in_reply_to_status_id");
    assert("in_reply_to_status_id"@.len() == 21);
    reveal_strlit("quoted_status_id");
    assert("quoted_status_id"@.len() == 16);
    reveal_strlit("quoted_status");
    assert("quoted_status"@.len() == 13);
    reveal_strlit("entities");
    assert("entities"@.len() == 8);
    reveal_strlit("articles");
    assert("articles"@.len() == 8);
    reveal_strlit("retweet_count");
    assert("retweet_count"@.len() == 13);
    reveal_strlit("favorite_count");
    assert("favorite_count"@.len() == 14);
    reveal_strlit("reply_count");
    assert("reply_count"@.len() == 11);
    reveal_strlit("quote_count");
    assert("quote_count"@.len() == 11);
    reveal_strlit("user");
    assert("user"@.len() == 4);
    reveal_strlit("place");
    assert("place"@.len() == 5);
    reveal_strlit("media");
    assert("media"@.len() == 5);
    assert("id_str"@[0] != "source"@[0]);
    assert("text"@[0] != "user"@[0]);
    assert("quoted_status"@[0] != "retweet_count"@[0]);
    assert("entities"@[0] != "articles"@[0]);
    assert("reply_count"@[0] != "quote_count"@[0]);
    assert("place"@[0] != "media"@[0]);
}


// ---------------------------------------------------------------------------
// Users
// ---------------------------------------------------------------------------

/// The fields of a user come from the fields of the same meaning: the screen name is the user name,
/// and the counts are those of tweets, likes, lists, followed users and followers.
#[verifier::rlimit(40)]
pub proof fn law_user_fields(user: Data)
    requires
        user.get("screen_name"@) is None,
    ensures
        ({
            let normal = normal_user(user);
            let metrics = user.get("public_metrics"@);
            let name = as_text(user.text_at("username"@));
            &&& normal.get("id"@) == id_value(user)
            &&& normal.get("id_str"@) == id_value(user)
            &&& normal.get("screen_name"@) == name
            &&& normal.get("username"@) == name
            &&& normal.get("created_at"@) == user.get("created_at"@)
            &&& normal.get("name"@) == user.get("name"@)
            &&& normal.get("verified"@) == user.get("verified"@)
            &&& normal.get("protected"@) == user.get("protected"@)
            &&& normal.get("description"@) == user.get("description"@)
            &&& normal.get("location"@) == user.get("location"@)
            &&& normal.get("url"@) == user.get("url"@)
            &&& normal.get("statuses_count"@) == get_in(metrics, "tweet_count"@)
            &&& normal.get("favourites_count"@) == get_in(metrics, "like_count"@)
            &&& normal.get("favorites_count"@) == get_in(metrics, "like_count"@)
            &&& normal.get("listed_count"@) == get_in(metrics, "listed_count"@)
            &&& normal.get("friends_count"@) == get_in(metrics, "following_count"@)
            &&& normal.get("followers_count"@) == get_in(metrics, "followers_count"@)
        }),
{
    broadcast use group_lookup;
    lemma_user_keys();
}

proof fn lemma_user_keys()
    ensures
        "id"@ != "id_str"@,
        "id"@ != "screen_name"@,
        "id"@ != "username"@,
        "id"@ != "created_at"@,
        "id"@ != "name"@,
        "id"@ != "verified"@,
        "id"@ != "protected"@,
        "id"@ != "description"@,
        "id"@ != "location"@,
        "id"@ != "url"@,
        "id"@ != "statuses_count"@,
        "id"@ != "favourites_count"@,
        "id"@ != "favorites_count"@,
        "id"@ != "listed_count"@,
        "id"@ != "friends_count"@,
        "id"@ != "followers_count"@,
        "id_str"@ != "screen_name"@,
        "id_str"@ != "username"@,
        "id_str"@ != "created_at"@,
        "id_str"@ != "name"@,
        "id_str"@ != "verified"@,
        "id_str"@ != "protected"@,
        "id_str"@ != "description"@,
        "id_str"@ != "location"@,
        "id_str"@ != "url"@,
        "id_str"@ != "statuses_count"@,
        "id_str"@ != "favourites_count"@,
        "id_str"@ != "favorites_count"@,
        "id_str"@ != "listed_count"@,
        "id_str"@ != "friends_count"@,
        "id_str"@ != "followers_count"@,
        "screen_name"@ != "username"@,
        "screen_name"@ != "created_at"@,
        "screen_name"@ != "name"@,
        "screen_name"@ != "verified"@,
        "screen_name"@ != "protected"@,
        "screen_name"@ != "description"@,
        "screen_name"@ != "location"@,
        "screen_name"@ != "url"@,
        "screen_name"@ != "statuses_count"@,
        "screen_name"@ != "favourites_count"@,
        "screen_name"@ != "favorites_count"@,
        "screen_name"@ != "listed_count"@,
        "screen_name"@ != "friends_count"@,
        "screen_name"@ != "followers_count"@,
        "username"@ != "created_at"@,
        "username"@ != "name"@,
        "username"@ != "verified"@,
        "username"@ != "protected"@,
        "username"@ != "description"@,
        "username"@ != "location"@,
        "username"@ != "url"@,
        "username"@ != "statuses_count"@,
        "username"@ != "favourites_count"@,
        "username"@ != "favorites_count"@,
        "username"@ != "listed_count"@,
        "username"@ != "friends_count"@,
        "username"@ != "followers_count"@,
        "created_at"@ != "name"@,
        "created_at"@ != "verified"@,
        "created_at"@ != "protected"@,
        "created_at"@ != "description"@,
        "created_at"@ != "location"@,
        "created_at"@ != "url"@,
        "created_at"@ != "statuses_count"@,
        "created_at"@ != "favourites_count"@,
        "created_at"@ != "favorites_count"@,
        "created_at"@ != "listed_count"@,
        "created_at"@ != "friends_count"@,
        "created_at"@ != "followers_count"@,
        "name"@ != "verified"@,
        "name"@ != "protected"@,
        "name"@ != "description"@,
        "name"@ != "location"@,
        "name"@ != "url"@,
        "name"@ != "statuses_count"@,
        "name"@ != "favourites_count"@,
        "name"@ != "favorites_count"@,
        "name"@ != "listed_count"@,
        "name"@ != "friends_count"@,
        "name"@ != "followers_count"@,
        "verified"@ != "protected"@,
        "verified"@ != "description"@,
        "verified"@ != "location"@,
        "verified"@ != "url"@,
        "verified"@ != "statuses_count"@,
        "verified"@ != "favourites_count"@,
        "verified"@ != "favorites_count"@,
        "verified"@ != "listed_count"@,
        "verified"@ != "friends_count"@,
        "verified"@ != "followers_count"@,
        "protected"@ != "description"@,
        "protected"@ != "location"@,
        "protected"@ != "url"@,
        "protected"@ != "statuses_count"@,
        "protected"@ != "favourites_count"@,
        "protected"@ != "favorites_count"@,
        "protected"@ != "listed_count"@,
        "protected"@ != "friends_count"@,
        "protected"@ != "followers_count"@,
        "description"@ != "location"@,
        "description"@ != "url"@,
        "description"@ != "statuses_count"@,
        "description"@ != "favourites_count"@,
        "description"@ != "favorites_count"@,
        "description"@ != "listed_count"@,
        "description"@ != "friends_count"@,
        "description"@ != "followers_count"@,
        "location"@ != "url"@,
        "location"@ != "statuses_count"@,
        "location"@ != "favourites_count"@,
        "location"@ != "favorites_count"@,
        "location"@ != "listed_count"@,
        "location"@ != "friends_count"@,
        "location"@ != "followers_count"@,
        "url"@ != "statuses_count"@,
        "url"@ != "favourites_count"@,
        "url"@ != "favorites_count"@,
        "url"@ != "listed_count"@,
        "url"@ != "friends_count"@,
        "url"@ != "followers_count"@,
        "statuses_count"@ != "favourites_count"@,
        "statuses_count"@ != "favorites_count"@,
        "statuses_count"@ != "listed_count"@,
        "statuses_count"@ != "friends_count"@,
        "statuses_count"@ != "followers_count"@,
        "favourites_count"@ != "favorites_count"@,
        "favourites_count"@ != "listed_count"@,
        "favourites_count"@ != "friends_count"@,
        "favourites_count"@ != "followers_count"@,
        "favorites_count"@ != "listed_count"@,
        "favorites_count"@ != "friends_count"@,
        "favorites_count"@ != "followers_count"@,
        "listed_count"@ != "friends_count"@,
        "listed_count"@ != "followers_count"@,
        "friends_count"@ != "followers_count"@,
{
    reveal_strlit("id");
    assert("id"@.len() == 2);
    reveal_strlit("id_str");
    assert("id_str"@.len() == 6);
    reveal_strlit("screen_name");
    assert("screen_name"@.len() == 11);
    reveal_strlit("username");
    assert("username"@.len() == 8);
    reveal_strlit("created_at");
    assert("created_at"@.len() == 10);
    reveal_strlit("name");
    assert("name"@.len() == 4);
    reveal_strlit("verified");
    assert("verified"@.len() == 8);
    reveal_strlit("protected");
    assert("protected"@.len() == 9);
    reveal_strlit("description");
    assert("description"@.len() == 11);
    reveal_strlit("location");
    assert("location"@.len() == 8);
    reveal_strlit("url");
    assert("url"@.len() == 3);
    reveal_strlit("statuses_count");
    assert("statuses_count"@.len() == 14);
    reveal_strlit("favourites_count");
    assert("favourites_count"@.len() == 16);
    reveal_strlit("favorites_count");
    assert("favorites_count"@.len() == 15);
    reveal_strlit("listed_count");
    assert("listed_count"@.len() == 12);
    reveal_strlit("friends_count");
    assert("friends_count"@.len() == 13);
    reveal_strlit("followers_count");
    assert("followers_count"@.len() == 15);
    assert("screen_name"@[0] != "description"@[0]);
    assert("username"@[0] != "verified"@[0]);
    assert("username"@[0] != "location"@[0]);
    assert("verified"@[0] != "location"@[0]);
    assert("favorites_count"@[1] != "followers_count"@[1]);
}


// ---------------------------------------------------------------------------
// Lists
// ---------------------------------------------------------------------------

/// The fields of a list come from the fields of the same meaning: the slug is the name, the
/// subscribers are the followers, and it is private where the answer says so.
#[verifier::rlimit(40)]
pub proof fn law_list_fields(list: Data, users: Seq<(Seq<char>, Data)>)
    requires
        list.get("slug"@) is None,
        list.get("full_name"@) is None,
    ensures
        ({
            let normal = normal_list(list, users);
            let owner = match list.text_at("owner_id"@) {
                Some(id) => match lookup(users, id) {
                    Some(user) => Some(normal_user(user)),
                    None => None,
                },
                None => None,
            };
            &&& normal.get("id"@) == id_value(list)
            &&& normal.get("id_str"@) == id_value(list)
            &&& normal.get("slug"@) == Some(Data::Text(or_empty(list.text_at("name"@))))
            &&& normal.get("created_at"@) == list.get("created_at"@)
            &&& normal.get("description"@) == list.get("description"@)
            &&& normal.get("member_count"@) == list.get("member_count"@)
            &&& normal.get("subscriber_count"@) == list.get_either(
                "subscriber_count"@,
                "follower_count"@,
            )
            &&& list.get("mode"@) is None && list.flag_at("private"@) == Some(true)
                ==> normal.get("mode"@) == Some(Data::Text("private"@))
            &&& list.get("mode"@) is None && list.flag_at("private"@) == Some(false)
                ==> normal.get("mode"@) == Some(Data::Text("public"@))
            &&& list.get("mode"@) is Some ==> normal.get("mode"@) == list.get("mode"@)
            &&& normal.get("user"@) == owner
            &&& owner matches Some(user) ==> (user.words_at("screen_name"@).len() > 0
                ==> normal.get("full_name"@) == Some(
                Data::Text(
                    "@"@ + user.words_at("screen_name"@) + "/"@ + or_empty(
                        list.text_at("name"@),
                    ),
                ),
            ))
            &&& normal.get("uri"@) == Some(
                Data::Text("https://x.com/i/lists/"@ + or_empty(list.id())),
            )
        }),
{
    broadcast use group_lookup;
    lemma_list_keys();
}

proof fn lemma_list_keys()
    ensures
        "id"@ != "id_str"@,
        "id"@ != "slug"@,
        "id"@ != "created_at"@,
        "id"@ != "description"@,
        "id"@ != "member_count"@,
        "id"@ != "subscriber_count"@,
        "id"@ != "mode"@,
        "id"@ != "full_name"@,
        "id"@ != "user"@,
        "id"@ != "uri"@,
        "id_str"@ != "slug"@,
        "id_str"@ != "created_at"@,
        "id_str"@ != "description"@,
        "id_str"@ != "member_count"@,
        "id_str"@ != "subscriber_count"@,
        "id_str"@ != "mode"@,
        "id_str"@ != "full_name"@,
        "id_str"@ != "user"@,
        "id_str"@ != "uri"@,
        "slug"@ != "created_at"@,
        "slug"@ != "description"@,
        "slug"@ != "member_count"@,
        "slug"@ != "subscriber_count"@,
        "slug"@ != "mode"@,
        "slug"@ != "full_name"@,
        "slug"@ != "user"@,
        "slug"@ != "uri"@,
        "created_at"@ != "description"@,
        "created_at"@ != "member_count"@,
        "created_at"@ != "subscriber_count"@,
        "created_at"@ != "mode"@,
        "created_at"@ != "full_name"@,
        "created_at"@ != "user"@,
        "created_at"@ != "uri"@,
        "description"@ != "member_count"@,
        "description"@ != "subscriber_count"@,
        "description"@ != "mode"@,
        "description"@ != "full_name"@,
        "description"@ != "user"@,
        "description"@ != "uri"@,
        "member_count"@ != "subscriber_count"@,
        "member_count"@ != "mode"@,
        "member_count"@ != "full_name"@,
        "member_count"@ != "user"@,
        "member_count"@ != "uri"@,
        "subscriber_count"@ != "mode"@,
        "subscriber_count"@ != "full_name"@,
        "subscriber_count"@ != "user"@,
        "subscriber_count"@ != "uri"@,
        "mode"@ != "full_name"@,
        "mode"@ != "user"@,
        "mode"@ != "uri"@,
        "full_name"@ != "user"@,
        "full_name"@ != "uri"@,
        "user"@ != "uri"@,
{
    reveal_strlit("id");
    assert("id"@.len() == 2);
    reveal_strlit("id_str");
    assert("id_str"@.len() == 6);
    reveal_strlit("slug");
    assert("slug"@.len() == 4);
    reveal_strlit("created_at");
    assert("created_at"@.len() == 10);
    reveal_strlit("description");
    assert("description"@.len() == 11);
    reveal_strlit("member_count");
    assert("member_count"@.len() == 12);
    reveal_strlit("subscriber_count");
    assert("subscriber_count"@.len() == 16);
    reveal_strlit("mode");
    assert("mode"@.len() == 4);
    reveal_strlit("full_name");
    assert("full_name"@.len() == 9);
    reveal_strlit("user");
    assert("user"@.len() == 4);
    reveal_strlit("uri");
    assert("uri"@.len() == 3);
    assert("slug"@[0] != "mode"@[0]);
    assert("slug"@[0] != "user"@[0]);
    assert("mode"@[0] != "user"@[0]);
}


} // verus!
