//! Tweets, users, lists and identifiers in API responses, brought to one shape.

use vstd::prelude::*;

use crate::json::{
    array_from, array_in, array_json, copy_list, entry, find_entry, get_from, get_in, lookup,
    object_json, or_empty, put, put_text, put_value, str_from, text_entry, text_in, text_json,
    text_or_empty, value_id, Data, Json,
};
use crate::list::{collected, extend_by, lemma_collected_step, lemma_mapped_step, move_in};
use crate::text::{cat2, contains, contains_text, lowered, replace, replaced, same, to_ascii_lowercase};
use crate::words::bare_name;

verus! {

// ---------------------------------------------------------------------------
// Records by identifier
// ---------------------------------------------------------------------------

/// The records with an identifier, each under its own; of records with one identifier the last
/// counts.
pub open spec fn indexed(values: Option<Seq<Data>>) -> Seq<(Seq<char>, Data)> {
    match values {
        Some(s) => collected(s, |d: Data| keyed(d.id(), d)),
        None => Seq::empty(),
    }
}

pub open spec fn keyed(key: Option<Seq<char>>, d: Data) -> Option<(Seq<char>, Data)> {
    match key {
        Some(k) => Some((k, d)),
        None => None,
    }
}

/// The records under the text that each has in `field`.
pub open spec fn indexed_by(values: Option<Seq<Data>>, field: Seq<char>) -> Seq<(Seq<char>, Data)> {
    match values {
        Some(s) => collected(s, |d: Data| keyed(d.text_at(field), d)),
        None => Seq::empty(),
    }
}

pub fn index_items_by_id(values: Option<&Vec<Json>>) -> (r: Vec<(String, Json)>)
    ensures
        r.deep_view() == indexed(values.deep_view()),
{
    let mut out: Vec<(String, Json)> = Vec::new();
    let ghost f = |d: Data| keyed(d.id(), d);
    match values {
        None => {
            assert(out.deep_view() =~= indexed(None));
        },
        Some(list) => {
            let ghost all = list.deep_view();
            let mut i: usize = 0;
            assert(out.deep_view() =~= collected(all.take(0), f));
            while i < list.len()
                invariant
                    i <= list.len(),
                    all == list.deep_view(),
                    f == (|d: Data| keyed(d.id(), d)),
                    out.deep_view() == collected(all.take(i as int), f),
                decreases list.len() - i,
            {
                proof {
                    lemma_collected_step(all, i as int, f);
                }
                if let Some(id) = value_id(&list[i]) {
                    put(&mut out, id.as_str(), list[i].copy());
                }
                i += 1;
            }
            assert(all.take(i as int) =~= all);
        },
    }
    out
}

pub fn index_items_by_field(values: Option<&Vec<Json>>, field: &str) -> (r: Vec<(String, Json)>)
    ensures
        r.deep_view() == indexed_by(values.deep_view(), field@),
{
    let mut out: Vec<(String, Json)> = Vec::new();
    let ghost f = |d: Data| keyed(d.text_at(field@), d);
    match values {
        None => {
            assert(out.deep_view() =~= indexed_by(None, field@));
        },
        Some(list) => {
            let ghost all = list.deep_view();
            let mut i: usize = 0;
            assert(out.deep_view() =~= collected(all.take(0), f));
            while i < list.len()
                invariant
                    i <= list.len(),
                    all == list.deep_view(),
                    f == (|d: Data| keyed(d.text_at(field@), d)),
                    out.deep_view() == collected(all.take(i as int), f),
                decreases list.len() - i,
            {
                proof {
                    lemma_collected_step(all, i as int, f);
                }
                if let Some(key) = list[i].get_str(field) {
                    put(&mut out, key.as_str(), list[i].copy());
                }
                i += 1;
            }
            assert(all.take(i as int) =~= all);
        },
    }
    out
}

// ---------------------------------------------------------------------------
// Users
// ---------------------------------------------------------------------------

/// Both identifier entries, where the record has an identifier that is not empty.
pub open spec fn id_entries(d: Data) -> Seq<(Seq<char>, Data)> {
    let id = or_empty(d.id());
    if id.len() > 0 {
        seq![("id"@, Data::Text(id)), ("id_str"@, Data::Text(id))]
    } else {
        Seq::empty()
    }
}

fn put_ids(out: &mut Vec<(String, Json)>, record: &Json)
    ensures
        final(out).deep_view() == old(out).deep_view() + id_entries(record@),
{
    let ghost before = out.deep_view();
    if let Some(id) = value_id(record) {
        if !id.as_str().is_empty() {
            put(out, "id", Json::Text(id.clone()));
            put(out, "id_str", Json::Text(id));
        }
    }
    assert(out.deep_view() =~= before + id_entries(record@));
}

pub open spec fn user_counts(metrics: Option<Data>) -> Seq<(Seq<char>, Data)> {
    entry("statuses_count"@, get_in(metrics, "tweet_count"@)) + entry(
        "favourites_count"@,
        get_in(metrics, "like_count"@),
    ) + entry("favorites_count"@, get_in(metrics, "like_count"@)) + entry(
        "listed_count"@,
        get_in(metrics, "listed_count"@),
    ) + entry("friends_count"@, get_in(metrics, "following_count"@)) + entry(
        "followers_count"@,
        get_in(metrics, "followers_count"@),
    )
}

fn count_entries(metrics: Option<&Json>) -> (r: Vec<(String, Json)>)
    ensures
        r.deep_view() == user_counts(metrics.deep_view()),
{
    let mut counts: Vec<(String, Json)> = Vec::new();
    put_value(&mut counts, "statuses_count", get_from(metrics, "tweet_count"));
    assert(counts.deep_view() =~= entry(
        "statuses_count"@,
        get_in(metrics.deep_view(), "tweet_count"@),
    ));
    put_value(&mut counts, "favourites_count", get_from(metrics, "like_count"));
    put_value(&mut counts, "favorites_count", get_from(metrics, "like_count"));
    put_value(&mut counts, "listed_count", get_from(metrics, "listed_count"));
    put_value(&mut counts, "friends_count", get_from(metrics, "following_count"));
    put_value(&mut counts, "followers_count", get_from(metrics, "followers_count"));
    counts
}

/// A user under the older field names. A user that has a `screen_name` is already in that shape.
pub open spec fn normal_user(user: Data) -> Data {
    if user.get("screen_name"@) is Some {
        user
    } else {
        Data::Object(
            id_entries(user) + text_entry("screen_name"@, user.text_at("username"@)) + text_entry(
                "username"@,
                user.text_at("username"@),
            ) + entry("created_at"@, user.get("created_at"@)) + entry(
                "name"@,
                user.get("name"@),
            ) + entry("verified"@, user.get("verified"@)) + entry(
                "protected"@,
                user.get("protected"@),
            ) + entry("description"@, user.get("description"@)) + entry(
                "location"@,
                user.get("location"@),
            ) + entry("url"@, user.get("url"@)) + user_counts(user.get("public_metrics"@)),
        )
    }
}

pub fn normalize_v2_user(user: &Json) -> (r: Json)
    ensures
        r@ == normal_user(user@),
{
    if user.get("screen_name").is_some() {
        return user.copy();
    }
    let mut object: Vec<(String, Json)> = Vec::new();
    put_ids(&mut object, user);
    assert(object.deep_view() =~= id_entries(user@));
    put_text(&mut object, "screen_name", user.get_str("username"));
    put_text(&mut object, "username", user.get_str("username"));
    put_value(&mut object, "created_at", user.get("created_at"));
    put_value(&mut object, "name", user.get("name"));
    put_value(&mut object, "verified", user.get("verified"));
    put_value(&mut object, "protected", user.get("protected"));
    put_value(&mut object, "description", user.get("description"));
    put_value(&mut object, "location", user.get("location"));
    put_value(&mut object, "url", user.get("url"));
    move_in(&mut object, count_entries(user.get("public_metrics")));
    object_json(object)
}

pub open spec fn screen_name_of(user: Data) -> Seq<char> {
    or_empty(text_in(user.get_either("screen_name"@, "username"@)))
}

pub fn user_screen_name(user: &Json) -> (r: String)
    ensures
        r@ == screen_name_of(user@),
{
    text_or_empty(str_from(user.get_either("screen_name", "username")))
}

pub open spec fn shown_user(response: Data, fallback: Seq<char>) -> Seq<char> {
    match text_in(response.get_either("screen_name"@, "username"@)) {
        Some(s) => s,
        None => bare_name(fallback),
    }
}

pub fn display_user_from_response(response: &Json, fallback: &str) -> (r: String)
    ensures
        r@ == shown_user(response@, fallback@),
{
    match str_from(response.get_either("screen_name", "username")) {
        Some(s) => s.clone(),
        None => crate::words::strip_at(fallback),
    }
}

// ---------------------------------------------------------------------------
// Tweets
// ---------------------------------------------------------------------------

/// The text of a tweet, as it was written.
pub open spec fn raw_text(tweet: Data) -> Option<Seq<char>> {
    text_in(tweet.get_either("full_text"@, "text"@))
}

/// The identifier in the first reference of the given type, where that reference has one.
pub open spec fn reference_id(refs: Option<Seq<Data>>, kind: Seq<char>) -> Option<Seq<char>> {
    match refs {
        Some(s) => match first_of_type(s, kind) {
            Some(d) => d.text_at("id"@),
            None => None,
        },
        None => None,
    }
}

pub open spec fn first_of_type(refs: Seq<Data>, kind: Seq<char>) -> Option<Data>
    decreases refs.len(),
{
    if refs.len() == 0 {
        None
    } else if refs[0].text_at("type"@) == Some(kind) {
        Some(refs[0])
    } else {
        first_of_type(refs.drop_first(), kind)
    }
}

fn find_reference_id<'a>(refs: Option<&'a Vec<Json>>, kind: &str) -> (r: Option<&'a String>)
    ensures
        r.deep_view() == reference_id(refs.deep_view(), kind@),
{
    match refs {
        None => None,
        Some(list) => {
            let ghost all = list.deep_view();
            let mut i: usize = 0;
            assert(all.skip(0) =~= all);
            while i < list.len()
                invariant
                    i <= list.len(),
                    all == list.deep_view(),
                    refs.deep_view() == Some(all),
                    first_of_type(all, kind@) == first_of_type(all.skip(i as int), kind@),
                decreases list.len() - i,
            {
                assert(all.skip(i as int)[0] == list@[i as int]@);
                assert(all.skip(i as int).drop_first() =~= all.skip(i + 1));
                if let Some(t) = list[i].get_str("type") {
                    if same(t.as_str(), kind) {
                        return list[i].get_str("id");
                    }
                }
                i += 1;
            }
            None
        },
    }
}

/// The article that a link of a tweet points to, where it points to one.
pub open spec fn article_in(url: Data) -> Option<Data> {
    let expanded = url.words_at("expanded_url"@);
    if contains_text(expanded, "/i/article/"@) {
        Some(
            Data::Object(
                seq![("url"@, Data::Text(expanded))] + text_entry("title"@, url.text_at("title"@))
                    + text_entry("description"@, url.text_at("description"@)) + text_entry(
                    "unwound_url"@,
                    url.text_at("unwound_url"@),
                ),
            ),
        )
    } else {
        None
    }
}

pub open spec fn articles_in(entities: Option<Data>) -> Seq<Data> {
    match array_in(get_in(entities, "urls"@)) {
        Some(urls) => collected(urls, |u: Data| article_in(u)),
        None => Seq::empty(),
    }
}

fn article_of(url: &Json) -> (r: Option<Json>)
    ensures
        r.deep_view() == article_in(url@),
{
    let expanded = url.words_at("expanded_url");
    if contains(expanded.as_str(), "/i/article/") {
        let mut article: Vec<(String, Json)> = Vec::new();
        put(&mut article, "url", Json::Text(expanded.clone()));
        assert(article.deep_view() =~= seq![("url"@, Data::Text(expanded@))]);
        put_text(&mut article, "title", url.get_str("title"));
        put_text(&mut article, "description", url.get_str("description"));
        put_text(&mut article, "unwound_url", url.get_str("unwound_url"));
        Some(object_json(article))
    } else {
        None
    }
}

fn find_articles(entities: Option<&Json>) -> (r: Vec<Json>)
    ensures
        r.deep_view() == articles_in(entities.deep_view()),
{
    let mut out: Vec<Json> = Vec::new();
    let ghost f = |u: Data| article_in(u);
    match array_from(get_from(entities, "urls")) {
        None => {
            assert(out.deep_view() =~= Seq::<Data>::empty());
        },
        Some(urls) => {
            let ghost all = urls.deep_view();
            let mut i: usize = 0;
            assert(out.deep_view() =~= collected(all.take(0), f));
            while i < urls.len()
                invariant
                    i <= urls.len(),
                    all == urls.deep_view(),
                    f == (|u: Data| article_in(u)),
                    out.deep_view() == collected(all.take(i as int), f),
                decreases urls.len() - i,
            {
                proof {
                    lemma_collected_step(all, i as int, f);
                }
                if let Some(article) = article_of(&urls[i]) {
                    extend_by(&mut out, article);
                }
                i += 1;
            }
            assert(all.take(i as int) =~= all);
        },
    }
    out
}

/// An array entry, where the array is not empty.
pub open spec fn array_entry(key: Seq<char>, items: Seq<Data>) -> Seq<(Seq<char>, Data)> {
    if items.len() > 0 {
        seq![(key, Data::Array(items))]
    } else {
        Seq::empty()
    }
}

fn put_array(out: &mut Vec<(String, Json)>, key: &str, items: Vec<Json>)
    ensures
        final(out).deep_view() == old(out).deep_view() + array_entry(key@, items.deep_view()),
{
    let ghost before = out.deep_view();
    if items.len() > 0 {
        put(out, key, array_json(items));
    }
    assert(out.deep_view() =~= before + array_entry(key@, items.deep_view()));
}

pub open spec fn tweet_counts(metrics: Option<Data>) -> Seq<(Seq<char>, Data)> {
    entry("retweet_count"@, get_in(metrics, "retweet_count"@)) + entry(
        "favorite_count"@,
        get_in(metrics, "like_count"@),
    ) + entry("reply_count"@, get_in(metrics, "reply_count"@)) + entry(
        "quote_count"@,
        get_in(metrics, "quote_count"@),
    )
}

/// A user of whom only the identifier is known.
pub open spec fn bare_user(id: Seq<char>) -> Data {
    Data::Object(
        seq![
            ("id"@, Data::Text(id)),
            ("id_str"@, Data::Text(id)),
            ("screen_name"@, Data::Text(id)),
            ("username"@, Data::Text(id)),
        ],
    )
}

pub open spec fn author_of(tweet: Data, users: Seq<(Seq<char>, Data)>) -> Option<Data> {
    match tweet.text_at("author_id"@) {
        Some(id) => match lookup(users, id) {
            Some(user) => Some(normal_user(user)),
            None => Some(bare_user(id)),
        },
        None => None,
    }
}

pub open spec fn place_of(tweet: Data, places: Seq<(Seq<char>, Data)>) -> Option<Data> {
    match text_in(get_in(tweet.get("geo"@), "place_id"@)) {
        Some(id) => lookup(places, id),
        None => None,
    }
}

pub open spec fn media_for(key: Data, media: Seq<(Seq<char>, Data)>) -> Option<Data> {
    match key.as_text() {
        Some(k) => lookup(media, k),
        None => None,
    }
}

pub open spec fn media_of(tweet: Data, media: Seq<(Seq<char>, Data)>) -> Seq<Data> {
    match array_in(get_in(tweet.get("attachments"@), "media_keys"@)) {
        Some(keys) => collected(keys, |k: Data| media_for(k, media)),
        None => Seq::empty(),
    }
}

/// What a response holds beside its records.
pub ghost struct Includes {
    pub users: Seq<(Seq<char>, Data)>,
    pub places: Seq<(Seq<char>, Data)>,
    pub tweets: Seq<(Seq<char>, Data)>,
    pub media: Seq<(Seq<char>, Data)>,
}

impl Includes {
    pub open spec fn none() -> Includes {
        Includes {
            users: Seq::empty(),
            places: Seq::empty(),
            tweets: Seq::empty(),
            media: Seq::empty(),
        }
    }

    /// What a quoted tweet is expanded with.
    pub open spec fn for_quoted(self) -> Includes {
        Includes { users: self.users, places: self.places, tweets: Seq::empty(), media: Seq::empty() }
    }
}

/// The quoted tweet, expanded once; a tweet that it quotes in turn stays a reference.
pub open spec fn quoted_of(refs: Option<Seq<Data>>, inc: Includes) -> Option<Data> {
    match reference_id(refs, "quoted"@) {
        Some(id) => match lookup(inc.tweets, id) {
            Some(tweet) => Some(flat_tweet(tweet, inc.for_quoted(), None)),
            None => None,
        },
        None => None,
    }
}

/// A tweet under the older field names, with the given quoted tweet. A tweet that has a `user` is
/// already in that shape.
pub open spec fn flat_tweet(tweet: Data, inc: Includes, quoted: Option<Data>) -> Data {
    if tweet.get("user"@) is Some {
        tweet
    } else {
        let refs = tweet.array_at("referenced_tweets"@);
        let entities = tweet.get("entities"@);
        Data::Object(
            id_entries(tweet) + text_entry("text"@, raw_text(tweet)) + text_entry(
                "full_text"@,
                raw_text(tweet),
            ) + text_entry("created_at"@, tweet.text_at("created_at"@)) + entry(
                "source"@,
                tweet.get("source"@),
            ) + text_entry("conversation_id"@, tweet.text_at("conversation_id"@)) + text_entry(
                "in_reply_to_status_id"@,
                reference_id(refs, "replied_to"@),
            ) + text_entry("quoted_status_id"@, reference_id(refs, "quoted"@)) + entry(
                "quoted_status"@,
                quoted,
            ) + entry("entities"@, entities) + array_entry("articles"@, articles_in(entities))
                + tweet_counts(tweet.get("public_metrics"@)) + entry(
                "user"@,
                author_of(tweet, inc.users),
            ) + entry("place"@, place_of(tweet, inc.places)) + array_entry(
                "media"@,
                media_of(tweet, inc.media),
            ),
        )
    }
}

pub open spec fn normal_tweet(tweet: Data, inc: Includes) -> Data {
    flat_tweet(tweet, inc, quoted_of(tweet.array_at("referenced_tweets"@), inc))
}

fn author_json(tweet: &Json, users: &Vec<(String, Json)>) -> (r: Option<Json>)
    ensures
        r.deep_view() == author_of(tweet@, users.deep_view()),
{
    match tweet.get_str("author_id") {
        Some(id) => match find_entry(users, id.as_str()) {
            Some(user) => Some(normalize_v2_user(user)),
            None => {
                let mut object: Vec<(String, Json)> = Vec::new();
                put(&mut object, "id", Json::Text(id.clone()));
                put(&mut object, "id_str", Json::Text(id.clone()));
                put(&mut object, "screen_name", Json::Text(id.clone()));
                put(&mut object, "username", Json::Text(id.clone()));
                assert(object.deep_view() =~= bare_user(id@)->Object_0);
                Some(object_json(object))
            },
        },
        None => None,
    }
}

fn media_json(tweet: &Json, media: &Vec<(String, Json)>) -> (r: Vec<Json>)
    ensures
        r.deep_view() == media_of(tweet@, media.deep_view()),
{
    let mut out: Vec<Json> = Vec::new();
    let ghost m = media.deep_view();
    let ghost f = |k: Data| media_for(k, m);
    match array_from(get_from(tweet.get("attachments"), "media_keys")) {
        None => {
            assert(out.deep_view() =~= Seq::<Data>::empty());
        },
        Some(keys) => {
            let ghost all = keys.deep_view();
            let mut i: usize = 0;
            assert(out.deep_view() =~= collected(all.take(0), f));
            while i < keys.len()
                invariant
                    i <= keys.len(),
                    all == keys.deep_view(),
                    m == media.deep_view(),
                    f == (|k: Data| media_for(k, m)),
                    out.deep_view() == collected(all.take(i as int), f),
                decreases keys.len() - i,
            {
                proof {
                    lemma_collected_step(all, i as int, f);
                }
                if let Some(key) = keys[i].as_str() {
                    if let Some(item) = find_entry(media, key.as_str()) {
                        extend_by(&mut out, item.copy());
                    }
                }
                i += 1;
            }
            assert(all.take(i as int) =~= all);
        },
    }
    out
}

fn put_json(out: &mut Vec<(String, Json)>, key: &str, value: Option<Json>)
    ensures
        final(out).deep_view() == old(out).deep_view() + entry(key@, value.deep_view()),
{
    let ghost before = out.deep_view();
    match value {
        Some(v) => {
            put(out, key, v);
        },
        None => {},
    }
    assert(out.deep_view() =~= before + entry(key@, value.deep_view()));
}

fn flatten_tweet(
    tweet: &Json,
    users: &Vec<(String, Json)>,
    places: &Vec<(String, Json)>,
    media: &Vec<(String, Json)>,
    quoted: Option<Json>,
    Ghost(inc): Ghost<Includes>,
) -> (r: Json)
    requires
        inc.users == users.deep_view(),
        inc.places == places.deep_view(),
        inc.media == media.deep_view(),
    ensures
        r@ == flat_tweet(tweet@, inc, quoted.deep_view()),
{
    if tweet.get("user").is_some() {
        return tweet.copy();
    }
    let mut object: Vec<(String, Json)> = Vec::new();
    put_ids(&mut object, tweet);
    assert(object.deep_view() =~= id_entries(tweet@));
    let text = str_from(tweet.get_either("full_text", "text"));
    put_text(&mut object, "text", text);
    put_text(&mut object, "full_text", text);
    put_text(&mut object, "created_at", tweet.get_str("created_at"));
    put_value(&mut object, "source", tweet.get("source"));
    put_text(&mut object, "conversation_id", tweet.get_str("conversation_id"));
    let refs = tweet.get_array("referenced_tweets");
    put_text(&mut object, "in_reply_to_status_id", find_reference_id(refs, "replied_to"));
    put_text(&mut object, "quoted_status_id", find_reference_id(refs, "quoted"));
    put_json(&mut object, "quoted_status", quoted);
    let entities = tweet.get("entities");
    put_value(&mut object, "entities", entities);
    put_array(&mut object, "articles", find_articles(entities));
    let ghost before = object.deep_view();
    let metrics = tweet.get("public_metrics");
    put_value(&mut object, "retweet_count", get_from(metrics, "retweet_count"));
    put_value(&mut object, "favorite_count", get_from(metrics, "like_count"));
    put_value(&mut object, "reply_count", get_from(metrics, "reply_count"));
    put_value(&mut object, "quote_count", get_from(metrics, "quote_count"));
    assert(object.deep_view() =~= before + tweet_counts(tweet@.get("public_metrics"@)));
    put_json(&mut object, "user", author_json(tweet, users));
    let place = match str_from(get_from(tweet.get("geo"), "place_id")) {
        Some(id) => find_entry(places, id.as_str()),
        None => None,
    };
    put_value(&mut object, "place", place);
    put_array(&mut object, "media", media_json(tweet, media));
    object_json(object)
}

pub fn normalize_v2_tweet(
    tweet: &Json,
    users_by_id: &Vec<(String, Json)>,
    places_by_id: &Vec<(String, Json)>,
    tweets_by_id: &Vec<(String, Json)>,
    media_by_key: &Vec<(String, Json)>,
) -> (r: Json)
    ensures
        r@ == normal_tweet(
            tweet@,
            (Includes {
                users: users_by_id.deep_view(),
                places: places_by_id.deep_view(),
                tweets: tweets_by_id.deep_view(),
                media: media_by_key.deep_view(),
            }),
        ),
{
    let ghost inc = Includes {
        users: users_by_id.deep_view(),
        places: places_by_id.deep_view(),
        tweets: tweets_by_id.deep_view(),
        media: media_by_key.deep_view(),
    };
    let quoted: Option<Json> = match find_reference_id(
        tweet.get_array("referenced_tweets"),
        "quoted",
    ) {
        Some(id) => match find_entry(tweets_by_id, id.as_str()) {
            Some(quoted_tweet) => {
                let no_media: Vec<(String, Json)> = Vec::new();
                assert(no_media.deep_view() =~= Seq::empty());
                Some(
                    flatten_tweet(
                        quoted_tweet,
                        users_by_id,
                        places_by_id,
                        &no_media,
                        None,
                        Ghost(inc.for_quoted()),
                    ),
                )
            },
            None => None,
        },
        None => None,
    };
    flatten_tweet(tweet, users_by_id, places_by_id, media_by_key, quoted, Ghost(inc))
}

/// The records that a response holds beside its main ones, under the given name.
pub open spec fn included(value: Data, name: Seq<char>) -> Option<Seq<Data>> {
    array_in(get_in(value.get("includes"@), name))
}

pub open spec fn includes_of(value: Data) -> Includes {
    Includes {
        users: indexed(included(value, "users"@)),
        places: indexed(included(value, "places"@)),
        tweets: indexed(included(value, "tweets"@)),
        media: indexed_by(included(value, "media"@), "media_key"@),
    }
}

/// The tweets in a response: its items, its `statuses`, or its `data` in the older shape.
pub open spec fn tweets_in(value: Data) -> Seq<Data> {
    match value.as_array() {
        Some(items) => items,
        None => match value.array_at("statuses"@) {
            Some(statuses) => statuses,
            None => match value.get("data"@) {
                Some(Data::Array(items)) => items.map_values(
                    |t: Data| normal_tweet(t, includes_of(value)),
                ),
                Some(Data::Object(o)) => seq![normal_tweet(Data::Object(o), includes_of(value))],
                _ => Seq::empty(),
            },
        },
    }
}

fn included_list<'a>(value: &'a Json, name: &str) -> (r: Option<&'a Vec<Json>>)
    ensures
        r.deep_view() == included(value@, name@),
{
    array_from(get_from(value.get("includes"), name))
}

pub fn extract_tweets(value: &Json) -> (r: Vec<Json>)
    ensures
        r.deep_view() == tweets_in(value@),
{
    if let Some(array) = value.as_array() {
        return copy_list(array);
    }
    if let Some(statuses) = value.get_array("statuses") {
        return copy_list(statuses);
    }
    let users = index_items_by_id(included_list(value, "users"));
    let places = index_items_by_id(included_list(value, "places"));
    let tweets = index_items_by_id(included_list(value, "tweets"));
    let media = index_items_by_field(included_list(value, "media"), "media_key");
    let mut out: Vec<Json> = Vec::new();
    let ghost inc = includes_of(value@);
    let ghost f = |t: Data| normal_tweet(t, inc);
    let data = value.get("data");
    if let Some(items) = array_from(data) {
        let ghost all = items.deep_view();
        let mut i: usize = 0;
        assert(out.deep_view() =~= all.take(0).map_values(f));
        while i < items.len()
            invariant
                i <= items.len(),
                all == items.deep_view(),
                inc == includes_of(value@),
                f == (|t: Data| normal_tweet(t, inc)),
                users.deep_view() == inc.users,
                places.deep_view() == inc.places,
                tweets.deep_view() == inc.tweets,
                media.deep_view() == inc.media,
                out.deep_view() == all.take(i as int).map_values(f),
            decreases items.len() - i,
        {
            proof {
                lemma_mapped_step(all, i as int, f);
            }
            extend_by(&mut out, normalize_v2_tweet(&items[i], &users, &places, &tweets, &media));
            i += 1;
        }
        assert(all.take(i as int) =~= all);
        return out;
    }
    if let Some(item) = data {
        if item.is_object() {
            extend_by(&mut out, normalize_v2_tweet(item, &users, &places, &tweets, &media));
            assert(out.deep_view() =~= seq![normal_tweet(item@, inc)]);
            return out;
        }
    }
    assert(out.deep_view() =~= Seq::<Data>::empty());
    out
}

/// A user with the pinned tweet as `status`, where the response holds that tweet.
pub open spec fn user_with_pinned(user: Data, tweets: Seq<(Seq<char>, Data)>) -> Data {
    let plain = normal_user(user);
    match user.text_at("pinned_tweet_id"@) {
        Some(id) => match (lookup(tweets, id), plain) {
            (Some(tweet), Data::Object(entries)) => Data::Object(
                entries.push(("status"@, normal_tweet(tweet, Includes::none()))),
            ),
            _ => plain,
        },
        None => plain,
    }
}

/// The users in a response: its items, its `users`, its `data` in the older shape, or itself.
pub open spec fn users_in(value: Data) -> Seq<Data> {
    match value.as_array() {
        Some(items) => items,
        None => match value.array_at("users"@) {
            Some(users) => users,
            None => {
                let tweets = indexed(included(value, "tweets"@));
                match value.get("data"@) {
                    Some(Data::Array(items)) => items.map_values(
                        |u: Data| user_with_pinned(u, tweets),
                    ),
                    Some(user) => seq![user_with_pinned(user, tweets)],
                    None => if value.get("screen_name"@) is Some || value.get("id"@) is Some {
                        seq![value]
                    } else {
                        Seq::empty()
                    },
                }
            },
        },
    }
}

fn normalize_with_pinned(user: &Json, tweets: &Vec<(String, Json)>) -> (r: Json)
    ensures
        r@ == user_with_pinned(user@, tweets.deep_view()),
{
    let normalized = normalize_v2_user(user);
    if let Some(id) = user.get_str("pinned_tweet_id") {
        if let Some(tweet) = find_entry(tweets, id.as_str()) {
            match normalized {
                Json::Object(object) => {
                    proof {
                        crate::json::lemma_object_data(object);
                    }
                    let none: Vec<(String, Json)> = Vec::new();
                    assert(none.deep_view() =~= Seq::empty());
                    let status = normalize_v2_tweet(tweet, &none, &none, &none, &none);
                    let mut entries = object;
                    put(&mut entries, "status", status);
                    return object_json(entries);
                },
                other => {
                    return other;
                },
            }
        }
    }
    normalized
}

pub fn extract_users(value: &Json) -> (r: Vec<Json>)
    ensures
        r.deep_view() == users_in(value@),
{
    if let Some(array) = value.as_array() {
        return copy_list(array);
    }
    if let Some(users) = value.get_array("users") {
        return copy_list(users);
    }
    let tweets = index_items_by_id(included_list(value, "tweets"));
    let ghost known = tweets.deep_view();
    let ghost f = |u: Data| user_with_pinned(u, known);
    let data = value.get("data");
    let mut out: Vec<Json> = Vec::new();
    if let Some(items) = array_from(data) {
        let ghost all = items.deep_view();
        let mut i: usize = 0;
        assert(out.deep_view() =~= all.take(0).map_values(f));
        while i < items.len()
            invariant
                i <= items.len(),
                all == items.deep_view(),
                known == tweets.deep_view(),
                f == (|u: Data| user_with_pinned(u, known)),
                out.deep_view() == all.take(i as int).map_values(f),
            decreases items.len() - i,
        {
            proof {
                lemma_mapped_step(all, i as int, f);
            }
            extend_by(&mut out, normalize_with_pinned(&items[i], &tweets));
            i += 1;
        }
        assert(all.take(i as int) =~= all);
        return out;
    }
    if let Some(user) = data {
        extend_by(&mut out, normalize_with_pinned(user, &tweets));
        assert(out.deep_view() =~= seq![user_with_pinned(user@, known)]);
        return out;
    }
    if value.get("screen_name").is_some() || value.get("id").is_some() {
        extend_by(&mut out, value.copy());
        assert(out.deep_view() =~= seq![value@]);
        return out;
    }
    assert(out.deep_view() =~= Seq::<Data>::empty());
    out
}

// ---------------------------------------------------------------------------
// Lists
// ---------------------------------------------------------------------------

pub open spec fn list_mode(list: Data) -> Option<Data> {
    match list.get("mode"@) {
        Some(m) => Some(m),
        None => match list.flag_at("private"@) {
            Some(true) => Some(Data::Text("private"@)),
            Some(false) => Some(Data::Text("public"@)),
            None => None,
        },
    }
}

pub open spec fn list_owner(list: Data, users: Seq<(Seq<char>, Data)>) -> Option<Data> {
    match list.text_at("owner_id"@) {
        Some(id) => match lookup(users, id) {
            Some(user) => Some(normal_user(user)),
            None => None,
        },
        None => None,
    }
}

/// The full name of a list, where its owner has a name.
pub open spec fn full_list_name(owner: Option<Data>, slug: Seq<char>) -> Option<Seq<char>> {
    match owner {
        Some(user) => if screen_name_of(user).len() > 0 {
            Some("@"@ + screen_name_of(user) + "/"@ + slug)
        } else {
            None
        },
        None => None,
    }
}

/// A list under the older field names. A list that has a slug or a full name is already in that
/// shape.
pub open spec fn normal_list(list: Data, users: Seq<(Seq<char>, Data)>) -> Data {
    if list.get("slug"@) is Some || list.get("full_name"@) is Some {
        list
    } else {
        let slug = list.words_at("name"@);
        let owner = list_owner(list, users);
        Data::Object(
            id_entries(list) + seq![("slug"@, Data::Text(slug))] + entry(
                "created_at"@,
                list.get("created_at"@),
            ) + entry("description"@, list.get("description"@)) + entry(
                "member_count"@,
                list.get("member_count"@),
            ) + entry(
                "subscriber_count"@,
                list.get_either("subscriber_count"@, "follower_count"@),
            ) + entry("mode"@, list_mode(list)) + text_entry(
                "full_name"@,
                full_list_name(owner, slug),
            ) + entry("user"@, owner) + seq![
                ("uri"@, Data::Text("https://x.com/i/lists/"@ + or_empty(list.id()))),
            ],
        )
    }
}

pub fn normalize_v2_list(list: &Json, users_by_id: &Vec<(String, Json)>) -> (r: Json)
    ensures
        r@ == normal_list(list@, users_by_id.deep_view()),
{
    if list.get("slug").is_some() || list.get("full_name").is_some() {
        return list.copy();
    }
    let ghost users = users_by_id.deep_view();
    let mut object: Vec<(String, Json)> = Vec::new();
    put_ids(&mut object, list);
    assert(object.deep_view() =~= id_entries(list@));
    let slug = list.words_at("name");
    let ghost before = object.deep_view();
    put(&mut object, "slug", Json::Text(slug.clone()));
    assert(object.deep_view() =~= before + seq![("slug"@, Data::Text(slug@))]);
    put_value(&mut object, "created_at", list.get("created_at"));
    put_value(&mut object, "description", list.get("description"));
    put_value(&mut object, "member_count", list.get("member_count"));
    put_value(
        &mut object,
        "subscriber_count",
        list.get_either("subscriber_count", "follower_count"),
    );
    let mode: Option<Json> = match list.get("mode") {
        Some(m) => Some(m.copy()),
        None => match list.get_bool("private") {
            Some(true) => Some(text_json("private")),
            Some(false) => Some(text_json("public")),
            None => None,
        },
    };
    put_json(&mut object, "mode", mode);
    let owner: Option<Json> = match list.get_str("owner_id") {
        Some(id) => match find_entry(users_by_id, id.as_str()) {
            Some(user) => Some(normalize_v2_user(user)),
            None => None,
        },
        None => None,
    };
    assert(owner.deep_view() == list_owner(list@, users));
    let full_name: Option<String> = match &owner {
        Some(user) => {
            let name = user_screen_name(user);
            if name.as_str().is_empty() {
                None
            } else {
                Some("@".to_owned().concat(name.as_str()).concat("/").concat(slug.as_str()))
            }
        },
        None => None,
    };
    assert(full_name.deep_view() == full_list_name(owner.deep_view(), slug@));
    put_text(&mut object, "full_name", full_name.as_ref());
    put_json(&mut object, "user", owner);
    let id = match value_id(list) {
        Some(id) => id,
        None => String::new(),
    };
    let ghost before = object.deep_view();
    let uri = cat2("https://x.com/i/lists/", id.as_str());
    put(&mut object, "uri", Json::Text(uri));
    assert(object.deep_view() =~= before + seq![("uri"@, Data::Text(uri@))]);
    object_json(object)
}

/// The lists in a response: its items, its `lists`, or its `data` in the older shape.
pub open spec fn lists_in(value: Data) -> Seq<Data> {
    match value.as_array() {
        Some(items) => items,
        None => match value.array_at("lists"@) {
            Some(lists) => lists,
            None => {
                let users = indexed(included(value, "users"@));
                match value.get("data"@) {
                    Some(Data::Array(items)) => items.map_values(|l: Data| normal_list(l, users)),
                    Some(list) => seq![normal_list(list, users)],
                    None => Seq::empty(),
                }
            },
        },
    }
}

pub fn extract_lists(value: &Json) -> (r: Vec<Json>)
    ensures
        r.deep_view() == lists_in(value@),
{
    if let Some(array) = value.as_array() {
        return copy_list(array);
    }
    if let Some(lists) = value.get_array("lists") {
        return copy_list(lists);
    }
    let users = index_items_by_id(included_list(value, "users"));
    let ghost known = users.deep_view();
    let ghost f = |l: Data| normal_list(l, known);
    let data = value.get("data");
    let mut out: Vec<Json> = Vec::new();
    if let Some(items) = array_from(data) {
        let ghost all = items.deep_view();
        let mut i: usize = 0;
        assert(out.deep_view() =~= all.take(0).map_values(f));
        while i < items.len()
            invariant
                i <= items.len(),
                all == items.deep_view(),
                known == users.deep_view(),
                f == (|l: Data| normal_list(l, known)),
                out.deep_view() == all.take(i as int).map_values(f),
            decreases items.len() - i,
        {
            proof {
                lemma_mapped_step(all, i as int, f);
            }
            extend_by(&mut out, normalize_v2_list(&items[i], &users));
            i += 1;
        }
        assert(all.take(i as int) =~= all);
        return out;
    }
    if let Some(list) = data {
        extend_by(&mut out, normalize_v2_list(list, &users));
        assert(out.deep_view() =~= seq![normal_list(list@, known)]);
        return out;
    }
    assert(out.deep_view() =~= Seq::<Data>::empty());
    out
}

// ---------------------------------------------------------------------------
// Places, identifiers and text
// ---------------------------------------------------------------------------

pub open spec fn array_or_none(items: Option<Seq<Data>>) -> Seq<Data> {
    match items {
        Some(s) => s,
        None => Seq::empty(),
    }
}

pub fn copy_of_array(items: Option<&Vec<Json>>) -> (r: Vec<Json>)
    ensures
        r.deep_view() == array_or_none(items.deep_view()),
{
    match items {
        Some(list) => copy_list(list),
        None => {
            let out: Vec<Json> = Vec::new();
            assert(out.deep_view() =~= Seq::<Data>::empty());
            out
        },
    }
}

pub fn extract_places(value: &Json) -> (r: Vec<Json>)
    ensures
        r.deep_view() == array_or_none(value@.as_array()),
{
    copy_of_array(value.as_array())
}

pub open spec fn geo_places_in(value: Data) -> Seq<Data> {
    array_or_none(array_in(get_in(value.get("result"@), "places"@)))
}

pub fn extract_geo_places(value: &Json) -> (r: Vec<Json>)
    ensures
        r.deep_view() == geo_places_in(value@),
{
    copy_of_array(array_from(get_from(value.get("result"), "places")))
}

/// The identifiers in a response: those in `ids`, or those of the records in `data`.
pub open spec fn ids_in(value: Data) -> Seq<Seq<char>> {
    match value.array_at("ids"@) {
        Some(ids) => collected(ids, |d: Data| d.as_words()),
        None => match value.get("data"@) {
            Some(Data::Array(items)) => collected(items, |d: Data| d.id()),
            Some(item) => match item.id() {
                Some(id) => seq![id],
                None => Seq::empty(),
            },
            None => Seq::empty(),
        },
    }
}

pub fn extract_ids(value: &Json) -> (r: Vec<String>)
    ensures
        r.deep_view() == ids_in(value@),
{
    let mut out: Vec<String> = Vec::new();
    if let Some(ids) = value.get_array("ids") {
        let ghost all = ids.deep_view();
        let ghost f = |d: Data| d.as_words();
        let mut i: usize = 0;
        assert(out.deep_view() =~= collected(all.take(0), f));
        while i < ids.len()
            invariant
                i <= ids.len(),
                all == ids.deep_view(),
                f == (|d: Data| d.as_words()),
                out.deep_view() == collected(all.take(i as int), f),
            decreases ids.len() - i,
        {
            proof {
                lemma_collected_step(all, i as int, f);
            }
            if let Some(id) = ids[i].as_words() {
                extend_by(&mut out, id);
            }
            i += 1;
        }
        assert(all.take(i as int) =~= all);
        return out;
    }
    let data = value.get("data");
    if let Some(items) = array_from(data) {
        let ghost all = items.deep_view();
        let ghost f = |d: Data| d.id();
        let mut i: usize = 0;
        assert(out.deep_view() =~= collected(all.take(0), f));
        while i < items.len()
            invariant
                i <= items.len(),
                all == items.deep_view(),
                f == (|d: Data| d.id()),
                out.deep_view() == collected(all.take(i as int), f),
            decreases items.len() - i,
        {
            proof {
                lemma_collected_step(all, i as int, f);
            }
            if let Some(id) = value_id(&items[i]) {
                extend_by(&mut out, id);
            }
            i += 1;
        }
        assert(all.take(i as int) =~= all);
        return out;
    }
    if let Some(item) = data {
        if let Some(id) = value_id(item) {
            extend_by(&mut out, id);
            assert(out.deep_view() =~= seq![item@.id()->0]);
            return out;
        }
    }
    assert(out.deep_view() =~= Seq::<Seq<char>>::empty());
    out
}

/// The text with each short link replaced by the address that it stands for, one link after the
/// other.
pub open spec fn with_links(text: Seq<char>, urls: Seq<Data>) -> Seq<char>
    decreases urls.len(),
{
    if urls.len() == 0 {
        text
    } else {
        let front = with_links(text, urls.drop_last());
        match (urls.last().text_at("url"@), urls.last().text_at("expanded_url"@)) {
            (Some(short), Some(long)) => replaced(front, short, long),
            _ => front,
        }
    }
}

pub fn expand_links(text: &str, urls: Option<&Vec<Json>>) -> (r: String)
    ensures
        r@ == (match urls.deep_view() {
            Some(list) => with_links(text@, list),
            None => text@,
        }),
{
    let mut decoded = text.to_owned();
    if let Some(list) = urls {
        let ghost all = list.deep_view();
        let mut i: usize = 0;
        assert(all.take(0).len() == 0);
        while i < list.len()
            invariant
                i <= list.len(),
                all == list.deep_view(),
                decoded@ == with_links(text@, all.take(i as int)),
            decreases list.len() - i,
        {
            assert(all.take(i + 1).drop_last() =~= all.take(i as int));
            assert(all.take(i + 1).last() == list@[i as int]@);
            if let Some(short) = list[i].get_str("url") {
                if let Some(expanded) = list[i].get_str("expanded_url") {
                    decoded = replace(decoded.as_str(), short.as_str(), expanded.as_str());
                }
            }
            i += 1;
        }
        assert(all.take(i as int) =~= all);
    }
    decoded
}

pub open spec fn text_of(tweet: Data, decode_uris: bool) -> Seq<char> {
    let text = or_empty(raw_text(tweet));
    if decode_uris {
        match array_in(get_in(tweet.get("entities"@), "urls"@)) {
            Some(urls) => with_links(text, urls),
            None => text,
        }
    } else {
        text
    }
}

pub fn tweet_text(tweet: &Json, decode_uris: bool) -> (r: String)
    ensures
        r@ == text_of(tweet@, decode_uris),
{
    let text = text_or_empty(str_from(tweet.get_either("full_text", "text")));
    if decode_uris {
        expand_links(text.as_str(), array_from(get_from(tweet.get("entities"), "urls")))
    } else {
        text
    }
}

/// Whether the text of a tweet holds the query, whatever the case of ASCII letters.
pub open spec fn tweet_matches(tweet: Data, query: Seq<char>) -> bool {
    contains_text(lowered(text_of(tweet, false)), lowered(query))
}

pub open spec fn kept_if(d: Data, keep: bool) -> Option<Data> {
    if keep {
        Some(d)
    } else {
        None
    }
}

pub open spec fn tweets_matching(tweets: Seq<Data>, query: Seq<char>) -> Seq<Data> {
    if query.len() == 0 {
        tweets
    } else {
        collected(tweets, |t: Data| kept_if(t, tweet_matches(t, query)))
    }
}

pub fn filter_tweets_by_query(tweets: &Vec<Json>, query: &str) -> (r: Vec<Json>)
    ensures
        r.deep_view() == tweets_matching(tweets.deep_view(), query@),
{
    if query.is_empty() {
        return copy_list(tweets);
    }
    let lower = to_ascii_lowercase(query);
    let ghost all = tweets.deep_view();
    let ghost f = |t: Data| kept_if(t, tweet_matches(t, query@));
    let mut out: Vec<Json> = Vec::new();
    let mut i: usize = 0;
    assert(out.deep_view() =~= collected(all.take(0), f));
    while i < tweets.len()
        invariant
            i <= tweets.len(),
            all == tweets.deep_view(),
            lower@ == lowered(query@),
            f == (|t: Data| kept_if(t, tweet_matches(t, query@))),
            out.deep_view() == collected(all.take(i as int), f),
        decreases tweets.len() - i,
    {
        proof {
            lemma_collected_step(all, i as int, f);
        }
        let text = to_ascii_lowercase(tweet_text(&tweets[i], false).as_str());
        if contains(text.as_str(), lower.as_str()) {
            extend_by(&mut out, tweets[i].copy());
        }
        i += 1;
    }
    assert(all.take(i as int) =~= all);
    out
}

// ---------------------------------------------------------------------------
// Laws
// ---------------------------------------------------------------------------

/// What is found in a list of entries is found in a longer one as well.
proof fn lemma_still_found(
    entries: Seq<(Seq<char>, Data)>,
    more: Seq<(Seq<char>, Data)>,
    key: Seq<char>,
)
    requires
        lookup(entries, key) is Some,
    ensures
        lookup(entries + more, key) is Some,
    decreases more.len(),
{
    let all = entries + more;
    if more.len() == 0 {
        assert(all =~= entries);
    } else {
        lemma_still_found(entries, more.drop_last(), key);
        assert(all.drop_last() =~= entries + more.drop_last());
        assert(all.last() == more.last());
    }
}

/// Bringing a user to the older shape a second time changes nothing, where the user has a name.
pub proof fn law_normal_user_is_final(user: Data)
    requires
        user.get("screen_name"@) is Some || user.text_at("username"@) is Some,
    ensures
        normal_user(user).get("screen_name"@) is Some,
        normal_user(normal_user(user)) == normal_user(user),
{
    if user.get("screen_name"@) is None {
        let key = "screen_name"@;
        let name = user.text_at("username"@);
        let a = id_entries(user) + text_entry(key, name);
        assert(a.last() == (key, Data::Text(name->Some_0)));
        let b = text_entry("username"@, name);
        lemma_still_found(a, b, key);
        let c = entry("created_at"@, user.get("created_at"@));
        lemma_still_found(a + b, c, key);
        let d = entry("name"@, user.get("name"@));
        lemma_still_found(a + b + c, d, key);
        let e = entry("verified"@, user.get("verified"@));
        lemma_still_found(a + b + c + d, e, key);
        let f = entry("protected"@, user.get("protected"@));
        lemma_still_found(a + b + c + d + e, f, key);
        let g = entry("description"@, user.get("description"@));
        lemma_still_found(a + b + c + d + e + f, g, key);
        let h = entry("location"@, user.get("location"@));
        lemma_still_found(a + b + c + d + e + f + g, h, key);
        let i = entry("url"@, user.get("url"@));
        lemma_still_found(a + b + c + d + e + f + g + h, i, key);
        let j = user_counts(user.get("public_metrics"@));
        lemma_still_found(a + b + c + d + e + f + g + h + i, j, key);
    }
}

/// A tweet that carries its author is handed on as it is, whatever else the response holds; and
/// a tweet that names its author carries the author once it is in the older shape, so that a
/// second time changes nothing.
pub proof fn law_normal_tweet_is_final(tweet: Data, inc: Includes, other: Includes)
    requires
        tweet.get("user"@) is Some || tweet.text_at("author_id"@) is Some,
    ensures
        tweet.get("user"@) is Some ==> normal_tweet(tweet, inc) == tweet,
        normal_tweet(tweet, inc).get("user"@) is Some,
        normal_tweet(normal_tweet(tweet, inc), other) == normal_tweet(tweet, inc),
{
    if tweet.get("user"@) is None {
        let quoted = quoted_of(tweet.array_at("referenced_tweets"@), inc);
        let user = author_of(tweet, inc.users)->Some_0;
        let refs = tweet.array_at("referenced_tweets"@);
        let entities = tweet.get("entities"@);
        let before = id_entries(tweet) + text_entry("text"@, raw_text(tweet)) + text_entry(
            "full_text"@,
            raw_text(tweet),
        ) + text_entry("created_at"@, tweet.text_at("created_at"@)) + entry(
            "source"@,
            tweet.get("source"@),
        ) + text_entry("conversation_id"@, tweet.text_at("conversation_id"@)) + text_entry(
            "in_reply_to_status_id"@,
            reference_id(refs, "replied_to"@),
        ) + text_entry("quoted_status_id"@, reference_id(refs, "quoted"@)) + entry(
            "quoted_status"@,
            quoted,
        ) + entry("entities"@, entities) + array_entry("articles"@, articles_in(entities))
            + tweet_counts(tweet.get("public_metrics"@));
        let key = "user"@;
        let a = before + entry(key, Some(user));
        assert(a.last() == (key, user));
        let b = entry("place"@, place_of(tweet, inc.places));
        lemma_still_found(a, b, key);
        let c = array_entry("media"@, media_of(tweet, inc.media));
        lemma_still_found(a + b, c, key);
    }
}

/// A list that has a slug is in the older shape; a second time changes nothing.
pub proof fn law_normal_list_is_final(
    list: Data,
    users: Seq<(Seq<char>, Data)>,
    other: Seq<(Seq<char>, Data)>,
)
    ensures
        normal_list(normal_list(list, users), other) == normal_list(list, users),
{
    if list.get("slug"@) is None && list.get("full_name"@) is None {
        let slug = list.words_at("name"@);
        let owner = list_owner(list, users);
        let ids = id_entries(list);
        let key = "slug"@;
        let a = ids + seq![(key, Data::Text(slug))];
        assert(a.last() == (key, Data::Text(slug)));
        let b = entry("created_at"@, list.get("created_at"@));
        lemma_still_found(a, b, key);
        let c = entry("description"@, list.get("description"@));
        lemma_still_found(a + b, c, key);
        let d = entry("member_count"@, list.get("member_count"@));
        lemma_still_found(a + b + c, d, key);
        let e = entry(
            "subscriber_count"@,
            list.get_either("subscriber_count"@, "follower_count"@),
        );
        lemma_still_found(a + b + c + d, e, key);
        let f = entry("mode"@, list_mode(list));
        lemma_still_found(a + b + c + d + e, f, key);
        let g = text_entry("full_name"@, full_list_name(owner, slug));
        lemma_still_found(a + b + c + d + e + f, g, key);
        let h = entry("user"@, owner);
        lemma_still_found(a + b + c + d + e + f + g, h, key);
        let i = seq![("uri"@, Data::Text("https://x.com/i/lists/"@ + or_empty(list.id())))];
        lemma_still_found(a + b + c + d + e + f + g + h, i, key);
    }
}

} // verus!
