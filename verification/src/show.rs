//! What the commands show of tweets, users, lists, collections and places.

use vstd::prelude::*;

use crate::extract::{screen_name_of, text_of, tweet_text, user_screen_name};
use crate::json::{
    get_from, get_in, or_empty, str_from, text_in, text_or_empty, value_id, words_in,
    words_in_value, Data, Json,
};
use crate::layout::{
    key_value_lines, labelled_lines, message_lines, print_key_value_table, print_labelled,
    print_message, print_table, table_lines,
};
use crate::list::{collect_list, collected, extend_by, map_list, move_in, reversed, spread, spread_list};
use crate::options::{opt_bool, opt_text_or, Options, OptionsData};
use crate::order::{key_of_text, sort_list, sorted_by_key, text_key};
use crate::text::{
    cat2, decimal_i64, join, joined, lowered, replace, replaced, same, signed_decimal,
    to_ascii_lowercase,
};
use crate::time::{
    created, created_time, csv_time_or_none, distance, distance_of_time_in_words,
    full_time_or_none, key_of_time, listed_time, ls_like_time, time_key, Clock, ClockData, Instant,
};
use crate::words::{
    bool_to_yes_no, csv_line, csv_row, delimited, number_with_delimiter, strip_tags, untagged,
    yes_no,
};

verus! {

// ---------------------------------------------------------------------------
// Headings
// ---------------------------------------------------------------------------

pub open spec fn tweet_headings() -> Seq<Seq<char>> {
    seq![
        "ID"@,
        "Posted at"@,
        "Screen name"@,
        "Text"@,
    ]
}

pub fn tweet_titles() -> (r: Vec<String>)
    ensures
        r.deep_view() == tweet_headings(),
{
    let r: Vec<String> = vec![
        "ID".to_owned(),
        "Posted at".to_owned(),
        "Screen name".to_owned(),
        "Text".to_owned(),
    ];
    assert(r.deep_view() =~= tweet_headings());
    r
}

pub open spec fn list_headings() -> Seq<Seq<char>> {
    seq![
        "ID"@,
        "Created at"@,
        "Screen name"@,
        "Slug"@,
        "Members"@,
        "Subscribers"@,
        "Mode"@,
        "Description"@,
    ]
}

pub fn list_titles() -> (r: Vec<String>)
    ensures
        r.deep_view() == list_headings(),
{
    let r: Vec<String> = vec![
        "ID".to_owned(),
        "Created at".to_owned(),
        "Screen name".to_owned(),
        "Slug".to_owned(),
        "Members".to_owned(),
        "Subscribers".to_owned(),
        "Mode".to_owned(),
        "Description".to_owned(),
    ];
    assert(r.deep_view() =~= list_headings());
    r
}

pub open spec fn collection_headings() -> Seq<Seq<char>> {
    seq![
        "ID"@,
        "Name"@,
        "Description"@,
        "URL"@,
    ]
}

pub fn collection_titles() -> (r: Vec<String>)
    ensures
        r.deep_view() == collection_headings(),
{
    let r: Vec<String> = vec![
        "ID".to_owned(),
        "Name".to_owned(),
        "Description".to_owned(),
        "URL".to_owned(),
    ];
    assert(r.deep_view() =~= collection_headings());
    r
}

pub open spec fn place_headings() -> Seq<Seq<char>> {
    seq![
        "ID"@,
        "Type"@,
        "Name"@,
        "Country"@,
    ]
}

pub fn place_titles() -> (r: Vec<String>)
    ensures
        r.deep_view() == place_headings(),
{
    let r: Vec<String> = vec![
        "ID".to_owned(),
        "Type".to_owned(),
        "Name".to_owned(),
        "Country".to_owned(),
    ];
    assert(r.deep_view() =~= place_headings());
    r
}

pub open spec fn trend_headings() -> Seq<Seq<char>> {
    seq![
        "WOEID"@,
        "Parent ID"@,
        "Type"@,
        "Name"@,
        "Country"@,
    ]
}

pub fn trend_titles() -> (r: Vec<String>)
    ensures
        r.deep_view() == trend_headings(),
{
    let r: Vec<String> = vec![
        "WOEID".to_owned(),
        "Parent ID".to_owned(),
        "Type".to_owned(),
        "Name".to_owned(),
        "Country".to_owned(),
    ];
    assert(r.deep_view() =~= trend_headings());
    r
}

pub open spec fn user_headings() -> Seq<Seq<char>> {
    seq![
        "ID"@,
        "Since"@,
        "Last tweeted at"@,
        "Tweets"@,
        "Favorites"@,
        "Listed"@,
        "Following"@,
        "Followers"@,
        "Screen name"@,
        "Name"@,
        "Verified"@,
        "Protected"@,
        "Bio"@,
        "Status"@,
        "Location"@,
        "URL"@,
    ]
}

pub fn user_titles() -> (r: Vec<String>)
    ensures
        r.deep_view() == user_headings(),
{
    let r: Vec<String> = vec![
        "ID".to_owned(),
        "Since".to_owned(),
        "Last tweeted at".to_owned(),
        "Tweets".to_owned(),
        "Favorites".to_owned(),
        "Listed".to_owned(),
        "Following".to_owned(),
        "Followers".to_owned(),
        "Screen name".to_owned(),
        "Name".to_owned(),
        "Verified".to_owned(),
        "Protected".to_owned(),
        "Bio".to_owned(),
        "Status".to_owned(),
        "Location".to_owned(),
        "URL".to_owned(),
    ];
    assert(r.deep_view() =~= user_headings());
    r
}

pub open spec fn status_headings() -> Seq<Seq<char>> {
    seq![
        "ID"@,
        "Posted at"@,
        "Screen name"@,
        "Text"@,
        "Retweets"@,
        "Favorites"@,
        "Source"@,
        "Location"@,
    ]
}

pub fn status_titles() -> (r: Vec<String>)
    ensures
        r.deep_view() == status_headings(),
{
    let r: Vec<String> = vec![
        "ID".to_owned(),
        "Posted at".to_owned(),
        "Screen name".to_owned(),
        "Text".to_owned(),
        "Retweets".to_owned(),
        "Favorites".to_owned(),
        "Source".to_owned(),
        "Location".to_owned(),
    ];
    assert(r.deep_view() =~= status_headings());
    r
}

pub open spec fn list_info_headings() -> Seq<Seq<char>> {
    seq![
        "ID"@,
        "Description"@,
        "Slug"@,
        "Screen name"@,
        "Created at"@,
        "Members"@,
        "Subscribers"@,
        "Following"@,
        "Mode"@,
        "URL"@,
    ]
}

pub fn list_info_titles() -> (r: Vec<String>)
    ensures
        r.deep_view() == list_info_headings(),
{
    let r: Vec<String> = vec![
        "ID".to_owned(),
        "Description".to_owned(),
        "Slug".to_owned(),
        "Screen name".to_owned(),
        "Created at".to_owned(),
        "Members".to_owned(),
        "Subscribers".to_owned(),
        "Following".to_owned(),
        "Mode".to_owned(),
        "URL".to_owned(),
    ];
    assert(r.deep_view() =~= list_info_headings());
    r
}

pub open spec fn collection_info_headings() -> Seq<Seq<char>> {
    seq![
        "ID"@,
        "Name"@,
        "Description"@,
        "URL"@,
        "Timeline order"@,
        "Visibility"@,
    ]
}

pub fn collection_info_titles() -> (r: Vec<String>)
    ensures
        r.deep_view() == collection_info_headings(),
{
    let r: Vec<String> = vec![
        "ID".to_owned(),
        "Name".to_owned(),
        "Description".to_owned(),
        "URL".to_owned(),
        "Timeline order".to_owned(),
        "Visibility".to_owned(),
    ];
    assert(r.deep_view() =~= collection_info_headings());
    r
}

// ---------------------------------------------------------------------------
// Common parts
// ---------------------------------------------------------------------------

/// Comma-separated rows under their headings; nothing without rows.
pub open spec fn csv_listing(
    headings: Seq<Seq<char>>,
    rows: Seq<Seq<Seq<char>>>,
) -> Seq<Seq<char>> {
    if rows.len() == 0 {
        Seq::empty()
    } else {
        csv_always(headings, rows)
    }
}

/// Comma-separated rows under their headings.
pub open spec fn csv_always(headings: Seq<Seq<char>>, rows: Seq<Seq<Seq<char>>>) -> Seq<Seq<char>> {
    seq![csv_line(headings)] + rows.map_values(|r: Seq<Seq<char>>| csv_line(r))
}

pub fn print_csv_always(headings: &Vec<String>, rows: &Vec<Vec<String>>) -> (r: Vec<String>)
    ensures
        r.deep_view() == csv_always(headings.deep_view(), rows.deep_view()),
{
    let mut out: Vec<String> = Vec::new();
    extend_by(&mut out, csv_row(headings));
    assert(out.deep_view() =~= seq![csv_line(headings.deep_view())]);
    let show = |r: &Vec<String>| -> (s: String)
        ensures
            s@ == csv_line(r.deep_view()),
    {
        csv_row(r)
    };
    move_in(&mut out, map_list(rows, show, Ghost(|r: Seq<Seq<char>>| csv_line(r))));
    out
}

pub fn print_csv(headings: &Vec<String>, rows: &Vec<Vec<String>>) -> (r: Vec<String>)
    ensures
        r.deep_view() == csv_listing(headings.deep_view(), rows.deep_view()),
{
    assert(rows.deep_view().len() == rows.len());
    if rows.len() == 0 {
        let out: Vec<String> = Vec::new();
        assert(out.deep_view() =~= Seq::<Seq<char>>::empty());
        out
    } else {
        print_csv_always(headings, rows)
    }
}

/// The text on one line.
pub open spec fn on_one_line(s: Seq<char>) -> Seq<char> {
    replaced(s, "\n"@, " "@)
}

pub fn flatten_text(s: &str) -> (r: String)
    ensures
        r@ == on_one_line(s@),
{
    replace(s, "\n", " ")
}

/// The screen name of the user that a record belongs to.
pub open spec fn author_name(record: Data) -> Seq<char> {
    match record.get("user"@) {
        Some(user) => screen_name_of(user),
        None => Seq::empty(),
    }
}

pub fn author_screen_name(record: &Json) -> (r: String)
    ensures
        r@ == author_name(record@),
{
    match record.get("user") {
        Some(user) => user_screen_name(user),
        None => String::new(),
    }
}

pub open spec fn id_or_none(record: Data) -> Seq<char> {
    or_empty(record.id())
}

pub fn id_or_empty(record: &Json) -> (r: String)
    ensures
        r@ == id_or_none(record@),
{
    match value_id(record) {
        Some(id) => id,
        None => String::new(),
    }
}

/// What the record holds at the key, as text.
pub open spec fn field(record: Data, key: Seq<char>) -> Seq<char> {
    words_in(record.get(key))
}

pub fn field_text(record: &Json, key: &str) -> (r: String)
    ensures
        r@ == field(record@, key@),
{
    words_in_value(record.get(key))
}

pub open spec fn either_field(record: Data, first: Seq<char>, second: Seq<char>) -> Seq<char> {
    words_in(record.get_either(first, second))
}

pub fn either_field_text(record: &Json, first: &str, second: &str) -> (r: String)
    ensures
        r@ == either_field(record@, first@, second@),
{
    words_in_value(record.get_either(first, second))
}

pub open spec fn in_order<T>(items: Seq<T>, options: OptionsData) -> Seq<T> {
    if options.flag("reverse"@) {
        items.reverse()
    } else {
        items
    }
}

pub fn put_in_order(items: Vec<Json>, options: &Options) -> (r: Vec<Json>)
    ensures
        r.deep_view() == in_order(items.deep_view(), options@),
{
    if opt_bool(options, "reverse") {
        reversed(items)
    } else {
        items
    }
}

/// A date, and how long ago it was.
pub open spec fn time_with_age(time: Option<Instant>, clock: ClockData) -> Seq<char> {
    match time {
        Some(t) => listed_time(Some(t), false, clock) + " ("@ + distance(t, clock.now) + " ago)"@,
        None => Seq::empty(),
    }
}

pub fn show_time_with_age(time: Option<Instant>, clock: &Clock) -> (r: String)
    ensures
        r@ == time_with_age(time, clock@),
{
    match time {
        Some(t) => {
            let shown = ls_like_time(Some(t), false, clock);
            let age = distance_of_time_in_words(t, clock.now);
            shown.concat(" (").concat(age.as_str()).concat(" ago)")
        },
        None => String::new(),
    }
}

fn add_row(rows: &mut Vec<(String, String)>, key: &str, value: String)
    ensures
        final(rows).deep_view() == old(rows).deep_view() + seq![(key@, value@)],
{
    let ghost before = rows.deep_view();
    extend_by(rows, (key.to_owned(), value));
    assert(rows.deep_view() =~= before + seq![(key@, value@)]);
}

/// A row for the text, where there is one that is not empty.
pub open spec fn row_if(key: Seq<char>, value: Option<Seq<char>>) -> Seq<(Seq<char>, Seq<char>)> {
    match value {
        Some(s) => if s.len() > 0 {
            seq![(key, s)]
        } else {
            Seq::empty()
        },
        None => Seq::empty(),
    }
}

fn add_row_if(rows: &mut Vec<(String, String)>, key: &str, value: Option<String>)
    ensures
        final(rows).deep_view() == old(rows).deep_view() + row_if(key@, value.deep_view()),
{
    let ghost before = rows.deep_view();
    match value {
        Some(s) => {
            if !s.as_str().is_empty() {
                add_row(rows, key, s);
            }
        },
        None => {},
    }
    assert(rows.deep_view() =~= before + row_if(key@, value.deep_view()));
}

// ---------------------------------------------------------------------------
// Places on a map
// ---------------------------------------------------------------------------

/// Where a tweet was sent from, in as much detail as its place gives.
pub open spec fn location_of(status: Data) -> Seq<char> {
    match status.get("place"@) {
        None => Seq::empty(),
        Some(place) => {
            let name = place.words_at("name"@);
            let full = place.words_at("full_name"@);
            let country = place.words_at("country"@);
            let attributes = place.get("attributes"@);
            let street = or_empty(text_in(get_in(attributes, "street_address"@)));
            let locality = or_empty(text_in(get_in(attributes, "locality"@)));
            let region = or_empty(text_in(get_in(attributes, "region"@)));
            if name.len() > 0 && street.len() > 0 && locality.len() > 0 && region.len() > 0
                && country.len() > 0 {
                joined(seq![name, street, locality, region, country], ", "@)
            } else if name.len() > 0 && locality.len() > 0 && region.len() > 0 && country.len()
                > 0 {
                joined(seq![name, locality, region, country], ", "@)
            } else if full.len() > 0 && region.len() > 0 && country.len() > 0 {
                joined(seq![full, region, country], ", "@)
            } else if full.len() > 0 && country.len() > 0 {
                joined(seq![full, country], ", "@)
            } else if full.len() > 0 {
                full
            } else {
                name
            }
        },
    }
}

fn join_parts(parts: Vec<String>) -> (r: String)
    ensures
        r@ == joined(parts.deep_view(), ", "@),
{
    join(&parts, ", ")
}

pub fn status_location(status: &Json) -> (r: String)
    ensures
        r@ == location_of(status@),
{
    match status.get("place") {
        None => String::new(),
        Some(place) => {
            let name = place.words_at("name");
            let full = place.words_at("full_name");
            let country = place.words_at("country");
            let attributes = place.get("attributes");
            let street = text_or_empty(str_from(get_from(attributes, "street_address")));
            let locality = text_or_empty(str_from(get_from(attributes, "locality")));
            let region = text_or_empty(str_from(get_from(attributes, "region")));
            let has_name = !name.as_str().is_empty();
            let has_full = !full.as_str().is_empty();
            let has_country = !country.as_str().is_empty();
            let has_street = !street.as_str().is_empty();
            let has_locality = !locality.as_str().is_empty();
            let has_region = !region.as_str().is_empty();
            if has_name && has_street && has_locality && has_region && has_country {
                let parts: Vec<String> = vec![name, street, locality, region, country];
                assert(parts.deep_view() =~= seq![name@, street@, locality@, region@, country@]);
                join_parts(parts)
            } else if has_name && has_locality && has_region && has_country {
                let parts: Vec<String> = vec![name, locality, region, country];
                assert(parts.deep_view() =~= seq![name@, locality@, region@, country@]);
                join_parts(parts)
            } else if has_full && has_region && has_country {
                let parts: Vec<String> = vec![full, region, country];
                assert(parts.deep_view() =~= seq![full@, region@, country@]);
                join_parts(parts)
            } else if has_full && has_country {
                let parts: Vec<String> = vec![full, country];
                assert(parts.deep_view() =~= seq![full@, country@]);
                join_parts(parts)
            } else if has_full {
                full
            } else {
                name
            }
        },
    }
}

// ---------------------------------------------------------------------------
// One tweet
// ---------------------------------------------------------------------------

pub open spec fn status_author(status: Data) -> Seq<char> {
    or_empty(text_in(get_in(status.get("user"@), "screen_name"@)))
}

pub open spec fn status_source(status: Data) -> Seq<char> {
    match status.text_at("source"@) {
        Some(s) => untagged(s, false),
        None => Seq::empty(),
    }
}

pub open spec fn status_csv_row(status: Data, options: OptionsData) -> Seq<Seq<char>> {
    seq![
        id_or_none(status),
        full_time_or_none(created(status)),
        status_author(status),
        text_of(status, options.flag("decode_uris"@)),
        signed_decimal(status.count_at("retweet_count"@) as int),
        signed_decimal(status.count_at("favorite_count"@) as int),
        status_source(status),
        location_of(status),
    ]
}

pub open spec fn status_long_row(
    status: Data,
    options: OptionsData,
    clock: ClockData,
) -> Seq<Seq<char>> {
    seq![
        id_or_none(status),
        listed_time(created(status), options.flag("relative_dates"@), clock),
        "@"@ + status_author(status),
        on_one_line(text_of(status, options.flag("decode_uris"@))),
        signed_decimal(status.count_at("retweet_count"@) as int),
        signed_decimal(status.count_at("favorite_count"@) as int),
        status_source(status),
        location_of(status),
    ]
}

pub open spec fn status_rows(
    status: Data,
    options: OptionsData,
    clock: ClockData,
) -> Seq<(Seq<char>, Seq<char>)> {
    Seq::empty() + seq![("ID"@, id_or_none(status))] + seq![
        ("Text"@, on_one_line(text_of(status, options.flag("decode_uris"@)))),
    ] + seq![("Screen name"@, "@"@ + status_author(status))] + seq![
        ("Posted at"@, time_with_age(created(status), clock)),
    ] + seq![("Retweets"@, delimited(status.count_at("retweet_count"@) as int, ','))] + seq![
        ("Favorites"@, delimited(status.count_at("favorite_count"@) as int, ',')),
    ] + seq![("Source"@, status_source(status))] + row_if(
        "Location"@,
        Some(location_of(status)),
    )
}

/// A tweet in detail: as a comma-separated row, as a table, or as labelled values.
pub open spec fn status_lines(
    status: Data,
    options: OptionsData,
    clock: ClockData,
) -> Seq<Seq<char>> {
    if options.flag("csv"@) {
        csv_always(status_headings(), seq![status_csv_row(status, options)])
    } else if options.flag("long"@) {
        table_lines(status_headings(), seq![status_long_row(status, options, clock)])
    } else {
        key_value_lines(status_rows(status, options, clock))
    }
}

pub fn print_status(status: &Json, options: &Options, clock: &Clock) -> (r: Vec<String>)
    ensures
        r.deep_view() == status_lines(status@, options@, clock@),
{
    let id = id_or_empty(status);
    let screen_name = text_or_empty(str_from(get_from(status.get("user"), "screen_name")));
    let text = tweet_text(status, opt_bool(options, "decode_uris"));
    let retweets: i64 = status.count_at("retweet_count");
    let favorites: i64 = status.count_at("favorite_count");
    let source = match status.get_str("source") {
        Some(s) => strip_tags(s.as_str()),
        None => String::new(),
    };
    let location = status_location(status);
    let time = created_time(status);
    if opt_bool(options, "csv") {
        let row: Vec<String> = vec![
            id,
            csv_time_or_none(time),
            screen_name,
            text,
            decimal_i64(retweets),
            decimal_i64(favorites),
            source,
            location,
        ];
        assert(row.deep_view() =~= status_csv_row(status@, options@));
        let rows: Vec<Vec<String>> = vec![row];
        assert(rows.deep_view() =~= seq![status_csv_row(status@, options@)]);
        print_csv_always(&status_titles(), &rows)
    } else if opt_bool(options, "long") {
        let row: Vec<String> = vec![
            id,
            ls_like_time(time, opt_bool(options, "relative_dates"), clock),
            cat2("@", screen_name.as_str()),
            flatten_text(text.as_str()),
            decimal_i64(retweets),
            decimal_i64(favorites),
            source,
            location,
        ];
        assert(row.deep_view() =~= status_long_row(status@, options@, clock@));
        let rows: Vec<Vec<String>> = vec![row];
        assert(rows.deep_view() =~= seq![status_long_row(status@, options@, clock@)]);
        print_table(&status_titles(), &rows)
    } else {
        let mut rows: Vec<(String, String)> = Vec::new();
        assert(rows.deep_view() =~= Seq::empty());
        add_row(&mut rows, "ID", id);
        add_row(&mut rows, "Text", flatten_text(text.as_str()));
        add_row(&mut rows, "Screen name", cat2("@", screen_name.as_str()));
        add_row(&mut rows, "Posted at", show_time_with_age(time, clock));
        add_row(&mut rows, "Retweets", number_with_delimiter(retweets, ','));
        add_row(&mut rows, "Favorites", number_with_delimiter(favorites, ','));
        add_row(&mut rows, "Source", source);
        add_row_if(&mut rows, "Location", Some(location));
        print_key_value_table(&rows)
    }
}

// ---------------------------------------------------------------------------
// Tweets
// ---------------------------------------------------------------------------

pub open spec fn tweet_csv_row(tweet: Data, options: OptionsData) -> Seq<Seq<char>> {
    seq![
        id_or_none(tweet),
        full_time_or_none(created(tweet)),
        author_name(tweet),
        text_of(tweet, options.flag("decode_uris"@)),
    ]
}

pub open spec fn tweet_long_row(
    tweet: Data,
    options: OptionsData,
    clock: ClockData,
) -> Seq<Seq<char>> {
    seq![
        id_or_none(tweet),
        listed_time(created(tweet), options.flag("relative_dates"@), clock),
        "@"@ + author_name(tweet),
        on_one_line(text_of(tweet, options.flag("decode_uris"@))),
    ]
}

pub open spec fn tweet_message(tweet: Data, options: OptionsData) -> Seq<Seq<char>> {
    message_lines(author_name(tweet), text_of(tweet, options.flag("decode_uris"@)))
}

/// Tweets, in the opposite order if so wished: as comma-separated rows, as a table, or as messages.
pub open spec fn tweets_lines(
    tweets: Seq<Data>,
    options: OptionsData,
    clock: ClockData,
) -> Seq<Seq<char>> {
    let shown = in_order(tweets, options);
    if options.flag("csv"@) {
        csv_listing(tweet_headings(), shown.map_values(|t: Data| tweet_csv_row(t, options)))
    } else if options.flag("long"@) {
        table_lines(tweet_headings(), shown.map_values(|t: Data| tweet_long_row(t, options, clock)))
    } else {
        spread(shown, |t: Data| tweet_message(t, options))
    }
}

pub fn tweet_csv_cells(tweet: &Json, options: &Options) -> (r: Vec<String>)
    ensures
        r.deep_view() == tweet_csv_row(tweet@, options@),
{
    let row: Vec<String> = vec![
        id_or_empty(tweet),
        csv_time_or_none(created_time(tweet)),
        author_screen_name(tweet),
        tweet_text(tweet, opt_bool(options, "decode_uris")),
    ];
    assert(row.deep_view() =~= tweet_csv_row(tweet@, options@));
    row
}

pub fn tweet_long_cells(tweet: &Json, options: &Options, clock: &Clock) -> (r: Vec<String>)
    ensures
        r.deep_view() == tweet_long_row(tweet@, options@, clock@),
{
    let row: Vec<String> = vec![
        id_or_empty(tweet),
        ls_like_time(created_time(tweet), opt_bool(options, "relative_dates"), clock),
        cat2("@", author_screen_name(tweet).as_str()),
        flatten_text(tweet_text(tweet, opt_bool(options, "decode_uris")).as_str()),
    ];
    assert(row.deep_view() =~= tweet_long_row(tweet@, options@, clock@));
    row
}

pub fn print_tweets(tweets: &Vec<Json>, options: &Options, clock: &Clock) -> (r: Vec<String>)
    ensures
        r.deep_view() == tweets_lines(tweets.deep_view(), options@, clock@),
{
    let shown = put_in_order(crate::json::copy_list(tweets), options);
    if opt_bool(options, "csv") {
        let cells = |t: &Json| -> (r: Vec<String>)
            ensures
                r.deep_view() == tweet_csv_row(t@, options@),
        {
            tweet_csv_cells(t, options)
        };
        let rows = map_list(&shown, cells, Ghost(|t: Data| tweet_csv_row(t, options@)));
        print_csv(&tweet_titles(), &rows)
    } else if opt_bool(options, "long") {
        let cells = |t: &Json| -> (r: Vec<String>)
            ensures
                r.deep_view() == tweet_long_row(t@, options@, clock@),
        {
            tweet_long_cells(t, options, clock)
        };
        let rows = map_list(&shown, cells, Ghost(|t: Data| tweet_long_row(t, options@, clock@)));
        print_table(&tweet_titles(), &rows)
    } else {
        let show = |t: &Json| -> (r: Vec<String>)
            ensures
                r.deep_view() == tweet_message(t@, options@),
        {
            print_message(
                author_screen_name(t).as_str(),
                tweet_text(t, opt_bool(options, "decode_uris")).as_str(),
            )
        };
        spread_list(&shown, show, Ghost(|t: Data| tweet_message(t, options@)))
    }
}

// ---------------------------------------------------------------------------
// Users
// ---------------------------------------------------------------------------

pub open spec fn last_status(user: Data) -> Data {
    match user.get("status"@) {
        Some(s) => s,
        None => Data::Null,
    }
}

/// What users are sorted by.
pub open spec fn user_key(user: Data, sort: Seq<char>) -> Seq<i64> {
    if sort == "favorites"@ {
        seq![user.count_at("favourites_count"@)]
    } else if sort == "followers"@ {
        seq![user.count_at("followers_count"@)]
    } else if sort == "friends"@ {
        seq![user.count_at("friends_count"@)]
    } else if sort == "listed"@ {
        seq![user.count_at("listed_count"@)]
    } else if sort == "since"@ {
        time_key(created(user))
    } else if sort == "tweets"@ {
        seq![user.count_at("statuses_count"@)]
    } else if sort == "tweeted"@ {
        match created(last_status(user)) {
            Some(t) => time_key(Some(t)),
            None => time_key(Some(Instant { secs: 0, nanos: 0 })),
        }
    } else {
        text_key(lowered(screen_name_of(user)))
    }
}

fn number_key(n: i64) -> (r: Vec<i64>)
    ensures
        r@ == seq![n],
{
    let r: Vec<i64> = vec![n];
    assert(r@ =~= seq![n]);
    r
}

pub fn key_of_user(user: &Json, sort: &str) -> (r: Vec<i64>)
    ensures
        r@ == user_key(user@, sort@),
{
    if same(sort, "favorites") {
        number_key(user.count_at("favourites_count"))
    } else if same(sort, "followers") {
        number_key(user.count_at("followers_count"))
    } else if same(sort, "friends") {
        number_key(user.count_at("friends_count"))
    } else if same(sort, "listed") {
        number_key(user.count_at("listed_count"))
    } else if same(sort, "since") {
        key_of_time(created_time(user))
    } else if same(sort, "tweets") {
        number_key(user.count_at("statuses_count"))
    } else if same(sort, "tweeted") {
        let null = Json::Null;
        let status = match user.get("status") {
            Some(s) => s,
            None => &null,
        };
        match created_time(status) {
            Some(t) => key_of_time(Some(t)),
            None => key_of_time(Some(Instant { secs: 0, nanos: 0 })),
        }
    } else {
        key_of_text(to_ascii_lowercase(user_screen_name(user).as_str()).as_str())
    }
}

/// Items sorted by their keys unless `unsorted`, then reversed if so wished.
pub open spec fn arranged(
    items: Seq<Data>,
    options: OptionsData,
    key: spec_fn(Data) -> Seq<i64>,
) -> Seq<Data> {
    let sorted = if options.flag("unsorted"@) {
        items
    } else {
        sorted_by_key(items, key)
    };
    in_order(sorted, options)
}

fn arrange<F: Fn(&Json) -> Vec<i64>>(
    items: Vec<Json>,
    options: &Options,
    key: F,
    Ghost(g): Ghost<spec_fn(Data) -> Seq<i64>>,
) -> (r: Vec<Json>)
    requires
        forall|x: &Json| call_requires(key, (x,)),
        forall|x: &Json, y: Vec<i64>| #[trigger]
            call_ensures(key, (x,), y) ==> y@ == g(x.deep_view()),
    ensures
        r.deep_view() == arranged(items.deep_view(), options@, g),
{
    let sorted = if opt_bool(options, "unsorted") {
        items
    } else {
        sort_list(items, key, Ghost(g))
    };
    put_in_order(sorted, options)
}

pub open spec fn arranged_users(users: Seq<Data>, options: OptionsData) -> Seq<Data> {
    arranged(
        users,
        options,
        |u: Data| user_key(u, options.text_or("sort"@, "screen_name"@)),
    )
}

pub open spec fn user_csv_row(user: Data) -> Seq<Seq<char>> {
    seq![
        id_or_none(user),
        full_time_or_none(created(user)),
        full_time_or_none(created(last_status(user))),
        field(user, "statuses_count"@),
        either_field(user, "favourites_count"@, "favorites_count"@),
        field(user, "listed_count"@),
        field(user, "friends_count"@),
        field(user, "followers_count"@),
        screen_name_of(user),
        field(user, "name"@),
        yes_no(user.flag_at("verified"@)),
        yes_no(user.flag_at("protected"@)),
        field(user, "description"@),
        either_field(last_status(user), "full_text"@, "text"@),
        field(user, "location"@),
        field(user, "url"@),
    ]
}

pub open spec fn user_long_row(
    user: Data,
    options: OptionsData,
    clock: ClockData,
) -> Seq<Seq<char>> {
    seq![
        id_or_none(user),
        listed_time(created(user), options.flag("relative_dates"@), clock),
        listed_time(created(last_status(user)), options.flag("relative_dates"@), clock),
        field(user, "statuses_count"@),
        either_field(user, "favourites_count"@, "favorites_count"@),
        field(user, "listed_count"@),
        field(user, "friends_count"@),
        field(user, "followers_count"@),
        "@"@ + screen_name_of(user),
        field(user, "name"@),
        yes_no(user.flag_at("verified"@)),
        yes_no(user.flag_at("protected"@)),
        field(user, "description"@),
        on_one_line(text_of(last_status(user), options.flag("decode_uris"@))),
        field(user, "location"@),
        field(user, "url"@),
    ]
}

pub fn user_csv_cells(user: &Json) -> (r: Vec<String>)
    ensures
        r.deep_view() == user_csv_row(user@),
{
    let null = Json::Null;
    let status = match user.get("status") {
        Some(s) => s,
        None => &null,
    };
    let row: Vec<String> = vec![
        id_or_empty(user),
        csv_time_or_none(created_time(user)),
        csv_time_or_none(created_time(status)),
        field_text(user, "statuses_count"),
        either_field_text(user, "favourites_count", "favorites_count"),
        field_text(user, "listed_count"),
        field_text(user, "friends_count"),
        field_text(user, "followers_count"),
        user_screen_name(user),
        field_text(user, "name"),
        bool_to_yes_no(user.get_bool("verified")),
        bool_to_yes_no(user.get_bool("protected")),
        field_text(user, "description"),
        either_field_text(status, "full_text", "text"),
        field_text(user, "location"),
        field_text(user, "url"),
    ];
    assert(row.deep_view() =~= user_csv_row(user@));
    row
}

pub fn user_long_cells(user: &Json, options: &Options, clock: &Clock) -> (r: Vec<String>)
    ensures
        r.deep_view() == user_long_row(user@, options@, clock@),
{
    let null = Json::Null;
    let status = match user.get("status") {
        Some(s) => s,
        None => &null,
    };
    let relative = opt_bool(options, "relative_dates");
    let row: Vec<String> = vec![
        id_or_empty(user),
        ls_like_time(created_time(user), relative, clock),
        ls_like_time(created_time(status), relative, clock),
        field_text(user, "statuses_count"),
        either_field_text(user, "favourites_count", "favorites_count"),
        field_text(user, "listed_count"),
        field_text(user, "friends_count"),
        field_text(user, "followers_count"),
        cat2("@", user_screen_name(user).as_str()),
        field_text(user, "name"),
        bool_to_yes_no(user.get_bool("verified")),
        bool_to_yes_no(user.get_bool("protected")),
        field_text(user, "description"),
        flatten_text(tweet_text(status, opt_bool(options, "decode_uris")).as_str()),
        field_text(user, "location"),
        field_text(user, "url"),
    ];
    assert(row.deep_view() =~= user_long_row(user@, options@, clock@));
    row
}

/// Users in order: as comma-separated rows, as a table, or by screen name.
pub open spec fn users_lines(
    users: Seq<Data>,
    options: OptionsData,
    clock: ClockData,
) -> Seq<Seq<char>> {
    let shown = arranged_users(users, options);
    if options.flag("csv"@) {
        csv_listing(user_headings(), shown.map_values(|u: Data| user_csv_row(u)))
    } else if options.flag("long"@) {
        table_lines(user_headings(), shown.map_values(|u: Data| user_long_row(u, options, clock)))
    } else {
        shown.map_values(|u: Data| screen_name_of(u))
    }
}

pub fn print_users(users: &Vec<Json>, options: &Options, clock: &Clock) -> (r: Vec<String>)
    ensures
        r.deep_view() == users_lines(users.deep_view(), options@, clock@),
{
    let sort = opt_text_or(options, "sort", "screen_name");
    let key = |u: &Json| -> (r: Vec<i64>)
        ensures
            r@ == user_key(u@, sort@),
    {
        key_of_user(u, sort.as_str())
    };
    let shown = arrange(
        crate::json::copy_list(users),
        options,
        key,
        Ghost(|u: Data| user_key(u, options@.text_or("sort"@, "screen_name"@))),
    );
    if opt_bool(options, "csv") {
        let cells = |u: &Json| -> (r: Vec<String>)
            ensures
                r.deep_view() == user_csv_row(u@),
        {
            user_csv_cells(u)
        };
        let rows = map_list(&shown, cells, Ghost(|u: Data| user_csv_row(u)));
        print_csv(&user_titles(), &rows)
    } else if opt_bool(options, "long") {
        let cells = |u: &Json| -> (r: Vec<String>)
            ensures
                r.deep_view() == user_long_row(u@, options@, clock@),
        {
            user_long_cells(u, options, clock)
        };
        let rows = map_list(&shown, cells, Ghost(|u: Data| user_long_row(u, options@, clock@)));
        print_table(&user_titles(), &rows)
    } else {
        let show = |u: &Json| -> (r: String)
            ensures
                r@ == screen_name_of(u@),
        {
            user_screen_name(u)
        };
        map_list(&shown, show, Ghost(|u: Data| screen_name_of(u)))
    }
}

pub open spec fn last_update(user: Data, options: OptionsData, clock: ClockData) -> Seq<(
    Seq<char>,
    Seq<char>,
)> {
    match user.get("status"@) {
        Some(status) => {
            let text = on_one_line(text_of(status, options.flag("decode_uris"@)));
            seq![
                (
                    "Last update"@,
                    match created(status) {
                        Some(t) => text + " ("@ + distance(t, clock.now) + " ago)"@,
                        None => text,
                    },
                ),
            ]
        },
        None => Seq::empty(),
    }
}

pub open spec fn count_in(value: Option<Data>) -> int {
    match value {
        Some(v) => match v.as_signed() {
            Some(n) => n as int,
            None => 0,
        },
        None => 0,
    }
}

pub open spec fn whois_rows(user: Data, options: OptionsData, clock: ClockData) -> Seq<(
    Seq<char>,
    Seq<char>,
)> {
    Seq::empty() + seq![("ID"@, id_or_none(user))] + seq![
        ("Since"@, time_with_age(created(user), clock)),
    ] + last_update(user, options, clock) + seq![("Screen name"@, "@"@ + screen_name_of(user))]
        + row_if(
        if user.flag_at("verified"@) == Some(true) {
            "Name (Verified)"@
        } else {
            "Name"@
        },
        user.text_at("name"@),
    ) + seq![("Tweets"@, delimited(user.count_at("statuses_count"@) as int, ','))] + seq![
        (
            "Favorites"@,
            delimited(count_in(user.get_either("favourites_count"@, "favorites_count"@)), ','),
        ),
    ] + seq![("Listed"@, delimited(user.count_at("listed_count"@) as int, ','))] + seq![
        ("Following"@, delimited(user.count_at("friends_count"@) as int, ',')),
    ] + seq![("Followers"@, delimited(user.count_at("followers_count"@) as int, ','))] + row_if(
        "Bio"@,
        match user.text_at("description"@) {
            Some(s) => if s.len() > 0 {
                Some(on_one_line(s))
            } else {
                None
            },
            None => None,
        },
    ) + row_if("Location"@, user.text_at("location"@)) + row_if("URL"@, user.text_at("url"@))
}

/// A user in detail.
pub open spec fn whois_lines(user: Data, options: OptionsData, clock: ClockData) -> Seq<
    Seq<char>,
> {
    if options.flag("csv"@) || options.flag("long"@) {
        users_lines(seq![user], options, clock)
    } else {
        key_value_lines(whois_rows(user, options, clock))
    }
}

fn copied(value: Option<&String>) -> (r: Option<String>)
    ensures
        r.deep_view() == value.deep_view(),
{
    match value {
        Some(s) => Some(s.clone()),
        None => None,
    }
}

pub fn print_whois(user: &Json, options: &Options, clock: &Clock) -> (r: Vec<String>)
    ensures
        r.deep_view() == whois_lines(user@, options@, clock@),
{
    if opt_bool(options, "csv") || opt_bool(options, "long") {
        let users: Vec<Json> = vec![user.copy()];
        assert(users.deep_view() =~= seq![user@]);
        return print_users(&users, options, clock);
    }
    let mut rows: Vec<(String, String)> = Vec::new();
    assert(rows.deep_view() =~= Seq::empty());
    add_row(&mut rows, "ID", id_or_empty(user));
    add_row(&mut rows, "Since", show_time_with_age(created_time(user), clock));
    let ghost before = rows.deep_view();
    if let Some(status) = user.get("status") {
        let mut text = flatten_text(tweet_text(status, opt_bool(options, "decode_uris")).as_str());
        if let Some(t) = created_time(status) {
            text.append(" (");
            text.append(distance_of_time_in_words(t, clock.now).as_str());
            text.append(" ago)");
        }
        add_row(&mut rows, "Last update", text);
    }
    assert(rows.deep_view() =~= before + last_update(user@, options@, clock@));
    add_row(&mut rows, "Screen name", cat2("@", user_screen_name(user).as_str()));
    let label = match user.get_bool("verified") {
        Some(true) => "Name (Verified)",
        _ => "Name",
    };
    add_row_if(&mut rows, label, copied(user.get_str("name")));
    add_row(&mut rows, "Tweets", number_with_delimiter(user.count_at("statuses_count"), ','));
    let favorites: i64 = match user.get_either("favourites_count", "favorites_count") {
        Some(v) => match v.as_i64() {
            Some(n) => n,
            None => 0,
        },
        None => 0,
    };
    add_row(&mut rows, "Favorites", number_with_delimiter(favorites, ','));
    add_row(&mut rows, "Listed", number_with_delimiter(user.count_at("listed_count"), ','));
    add_row(&mut rows, "Following", number_with_delimiter(user.count_at("friends_count"), ','));
    add_row(&mut rows, "Followers", number_with_delimiter(user.count_at("followers_count"), ','));
    let bio: Option<String> = match user.get_str("description") {
        Some(s) => if s.as_str().is_empty() {
            None
        } else {
            Some(flatten_text(s.as_str()))
        },
        None => None,
    };
    add_row_if(&mut rows, "Bio", bio);
    add_row_if(&mut rows, "Location", copied(user.get_str("location")));
    add_row_if(&mut rows, "URL", copied(user.get_str("url")));
    print_key_value_table(&rows)
}

// ---------------------------------------------------------------------------
// Lists
// ---------------------------------------------------------------------------

pub open spec fn list_key(list: Data, sort: Seq<char>) -> Seq<i64> {
    if sort == "members"@ {
        seq![list.count_at("member_count"@)]
    } else if sort == "mode"@ {
        text_key(list.words_at("mode"@))
    } else if sort == "since"@ {
        time_key(created(list))
    } else if sort == "subscribers"@ {
        seq![list.count_at("subscriber_count"@)]
    } else {
        text_key(lowered(list.words_at("slug"@)))
    }
}

pub fn key_of_list(list: &Json, sort: &str) -> (r: Vec<i64>)
    ensures
        r@ == list_key(list@, sort@),
{
    if same(sort, "members") {
        number_key(list.count_at("member_count"))
    } else if same(sort, "mode") {
        key_of_text(list.words_at("mode").as_str())
    } else if same(sort, "since") {
        key_of_time(created_time(list))
    } else if same(sort, "subscribers") {
        number_key(list.count_at("subscriber_count"))
    } else {
        key_of_text(to_ascii_lowercase(list.words_at("slug").as_str()).as_str())
    }
}

pub open spec fn arranged_lists(lists: Seq<Data>, options: OptionsData) -> Seq<Data> {
    arranged(lists, options, |l: Data| list_key(l, options.text_or("sort"@, "slug"@)))
}

pub open spec fn list_csv_row(list: Data) -> Seq<Seq<char>> {
    seq![
        id_or_none(list),
        full_time_or_none(created(list)),
        author_name(list),
        field(list, "slug"@),
        field(list, "member_count"@),
        field(list, "subscriber_count"@),
        field(list, "mode"@),
        field(list, "description"@),
    ]
}

pub open spec fn list_long_row(
    list: Data,
    options: OptionsData,
    clock: ClockData,
) -> Seq<Seq<char>> {
    seq![
        id_or_none(list),
        listed_time(created(list), options.flag("relative_dates"@), clock),
        "@"@ + author_name(list),
        field(list, "slug"@),
        field(list, "member_count"@),
        field(list, "subscriber_count"@),
        field(list, "mode"@),
        field(list, "description"@),
    ]
}

pub open spec fn list_full_name(list: Data) -> Seq<char> {
    match list.text_at("full_name"@) {
        Some(s) => s,
        None => "@"@ + author_name(list) + "/"@ + list.words_at("slug"@),
    }
}

pub fn list_csv_cells(list: &Json) -> (r: Vec<String>)
    ensures
        r.deep_view() == list_csv_row(list@),
{
    let row: Vec<String> = vec![
        id_or_empty(list),
        csv_time_or_none(created_time(list)),
        author_screen_name(list),
        field_text(list, "slug"),
        field_text(list, "member_count"),
        field_text(list, "subscriber_count"),
        field_text(list, "mode"),
        field_text(list, "description"),
    ];
    assert(row.deep_view() =~= list_csv_row(list@));
    row
}

pub fn list_long_cells(list: &Json, options: &Options, clock: &Clock) -> (r: Vec<String>)
    ensures
        r.deep_view() == list_long_row(list@, options@, clock@),
{
    let row: Vec<String> = vec![
        id_or_empty(list),
        ls_like_time(created_time(list), opt_bool(options, "relative_dates"), clock),
        cat2("@", author_screen_name(list).as_str()),
        field_text(list, "slug"),
        field_text(list, "member_count"),
        field_text(list, "subscriber_count"),
        field_text(list, "mode"),
        field_text(list, "description"),
    ];
    assert(row.deep_view() =~= list_long_row(list@, options@, clock@));
    row
}

/// Lists in order: as comma-separated rows, as a table, or by full name.
pub open spec fn lists_lines(
    lists: Seq<Data>,
    options: OptionsData,
    clock: ClockData,
) -> Seq<Seq<char>> {
    let shown = arranged_lists(lists, options);
    if options.flag("csv"@) {
        csv_listing(list_headings(), shown.map_values(|l: Data| list_csv_row(l)))
    } else if options.flag("long"@) {
        table_lines(list_headings(), shown.map_values(|l: Data| list_long_row(l, options, clock)))
    } else {
        shown.map_values(|l: Data| list_full_name(l))
    }
}

pub fn print_lists(lists: &Vec<Json>, options: &Options, clock: &Clock) -> (r: Vec<String>)
    ensures
        r.deep_view() == lists_lines(lists.deep_view(), options@, clock@),
{
    let sort = opt_text_or(options, "sort", "slug");
    let key = |l: &Json| -> (r: Vec<i64>)
        ensures
            r@ == list_key(l@, sort@),
    {
        key_of_list(l, sort.as_str())
    };
    let shown = arrange(
        crate::json::copy_list(lists),
        options,
        key,
        Ghost(|l: Data| list_key(l, options@.text_or("sort"@, "slug"@))),
    );
    if opt_bool(options, "csv") {
        let cells = |l: &Json| -> (r: Vec<String>)
            ensures
                r.deep_view() == list_csv_row(l@),
        {
            list_csv_cells(l)
        };
        let rows = map_list(&shown, cells, Ghost(|l: Data| list_csv_row(l)));
        print_csv(&list_titles(), &rows)
    } else if opt_bool(options, "long") {
        let cells = |l: &Json| -> (r: Vec<String>)
            ensures
                r.deep_view() == list_long_row(l@, options@, clock@),
        {
            list_long_cells(l, options, clock)
        };
        let rows = map_list(&shown, cells, Ghost(|l: Data| list_long_row(l, options@, clock@)));
        print_table(&list_titles(), &rows)
    } else {
        let show = |l: &Json| -> (r: String)
            ensures
                r@ == list_full_name(l@),
        {
            match l.get_str("full_name") {
                Some(s) => s.clone(),
                None => cat2("@", author_screen_name(l).as_str()).concat("/").concat(
                    l.words_at("slug").as_str(),
                ),
            }
        };
        map_list(&shown, show, Ghost(|l: Data| list_full_name(l)))
    }
}

pub open spec fn list_info_row(list: Data) -> Seq<Seq<char>> {
    seq![
        id_or_none(list),
        field(list, "description"@),
        field(list, "slug"@),
        author_name(list),
        full_time_or_none(created(list)),
        field(list, "member_count"@),
        field(list, "subscriber_count"@),
        yes_no(list.flag_at("following"@)),
        field(list, "mode"@),
        either_field(list, "uri"@, "url"@),
    ]
}

pub open spec fn list_info_rows(list: Data, options: OptionsData, clock: ClockData) -> Seq<(
    Seq<char>,
    Seq<char>,
)> {
    Seq::empty() + seq![("ID"@, id_or_none(list))] + seq![
        ("Description"@, field(list, "description"@)),
    ] + seq![("Slug"@, field(list, "slug"@))] + seq![("Screen name"@, "@"@ + author_name(list))]
        + seq![
        ("Created at"@, listed_time(created(list), options.flag("relative_dates"@), clock)),
    ] + seq![("Members"@, delimited(list.count_at("member_count"@) as int, ','))] + seq![
        ("Subscribers"@, delimited(list.count_at("subscriber_count"@) as int, ',')),
    ] + seq![
        (
            "Status"@,
            if list.flag_at("following"@) == Some(true) {
                "Following"@
            } else {
                "Not following"@
            },
        ),
    ] + seq![("Mode"@, field(list, "mode"@))] + seq![("URL"@, either_field(list, "uri"@, "url"@))]
}

/// A list in detail.
pub open spec fn list_info_lines(
    list: Data,
    options: OptionsData,
    clock: ClockData,
) -> Seq<Seq<char>> {
    if options.flag("csv"@) {
        csv_always(list_info_headings(), seq![list_info_row(list)])
    } else {
        labelled_lines(list_info_rows(list, options, clock))
    }
}

pub fn print_list_information(list: &Json, options: &Options, clock: &Clock) -> (r: Vec<String>)
    ensures
        r.deep_view() == list_info_lines(list@, options@, clock@),
{
    if opt_bool(options, "csv") {
        let row: Vec<String> = vec![
            id_or_empty(list),
            field_text(list, "description"),
            field_text(list, "slug"),
            author_screen_name(list),
            csv_time_or_none(created_time(list)),
            field_text(list, "member_count"),
            field_text(list, "subscriber_count"),
            bool_to_yes_no(list.get_bool("following")),
            field_text(list, "mode"),
            either_field_text(list, "uri", "url"),
        ];
        assert(row.deep_view() =~= list_info_row(list@));
        let rows: Vec<Vec<String>> = vec![row];
        assert(rows.deep_view() =~= seq![list_info_row(list@)]);
        return print_csv_always(&list_info_titles(), &rows);
    }
    let mut rows: Vec<(String, String)> = Vec::new();
    assert(rows.deep_view() =~= Seq::empty());
    add_row(&mut rows, "ID", id_or_empty(list));
    add_row(&mut rows, "Description", field_text(list, "description"));
    add_row(&mut rows, "Slug", field_text(list, "slug"));
    add_row(&mut rows, "Screen name", cat2("@", author_screen_name(list).as_str()));
    add_row(
        &mut rows,
        "Created at",
        ls_like_time(created_time(list), opt_bool(options, "relative_dates"), clock),
    );
    add_row(&mut rows, "Members", number_with_delimiter(list.count_at("member_count"), ','));
    add_row(
        &mut rows,
        "Subscribers",
        number_with_delimiter(list.count_at("subscriber_count"), ','),
    );
    let status = match list.get_bool("following") {
        Some(true) => "Following".to_owned(),
        _ => "Not following".to_owned(),
    };
    add_row(&mut rows, "Status", status);
    add_row(&mut rows, "Mode", field_text(list, "mode"));
    add_row(&mut rows, "URL", either_field_text(list, "uri", "url"));
    print_labelled(&rows)
}

// ---------------------------------------------------------------------------
// Collections
// ---------------------------------------------------------------------------

pub open spec fn collection_key(collection: Data, sort: Seq<char>) -> Seq<i64> {
    if sort == "since"@ {
        text_key(collection.words_at("created_at"@))
    } else {
        text_key(lowered(collection.words_at("name"@)))
    }
}

pub fn key_of_collection(collection: &Json, sort: &str) -> (r: Vec<i64>)
    ensures
        r@ == collection_key(collection@, sort@),
{
    if same(sort, "since") {
        key_of_text(collection.words_at("created_at").as_str())
    } else {
        key_of_text(to_ascii_lowercase(collection.words_at("name").as_str()).as_str())
    }
}

pub open spec fn arranged_collections(items: Seq<Data>, options: OptionsData) -> Seq<Data> {
    arranged(items, options, |c: Data| collection_key(c, options.text_or("sort"@, "name"@)))
}

pub open spec fn collection_row(collection: Data) -> Seq<Seq<char>> {
    seq![
        id_or_none(collection),
        field(collection, "name"@),
        field(collection, "description"@),
        either_field(collection, "collection_url"@, "url"@),
    ]
}

pub fn collection_cells(collection: &Json) -> (r: Vec<String>)
    ensures
        r.deep_view() == collection_row(collection@),
{
    let row: Vec<String> = vec![
        id_or_empty(collection),
        field_text(collection, "name"),
        field_text(collection, "description"),
        either_field_text(collection, "collection_url", "url"),
    ];
    assert(row.deep_view() =~= collection_row(collection@));
    row
}

pub open spec fn collection_title(collection: Data) -> Seq<char> {
    collection.words_at("name"@) + " ("@ + id_or_none(collection) + ")"@
}

/// Collections in order: as comma-separated rows, as a table, or by name.
pub open spec fn collections_lines(items: Seq<Data>, options: OptionsData) -> Seq<Seq<char>> {
    let shown = arranged_collections(items, options);
    if options.flag("csv"@) {
        csv_listing(collection_headings(), shown.map_values(|c: Data| collection_row(c)))
    } else if options.flag("long"@) {
        table_lines(collection_headings(), shown.map_values(|c: Data| collection_row(c)))
    } else {
        shown.map_values(|c: Data| collection_title(c))
    }
}

pub fn print_collections(items: &Vec<Json>, options: &Options) -> (r: Vec<String>)
    ensures
        r.deep_view() == collections_lines(items.deep_view(), options@),
{
    let sort = opt_text_or(options, "sort", "name");
    let key = |c: &Json| -> (r: Vec<i64>)
        ensures
            r@ == collection_key(c@, sort@),
    {
        key_of_collection(c, sort.as_str())
    };
    let shown = arrange(
        crate::json::copy_list(items),
        options,
        key,
        Ghost(|c: Data| collection_key(c, options@.text_or("sort"@, "name"@))),
    );
    let csv = opt_bool(options, "csv");
    if csv || opt_bool(options, "long") {
        let cells = |c: &Json| -> (r: Vec<String>)
            ensures
                r.deep_view() == collection_row(c@),
        {
            collection_cells(c)
        };
        let rows = map_list(&shown, cells, Ghost(|c: Data| collection_row(c)));
        if csv {
            print_csv(&collection_titles(), &rows)
        } else {
            print_table(&collection_titles(), &rows)
        }
    } else {
        let show = |c: &Json| -> (r: String)
            ensures
                r@ == collection_title(c@),
        {
            c.words_at("name").concat(" (").concat(id_or_empty(c).as_str()).concat(")")
        };
        map_list(&shown, show, Ghost(|c: Data| collection_title(c)))
    }
}

pub open spec fn collection_info_row(collection: Data) -> Seq<Seq<char>> {
    seq![
        id_or_none(collection),
        field(collection, "name"@),
        field(collection, "description"@),
        either_field(collection, "collection_url"@, "url"@),
        field(collection, "timeline_order"@),
        field(collection, "visibility"@),
    ]
}

pub open spec fn zipped(
    keys: Seq<Seq<char>>,
    values: Seq<Seq<char>>,
) -> Seq<(Seq<char>, Seq<char>)> {
    Seq::new(keys.len(), |i: int| (keys[i], values[i]))
}

/// A collection in detail.
pub open spec fn collection_info_lines(
    collection: Data,
    options: OptionsData,
) -> Seq<Seq<char>> {
    if options.flag("csv"@) {
        csv_always(collection_info_headings(), seq![collection_info_row(collection)])
    } else {
        labelled_lines(zipped(collection_info_headings(), collection_info_row(collection)))
    }
}

pub fn print_collection_information(collection: &Json, options: &Options) -> (r: Vec<String>)
    ensures
        r.deep_view() == collection_info_lines(collection@, options@),
{
    let row: Vec<String> = vec![
        id_or_empty(collection),
        field_text(collection, "name"),
        field_text(collection, "description"),
        either_field_text(collection, "collection_url", "url"),
        field_text(collection, "timeline_order"),
        field_text(collection, "visibility"),
    ];
    assert(row.deep_view() =~= collection_info_row(collection@));
    let titles = collection_info_titles();
    if opt_bool(options, "csv") {
        let rows: Vec<Vec<String>> = vec![row];
        assert(rows.deep_view() =~= seq![collection_info_row(collection@)]);
        return print_csv_always(&titles, &rows);
    }
    let ghost goal = zipped(collection_info_headings(), collection_info_row(collection@));
    assert(titles.deep_view().len() == titles@.len());
    assert(row.deep_view().len() == row@.len());
    let mut rows: Vec<(String, String)> = Vec::new();
    let mut i: usize = 0;
    assert(rows.deep_view() =~= goal.take(0));
    while i < titles.len()
        invariant
            i <= titles.len(),
            titles.len() == row.len(),
            titles.deep_view() == collection_info_headings(),
            row.deep_view() == collection_info_row(collection@),
            goal == zipped(collection_info_headings(), collection_info_row(collection@)),
            goal.len() == titles.len(),
            rows.deep_view() == goal.take(i as int),
        decreases titles.len() - i,
    {
        assert(titles.deep_view()[i as int] == titles@[i as int]@);
        assert(row.deep_view()[i as int] == row@[i as int]@);
        extend_by(&mut rows, (titles[i].clone(), row[i].clone()));
        i += 1;
        assert(rows.deep_view() =~= goal.take(i as int));
    }
    assert(goal.take(i as int) =~= goal);
    print_labelled(&rows)
}

// ---------------------------------------------------------------------------
// Places
// ---------------------------------------------------------------------------

pub open spec fn geo_place_key(place: Data, sort: Seq<char>) -> Seq<i64> {
    if sort == "country"@ {
        text_key(lowered(place.words_at("country"@)))
    } else if sort == "type"@ {
        text_key(lowered(place.words_at("place_type"@)))
    } else {
        text_key(lowered(place.words_at("name"@)))
    }
}

pub fn key_of_geo_place(place: &Json, sort: &str) -> (r: Vec<i64>)
    ensures
        r@ == geo_place_key(place@, sort@),
{
    let text = if same(sort, "country") {
        place.words_at("country")
    } else if same(sort, "type") {
        place.words_at("place_type")
    } else {
        place.words_at("name")
    };
    key_of_text(to_ascii_lowercase(text.as_str()).as_str())
}

pub open spec fn arranged_geo_places(places: Seq<Data>, options: OptionsData) -> Seq<Data> {
    arranged(places, options, |p: Data| geo_place_key(p, options.text_or("sort"@, "name"@)))
}

pub fn sort_geo_places(places: Vec<Json>, options: &Options) -> (r: Vec<Json>)
    ensures
        r.deep_view() == arranged_geo_places(places.deep_view(), options@),
{
    let sort = opt_text_or(options, "sort", "name");
    let key = |p: &Json| -> (r: Vec<i64>)
        ensures
            r@ == geo_place_key(p@, sort@),
    {
        key_of_geo_place(p, sort.as_str())
    };
    arrange(
        places,
        options,
        key,
        Ghost(|p: Data| geo_place_key(p, options@.text_or("sort"@, "name"@))),
    )
}

pub open spec fn geo_place_row(place: Data) -> Seq<Seq<char>> {
    seq![
        field(place, "id"@),
        field(place, "place_type"@),
        field(place, "full_name"@),
        field(place, "country"@),
    ]
}

pub fn geo_place_cells(place: &Json) -> (r: Vec<String>)
    ensures
        r.deep_view() == geo_place_row(place@),
{
    let row: Vec<String> = vec![
        field_text(place, "id"),
        field_text(place, "place_type"),
        field_text(place, "full_name"),
        field_text(place, "country"),
    ];
    assert(row.deep_view() =~= geo_place_row(place@));
    row
}

pub open spec fn geo_places_lines(places: Seq<Data>, options: OptionsData) -> Seq<Seq<char>> {
    if options.flag("csv"@) {
        csv_always(place_headings(), places.map_values(|p: Data| geo_place_row(p)))
    } else if options.flag("long"@) {
        table_lines(place_headings(), places.map_values(|p: Data| geo_place_row(p)))
    } else {
        collected(places, |p: Data| p.text_at("full_name"@))
    }
}

pub fn format_geo_places(places: &Vec<Json>, options: &Options) -> (r: Vec<String>)
    ensures
        r.deep_view() == geo_places_lines(places.deep_view(), options@),
{
    let csv = opt_bool(options, "csv");
    if csv || opt_bool(options, "long") {
        let cells = |p: &Json| -> (r: Vec<String>)
            ensures
                r.deep_view() == geo_place_row(p@),
        {
            geo_place_cells(p)
        };
        let rows = map_list(places, cells, Ghost(|p: Data| geo_place_row(p)));
        if csv {
            print_csv_always(&place_titles(), &rows)
        } else {
            print_table(&place_titles(), &rows)
        }
    } else {
        let show = |p: &Json| -> (r: Option<String>)
            ensures
                r.deep_view() == p@.text_at("full_name"@),
        {
            copied(p.get_str("full_name"))
        };
        collect_list(places, show, Ghost(|p: Data| p.text_at("full_name"@)))
    }
}

pub open spec fn place_type_of(place: Data) -> Option<Seq<char>> {
    match text_in(get_in(place.get("placeType"@), "name"@)) {
        Some(s) => Some(s),
        None => place.text_at("place_type"@),
    }
}

pub open spec fn trend_place_key(place: Data, sort: Seq<char>) -> Seq<i64> {
    if sort == "country"@ {
        text_key(lowered(place.words_at("country"@)))
    } else if sort == "parent"@ {
        seq![count_in(place.get_either("parentid"@, "parent_id"@)) as i64]
    } else if sort == "type"@ {
        text_key(lowered(or_empty(place_type_of(place))))
    } else if sort == "woeid"@ {
        seq![place.count_at("woeid"@)]
    } else {
        text_key(lowered(place.words_at("name"@)))
    }
}

pub fn type_of_place(place: &Json) -> (r: Option<String>)
    ensures
        r.deep_view() == place_type_of(place@),
{
    match str_from(get_from(place.get("placeType"), "name")) {
        Some(s) => Some(s.clone()),
        None => copied(place.get_str("place_type")),
    }
}

pub fn key_of_trend_place(place: &Json, sort: &str) -> (r: Vec<i64>)
    ensures
        r@ == trend_place_key(place@, sort@),
{
    if same(sort, "country") {
        key_of_text(to_ascii_lowercase(place.words_at("country").as_str()).as_str())
    } else if same(sort, "parent") {
        let parent: i64 = match place.get_either("parentid", "parent_id") {
            Some(v) => match v.as_i64() {
                Some(n) => n,
                None => 0,
            },
            None => 0,
        };
        number_key(parent)
    } else if same(sort, "type") {
        let name = match type_of_place(place) {
            Some(s) => s,
            None => String::new(),
        };
        key_of_text(to_ascii_lowercase(name.as_str()).as_str())
    } else if same(sort, "woeid") {
        number_key(place.count_at("woeid"))
    } else {
        key_of_text(to_ascii_lowercase(place.words_at("name").as_str()).as_str())
    }
}

pub open spec fn arranged_places(places: Seq<Data>, options: OptionsData) -> Seq<Data> {
    arranged(places, options, |p: Data| trend_place_key(p, options.text_or("sort"@, "name"@)))
}

pub fn sort_places(places: Vec<Json>, options: &Options) -> (r: Vec<Json>)
    ensures
        r.deep_view() == arranged_places(places.deep_view(), options@),
{
    let sort = opt_text_or(options, "sort", "name");
    let key = |p: &Json| -> (r: Vec<i64>)
        ensures
            r@ == trend_place_key(p@, sort@),
    {
        key_of_trend_place(p, sort.as_str())
    };
    arrange(
        places,
        options,
        key,
        Ghost(|p: Data| trend_place_key(p, options@.text_or("sort"@, "name"@))),
    )
}

} // verus!
