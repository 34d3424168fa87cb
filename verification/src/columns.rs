//! What stands where: under which heading, in which line and in what order records are shown.

use vstd::prelude::*;

use crate::extract::{screen_name_of, text_of};
use crate::idset::text_le;
use crate::json::{get_in, or_empty, text_in, words_in, Data};
use crate::layout::message_lines;
use crate::list::spread;
use crate::options::OptionsData;
use crate::order::{key_le, sorted_by_key, sorted_entries};
use crate::show::{
    arranged, arranged_collections, arranged_lists, arranged_users, collection_headings,
    collection_info_headings, collection_info_row, collection_row, count_in, geo_place_row,
    list_csv_row, list_headings, list_info_headings, list_info_row, list_info_rows, list_key,
    list_long_row, place_headings, status_csv_row, status_headings, status_long_row, status_rows,
    time_with_age, trend_headings, tweet_csv_row, tweet_headings, tweet_long_row, tweets_lines,
    user_csv_row, user_headings, user_key, user_long_row, whois_rows,
};
use crate::text::{lowered, signed_decimal};
use crate::time::{created, full_time_or_none, listed_time, ClockData};
use crate::words::{csv_line, delimited, yes_no};

verus! {

/// What a row holds under a heading.
pub open spec fn under(
    headings: Seq<Seq<char>>,
    row: Seq<Seq<char>>,
    heading: Seq<char>,
    cell: Seq<char>,
) -> bool {
    headings.len() == row.len() && exists|i: int|
        0 <= i < row.len() && #[trigger] headings[i] == heading && row[i] == cell
}

/// A field of a record in words.
pub open spec fn said_in(record: Data, key: Seq<char>) -> Seq<char> {
    words_in(record.get(key))
}

/// The screen name of the user that a record carries.
pub open spec fn name_in(record: Data) -> Seq<char> {
    match record.get("user"@) {
        Some(user) => or_empty(text_in(user.get_either("screen_name"@, "username"@))),
        None => Seq::empty(),
    }
}

/// Texts on one line.
pub open spec fn flat(text: Seq<char>) -> Seq<char> {
    crate::text::replaced(text, "\n"@, " "@)
}

// ---------------------------------------------------------------------------
// Tweets
// ---------------------------------------------------------------------------

/// The row of a tweet holds its identifier, its time, its author and its text, each under the
/// heading for it, in CSV as in a table.
pub proof fn law_tweet_columns(tweet: Data, options: OptionsData, clock: ClockData)
    ensures
        ({
            let headings = tweet_headings();
            let csv = tweet_csv_row(tweet, options);
            let long = tweet_long_row(tweet, options, clock);
            let text = text_of(tweet, options.flag("decode_uris"@));
            let relative = options.flag("relative_dates"@);
            &&& under(headings, csv, "ID"@, or_empty(tweet.id()))
            &&& under(headings, csv, "Posted at"@, full_time_or_none(created(tweet)))
            &&& under(headings, csv, "Screen name"@, name_in(tweet))
            &&& under(headings, csv, "Text"@, text)
            &&& under(headings, long, "ID"@, or_empty(tweet.id()))
            &&& under(headings, long, "Posted at"@, listed_time(created(tweet), relative, clock))
            &&& under(headings, long, "Screen name"@, "@"@ + name_in(tweet))
            &&& under(headings, long, "Text"@, flat(text))
        }),
{
    let headings = tweet_headings();
    assert(headings[0] == "ID"@);
    assert(headings[1] == "Posted at"@);
    assert(headings[2] == "Screen name"@);
    assert(headings[3] == "Text"@);
}

/// Tweets are shown in their order, or in the reverse order where that is wished: one CSV row each
/// behind the headings, one row of a table each, or one message each under the author's name.
pub proof fn law_tweets_are_listed_in_order(
    tweets: Seq<Data>,
    options: OptionsData,
    clock: ClockData,
    i: int,
)
    requires
        0 <= i < tweets.len(),
    ensures
        ({
            let lines = tweets_lines(tweets, options, clock);
            let shown = if options.flag("reverse"@) {
                tweets[tweets.len() - 1 - i]
            } else {
                tweets[i]
            };
            &&& options.flag("csv"@) ==> {
                &&& lines.len() == tweets.len() + 1
                &&& lines[0] == csv_line(tweet_headings())
                &&& lines[i + 1] == csv_line(tweet_csv_row(shown, options))
            }
            &&& !options.flag("csv"@) && options.flag("long"@) ==> lines.len() == tweets.len() + 1
            &&& !options.flag("csv"@) && !options.flag("long"@) ==> {
                let all = if options.flag("reverse"@) {
                    tweets.reverse()
                } else {
                    tweets
                };
                &&& all[i] == shown
                &&& lines == spread(
                    all,
                    |x: Data|
                        message_lines(name_in(x), text_of(x, options.flag("decode_uris"@))),
                )
            }
        }),
{
    if !options.flag("csv"@) && !options.flag("long"@) {
        let all = if options.flag("reverse"@) {
            tweets.reverse()
        } else {
            tweets
        };
        lemma_messages(all, options);
    }
}

proof fn lemma_messages(tweets: Seq<Data>, options: OptionsData)
    ensures
        spread(tweets, |x: Data| crate::show::tweet_message(x, options)) == spread(
            tweets,
            |x: Data| message_lines(name_in(x), text_of(x, options.flag("decode_uris"@))),
        ),
    decreases tweets.len(),
{
    if tweets.len() > 0 {
        lemma_messages(tweets.drop_last(), options);
    }
}

/// Whether there is a line for the label, with the value behind it.
pub open spec fn says(
    rows: Seq<(Seq<char>, Seq<char>)>,
    label: Seq<char>,
    value: Seq<char>,
) -> bool {
    rows.contains((label, value))
}

/// The details of a tweet stand behind the labels for them: the retweets are its retweets and the
/// favorites its favorites, with commas between the thousands.
pub proof fn law_status_details(status: Data, options: OptionsData, clock: ClockData)
    ensures
        ({
            let rows = status_rows(status, options, clock);
            let name = or_empty(text_in(get_in(status.get("user"@), "screen_name"@)));
            &&& says(rows, "ID"@, or_empty(status.id()))
            &&& says(rows, "Text"@, flat(text_of(status, options.flag("decode_uris"@))))
            &&& says(rows, "Screen name"@, "@"@ + name)
            &&& says(rows, "Posted at"@, time_with_age(created(status), clock))
            &&& says(
                rows,
                "Retweets"@,
                delimited(status.count_at("retweet_count"@) as int, ','),
            )
            &&& says(
                rows,
                "Favorites"@,
                delimited(status.count_at("favorite_count"@) as int, ','),
            )
        }),
{
    let rows = status_rows(status, options, clock);
    assert(rows[0].0 == "ID"@);
    assert(rows[1].0 == "Text"@);
    assert(rows[2].0 == "Screen name"@);
    assert(rows[3].0 == "Posted at"@);
    assert(rows[4].0 == "Retweets"@);
    assert(rows[5].0 == "Favorites"@);
}

/// The rows of a tweet with all its details hold each detail under the heading for it.
pub proof fn law_status_columns(status: Data, options: OptionsData, clock: ClockData)
    ensures
        ({
            let headings = status_headings();
            let csv = status_csv_row(status, options);
            let long = status_long_row(status, options, clock);
            let text = text_of(status, options.flag("decode_uris"@));
            let name = or_empty(text_in(get_in(status.get("user"@), "screen_name"@)));
            let retweets = signed_decimal(status.count_at("retweet_count"@) as int);
            let favorites = signed_decimal(status.count_at("favorite_count"@) as int);
            let relative = options.flag("relative_dates"@);
            &&& under(headings, csv, "ID"@, or_empty(status.id()))
            &&& under(headings, csv, "Posted at"@, full_time_or_none(created(status)))
            &&& under(headings, csv, "Screen name"@, name)
            &&& under(headings, csv, "Text"@, text)
            &&& under(headings, csv, "Retweets"@, retweets)
            &&& under(headings, csv, "Favorites"@, favorites)
            &&& under(headings, csv, "Source"@, crate::show::status_source(status))
            &&& under(headings, csv, "Location"@, crate::show::location_of(status))
            &&& under(headings, long, "ID"@, or_empty(status.id()))
            &&& under(headings, long, "Posted at"@, listed_time(created(status), relative, clock))
            &&& under(headings, long, "Screen name"@, "@"@ + name)
            &&& under(headings, long, "Text"@, flat(text))
            &&& under(headings, long, "Retweets"@, retweets)
            &&& under(headings, long, "Favorites"@, favorites)
            &&& under(headings, long, "Source"@, crate::show::status_source(status))
            &&& under(headings, long, "Location"@, crate::show::location_of(status))
        }),
{
    let headings = status_headings();
    assert(headings[0] == "ID"@);
    assert(headings[1] == "Posted at"@);
    assert(headings[2] == "Screen name"@);
    assert(headings[3] == "Text"@);
    assert(headings[4] == "Retweets"@);
    assert(headings[5] == "Favorites"@);
    assert(headings[6] == "Source"@);
    assert(headings[7] == "Location"@);
}

// ---------------------------------------------------------------------------
// Users
// ---------------------------------------------------------------------------

/// The favorites of a user, under either spelling.
pub open spec fn favorites_of(user: Data) -> Seq<char> {
    words_in(user.get_either("favourites_count"@, "favorites_count"@))
}

/// The rows of a user hold each detail under the heading for it.
pub proof fn law_user_columns(user: Data, options: OptionsData, clock: ClockData)
    ensures
        ({
            let headings = user_headings();
            let csv = user_csv_row(user);
            let long = user_long_row(user, options, clock);
            let name = or_empty(text_in(user.get_either("screen_name"@, "username"@)));
            let last = match user.get("status"@) {
                Some(status) => status,
                None => Data::Null,
            };
            let relative = options.flag("relative_dates"@);
            &&& under(headings, csv, "ID"@, or_empty(user.id()))
            &&& under(headings, csv, "Since"@, full_time_or_none(created(user)))
            &&& under(headings, csv, "Last tweeted at"@, full_time_or_none(created(last)))
            &&& under(headings, csv, "Screen name"@, name)
            &&& under(headings, csv, "Status"@, words_in(last.get_either("full_text"@, "text"@)))
            &&& under(headings, long, "ID"@, or_empty(user.id()))
            &&& under(headings, long, "Since"@, listed_time(created(user), relative, clock))
            &&& under(
                headings,
                long,
                "Last tweeted at"@,
                listed_time(created(last), relative, clock),
            )
            &&& under(headings, long, "Screen name"@, "@"@ + name)
            &&& under(
                headings,
                long,
                "Status"@,
                flat(text_of(last, options.flag("decode_uris"@))),
            )
            &&& forall|row: Seq<Seq<char>>|
                row == csv || row == long ==> {
                    &&& #[trigger] under(headings, row, "Tweets"@, said_in(user, "statuses_count"@))
                    &&& under(headings, row, "Favorites"@, favorites_of(user))
                    &&& under(headings, row, "Listed"@, said_in(user, "listed_count"@))
                    &&& under(headings, row, "Following"@, said_in(user, "friends_count"@))
                    &&& under(headings, row, "Followers"@, said_in(user, "followers_count"@))
                    &&& under(headings, row, "Name"@, said_in(user, "name"@))
                    &&& under(headings, row, "Verified"@, yes_no(user.flag_at("verified"@)))
                    &&& under(headings, row, "Protected"@, yes_no(user.flag_at("protected"@)))
                    &&& under(headings, row, "Bio"@, said_in(user, "description"@))
                    &&& under(headings, row, "Location"@, said_in(user, "location"@))
                    &&& under(headings, row, "URL"@, said_in(user, "url"@))
                }
        }),
{
    let headings = user_headings();
    assert(headings[0] == "ID"@);
    assert(headings[1] == "Since"@);
    assert(headings[2] == "Last tweeted at"@);
    assert(headings[3] == "Tweets"@);
    assert(headings[4] == "Favorites"@);
    assert(headings[5] == "Listed"@);
    assert(headings[6] == "Following"@);
    assert(headings[7] == "Followers"@);
    assert(headings[8] == "Screen name"@);
    assert(headings[9] == "Name"@);
    assert(headings[10] == "Verified"@);
    assert(headings[11] == "Protected"@);
    assert(headings[12] == "Bio"@);
    assert(headings[13] == "Status"@);
    assert(headings[14] == "Location"@);
    assert(headings[15] == "URL"@);
}

/// The details of a user stand behind the labels for them.
pub proof fn law_whois_details(user: Data, options: OptionsData, clock: ClockData)
    ensures
        ({
            let rows = whois_rows(user, options, clock);
            let name = or_empty(text_in(user.get_either("screen_name"@, "username"@)));
            let favorites = count_in(user.get_either("favourites_count"@, "favorites_count"@));
            &&& says(rows, "ID"@, or_empty(user.id()))
            &&& says(rows, "Since"@, time_with_age(created(user), clock))
            &&& says(rows, "Screen name"@, "@"@ + name)
            &&& says(rows, "Tweets"@, delimited(user.count_at("statuses_count"@) as int, ','))
            &&& says(rows, "Favorites"@, delimited(favorites, ','))
            &&& says(rows, "Listed"@, delimited(user.count_at("listed_count"@) as int, ','))
            &&& says(rows, "Following"@, delimited(user.count_at("friends_count"@) as int, ','))
            &&& says(rows, "Followers"@, delimited(user.count_at("followers_count"@) as int, ','))
            &&& user.words_at("name"@).len() > 0 && user.flag_at("verified"@) == Some(true)
                ==> says(rows, "Name (Verified)"@, user.words_at("name"@))
            &&& user.words_at("name"@).len() > 0 && user.flag_at("verified"@) != Some(true)
                ==> says(rows, "Name"@, user.words_at("name"@))
            &&& user.words_at("description"@).len() > 0 && flat(
                user.words_at("description"@),
            ).len() > 0 ==> says(rows, "Bio"@, flat(user.words_at("description"@)))
            &&& user.words_at("location"@).len() > 0 ==> says(
                rows,
                "Location"@,
                user.words_at("location"@),
            )
            &&& user.words_at("url"@).len() > 0 ==> says(rows, "URL"@, user.words_at("url"@))
        }),
{
    let name = or_empty(text_in(user.get_either("screen_name"@, "username"@)));
    let favorites = count_in(user.get_either("favourites_count"@, "favorites_count"@));
    let update = crate::show::last_update(user, options, clock);
    let a = Seq::<(Seq<char>, Seq<char>)>::empty() + seq![("ID"@, or_empty(user.id()))] + seq![
        ("Since"@, time_with_age(created(user), clock)),
    ] + update;
    let b = a + seq![("Screen name"@, "@"@ + name)];
    let named = crate::show::row_if(
        if user.flag_at("verified"@) == Some(true) {
            "Name (Verified)"@
        } else {
            "Name"@
        },
        user.text_at("name"@),
    );
    let c = b + named;
    let d = c + seq![("Tweets"@, delimited(user.count_at("statuses_count"@) as int, ','))];
    let e = d + seq![("Favorites"@, delimited(favorites, ','))];
    let f = e + seq![("Listed"@, delimited(user.count_at("listed_count"@) as int, ','))];
    let g = f + seq![("Following"@, delimited(user.count_at("friends_count"@) as int, ','))];
    let h = g + seq![("Followers"@, delimited(user.count_at("followers_count"@) as int, ','))];
    let bio = crate::show::row_if(
        "Bio"@,
        match user.text_at("description"@) {
            Some(s) => if s.len() > 0 {
                Some(crate::show::on_one_line(s))
            } else {
                None
            },
            None => None,
        },
    );
    let i = h + bio;
    let place = crate::show::row_if("Location"@, user.text_at("location"@));
    let j = i + place;
    let link = crate::show::row_if("URL"@, user.text_at("url"@));
    let rows = j + link;
    assert(rows == whois_rows(user, options, clock));
    assert(a[0].0 == "ID"@);
    assert(a[1].0 == "Since"@);
    lemma_ahead(a, rows, 0);
    lemma_ahead(a, rows, 1);
    lemma_ahead(b, rows, b.len() - 1);
    if named.len() > 0 {
        lemma_ahead(c, rows, c.len() - 1);
    }
    lemma_ahead(d, rows, d.len() - 1);
    lemma_ahead(e, rows, e.len() - 1);
    lemma_ahead(f, rows, f.len() - 1);
    lemma_ahead(g, rows, g.len() - 1);
    lemma_ahead(h, rows, h.len() - 1);
    if bio.len() > 0 {
        lemma_ahead(i, rows, i.len() - 1);
    }
    if place.len() > 0 {
        lemma_ahead(j, rows, j.len() - 1);
    }
    if link.len() > 0 {
        lemma_ahead(rows, rows, rows.len() - 1);
    }
}

proof fn lemma_ahead<T>(front: Seq<T>, all: Seq<T>, i: int)
    requires
        0 <= i < front.len() <= all.len(),
        all[i] == front[i],
    ensures
        all.contains(front[i]),
{
}

// ---------------------------------------------------------------------------
// Lists, collections and places
// ---------------------------------------------------------------------------

/// The rows of a list hold each detail under the heading for it.
pub proof fn law_list_columns(list: Data, options: OptionsData, clock: ClockData)
    ensures
        ({
            let headings = list_headings();
            let csv = list_csv_row(list);
            let long = list_long_row(list, options, clock);
            let relative = options.flag("relative_dates"@);
            &&& under(headings, csv, "Created at"@, full_time_or_none(created(list)))
            &&& under(headings, csv, "Screen name"@, name_in(list))
            &&& under(headings, long, "Created at"@, listed_time(created(list), relative, clock))
            &&& under(headings, long, "Screen name"@, "@"@ + name_in(list))
            &&& forall|row: Seq<Seq<char>>|
                row == csv || row == long ==> {
                    &&& #[trigger] under(headings, row, "ID"@, or_empty(list.id()))
                    &&& under(headings, row, "Slug"@, said_in(list, "slug"@))
                    &&& under(headings, row, "Members"@, said_in(list, "member_count"@))
                    &&& under(headings, row, "Subscribers"@, said_in(list, "subscriber_count"@))
                    &&& under(headings, row, "Mode"@, said_in(list, "mode"@))
                    &&& under(headings, row, "Description"@, said_in(list, "description"@))
                }
        }),
{
    let headings = list_headings();
    assert(headings[0] == "ID"@);
    assert(headings[1] == "Created at"@);
    assert(headings[2] == "Screen name"@);
    assert(headings[3] == "Slug"@);
    assert(headings[4] == "Members"@);
    assert(headings[5] == "Subscribers"@);
    assert(headings[6] == "Mode"@);
    assert(headings[7] == "Description"@);
}

/// The details of a list stand under the headings and behind the labels for them.
pub proof fn law_list_details(list: Data, options: OptionsData, clock: ClockData)
    ensures
        ({
            let headings = list_info_headings();
            let row = list_info_row(list);
            let rows = list_info_rows(list, options, clock);
            let relative = options.flag("relative_dates"@);
            let link = words_in(list.get_either("uri"@, "url"@));
            &&& under(headings, row, "ID"@, or_empty(list.id()))
            &&& under(headings, row, "Description"@, said_in(list, "description"@))
            &&& under(headings, row, "Slug"@, said_in(list, "slug"@))
            &&& under(headings, row, "Screen name"@, name_in(list))
            &&& under(headings, row, "Created at"@, full_time_or_none(created(list)))
            &&& under(headings, row, "Members"@, said_in(list, "member_count"@))
            &&& under(headings, row, "Subscribers"@, said_in(list, "subscriber_count"@))
            &&& under(headings, row, "Following"@, yes_no(list.flag_at("following"@)))
            &&& under(headings, row, "Mode"@, said_in(list, "mode"@))
            &&& under(headings, row, "URL"@, link)
            &&& says(rows, "ID"@, or_empty(list.id()))
            &&& says(rows, "Description"@, said_in(list, "description"@))
            &&& says(rows, "Slug"@, said_in(list, "slug"@))
            &&& says(rows, "Screen name"@, "@"@ + name_in(list))
            &&& says(rows, "Created at"@, listed_time(created(list), relative, clock))
            &&& says(rows, "Members"@, delimited(list.count_at("member_count"@) as int, ','))
            &&& says(
                rows,
                "Subscribers"@,
                delimited(list.count_at("subscriber_count"@) as int, ','),
            )
            &&& says(rows, "Mode"@, said_in(list, "mode"@))
            &&& says(rows, "URL"@, link)
            &&& says(
                rows,
                "Status"@,
                if list.flag_at("following"@) == Some(true) {
                    "Following"@
                } else {
                    "Not following"@
                },
            )
        }),
{
    let headings = list_info_headings();
    let rows = list_info_rows(list, options, clock);
    assert(headings[0] == "ID"@);
    assert(headings[1] == "Description"@);
    assert(headings[2] == "Slug"@);
    assert(headings[3] == "Screen name"@);
    assert(headings[4] == "Created at"@);
    assert(headings[5] == "Members"@);
    assert(headings[6] == "Subscribers"@);
    assert(headings[7] == "Following"@);
    assert(headings[8] == "Mode"@);
    assert(headings[9] == "URL"@);
    assert(rows[0].0 == "ID"@);
    assert(rows[1].0 == "Description"@);
    assert(rows[2].0 == "Slug"@);
    assert(rows[3].0 == "Screen name"@);
    assert(rows[4].0 == "Created at"@);
    assert(rows[5].0 == "Members"@);
    assert(rows[6].0 == "Subscribers"@);
    assert(rows[7].0 == "Status"@);
    assert(rows[8].0 == "Mode"@);
    assert(rows[9].0 == "URL"@);
}

/// The rows of collections and places hold each detail under the heading for it.
pub proof fn law_collection_and_place_columns(record: Data)
    ensures
        ({
            let headings = collection_headings();
            let row = collection_row(record);
            let info_headings = collection_info_headings();
            let info = collection_info_row(record);
            let link = words_in(record.get_either("collection_url"@, "url"@));
            let place = geo_place_row(record);
            let trend = crate::places::trend_place_row(record);
            &&& under(headings, row, "ID"@, or_empty(record.id()))
            &&& under(headings, row, "Name"@, said_in(record, "name"@))
            &&& under(headings, row, "Description"@, said_in(record, "description"@))
            &&& under(headings, row, "URL"@, link)
            &&& under(info_headings, info, "ID"@, or_empty(record.id()))
            &&& under(info_headings, info, "Name"@, said_in(record, "name"@))
            &&& under(info_headings, info, "Description"@, said_in(record, "description"@))
            &&& under(info_headings, info, "URL"@, link)
            &&& under(info_headings, info, "Timeline order"@, said_in(record, "timeline_order"@))
            &&& under(info_headings, info, "Visibility"@, said_in(record, "visibility"@))
            &&& under(place_headings(), place, "ID"@, said_in(record, "id"@))
            &&& under(place_headings(), place, "Type"@, said_in(record, "place_type"@))
            &&& under(place_headings(), place, "Name"@, said_in(record, "full_name"@))
            &&& under(place_headings(), place, "Country"@, said_in(record, "country"@))
            &&& under(trend_headings(), trend, "WOEID"@, said_in(record, "woeid"@))
            &&& under(
                trend_headings(),
                trend,
                "Parent ID"@,
                words_in(record.get_either("parentid"@, "parent_id"@)),
            )
            &&& under(trend_headings(), trend, "Name"@, said_in(record, "name"@))
            &&& under(trend_headings(), trend, "Country"@, said_in(record, "country"@))
        }),
{
    let headings = collection_headings();
    let info_headings = collection_info_headings();
    assert(headings[0] == "ID"@);
    assert(headings[1] == "Name"@);
    assert(headings[2] == "Description"@);
    assert(headings[3] == "URL"@);
    assert(info_headings[0] == "ID"@);
    assert(info_headings[1] == "Name"@);
    assert(info_headings[2] == "Description"@);
    assert(info_headings[3] == "URL"@);
    assert(info_headings[4] == "Timeline order"@);
    assert(info_headings[5] == "Visibility"@);
    assert(place_headings()[0] == "ID"@);
    assert(place_headings()[1] == "Type"@);
    assert(place_headings()[2] == "Name"@);
    assert(place_headings()[3] == "Country"@);
    assert(trend_headings()[0] == "WOEID"@);
    assert(trend_headings()[1] == "Parent ID"@);
    assert(trend_headings()[3] == "Name"@);
    assert(trend_headings()[4] == "Country"@);
}

// ---------------------------------------------------------------------------
// Order
// ---------------------------------------------------------------------------

/// Items sorted by a key are the same items, in ascending order of the key.
pub proof fn lemma_sorted_by_key<T>(items: Seq<T>, key: spec_fn(T) -> Seq<i64>)
    ensures
        sorted_by_key(items, key).len() == items.len(),
        forall|x: T| #[trigger] sorted_by_key(items, key).contains(x) <==> items.contains(x),
        forall|i: int, j: int|
            0 <= i <= j < items.len() ==> key_le(
                key(#[trigger] sorted_by_key(items, key)[i]),
                key(#[trigger] sorted_by_key(items, key)[j]),
            ),
{
    broadcast use vstd::seq_lib::group_to_multiset_ensures;

    let entries = items.map_values(|x: T| (key(x), x));
    let sorted = sorted_entries(entries);
    let shown = sorted_by_key(items, key);
    crate::order::law_sorting_is_a_stable_permutation(entries);
    assert forall|i: int| 0 <= i < sorted.len() implies #[trigger] sorted[i].0 == key(
        sorted[i].1,
    ) && items.contains(sorted[i].1) by {
        assert(sorted.contains(sorted[i]));
        assert(sorted.to_multiset().count(sorted[i]) > 0);
        assert(entries.contains(sorted[i]));
        let k = choose|k: int| 0 <= k < entries.len() && entries[k] == sorted[i];
        assert(items[k] == sorted[i].1);
    }
    assert forall|x: T| #[trigger] shown.contains(x) <==> items.contains(x) by {
        if shown.contains(x) {
            let i = choose|i: int| 0 <= i < shown.len() && shown[i] == x;
            assert(sorted[i].1 == x);
            assert(sorted[i].0 == key(sorted[i].1));
        }
        if items.contains(x) {
            let k = choose|k: int| 0 <= k < items.len() && items[k] == x;
            assert(entries.contains(entries[k]));
            assert(entries.to_multiset().count(entries[k]) > 0);
            assert(sorted.contains(entries[k]));
            let i = choose|i: int| 0 <= i < sorted.len() && sorted[i] == entries[k];
            assert(shown[i] == x);
        }
    }
    assert forall|i: int, j: int| 0 <= i <= j < items.len() implies key_le(
        key(#[trigger] shown[i]),
        key(#[trigger] shown[j]),
    ) by {
        assert(sorted[i].0 == key(sorted[i].1));
        assert(sorted[j].0 == key(sorted[j].1));
        assert(key_le(sorted[i].0, sorted[j].0));
    }
}

/// Unsorted items keep their order; `--reverse` turns the order round, whatever it is.
pub proof fn law_arranging(items: Seq<Data>, options: OptionsData, key: spec_fn(Data) -> Seq<i64>)
    ensures
        options.flag("unsorted"@) && !options.flag("reverse"@) ==> arranged(items, options, key)
            == items,
        options.flag("unsorted"@) && options.flag("reverse"@) ==> arranged(items, options, key)
            == items.reverse(),
        !options.flag("unsorted"@) && options.flag("reverse"@) ==> arranged(items, options, key)
            == sorted_by_key(items, key).reverse(),
{
}

/// Whether a count is no larger in one record than in another.
pub open spec fn counts_up(a: Data, b: Data, field: Seq<char>) -> bool {
    a.count_at(field) <= b.count_at(field)
}

/// Users are listed by what `--sort` names: from the fewest favorites, followers, followed users,
/// lists or tweets to the most; by screen name, whatever the case of ASCII letters, where it names
/// nothing. They are the same users.
pub proof fn law_users_are_sorted(users: Seq<Data>, options: OptionsData, i: int, j: int)
    requires
        !options.flag("unsorted"@),
        !options.flag("reverse"@),
        0 <= i <= j < users.len(),
    ensures
        ({
            let shown = arranged_users(users, options);
            let by = options.text("sort"@);
            &&& shown.len() == users.len()
            &&& forall|x: Data| #[trigger] shown.contains(x) <==> users.contains(x)
            &&& by == Some("favorites"@) ==> counts_up(shown[i], shown[j], "favourites_count"@)
            &&& by == Some("followers"@) ==> counts_up(shown[i], shown[j], "followers_count"@)
            &&& by == Some("friends"@) ==> counts_up(shown[i], shown[j], "friends_count"@)
            &&& by == Some("listed"@) ==> counts_up(shown[i], shown[j], "listed_count"@)
            &&& by == Some("tweets"@) ==> counts_up(shown[i], shown[j], "statuses_count"@)
            &&& by == Some("since"@) ==> key_le(
                crate::time::time_key(created(shown[i])),
                crate::time::time_key(created(shown[j])),
            )
            &&& by is None ==> text_le(
                lowered(screen_name_of(shown[i])),
                lowered(screen_name_of(shown[j])),
            )
        }),
{
    let key = |u: Data| user_key(u, options.text_or("sort"@, "screen_name"@));
    lemma_sorted_by_key(users, key);
    lemma_sort_names();
    let shown = arranged_users(users, options);
    assert(shown == sorted_by_key(users, key));
    assert(key_le(key(shown[i]), key(shown[j])));
    reveal_with_fuel(key_le, 2);
}

/// Lists are listed by what `--sort` names: from the fewest members or subscribers to the most; by
/// slug, whatever the case of ASCII letters, where it names nothing. They are the same lists.
pub proof fn law_lists_are_sorted(lists: Seq<Data>, options: OptionsData, i: int, j: int)
    requires
        !options.flag("unsorted"@),
        !options.flag("reverse"@),
        0 <= i <= j < lists.len(),
    ensures
        ({
            let shown = arranged_lists(lists, options);
            let by = options.text("sort"@);
            &&& shown.len() == lists.len()
            &&& forall|x: Data| #[trigger] shown.contains(x) <==> lists.contains(x)
            &&& by == Some("members"@) ==> counts_up(shown[i], shown[j], "member_count"@)
            &&& by == Some("subscribers"@) ==> counts_up(shown[i], shown[j], "subscriber_count"@)
            &&& by == Some("mode"@) ==> text_le(
                shown[i].words_at("mode"@),
                shown[j].words_at("mode"@),
            )
            &&& by == Some("since"@) ==> key_le(
                crate::time::time_key(created(shown[i])),
                crate::time::time_key(created(shown[j])),
            )
            &&& by is None ==> text_le(
                lowered(shown[i].words_at("slug"@)),
                lowered(shown[j].words_at("slug"@)),
            )
        }),
{
    let key = |l: Data| list_key(l, options.text_or("sort"@, "slug"@));
    lemma_sorted_by_key(lists, key);
    lemma_sort_names();
    let shown = arranged_lists(lists, options);
    assert(shown == sorted_by_key(lists, key));
    assert(key_le(key(shown[i]), key(shown[j])));
    reveal_with_fuel(key_le, 2);
}

/// Collections are listed by name, whatever the case of ASCII letters, or by when they were made
/// where `--sort` says so. They are the same collections.
pub proof fn law_collections_are_sorted(items: Seq<Data>, options: OptionsData, i: int, j: int)
    requires
        !options.flag("unsorted"@),
        !options.flag("reverse"@),
        0 <= i <= j < items.len(),
    ensures
        ({
            let shown = arranged_collections(items, options);
            let by = options.text("sort"@);
            &&& shown.len() == items.len()
            &&& forall|x: Data| #[trigger] shown.contains(x) <==> items.contains(x)
            &&& by == Some("since"@) ==> text_le(
                shown[i].words_at("created_at"@),
                shown[j].words_at("created_at"@),
            )
            &&& by is None ==> text_le(
                lowered(shown[i].words_at("name"@)),
                lowered(shown[j].words_at("name"@)),
            )
        }),
{
    let key = |c: Data| crate::show::collection_key(c, options.text_or("sort"@, "name"@));
    lemma_sorted_by_key(items, key);
    lemma_sort_names();
    let shown = arranged_collections(items, options);
    assert(shown == sorted_by_key(items, key));
    assert(key_le(key(shown[i]), key(shown[j])));
}

proof fn lemma_sort_names()
    ensures
        "favorites"@ != "followers"@,
        "favorites"@ != "friends"@,
        "favorites"@ != "listed"@,
        "favorites"@ != "since"@,
        "favorites"@ != "tweets"@,
        "favorites"@ != "tweeted"@,
        "favorites"@ != "screen_name"@,
        "favorites"@ != "members"@,
        "favorites"@ != "mode"@,
        "favorites"@ != "subscribers"@,
        "favorites"@ != "slug"@,
        "favorites"@ != "name"@,
        "followers"@ != "friends"@,
        "followers"@ != "listed"@,
        "followers"@ != "since"@,
        "followers"@ != "tweets"@,
        "followers"@ != "tweeted"@,
        "followers"@ != "screen_name"@,
        "followers"@ != "members"@,
        "followers"@ != "mode"@,
        "followers"@ != "subscribers"@,
        "followers"@ != "slug"@,
        "followers"@ != "name"@,
        "friends"@ != "listed"@,
        "friends"@ != "since"@,
        "friends"@ != "tweets"@,
        "friends"@ != "tweeted"@,
        "friends"@ != "screen_name"@,
        "friends"@ != "members"@,
        "friends"@ != "mode"@,
        "friends"@ != "subscribers"@,
        "friends"@ != "slug"@,
        "friends"@ != "name"@,
        "listed"@ != "since"@,
        "listed"@ != "tweets"@,
        "listed"@ != "tweeted"@,
        "listed"@ != "screen_name"@,
        "listed"@ != "members"@,
        "listed"@ != "mode"@,
        "listed"@ != "subscribers"@,
        "listed"@ != "slug"@,
        "listed"@ != "name"@,
        "since"@ != "tweets"@,
        "since"@ != "tweeted"@,
        "since"@ != "screen_name"@,
        "since"@ != "members"@,
        "since"@ != "mode"@,
        "since"@ != "subscribers"@,
        "since"@ != "slug"@,
        "since"@ != "name"@,
        "tweets"@ != "tweeted"@,
        "tweets"@ != "screen_name"@,
        "tweets"@ != "members"@,
        "tweets"@ != "mode"@,
        "tweets"@ != "subscribers"@,
        "tweets"@ != "slug"@,
        "tweets"@ != "name"@,
        "tweeted"@ != "screen_name"@,
        "tweeted"@ != "members"@,
        "tweeted"@ != "mode"@,
        "tweeted"@ != "subscribers"@,
        "tweeted"@ != "slug"@,
        "tweeted"@ != "name"@,
        "screen_name"@ != "members"@,
        "screen_name"@ != "mode"@,
        "screen_name"@ != "subscribers"@,
        "screen_name"@ != "slug"@,
        "screen_name"@ != "name"@,
        "members"@ != "mode"@,
        "members"@ != "subscribers"@,
        "members"@ != "slug"@,
        "members"@ != "name"@,
        "mode"@ != "subscribers"@,
        "mode"@ != "slug"@,
        "mode"@ != "name"@,
        "subscribers"@ != "slug"@,
        "subscribers"@ != "name"@,
        "slug"@ != "name"@,
{
    reveal_strlit("favorites");
    assert("favorites"@.len() == 9);
    reveal_strlit("followers");
    assert("followers"@.len() == 9);
    reveal_strlit("friends");
    assert("friends"@.len() == 7);
    reveal_strlit("listed");
    assert("listed"@.len() == 6);
    reveal_strlit("since");
    assert("since"@.len() == 5);
    reveal_strlit("tweets");
    assert("tweets"@.len() == 6);
    reveal_strlit("tweeted");
    assert("tweeted"@.len() == 7);
    reveal_strlit("screen_name");
    assert("screen_name"@.len() == 11);
    reveal_strlit("members");
    assert("members"@.len() == 7);
    reveal_strlit("mode");
    assert("mode"@.len() == 4);
    reveal_strlit("subscribers");
    assert("subscribers"@.len() == 11);
    reveal_strlit("slug");
    assert("slug"@.len() == 4);
    reveal_strlit("name");
    assert("name"@.len() == 4);
    assert("favorites"@[1] != "followers"@[1]);
    assert("friends"@[0] != "tweeted"@[0]);
    assert("friends"@[0] != "members"@[0]);
    assert("listed"@[0] != "tweets"@[0]);
    assert("tweeted"@[0] != "members"@[0]);
    assert("screen_name"@[1] != "subscribers"@[1]);
    assert("mode"@[0] != "slug"@[0]);
    assert("mode"@[0] != "name"@[0]);
    assert("slug"@[0] != "name"@[0]);
}

} // verus!
