//! Streams of tweets: the rules that filter them, and what is shown of each event.

use vstd::prelude::*;

use crate::extract::{array_or_none, copy_of_array, text_of, tweet_text};
use crate::json::{
    array_from, array_in, array_json, get_from, get_in, object_json, or_empty, put, str_from,
    text_in, Data, Json,
};
use crate::layout::{message_lines, print_message, text_bytes};
use crate::list::{collect_list, collected, extend_by};
use crate::options::{opt_bool, Options, OptionsData};
use crate::params::{
    no_params, one_param, request_body_retried, request_retried, retried, stream_params,
    v2_stream_params, with_body_retried, AuthScheme,
};
use crate::session::{
    ask_millis, ask_stream, ask_text, bind, both, call, done, fail, unit, Ask, AskData,
    CommandError, ErrorData, FaultData, Method, Session, Step, Stop, StopData, StreamKind, Talk,
};
use crate::show::{
    author_name, author_screen_name, flatten_text, id_or_empty, id_or_none, on_one_line,
    tweet_csv_cells, tweet_csv_row, tweet_headings, tweet_titles,
};
use crate::text::{
    byte_length, cat2, chars_of, decimal, decimal_u64, decimal_usize, joined, lemma_still_opens,
    nonempty, opens_with, pad_right, padded, parse_usize, read_unsigned, same, trim, trimmed,
};
use crate::time::{created, created_time, listed_time, ls_like_time, Clock, ClockData};
use crate::words::{csv_line, csv_row};

verus! {

// ---------------------------------------------------------------------------
// Events
// ---------------------------------------------------------------------------

pub open spec fn included_array(event: Data, name: Seq<char>) -> Seq<Data> {
    array_or_none(array_in(get_in(event.get("includes"@), name)))
}

/// The name of the first user with the identifier that has a name.
pub open spec fn name_for(users: Seq<Data>, id: Seq<char>) -> Option<Seq<char>>
    decreases users.len(),
{
    if users.len() == 0 {
        None
    } else if users[0].text_at("id"@) == Some(id) && text_in(
        users[0].get_either("username"@, "screen_name"@),
    ) is Some {
        text_in(users[0].get_either("username"@, "screen_name"@))
    } else {
        name_for(users.drop_first(), id)
    }
}

fn find_name(users: &Vec<Json>, id: &str) -> (r: Option<String>)
    ensures
        r.deep_view() == name_for(users.deep_view(), id@),
{
    let ghost all = users.deep_view();
    let mut i: usize = 0;
    assert(all.skip(0) =~= all);
    while i < users.len()
        invariant
            i <= users.len(),
            all == users.deep_view(),
            name_for(all, id@) == name_for(all.skip(i as int), id@),
        decreases users.len() - i,
    {
        assert(all.skip(i as int)[0] == users@[i as int]@);
        assert(all.skip(i as int).drop_first() =~= all.skip(i + 1));
        if let Some(own) = users[i].get_str("id") {
            if same(own.as_str(), id) {
                if let Some(name) = str_from(users[i].get_either("username", "screen_name")) {
                    return Some(name.clone());
                }
            }
        }
        i += 1;
    }
    None
}

/// The identifier of the tweet that a tweet repeats.
pub open spec fn repeated_id(refs: Seq<Data>) -> Option<Seq<char>>
    decreases refs.len(),
{
    if refs.len() == 0 {
        None
    } else if refs[0].text_at("type"@) == Some("retweeted"@) && refs[0].text_at("id"@) is Some {
        refs[0].text_at("id"@)
    } else {
        repeated_id(refs.drop_first())
    }
}

fn find_repeated_id(refs: &Vec<Json>) -> (r: Option<String>)
    ensures
        r.deep_view() == repeated_id(refs.deep_view()),
{
    let ghost all = refs.deep_view();
    let mut i: usize = 0;
    assert(all.skip(0) =~= all);
    while i < refs.len()
        invariant
            i <= refs.len(),
            all == refs.deep_view(),
            repeated_id(all) == repeated_id(all.skip(i as int)),
        decreases refs.len() - i,
    {
        assert(all.skip(i as int)[0] == refs@[i as int]@);
        assert(all.skip(i as int).drop_first() =~= all.skip(i + 1));
        if let Some(kind) = refs[i].get_str("type") {
            if same(kind.as_str(), "retweeted") {
                if let Some(id) = refs[i].get_str("id") {
                    return Some(id.clone());
                }
            }
        }
        i += 1;
    }
    None
}

pub open spec fn tweet_with_id(tweets: Seq<Data>, id: Seq<char>) -> Option<Data>
    decreases tweets.len(),
{
    if tweets.len() == 0 {
        None
    } else if tweets[0].text_at("id"@) == Some(id) {
        Some(tweets[0])
    } else {
        tweet_with_id(tweets.drop_first(), id)
    }
}

fn find_tweet<'a>(tweets: &'a Vec<Json>, id: &str) -> (r: Option<&'a Json>)
    ensures
        r.deep_view() == tweet_with_id(tweets.deep_view(), id@),
{
    let ghost all = tweets.deep_view();
    let mut i: usize = 0;
    assert(all.skip(0) =~= all);
    while i < tweets.len()
        invariant
            i <= tweets.len(),
            all == tweets.deep_view(),
            tweet_with_id(all, id@) == tweet_with_id(all.skip(i as int), id@),
        decreases tweets.len() - i,
    {
        assert(all.skip(i as int)[0] == tweets@[i as int]@);
        assert(all.skip(i as int).drop_first() =~= all.skip(i + 1));
        if let Some(own) = tweets[i].get_str("id") {
            if same(own.as_str(), id) {
                return Some(&tweets[i]);
            }
        }
        i += 1;
    }
    None
}

/// The full text of a repeated tweet under the name of its author.
pub open spec fn repeated_text(event: Data, tweet: Data) -> Seq<char> {
    let author = match tweet.text_at("author_id"@) {
        Some(id) => or_empty(name_for(included_array(event, "users"@), id)),
        None => Seq::empty(),
    };
    "RT @"@ + author + ": "@ + tweet.words_at("text"@)
}

/// The text of an event's tweet; that of a repeated tweet is taken from the tweet itself, which
/// is not cut short.
pub open spec fn event_text(event: Data, data: Data, text: Seq<char>) -> Seq<char> {
    match repeated_id(array_or_none(data.array_at("referenced_tweets"@))) {
        Some(id) => match tweet_with_id(included_array(event, "tweets"@), id) {
            Some(tweet) => repeated_text(event, tweet),
            None => text,
        },
        None => text,
    }
}

/// The tweet in a stream event, in the older shape; nothing where the event holds none.
pub open spec fn tweet_in_event(event: Data) -> Option<Data> {
    if event.get("text"@) is Some {
        Some(event)
    } else {
        match event.get("data"@) {
            None => None,
            Some(data) => match data.text_at("text"@) {
                None => None,
                Some(text) => {
                    let id = data.words_at("id"@);
                    let author_id = match data.text_at("author_id"@) {
                        Some(a) => a,
                        None => "unknown"@,
                    };
                    let name = match name_for(included_array(event, "users"@), author_id) {
                        Some(n) => n,
                        None => author_id,
                    };
                    Some(
                        Data::Object(
                            seq![
                                ("id"@, Data::Text(id)),
                                ("id_str"@, Data::Text(id)),
                                ("text"@, Data::Text(event_text(event, data, text))),
                                ("created_at"@, Data::Text(data.words_at("created_at"@))),
                                (
                                    "user"@,
                                    Data::Object(
                                        seq![
                                            ("screen_name"@, Data::Text(name)),
                                            ("id"@, Data::Text(author_id)),
                                        ],
                                    ),
                                ),
                            ],
                        ),
                    )
                },
            },
        }
    }
}

pub fn tweet_from_stream_event(event: &Json) -> (r: Option<Json>)
    ensures
        r.deep_view() == tweet_in_event(event@),
{
    if event.get("text").is_some() {
        return Some(event.copy());
    }
    let data = match event.get("data") {
        Some(d) => d,
        None => {
            return None;
        },
    };
    let plain_text = match data.get_str("text") {
        Some(s) => s.clone(),
        None => {
            return None;
        },
    };
    let id = data.words_at("id");
    let author_id = match data.get_str("author_id") {
        Some(a) => a.clone(),
        None => "unknown".to_owned(),
    };
    let users = copy_of_array(array_from(get_from(event.get("includes"), "users")));
    let name = match find_name(&users, author_id.as_str()) {
        Some(n) => n,
        None => author_id.clone(),
    };
    let refs = copy_of_array(data.get_array("referenced_tweets"));
    let tweets = copy_of_array(array_from(get_from(event.get("includes"), "tweets")));
    let text = match find_repeated_id(&refs) {
        Some(rt_id) => match find_tweet(&tweets, rt_id.as_str()) {
            Some(tweet) => {
                let author = match tweet.get_str("author_id") {
                    Some(a) => match find_name(&users, a.as_str()) {
                        Some(n) => n,
                        None => String::new(),
                    },
                    None => String::new(),
                };
                cat2("RT @", author.as_str()).concat(": ").concat(tweet.words_at("text").as_str())
            },
            None => plain_text,
        },
        None => plain_text,
    };
    let mut user: Vec<(String, Json)> = Vec::new();
    put(&mut user, "screen_name", Json::Text(name));
    put(&mut user, "id", Json::Text(author_id));
    assert(user.deep_view() =~= seq![
        ("screen_name"@, Data::Text(name@)),
        ("id"@, Data::Text(author_id@)),
    ]);
    let created_at = data.words_at("created_at");
    let mut tweet: Vec<(String, Json)> = Vec::new();
    put(&mut tweet, "id", Json::Text(id.clone()));
    put(&mut tweet, "id_str", Json::Text(id));
    put(&mut tweet, "text", Json::Text(text));
    put(&mut tweet, "created_at", Json::Text(created_at));
    put(&mut tweet, "user", object_json(user));
    assert(tweet.deep_view() =~= tweet_in_event(event@)->0->Object_0);
    Some(object_json(tweet))
}

// ---------------------------------------------------------------------------
// What is shown
// ---------------------------------------------------------------------------

/// The cells of a row in columns of fixed width.
pub open spec fn stream_row(
    id: Seq<char>,
    time: Seq<char>,
    name: Seq<char>,
    text: Seq<char>,
) -> Seq<char> {
    padded(id, 18) + "  "@ + padded(time, 12) + "  "@ + padded(name, 20) + "  "@ + text
}

fn write_stream_row(id: &str, time: &str, name: &str, text: &str) -> (r: String)
    ensures
        r@ == stream_row(id@, time@, name@, text@),
{
    let mut r = pad_right(id, 18);
    r.append("  ");
    r.append(pad_right(time, 12).as_str());
    r.append("  ");
    r.append(pad_right(name, 20).as_str());
    r.append("  ");
    r.append(text);
    r
}

pub open spec fn stream_headings(options: OptionsData) -> Seq<Seq<char>> {
    if options.flag("csv"@) {
        seq![csv_line(tweet_headings())]
    } else if options.flag("long"@) {
        seq![stream_row("ID"@, "Posted at"@, "Screen name"@, "Text"@)]
    } else {
        Seq::empty()
    }
}

pub fn print_stream_headings(options: &Options) -> (r: Vec<String>)
    ensures
        r.deep_view() == stream_headings(options@),
{
    let mut out: Vec<String> = Vec::new();
    if opt_bool(options, "csv") {
        extend_by(&mut out, csv_row(&tweet_titles()));
    } else if opt_bool(options, "long") {
        extend_by(&mut out, write_stream_row("ID", "Posted at", "Screen name", "Text"));
    }
    assert(out.deep_view() =~= stream_headings(options@));
    out
}

pub open spec fn stream_tweet_lines(
    tweet: Data,
    options: OptionsData,
    clock: ClockData,
) -> Seq<Seq<char>> {
    if options.flag("csv"@) {
        seq![csv_line(tweet_csv_row(tweet, options))]
    } else if options.flag("long"@) {
        seq![
            stream_row(
                id_or_none(tweet),
                listed_time(created(tweet), options.flag("relative_dates"@), clock),
                "@"@ + author_name(tweet),
                on_one_line(text_of(tweet, options.flag("decode_uris"@))),
            ),
        ]
    } else {
        message_lines(author_name(tweet), text_of(tweet, options.flag("decode_uris"@)))
    }
}

pub fn print_stream_tweet(tweet: &Json, options: &Options, clock: &Clock) -> (r: Vec<String>)
    ensures
        r.deep_view() == stream_tweet_lines(tweet@, options@, clock@),
{
    let text = tweet_text(tweet, opt_bool(options, "decode_uris"));
    let name = author_screen_name(tweet);
    let mut out: Vec<String> = Vec::new();
    if opt_bool(options, "csv") {
        extend_by(&mut out, csv_row(&tweet_csv_cells(tweet, options)));
        assert(out.deep_view() =~= stream_tweet_lines(tweet@, options@, clock@));
        out
    } else if opt_bool(options, "long") {
        let time = ls_like_time(created_time(tweet), opt_bool(options, "relative_dates"), clock);
        extend_by(
            &mut out,
            write_stream_row(
                id_or_empty(tweet).as_str(),
                time.as_str(),
                cat2("@", name.as_str()).as_str(),
                flatten_text(text.as_str()).as_str(),
            ),
        );
        assert(out.deep_view() =~= stream_tweet_lines(tweet@, options@, clock@));
        out
    } else {
        print_message(name.as_str(), text.as_str())
    }
}

/// What comes of one event of a stream: the text to write, how many events were shown so far, and
/// whether more are wanted.
pub struct StreamStep {
    pub output: String,
    pub seen: usize,
    pub more: bool,
}

pub ghost struct StreamStepData {
    pub output: Seq<char>,
    pub seen: nat,
    pub more: bool,
}

impl View for StreamStep {
    type V = StreamStepData;

    open spec fn view(&self) -> StreamStepData {
        StreamStepData { output: self.output@, seen: self.seen as nat, more: self.more }
    }
}

/// Lines as text.
pub open spec fn text_of_lines(lines: Seq<Seq<char>>) -> Seq<char>
    decreases lines.len(),
{
    if lines.len() == 0 {
        Seq::empty()
    } else {
        text_of_lines(lines.drop_last()) + lines.last() + "\n"@
    }
}

fn lines_to_text(lines: &Vec<String>) -> (r: String)
    ensures
        r@ == text_of_lines(lines.deep_view()),
{
    let ghost all = lines.deep_view();
    let mut out = String::new();
    let mut i: usize = 0;
    assert(out@ =~= text_of_lines(all.take(0)));
    while i < lines.len()
        invariant
            i <= lines.len(),
            all == lines.deep_view(),
            out@ == text_of_lines(all.take(i as int)),
        decreases lines.len() - i,
    {
        assert(all.take(i + 1).drop_last() =~= all.take(i as int));
        assert(all.take(i + 1).last() == lines@[i as int]@);
        out.append(lines[i].as_str());
        out.append("\n");
        i += 1;
    }
    assert(all.take(i as int) =~= all);
    out
}

pub open spec fn wants_more(seen: nat, limit: Option<usize>) -> bool {
    match limit {
        Some(max) => seen < max,
        None => true,
    }
}

fn more_wanted(seen: usize, limit: Option<usize>) -> (r: bool)
    ensures
        r == wants_more(seen as nat, limit),
{
    match limit {
        Some(max) => seen < max,
        None => true,
    }
}

/// Hiragana and the punctuation before it.
pub open spec fn kana(c: char) -> Option<char> {
    if 0x3000 <= c as u32 <= 0x309f {
        Some(c)
    } else {
        None
    }
}

/// The kana of the text, from the last to the first.
pub open spec fn matrix_text(text: Seq<char>) -> Seq<char> {
    collected(text, |c: char| kana(c)).reverse()
}

fn kana_reversed(text: &str) -> (r: String)
    ensures
        r@ == matrix_text(text@),
{
    let v = chars_of(text);
    let ghost f = |c: char| kana(c);
    let mut kept: Vec<char> = Vec::new();
    let mut i: usize = 0;
    assert(kept@ =~= collected(v@.take(0), f));
    while i < v.len()
        invariant
            i <= v.len(),
            f == (|c: char| kana(c)),
            kept@ == collected(v@.take(i as int), f),
        decreases v.len() - i,
    {
        proof {
            crate::list::lemma_collected_step(v@, i as int, f);
        }
        let code: u32 = v[i] as u32;
        if 0x3000 <= code && code <= 0x309f {
            kept.push(v[i]);
        }
        i += 1;
    }
    assert(v@.take(i as int) =~= v@);
    let ghost all = kept@;
    let mut out = String::new();
    let mut k: usize = kept.len();
    assert(out@ =~= all.reverse().take(0));
    while k > 0
        invariant
            k <= kept.len(),
            all == kept@,
            out@ == all.reverse().take(all.len() - k),
        decreases k,
    {
        k -= 1;
        out.push(kept[k]);
        assert(out@ =~= all.reverse().take(all.len() - k));
    }
    assert(out@ =~= all.reverse());
    out
}

/// What comes of an event, by the kind of the stream.
pub open spec fn event_step(
    kind: StreamKind,
    event: Data,
    options: OptionsData,
    clock: ClockData,
    seen: nat,
    limit: Option<usize>,
) -> StreamStepData {
    match tweet_in_event(event) {
        None => StreamStepData { output: Seq::empty(), seen, more: true },
        Some(tweet) => match kind {
            StreamKind::Tweets => StreamStepData {
                output: text_of_lines(stream_tweet_lines(tweet, options, clock)),
                seen: seen + 1,
                more: wants_more(seen + 1, limit),
            },
            StreamKind::Matrix => {
                let matrix = matrix_text(text_of(tweet, false));
                if matrix.len() > 0 {
                    StreamStepData {
                        output: "\x1b[1;32;40m"@ + matrix + "\x1b[0m"@,
                        seen: seen + 1,
                        more: wants_more(seen + 1, limit),
                    }
                } else {
                    StreamStepData { output: Seq::empty(), seen, more: wants_more(seen, limit) }
                }
            },
        },
    }
}

pub fn stream_event(
    kind: StreamKind,
    event: &Json,
    options: &Options,
    clock: &Clock,
    seen: usize,
    limit: Option<usize>,
) -> (r: StreamStep)
    requires
        seen < usize::MAX,
    ensures
        r@ == event_step(kind, event@, options@, clock@, seen as nat, limit),
{
    match tweet_from_stream_event(event) {
        None => StreamStep { output: String::new(), seen, more: true },
        Some(tweet) => match kind {
            StreamKind::Tweets => StreamStep {
                output: lines_to_text(&print_stream_tweet(&tweet, options, clock)),
                seen: seen + 1,
                more: more_wanted(seen + 1, limit),
            },
            StreamKind::Matrix => {
                let matrix = kana_reversed(tweet_text(&tweet, false).as_str());
                if matrix.as_str().is_empty() {
                    StreamStep { output: String::new(), seen, more: more_wanted(seen, limit) }
                } else {
                    StreamStep {
                        output: cat2("\x1b[1;32;40m", matrix.as_str()).concat("\x1b[0m"),
                        seen: seen + 1,
                        more: more_wanted(seen + 1, limit),
                    }
                }
            },
        },
    }
}

// ---------------------------------------------------------------------------
// Rules
// ---------------------------------------------------------------------------

/// The full rules, and the open one, that terms fill: a term joins the open rule where that stays
/// within 512 bytes, and else opens the next.
pub open spec fn packed(terms: Seq<Seq<char>>) -> (Seq<Seq<char>>, Seq<char>)
    decreases terms.len(),
{
    if terms.len() == 0 {
        (Seq::empty(), Seq::empty())
    } else {
        let (rules, open) = packed(terms.drop_last());
        let token = trimmed(terms.last());
        let candidate = if open.len() == 0 {
            token
        } else {
            open + " OR "@ + token
        };
        if token.len() == 0 {
            (rules, open)
        } else if byte_length(candidate) > 512 && open.len() > 0 {
            (rules.push(open), token)
        } else {
            (rules, candidate)
        }
    }
}

pub open spec fn rule_values(terms: Seq<Seq<char>>) -> Seq<Seq<char>> {
    let (rules, open) = packed(terms);
    if open.len() > 0 {
        rules.push(open)
    } else {
        rules
    }
}

pub fn build_stream_rule_values(terms: &Vec<String>) -> (r: Vec<String>)
    ensures
        r.deep_view() == rule_values(terms.deep_view()),
{
    let ghost all = terms.deep_view();
    let mut rules: Vec<String> = Vec::new();
    let mut current = String::new();
    let mut i: usize = 0;
    assert(rules.deep_view() =~= Seq::empty());
    assert(current@ =~= Seq::empty());
    assert(all.take(0).len() == 0);
    while i < terms.len()
        invariant
            i <= terms.len(),
            all == terms.deep_view(),
            packed(all.take(i as int)) == (rules.deep_view(), current@),
        decreases terms.len() - i,
    {
        assert(all.take(i + 1).drop_last() =~= all.take(i as int));
        assert(all.take(i + 1).last() == terms@[i as int]@);
        let token = trim(terms[i].as_str());
        if !token.as_str().is_empty() {
            if current.as_str().is_empty() {
                current = token;
            } else {
                let candidate = current.clone().concat(" OR ").concat(token.as_str());
                if text_bytes(candidate.as_str()) > 512 {
                    extend_by(&mut rules, current);
                    current = token;
                } else {
                    current = candidate;
                }
            }
        }
        i += 1;
    }
    assert(all.take(i as int) =~= all);
    if !current.as_str().is_empty() {
        extend_by(&mut rules, current);
    }
    rules
}

/// The tag of a rule: the time when it was made, and its place.
pub open spec fn rule_tag(millis: nat, index: nat) -> Seq<char> {
    "x-rust-"@ + decimal(millis) + "-"@ + decimal(index)
}

pub fn filtered_stream_rule_tag(millis: u64, index: usize) -> (r: String)
    ensures
        r@ == rule_tag(millis as nat, index as nat),
{
    cat2("x-rust-", decimal_u64(millis).as_str()).concat("-").concat(
        decimal_usize(index).as_str(),
    )
}

pub open spec fn new_rules(values: Seq<Seq<char>>, millis: nat) -> Seq<Data> {
    Seq::new(
        values.len(),
        |i: int|
            Data::Object(
                seq![
                    ("value"@, Data::Text(values[i])),
                    ("tag"@, Data::Text(rule_tag(millis, i as nat))),
                ],
            ),
    )
}

fn make_rules(values: &Vec<String>, millis: u64) -> (r: Vec<Json>)
    ensures
        r.deep_view() == new_rules(values.deep_view(), millis as nat),
{
    let ghost goal = new_rules(values.deep_view(), millis as nat);
    let mut out: Vec<Json> = Vec::new();
    let mut i: usize = 0;
    assert(out.deep_view() =~= goal.take(0));
    while i < values.len()
        invariant
            i <= values.len(),
            goal == new_rules(values.deep_view(), millis as nat),
            goal.len() == values.len(),
            out.deep_view() == goal.take(i as int),
        decreases values.len() - i,
    {
        let mut rule: Vec<(String, Json)> = Vec::new();
        put(&mut rule, "value", Json::Text(values[i].clone()));
        put(&mut rule, "tag", Json::Text(filtered_stream_rule_tag(millis, i)));
        assert(rule.deep_view() =~= goal[i as int]->Object_0);
        extend_by(&mut out, object_json(rule));
        i += 1;
        assert(out.deep_view() =~= goal.take(i as int));
    }
    assert(goal.take(i as int) =~= goal);
    out
}

/// The identifiers of the rules in a response.
pub open spec fn rule_ids_in(response: Data) -> Seq<Seq<char>> {
    collected(array_or_none(response.array_at("data"@)), |r: Data| r.text_at("id"@))
}

fn extract_rule_ids(response: &Json) -> (r: Vec<String>)
    ensures
        r.deep_view() == rule_ids_in(response@),
{
    let rules = copy_of_array(response.get_array("data"));
    let id = |r: &Json| -> (s: Option<String>)
        ensures
            s.deep_view() == r@.text_at("id"@),
    {
        match r.get_str("id") {
            Some(s) => Some(s.clone()),
            None => None,
        }
    };
    collect_list(&rules, id, Ghost(|r: Data| r.text_at("id"@)))
}

pub open spec fn texts_data(texts: Seq<Seq<char>>) -> Data {
    Data::Array(texts.map_values(|s: Seq<char>| Data::Text(s)))
}

pub fn texts_json(texts: &Vec<String>) -> (r: Json)
    ensures
        r@ == texts_data(texts.deep_view()),
{
    let f = |s: &String| -> (j: Json)
        ensures
            j@ == Data::Text(s@),
    {
        Json::Text(s.clone())
    };
    array_json(crate::list::map_list(texts, f, Ghost(|s: Seq<char>| Data::Text(s))))
}

pub open spec fn delete_rules_body(ids: Seq<Seq<char>>) -> Data {
    Data::Object(seq![("delete"@, Data::Object(seq![("ids"@, texts_data(ids))]))])
}

/// Removes the rules, where there are any.
pub open spec fn rules_removed(t: Talk, ids: Seq<Seq<char>>) -> Step<()> {
    if ids.len() == 0 {
        done(t, ())
    } else {
        bind(
            call(
                t,
                with_body_retried(
                    Method::PostBodyOauth2,
                    "/2/tweets/search/stream/rules"@,
                    delete_rules_body(ids),
                ),
            ),
            |t: Talk, d: Data| done(t, ()),
        )
    }
}

pub fn one_entry(key: &str, value: Json) -> (r: Json)
    ensures
        r@ == Data::Object(seq![(key@, value@)]),
{
    let mut entries: Vec<(String, Json)> = Vec::new();
    put(&mut entries, key, value);
    assert(entries.deep_view() =~= seq![(key@, value@)]);
    object_json(entries)
}

pub fn remove_filtered_stream_rules(s: &mut Session, ids: &Vec<String>) -> (r: Result<(), Stop>)
    ensures
        (final(s).talk(), unit(r)) == rules_removed(old(s).talk(), ids.deep_view()),
{
    assert(ids.deep_view().len() == ids@.len());
    if ids.len() == 0 {
        return Ok(());
    }
    let body = one_entry("delete", one_entry("ids", texts_json(ids)));
    let _ = s.call(
        request_body_retried(
            Method::PostBodyOauth2,
            "/2/tweets/search/stream/rules".to_owned(),
            body,
        ),
    )?;
    Ok(())
}

/// Removes all rules that stand.
pub open spec fn rules_cleared(t: Talk) -> Step<()> {
    bind(
        call(t, retried(Method::GetOauth2, "/2/tweets/search/stream/rules"@, Seq::empty())),
        |t: Talk, d: Data| rules_removed(t, rule_ids_in(d)),
    )
}

pub fn clear_filtered_stream_rules(s: &mut Session) -> (r: Result<(), Stop>)
    ensures
        (final(s).talk(), unit(r)) == rules_cleared(old(s).talk()),
{
    let response = s.call(
        request_retried(
            Method::GetOauth2,
            "/2/tweets/search/stream/rules".to_owned(),
            no_params(),
        ),
    )?;
    let ids = extract_rule_ids(&response);
    remove_filtered_stream_rules(s, &ids)
}

/// Puts the rules for the terms in the place of those that stand, and gives their identifiers.
pub open spec fn rules_installed(t: Talk, terms: Seq<Seq<char>>) -> Step<Seq<Seq<char>>> {
    bind(
        rules_cleared(t),
        |t: Talk, u: ()|
            {
                let values = rule_values(terms);
                if values.len() == 0 {
                    done(t, Seq::empty())
                } else {
                    bind(
                        ask_millis(t),
                        |t: Talk, millis: u64|
                            bind(
                                call(
                                    t,
                                    with_body_retried(
                                        Method::PostBodyOauth2,
                                        "/2/tweets/search/stream/rules"@,
                                        Data::Object(
                                            seq![
                                                (
                                                    "add"@,
                                                    Data::Array(new_rules(values, millis as nat)),
                                                ),
                                            ],
                                        ),
                                    ),
                                ),
                                |t: Talk, d: Data| done(t, rule_ids_in(d)),
                            ),
                    )
                }
            },
    )
}

pub fn install_filtered_stream_rules(s: &mut Session, terms: &Vec<String>) -> (r: Result<
    Vec<String>,
    Stop,
>)
    ensures
        (final(s).talk(), both(r)) == rules_installed(old(s).talk(), terms.deep_view()),
{
    clear_filtered_stream_rules(s)?;
    let values = build_stream_rule_values(terms);
    assert(values.deep_view().len() == values@.len());
    if values.len() == 0 {
        let none: Vec<String> = Vec::new();
        assert(none.deep_view() =~= Seq::empty());
        return Ok(none);
    }
    let millis: u64 = s.millis()?;
    let body = one_entry("add", array_json(make_rules(&values, millis)));
    let response = s.call(
        request_body_retried(
            Method::PostBodyOauth2,
            "/2/tweets/search/stream/rules".to_owned(),
            body,
        ),
    )?;
    Ok(extract_rule_ids(&response))
}

// ---------------------------------------------------------------------------
// Streaming
// ---------------------------------------------------------------------------

pub open spec fn limit_in(text: Option<Seq<char>>) -> Option<nat> {
    match text {
        Some(s) => read_unsigned(s, usize::MAX as nat),
        None => None,
    }
}

/// How many events are wanted, where the environment says so.
pub open spec fn stream_limit(t: Talk) -> Step<Option<nat>> {
    bind(
        ask_text(t, AskData::Env("X_STREAM_MAX_EVENTS"@)),
        |t: Talk, first: Option<Seq<char>>|
            match first {
                Some(s) => done(t, limit_in(first)),
                None => bind(
                    ask_text(t, AskData::Env("T_STREAM_MAX_EVENTS"@)),
                    |t: Talk, second: Option<Seq<char>>| done(t, limit_in(second)),
                ),
            },
    )
}

pub open spec fn limited(r: Result<Option<usize>, Stop>) -> Result<Option<nat>, StopData> {
    match r {
        Ok(Some(n)) => Ok(Some(n as nat)),
        Ok(None) => Ok(None),
        Err(s) => Err(s.deep_view()),
    }
}

pub fn stream_max_events(s: &mut Session) -> (r: Result<Option<usize>, Stop>)
    ensures
        (final(s).talk(), limited(r)) == stream_limit(old(s).talk()),
{
    let first = s.text(Ask::Env("X_STREAM_MAX_EVENTS".to_owned()))?;
    match first {
        Some(v) => Ok(parse_usize(v.as_str())),
        None => {
            let second = s.text(Ask::Env("T_STREAM_MAX_EVENTS".to_owned()))?;
            match second {
                Some(v) => Ok(parse_usize(v.as_str())),
                None => Ok(None),
            }
        },
    }
}

/// A stream that is read to its end.
pub open spec fn streamed(
    t: Talk,
    kind: StreamKind,
    path: Seq<char>,
    params: Seq<(Seq<char>, Seq<char>)>,
    auth: AuthScheme,
) -> Step<()> {
    bind(
        stream_limit(t),
        |t: Talk, limit: Option<nat>|
            bind(
                ask_stream(t, AskData::Stream { kind, path, params, auth, limit }),
                |t: Talk, r: Result<(), FaultData>|
                    match r {
                        Ok(u) => done(t, ()),
                        Err(e) => fail(t, ErrorData::Backend(e)),
                    },
            ),
    )
}

fn run_stream(
    s: &mut Session,
    kind: StreamKind,
    path: &str,
    params: Vec<(String, String)>,
    auth: AuthScheme,
) -> (r: Result<(), Stop>)
    ensures
        (final(s).talk(), unit(r)) == streamed(
            old(s).talk(),
            kind,
            path@,
            params.deep_view(),
            auth,
        ),
{
    let limit = stream_max_events(s)?;
    match s.stream(Ask::Stream { kind, path: path.to_owned(), params, auth, limit })? {
        Ok(()) => Ok(()),
        Err(e) => Err(Stop::Fail(CommandError::Backend(e))),
    }
}

pub open spec fn tweets_streamed(
    t: Talk,
    path: Seq<char>,
    params: Seq<(Seq<char>, Seq<char>)>,
    auth: AuthScheme,
    options: OptionsData,
) -> Step<()> {
    streamed(
        crate::session::say_all(t, stream_headings(options)),
        StreamKind::Tweets,
        path,
        params,
        auth,
    )
}

pub fn stream_tweets(
    s: &mut Session,
    path: &str,
    params: Vec<(String, String)>,
    auth: AuthScheme,
    options: &Options,
) -> (r: Result<(), Stop>)
    ensures
        (final(s).talk(), unit(r)) == tweets_streamed(
            old(s).talk(),
            path@,
            params.deep_view(),
            auth,
            options@,
        ),
{
    s.say_lines(print_stream_headings(options));
    run_stream(s, StreamKind::Tweets, path, params, auth)
}

/// The rules are removed once the stream has ended, also where it failed; the failure of the
/// stream counts before that of the removal.
pub open spec fn cleaned_up(step: Step<()>, ids: Seq<Seq<char>>) -> Step<()> {
    match step.1 {
        Ok(u) => rules_removed(step.0, ids),
        Err(StopData::Ask(a)) => step,
        Err(StopData::Fail(e)) => {
            let after = rules_removed(step.0, ids);
            match after.1 {
                Err(StopData::Ask(a)) => after,
                _ => (after.0, Err(StopData::Fail(e))),
            }
        },
    }
}

fn clean_up(s: &mut Session, result: Result<(), Stop>, ids: &Vec<String>) -> (r: Result<(), Stop>)
    ensures
        (final(s).talk(), unit(r)) == cleaned_up((old(s).talk(), unit(result)), ids.deep_view()),
{
    match result {
        Ok(()) => remove_filtered_stream_rules(s, ids),
        Err(Stop::Ask(a)) => Err(Stop::Ask(a)),
        Err(Stop::Fail(e)) => {
            match remove_filtered_stream_rules(s, ids) {
                Err(Stop::Ask(a)) => Err(Stop::Ask(a)),
                _ => Err(Stop::Fail(e)),
            }
        },
    }
}

/// A stream of the tweets that the terms find.
pub open spec fn filtered_streamed(
    t: Talk,
    terms: Seq<Seq<char>>,
    options: OptionsData,
) -> Step<()> {
    bind(
        rules_installed(t, terms),
        |t: Talk, ids: Seq<Seq<char>>|
            cleaned_up(
                tweets_streamed(
                    t,
                    "/2/tweets/search/stream"@,
                    stream_params(),
                    AuthScheme::OAuth2Bearer,
                    options,
                ),
                ids,
            ),
    )
}

pub fn stream_filtered_tweets(s: &mut Session, terms: &Vec<String>, options: &Options) -> (r: Result<
    (),
    Stop,
>)
    ensures
        (final(s).talk(), unit(r)) == filtered_streamed(
            old(s).talk(),
            terms.deep_view(),
            options@,
        ),
{
    let ids = install_filtered_stream_rules(s, terms)?;
    let result = stream_tweets(
        s,
        "/2/tweets/search/stream",
        v2_stream_params(),
        AuthScheme::OAuth2Bearer,
        options,
    );
    clean_up(s, result, &ids)
}

/// A stream of kana.
pub open spec fn matrix_streamed(t: Talk) -> Step<()> {
    bind(
        rules_installed(t, seq!["の lang:ja"@]),
        |t: Talk, ids: Seq<Seq<char>>|
            cleaned_up(
                streamed(
                    t,
                    StreamKind::Matrix,
                    "/2/tweets/search/stream"@,
                    seq![("tweet.fields"@, "text"@)],
                    AuthScheme::OAuth2Bearer,
                ),
                ids,
            ),
    )
}

pub fn run_matrix_stream(s: &mut Session) -> (r: Result<(), Stop>)
    ensures
        (final(s).talk(), unit(r)) == matrix_streamed(old(s).talk()),
{
    let terms: Vec<String> = vec!["の lang:ja".to_owned()];
    assert(terms.deep_view() =~= seq!["の lang:ja"@]);
    let ids = install_filtered_stream_rules(s, &terms)?;
    let result = run_stream(
        s,
        StreamKind::Matrix,
        "/2/tweets/search/stream",
        one_param("tweet.fields", "text"),
        AuthScheme::OAuth2Bearer,
    );
    clean_up(s, result, &ids)
}

// ---------------------------------------------------------------------------
// Laws
// ---------------------------------------------------------------------------

/// Whether a rule is short enough, or a term that no rule is short enough for.
pub open spec fn is_short_rule(rule: Seq<char>, terms: Seq<Seq<char>>) -> bool {
    byte_length(rule) <= 512 || exists|k: int|
        0 <= k < terms.len() && rule == trimmed(#[trigger] terms[k])
}

proof fn lemma_packed(terms: Seq<Seq<char>>)
    ensures
        ({
            let (rules, open) = packed(terms);
            &&& forall|i: int|
                0 <= i < rules.len() ==> is_short_rule(#[trigger] rules[i], terms)
                    && rules[i].len() > 0
            &&& open.len() > 0 ==> is_short_rule(open, terms)
        }),
    decreases terms.len(),
{
    if terms.len() > 0 {
        let front = terms.drop_last();
        lemma_packed(front);
        let token = trimmed(terms.last());
        assert(terms[terms.len() - 1] == terms.last());
        assert forall|rule: Seq<char>| is_short_rule(rule, front) implies #[trigger] is_short_rule(
            rule,
            terms,
        ) by {
            if byte_length(rule) > 512 {
                let k = choose|k: int|
                    0 <= k < front.len() && rule == trimmed(#[trigger] front[k]);
                assert(rule == trimmed(terms[k]));
            }
        }
        assert(is_short_rule(token, terms));
        let (rules, open) = packed(front);
        let (now, last) = packed(terms);
        assert forall|i: int| 0 <= i < now.len() implies is_short_rule(#[trigger] now[i], terms)
            && now[i].len() > 0 by {
            if i < rules.len() {
                assert(now[i] == rules[i]);
            }
        }
    }
}

/// Each rule of a filtered stream holds at most 512 bytes, unless a single term is longer than
/// that; none is empty.
pub proof fn law_rules_are_short(terms: Seq<Seq<char>>, i: int)
    requires
        0 <= i < rule_values(terms).len(),
    ensures
        is_short_rule(rule_values(terms)[i], terms),
        rule_values(terms)[i].len() > 0,
{
    lemma_packed(terms);
}

/// The terms that are not blank, without the space around them.
pub open spec fn tokens_in(terms: Seq<Seq<char>>) -> Seq<Seq<char>> {
    nonempty(terms.map_values(|term: Seq<char>| trimmed(term)))
}

/// Whether a rule opens with a term that would have made the rule before it too long.
pub open spec fn is_due(rule: Seq<char>, next: Seq<char>, token: Seq<char>) -> bool {
    opens_with(next, token, " OR "@) && byte_length(rule + " OR "@ + token) > 512
}

/// Whether a rule ends where one of the terms did not fit.
pub open spec fn is_closed_duly(rule: Seq<char>, next: Seq<char>, tokens: Seq<Seq<char>>) -> bool {
    exists|k: int| 0 <= k < tokens.len() && is_due(rule, next, #[trigger] tokens[k])
}

proof fn lemma_packed_tokens(terms: Seq<Seq<char>>)
    ensures
        ({
            let (rules, open) = packed(terms);
            let all = rules.push(open);
            let tokens = tokens_in(terms);
            &&& (open.len() == 0) == (tokens.len() == 0)
            &&& tokens.len() == 0 ==> rules.len() == 0
            &&& tokens.len() > 0 ==> joined(all, " OR "@) == joined(tokens, " OR "@)
            &&& forall|i: int|
                0 < i < all.len() ==> is_closed_duly(all[i - 1], #[trigger] all[i], tokens)
        }),
    decreases terms.len(),
{
    let f = |term: Seq<char>| trimmed(term);
    let sep = " OR "@;
    if terms.len() == 0 {
        assert(terms.map_values(f) =~= Seq::empty());
    } else {
        let front = terms.drop_last();
        lemma_packed_tokens(front);
        let token = trimmed(terms.last());
        let (before, open) = packed(front);
        let (rules, now) = packed(terms);
        let fewer = tokens_in(front);
        let tokens = tokens_in(terms);
        assert(terms.map_values(f).drop_last() =~= front.map_values(f));
        assert(terms.map_values(f).last() == token);
        if token.len() > 0 {
            let earlier = before.push(open);
            let all = rules.push(now);
            assert(tokens == fewer.push(token));
            assert(tokens.drop_last() =~= fewer);
            assert(earlier.drop_last() =~= before);
            assert(all.drop_last() =~= rules);
            reveal_strlit(" OR ");
            assert forall|i: int| 0 < i < all.len() implies is_closed_duly(
                all[i - 1],
                #[trigger] all[i],
                tokens,
            ) by {
                if i < earlier.len() {
                    assert(is_closed_duly(earlier[i - 1], earlier[i], fewer));
                    let k = choose|k: int|
                        0 <= k < fewer.len() && is_due(
                            earlier[i - 1],
                            earlier[i],
                            #[trigger] fewer[k],
                        );
                    assert(tokens[k] == fewer[k]);
                    assert(all[i - 1] == earlier[i - 1]);
                    if all[i] != earlier[i] {
                        lemma_still_opens(open, fewer[k], sep, token);
                    }
                    assert(is_due(all[i - 1], all[i], tokens[k]));
                } else {
                    assert(tokens[tokens.len() - 1] == token);
                    assert(is_due(all[i - 1], all[i], tokens[tokens.len() - 1]));
                }
            }
            if open.len() == 0 {
                assert(all =~= seq![token]);
                assert(tokens =~= seq![token]);
            } else if rules.len() == before.len() {
                assert(now == open + sep + token);
                if before.len() == 0 {
                    assert(all =~= seq![now]);
                    assert(earlier =~= seq![open]);
                } else {
                    assert(joined(all, sep) =~= joined(earlier, sep) + sep + token);
                }
            } else {
                assert(rules =~= earlier);
            }
        }
    }
}

/// The rules joined are the terms joined, and a rule ends only where the next term would have made
/// it longer than 512 bytes.
pub proof fn law_rules_hold_the_terms(terms: Seq<Seq<char>>)
    ensures
        joined(rule_values(terms), " OR "@) == joined(tokens_in(terms), " OR "@),
        forall|i: int|
            0 < i < rule_values(terms).len() ==> is_closed_duly(
                rule_values(terms)[i - 1],
                #[trigger] rule_values(terms)[i],
                tokens_in(terms),
            ),
{
    lemma_packed_tokens(terms);
    let (rules, open) = packed(terms);
    if open.len() > 0 {
        assert(rule_values(terms) =~= rules.push(open));
    } else {
        assert(rule_values(terms).len() == 0);
    }
}

/// Where a filtered stream fails, its rules are removed all the same, and the failure is that of
/// the stream.
pub proof fn law_rules_are_removed_after_a_failure(t: Talk, e: ErrorData, ids: Seq<Seq<char>>)
    ensures
        cleaned_up((t, Err(StopData::Fail(e))), ids).0 == rules_removed(t, ids).0,
        match rules_removed(t, ids).1 {
            Err(StopData::Ask(a)) => cleaned_up((t, Err(StopData::Fail(e))), ids).1 == Err::<
                (),
                StopData,
            >(StopData::Ask(a)),
            _ => cleaned_up((t, Err(StopData::Fail(e))), ids).1 == Err::<(), StopData>(
                StopData::Fail(e),
            ),
        },
{
}

} // verus!
