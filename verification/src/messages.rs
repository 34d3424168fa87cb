//! Direct messages: reading them from both forms of the API, and showing them.

use vstd::prelude::*;

use crate::extract::{
    array_or_none, copy_of_array, expand_links, indexed, index_items_by_id, with_links,
};
use crate::fetch::{current_user, fetch_current_user, lookup_users_by_ids, users_looked_up};
use crate::idset::{ordered_set, set_of};
use crate::json::{
    array_from, array_in, find_entry, get_from, get_in, lookup, or_empty, put, str_from, text_in,
    text_or_empty, words_in, words_in_value, Data, Json,
};
use crate::layout::{message_lines, print_message, print_table, table_lines};
use crate::list::{collect_list, collected, map_list, move_in, spread, spread_list};
use crate::options::{opt_bool, opt_usize_or, Options, OptionsData};
use crate::params::{one_param, pair, plain, request, DEFAULT_NUM_RESULTS};
use crate::present::{clock_for, read_clock_for, wants_long};
use crate::session::{
    ask_api, bind, both, done, fail, say_all, unit, Ask, AskData, BackendError, CommandError,
    ErrorData, FaultData, Method, Session, Step, Stop, StopData, Talk,
};
use crate::show::{
    csv_always, flatten_text, in_order, on_one_line, print_csv_always, put_in_order,
    tweet_headings, tweet_titles,
};
use crate::text::{
    cat2, contains, contains_text, decimal, decimal_usize, lowered, replace, replaced, same,
    split, split_on, to_ascii_lowercase, CharSet,
};
use crate::time::{
    dm_csv_time, dm_ls_time, dm_time, full_time_or_none, listed_time, message_time, Clock,
    ClockData, Instant,
};

verus! {

// ---------------------------------------------------------------------------
// Events
// ---------------------------------------------------------------------------

/// The events in a response, under either name.
pub open spec fn events_in(value: Data) -> Seq<Data> {
    array_or_none(array_in(value.get_either("events"@, "data"@)))
}

pub fn extract_dm_events(value: &Json) -> (r: Vec<Json>)
    ensures
        r.deep_view() == events_in(value@),
{
    copy_of_array(array_from(value.get_either("events", "data")))
}

/// A user of the older form, under the key and under its own textual identifier.
pub open spec fn both_names(entry: (Seq<char>, Data)) -> Seq<(Seq<char>, Data)> {
    seq![entry] + (match entry.1.text_at("id_str"@) {
        Some(id) => seq![(id, entry.1)],
        None => Seq::empty(),
    })
}

/// The users that a response holds, by identifier.
pub open spec fn dm_users_in(value: Data) -> Seq<(Seq<char>, Data)> {
    indexed(array_in(get_in(value.get("includes"@), "users"@))) + (match value.get("users"@) {
        Some(Data::Array(users)) => indexed(Some(users)),
        Some(Data::Object(entries)) => spread(entries, |e: (Seq<char>, Data)| both_names(e)),
        _ => Seq::empty(),
    })
}

fn under_both_names(entry: &(String, Json)) -> (r: Vec<(String, Json)>)
    ensures
        r.deep_view() == both_names(entry.deep_view()),
{
    let mut r: Vec<(String, Json)> = Vec::new();
    put(&mut r, entry.0.as_str(), entry.1.copy());
    if let Some(id) = entry.1.get_str("id_str") {
        put(&mut r, id.as_str(), entry.1.copy());
    }
    assert(r.deep_view() =~= both_names(entry.deep_view()));
    r
}

pub fn extract_dm_users_by_id(value: &Json) -> (r: Vec<(String, Json)>)
    ensures
        r.deep_view() == dm_users_in(value@),
{
    let mut users = index_items_by_id(array_from(get_from(value.get("includes"), "users")));
    let ghost first = users.deep_view();
    match value.get("users") {
        Some(found) => match found {
            Json::Array(list) => {
                proof {
                    crate::json::lemma_array_data(*list);
                }
                move_in(&mut users, index_items_by_id(Some(list)));
            },
            Json::Object(entries) => {
                proof {
                    crate::json::lemma_object_data(*entries);
                }
                let names = |e: &(String, Json)| -> (r: Vec<(String, Json)>)
                    ensures
                        r.deep_view() == both_names(e.deep_view()),
                {
                    under_both_names(e)
                };
                let more = spread_list(
                    entries,
                    names,
                    Ghost(|e: (Seq<char>, Data)| both_names(e)),
                );
                move_in(&mut users, more);
            },
            _ => {
                assert(first + Seq::<(Seq<char>, Data)>::empty() =~= first);
            },
        },
        None => {
            assert(first + Seq::<(Seq<char>, Data)>::empty() =~= first);
        },
    }
    users
}

pub open spec fn dm_name(user: Data) -> Seq<char> {
    or_empty(text_in(user.get_either("screen_name"@, "username"@)))
}

pub fn dm_user_screen_name(user: &Json) -> (r: String)
    ensures
        r@ == dm_name(user@),
{
    text_or_empty(str_from(user.get_either("screen_name", "username")))
}

pub fn dm_event_id(event: &Json) -> (r: String)
    ensures
        r@ == event@.words_at("id"@),
{
    event.words_at("id")
}

/// The type of an event, in small letters and without underscores; a message where none is given.
pub open spec fn event_type(event: Data) -> Seq<char> {
    match text_in(event.get_either("type"@, "event_type"@)) {
        Some(s) => replaced(lowered(s), "_"@, ""@),
        None => "messagecreate"@,
    }
}

pub fn dm_event_type(event: &Json) -> (r: String)
    ensures
        r@ == event_type(event@),
{
    match str_from(event.get_either("type", "event_type")) {
        Some(s) => replace(to_ascii_lowercase(s.as_str()).as_str(), "_", ""),
        None => "messagecreate".to_owned(),
    }
}

pub open spec fn either_of(a: Option<Data>, b: Option<Data>) -> Option<Data> {
    match a {
        Some(v) => Some(v),
        None => b,
    }
}

fn pick<'a>(a: Option<&'a Json>, b: Option<&'a Json>) -> (r: Option<&'a Json>)
    ensures
        r.deep_view() == either_of(a.deep_view(), b.deep_view()),
{
    match a {
        Some(v) => Some(v),
        None => b,
    }
}

pub open spec fn sender_of(event: Data) -> Seq<char> {
    or_empty(
        text_in(
            either_of(
                get_in(event.get("message_create"@), "sender_id"@),
                event.get("sender_id"@),
            ),
        ),
    )
}

pub fn dm_sender_id(event: &Json) -> (r: String)
    ensures
        r@ == sender_of(event@),
{
    text_or_empty(
        str_from(pick(get_from(event.get("message_create"), "sender_id"), event.get("sender_id"))),
    )
}

pub open spec fn recipient_of(event: Data) -> Seq<char> {
    or_empty(
        text_in(get_in(get_in(event.get("message_create"@), "target"@), "recipient_id"@)),
    )
}

pub fn dm_recipient_id(event: &Json) -> (r: String)
    ensures
        r@ == recipient_of(event@),
{
    text_or_empty(
        str_from(get_from(get_from(event.get("message_create"), "target"), "recipient_id")),
    )
}

/// The first of the texts that differs from `mine`.
pub open spec fn first_other(texts: Seq<Seq<char>>, mine: Seq<char>) -> Option<Seq<char>>
    decreases texts.len(),
{
    if texts.len() == 0 {
        None
    } else if texts[0] != mine {
        Some(texts[0])
    } else {
        first_other(texts.drop_first(), mine)
    }
}

pub open spec fn other_participant(event: Data, my_id: Seq<char>) -> Option<Seq<char>> {
    match event.text_at("dm_conversation_id"@) {
        Some(id) => first_other(split_on(id, CharSet::Only('-')), my_id),
        None => None,
    }
}

pub fn dm_other_participant_id(event: &Json, my_id: &str) -> (r: Option<String>)
    ensures
        r.deep_view() == other_participant(event@, my_id@),
{
    match event.get_str("dm_conversation_id") {
        None => None,
        Some(id) => {
            let parts = split(id.as_str(), &CharSet::Only('-'));
            let ghost all = parts.deep_view();
            let mut i: usize = 0;
            assert(all.skip(0) =~= all);
            while i < parts.len()
                invariant
                    i <= parts.len(),
                    all == parts.deep_view(),
                    other_participant(event@, my_id@) == first_other(all, my_id@),
                    first_other(all, my_id@) == first_other(all.skip(i as int), my_id@),
                decreases parts.len() - i,
            {
                assert(all.skip(i as int)[0] == parts@[i as int]@);
                assert(all.skip(i as int).drop_first() =~= all.skip(i + 1));
                if !same(parts[i].as_str(), my_id) {
                    return Some(parts[i].clone());
                }
                i += 1;
            }
            None
        },
    }
}

/// With whom a message was exchanged.
pub open spec fn peer_of(event: Data, my_id: Seq<char>, sent: bool) -> Seq<char> {
    if event.get("message_create"@) is Some {
        if sent {
            recipient_of(event)
        } else {
            sender_of(event)
        }
    } else if !sent && sender_of(event) != my_id {
        sender_of(event)
    } else {
        or_empty(other_participant(event, my_id))
    }
}

pub fn dm_peer_id(event: &Json, my_id: &str, sent: bool) -> (r: String)
    ensures
        r@ == peer_of(event@, my_id@, sent),
{
    let sender = dm_sender_id(event);
    if event.get("message_create").is_some() {
        if sent {
            return dm_recipient_id(event);
        }
        return sender;
    }
    if !sent && !same(sender.as_str(), my_id) {
        return sender;
    }
    match dm_other_participant_id(event, my_id) {
        Some(id) => id,
        None => String::new(),
    }
}

/// The text of a message, with its links expanded if so wished.
pub open spec fn dm_text_of(event: Data, decode_uris: bool) -> Seq<char> {
    let data = get_in(event.get("message_create"@), "message_data"@);
    let text = or_empty(text_in(either_of(get_in(data, "text"@), event.get("text"@))));
    if decode_uris {
        match array_in(either_of(get_in(get_in(data, "entities"@), "urls"@), event.get("urls"@))) {
            Some(urls) => with_links(text, urls),
            None => text,
        }
    } else {
        text
    }
}

pub fn dm_text(event: &Json, decode_uris: bool) -> (r: String)
    ensures
        r@ == dm_text_of(event@, decode_uris),
{
    let data = get_from(event.get("message_create"), "message_data");
    let text = text_or_empty(str_from(pick(get_from(data, "text"), event.get("text"))));
    if !decode_uris {
        return text;
    }
    let urls = array_from(pick(get_from(get_from(data, "entities"), "urls"), event.get("urls")));
    expand_links(text.as_str(), urls)
}

// ---------------------------------------------------------------------------
// Fetching
// ---------------------------------------------------------------------------

pub open spec fn falls_back(error: FaultData) -> bool {
    match error {
        FaultData::Http(message) => contains_text(message, "403"@) || contains_text(
            message,
            "404"@,
        ),
        _ => false,
    }
}

pub fn should_fallback_dm_events(error: &BackendError) -> (r: bool)
    ensures
        r == falls_back(error.deep_view()),
{
    match error {
        BackendError::Http(message) => contains(message.as_str(), "403") || contains(
            message.as_str(),
            "404",
        ),
        _ => false,
    }
}

/// Between 1 and 50.
pub open spec fn dm_count(number: nat) -> nat {
    if number < 1 {
        1
    } else if number > 50 {
        50
    } else {
        number
    }
}

pub open spec fn dm_params(number: nat) -> Seq<(Seq<char>, Seq<char>)> {
    seq![
        ("max_results"@, decimal(dm_count(number))),
        ("event_types"@, "MessageCreate"@),
        ("dm_event.fields"@, "id,sender_id,text,created_at,dm_conversation_id"@),
        ("expansions"@, "sender_id,participant_ids"@),
        ("user.fields"@, "id,username"@),
    ]
}

/// The messages of the account; where the newer API denies them, the older one is asked.
pub open spec fn dms_fetched(t: Talk, number: nat) -> Step<Data> {
    bind(
        ask_api(t, AskData::Api(plain(Method::Get, "/2/dm_events"@, dm_params(number)))),
        |t: Talk, r: Result<Data, FaultData>|
            match r {
                Ok(d) => done(t, d),
                Err(e) => if falls_back(e) {
                    crate::session::call(
                        t,
                        plain(
                            Method::Get,
                            "/1.1/direct_messages/events/list.json"@,
                            seq![("count"@, decimal(dm_count(number)))],
                        ),
                    )
                } else {
                    fail(t, ErrorData::Backend(e))
                },
            },
    )
}

pub fn fetch_direct_messages_response(s: &mut Session, number: usize) -> (r: Result<Json, Stop>)
    ensures
        (final(s).talk(), both(r)) == dms_fetched(old(s).talk(), number as nat),
{
    let n: usize = if number < 1 {
        1
    } else if number > 50 {
        50
    } else {
        number
    };
    let max_results = decimal_usize(n);
    let params: Vec<(String, String)> = vec![
        pair("max_results", max_results.as_str()),
        pair("event_types", "MessageCreate"),
        pair("dm_event.fields", "id,sender_id,text,created_at,dm_conversation_id"),
        pair("expansions", "sender_id,participant_ids"),
        pair("user.fields", "id,username"),
    ];
    assert(params.deep_view() =~= dm_params(number as nat));
    match s.api(Ask::Api(request(Method::Get, "/2/dm_events".to_owned(), params)))? {
        Ok(response) => Ok(response),
        Err(error) => {
            if should_fallback_dm_events(&error) {
                s.call(
                    request(
                        Method::Get,
                        "/1.1/direct_messages/events/list.json".to_owned(),
                        one_param("count", max_results.as_str()),
                    ),
                )
            } else {
                Err(Stop::Fail(CommandError::Backend(error)))
            }
        },
    }
}

// ---------------------------------------------------------------------------
// The command
// ---------------------------------------------------------------------------

pub open spec fn own_id(me: Data) -> Seq<char> {
    words_in(me.get_either("id_str"@, "id"@))
}

/// A message of the account that was sent, or one that was received.
pub open spec fn wanted_event(event: Data, my_id: Seq<char>, sent: bool) -> Option<Data> {
    if event_type(event) == "messagecreate"@ && (sender_of(event) == my_id) == sent {
        Some(event)
    } else {
        None
    }
}

pub open spec fn wanted_events(response: Data, my_id: Seq<char>, sent: bool) -> Seq<Data> {
    collected(events_in(response), |e: Data| wanted_event(e, my_id, sent))
}

/// A peer whose user is not known yet.
pub open spec fn unknown_peer(
    event: Data,
    my_id: Seq<char>,
    sent: bool,
    users: Seq<(Seq<char>, Data)>,
) -> Option<Seq<char>> {
    let id = peer_of(event, my_id, sent);
    if id.len() > 0 && lookup(users, id) is None {
        Some(id)
    } else {
        None
    }
}

/// The identifiers of the peers that have to be looked up, in order, each once.
pub open spec fn unknown_peers(
    events: Seq<Data>,
    my_id: Seq<char>,
    sent: bool,
    users: Seq<(Seq<char>, Data)>,
) -> Seq<Seq<char>> {
    set_of(collected(events, |e: Data| unknown_peer(e, my_id, sent, users)))
}

/// A step whose failure counts as nothing found.
pub open spec fn or_nothing(step: Step<Seq<Data>>) -> Step<Seq<Data>> {
    match step.1 {
        Err(StopData::Fail(e)) => done(step.0, Seq::empty()),
        _ => step,
    }
}

/// The users with those looked up that were missing.
pub open spec fn users_completed(
    t: Talk,
    users: Seq<(Seq<char>, Data)>,
    missing: Seq<Seq<char>>,
) -> Step<Seq<(Seq<char>, Data)>> {
    if missing.len() == 0 {
        done(t, users)
    } else {
        bind(
            or_nothing(users_looked_up(t, missing, Seq::empty())),
            |t: Talk, found: Seq<Data>| done(t, users + indexed(Some(found))),
        )
    }
}

fn complete_users(s: &mut Session, users: Vec<(String, Json)>, missing: &Vec<String>) -> (r: Result<
    Vec<(String, Json)>,
    Stop,
>)
    ensures
        (final(s).talk(), both(r)) == users_completed(
            old(s).talk(),
            users.deep_view(),
            missing.deep_view(),
        ),
{
    assert(missing.deep_view().len() == missing@.len());
    if missing.len() == 0 {
        return Ok(users);
    }
    let found: Vec<Json> = match lookup_users_by_ids(s, missing) {
        Ok(found) => found,
        Err(Stop::Fail(_)) => {
            let none: Vec<Json> = Vec::new();
            assert(none.deep_view() =~= Seq::empty());
            none
        },
        Err(stop) => {
            return Err(stop);
        },
    };
    let mut users = users;
    move_in(&mut users, index_items_by_id(Some(&found)));
    Ok(users)
}

pub open spec fn peer_name(
    event: Data,
    my_id: Seq<char>,
    sent: bool,
    users: Seq<(Seq<char>, Data)>,
) -> Seq<char> {
    match lookup(users, peer_of(event, my_id, sent)) {
        Some(user) => dm_name(user),
        None => Seq::empty(),
    }
}

fn name_of_peer(event: &Json, my_id: &str, sent: bool, users: &Vec<(String, Json)>) -> (r: String)
    ensures
        r@ == peer_name(event@, my_id@, sent, users.deep_view()),
{
    match find_entry(users, dm_peer_id(event, my_id, sent).as_str()) {
        Some(user) => dm_user_screen_name(user),
        None => String::new(),
    }
}

pub open spec fn dm_csv_row(event: Data, name: Seq<char>, options: OptionsData) -> Seq<Seq<char>> {
    seq![
        event.words_at("id"@),
        full_time_or_none(message_time(event)),
        name,
        dm_text_of(event, options.flag("decode_uris"@)),
    ]
}

pub open spec fn dm_long_row(
    event: Data,
    name: Seq<char>,
    options: OptionsData,
    clock: ClockData,
) -> Seq<Seq<char>> {
    seq![
        event.words_at("id"@),
        listed_time(message_time(event), options.flag("relative_dates"@), clock),
        "@"@ + name,
        on_one_line(dm_text_of(event, options.flag("decode_uris"@))),
    ]
}

/// Messages: as comma-separated rows, as a table, or in full.
pub open spec fn dms_lines(
    events: Seq<Data>,
    my_id: Seq<char>,
    sent: bool,
    users: Seq<(Seq<char>, Data)>,
    options: OptionsData,
    clock: ClockData,
) -> Seq<Seq<char>> {
    if options.flag("csv"@) {
        csv_always(
            tweet_headings(),
            events.map_values(
                |e: Data| dm_csv_row(e, peer_name(e, my_id, sent, users), options),
            ),
        )
    } else if options.flag("long"@) {
        table_lines(
            tweet_headings(),
            events.map_values(
                |e: Data| dm_long_row(e, peer_name(e, my_id, sent, users), options, clock),
            ),
        )
    } else {
        spread(
            events,
            |e: Data|
                message_lines(
                    peer_name(e, my_id, sent, users),
                    dm_text_of(e, options.flag("decode_uris"@)),
                ),
        )
    }
}

pub fn print_direct_messages(
    events: &Vec<Json>,
    my_id: &str,
    sent: bool,
    users: &Vec<(String, Json)>,
    options: &Options,
    clock: &Clock,
) -> (r: Vec<String>)
    ensures
        r.deep_view() == dms_lines(
            events.deep_view(),
            my_id@,
            sent,
            users.deep_view(),
            options@,
            clock@,
        ),
{
    if opt_bool(options, "csv") {
        let cells = |e: &Json| -> (r: Vec<String>)
            ensures
                r.deep_view() == dm_csv_row(
                    e@,
                    peer_name(e@, my_id@, sent, users.deep_view()),
                    options@,
                ),
        {
            let row: Vec<String> = vec![
                dm_event_id(e),
                dm_csv_time(e),
                name_of_peer(e, my_id, sent, users),
                dm_text(e, opt_bool(options, "decode_uris")),
            ];
            assert(row.deep_view() =~= dm_csv_row(
                e@,
                peer_name(e@, my_id@, sent, users.deep_view()),
                options@,
            ));
            row
        };
        let rows = map_list(
            events,
            cells,
            Ghost(
                |e: Data|
                    dm_csv_row(e, peer_name(e, my_id@, sent, users.deep_view()), options@),
            ),
        );
        print_csv_always(&tweet_titles(), &rows)
    } else if opt_bool(options, "long") {
        let cells = |e: &Json| -> (r: Vec<String>)
            ensures
                r.deep_view() == dm_long_row(
                    e@,
                    peer_name(e@, my_id@, sent, users.deep_view()),
                    options@,
                    clock@,
                ),
        {
            let row: Vec<String> = vec![
                dm_event_id(e),
                dm_ls_time(e, opt_bool(options, "relative_dates"), clock),
                cat2("@", name_of_peer(e, my_id, sent, users).as_str()),
                flatten_text(dm_text(e, opt_bool(options, "decode_uris")).as_str()),
            ];
            assert(row.deep_view() =~= dm_long_row(
                e@,
                peer_name(e@, my_id@, sent, users.deep_view()),
                options@,
                clock@,
            ));
            row
        };
        let rows = map_list(
            events,
            cells,
            Ghost(
                |e: Data|
                    dm_long_row(e, peer_name(e, my_id@, sent, users.deep_view()), options@, clock@),
            ),
        );
        print_table(&tweet_titles(), &rows)
    } else {
        let show = |e: &Json| -> (r: Vec<String>)
            ensures
                r.deep_view() == message_lines(
                    peer_name(e@, my_id@, sent, users.deep_view()),
                    dm_text_of(e@, options@.flag("decode_uris"@)),
                ),
        {
            print_message(
                name_of_peer(e, my_id, sent, users).as_str(),
                dm_text(e, opt_bool(options, "decode_uris")).as_str(),
            )
        };
        spread_list(
            events,
            show,
            Ghost(
                |e: Data|
                    message_lines(
                        peer_name(e, my_id@, sent, users.deep_view()),
                        dm_text_of(e, options@.flag("decode_uris"@)),
                    ),
            ),
        )
    }
}

pub open spec fn message_times_in(events: Seq<Data>) -> Seq<Instant> {
    collected(events, |e: Data| message_time(e))
}

fn collect_message_times(events: &Vec<Json>) -> (r: Vec<Instant>)
    ensures
        r@ == message_times_in(events.deep_view()),
{
    let f = |e: &Json| -> (r: Option<Instant>)
        ensures
            r == message_time(e@),
    {
        dm_time(e)
    };
    let r = collect_list(events, f, Ghost(|e: Data| message_time(e)));
    assert(r.deep_view() =~= r@);
    r
}

/// Shows the messages that the account received, or those that it sent.
pub open spec fn direct_messages(t: Talk, options: OptionsData, sent: bool) -> Step<()> {
    bind(
        dms_fetched(t, options.number_or("number"@, DEFAULT_NUM_RESULTS as nat)),
        |t: Talk, response: Data|
            bind(
                current_user(t, false),
                |t: Talk, me: Data|
                    {
                        let my_id = own_id(me);
                        let events = in_order(wanted_events(response, my_id, sent), options);
                        let users = dm_users_in(response);
                        bind(
                            users_completed(t, users, unknown_peers(events, my_id, sent, users)),
                            |t: Talk, known: Seq<(Seq<char>, Data)>|
                                bind(
                                    clock_for(t, wants_long(options), message_times_in(events)),
                                    |t: Talk, c: ClockData|
                                        done(
                                            say_all(
                                                t,
                                                dms_lines(events, my_id, sent, known, options, c),
                                            ),
                                            (),
                                        ),
                                ),
                        )
                    },
            ),
    )
}

pub fn handle_direct_messages(s: &mut Session, options: &Options, sent: bool) -> (r: Result<
    (),
    Stop,
>)
    ensures
        (final(s).talk(), unit(r)) == direct_messages(old(s).talk(), options@, sent),
{
    let number: usize = opt_usize_or(options, "number", DEFAULT_NUM_RESULTS);
    let response = fetch_direct_messages_response(s, number)?;
    let me = fetch_current_user(s)?;
    let my_id = words_in_value(me.get_either("id_str", "id"));
    let wanted = |e: &Json| -> (r: Option<Json>)
        ensures
            r.deep_view() == wanted_event(e@, my_id@, sent),
    {
        if same(dm_event_type(e).as_str(), "messagecreate") && same(
            dm_sender_id(e).as_str(),
            my_id.as_str(),
        ) == sent {
            Some(e.copy())
        } else {
            None
        }
    };
    let events = put_in_order(
        collect_list(
            &extract_dm_events(&response),
            wanted,
            Ghost(|e: Data| wanted_event(e, my_id@, sent)),
        ),
        options,
    );
    let users = extract_dm_users_by_id(&response);
    let unknown = |e: &Json| -> (r: Option<String>)
        ensures
            r.deep_view() == unknown_peer(e@, my_id@, sent, users.deep_view()),
    {
        let id = dm_peer_id(e, my_id.as_str(), sent);
        if !id.as_str().is_empty() && find_entry(&users, id.as_str()).is_none() {
            Some(id)
        } else {
            None
        }
    };
    let missing = ordered_set(
        &collect_list(
            &events,
            unknown,
            Ghost(|e: Data| unknown_peer(e, my_id@, sent, users.deep_view())),
        ),
    );
    let known = complete_users(s, users, &missing)?;
    let long = !opt_bool(options, "csv") && opt_bool(options, "long");
    let clock = read_clock_for(s, long, collect_message_times(&events))?;
    s.say_lines(print_direct_messages(&events, my_id.as_str(), sent, &known, options, &clock));
    Ok(())
}

/// The number of messages that is asked for is one that the API takes.
pub proof fn law_message_count_is_in_range(number: nat)
    ensures
        1 <= dm_count(number) <= 50,
        1 <= number <= 50 ==> dm_count(number) == number,
{
}

} // verus!
