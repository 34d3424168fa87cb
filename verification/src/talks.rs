//! What the commands that are left do: messages, streams, relations of several users, reach,
//! accounts and authorizing.

use vstd::prelude::*;

use crate::authorize::{
    access_token, account_saved, application_keys, authorize_query, authorized, exchange_request,
    form_field, is_filled, pin_asked, request_token, tokens_of, verified_name,
};
use crate::command::{local, performed_alone};
use crate::dialog::{changes, dialog, group_dialog, is_sound, lemma_dialog_starts};
use crate::encode::{basic_credentials, code_challenge};
use crate::extract::{ids_in, tweets_in};
use crate::fetch::{current_user, current_user_id, list_id_resolved, member_ids, relationship_ids};
use crate::findings::{comes_to, lemma_ordered_sets_agree, looked_up, with_code};
use crate::idset::{is_ordered_set, set_of};
use crate::invocation::InvocationData;
use crate::json::{get_in, lookup, or_empty, text_in, words_in, Data};
use crate::list::collected;
use crate::messages::{
    dm_text_of, dm_users_in, dms_fetched, events_in, peer_of, sender_of, unknown_peers,
    users_completed, wanted_events,
};
use crate::options::OptionsData;
use crate::params::{
    plain, retried, stream_params, tweet_params, with_body_retried, AuthScheme, V2_USER_FIELDS,
};
use crate::paths::{local_at, Local, Remote};
use crate::people::{audience_of, common_ids};
use crate::places::coordinates;
use crate::session::{
    ask_done, ask_named, ask_stream, ask_text, call, done, say, say_all, AskData, BookData,
    CredentialsData, ErrorData, FaultData, Method, SayingData, Step, StopData, StreamKind, Talk,
};
use crate::show::tweet_headings;
use crate::stream::{
    cleaned_up, delete_rules_body, filtered_streamed, new_rules, rule_ids_in, rule_values,
    rules_installed, stream_headings, stream_limit,
};
use crate::text::{joined, lowered, replaced, trimmed};
use crate::time::{full_time_or_none, message_time};
use crate::words::{bare_name, csv_line, delimited};

verus! {

// ---------------------------------------------------------------------------
// Messages
// ---------------------------------------------------------------------------

/// Whether an event is a message that somebody sent.
pub open spec fn is_message(event: Data) -> bool {
    match text_in(event.get_either("type"@, "event_type"@)) {
        Some(kind) => replaced(lowered(kind), "_"@, ""@) == "messagecreate"@,
        None => true,
    }
}

/// The messages that are sent are those of the account, those received all others, in their order.
pub proof fn law_messages_are_told_apart(response: Data, me: Seq<char>, sent: bool)
    ensures
        wanted_events(response, me, sent) == events_in(response).filter(
            |e: Data| is_message(e) && (sender_of(e) == me) == sent,
        ),
{
    lemma_wanted(events_in(response), me, sent);
}

proof fn lemma_wanted(events: Seq<Data>, me: Seq<char>, sent: bool)
    ensures
        collected(events, |e: Data| crate::messages::wanted_event(e, me, sent)) == events.filter(
            |e: Data| is_message(e) && (sender_of(e) == me) == sent,
        ),
    decreases events.len(),
{
    reveal(Seq::filter);
    if events.len() > 0 {
        lemma_wanted(events.drop_last(), me, sent);
    }
}

/// The other side of a message is who sent it, where it was received, and whom it went to, where
/// it was sent.
pub proof fn law_peer_is_the_other_side(event: Data, me: Seq<char>)
    ensures
        ({
            let old = event.get("message_create"@);
            let from = text_in(get_in(old, "sender_id"@));
            let to = text_in(get_in(get_in(old, "target"@), "recipient_id"@));
            &&& old is Some && from is Some ==> peer_of(event, me, false) == from->Some_0
            &&& old is Some && to is Some ==> peer_of(event, me, true) == to->Some_0
            &&& old is None && event.text_at("sender_id"@) is Some && event.text_at("sender_id"@)
                != Some(me) ==> peer_of(event, me, false) == event.text_at("sender_id"@)->Some_0
        }),
{
}

/// `direct_messages` lists the messages that the account received, `direct_messages_sent` those
/// that it sent: in CSV one row each behind the headings, with the identifier, the time, the name
/// of the other side and the text.
pub proof fn law_messages_are_listed(
    t: Talk,
    call: InvocationData,
    book: BookData,
    command: Remote,
    response: Data,
    me: Data,
    known: Seq<(Seq<char>, Data)>,
    events: Seq<Data>,
)
    requires
        command == Remote::DirectMessages || command == Remote::DirectMessagesSent,
        call.options.flag("csv"@),
        ({
            let sent = command == Remote::DirectMessagesSent;
            let fetched = dms_fetched(t, call.options.number_or("number"@, 20));
            let own = current_user(fetched.0, false);
            let id = words_in(me.get_either("id_str"@, "id"@));
            let kept = events_in(response).filter(
                |e: Data| is_message(e) && (sender_of(e) == id) == sent,
            );
            let users = dm_users_in(response);
            &&& comes_to(fetched, response)
            &&& comes_to(own, me)
            &&& events == if call.options.flag("reverse"@) {
                kept.reverse()
            } else {
                kept
            }
            &&& comes_to(
                users_completed(own.0, users, unknown_peers(events, id, sent, users)),
                known,
            )
        }),
    ensures
        ({
            let sent = command == Remote::DirectMessagesSent;
            let fetched = dms_fetched(t, call.options.number_or("number"@, 20));
            let own = current_user(fetched.0, false);
            let id = words_in(me.get_either("id_str"@, "id"@));
            let users = dm_users_in(response);
            let u = users_completed(own.0, users, unknown_peers(events, id, sent, users)).0;
            performed_alone(t, call, book, command) == done(
                say_all(
                    u,
                    seq![csv_line(tweet_headings())] + Seq::new(
                        events.len(),
                        |i: int|
                            csv_line(
                                seq![
                                    events[i].words_at("id"@),
                                    full_time_or_none(message_time(events[i])),
                                    name_known(known, peer_of(events[i], id, sent)),
                                    dm_text_of(events[i], call.options.flag("decode_uris"@)),
                                ],
                            ),
                    ),
                ),
                0i32,
            )
        }),
{
    let sent = command == Remote::DirectMessagesSent;
    let id = words_in(me.get_either("id_str"@, "id"@));
    law_messages_are_told_apart(response, id, sent);
    let clock = crate::time::ClockData {
        now: crate::time::Instant { secs: 0, nanos: 0 },
        zone: Seq::empty(),
    };
    let rows = Seq::new(
        events.len(),
        |i: int|
            csv_line(
                seq![
                    events[i].words_at("id"@),
                    full_time_or_none(message_time(events[i])),
                    name_known(known, peer_of(events[i], id, sent)),
                    dm_text_of(events[i], call.options.flag("decode_uris"@)),
                ],
            ),
    );
    assert(crate::messages::dms_lines(events, id, sent, known, call.options, clock) =~= seq![
        csv_line(tweet_headings()),
    ] + rows);
}

/// The name of a user among those that are known.
pub open spec fn name_known(users: Seq<(Seq<char>, Data)>, id: Seq<char>) -> Seq<char> {
    match lookup(users, id) {
        Some(user) => or_empty(text_in(user.get_either("screen_name"@, "username"@))),
        None => Seq::empty(),
    }
}

// ---------------------------------------------------------------------------
// Streams
// ---------------------------------------------------------------------------

/// A stream that was opened and came to its end.
pub open spec fn streamed_to_the_end(step: Step<Result<(), FaultData>>) -> Step<()> {
    match step.1 {
        Ok(Ok(u)) => (step.0, Ok(())),
        Ok(Err(e)) => (step.0, Err(StopData::Fail(ErrorData::Backend(e)))),
        Err(stop) => (step.0, Err(stop)),
    }
}

/// `stream all` opens the stream of sample tweets, `stream search` that of the tweets that rules
/// for its terms find, and `matrix` that for Japanese text; all with the bearer token. The rules
/// are removed behind the stream.
pub proof fn law_streams_are_opened(
    t: Talk,
    call: InvocationData,
    book: BookData,
    limit: Option<nat>,
    ids: Seq<Seq<char>>,
)
    ensures
        ({
            let auth = AuthScheme::OAuth2Bearer;
            let search = "/2/tweets/search/stream"@;
            let open = say_all(t, stream_headings(call.options));
            let all = stream_limit(open);
            let ruled = rules_installed(t, call.args);
            let found = stream_limit(say_all(ruled.0, stream_headings(call.options)));
            let kana = rules_installed(t, seq!["の lang:ja"@]);
            let kana_limit = stream_limit(kana.0);
            let tweets = StreamKind::Tweets;
            let params = stream_params();
            let matrix = StreamKind::Matrix;
            let text = seq![("tweet.fields"@, "text"@)];
            &&& comes_to(all, limit) ==> performed_alone(t, call, book, Remote::StreamAll)
                == with_code(
                streamed_to_the_end(
                    ask_stream(
                        all.0,
                        AskData::Stream {
                            kind: tweets,
                            path: "/2/tweets/sample/stream"@,
                            params,
                            auth,
                            limit,
                        },
                    ),
                ),
                0,
            )
            &&& call.args.len() >= 1 && comes_to(ruled, ids) && comes_to(found, limit)
                ==> performed_alone(t, call, book, Remote::StreamSearch) == with_code(
                cleaned_up(
                    streamed_to_the_end(
                        ask_stream(
                            found.0,
                            AskData::Stream { kind: tweets, path: search, params, auth, limit },
                        ),
                    ),
                    ids,
                ),
                0,
            )
            &&& comes_to(kana, ids) && comes_to(kana_limit, limit) ==> performed_alone(
                t,
                call,
                book,
                Remote::Matrix,
            ) == with_code(
                cleaned_up(
                    streamed_to_the_end(
                        ask_stream(
                            kana_limit.0,
                            AskData::Stream {
                                kind: matrix,
                                path: search,
                                params: text,
                                auth,
                                limit,
                            },
                        ),
                    ),
                    ids,
                ),
                0,
            )
        }),
{
}

/// The search terms for the tweets of users.
pub open spec fn terms_from(ids: Seq<Seq<char>>) -> Seq<Seq<char>> {
    Seq::new(ids.len(), |i: int| "from:"@ + ids[i])
}

/// `stream users` streams the tweets of the users named, `stream timeline` those of the users that
/// the account follows, and `stream list` those of the members of the list.
pub proof fn law_streams_are_of_their_users(
    t: Talk,
    call: InvocationData,
    book: BookData,
    id: Seq<char>,
    ids: Seq<Seq<char>>,
)
    ensures
        ({
            let own = current_user_id(t, false);
            let followed = relationship_ids(own.0, id, "following"@);
            let list = list_id_resolved(t, call.args[0], call.by_id(), book.active_name());
            let members = member_ids(list.0, id);
            let named = Seq::new(call.args.len(), |i: int| trimmed(call.args[i]));
            &&& call.args.len() >= 1 ==> performed_alone(t, call, book, Remote::StreamUsers)
                == with_code(filtered_streamed(t, terms_from(named), call.options), 0)
            &&& comes_to(own, id) && comes_to(followed, ids) && ids.len() > 0 ==> performed_alone(
                t,
                call,
                book,
                Remote::StreamTimeline,
            ) == with_code(filtered_streamed(followed.0, terms_from(ids), call.options), 0)
            &&& call.args.len() >= 1 && comes_to(list, id) && comes_to(members, ids) && ids.len()
                > 0 ==> performed_alone(t, call, book, Remote::StreamList) == with_code(
                filtered_streamed(members.0, terms_from(ids), call.options),
                0,
            )
        }),
{
    let named = Seq::new(call.args.len(), |i: int| trimmed(call.args[i]));
    assert(crate::act::ids_of(call.args) =~= named);
    assert(crate::streaming::tweets_from(named) =~= terms_from(named));
    assert(crate::streaming::tweets_from(ids) =~= terms_from(ids));
}

/// Rules are installed in place of those that are there: the old ones are deleted, by the
/// identifiers that the API gave, and then the ones for the terms are added.
pub proof fn law_rules_take_the_place_of_others(
    t: Talk,
    terms: Seq<Seq<char>>,
    answer: Data,
)
    requires
        is_sound(t),
        rules_installed(t, terms).1 is Ok,
        comes_to(
            call(t, retried(Method::GetOauth2, "/2/tweets/search/stream/rules"@, Seq::empty())),
            answer,
        ),
        rule_values(terms).len() > 0,
    ensures
        ({
            let made = changes(dialog(t, rules_installed(t, terms).0));
            let old = rule_ids_in(answer);
            let path = "/2/tweets/search/stream/rules"@;
            &&& made.len() == if old.len() > 0 {
                2nat
            } else {
                1nat
            }
            &&& old.len() > 0 ==> made[0] == with_body_retried(
                Method::PostBodyOauth2,
                path,
                delete_rules_body(old),
            )
            &&& exists|now: u64|
                made.last() == with_body_retried(
                    Method::PostBodyOauth2,
                    path,
                    Data::Object(
                        seq![
                            (
                                "add"@,
                                Data::Array(#[trigger] new_rules(rule_values(terms), now as nat)),
                            ),
                        ],
                    ),
                )
        }),
{
    broadcast use group_dialog;
    lemma_dialog_starts(t);
    let cleared = crate::stream::rules_cleared(t);
    assert(cleared.1 is Ok);
    let now = crate::session::ask_millis(cleared.0).1->Ok_0;
    let made = changes(dialog(t, rules_installed(t, terms).0));
    assert(made.last() == with_body_retried(
        Method::PostBodyOauth2,
        "/2/tweets/search/stream/rules"@,
        Data::Object(
            seq![("add"@, Data::Array(new_rules(rule_values(terms), now as nat)))],
        ),
    ));
}

// ---------------------------------------------------------------------------
// Several users
// ---------------------------------------------------------------------------

/// Whether the relations of the users are known, one after the other: `talks` are the talks
/// before and behind each of them.
pub open spec fn are_known(
    users: Seq<Seq<char>>,
    relationship: Seq<char>,
    talks: Seq<Talk>,
    sets: Seq<Seq<Seq<char>>>,
) -> bool {
    &&& sets.len() == users.len()
    &&& talks.len() == users.len() + 1
    &&& forall|i: int|
        0 <= i < users.len() ==> relationship_ids(talks[i], #[trigger] users[i], relationship)
            == done(talks[i + 1], sets[i])
}

proof fn lemma_known_behind(
    users: Seq<Seq<char>>,
    relationship: Seq<char>,
    talks: Seq<Talk>,
    sets: Seq<Seq<Seq<char>>>,
)
    requires
        are_known(users, relationship, talks, sets),
        users.len() > 0,
    ensures
        are_known(users.drop_first(), relationship, talks.drop_first(), sets.drop_first()),
{
    let rest = users.drop_first();
    assert forall|i: int| 0 <= i < rest.len() implies relationship_ids(
        talks.drop_first()[i],
        #[trigger] rest[i],
        relationship,
    ) == done(talks.drop_first()[i + 1], sets.drop_first()[i]) by {
        assert(rest[i] == users[i + 1]);
    }
}

/// Whether all the sets hold a text.
pub open spec fn in_all(sets: Seq<Seq<Seq<char>>>, x: Seq<char>) -> bool {
    forall|i: int| 0 <= i < sets.len() ==> (#[trigger] sets[i]).contains(x)
}

proof fn lemma_common(
    users: Seq<Seq<char>>,
    relationship: Seq<char>,
    talks: Seq<Talk>,
    sets: Seq<Seq<Seq<char>>>,
    common: Option<Seq<Seq<char>>>,
)
    requires
        are_known(users, relationship, talks, sets),
        common matches Some(set) ==> is_ordered_set(set),
        common is Some || users.len() > 0,
    ensures
        ({
            let step = common_ids(talks[0], users, relationship, common);
            &&& step.0 == talks.last()
            &&& step.1 is Ok
            &&& is_ordered_set(step.1->Ok_0)
            &&& forall|x: Seq<char>| #[trigger]
                step.1->Ok_0.contains(x) <==> in_all(sets, x) && (common is Some
                    ==> common->Some_0.contains(x))
        }),
    decreases users.len(),
{
    if users.len() > 0 {
        assert(relationship_ids(talks[0], users[0], relationship) == done(talks[1], sets[0]));
        crate::idset::law_set_holds_each_text_once(sets[0]);
        let own = set_of(sets[0]);
        let next = match common {
            Some(set) => crate::idset::intersection_of(set, own),
            None => own,
        };
        if let Some(set) = common {
            crate::idset::law_intersection_and_difference(set, own);
        }
        lemma_known_behind(users, relationship, talks, sets);
        let rest = sets.drop_first();
        lemma_common(users.drop_first(), relationship, talks.drop_first(), rest, Some(next));
        let found = common_ids(talks[0], users, relationship, common).1->Ok_0;
        assert forall|x: Seq<char>| #[trigger] found.contains(x) <==> in_all(sets, x) && (
        common is Some ==> common->Some_0.contains(x)) by {
            assert(own.contains(x) <==> sets[0].contains(x));
            assert(next.contains(x) <==> sets[0].contains(x) && (common is Some
                ==> common->Some_0.contains(x)));
            if in_all(sets, x) {
                assert forall|i: int| 0 <= i < rest.len() implies (#[trigger] rest[i]).contains(
                    x,
                ) by {
                    assert(rest[i] == sets[i + 1]);
                }
            }
            if in_all(rest, x) && sets[0].contains(x) {
                assert forall|i: int| 0 <= i < sets.len() implies (#[trigger] sets[i]).contains(
                    x,
                ) by {
                    if i > 0 {
                        assert(sets[i] == rest[i - 1]);
                    }
                }
            }
        }
    }
}

/// `intersection` shows those that all the users named follow, or that follow all of them where
/// `--type followers` is given; each once, in ascending order of their identifiers. Where a single
/// user is named, the account is the second.
pub proof fn law_intersection_is_shown(
    t: Talk,
    call: InvocationData,
    book: BookData,
    users: Seq<Seq<char>>,
    talks: Seq<Talk>,
    sets: Seq<Seq<Seq<char>>>,
    shown: Seq<Seq<char>>,
)
    requires
        call.args.len() >= 1,
        users.len() > 0,
        ({
            let named = crate::people::all_resolved(t, call.args, call.by_id(), Seq::empty());
            let all = crate::people::with_active(
                named.0,
                named.1->Ok_0,
                book.active_name(),
            );
            &&& named.1 is Ok
            &&& comes_to(all, users)
            &&& talks.len() > 0
            &&& talks[0] == all.0
        }),
        are_known(
            users,
            if call.options.text("type"@) == Some("followers"@) {
                "followers"@
            } else {
                "following"@
            },
            talks,
            sets,
        ),
        is_ordered_set(shown),
        forall|x: Seq<char>| #[trigger] shown.contains(x) <==> in_all(sets, x),
    ensures
        performed_alone(t, call, book, Remote::Intersection) == looked_up(
            talks.last(),
            shown,
            call,
        ),
{
    reveal_strlit("followers");
    reveal_strlit("followings");
    let relationship = if call.options.text("type"@) == Some("followers"@) {
        "followers"@
    } else {
        "following"@
    };
    assert("followings"@.len() != "followers"@.len());
    lemma_common(users, relationship, talks, sets, None);
    let found = common_ids(talks[0], users, relationship, None).1->Ok_0;
    lemma_ordered_sets_agree(found, shown);
}

/// The audience of users is the followers of all of them.
pub proof fn law_audience_is_all_followers(
    users: Seq<Seq<char>>,
    talks: Seq<Talk>,
    sets: Seq<Seq<Seq<char>>>,
    audience: Seq<Seq<char>>,
    x: Seq<char>,
)
    requires
        are_known(users, "followers"@, talks, sets),
    ensures
        ({
            let step = audience_of(talks[0], users, audience);
            &&& step.0 == talks.last()
            &&& step.1 is Ok
            &&& step.1->Ok_0.contains(x) <==> audience.contains(x) || exists|i: int|
                0 <= i < sets.len() && (#[trigger] sets[i]).contains(x)
        }),
    decreases users.len(),
{
    if users.len() > 0 {
        assert(relationship_ids(talks[0], users[0], "followers"@) == done(talks[1], sets[0]));
        lemma_known_behind(users, "followers"@, talks, sets);
        let rest = sets.drop_first();
        let more = audience + sets[0];
        law_audience_is_all_followers(users.drop_first(), talks.drop_first(), rest, more, x);
        assert(more.contains(x) <==> audience.contains(x) || sets[0].contains(x)) by {
            if audience.contains(x) {
                let i = choose|i: int| 0 <= i < audience.len() && audience[i] == x;
                assert(more[i] == x);
            }
            if sets[0].contains(x) {
                let i = choose|i: int| 0 <= i < sets[0].len() && sets[0][i] == x;
                assert(more[audience.len() + i] == x);
            }
        }
        if exists|i: int| 0 <= i < rest.len() && (#[trigger] rest[i]).contains(x) {
            let i = choose|i: int| 0 <= i < rest.len() && (#[trigger] rest[i]).contains(x);
            assert(sets[i + 1].contains(x));
        }
        if exists|i: int| 0 <= i < sets.len() && (#[trigger] sets[i]).contains(x) {
            let i = choose|i: int| 0 <= i < sets.len() && (#[trigger] sets[i]).contains(x);
            if i > 0 {
                assert(rest[i - 1].contains(x));
            }
        }
    }
}

/// What a tweet reaches is the number of different users in the audience, its author aside.
pub proof fn law_reach_counts_the_audience(audience: Seq<Seq<char>>, author: Seq<char>)
    ensures
        crate::people::reached(audience, author) == audience.to_set().remove(author).len(),
{
    let set = set_of(audience);
    let others = seq![author];
    let kept = crate::idset::difference_of(set, others);
    crate::idset::law_set_holds_each_text_once(audience);
    crate::idset::law_intersection_and_difference(set, others);
    assert forall|i: int, j: int| 0 <= i < kept.len() && 0 <= j < kept.len() && i != j implies
        kept[i] != kept[j] by {
        if i < j {
            assert(crate::idset::text_le(kept[i], kept[j]));
        } else {
            assert(crate::idset::text_le(kept[j], kept[i]));
        }
    }
    assert(kept.no_duplicates());
    kept.unique_seq_to_set();
    assert forall|x: Seq<char>| #[trigger] kept.to_set().contains(x) <==> audience.to_set().remove(
        author,
    ).contains(x) by {
        assert(others.contains(x) <==> x == author) by {
            assert(others[0] == author);
        }
        assert(set.contains(x) <==> audience.contains(x));
        assert(kept.contains(x) <==> set.contains(x) && !others.contains(x));
    }
    assert(kept.to_set() =~= audience.to_set().remove(author));
}

/// `reach` says the number of users that the tweet named reaches: the followers of its author and
/// of those that repeated it, each once and without the author.
pub proof fn law_reach_is_told(
    t: Talk,
    call: InvocationData,
    book: BookData,
    answer: Data,
    repeats: Data,
    author: Seq<char>,
    users: Seq<Seq<char>>,
    audience: Seq<Seq<char>>,
)
    requires
        call.args.len() >= 1,
        is_ordered_set(users),
        forall|x: Seq<char>| #[trigger]
            users.contains(x) <==> x == author || ids_in(repeats).contains(x),
        ({
            let fields = seq![("expansions"@, "author_id"@), ("user.fields"@, V2_USER_FIELDS@)];
            let tweet = crate::session::call(
                t,
                plain(Method::Get, "/2/tweets/"@ + call.args[0], tweet_params() + fields),
            );
            let repeated = crate::session::call(
                tweet.0,
                plain(
                    Method::GetOauth2,
                    "/2/tweets/"@ + call.args[0] + "/retweeted_by"@,
                    seq![("max_results"@, "100"@)],
                ),
            );
            &&& comes_to(tweet, answer)
            &&& comes_to(repeated, repeats)
            &&& tweets_in(answer).len() > 0
            &&& get_in(Some(tweets_in(answer)[0]), "user"@) matches Some(user) && user.id()
                == Some(author)
            &&& comes_to(audience_of(repeated.0, users, Seq::empty()), audience)
        }),
    ensures
        ({
            let step = performed_alone(t, call, book, Remote::Reach);
            &&& step.1 == Ok::<i32, StopData>(0)
            &&& step.0.said.len() > 0
            &&& step.0.said.last() == SayingData::Out(
                delimited(audience.to_set().remove(author).len() as int, ','),
            )
        }),
{
    law_reach_counts_the_audience(audience, author);
    let repeating = set_of(ids_in(repeats));
    let found = crate::idset::set_with(repeating, author);
    crate::idset::law_set_holds_each_text_once(ids_in(repeats));
    crate::idset::lemma_set_with(repeating, author);
    assert forall|x: Seq<char>| #[trigger] found.contains(x) <==> users.contains(x) by {
        assert(repeating.contains(x) <==> ids_in(repeats).contains(x));
    }
    lemma_ordered_sets_agree(found, users);
}

// ---------------------------------------------------------------------------
// Accounts, addresses and trends
// ---------------------------------------------------------------------------

/// `set active` makes the account that is named active, with the key behind it where one is given,
/// and says so; `delete account` deletes it, or that key of it; `version` says the version.
pub proof fn law_accounts_are_set_and_deleted(
    t: Talk,
    call: InvocationData,
    version: Seq<char>,
    name: Seq<char>,
)
    ensures
        ({
            let key = if call.args.len() > 1 {
                Some(call.args[1])
            } else {
                None
            };
            let set = ask_named(t, AskData::SetActive { user: call.args[0], key });
            let deleted = ask_done(t, AskData::DeleteAccount { user: call.args[0], key });
            &&& local_at(call.path) == Local::Version ==> local(t, call, version) == done(
                say(t, version),
                Some(0i32),
            )
            &&& local_at(call.path) == Local::SetActive && call.args.len() >= 1 && comes_to(
                set,
                name,
            ) ==> local(t, call, version) == done(
                say(set.0, "Active account has been updated to "@ + name + "."@),
                Some(0i32),
            )
            &&& local_at(call.path) == Local::DeleteAccount && call.args.len() >= 1 && comes_to(
                deleted,
                (),
            ) ==> local(t, call, version) == done(deleted.0, Some(0i32))
            &&& local_at(call.path) == Local::Other ==> local(t, call, version) == done(
                t,
                None::<i32>,
            )
        }),
{
}

/// `open` says the address of the user that is named, by name or by identifier, or of the tweet
/// where `--status` is given.
pub proof fn law_addresses_are_told(t: Talk, call: InvocationData, book: BookData)
    requires
        call.args.len() >= 1,
    ensures
        performed_alone(t, call, book, Remote::Open) == done(
            say(
                t,
                if call.options.flag("status"@) {
                    "https://twitter.com/i/web/status/"@ + call.args[0]
                } else if call.by_id() {
                    "https://twitter.com/i/user/"@ + call.args[0]
                } else {
                    "https://twitter.com/"@ + bare_name(call.args[0])
                },
            ),
            0i32,
        ),
{
}

/// `trends` asks for the trends of the place that is named, of the whole world where none is.
pub proof fn law_trends_are_of_the_place(
    t: Talk,
    call: InvocationData,
    book: BookData,
    answer: Data,
    trends: Seq<Data>,
)
    requires
        !call.options.flag("exclude-hashtags"@),
        comes_to(
            crate::session::call(
                t,
                plain(
                    Method::GetOauth2,
                    "/2/trends/by/woeid/"@ + (if call.args.len() > 0 {
                        call.args[0]
                    } else {
                        "1"@
                    }),
                    seq![("max_trends"@, "50"@)],
                ),
            ),
            answer,
        ),
        answer.array_at("data"@) == Some(trends),
        forall|k: int|
            0 <= k < trends.len() ==> (#[trigger] trends[k]).text_at("trend_name"@) is Some,
    ensures
        ({
            let step = performed_alone(t, call, book, Remote::Trends);
            &&& step.1 == Ok::<i32, StopData>(0)
            &&& step.0.said == Seq::new(
                trends.len(),
                |i: int| SayingData::Out(trends[i].text_at("trend_name"@)->Some_0),
            )
        }),
{
    lemma_trend_names(trends);
    let names = Seq::new(trends.len(), |i: int| trends[i].text_at("trend_name"@)->Some_0);
    let step = performed_alone(t, call, book, Remote::Trends);
    assert(step.0.said =~= Seq::new(
        trends.len(),
        |i: int| SayingData::Out(trends[i].text_at("trend_name"@)->Some_0),
    ));
}

proof fn lemma_trend_names(trends: Seq<Data>)
    requires
        forall|k: int|
            0 <= k < trends.len() ==> (#[trigger] trends[k]).text_at("trend_name"@) is Some,
    ensures
        collected(trends, |x: Data| crate::places::trend_name(x, false)) == Seq::new(
            trends.len(),
            |i: int| trends[i].text_at("trend_name"@)->Some_0,
        ),
    decreases trends.len(),
{
    let f = |x: Data| crate::places::trend_name(x, false);
    let names = Seq::new(trends.len(), |i: int| trends[i].text_at("trend_name"@)->Some_0);
    if trends.len() > 0 {
        let front = trends.drop_last();
        assert(trends[trends.len() - 1].text_at("trend_name"@) is Some);
        assert forall|k: int| 0 <= k < front.len() implies (#[trigger] front[k]).text_at(
            "trend_name"@,
        ) is Some by {
            assert(front[k] == trends[k]);
        }
        lemma_trend_names(front);
        assert(collected(trends, f) =~= names);
    } else {
        assert(collected(trends, f) =~= names);
    }
}

/// `place` asks for the place that is named; `nearby_places` asks for what is near, and `places`
/// for what its first argument finds there: the latitude and the longitude are those of the
/// coordinates, in that order.
pub proof fn law_places_are_asked_for(
    t: Talk,
    call: InvocationData,
    book: BookData,
    lat: Seq<char>,
    lng: Seq<char>,
    answer: Data,
)
    ensures
        ({
            let one = crate::session::call(
                t,
                plain(Method::Get, "/1.1/geo/id/"@ + call.args[0] + ".json"@, Seq::empty()),
            );
            let here = coordinates(t, call.args);
            let near = crate::session::call(
                here.0,
                plain(
                    Method::Get,
                    "/1.1/geo/reverse_geocode.json"@,
                    seq![("lat"@, lat), ("long"@, lng)],
                ),
            );
            let there = coordinates(t, call.args.skip(1));
            let found = crate::session::call(
                there.0,
                plain(
                    Method::Get,
                    "/1.1/geo/search.json"@,
                    seq![("query"@, call.args[0]), ("lat"@, lat), ("long"@, lng)],
                ),
            );
            &&& call.args.len() >= 1 && comes_to(one, answer) ==> performed_alone(
                t,
                call,
                book,
                Remote::Place,
            ) == done(
                say_all(one.0, crate::places::place_lines(answer, call.options)),
                0i32,
            )
            &&& comes_to(here, (lat, lng)) && comes_to(near, answer) ==> performed_alone(
                t,
                call,
                book,
                Remote::NearbyPlaces,
            ) == done(
                crate::places::found_places_said(near.0, answer, call.options),
                0i32,
            )
            &&& call.args.len() >= 1 && comes_to(there, (lat, lng)) && comes_to(found, answer)
                ==> performed_alone(t, call, book, Remote::Places) == done(
                crate::places::found_places_said(found.0, answer, call.options),
                0i32,
            )
        }),
{
}

/// Coordinates that are given stand for themselves: the first number is the latitude, the second
/// the longitude.
pub proof fn law_coordinates_are_read(
    t: Talk,
    left: Seq<char>,
    right: Seq<char>,
    lat: Seq<char>,
    lng: Seq<char>,
    arg: Seq<char>,
)
    requires
        crate::text::split_at_first(arg, ',') == Some((left, right)),
        ({
            let one = ask_text(t, AskData::Decimal(trimmed(left)));
            &&& comes_to(one, Some(lat))
            &&& comes_to(ask_text(one.0, AskData::Decimal(trimmed(right))), Some(lng))
        }),
    ensures
        comes_to(coordinates(t, seq![arg]), (lat, lng)),
{
    assert(joined(seq![arg], " "@) == arg);
}

// ---------------------------------------------------------------------------
// Authorizing
// ---------------------------------------------------------------------------

/// `authorize` stores the account with the application's key and secret and with the access token
/// and its secret, each in its place, under the name that the API gives.
pub proof fn law_authorize_stores_the_tokens(
    t: Talk,
    key: Seq<char>,
    secret: Seq<char>,
    access: (Seq<char>, Seq<char>, Option<Seq<char>>),
    name: Seq<char>,
)
    requires
        comes_to(verified_name(t, key, secret, (access.0, access.1)), Some(name)),
    ensures
        ({
            let stored = ask_done(
                verified_name(t, key, secret, (access.0, access.1)).0,
                AskData::SaveProfile {
                    name,
                    storage_key: key,
                    credentials: CredentialsData {
                        username: name,
                        consumer_key: key,
                        consumer_secret: secret,
                        token: access.0,
                        secret: access.1,
                        bearer_token: None,
                        oauth2_user: None,
                    },
                },
            );
            comes_to(stored, ()) ==> account_saved(t, key, secret, access) == done(
                say(stored.0, "Authorization successful."@),
                (),
            )
        }),
{
}

/// Authorizing goes from the application's keys to a request token, from there to the code that
/// the user enters, and from all of them to the access token that is stored.
pub proof fn law_authorize_exchanges_the_code(
    t: Talk,
    options: OptionsData,
    book: BookData,
    app: (Seq<char>, Seq<char>),
    token: (Seq<char>, Seq<char>),
    pin: Seq<char>,
    access: (Seq<char>, Seq<char>, Option<Seq<char>>),
)
    requires
        !options.flag("oauth2"@),
        ({
            let display = options.flag("display-uri"@);
            let one = application_keys(t, book.profiles.len() == 0, display);
            let two = request_token(one.0, app.0, app.1);
            let three = pin_asked(two.0, token.0, display);
            &&& comes_to(one, app)
            &&& comes_to(two, token)
            &&& comes_to(three, pin)
            &&& comes_to(access_token(three.0, app.0, app.1, token, pin), access)
        }),
    ensures
        ({
            let display = options.flag("display-uri"@);
            let one = application_keys(t, book.profiles.len() == 0, display);
            let two = request_token(one.0, app.0, app.1);
            let three = pin_asked(two.0, token.0, display);
            let four = access_token(three.0, app.0, app.1, token, pin);
            authorized(t, options, book) == account_saved(four.0, app.0, app.1, access)
        }),
{
}

/// The tokens in an answer are the fields of their names.
pub proof fn law_tokens_are_read_by_name(
    pairs: Seq<(Seq<char>, Seq<char>)>,
    answer: Seq<char>,
    token: Seq<char>,
    secret: Seq<char>,
)
    requires
        form_field(pairs, "oauth_token"@) == Some(token),
        form_field(pairs, "oauth_token_secret"@) == Some(secret),
    ensures
        tokens_of(pairs, answer) matches Ok(found) && found.0 == token && found.1 == secret
            && found.2 == form_field(pairs, "screen_name"@),
{
}

/// A code is exchanged together with what it was asked for with; the client shows itself by its
/// secret where it has one, else by its identifier.
pub proof fn law_code_is_exchanged_with_its_verifier(
    id: Seq<char>,
    secret: Option<Seq<char>>,
    redirect: Seq<char>,
    code: Seq<char>,
    verifier: Seq<char>,
)
    ensures
        exchange_request(id, secret, redirect, code, verifier) matches AskData::Http {
            url,
            authorization,
            form,
        } && {
            &&& url == "https://api.x.com/2/oauth2/token"@
            &&& form matches Some(fields) && {
                &&& fields.contains(("code"@, code))
                &&& fields.contains(("grant_type"@, "authorization_code"@))
                &&& fields.contains(("redirect_uri"@, redirect))
                &&& fields.contains(("code_verifier"@, verifier))
                &&& authorization is None ==> fields.contains(("client_id"@, id))
            }
            &&& secret is Some && is_filled(secret->Some_0) ==> authorization == Some(
                basic_credentials(id, secret->Some_0),
            )
            &&& secret is None ==> authorization is None
        },
{
    let form = crate::authorize::exchange_form(id, secret, redirect, code, verifier);
    assert(form[0] == ("code"@, code));
    assert(form[1] == ("grant_type"@, "authorization_code"@));
    assert(form[2] == ("redirect_uri"@, redirect));
    assert(form[3] == ("code_verifier"@, verifier));
    if form.len() > 4 {
        assert(form[4] == ("client_id"@, id));
    }
}

/// The address that asks for a code names the client, where to go back to, the state, and the
/// challenge that goes with the verifier, never the verifier itself.
pub proof fn law_code_is_asked_for_with_the_challenge(
    id: Seq<char>,
    redirect: Seq<char>,
    scopes: Seq<Seq<char>>,
    state: Seq<char>,
    verifier: Seq<char>,
)
    ensures
        ({
            let query = authorize_query(id, redirect, scopes, state, verifier);
            &&& query.contains(("response_type"@, "code"@))
            &&& query.contains(("client_id"@, id))
            &&& query.contains(("redirect_uri"@, redirect))
            &&& query.contains(("scope"@, joined(scopes, " "@)))
            &&& query.contains(("state"@, state))
            &&& query.contains(("code_challenge"@, code_challenge(verifier)))
            &&& query.contains(("code_challenge_method"@, "S256"@))
            &&& query.len() == 7
        }),
{
    let query = authorize_query(id, redirect, scopes, state, verifier);
    assert(query[0].0 == "response_type"@);
    assert(query[1].0 == "client_id"@);
    assert(query[2].0 == "redirect_uri"@);
    assert(query[3].0 == "scope"@);
    assert(query[4].0 == "state"@);
    assert(query[5].0 == "code_challenge"@);
    assert(query[6].0 == "code_challenge_method"@);
}

} // verus!
