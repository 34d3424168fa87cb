//! Showing results in a talk, with the clock read where times are shown.

use vstd::prelude::*;

use crate::json::{Data, Json};
use crate::list::{collect_list, collected, move_in};
use crate::options::{opt_bool, Options, OptionsData};
use crate::session::{
    ask_clock, bind, done, fail, say_all, say_json, timed, unit, CommandError, ErrorData, Session,
    Step, Stop, Talk,
};
use crate::show::{
    last_status, list_info_lines, lists_lines, print_list_information, print_lists, print_status,
    print_tweets, print_users, print_whois, status_lines, tweets_lines, users_lines, whois_lines,
};
use crate::text::{join, joined};
use crate::time::{created, created_time, Clock, ClockData, Instant};

verus! {

/// Fails where fewer arguments than expected were given.
pub open spec fn need_args(
    t: Talk,
    path: Seq<Seq<char>>,
    args: Seq<Seq<char>>,
    expected: nat,
) -> Step<()> {
    if args.len() >= expected {
        done(t, ())
    } else {
        fail(t, ErrorData::MissingArguments { command: joined(path, " "@), expected })
    }
}

pub fn ensure_min_args(path: &Vec<String>, args: &Vec<String>, expected: usize) -> (r: Result<
    (),
    Stop,
>)
    ensures
        forall|t: Talk| #[trigger]
            need_args(t, path.deep_view(), args.deep_view(), expected as nat) == (t, unit(r)),
        r is Ok ==> args@.len() >= expected,
{
    assert(args.deep_view().len() == args@.len());
    if args.len() >= expected {
        return Ok(());
    }
    Err(Stop::Fail(CommandError::MissingArguments { command: join(path, " "), expected }))
}

/// The clock, read for the instants where it is wanted.
pub open spec fn clock_for(t: Talk, wanted: bool, instants: Seq<Instant>) -> Step<ClockData> {
    if wanted {
        ask_clock(t, instants)
    } else {
        done(t, ClockData { now: Instant { secs: 0, nanos: 0 }, zone: Seq::empty() })
    }
}

pub fn read_clock_for(s: &mut Session, wanted: bool, instants: Vec<Instant>) -> (r: Result<
    Clock,
    Stop,
>)
    ensures
        (final(s).talk(), timed(r)) == clock_for(old(s).talk(), wanted, instants@),
{
    if wanted {
        s.clock(instants)
    } else {
        let zone: Vec<(Instant, i32)> = Vec::new();
        assert(zone@ =~= Seq::empty());
        Ok(Clock { now: Instant { secs: 0, nanos: 0 }, zone })
    }
}

pub open spec fn times_in(values: Seq<Data>) -> Seq<Instant> {
    collected(values, |d: Data| created(d))
}

pub fn collect_times(values: &Vec<Json>) -> (r: Vec<Instant>)
    ensures
        r@ == times_in(values.deep_view()),
{
    let f = |d: &Json| -> (r: Option<Instant>)
        ensures
            r == created(d@),
    {
        created_time(d)
    };
    let r = collect_list(values, f, Ghost(|d: Data| created(d)));
    assert(r.deep_view() =~= r@);
    r
}

pub open spec fn user_times_in(users: Seq<Data>) -> Seq<Instant> {
    times_in(users) + collected(users, |u: Data| created(last_status(u)))
}

pub fn collect_user_times(users: &Vec<Json>) -> (r: Vec<Instant>)
    ensures
        r@ == user_times_in(users.deep_view()),
{
    let mut times = collect_times(users);
    let f = |u: &Json| -> (r: Option<Instant>)
        ensures
            r == created(last_status(u@)),
    {
        match u.get("status") {
            Some(status) => created_time(status),
            None => None,
        }
    };
    let last = collect_list(users, f, Ghost(|u: Data| created(last_status(u))));
    assert(last.deep_view() =~= last@);
    assert(times.deep_view() =~= times@);
    move_in(&mut times, last);
    assert(times.deep_view() =~= times@);
    times
}

pub open spec fn wants_long(options: OptionsData) -> bool {
    !options.flag("csv"@) && options.flag("long"@)
}

fn asks_long(options: &Options) -> (r: bool)
    ensures
        r == wants_long(options@),
{
    !opt_bool(options, "csv") && opt_bool(options, "long")
}

pub open spec fn tweets_shown(t: Talk, tweets: Seq<Data>, options: OptionsData) -> Step<()> {
    bind(
        clock_for(t, wants_long(options), times_in(tweets)),
        |t: Talk, c: ClockData| done(say_all(t, tweets_lines(tweets, options, c)), ()),
    )
}

pub fn show_tweets(s: &mut Session, tweets: &Vec<Json>, options: &Options) -> (r: Result<(), Stop>)
    ensures
        (final(s).talk(), unit(r)) == tweets_shown(old(s).talk(), tweets.deep_view(), options@),
{
    let clock = read_clock_for(s, asks_long(options), collect_times(tweets))?;
    s.say_lines(print_tweets(tweets, options, &clock));
    Ok(())
}

/// Tweets as a JSON array where that is wished, else as usual.
pub open spec fn tweets_or_json(t: Talk, tweets: Seq<Data>, options: OptionsData) -> Step<()> {
    if options.flag("json"@) {
        done(say_json(t, Data::Array(tweets)), ())
    } else {
        tweets_shown(t, tweets, options)
    }
}

pub fn show_tweets_or_json(s: &mut Session, tweets: Vec<Json>, options: &Options) -> (r: Result<
    (),
    Stop,
>)
    ensures
        (final(s).talk(), unit(r)) == tweets_or_json(old(s).talk(), tweets.deep_view(), options@),
{
    if opt_bool(options, "json") {
        s.write_json_array(tweets);
        Ok(())
    } else {
        show_tweets(s, &tweets, options)
    }
}

pub open spec fn users_shown(t: Talk, users: Seq<Data>, options: OptionsData) -> Step<()> {
    bind(
        clock_for(t, wants_long(options), user_times_in(users)),
        |t: Talk, c: ClockData| done(say_all(t, users_lines(users, options, c)), ()),
    )
}

pub fn show_users(s: &mut Session, users: &Vec<Json>, options: &Options) -> (r: Result<(), Stop>)
    ensures
        (final(s).talk(), unit(r)) == users_shown(old(s).talk(), users.deep_view(), options@),
{
    let clock = read_clock_for(s, asks_long(options), collect_user_times(users))?;
    s.say_lines(print_users(users, options, &clock));
    Ok(())
}

pub open spec fn whois_shown(t: Talk, user: Data, options: OptionsData) -> Step<()> {
    bind(
        clock_for(t, !options.flag("csv"@), user_times_in(seq![user])),
        |t: Talk, c: ClockData| done(say_all(t, whois_lines(user, options, c)), ()),
    )
}

pub fn show_whois(s: &mut Session, user: &Json, options: &Options) -> (r: Result<(), Stop>)
    ensures
        (final(s).talk(), unit(r)) == whois_shown(old(s).talk(), user@, options@),
{
    let one: Vec<Json> = vec![user.copy()];
    assert(one.deep_view() =~= seq![user@]);
    let clock = read_clock_for(s, !opt_bool(options, "csv"), collect_user_times(&one))?;
    s.say_lines(print_whois(user, options, &clock));
    Ok(())
}

pub open spec fn status_shown(t: Talk, status: Data, options: OptionsData) -> Step<()> {
    bind(
        clock_for(t, !options.flag("csv"@), times_in(seq![status])),
        |t: Talk, c: ClockData| done(say_all(t, status_lines(status, options, c)), ()),
    )
}

pub fn show_status(s: &mut Session, status: &Json, options: &Options) -> (r: Result<(), Stop>)
    ensures
        (final(s).talk(), unit(r)) == status_shown(old(s).talk(), status@, options@),
{
    let one: Vec<Json> = vec![status.copy()];
    assert(one.deep_view() =~= seq![status@]);
    let clock = read_clock_for(s, !opt_bool(options, "csv"), collect_times(&one))?;
    s.say_lines(print_status(status, options, &clock));
    Ok(())
}

pub open spec fn lists_shown(t: Talk, lists: Seq<Data>, options: OptionsData) -> Step<()> {
    bind(
        clock_for(t, wants_long(options), times_in(lists)),
        |t: Talk, c: ClockData| done(say_all(t, lists_lines(lists, options, c)), ()),
    )
}

pub fn show_lists(s: &mut Session, lists: &Vec<Json>, options: &Options) -> (r: Result<(), Stop>)
    ensures
        (final(s).talk(), unit(r)) == lists_shown(old(s).talk(), lists.deep_view(), options@),
{
    let clock = read_clock_for(s, asks_long(options), collect_times(lists))?;
    s.say_lines(print_lists(lists, options, &clock));
    Ok(())
}

pub open spec fn list_info_shown(t: Talk, list: Data, options: OptionsData) -> Step<()> {
    bind(
        clock_for(t, !options.flag("csv"@), times_in(seq![list])),
        |t: Talk, c: ClockData| done(say_all(t, list_info_lines(list, options, c)), ()),
    )
}

pub fn show_list_information(s: &mut Session, list: &Json, options: &Options) -> (r: Result<
    (),
    Stop,
>)
    ensures
        (final(s).talk(), unit(r)) == list_info_shown(old(s).talk(), list@, options@),
{
    let one: Vec<Json> = vec![list.copy()];
    assert(one.deep_view() =~= seq![list@]);
    let clock = read_clock_for(s, !opt_bool(options, "csv"), collect_times(&one))?;
    s.say_lines(print_list_information(list, options, &clock));
    Ok(())
}

} // verus!
