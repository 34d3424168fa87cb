//! Points in time, how they are read and how they are shown.

use vstd::prelude::*;

use crate::json::{or_empty, Data, Json};
use crate::text::{cat2, decimal, decimal_u64, parse_i64, read_signed};

verus! {

/// A point in time: seconds since 1970 in UTC, and nanoseconds beyond them.
#[derive(Clone, Copy, Debug, PartialEq, Eq, Structural)]
pub struct Instant {
    pub secs: i64,
    pub nanos: u32,
}

impl DeepView for Instant {
    type V = Instant;

    open spec fn deep_view(&self) -> Instant {
        *self
    }
}

// ---------------------------------------------------------------------------
// What chrono computes
// ---------------------------------------------------------------------------

/// The instant that `chrono::DateTime::parse_from_str` reads from the text, if any.
pub uninterp spec fn instant_in(text: Seq<char>, pattern: Seq<char>) -> Option<Instant>;

/// The instant that `chrono::DateTime::parse_from_rfc3339` reads from the text, if any.
pub uninterp spec fn rfc3339_instant_in(text: Seq<char>) -> Option<Instant>;

/// What `chrono::DateTime::format` writes for an instant at an offset from UTC.
pub uninterp spec fn written_time(
    time: Instant,
    offset: i32,
    pattern: Seq<char>,
) -> Option<Seq<char>>;

/// Whether `chrono` can represent an instant: one of the years from -262143 to 262142, with a
/// second's worth of nanoseconds, or two in the last second of a minute, which may be a leap second.
pub open spec fn is_instant(t: Instant) -> bool {
    &&& -8_334_601_228_800 <= t.secs <= 8_210_266_876_799
    &&& t.nanos < 2_000_000_000
    &&& t.nanos >= 1_000_000_000 ==> t.secs as int % 60 == 59
}

/// `chrono::DateTime::parse_from_str`: the instant that the text gives in the pattern's notation,
/// as UTC; nothing where the text does not follow the pattern.
#[verifier::external_body]
fn parse_with_pattern(text: &str, pattern: &str) -> (r: Option<Instant>)
    ensures
        r == instant_in(text@, pattern@),
{
    chrono::DateTime::parse_from_str(text, pattern).ok().map(
        |t| Instant { secs: t.timestamp(), nanos: t.timestamp_subsec_nanos() },
    )
}

/// `chrono::DateTime::parse_from_rfc3339`: the instant that the text gives in RFC 3339 notation, as
/// UTC; nothing where it is not in that notation.
#[verifier::external_body]
fn parse_rfc3339(text: &str) -> (r: Option<Instant>)
    ensures
        r == rfc3339_instant_in(text@),
{
    chrono::DateTime::parse_from_rfc3339(text).ok().map(
        |t| Instant { secs: t.timestamp(), nanos: t.timestamp_subsec_nanos() },
    )
}

/// The instant so many milliseconds after 1970, where it can be represented; its seconds round down.
pub open spec fn instant_of_millis(millis: i64) -> Option<Instant> {
    let t = Instant {
        secs: (millis as int / 1000) as i64,
        nanos: ((millis as int % 1000) * 1_000_000) as u32,
    };
    if is_instant(t) {
        Some(t)
    } else {
        None
    }
}

/// `chrono::DateTime::from_timestamp_millis`: the instant so many milliseconds after 1970, where
/// `chrono` can represent it.
#[verifier::external_body]
fn instant_from_millis(millis: i64) -> (r: Option<Instant>)
    ensures
        r == instant_of_millis(millis),
{
    chrono::DateTime::<chrono::Utc>::from_timestamp_millis(millis).map(
        |t| Instant { secs: t.timestamp(), nanos: t.timestamp_subsec_nanos() },
    )
}

/// The patterns that times are written with.
pub open spec fn known_pattern(pattern: Seq<char>) -> bool {
    ||| pattern == "%Y-%m-%d %H:%M:%S %z"@
    ||| pattern == "%b %e %H:%M"@
    ||| pattern == "%b %e  %Y"@
}

/// `chrono::DateTime::format`: the instant at a fixed offset from UTC, written with the pattern;
/// nothing where `chrono` cannot represent the instant or the offset.
#[verifier::external_body]
fn write_time(time: Instant, offset: i32, pattern: &str) -> (r: Option<String>)
    requires
        known_pattern(pattern@),
    ensures
        r.deep_view() == written_time(time, offset, pattern@),
{
    let zone = chrono::FixedOffset::east_opt(offset)?;
    let utc = chrono::DateTime::from_timestamp(time.secs, time.nanos)?;
    Some(utc.with_timezone(&zone).format(pattern).to_string())
}

/// The leap second that counts between two instants: that of the one which stands earlier in its
/// day.
pub open spec fn leap_between(from: Instant, to: Instant) -> int {
    let start = from.secs as int % 86_400;
    let end = to.secs as int % 86_400;
    if end > start && from.nanos >= 1_000_000_000 {
        1
    } else if end < start && to.nanos >= 1_000_000_000 {
        -1
    } else {
        0
    }
}

/// The seconds from one instant to another, rounded toward zero.
pub open spec fn whole_seconds(from: Instant, to: Instant) -> int {
    let nanos = (to.secs - from.secs + leap_between(from, to)) * 1_000_000_000 + (to.nanos
        - from.nanos);
    if nanos < 0 {
        -((-nanos) / 1_000_000_000)
    } else {
        nanos / 1_000_000_000
    }
}

/// The difference of two `chrono::DateTime`s, as `TimeDelta::num_seconds` gives it: whole seconds,
/// rounded toward zero, where `chrono` can represent both instants.
#[verifier::external_body]
fn count_seconds(from: Instant, to: Instant) -> (r: Option<i64>)
    ensures
        match r {
            Some(n) => is_instant(from) && is_instant(to) && n == whole_seconds(from, to),
            None => !is_instant(from) || !is_instant(to),
        },
{
    let start = chrono::DateTime::from_timestamp(from.secs, from.nanos)?;
    let end = chrono::DateTime::from_timestamp(to.secs, to.nanos)?;
    Some((end - start).num_seconds())
}

// ---------------------------------------------------------------------------
// The clock
// ---------------------------------------------------------------------------

/// The present, and the local offset from UTC, in seconds, at the instants of interest.
pub struct Clock {
    pub now: Instant,
    pub zone: Vec<(Instant, i32)>,
}

pub ghost struct ClockData {
    pub now: Instant,
    pub zone: Seq<(Instant, i32)>,
}

impl View for Clock {
    type V = ClockData;

    open spec fn view(&self) -> ClockData {
        ClockData { now: self.now, zone: self.zone@ }
    }
}

/// `chrono::Utc::now`: the present.
#[verifier::external_body]
fn present() -> Instant {
    let now = chrono::Utc::now();
    Instant { secs: now.timestamp(), nanos: now.timestamp_subsec_nanos() }
}

/// The offset of `chrono::Local` from UTC at an instant, in seconds.
#[verifier::external_body]
fn local_offset(time: Instant) -> Option<i32> {
    chrono::DateTime::from_timestamp(time.secs, time.nanos).map(
        |t| t.with_timezone(&chrono::Local).offset().local_minus_utc(),
    )
}

/// Reads the machine's clock, and its time zone at each of the instants.
pub fn read_clock(instants: &Vec<Instant>) -> (r: Clock)
    ensures
        r@.zone.len() == instants@.len(),
        forall|i: int| 0 <= i < instants@.len() ==> (#[trigger] r@.zone[i]).0 == instants@[i],
{
    let now = present();
    let mut zone: Vec<(Instant, i32)> = Vec::new();
    let mut i: usize = 0;
    while i < instants.len()
        invariant
            i <= instants.len(),
            zone@.len() == i,
            forall|k: int| 0 <= k < i ==> (#[trigger] zone@[k]).0 == instants@[k],
        decreases instants.len() - i,
    {
        let offset: i32 = match local_offset(instants[i]) {
            Some(n) => n,
            None => 0,
        };
        zone.push((instants[i], offset));
        i += 1;
    }
    Clock { now, zone }
}

/// The offset at an instant; none is known for an instant that the clock was not read for.
pub open spec fn offset_in(zone: Seq<(Instant, i32)>, time: Instant) -> i32
    decreases zone.len(),
{
    if zone.len() == 0 {
        0
    } else if zone[0].0 == time {
        zone[0].1
    } else {
        offset_in(zone.drop_first(), time)
    }
}

fn offset_at(zone: &Vec<(Instant, i32)>, time: Instant) -> (r: i32)
    ensures
        r == offset_in(zone@, time),
{
    let mut i: usize = 0;
    assert(zone@.skip(0) =~= zone@);
    while i < zone.len()
        invariant
            i <= zone.len(),
            offset_in(zone@, time) == offset_in(zone@.skip(i as int), time),
        decreases zone.len() - i,
    {
        assert(zone@.skip(i as int).drop_first() =~= zone@.skip(i + 1));
        if zone[i].0 == time {
            return zone[i].1;
        }
        i += 1;
    }
    0
}

// ---------------------------------------------------------------------------
// Reading and showing
// ---------------------------------------------------------------------------

/// The instant that a response writes: in the notation of the older API, or in RFC 3339.
pub open spec fn api_time(text: Seq<char>) -> Option<Instant> {
    match instant_in(text, "%a %b %d %H:%M:%S %z %Y"@) {
        Some(t) => Some(t),
        None => rfc3339_instant_in(text),
    }
}

pub fn parse_twitter_time(value: &str) -> (r: Option<Instant>)
    ensures
        r == api_time(value@),
{
    match parse_with_pattern(value, "%a %b %d %H:%M:%S %z %Y") {
        Some(t) => Some(t),
        None => parse_rfc3339(value),
    }
}

/// When a tweet, list or user was created.
pub open spec fn created(value: Data) -> Option<Instant> {
    match value.text_at("created_at"@) {
        Some(s) => api_time(s),
        None => None,
    }
}

pub fn created_time(value: &Json) -> (r: Option<Instant>)
    ensures
        r == created(value@),
{
    match value.get_str("created_at") {
        Some(s) => parse_twitter_time(s.as_str()),
        None => None,
    }
}

/// When a direct message was sent: its milliseconds, or else its time in text.
pub open spec fn message_time(event: Data) -> Option<Instant> {
    let millis = match event.text_at("created_timestamp"@) {
        Some(s) => match read_signed(s) {
            Some(n) => instant_of_millis(n as i64),
            None => None,
        },
        None => None,
    };
    match millis {
        Some(t) => Some(t),
        None => created(event),
    }
}

pub fn dm_time(event: &Json) -> (r: Option<Instant>)
    ensures
        r == message_time(event@),
{
    let millis: Option<Instant> = match event.get_str("created_timestamp") {
        Some(s) => match parse_i64(s.as_str()) {
            Some(n) => instant_from_millis(n),
            None => None,
        },
        None => None,
    };
    match millis {
        Some(t) => Some(t),
        None => created_time(event),
    }
}

/// A time in full, in UTC.
pub open spec fn full_time(time: Instant) -> Seq<char> {
    or_empty(written_time(time, 0, "%Y-%m-%d %H:%M:%S %z"@))
}

pub open spec fn full_time_or_none(time: Option<Instant>) -> Seq<char> {
    match time {
        Some(t) => full_time(t),
        None => Seq::empty(),
    }
}

pub fn csv_like_time(time: Instant) -> (r: String)
    ensures
        r@ == full_time(time),
{
    match write_time(time, 0, "%Y-%m-%d %H:%M:%S %z") {
        Some(s) => s,
        None => String::new(),
    }
}

pub fn csv_time_or_none(time: Option<Instant>) -> (r: String)
    ensures
        r@ == full_time_or_none(time),
{
    match time {
        Some(t) => csv_like_time(t),
        None => String::new(),
    }
}

pub fn dm_csv_time(event: &Json) -> (r: String)
    ensures
        r@ == full_time_or_none(message_time(event@)),
{
    csv_time_or_none(dm_time(event))
}

/// `n` units, rounded half up from `seconds`.
pub open spec fn rounded(seconds: nat, unit: nat) -> nat {
    (seconds + unit / 2) / unit
}

/// A length of time in words.
pub open spec fn in_words(seconds: nat) -> Seq<char> {
    if seconds < 1 {
        "a split second"@
    } else if seconds < 2 {
        "a second"@
    } else if seconds < 60 {
        decimal(seconds) + " seconds"@
    } else if seconds < 120 {
        "a minute"@
    } else if seconds < 3600 {
        decimal(rounded(seconds, 60)) + " minutes"@
    } else if seconds < 7200 {
        "an hour"@
    } else if seconds < 84_600 {
        decimal(rounded(seconds, 3600)) + " hours"@
    } else if seconds < 172_800 {
        "a day"@
    } else if seconds < 2_548_800 {
        decimal(rounded(seconds, 86_400)) + " days"@
    } else if seconds < 5_184_000 {
        "a month"@
    } else if seconds < 30_222_000 {
        decimal(rounded(seconds, 2_628_000)) + " months"@
    } else if seconds < 63_072_000 {
        "a year"@
    } else {
        decimal(rounded(seconds, 31_536_000)) + " years"@
    }
}

fn count_of(seconds: u64, unit: u64, name: &str) -> (r: String)
    requires
        0 < unit <= 31_536_000,
    ensures
        r@ == decimal(rounded(seconds as nat, unit as nat)) + name@,
{
    let sum: u128 = seconds as u128 + (unit / 2) as u128;
    let n: u128 = sum / unit as u128;
    assert(n <= sum) by (nonlinear_arith)
        requires
            n == sum / unit as u128,
            unit > 0,
    ;
    assert(n <= u64::MAX) by (nonlinear_arith)
        requires
            n == sum / unit as u128,
            sum <= u64::MAX + unit / 2,
            unit > 0,
    ;
    cat2(decimal_u64(n as u64).as_str(), name)
}

/// A length of time, in words that a person would use.
pub fn words_for_seconds(seconds: u64) -> (r: String)
    ensures
        r@ == in_words(seconds as nat),
{
    if seconds < 1 {
        "a split second".to_owned()
    } else if seconds < 2 {
        "a second".to_owned()
    } else if seconds < 60 {
        cat2(decimal_u64(seconds).as_str(), " seconds")
    } else if seconds < 120 {
        "a minute".to_owned()
    } else if seconds < 3600 {
        count_of(seconds, 60, " minutes")
    } else if seconds < 7200 {
        "an hour".to_owned()
    } else if seconds < 84_600 {
        count_of(seconds, 3600, " hours")
    } else if seconds < 172_800 {
        "a day".to_owned()
    } else if seconds < 2_548_800 {
        count_of(seconds, 86_400, " days")
    } else if seconds < 5_184_000 {
        "a month".to_owned()
    } else if seconds < 30_222_000 {
        count_of(seconds, 2_628_000, " months")
    } else if seconds < 63_072_000 {
        "a year".to_owned()
    } else {
        count_of(seconds, 31_536_000, " years")
    }
}

/// The distance between two instants in words; where no distance can be counted, a split second.
pub open spec fn distance(from: Instant, to: Instant) -> Seq<char> {
    if is_instant(from) && is_instant(to) {
        let n = whole_seconds(from, to);
        in_words(if n < 0 {
            (-n) as nat
        } else {
            n as nat
        })
    } else {
        in_words(0)
    }
}

pub fn distance_of_time_in_words(from: Instant, to: Instant) -> (r: String)
    ensures
        r@ == distance(from, to),
{
    match count_seconds(from, to) {
        Some(n) => {
            let seconds: u64 = if n < 0 {
                (-(n as i128)) as u64
            } else {
                n as u64
            };
            words_for_seconds(seconds)
        },
        None => words_for_seconds(0),
    }
}

/// Whether the instant lies less than 180 days before the other.
pub open spec fn is_recent(time: Instant, now: Instant) -> bool {
    ||| time.secs > now.secs - 15_552_000
    ||| time.secs == now.secs - 15_552_000 && time.nanos > now.nanos
}

/// A time as a listing shows it: how long ago, or the local date with the hour, or with the year
/// where it is 180 days old or older.
pub open spec fn listed_time(time: Option<Instant>, relative: bool, clock: ClockData) -> Seq<char> {
    match time {
        None => Seq::empty(),
        Some(t) => if relative {
            distance(t, clock.now) + " ago"@
        } else if is_recent(t, clock.now) {
            or_empty(written_time(t, offset_in(clock.zone, t), "%b %e %H:%M"@))
        } else {
            or_empty(written_time(t, offset_in(clock.zone, t), "%b %e  %Y"@))
        },
    }
}

pub fn ls_like_time(time: Option<Instant>, relative: bool, clock: &Clock) -> (r: String)
    ensures
        r@ == listed_time(time, relative, clock@),
{
    match time {
        None => String::new(),
        Some(t) => {
            if relative {
                return cat2(distance_of_time_in_words(t, clock.now).as_str(), " ago");
            }
            let limit: i128 = clock.now.secs as i128 - 15_552_000;
            let recent = t.secs as i128 > limit || (t.secs as i128 == limit && t.nanos
                > clock.now.nanos);
            let offset: i32 = offset_at(&clock.zone, t);
            let written = if recent {
                write_time(t, offset, "%b %e %H:%M")
            } else {
                write_time(t, offset, "%b %e  %Y")
            };
            match written {
                Some(s) => s,
                None => String::new(),
            }
        },
    }
}

pub fn dm_ls_time(event: &Json, relative: bool, clock: &Clock) -> (r: String)
    ensures
        r@ == listed_time(message_time(event@), relative, clock@),
{
    ls_like_time(dm_time(event), relative, clock)
}

/// The order of times as sort keys: no time comes first.
pub open spec fn time_key(time: Option<Instant>) -> Seq<i64> {
    match time {
        Some(t) => seq![t.secs, t.nanos as i64],
        None => Seq::empty(),
    }
}

pub fn key_of_time(time: Option<Instant>) -> (r: Vec<i64>)
    ensures
        r@ == time_key(time),
{
    let mut r: Vec<i64> = Vec::new();
    if let Some(t) = time {
        r.push(t.secs);
        r.push(t.nanos as i64);
    }
    assert(r@ =~= time_key(time));
    r
}

/// Words for a longer time never name a smaller count of the same unit.
pub proof fn law_rounding_is_monotone(a: nat, b: nat, unit: nat)
    requires
        a <= b,
        unit > 0,
    ensures
        rounded(a, unit) <= rounded(b, unit),
{
    vstd::arithmetic::div_mod::lemma_div_is_ordered(
        (a + unit / 2) as int,
        (b + unit / 2) as int,
        unit as int,
    );
}

/// The distance between two instants is the same in both directions.
pub proof fn law_distance_is_symmetric(a: Instant, b: Instant)
    ensures
        distance(a, b) == distance(b, a),
{
    assert(leap_between(a, b) == -leap_between(b, a));
}

} // verus!
