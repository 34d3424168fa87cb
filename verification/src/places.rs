//! Commands about trends and places.

use vstd::prelude::*;

use crate::encode::{form_text, write_form};
use crate::extract::{
    array_or_none, copy_of_array, extract_geo_places, extract_places, geo_places_in,
};
use crate::fetch::{first_item, take_first};
use crate::invocation::{args_behind, first_or_active, arg_or_active_name, Invocation, InvocationData};
use crate::json::{get_from, get_in, str_from, text_in, Data, Json};
use crate::layout::{key_value_lines, print_key_value_table, print_table, table_lines};
use crate::list::{collect_list, collected, extend_by, map_list};
use crate::options::{opt_bool, Options, OptionsData};
use crate::params::{no_params, one_param, pair, plain, request};
use crate::patterns::{find_group, group_in};
use crate::present::{ensure_min_args, need_args};
use crate::session::{
    ask_json_page, ask_page, ask_text, bind, both, done, fail, say, say_all, Ask, AskData,
    CommandError, ErrorData, Method, PageError, PageFault, Session, Step, Stop, Talk,
};
use crate::show::{
    arranged_geo_places, arranged_places, csv_always, either_field, either_field_text, field,
    field_text, format_geo_places, geo_place_cells, geo_place_row, geo_places_lines,
    place_headings, place_titles, print_csv_always, sort_geo_places, sort_places, trend_headings,
    trend_titles,
};
use crate::text::{
    begins_with, cat2, cat3, join, joined, nonempty, split, split_at_first, split_on, split_once,
    starts_with, trim, trimmed, CharSet,
};

verus! {

// ---------------------------------------------------------------------------
// Trends
// ---------------------------------------------------------------------------

pub open spec fn trend_params(exclude: bool) -> Seq<(Seq<char>, Seq<char>)> {
    if exclude {
        seq![("max_trends"@, "50"@), ("trend.fields"@, "trend_name,tweet_count"@)]
    } else {
        seq![("max_trends"@, "50"@)]
    }
}

/// The name of a trend, unless it is a hashtag and those are not wished.
pub open spec fn trend_name(trend: Data, exclude: bool) -> Option<Seq<char>> {
    match text_in(trend.get_either("trend_name"@, "name"@)) {
        Some(name) => if exclude && begins_with(name, "#"@) {
            None
        } else {
            Some(name)
        },
        None => None,
    }
}

pub open spec fn trends(t: Talk, call: InvocationData) -> Step<i32> {
    let exclude = call.options.flag("exclude-hashtags"@);
    bind(
        crate::session::call(
            t,
            plain(
                Method::GetOauth2,
                "/2/trends/by/woeid/"@ + first_or_active(call.args, "1"@),
                trend_params(exclude),
            ),
        ),
        |t: Talk, d: Data|
            done(
                say_all(
                    t,
                    collected(
                        array_or_none(d.array_at("data"@)),
                        |x: Data| trend_name(x, exclude),
                    ),
                ),
                0i32,
            ),
    )
}

pub fn run_trends(s: &mut Session, call: &Invocation) -> (r: Result<i32, Stop>)
    ensures
        (final(s).talk(), both(r)) == trends(old(s).talk(), call@),
{
    let exclude = opt_bool(&call.options, "exclude-hashtags");
    let mut params = one_param("max_trends", "50");
    if exclude {
        extend_by(&mut params, pair("trend.fields", "trend_name,tweet_count"));
    }
    assert(params.deep_view() =~= trend_params(exclude));
    let woeid = arg_or_active_name(&call.args, "1");
    let response = s.call(
        request(Method::GetOauth2, cat2("/2/trends/by/woeid/", woeid.as_str()), params),
    )?;
    let name = |x: &Json| -> (r: Option<String>)
        ensures
            r.deep_view() == trend_name(x@, exclude),
    {
        match str_from(x.get_either("trend_name", "name")) {
            Some(name) => if exclude && starts_with(name.as_str(), "#") {
                None
            } else {
                Some(name.clone())
            },
            None => None,
        }
    };
    let found = copy_of_array(response.get_array("data"));
    s.say_lines(collect_list(&found, name, Ghost(|x: Data| trend_name(x, exclude))));
    Ok(0)
}

/// The type of a place as text.
pub open spec fn place_type_words(place: Data) -> Seq<char> {
    let nested = match get_in(place.get("placeType"@), "name"@) {
        Some(v) => v.as_words(),
        None => None,
    };
    match nested {
        Some(s) => s,
        None => field(place, "place_type"@),
    }
}

fn type_words(place: &Json) -> (r: String)
    ensures
        r@ == place_type_words(place@),
{
    let nested: Option<String> = match get_from(place.get("placeType"), "name") {
        Some(v) => v.as_words(),
        None => None,
    };
    match nested {
        Some(s) => s,
        None => field_text(place, "place_type"),
    }
}

pub open spec fn trend_place_row(place: Data) -> Seq<Seq<char>> {
    seq![
        field(place, "woeid"@),
        either_field(place, "parentid"@, "parent_id"@),
        place_type_words(place),
        field(place, "name"@),
        field(place, "country"@),
    ]
}

fn trend_place_cells(place: &Json) -> (r: Vec<String>)
    ensures
        r.deep_view() == trend_place_row(place@),
{
    let row: Vec<String> = vec![
        field_text(place, "woeid"),
        either_field_text(place, "parentid", "parent_id"),
        type_words(place),
        field_text(place, "name"),
        field_text(place, "country"),
    ];
    assert(row.deep_view() =~= trend_place_row(place@));
    row
}

pub open spec fn trend_places_lines(places: Seq<Data>, options: OptionsData) -> Seq<Seq<char>> {
    if options.flag("csv"@) {
        csv_always(trend_headings(), places.map_values(|p: Data| trend_place_row(p)))
    } else if options.flag("long"@) {
        table_lines(trend_headings(), places.map_values(|p: Data| trend_place_row(p)))
    } else {
        collected(places, |p: Data| p.text_at("name"@))
    }
}

pub fn print_trend_places(places: &Vec<Json>, options: &Options) -> (r: Vec<String>)
    ensures
        r.deep_view() == trend_places_lines(places.deep_view(), options@),
{
    let csv = opt_bool(options, "csv");
    if csv || opt_bool(options, "long") {
        let cells = |p: &Json| -> (r: Vec<String>)
            ensures
                r.deep_view() == trend_place_row(p@),
        {
            trend_place_cells(p)
        };
        let rows = map_list(places, cells, Ghost(|p: Data| trend_place_row(p)));
        if csv {
            print_csv_always(&trend_titles(), &rows)
        } else {
            print_table(&trend_titles(), &rows)
        }
    } else {
        let name = |p: &Json| -> (r: Option<String>)
            ensures
                r.deep_view() == p@.text_at("name"@),
        {
            match p.get_str("name") {
                Some(s) => Some(s.clone()),
                None => None,
            }
        };
        collect_list(places, name, Ghost(|p: Data| p.text_at("name"@)))
    }
}

pub open spec fn trend_locations(t: Talk, call: InvocationData) -> Step<i32> {
    bind(
        crate::session::call(
            t,
            plain(Method::GetOauth2, "/1.1/trends/available.json"@, Seq::empty()),
        ),
        |t: Talk, d: Data|
            done(
                say_all(
                    t,
                    trend_places_lines(
                        arranged_places(array_or_none(d.as_array()), call.options),
                        call.options,
                    ),
                ),
                0i32,
            ),
    )
}

pub fn run_trend_locations(s: &mut Session, call: &Invocation) -> (r: Result<i32, Stop>)
    ensures
        (final(s).talk(), both(r)) == trend_locations(old(s).talk(), call@),
{
    let response = s.call(
        request(Method::GetOauth2, "/1.1/trends/available.json".to_owned(), no_params()),
    )?;
    let places = sort_places(extract_places(&response), &call.options);
    s.say_lines(print_trend_places(&places, &call.options));
    Ok(0)
}

// ---------------------------------------------------------------------------
// Where the machine is
// ---------------------------------------------------------------------------

/// A failure to read a page, in words that depend on how far it got.
pub open spec fn page_failure(
    e: PageFault,
    send: Seq<char>,
    read: Seq<char>,
    parse: Seq<char>,
) -> ErrorData {
    match e {
        PageFault::Send(s) => ErrorData::Other(send + s),
        PageFault::Read(s) => ErrorData::Other(read + s),
        PageFault::Parse(s) => ErrorData::Other(parse + s),
    }
}

fn page_error(e: PageError, send: &str, read: &str, parse: &str) -> (r: Stop)
    ensures
        r.deep_view() == crate::session::StopData::Fail(
            page_failure(e.deep_view(), send@, read@, parse@),
        ),
{
    let text = match e {
        PageError::Send(s) => cat2(send, s.as_str()),
        PageError::Read(s) => cat2(read, s.as_str()),
        PageError::Parse(s) => cat2(parse, s.as_str()),
    };
    Stop::Fail(CommandError::Other(text))
}

/// An Internet address of version 4.
pub open spec fn address_pattern() -> Seq<char> {
    r"(?:\d{1,3}\.){3}\d{1,3}"@
}

/// What is known of the place of the machine's Internet address.
pub open spec fn ip_info(t: Talk) -> Step<Data> {
    bind(
        ask_page(t, "http://checkip.dyndns.org/"@),
        |t: Talk, page: Result<Seq<char>, PageFault>|
            match page {
                Err(e) => fail(
                    t,
                    page_failure(
                        e,
                        "Failed to look up IP address: "@,
                        "Failed to read IP response: "@,
                        "Failed to read IP response: "@,
                    ),
                ),
                Ok(body) => match group_in(address_pattern(), body, 0) {
                    None => fail(t, ErrorData::Other("Could not parse IP address"@)),
                    Some(ip) => bind(
                        ask_json_page(t, "https://ipinfo.io/"@ + ip + "/json"@),
                        |t: Talk, info: Result<Data, PageFault>|
                            match info {
                                Err(e) => fail(
                                    t,
                                    page_failure(
                                        e,
                                        "Failed to geolocate IP: "@,
                                        "Failed to read geolocation response: "@,
                                        "Failed to parse geolocation response: "@,
                                    ),
                                ),
                                Ok(d) => done(t, d),
                            },
                    ),
                },
            },
    )
}

pub fn ip_geolocation(s: &mut Session) -> (r: Result<Json, Stop>)
    ensures
        (final(s).talk(), both(r)) == ip_info(old(s).talk()),
{
    let body = match s.page("http://checkip.dyndns.org/".to_owned())? {
        Ok(body) => body,
        Err(e) => {
            return Err(
                page_error(
                    e,
                    "Failed to look up IP address: ",
                    "Failed to read IP response: ",
                    "Failed to read IP response: ",
                ),
            );
        },
    };
    match find_group(r"(?:\d{1,3}\.){3}\d{1,3}", body.as_str(), 0) {
        None => Err(Stop::Fail(CommandError::Other("Could not parse IP address".to_owned()))),
        Some(ip) => {
            match s.json_page(cat3("https://ipinfo.io/", ip.as_str(), "/json"))? {
                Ok(info) => Ok(info),
                Err(e) => Err(
                    page_error(
                        e,
                        "Failed to geolocate IP: ",
                        "Failed to read geolocation response: ",
                        "Failed to parse geolocation response: ",
                    ),
                ),
            }
        },
    }
}

/// The place in words: city, region and country, as far as they are known.
pub open spec fn place_words(info: Data) -> Seq<char> {
    joined(
        nonempty(seq![info.words_at("city"@), info.words_at("region"@), info.words_at("country"@)]),
        ", "@,
    )
}

fn write_place(info: &Json) -> (r: String)
    ensures
        r@ == place_words(info@),
{
    let parts: Vec<String> = vec![
        info.words_at("city"),
        info.words_at("region"),
        info.words_at("country"),
    ];
    let ghost all = parts.deep_view();
    assert(all =~= seq![
        info@.words_at("city"@),
        info@.words_at("region"@),
        info@.words_at("country"@),
    ]);
    let mut known: Vec<String> = Vec::new();
    let mut i: usize = 0;
    assert(known.deep_view() =~= nonempty(all.take(0)));
    while i < parts.len()
        invariant
            i <= parts.len(),
            all == parts.deep_view(),
            known.deep_view() == nonempty(all.take(i as int)),
        decreases parts.len() - i,
    {
        assert(all.take(i + 1).drop_last() =~= all.take(i as int));
        assert(all.take(i + 1).last() == parts@[i as int]@);
        if !parts[i].as_str().is_empty() {
            extend_by(&mut known, parts[i].clone());
        }
        i += 1;
    }
    assert(all.take(i as int) =~= all);
    join(&known, ", ")
}

pub open spec fn my_location(t: Talk) -> Step<i32> {
    bind(ip_info(t), |t: Talk, info: Data| done(say(t, place_words(info)), 0i32))
}

pub fn run_my_location(s: &mut Session) -> (r: Result<i32, Stop>)
    ensures
        (final(s).talk(), both(r)) == my_location(old(s).talk()),
{
    let info = ip_geolocation(s)?;
    s.say(write_place(&info));
    Ok(0)
}

// ---------------------------------------------------------------------------
// Coordinates
// ---------------------------------------------------------------------------

/// A number in its shortest notation; zero where the text gives none.
pub open spec fn decimal_or_zero(t: Talk, text: Seq<char>) -> Step<Seq<char>> {
    bind(
        ask_text(t, AskData::Decimal(text)),
        |t: Talk, n: Option<Seq<char>>|
            done(
                t,
                match n {
                    Some(d) => d,
                    None => "0"@,
                },
            ),
    )
}

fn read_decimal_or_zero(s: &mut Session, text: &str) -> (r: Result<String, Stop>)
    ensures
        (final(s).talk(), both(r)) == decimal_or_zero(old(s).talk(), text@),
{
    match s.text(Ask::Decimal(text.to_owned()))? {
        Some(d) => Ok(d),
        None => Ok("0".to_owned()),
    }
}

/// Both numbers, each zero where the text gives none.
pub open spec fn decimals_or_zero(t: Talk, lat: Seq<char>, lng: Seq<char>) -> Step<
    (Seq<char>, Seq<char>),
> {
    bind(
        decimal_or_zero(t, lat),
        |t: Talk, a: Seq<char>|
            bind(decimal_or_zero(t, lng), |t: Talk, b: Seq<char>| done(t, (a, b))),
    )
}

fn read_decimals_or_zero(s: &mut Session, lat: &str, lng: &str) -> (r: Result<
    (String, String),
    Stop,
>)
    ensures
        (final(s).talk(), both(r)) == decimals_or_zero(old(s).talk(), lat@, lng@),
{
    let a = read_decimal_or_zero(s, lat)?;
    let b = read_decimal_or_zero(s, lng)?;
    Ok((a, b))
}

pub open spec fn part_or_zero(parts: Seq<Seq<char>>, i: int) -> Seq<char> {
    if 0 <= i < parts.len() {
        parts[i]
    } else {
        "0"@
    }
}

fn get_part_or_zero(parts: &Vec<String>, i: usize) -> (r: String)
    ensures
        r@ == part_or_zero(parts.deep_view(), i as int),
{
    assert(parts.deep_view().len() == parts@.len());
    if i < parts.len() {
        assert(parts.deep_view()[i as int] == parts@[i as int]@);
        parts[i].clone()
    } else {
        "0".to_owned()
    }
}

/// The coordinates of the machine's Internet address.
pub open spec fn ip_coordinates(t: Talk) -> Step<(Seq<char>, Seq<char>)> {
    bind(
        ip_info(t),
        |t: Talk, info: Data|
            {
                let parts = split_on(info.words_at("loc"@), CharSet::Only(','));
                decimals_or_zero(t, part_or_zero(parts, 0), part_or_zero(parts, 1))
            },
    )
}

fn find_ip_coordinates(s: &mut Session) -> (r: Result<(String, String), Stop>)
    ensures
        (final(s).talk(), both(r)) == ip_coordinates(old(s).talk()),
{
    let info = ip_geolocation(s)?;
    let parts = split(info.words_at("loc").as_str(), &CharSet::Only(','));
    let lat = get_part_or_zero(&parts, 0);
    let lng = get_part_or_zero(&parts, 1);
    read_decimals_or_zero(s, lat.as_str(), lng.as_str())
}

pub open spec fn geocode_query(address: Seq<char>) -> Seq<(Seq<char>, Seq<char>)> {
    seq![("q"@, address), ("format"@, "json"@), ("limit"@, "1"@)]
}

pub open spec fn text_or_zero(record: Data, key: Seq<char>) -> Seq<char> {
    match record.text_at(key) {
        Some(s) => s,
        None => "0"@,
    }
}

fn get_text_or_zero(record: &Json, key: &str) -> (r: String)
    ensures
        r@ == text_or_zero(record@, key@),
{
    match record.get_str(key) {
        Some(s) => s.clone(),
        None => "0".to_owned(),
    }
}

/// The coordinates of an address.
pub open spec fn address_coordinates(t: Talk, address: Seq<char>) -> Step<(Seq<char>, Seq<char>)> {
    bind(
        ask_json_page(
            t,
            "https://nominatim.openstreetmap.org/search?"@ + form_text(geocode_query(address)),
        ),
        |t: Talk, page: Result<Data, PageFault>|
            match page {
                Err(e) => fail(
                    t,
                    page_failure(
                        e,
                        "Failed to geocode address: "@,
                        "Failed to read geocode response: "@,
                        "Failed to parse geocode response: "@,
                    ),
                ),
                Ok(d) => match first_item(array_or_none(d.as_array())) {
                    None => fail(t, ErrorData::Other("Could not geocode address: "@ + address)),
                    Some(first) => decimals_or_zero(
                        t,
                        text_or_zero(first, "lat"@),
                        text_or_zero(first, "lon"@),
                    ),
                },
            },
    )
}

pub fn geocode_address(s: &mut Session, address: &str) -> (r: Result<(String, String), Stop>)
    ensures
        (final(s).talk(), both(r)) == address_coordinates(old(s).talk(), address@),
{
    let query: Vec<(String, String)> = vec![
        pair("q", address),
        pair("format", "json"),
        pair("limit", "1"),
    ];
    assert(query.deep_view() =~= geocode_query(address@));
    let url = cat2("https://nominatim.openstreetmap.org/search?", write_form(&query).as_str());
    let response = match s.json_page(url)? {
        Ok(response) => response,
        Err(e) => {
            return Err(
                page_error(
                    e,
                    "Failed to geocode address: ",
                    "Failed to read geocode response: ",
                    "Failed to parse geocode response: ",
                ),
            );
        },
    };
    match take_first(copy_of_array(response.as_array())) {
        None => Err(
            Stop::Fail(CommandError::Other(cat2("Could not geocode address: ", address))),
        ),
        Some(first) => {
            let lat = get_text_or_zero(&first, "lat");
            let lng = get_text_or_zero(&first, "lon");
            read_decimals_or_zero(s, lat.as_str(), lng.as_str())
        },
    }
}

/// The coordinates that the words give: two numbers with a comma between them, or an address; with
/// no words, those of the machine.
pub open spec fn coordinates(t: Talk, args: Seq<Seq<char>>) -> Step<(Seq<char>, Seq<char>)> {
    if args.len() == 0 {
        ip_coordinates(t)
    } else {
        let address = joined(args, " "@);
        match split_at_first(address, ',') {
            None => address_coordinates(t, address),
            Some((left, right)) => bind(
                ask_text(t, AskData::Decimal(trimmed(left))),
                |t: Talk, lat: Option<Seq<char>>|
                    bind(
                        ask_text(t, AskData::Decimal(trimmed(right))),
                        |t: Talk, lng: Option<Seq<char>>|
                            match (lat, lng) {
                                (Some(a), Some(b)) => done(t, (a, b)),
                                _ => address_coordinates(t, address),
                            },
                    ),
            ),
        }
    }
}

pub fn resolve_geo_coordinates(s: &mut Session, args: &Vec<String>) -> (r: Result<
    (String, String),
    Stop,
>)
    ensures
        (final(s).talk(), both(r)) == coordinates(old(s).talk(), args.deep_view()),
{
    assert(args.deep_view().len() == args@.len());
    if args.len() == 0 {
        return find_ip_coordinates(s);
    }
    let address = join(args, " ");
    match split_once(address.as_str(), ',') {
        None => geocode_address(s, address.as_str()),
        Some((left, right)) => {
            let lat = s.text(Ask::Decimal(trim(left.as_str())))?;
            let lng = s.text(Ask::Decimal(trim(right.as_str())))?;
            match (lat, lng) {
                (Some(a), Some(b)) => Ok((a, b)),
                _ => geocode_address(s, address.as_str()),
            }
        },
    }
}

// ---------------------------------------------------------------------------
// Places
// ---------------------------------------------------------------------------

pub open spec fn found_places_said(t: Talk, response: Data, options: OptionsData) -> Talk {
    say_all(
        t,
        geo_places_lines(arranged_geo_places(geo_places_in(response), options), options),
    )
}

fn say_found_places(s: &mut Session, response: &Json, options: &Options)
    ensures
        final(s).talk() == found_places_said(old(s).talk(), response@, options@),
{
    let places = sort_geo_places(extract_geo_places(response), options);
    s.say_lines(format_geo_places(&places, options));
}

pub open spec fn nearby_places(t: Talk, call: InvocationData) -> Step<i32> {
    bind(
        coordinates(t, call.args),
        |t: Talk, at: (Seq<char>, Seq<char>)|
            bind(
                crate::session::call(
                    t,
                    plain(
                        Method::Get,
                        "/1.1/geo/reverse_geocode.json"@,
                        seq![("lat"@, at.0), ("long"@, at.1)],
                    ),
                ),
                |t: Talk, d: Data| done(found_places_said(t, d, call.options), 0i32),
            ),
    )
}

pub fn run_nearby_places(s: &mut Session, call: &Invocation) -> (r: Result<i32, Stop>)
    ensures
        (final(s).talk(), both(r)) == nearby_places(old(s).talk(), call@),
{
    let (lat, lng) = resolve_geo_coordinates(s, &call.args)?;
    let params: Vec<(String, String)> = vec![
        pair("lat", lat.as_str()),
        pair("long", lng.as_str()),
    ];
    assert(params.deep_view() =~= seq![("lat"@, lat@), ("long"@, lng@)]);
    let response = s.call(
        request(Method::Get, "/1.1/geo/reverse_geocode.json".to_owned(), params),
    )?;
    say_found_places(s, &response, &call.options);
    Ok(0)
}

pub open spec fn places(t: Talk, call: InvocationData) -> Step<i32> {
    bind(
        need_args(t, call.path, call.args, 1),
        |t: Talk, u: ()|
            bind(
                coordinates(t, call.args.skip(1)),
                |t: Talk, at: (Seq<char>, Seq<char>)|
                    bind(
                        crate::session::call(
                            t,
                            plain(
                                Method::Get,
                                "/1.1/geo/search.json"@,
                                seq![
                                    ("query"@, call.args[0]),
                                    ("lat"@, at.0),
                                    ("long"@, at.1),
                                ],
                            ),
                        ),
                        |t: Talk, d: Data| done(found_places_said(t, d, call.options), 0i32),
                    ),
            ),
    )
}

pub fn run_places(s: &mut Session, call: &Invocation) -> (r: Result<i32, Stop>)
    ensures
        (final(s).talk(), both(r)) == places(old(s).talk(), call@),
{
    ensure_min_args(&call.path, &call.args, 1)?;
    assert(call@.args[0] == call.args@[0]@);
    let (lat, lng) = resolve_geo_coordinates(s, &args_behind(&call.args, 1))?;
    let params: Vec<(String, String)> = vec![
        pair("query", call.args[0].as_str()),
        pair("lat", lat.as_str()),
        pair("long", lng.as_str()),
    ];
    assert(params.deep_view() =~= seq![
        ("query"@, call@.args[0]),
        ("lat"@, lat@),
        ("long"@, lng@),
    ]);
    let response = s.call(request(Method::Get, "/1.1/geo/search.json".to_owned(), params))?;
    say_found_places(s, &response, &call.options);
    Ok(0)
}

pub open spec fn place_rows(place: Data) -> Seq<(Seq<char>, Seq<char>)> {
    seq![
        ("ID"@, field(place, "id"@)),
        ("Type"@, field(place, "place_type"@)),
        ("Name"@, field(place, "full_name"@)),
        ("Country"@, field(place, "country"@)),
    ]
}

pub open spec fn place_lines(place: Data, options: OptionsData) -> Seq<Seq<char>> {
    if options.flag("csv"@) {
        csv_always(place_headings(), seq![geo_place_row(place)])
    } else {
        key_value_lines(place_rows(place))
    }
}

fn print_place(place: &Json, options: &Options) -> (r: Vec<String>)
    ensures
        r.deep_view() == place_lines(place@, options@),
{
    if opt_bool(options, "csv") {
        let rows: Vec<Vec<String>> = vec![geo_place_cells(place)];
        assert(rows.deep_view() =~= seq![geo_place_row(place@)]);
        print_csv_always(&place_titles(), &rows)
    } else {
        let rows: Vec<(String, String)> = vec![
            ("ID".to_owned(), field_text(place, "id")),
            ("Type".to_owned(), field_text(place, "place_type")),
            ("Name".to_owned(), field_text(place, "full_name")),
            ("Country".to_owned(), field_text(place, "country")),
        ];
        assert(rows.deep_view() =~= place_rows(place@));
        print_key_value_table(&rows)
    }
}

pub open spec fn place(t: Talk, call: InvocationData) -> Step<i32> {
    bind(
        need_args(t, call.path, call.args, 1),
        |t: Talk, u: ()|
            bind(
                crate::session::call(
                    t,
                    plain(
                        Method::Get,
                        "/1.1/geo/id/"@ + call.args[0] + ".json"@,
                        Seq::empty(),
                    ),
                ),
                |t: Talk, d: Data| done(say_all(t, place_lines(d, call.options)), 0i32),
            ),
    )
}

pub fn run_place(s: &mut Session, call: &Invocation) -> (r: Result<i32, Stop>)
    ensures
        (final(s).talk(), both(r)) == place(old(s).talk(), call@),
{
    ensure_min_args(&call.path, &call.args, 1)?;
    assert(call@.args[0] == call.args@[0]@);
    let response = s.call(
        request(Method::Get, cat3("/1.1/geo/id/", call.args[0].as_str(), ".json"), no_params()),
    )?;
    s.say_lines(print_place(&response, &call.options));
    Ok(0)
}

} // verus!
