//! Single functions on given values.

use x_cli::act::expand_path;
use x_cli::authorize::{
    build_oauth2_authorize_uri, choose_scopes, find_oauth_tokens, merge_credentials,
    parse_oauth2_redirect_input, read_oauth_tokens, read_redirect_query, verify_code,
};
use x_cli::command::same_credentials;
use x_cli::encode::{
    basic_authorization, encode_base64, percent_encode, pkce_s256_challenge, random_urlsafe_token,
    token_from,
};
use x_cli::errors::{backend_error_hint, failure_lines, format_error_for_display};
use x_cli::extract::{
    display_user_from_response, extract_ids, extract_lists, extract_tweets, filter_tweets_by_query,
    normalize_v2_list, normalize_v2_tweet, normalize_v2_user, tweet_text,
};
use x_cli::fetch::slugify_list_name;
use x_cli::idset::{difference, intersection, ordered_set};
use x_cli::json::{Json, Number};
use x_cli::layout::{print_key_value_table, print_message, print_table, wrap_text};
use x_cli::messages::{
    dm_other_participant_id, dm_peer_id, dm_sender_id, dm_text, should_fallback_dm_events,
};
use x_cli::options::{opt_bool, opt_string, opt_usize, opt_usize_or, Options};
use x_cli::paths::{classify_local, classify_remote, Local, Remote};
use x_cli::ruler::{numbered_ruler_line, overlay_text};
use x_cli::session::{BackendError, CommandError, Credentials, OAuth2User};
use x_cli::stream::{build_stream_rule_values, filtered_stream_rule_tag};
use x_cli::text::{decimal_u64, parse_i64, parse_usize, replace, split_whitespace, trim};
use x_cli::thor::{
    choose_default, interpolate_ruby_constants, make_option, parse_class, parse_default_value,
    parse_option, parse_signature, scan_line, splice, ClassLine, ClassReader,
};
use x_cli::time::{
    csv_like_time, distance_of_time_in_words, dm_time, ls_like_time, parse_twitter_time,
    read_clock, words_for_seconds, Clock, Instant,
};
use x_cli::words::{
    bool_to_yes_no, csv_row, extract_mentions, extract_owner_and_list, normalize_user_arg,
    number_with_delimiter, pluralize, resolve_user_list, strip_at, strip_tags, user_query_param,
};

fn texts(items: &[&str]) -> Vec<String> {
    items.iter().map(|item| item.to_string()).collect()
}

fn text(s: &str) -> Json {
    Json::Text(s.to_string())
}

fn object(entries: Vec<(&str, Json)>) -> Json {
    Json::Object(
        entries
            .into_iter()
            .map(|(key, value)| (key.to_string(), value))
            .collect(),
    )
}

fn text_at(value: &Json, key: &str) -> Option<String> {
    value.get_str(key).cloned()
}

// ---------------------------------------------------------------------------
// Words
// ---------------------------------------------------------------------------

#[test]
fn names_lose_their_at_signs() {
    assert_eq!(strip_at("@@bob"), "bob");
    assert_eq!(strip_at("bo@b"), "bo@b");
    assert_eq!(normalize_user_arg("@bob", false), "bob");
    assert_eq!(normalize_user_arg("@bob", true), "@bob");
    assert_eq!(
        resolve_user_list(&texts(&["@a", "b"]), false),
        texts(&["a", "b"])
    );
    assert_eq!(
        user_query_param(true, "5"),
        ("user_id".to_string(), "5".to_string())
    );
    assert_eq!(
        user_query_param(false, "bob"),
        ("screen_name".to_string(), "bob".to_string())
    );
}

#[test]
fn mentions_are_found_between_punctuation() {
    assert_eq!(
        extract_mentions("hi @bob, (@al_ice)! a@b @ x"),
        texts(&["bob", "al_ice"])
    );
    assert!(extract_mentions("").is_empty());
}

#[test]
fn tags_are_taken_out_once_and_for_all() {
    let once = strip_tags("<a href=\"x\">Twitter</a> web");
    assert_eq!(once, "Twitter web");
    assert_eq!(strip_tags(&once), once);
}

#[test]
fn numbers_are_grouped_by_three() {
    assert_eq!(number_with_delimiter(0, ','), "0");
    assert_eq!(number_with_delimiter(999, ','), "999");
    assert_eq!(number_with_delimiter(1000, ','), "1,000");
    assert_eq!(number_with_delimiter(1_234_567, ','), "1,234,567");
    assert_eq!(number_with_delimiter(-1234, '.'), "-1.234");
    assert_eq!(
        number_with_delimiter(i64::MIN, ','),
        "-9,223,372,036,854,775,808"
    );
}

#[test]
fn counts_agree_with_their_nouns() {
    assert_eq!(pluralize(1, "user", None), "1 user");
    assert_eq!(pluralize(2, "user", None), "2 users");
    assert_eq!(
        pluralize(0, "more user", Some("more users")),
        "0 more users"
    );
}

#[test]
fn csv_rows_quote_what_has_to_be_quoted() {
    assert_eq!(
        csv_row(&texts(&["a,b", "c\"d", "e", "f\ng", ""])),
        "\"a,b\",\"c\"\"d\",e,\"f\ng\","
    );
}

#[test]
fn flags_are_told_as_yes_and_no() {
    assert_eq!(bool_to_yes_no(Some(true)), "Yes");
    assert_eq!(bool_to_yes_no(Some(false)), "No");
}

#[test]
fn list_names_may_carry_their_owner() {
    assert_eq!(
        extract_owner_and_list("@bob/Friends", false, "me"),
        ("bob".to_string(), "Friends".to_string())
    );
    assert_eq!(
        extract_owner_and_list("Friends", false, "me"),
        ("me".to_string(), "Friends".to_string())
    );
}

#[test]
fn slugs_are_plain() {
    assert_eq!(slugify_list_name("  Hello, World_1!! "), "hello-world_1");
    assert_eq!(slugify_list_name("hello-world_1"), "hello-world_1");
    assert_eq!(slugify_list_name("!!!"), "");
}

#[test]
fn text_is_taken_apart() {
    assert_eq!(split_whitespace("  a\u{a0}b\tc "), texts(&["a", "b", "c"]));
    assert_eq!(trim("\u{3000} x \n"), "x");
    assert_eq!(replace("aaa", "aa", "b"), "ba");
    assert_eq!(replace("ab", "", "-"), "-a-b-");
    assert_eq!(parse_usize("+7"), Some(7));
    assert_eq!(parse_usize("-7"), None);
    assert_eq!(parse_usize(""), None);
    assert_eq!(parse_i64("-9223372036854775808"), Some(i64::MIN));
    assert_eq!(parse_i64("9223372036854775808"), None);
    assert_eq!(decimal_u64(u64::MAX), "18446744073709551615");
}

// ---------------------------------------------------------------------------
// Layout
// ---------------------------------------------------------------------------

#[test]
fn text_is_wrapped_between_words() {
    assert_eq!(wrap_text("aaa bbb ccc", 7), texts(&["aaa bbb", "ccc"]));
    assert_eq!(
        wrap_text("a incomprehensibility b", 5),
        texts(&["a", "incomprehensibility", "b"])
    );
    assert_eq!(wrap_text("", 5), texts(&[""]));
}

#[test]
fn messages_are_indented() {
    assert_eq!(
        print_message("bob", "hello"),
        texts(&["   @bob", "   hello", ""])
    );
}

#[test]
fn tables_line_up() {
    assert_eq!(
        print_table(
            &texts(&["ID", "Name"]),
            &vec![texts(&["1", "Al"]), texts(&["200", "Barbara"])]
        ),
        texts(&["ID   Name   ", "1    Al     ", "200  Barbara"])
    );
    assert!(print_table(&texts(&["ID"]), &Vec::new()).is_empty());
    assert_eq!(
        print_key_value_table(&vec![
            ("ID".to_string(), "1".to_string()),
            ("Name".to_string(), "x".to_string())
        ]),
        texts(&["ID    1", "Name  x"])
    );
}

#[test]
fn the_ruler_measures() {
    let line = numbered_ruler_line();
    assert_eq!(line.len(), 280);
    assert!(line.starts_with("....:....|....:..20|....:....|....:..40|"));
    assert!(line.ends_with("....:....|....:.280|"));
    let mut short = vec!['a'];
    overlay_text(&mut short, 3, "xy");
    assert_eq!(short, vec!['a', ' ', ' ', 'x', 'y']);
}

// ---------------------------------------------------------------------------
// Sets
// ---------------------------------------------------------------------------

#[test]
fn sets_hold_each_text_once_in_order() {
    let a = ordered_set(&texts(&["3", "1", "3", "20"]));
    let b = ordered_set(&texts(&["20", "4", "1"]));
    assert_eq!(a, texts(&["1", "20", "3"]));
    assert_eq!(intersection(&a, &b), texts(&["1", "20"]));
    assert_eq!(difference(&a, &b), texts(&["3"]));
}

// ---------------------------------------------------------------------------
// Options and paths
// ---------------------------------------------------------------------------

#[test]
fn options_are_read() {
    let options = Options {
        flags: texts(&["csv"]),
        values: vec![
            ("number".to_string(), "5".to_string()),
            ("sort".to_string(), "name".to_string()),
            ("bad".to_string(), "x".to_string()),
        ],
    };
    assert!(opt_bool(&options, "csv"));
    assert!(!opt_bool(&options, "long"));
    assert_eq!(opt_string(&options, "sort"), Some(&"name".to_string()));
    assert_eq!(opt_usize(&options, "number"), Some(5));
    assert_eq!(opt_usize(&options, "bad"), None);
    assert_eq!(opt_usize_or(&options, "none", 20), 20);
}

#[test]
fn paths_lead_to_commands() {
    assert_eq!(classify_remote(&texts(&["timeline"])), Remote::Timeline);
    assert_eq!(
        classify_remote(&texts(&["search", "timeline"])),
        Remote::SearchTimeline
    );
    assert_eq!(classify_remote(&texts(&["search", "nothing"])), Remote::Unknown);
    assert_eq!(classify_remote(&Vec::new()), Remote::Unknown);
    assert_eq!(classify_local(&texts(&["ruler"])), Local::Ruler);
    assert_eq!(classify_local(&texts(&["set", "active"])), Local::SetActive);
    assert_eq!(classify_local(&texts(&["timeline"])), Local::Other);
}

#[test]
fn paths_start_at_home() {
    let home = "/home/me".to_string();
    assert_eq!(expand_path("~/a.png", Some(&home)), "/home/me/a.png");
    assert_eq!(expand_path("~/a.png", None), "~/a.png");
    assert_eq!(expand_path("/a.png", Some(&home)), "/a.png");
}

// ---------------------------------------------------------------------------
// Errors
// ---------------------------------------------------------------------------

#[test]
fn errors_are_told() {
    let told = |error: CommandError| failure_lines("x", &error);
    assert_eq!(
        told(CommandError::RcFile("no file".to_string())),
        texts(&["x: no file"])
    );
    assert_eq!(
        told(CommandError::Io("closed".to_string())),
        texts(&["x: I/O error: closed"])
    );
    assert_eq!(
        told(CommandError::MissingArguments {
            command: "list add".to_string(),
            expected: 2
        }),
        texts(&[
            "x: Missing required argument for command list add: expected at least 2 arguments"
        ])
    );
    assert_eq!(
        told(CommandError::Other("well".to_string())),
        texts(&["x: well"])
    );
    assert_eq!(
        told(CommandError::Backend(BackendError::Other("odd".to_string()))),
        texts(&["x: odd"])
    );
    assert_eq!(
        told(CommandError::Backend(BackendError::MissingCredentials)).len(),
        1
    );
}

#[test]
fn hints_go_with_rate_limits() {
    let hint = |message: &str| {
        backend_error_hint(&CommandError::Backend(BackendError::Http(
            message.to_string(),
        )))
    };
    assert_eq!(
        hint("429: slow down").as_deref(),
        Some("Hint: X API rate limit reached. Wait for the limit window to reset and retry.")
    );
    assert!(hint("403: no; 429: slow down")
        .expect("a hint")
        .contains("both permissions and rate limits"));
    assert_eq!(hint("403: no"), None);
    assert_eq!(
        backend_error_hint(&CommandError::Other("429:".to_string())),
        None
    );
    let short = CommandError::Backend(BackendError::Http("42: x".to_string()));
    assert_eq!(format_error_for_display(&short), "42: x");
}

// ---------------------------------------------------------------------------
// Encodings
// ---------------------------------------------------------------------------

#[test]
fn bytes_are_encoded() {
    assert_eq!(encode_base64(&vec![0, 255, 254]), "AP/+");
    assert_eq!(basic_authorization("id", "secret"), "Basic aWQ6c2VjcmV0");
    assert_eq!(percent_encode("a b/ü~"), "a%20b%2F%C3%BC~");
}

#[test]
fn challenges_are_digests() {
    assert_eq!(
        pkce_s256_challenge("dBjftJeZ4CVP-mB92K27uhbUJU1p1r_wW1gFWFOEjXk"),
        "E9Melhoa2OwvFrEMTJguCHaoeK1t8URWbuGJSstw-cM"
    );
}

#[test]
fn random_tokens_are_as_long_as_asked_for() {
    let token = |len| match random_urlsafe_token(len) {
        Ok(token) => token,
        Err(error) => panic!("{}", error.to_text()),
    };
    assert_eq!(token(24).len(), 32);
    assert_eq!(token(48).len(), 64);
    assert_ne!(token(24), token(24));
    assert_eq!(token(0), "");
}

#[test]
fn tokens_are_the_bytes_as_url_safe_text() {
    let token = |bytes| match token_from(Some(bytes)) {
        Ok(token) => token,
        Err(error) => panic!("{}", error.to_text()),
    };
    assert_eq!(token(vec![]), "");
    assert_eq!(token(vec![0xfb, 0xff, 0xfe]), "-__-");
    assert_eq!(token(vec![0xff]), "_w");
    match token_from(None) {
        Err(error) => assert_eq!(error.to_text(), "Failed to generate secure random bytes"),
        Ok(_) => panic!("there are no bytes"),
    }
}

// ---------------------------------------------------------------------------
// Authorization
// ---------------------------------------------------------------------------

fn other(error: CommandError) -> String {
    match error {
        CommandError::Other(text) => text,
        error => panic!("{}", error.to_text()),
    }
}

#[test]
fn tokens_are_read_out_of_forms() {
    let tokens = read_oauth_tokens(
        "oauth_token=a%20b&oauth_token_secret=s&screen_name=bob",
        "access token response",
    );
    match tokens {
        Ok(found) => assert_eq!(
            found,
            (
                "a b".to_string(),
                "s".to_string(),
                Some("bob".to_string())
            )
        ),
        Err(error) => panic!("{}", error.to_text()),
    }
    let missing = |body: &str| match read_oauth_tokens(body, "request token response") {
        Ok(_) => panic!("there should be an error"),
        Err(error) => error.to_text(),
    };
    assert_eq!(
        missing("oauth_token_secret=s"),
        "oauth_token missing from request token response"
    );
    assert_eq!(
        missing("oauth_token=t&oauth_token_secret="),
        "oauth_token_secret missing from request token response"
    );
    let pairs = vec![
        ("oauth_token".to_string(), "first".to_string()),
        ("oauth_token".to_string(), "last".to_string()),
        ("oauth_token_secret".to_string(), "s".to_string()),
    ];
    match find_oauth_tokens(&pairs, "answer") {
        Ok((token, _, name)) => {
            assert_eq!(token, "last");
            assert_eq!(name, None);
        }
        Err(error) => panic!("{}", error.to_text()),
    }
}

#[test]
fn redirects_are_read() {
    let read = |input: &str| parse_oauth2_redirect_input(input);
    match read(" http://127.0.0.1:8080/callback?state=s&code=a%2Fb ") {
        Ok(answer) => assert_eq!(answer, ("a/b".to_string(), Some("s".to_string()))),
        Err(error) => panic!("{}", error.to_text()),
    }
    match read("just-a-code") {
        Ok(answer) => assert_eq!(answer, ("just-a-code".to_string(), None)),
        Err(error) => panic!("{}", error.to_text()),
    }
    let failure = |input: &str| match parse_oauth2_redirect_input(input) {
        Ok(_) => panic!("there should be an error"),
        Err(error) => other(error),
    };
    assert_eq!(failure("  "), "OAuth2 authorization response was empty");
    assert_eq!(
        failure("http://localhost/?error=denied&error_description=no+way"),
        "OAuth2 authorization failed with denied: no way"
    );
    assert_eq!(
        failure("http://localhost/?error=denied"),
        "OAuth2 authorization failed with denied"
    );
    assert_eq!(
        failure("http://localhost/?code=+"),
        "OAuth2 redirect URL did not contain a code parameter"
    );
    let pairs = vec![("code".to_string(), "c".to_string())];
    match read_redirect_query(&pairs) {
        Ok(answer) => assert_eq!(answer, ("c".to_string(), None)),
        Err(error) => panic!("{}", error.to_text()),
    }
}

#[test]
fn another_state_is_refused() {
    let verified = |input: &str| match verify_code(input, "s") {
        Ok(code) => code,
        Err(error) => other(error),
    };
    assert_eq!(verified("http://localhost/?code=c&state=s"), "c");
    assert_eq!(verified("http://localhost/?code=c"), "c");
    assert_eq!(
        verified("http://localhost/?code=c&state=t"),
        "OAuth2 state mismatch; authorization response could not be verified"
    );
}

#[test]
fn required_scopes_are_asked_for() {
    assert_eq!(
        choose_scopes(None),
        texts(&[
            "tweet.read",
            "users.read",
            "bookmark.read",
            "bookmark.write",
            "offline.access"
        ])
    );
    assert_eq!(
        choose_scopes(Some("like.read, users.read,".to_string())),
        texts(&[
            "like.read",
            "users.read",
            "tweet.read",
            "bookmark.read",
            "bookmark.write"
        ])
    );
}

#[test]
fn authorization_pages_carry_the_challenge() {
    let uri = build_oauth2_authorize_uri(
        "id",
        "http://127.0.0.1:8080/callback",
        &texts(&["a", "b"]),
        "s&t",
        "dBjftJeZ4CVP-mB92K27uhbUJU1p1r_wW1gFWFOEjXk",
    );
    match uri {
        Ok(uri) => assert_eq!(
            uri,
            "https://x.com/i/oauth2/authorize?response_type=code&client_id=id&redirect_uri=http%3A%2F%2F127.0.0.1%3A8080%2Fcallback&scope=a+b&state=s%26t&code_challenge=E9Melhoa2OwvFrEMTJguCHaoeK1t8URWbuGJSstw-cM&code_challenge_method=S256"
        ),
        Err(error) => panic!("{}", error.to_text()),
    }
}

fn credentials(username: &str, consumer_key: &str) -> Credentials {
    Credentials {
        username: username.to_string(),
        consumer_key: consumer_key.to_string(),
        consumer_secret: "secret".to_string(),
        token: "token".to_string(),
        secret: "token secret".to_string(),
        bearer_token: None,
        oauth2_user: None,
    }
}

fn context() -> OAuth2User {
    OAuth2User {
        client_id: "client".to_string(),
        client_secret: None,
        access_token: "access".to_string(),
        refresh_token: None,
        expires_at: Some(7200),
        scopes: texts(&["tweet.read"]),
    }
}

#[test]
fn credentials_are_merged() {
    let (key, merged) = merge_credentials(
        &Some(credentials("BOB", "key")),
        "bob",
        "client",
        context(),
    );
    assert_eq!(key, "key");
    assert_eq!(merged.username, "bob");
    assert_eq!(merged.consumer_key, "key");
    assert_eq!(merged.token, "token");
    assert!(merged.oauth2_user.is_some());

    let (key, merged) = merge_credentials(
        &Some(credentials("bob", " ")),
        "bob",
        "client",
        context(),
    );
    assert_eq!(key, "client");
    assert_eq!(merged.consumer_key, "client");
    assert_eq!(merged.token, "token");

    let (key, merged) = merge_credentials(
        &Some(credentials("alice", "key")),
        "bob",
        "client",
        context(),
    );
    assert_eq!(key, "client");
    assert_eq!(merged.username, "bob");
    assert_eq!(merged.token, "");
}

#[test]
fn credentials_are_compared_whole() {
    let mut a = credentials("bob", "key");
    a.oauth2_user = Some(context());
    let mut b = a.copy();
    assert!(same_credentials(&a, &b));
    b.oauth2_user = Some(OAuth2User {
        expires_at: Some(7201),
        ..context()
    });
    assert!(!same_credentials(&a, &b));
    b.oauth2_user = None;
    assert!(!same_credentials(&a, &b));
}

// ---------------------------------------------------------------------------
// Times
// ---------------------------------------------------------------------------

const APRIL: Instant = Instant {
    secs: 1_302_117_217,
    nanos: 0,
};

#[test]
fn times_are_read_and_written() {
    assert_eq!(
        parse_twitter_time("Wed Apr 06 19:13:37 +0000 2011"),
        Some(APRIL)
    );
    assert_eq!(
        parse_twitter_time("2011-04-06T21:13:37.000+02:00"),
        Some(APRIL)
    );
    assert_eq!(parse_twitter_time("yesterday"), None);
    assert_eq!(csv_like_time(APRIL), "2011-04-06 19:13:37 +0000");
    let message = object(vec![("created_timestamp", text("1493058197715"))]);
    assert_eq!(
        dm_time(&message),
        Some(Instant {
            secs: 1_493_058_197,
            nanos: 715_000_000
        })
    );
}

#[test]
fn times_end_where_the_calendar_does() {
    let at = |millis: &str| dm_time(&object(vec![("created_timestamp", text(millis))]));
    assert_eq!(
        at("8210266876799999"),
        Some(Instant {
            secs: 8_210_266_876_799,
            nanos: 999_000_000
        })
    );
    assert_eq!(at("8210266876800000"), None);
    assert_eq!(
        at("-8334601228800000"),
        Some(Instant {
            secs: -8_334_601_228_800,
            nanos: 0
        })
    );
    assert_eq!(at("-8334601228800001"), None);
    assert_eq!(
        at("-1"),
        Some(Instant {
            secs: -1,
            nanos: 999_000_000
        })
    );
}

#[test]
fn leap_seconds_count() {
    let leap = parse_twitter_time("2016-12-31T23:59:60Z").expect("a leap second");
    assert_eq!(
        leap,
        Instant {
            secs: 1_483_228_799,
            nanos: 1_000_000_000
        }
    );
    let at = |secs: i64, nanos: u32| Instant { secs, nanos };
    let new_year = at(1_483_228_805, 0);
    assert_eq!(distance_of_time_in_words(leap, new_year), "5 seconds");
    assert_eq!(distance_of_time_in_words(new_year, leap), "5 seconds");
    let early = at(59, 1_000_000_000);
    assert_eq!(distance_of_time_in_words(early, at(70, 0)), "11 seconds");
    assert_eq!(distance_of_time_in_words(at(70, 0), early), "11 seconds");
    let half = at(10, 500_000_000);
    assert_eq!(distance_of_time_in_words(half, at(12, 0)), "a second");
    assert_eq!(distance_of_time_in_words(at(12, 0), half), "a second");
    let none = at(58, 1_000_000_000);
    assert_eq!(distance_of_time_in_words(none, at(70, 0)), "a split second");
}

#[test]
fn lengths_of_time_are_told_in_words() {
    assert_eq!(words_for_seconds(0), "a split second");
    assert_eq!(words_for_seconds(1), "a second");
    assert_eq!(words_for_seconds(59), "59 seconds");
    assert_eq!(words_for_seconds(60), "a minute");
    assert_eq!(words_for_seconds(150), "3 minutes");
    assert_eq!(words_for_seconds(3600), "an hour");
    assert_eq!(words_for_seconds(84_599), "23 hours");
    assert_eq!(words_for_seconds(84_600), "a day");
    assert_eq!(words_for_seconds(172_800), "2 days");
    assert_eq!(words_for_seconds(2_548_800), "a month");
    assert_eq!(words_for_seconds(5_184_000), "2 months");
    assert_eq!(words_for_seconds(30_222_000), "a year");
    assert_eq!(words_for_seconds(63_072_000), "2 years");
    let later = Instant {
        secs: APRIL.secs + 10,
        nanos: 0,
    };
    assert_eq!(distance_of_time_in_words(APRIL, later), "10 seconds");
    assert_eq!(distance_of_time_in_words(later, APRIL), "10 seconds");
}

#[test]
fn listings_show_the_hour_or_the_year() {
    let clock = |secs: i64| Clock {
        now: Instant { secs, nanos: 0 },
        zone: vec![(APRIL, 7200)],
    };
    let near = APRIL.secs + 15_551_999;
    let far = APRIL.secs + 15_552_000;
    assert_eq!(ls_like_time(Some(APRIL), false, &clock(near)), "Apr  6 21:13");
    assert_eq!(ls_like_time(Some(APRIL), false, &clock(far)), "Apr  6  2011");
    assert_eq!(
        ls_like_time(Some(APRIL), true, &clock(APRIL.secs + 90)),
        "a minute ago"
    );
    assert_eq!(ls_like_time(None, true, &clock(far)), "");
}

#[test]
fn the_clock_is_read_for_each_instant() {
    let clock = read_clock(&vec![APRIL]);
    assert!(clock.now.secs > APRIL.secs);
    assert_eq!(clock.zone.len(), 1);
    assert_eq!(clock.zone[0].0, APRIL);
}

// ---------------------------------------------------------------------------
// Streams
// ---------------------------------------------------------------------------

#[test]
fn rules_are_packed() {
    assert_eq!(
        build_stream_rule_values(&texts(&["a", " ", "b "])),
        texts(&["a OR b"])
    );
    let long = "x".repeat(300);
    let terms = vec![long.clone(), long.clone(), "y".to_string()];
    assert_eq!(
        build_stream_rule_values(&terms),
        vec![long.clone(), format!("{long} OR y")]
    );
    let huge = "x".repeat(600);
    assert_eq!(build_stream_rule_values(&vec![huge.clone()]), vec![huge]);
    assert_eq!(filtered_stream_rule_tag(17, 2), "x-rust-17-2");
}

// ---------------------------------------------------------------------------
// Records
// ---------------------------------------------------------------------------

#[test]
fn users_are_brought_to_one_shape() {
    let user = object(vec![
        ("id", text("7")),
        ("username", text("bob")),
        (
            "public_metrics",
            object(vec![("tweet_count", Json::Number(Number::Unsigned(3)))]),
        ),
    ]);
    let once = normalize_v2_user(&user);
    assert_eq!(text_at(&once, "screen_name").as_deref(), Some("bob"));
    assert_eq!(text_at(&once, "id_str").as_deref(), Some("7"));
    assert_eq!(once.get_i64("statuses_count"), Some(3));
    let twice = normalize_v2_user(&once);
    assert_eq!(twice.get_i64("statuses_count"), Some(3));
    assert_eq!(
        display_user_from_response(&once, "@fallback"),
        "bob"
    );
    assert_eq!(
        display_user_from_response(&Json::Null, "@fallback"),
        "fallback"
    );
}

#[test]
fn tweets_without_a_known_author_carry_the_identifier() {
    let tweet = object(vec![
        ("id", text("1")),
        ("text", text("hi")),
        ("author_id", text("42")),
    ]);
    let none = Vec::new();
    let normal = normalize_v2_tweet(&tweet, &none, &none, &none, &none);
    let user = normal.get("user").expect("an author");
    assert_eq!(text_at(user, "screen_name").as_deref(), Some("42"));
    let again = normalize_v2_tweet(&normal, &none, &none, &none, &none);
    assert_eq!(text_at(&again, "full_text").as_deref(), Some("hi"));
}

#[test]
fn links_are_expanded() {
    let tweet = object(vec![
        ("text", text("see t.co/1")),
        (
            "entities",
            object(vec![(
                "urls",
                Json::Array(vec![object(vec![
                    ("url", text("t.co/1")),
                    ("expanded_url", text("https://example.com")),
                ])]),
            )]),
        ),
    ]);
    assert_eq!(tweet_text(&tweet, false), "see t.co/1");
    assert_eq!(tweet_text(&tweet, true), "see https://example.com");
    let tweets = vec![tweet];
    assert_eq!(filter_tweets_by_query(&tweets, "SEE").len(), 1);
    assert!(filter_tweets_by_query(&tweets, "look").is_empty());
}

#[test]
fn records_are_found_in_responses() {
    let ids = object(vec![(
        "ids",
        Json::Array(vec![Json::Number(Number::Unsigned(5)), text("6")]),
    )]);
    assert_eq!(extract_ids(&ids), texts(&["5", "6"]));
    let data = object(vec![(
        "data",
        Json::Array(vec![object(vec![("id", text("8"))])]),
    )]);
    assert_eq!(extract_ids(&data), texts(&["8"]));
    assert_eq!(extract_tweets(&data).len(), 1);
    let lists = extract_lists(&object(vec![(
        "data",
        object(vec![("id", text("9")), ("name", text("Friends"))]),
    )]));
    assert_eq!(lists.len(), 1);
    assert_eq!(text_at(&lists[0], "slug").as_deref(), Some("Friends"));
    assert_eq!(
        text_at(&lists[0], "uri").as_deref(),
        Some("https://x.com/i/lists/9")
    );
}

#[test]
fn lists_are_brought_to_one_shape() {
    let list = object(vec![
        ("id", text("9")),
        ("name", text("Friends")),
        ("owner_id", text("7")),
        ("private", Json::Bool(true)),
    ]);
    let owners = vec![("7".to_string(), object(vec![("username", text("bob"))]))];
    let once = normalize_v2_list(&list, &owners);
    assert_eq!(text_at(&once, "full_name").as_deref(), Some("@bob/Friends"));
    assert_eq!(text_at(&once, "mode").as_deref(), Some("private"));
    let again = normalize_v2_list(&once, &Vec::new());
    assert_eq!(text_at(&again, "full_name").as_deref(), Some("@bob/Friends"));
    assert_eq!(text_at(&again, "mode").as_deref(), Some("private"));
}

#[test]
fn messages_name_their_peers() {
    let event = object(vec![
        ("sender_id", text("1")),
        ("dm_conversation_id", text("1-2")),
        ("text", text("hello")),
    ]);
    assert_eq!(dm_sender_id(&event), "1");
    assert_eq!(dm_other_participant_id(&event, "1").as_deref(), Some("2"));
    assert_eq!(dm_peer_id(&event, "1", true), "2");
    assert_eq!(dm_peer_id(&event, "2", false), "1");
    assert_eq!(dm_text(&event, false), "hello");
    assert!(should_fallback_dm_events(&BackendError::Http(
        "403: Forbidden".to_string()
    )));
    assert!(!should_fallback_dm_events(&BackendError::Http(
        "500: Oops".to_string()
    )));
}

// ---------------------------------------------------------------------------
// Classes
// ---------------------------------------------------------------------------

#[test]
fn signatures_tell_how_many_arguments_are_needed() {
    assert_eq!(parse_signature("timeline [USER]"), ("timeline".to_string(), 0));
    assert_eq!(
        parse_signature("block USER [USER...]"),
        ("block".to_string(), 1)
    );
    assert_eq!(
        parse_signature("add LIST USER, [USER...]"),
        ("add".to_string(), 2)
    );
    assert_eq!(
        parse_signature("does_contain [USER/]LIST USER"),
        ("does_contain".to_string(), 2)
    );
    assert_eq!(
        parse_signature("stream SUBCOMMAND ...ARGS"),
        ("stream".to_string(), 0)
    );
    assert_eq!(parse_signature(""), (String::new(), 0));
}

#[test]
fn constants_are_filled_in() {
    let constants = vec![("NUM".to_string(), "20".to_string())];
    assert_eq!(
        interpolate_ruby_constants("the #{NUM} most, #{OTHER}, #{NUM}", &constants),
        "the 20 most, #{OTHER}, 20"
    );
    let found = vec![vec![Some("<N>".to_string()), Some("NUM".to_string())]];
    assert_eq!(splice("a<N>b", &found, 0, &constants), "a20b");
}

#[test]
fn options_are_parsed() {
    let constants = vec![("NUM".to_string(), "20".to_string())];
    let number = parse_option(
        "number".to_string(),
        ", aliases: \"-n\", type: :numeric, default: NUM, banner: \"COUNT\"",
        &constants,
    );
    assert_eq!(number.short, Some('n'));
    assert!(number.takes_value);
    assert_eq!(number.default_value.as_deref(), Some("20"));
    assert_eq!(number.value_name.as_deref(), Some("COUNT"));
    let flag = parse_option("csv".to_string(), ", type: :boolean", &constants);
    assert!(!flag.takes_value);
    assert_eq!(flag.short, None);
    let choice = parse_option("color".to_string(), ", enum: %w[icon auto]", &constants);
    assert!(choice.takes_value);
    assert_eq!(choice.possible_values, texts(&["icon", "auto"]));
    assert_eq!(
        parse_default_value("default: \"x y\"", &constants).as_deref(),
        Some("x y")
    );
    assert_eq!(
        parse_default_value("default: 7", &constants).as_deref(),
        Some("7")
    );
    assert_eq!(parse_default_value("default: nil", &constants), None);
    assert_eq!(parse_default_value("", &constants), None);
    assert_eq!(
        choose_default(None, None, Some("NUM".to_string()), &constants).as_deref(),
        Some("20")
    );
    let made = make_option(
        "x".to_string(),
        Some("y".to_string()),
        None,
        None,
        None,
        None,
    );
    assert_eq!(made.short, Some('y'));
    assert!(!made.takes_value);
}

#[test]
fn classes_are_parsed() {
    let class = parse_class(
        "NUM = 'a b'\nclass_option \"color\", type: :string\ndesc \"go THERE\", \"Goes #{NUM}.\"\nmethod_option \"fast\", type: :boolean\ndef go(there)\nend\ndef helper\nend\nmap %w[g -g] => :go\ndesc \"sub SUBCOMMAND ...ARGS\", \"More.\"\nsubcommand \"sub\", T::Sub\n",
    );
    assert_eq!(class.class_options.len(), 1);
    assert_eq!(class.commands.len(), 2);
    let go = &class.commands[0];
    assert_eq!(go.name, "go");
    assert_eq!(go.method, "go");
    assert_eq!(go.about, "Goes a b.");
    assert_eq!(go.min_args, 1);
    assert_eq!(go.options.len(), 1);
    assert_eq!(go.aliases, texts(&["g", "-g"]));
    let sub = &class.commands[1];
    assert_eq!(sub.subcommand_class.as_deref(), Some("Sub"));
    assert_eq!(sub.min_args, 0);
    assert!(matches!(
        scan_line("def go(there)"),
        ClassLine::Def(method) if method == "go"
    ));
    assert!(matches!(scan_line("end"), ClassLine::Other));
    let mut reader = ClassReader::new();
    let none = Vec::new();
    reader.read_line(ClassLine::Def("early".to_string()), &none);
    assert!(reader.commands.is_empty());
    reader.read_line(
        ClassLine::Desc("late X".to_string(), "Late.".to_string()),
        &none,
    );
    reader.read_line(ClassLine::Def("late".to_string()), &none);
    reader.read_line(
        ClassLine::Aliases(texts(&["l"]), "late".to_string()),
        &none,
    );
    assert_eq!(reader.commands.len(), 1);
    assert_eq!(reader.commands[0].aliases, texts(&["l"]));
}
