//! Authorizing an account, with OAuth 1.0a or with OAuth 2.0.

use vstd::prelude::*;

use crate::act::{prompt, prompted};
use crate::encode::{
    address_with, append_query, basic_authorization, basic_credentials, code_challenge, form_pairs,
    percent_encode, percent_encoded, pkce_s256_challenge, query_of, read_form, read_query,
};
use crate::json::{copy_texts, get_from, get_in, str_from, text_in, Data};
use crate::list::extend_by;
use crate::options::{find_text, opt_bool, text_for, Options, OptionsData};
use crate::params::{one_param, pair};
use crate::session::{
    ask_api, ask_browse, ask_done, ask_millis, ask_signed, ask_text, ask_token, bind, both, done,
    fail, mismatch, say, say_all, say_err, unit, Ask, AskData, BackendError, BookData, CommandError,
    Credentials, CredentialsData, ErrorData, FaultData, OAuth2Data, OAuth2User, ProfileBook,
    Session, SignedData, SignedRequest, Step, Stop, Talk,
};
use crate::text::{
    byte_length, cat2, cat3, eq_ignore_ascii_case, join, joined, lowered, same, split_whitespace,
    trim, trimmed, words, words_of, CharSet,
};

verus! {

pub const DEFAULT_OAUTH2_REDIRECT_URI: &'static str = "http://127.0.0.1:8080/callback";

pub const DEVELOPER_SITE: &'static str = "https://developer.twitter.com/en/portal/projects-and-apps";

// ---------------------------------------------------------------------------
// Small parts
// ---------------------------------------------------------------------------

/// Whether the text holds more than white space.
pub open spec fn is_filled(s: Seq<char>) -> bool {
    trimmed(s).len() > 0
}

fn filled(s: &str) -> (r: bool)
    ensures
        r == is_filled(s@),
{
    !trim(s).as_str().is_empty()
}

/// The text, where it holds more than white space.
pub open spec fn if_filled(s: Option<Seq<char>>) -> Option<Seq<char>> {
    match s {
        Some(v) => if is_filled(v) {
            Some(v)
        } else {
            None
        },
        None => None,
    }
}

fn when_filled(s: Option<String>) -> (r: Option<String>)
    ensures
        r.deep_view() == if_filled(s.deep_view()),
{
    match s {
        Some(v) => if filled(v.as_str()) {
            Some(v)
        } else {
            None
        },
        None => None,
    }
}

pub open spec fn or_else(s: Option<Seq<char>>, default: Seq<char>) -> Seq<char> {
    match s {
        Some(v) => v,
        None => default,
    }
}

fn unwrap_or_else(s: Option<String>, default: String) -> (r: String)
    ensures
        r@ == or_else(s.deep_view(), default@),
{
    match s {
        Some(v) => v,
        None => default,
    }
}

/// What a variable of the environment holds, or else what the user enters. The user is asked
/// either way.
pub open spec fn env_or_prompt(t: Talk, name: Seq<char>, label: Seq<char>) -> Step<Seq<char>> {
    bind(
        ask_text(t, AskData::Env(name)),
        |t: Talk, v: Option<Seq<char>>|
            bind(
                prompted(t, label),
                |t: Talk, entered: Seq<char>| done(t, or_else(if_filled(v), entered)),
            ),
    )
}

fn read_env_or_prompt(s: &mut Session, name: &str, label: &str) -> (r: Result<String, Stop>)
    ensures
        (final(s).talk(), both(r)) == env_or_prompt(old(s).talk(), name@, label@),
{
    let v = s.text(Ask::Env(name.to_owned()))?;
    let entered = prompt(s, label)?;
    Ok(unwrap_or_else(when_filled(v), entered))
}

/// A value without the space around it, where something is left.
pub open spec fn trimmed_value(v: Option<Seq<char>>) -> Option<Seq<char>> {
    match v {
        Some(s) => if is_filled(s) {
            Some(trimmed(s))
        } else {
            None
        },
        None => None,
    }
}

fn trim_value(v: Option<String>) -> (r: Option<String>)
    ensures
        r.deep_view() == trimmed_value(v.deep_view()),
{
    match v {
        Some(s) => {
            let value = trim(s.as_str());
            if value.as_str().is_empty() {
                None
            } else {
                Some(value)
            }
        },
        None => None,
    }
}

/// What the first of two variables of the environment that holds something holds.
pub open spec fn first_env(t: Talk, first: Seq<char>, second: Seq<char>) -> Step<
    Option<Seq<char>>,
> {
    bind(
        ask_text(t, AskData::Env(first)),
        |t: Talk, v: Option<Seq<char>>|
            match trimmed_value(v) {
                Some(s) => done(t, Some(s)),
                None => bind(
                    ask_text(t, AskData::Env(second)),
                    |t: Talk, w: Option<Seq<char>>| done(t, trimmed_value(w)),
                ),
            },
    )
}

pub fn env_first(s: &mut Session, first: &str, second: &str) -> (r: Result<Option<String>, Stop>)
    ensures
        (final(s).talk(), both(r)) == first_env(old(s).talk(), first@, second@),
{
    let v = s.text(Ask::Env(first.to_owned()))?;
    match trim_value(v) {
        Some(value) => Ok(Some(value)),
        None => {
            let w = s.text(Ask::Env(second.to_owned()))?;
            Ok(trim_value(w))
        },
    }
}

/// What the user enters, or the default where that is nothing.
pub open spec fn prompted_with_default(t: Talk, label: Seq<char>, default: Seq<char>) -> Step<
    Seq<char>,
> {
    bind(
        prompted(t, label + " ["@ + default + "]"@),
        |t: Talk, entered: Seq<char>|
            done(
                t,
                if is_filled(entered) {
                    entered
                } else {
                    default
                },
            ),
    )
}

pub fn prompt_with_default(s: &mut Session, label: &str, default: &str) -> (r: Result<String, Stop>)
    ensures
        (final(s).talk(), both(r)) == prompted_with_default(old(s).talk(), label@, default@),
{
    let question = cat3(label, " [", default).concat("]");
    let value = prompt(s, question.as_str())?;
    if filled(value.as_str()) {
        Ok(value)
    } else {
        Ok(default.to_owned())
    }
}

/// Opens an address in the browser; where that is not wished, or fails, the address is told.
pub open spec fn opened(t: Talk, uri: Seq<char>, dry_run: bool) -> Step<()> {
    if dry_run {
        done(say(t, "Open: "@ + uri), ())
    } else {
        bind(
            ask_browse(t, uri),
            |t: Talk, ok: bool|
                done(
                    if ok {
                        t
                    } else {
                        say_err(t, "Open: "@ + uri)
                    },
                    (),
                ),
        )
    }
}

pub fn open_or_print(s: &mut Session, uri: &str, dry_run: bool) -> (r: Result<(), Stop>)
    ensures
        (final(s).talk(), unit(r)) == opened(old(s).talk(), uri@, dry_run),
{
    if dry_run {
        s.say(cat2("Open: ", uri));
        return Ok(());
    }
    if !s.browse(uri.to_owned())? {
        s.say_err(cat2("Open: ", uri));
    }
    Ok(())
}

/// A blank line, a prompt, another blank line, and a page is opened.
pub open spec fn opened_on_enter(
    t: Talk,
    label: Seq<char>,
    uri: Seq<char>,
    dry_run: bool,
) -> Step<()> {
    bind(
        prompted(say(t, ""@), label),
        |t: Talk, entered: Seq<char>| opened(say(t, ""@), uri, dry_run),
    )
}

fn open_on_enter(s: &mut Session, label: &str, uri: &str, dry_run: bool) -> (r: Result<(), Stop>)
    ensures
        (final(s).talk(), unit(r)) == opened_on_enter(old(s).talk(), label@, uri@, dry_run),
{
    s.say("".to_owned());
    let _ = prompt(s, label)?;
    s.say("".to_owned());
    open_or_print(s, uri, dry_run)
}

/// The step that a result is.
pub open spec fn settled<T>(t: Talk, r: Result<T, ErrorData>) -> Step<T> {
    match r {
        Ok(v) => done(t, v),
        Err(e) => fail(t, e),
    }
}

fn http_error(text: &str) -> (r: CommandError)
    ensures
        r.deep_view() == ErrorData::Backend(FaultData::Http(text@)),
{
    CommandError::Backend(BackendError::Http(text.to_owned()))
}

// ---------------------------------------------------------------------------
// OAuth 1.0a
// ---------------------------------------------------------------------------

/// A field of a form that is not empty.
pub open spec fn form_field(pairs: Seq<(Seq<char>, Seq<char>)>, key: Seq<char>) -> Option<
    Seq<char>,
> {
    match text_for(pairs, key) {
        Some(s) => if s.len() > 0 {
            Some(s)
        } else {
            None
        },
        None => None,
    }
}

fn find_field(pairs: &Vec<(String, String)>, key: &str) -> (r: Option<String>)
    ensures
        r.deep_view() == form_field(pairs.deep_view(), key@),
{
    match find_text(pairs, key) {
        Some(s) => if s.as_str().is_empty() {
            None
        } else {
            Some(s.clone())
        },
        None => None,
    }
}

/// The token, its secret and the screen name in an answer; the first two have to be there.
pub open spec fn tokens_in(body: Seq<char>, answer: Seq<char>) -> Result<
    (Seq<char>, Seq<char>, Option<Seq<char>>),
    ErrorData,
> {
    match form_pairs(body) {
        Err(s) => Err(ErrorData::Backend(FaultData::Http(s))),
        Ok(pairs) => tokens_of(pairs, answer),
    }
}

pub open spec fn tokens_of(pairs: Seq<(Seq<char>, Seq<char>)>, answer: Seq<char>) -> Result<
    (Seq<char>, Seq<char>, Option<Seq<char>>),
    ErrorData,
> {
    match form_field(pairs, "oauth_token"@) {
        None => Err(
            ErrorData::Backend(FaultData::Http("oauth_token missing from "@ + answer)),
        ),
        Some(token) => match form_field(pairs, "oauth_token_secret"@) {
            None => Err(
                ErrorData::Backend(FaultData::Http("oauth_token_secret missing from "@ + answer)),
            ),
            Some(secret) => Ok((token, secret, form_field(pairs, "screen_name"@))),
        },
    }
}

/// Finds the tokens in the pairs of an answer.
pub fn find_oauth_tokens(pairs: &Vec<(String, String)>, answer: &str) -> (r: Result<
    (String, String, Option<String>),
    CommandError,
>)
    ensures
        both(r) == tokens_of(pairs.deep_view(), answer@),
{
    match find_field(pairs, "oauth_token") {
        None => Err(http_error(cat2("oauth_token missing from ", answer).as_str())),
        Some(token) => match find_field(pairs, "oauth_token_secret") {
            None => Err(http_error(cat2("oauth_token_secret missing from ", answer).as_str())),
            Some(secret) => Ok((token, secret, find_field(pairs, "screen_name"))),
        },
    }
}

/// Reads the tokens out of the text of an answer.
pub fn read_oauth_tokens(body: &str, answer: &str) -> (r: Result<
    (String, String, Option<String>),
    CommandError,
>)
    ensures
        both(r) == tokens_in(body@, answer@),
{
    match read_form(body) {
        Err(text) => Err(http_error(text.as_str())),
        Ok(pairs) => find_oauth_tokens(&pairs, answer),
    }
}

/// The tokens that a signed request is answered with.
pub open spec fn tokens_asked(t: Talk, request: SignedData, answer: Seq<char>) -> Step<
    (Seq<char>, Seq<char>, Option<Seq<char>>),
> {
    bind(
        ask_signed(t, request),
        |t: Talk, r: Result<Seq<char>, Seq<char>>|
            match r {
                Err(s) => fail(t, ErrorData::Backend(FaultData::Http(s))),
                Ok(body) => settled(t, tokens_in(body, answer)),
            },
    )
}

fn ask_tokens(s: &mut Session, request: SignedRequest, answer: &str) -> (r: Result<
    (String, String, Option<String>),
    Stop,
>)
    ensures
        (final(s).talk(), both(r)) == tokens_asked(old(s).talk(), request.deep_view(), answer@),
{
    match s.signed(request)? {
        Err(text) => Err(Stop::Fail(http_error(text.as_str()))),
        Ok(body) => match read_oauth_tokens(body.as_str(), answer) {
            Ok(tokens) => Ok(tokens),
            Err(e) => Err(Stop::Fail(e)),
        },
    }
}

/// The request for a request token.
pub open spec fn request_token_request(key: Seq<char>, secret: Seq<char>) -> SignedData {
    SignedData {
        url: "https://api.twitter.com/oauth/request_token"@,
        consumer: (key, secret),
        token: None,
        params: seq![("oauth_callback"@, "oob"@)],
    }
}

pub open spec fn request_token(t: Talk, key: Seq<char>, secret: Seq<char>) -> Step<
    (Seq<char>, Seq<char>),
> {
    bind(
        tokens_asked(t, request_token_request(key, secret), "request token response"@),
        |t: Talk, r: (Seq<char>, Seq<char>, Option<Seq<char>>)| done(t, (r.0, r.1)),
    )
}

pub fn oauth_request_token(s: &mut Session, key: &str, secret: &str) -> (r: Result<
    (String, String),
    Stop,
>)
    ensures
        (final(s).talk(), both(r)) == request_token(old(s).talk(), key@, secret@),
{
    let request = SignedRequest {
        url: "https://api.twitter.com/oauth/request_token".to_owned(),
        consumer: (key.to_owned(), secret.to_owned()),
        token: None,
        params: one_param("oauth_callback", "oob"),
    };
    let (token, token_secret, _) = ask_tokens(s, request, "request token response")?;
    Ok((token, token_secret))
}

/// The request that exchanges a request token and the user's PIN for an access token.
pub open spec fn access_token_request(
    key: Seq<char>,
    secret: Seq<char>,
    token: (Seq<char>, Seq<char>),
    pin: Seq<char>,
) -> SignedData {
    SignedData {
        url: "https://api.twitter.com/oauth/access_token"@,
        consumer: (key, secret),
        token: Some(token),
        params: seq![("oauth_verifier"@, trimmed(pin))],
    }
}

pub open spec fn access_token(
    t: Talk,
    key: Seq<char>,
    secret: Seq<char>,
    token: (Seq<char>, Seq<char>),
    pin: Seq<char>,
) -> Step<(Seq<char>, Seq<char>, Option<Seq<char>>)> {
    tokens_asked(t, access_token_request(key, secret, token, pin), "access token response"@)
}

pub fn oauth_access_token(
    s: &mut Session,
    key: &str,
    secret: &str,
    request_token: &str,
    request_secret: &str,
    pin: &str,
) -> (r: Result<(String, String, Option<String>), Stop>)
    ensures
        (final(s).talk(), both(r)) == access_token(
            old(s).talk(),
            key@,
            secret@,
            (request_token@, request_secret@),
            pin@,
        ),
{
    let request = SignedRequest {
        url: "https://api.twitter.com/oauth/access_token".to_owned(),
        consumer: (key.to_owned(), secret.to_owned()),
        token: Some((request_token.to_owned(), request_secret.to_owned())),
        params: one_param("oauth_verifier", trim(pin).as_str()),
    };
    ask_tokens(s, request, "access token response")
}

pub open spec fn me_request(
    key: Seq<char>,
    secret: Seq<char>,
    token: (Seq<char>, Seq<char>),
) -> SignedData {
    SignedData {
        url: "https://api.twitter.com/2/users/me"@,
        consumer: (key, secret),
        token: Some(token),
        params: seq![("user.fields"@, "username"@)],
    }
}

/// The name that a description of the user gives.
pub open spec fn own_name(payload: Data) -> Option<Seq<char>> {
    match payload.get("data"@) {
        Some(data) => text_in(data.get_either("username"@, "screen_name"@)),
        None => None,
    }
}

/// The name that the API gives the owner of the token, where it gives one.
pub open spec fn verified_name(
    t: Talk,
    key: Seq<char>,
    secret: Seq<char>,
    token: (Seq<char>, Seq<char>),
) -> Step<Option<Seq<char>>> {
    bind(
        ask_api(t, AskData::SignedGet(me_request(key, secret, token))),
        |t: Talk, r: Result<Data, FaultData>|
            match r {
                Ok(payload) => done(t, own_name(payload)),
                Err(e) => done(t, None),
            },
    )
}

pub fn oauth_verify_screen_name(
    s: &mut Session,
    key: &str,
    secret: &str,
    token: &str,
    token_secret: &str,
) -> (r: Result<Option<String>, Stop>)
    ensures
        (final(s).talk(), both(r)) == verified_name(
            old(s).talk(),
            key@,
            secret@,
            (token@, token_secret@),
        ),
{
    let request = SignedRequest {
        url: "https://api.twitter.com/2/users/me".to_owned(),
        consumer: (key.to_owned(), secret.to_owned()),
        token: Some((token.to_owned(), token_secret.to_owned())),
        params: one_param("user.fields", "username"),
    };
    match s.api(Ask::SignedGet(request))? {
        Ok(payload) => match payload.get("data") {
            Some(data) => match str_from(data.get_either("username", "screen_name")) {
                Some(name) => Ok(Some(name.clone())),
                None => Ok(None),
            },
            None => Ok(None),
        },
        Err(_) => Ok(None),
    }
}

/// What is said first: how to register an application, or that there is one.
pub open spec fn greeting(fresh: bool) -> Seq<Seq<char>> {
    if fresh {
        seq![
            "Welcome! Before you can use t, you'll first need to register an"@,
            "application with Twitter. Just follow the steps below:"@,
            "  1. Sign in to the Twitter Developer site and create an app."@,
            "  2. Set your app permissions to read and write."@,
            "  3. Copy your API key and API secret and paste them below."@,
        ]
    } else {
        seq![
            "It looks like you've already registered an application with Twitter."@,
            "To authorize a new account, follow the same app-key flow."@,
        ]
    }
}

fn greet(fresh: bool) -> (r: Vec<String>)
    ensures
        r.deep_view() == greeting(fresh),
{
    let lines: Vec<String> = if fresh {
        vec![
            "Welcome! Before you can use t, you'll first need to register an".to_owned(),
            "application with Twitter. Just follow the steps below:".to_owned(),
            "  1. Sign in to the Twitter Developer site and create an app.".to_owned(),
            "  2. Set your app permissions to read and write.".to_owned(),
            "  3. Copy your API key and API secret and paste them below.".to_owned(),
        ]
    } else {
        vec![
            "It looks like you've already registered an application with Twitter.".to_owned(),
            "To authorize a new account, follow the same app-key flow.".to_owned(),
        ]
    };
    assert(lines.deep_view() =~= greeting(fresh));
    lines
}

pub open spec fn pin_notice() -> Seq<Seq<char>> {
    seq![
        ""@,
        "In a moment, you will be directed to the Twitter app authorization page."@,
        "Sign in, authorize the app, and copy the PIN."@,
    ]
}

fn pin_notice_lines() -> (r: Vec<String>)
    ensures
        r.deep_view() == pin_notice(),
{
    let lines: Vec<String> = vec![
        "".to_owned(),
        "In a moment, you will be directed to the Twitter app authorization page.".to_owned(),
        "Sign in, authorize the app, and copy the PIN.".to_owned(),
    ];
    assert(lines.deep_view() =~= pin_notice());
    lines
}

/// The key and the secret of the application.
pub open spec fn application_keys(t: Talk, fresh: bool, display_uri: bool) -> Step<
    (Seq<char>, Seq<char>),
> {
    bind(
        opened_on_enter(
            say_all(t, greeting(fresh)),
            "Press [Enter] to open the Twitter Developer site."@,
            DEVELOPER_SITE@,
            display_uri,
        ),
        |t: Talk, u: ()|
            bind(
                env_or_prompt(t, "T_AUTHORIZE_API_KEY"@, "Enter your API key:"@),
                |t: Talk, key: Seq<char>|
                    bind(
                        env_or_prompt(t, "T_AUTHORIZE_API_SECRET"@, "Enter your API secret:"@),
                        |t: Talk, secret: Seq<char>| done(t, (key, secret)),
                    ),
            ),
    )
}

fn ask_application_keys(s: &mut Session, fresh: bool, display_uri: bool) -> (r: Result<
    (String, String),
    Stop,
>)
    ensures
        (final(s).talk(), both(r)) == application_keys(old(s).talk(), fresh, display_uri),
{
    s.say_lines(greet(fresh));
    open_on_enter(
        s,
        "Press [Enter] to open the Twitter Developer site.",
        DEVELOPER_SITE,
        display_uri,
    )?;
    let key = read_env_or_prompt(s, "T_AUTHORIZE_API_KEY", "Enter your API key:")?;
    let secret = read_env_or_prompt(s, "T_AUTHORIZE_API_SECRET", "Enter your API secret:")?;
    Ok((key, secret))
}

/// The PIN that the user gets on the authorization page.
pub open spec fn pin_asked(t: Talk, token: Seq<char>, display_uri: bool) -> Step<Seq<char>> {
    bind(
        opened_on_enter(
            say_all(t, pin_notice()),
            "Press [Enter] to open the Twitter app authorization page."@,
            "https://api.twitter.com/oauth/authorize?oauth_token="@ + percent_encoded(token),
            display_uri,
        ),
        |t: Talk, u: ()| env_or_prompt(t, "T_AUTHORIZE_PIN"@, "Enter the supplied PIN:"@),
    )
}

fn ask_pin(s: &mut Session, token: &str, display_uri: bool) -> (r: Result<String, Stop>)
    ensures
        (final(s).talk(), both(r)) == pin_asked(old(s).talk(), token@, display_uri),
{
    let uri = cat2(
        "https://api.twitter.com/oauth/authorize?oauth_token=",
        percent_encode(token).as_str(),
    );
    s.say_lines(pin_notice_lines());
    open_on_enter(
        s,
        "Press [Enter] to open the Twitter app authorization page.",
        uri.as_str(),
        display_uri,
    )?;
    read_env_or_prompt(s, "T_AUTHORIZE_PIN", "Enter the supplied PIN:")
}

/// The name to store an account under: that which the API gives, or that which came with the
/// token, or a stand-in.
pub open spec fn account_name(given: Option<Seq<char>>, hint: Option<Seq<char>>) -> Seq<char> {
    match given {
        Some(name) => name,
        None => or_else(hint, "authorized_user"@),
    }
}

pub open spec fn oauth1_credentials(
    name: Seq<char>,
    key: Seq<char>,
    secret: Seq<char>,
    token: (Seq<char>, Seq<char>),
) -> CredentialsData {
    CredentialsData {
        username: name,
        consumer_key: key,
        consumer_secret: secret,
        token: token.0,
        secret: token.1,
        bearer_token: None,
        oauth2_user: None,
    }
}

/// Stores an account that was authorized with OAuth 1.0a.
pub open spec fn account_saved(
    t: Talk,
    key: Seq<char>,
    secret: Seq<char>,
    access: (Seq<char>, Seq<char>, Option<Seq<char>>),
) -> Step<()> {
    let token = (access.0, access.1);
    bind(
        verified_name(t, key, secret, token),
        |t: Talk, given: Option<Seq<char>>|
            {
                let name = account_name(given, access.2);
                bind(
                    ask_done(
                        t,
                        AskData::SaveProfile {
                            name,
                            storage_key: key,
                            credentials: oauth1_credentials(name, key, secret, token),
                        },
                    ),
                    |t: Talk, u: ()| done(say(t, "Authorization successful."@), ()),
                )
            },
    )
}

fn save_account(
    s: &mut Session,
    key: String,
    secret: String,
    access: (String, String, Option<String>),
) -> (r: Result<(), Stop>)
    ensures
        (final(s).talk(), unit(r)) == account_saved(
            old(s).talk(),
            key@,
            secret@,
            access.deep_view(),
        ),
{
    let (token, token_secret, hint) = access;
    let given = oauth_verify_screen_name(
        s,
        key.as_str(),
        secret.as_str(),
        token.as_str(),
        token_secret.as_str(),
    )?;
    let name = match given {
        Some(name) => name,
        None => unwrap_or_else(hint, "authorized_user".to_owned()),
    };
    let credentials = Credentials {
        username: name.clone(),
        consumer_key: key.clone(),
        consumer_secret: secret,
        token,
        secret: token_secret,
        bearer_token: None,
        oauth2_user: None,
    };
    s.done(Ask::SaveProfile { name, storage_key: key, credentials })?;
    s.say("Authorization successful.".to_owned());
    Ok(())
}

/// The whole of an authorization with OAuth 1.0a.
pub open spec fn authorized_oauth1(t: Talk, book: BookData, display_uri: bool) -> Step<()> {
    bind(
        application_keys(t, book.profiles.len() == 0, display_uri),
        |t: Talk, app: (Seq<char>, Seq<char>)|
            bind(
                request_token(t, app.0, app.1),
                |t: Talk, token: (Seq<char>, Seq<char>)|
                    bind(
                        pin_asked(t, token.0, display_uri),
                        |t: Talk, pin: Seq<char>|
                            bind(
                                access_token(t, app.0, app.1, token, pin),
                                |t: Talk, access: (Seq<char>, Seq<char>, Option<Seq<char>>)|
                                    account_saved(t, app.0, app.1, access),
                            ),
                    ),
            ),
    )
}

pub open spec fn authorized(t: Talk, options: OptionsData, book: BookData) -> Step<()> {
    if options.flag("oauth2"@) {
        authorized_oauth2(t, book.credentials, options.flag("display-uri"@))
    } else {
        authorized_oauth1(t, book, options.flag("display-uri"@))
    }
}

pub fn run_authorize(s: &mut Session, options: &Options, book: &ProfileBook) -> (r: Result<
    (),
    Stop,
>)
    ensures
        (final(s).talk(), unit(r)) == authorized(old(s).talk(), options@, book.deep_view()),
{
    let display_uri = opt_bool(options, "display-uri");
    if opt_bool(options, "oauth2") {
        return run_authorize_oauth2(s, &book.credentials, display_uri);
    }
    assert(book.profiles.deep_view().len() == book.profiles@.len());
    let (key, secret) = ask_application_keys(s, book.profiles.len() == 0, display_uri)?;
    let (request_token, request_secret) = oauth_request_token(s, key.as_str(), secret.as_str())?;
    let pin = ask_pin(s, request_token.as_str(), display_uri)?;
    let access = oauth_access_token(
        s,
        key.as_str(),
        secret.as_str(),
        request_token.as_str(),
        request_secret.as_str(),
        pin.as_str(),
    )?;
    save_account(s, key, secret, access)
}

// ---------------------------------------------------------------------------
// OAuth 2.0: what is asked for
// ---------------------------------------------------------------------------

/// The scopes that are asked for unless the environment names others.
pub open spec fn default_scopes() -> Seq<Seq<char>> {
    seq![
        "tweet.read"@,
        "users.read"@,
        "bookmark.read"@,
        "bookmark.write"@,
        "offline.access"@,
    ]
}

fn oauth2_default_scopes() -> (r: Vec<String>)
    ensures
        r.deep_view() == default_scopes(),
{
    let scopes: Vec<String> = vec![
        "tweet.read".to_owned(),
        "users.read".to_owned(),
        "bookmark.read".to_owned(),
        "bookmark.write".to_owned(),
        "offline.access".to_owned(),
    ];
    assert(scopes.deep_view() =~= default_scopes());
    scopes
}

/// The scopes with one more at the end, unless it is among them.
pub open spec fn with_scope(scopes: Seq<Seq<char>>, scope: Seq<char>) -> Seq<Seq<char>> {
    if scopes.contains(scope) {
        scopes
    } else {
        scopes.push(scope)
    }
}

pub fn ensure_scope(scopes: &mut Vec<String>, scope: &str)
    ensures
        final(scopes).deep_view() == with_scope(old(scopes).deep_view(), scope@),
{
    let ghost all = scopes.deep_view();
    let mut i: usize = 0;
    while i < scopes.len()
        invariant
            i <= scopes@.len(),
            all == scopes.deep_view(),
            all == old(scopes).deep_view(),
            forall|k: int| 0 <= k < i ==> all[k] != scope@,
        decreases scopes@.len() - i,
    {
        assert(all[i as int] == scopes@[i as int]@);
        if same(scopes[i].as_str(), scope) {
            assert(all.contains(scope@));
            return ;
        }
        i += 1;
    }
    assert(!all.contains(scope@));
    extend_by(scopes, scope.to_owned());
}

/// The scopes with those that the commands need.
pub open spec fn with_required(scopes: Seq<Seq<char>>) -> Seq<Seq<char>> {
    with_scope(
        with_scope(
            with_scope(with_scope(scopes, "tweet.read"@), "users.read"@),
            "bookmark.read"@,
        ),
        "bookmark.write"@,
    )
}

/// The scopes to ask for, given what the environment names.
pub open spec fn scopes_for(named: Option<Seq<char>>) -> Seq<Seq<char>> {
    with_required(
        match named {
            Some(value) => words_of(value, CharSet::Separators),
            None => default_scopes(),
        },
    )
}

/// The scopes to ask for, given what the environment names.
pub fn choose_scopes(named: Option<String>) -> (r: Vec<String>)
    ensures
        r.deep_view() == scopes_for(named.deep_view()),
{
    let mut scopes = match named {
        Some(value) => words(value.as_str(), &CharSet::Separators),
        None => oauth2_default_scopes(),
    };
    ensure_scope(&mut scopes, "tweet.read");
    ensure_scope(&mut scopes, "users.read");
    ensure_scope(&mut scopes, "bookmark.read");
    ensure_scope(&mut scopes, "bookmark.write");
    scopes
}

/// Whatever the environment names, the scopes that the commands need are asked for, and what was
/// named is kept in its order.
pub proof fn law_required_scopes_are_asked_for(named: Option<Seq<char>>)
    ensures
        scopes_for(named).contains("tweet.read"@),
        scopes_for(named).contains("users.read"@),
        scopes_for(named).contains("bookmark.read"@),
        scopes_for(named).contains("bookmark.write"@),
        named matches Some(value) ==> words_of(value, CharSet::Separators).is_prefix_of(
            scopes_for(named),
        ),
        named is None ==> scopes_for(named) == default_scopes(),
{
    let start = match named {
        Some(value) => words_of(value, CharSet::Separators),
        None => default_scopes(),
    };
    let a = with_scope(start, "tweet.read"@);
    let b = with_scope(a, "users.read"@);
    let c = with_scope(b, "bookmark.read"@);
    let d = with_scope(c, "bookmark.write"@);
    lemma_scope_added(start, "tweet.read"@);
    lemma_scope_added(a, "users.read"@);
    lemma_scope_added(b, "bookmark.read"@);
    lemma_scope_added(c, "bookmark.write"@);
    if named is None {
        assert(start[0] == "tweet.read"@);
        assert(start[1] == "users.read"@);
        assert(start[2] == "bookmark.read"@);
        assert(start[3] == "bookmark.write"@);
    }
}

proof fn lemma_scope_added(scopes: Seq<Seq<char>>, scope: Seq<char>)
    ensures
        with_scope(scopes, scope).contains(scope),
        scopes.is_prefix_of(with_scope(scopes, scope)),
        forall|other: Seq<char>|
            scopes.contains(other) ==> #[trigger] with_scope(scopes, scope).contains(other),
{
    let all = with_scope(scopes, scope);
    if !scopes.contains(scope) {
        assert(all[scopes.len() as int] == scope);
        assert forall|other: Seq<char>| scopes.contains(other) implies #[trigger] all.contains(
            other,
        ) by {
            let i = choose|i: int| 0 <= i < scopes.len() && scopes[i] == other;
            assert(all[i] == other);
        }
    }
}

pub open spec fn scopes_asked(t: Talk) -> Step<Seq<Seq<char>>> {
    bind(
        first_env(t, "X_AUTHORIZE_OAUTH2_SCOPES"@, "T_AUTHORIZE_OAUTH2_SCOPES"@),
        |t: Talk, named: Option<Seq<char>>| done(t, scopes_for(named)),
    )
}

pub fn oauth2_scopes(s: &mut Session) -> (r: Result<Vec<String>, Stop>)
    ensures
        (final(s).talk(), both(r)) == scopes_asked(old(s).talk()),
{
    let named = env_first(s, "X_AUTHORIZE_OAUTH2_SCOPES", "T_AUTHORIZE_OAUTH2_SCOPES")?;
    Ok(choose_scopes(named))
}

/// The query of the authorization page.
pub open spec fn authorize_query(
    client_id: Seq<char>,
    redirect_uri: Seq<char>,
    scopes: Seq<Seq<char>>,
    state: Seq<char>,
    verifier: Seq<char>,
) -> Seq<(Seq<char>, Seq<char>)> {
    seq![
        ("response_type"@, "code"@),
        ("client_id"@, client_id),
        ("redirect_uri"@, redirect_uri),
        ("scope"@, joined(scopes, " "@)),
        ("state"@, state),
        ("code_challenge"@, code_challenge(verifier)),
        ("code_challenge_method"@, "S256"@),
    ]
}

/// The address of the authorization page.
pub open spec fn authorize_uri(
    client_id: Seq<char>,
    redirect_uri: Seq<char>,
    scopes: Seq<Seq<char>>,
    state: Seq<char>,
    verifier: Seq<char>,
) -> Result<Seq<char>, ErrorData> {
    match address_with(
        "https://x.com/i/oauth2/authorize"@,
        authorize_query(client_id, redirect_uri, scopes, state, verifier),
    ) {
        Ok(uri) => Ok(uri),
        Err(s) => Err(ErrorData::Other(s)),
    }
}

pub fn build_oauth2_authorize_uri(
    client_id: &str,
    redirect_uri: &str,
    scopes: &Vec<String>,
    state: &str,
    code_verifier: &str,
) -> (r: Result<String, CommandError>)
    requires
        byte_length(code_verifier@) < 0x2000_0000_0000_0000,
    ensures
        both(r) == authorize_uri(
            client_id@,
            redirect_uri@,
            scopes.deep_view(),
            state@,
            code_verifier@,
        ),
{
    let query: Vec<(String, String)> = vec![
        pair("response_type", "code"),
        pair("client_id", client_id),
        pair("redirect_uri", redirect_uri),
        pair("scope", join(scopes, " ").as_str()),
        pair("state", state),
        pair("code_challenge", pkce_s256_challenge(code_verifier).as_str()),
        pair("code_challenge_method", "S256"),
    ];
    assert(query.deep_view() =~= authorize_query(
        client_id@,
        redirect_uri@,
        scopes.deep_view(),
        state@,
        code_verifier@,
    ));
    proof {
        reveal_strlit("https://x.com/i/oauth2/authorize");
    }
    match append_query("https://x.com/i/oauth2/authorize", &query) {
        Ok(uri) => Ok(uri),
        Err(text) => Err(CommandError::Other(text)),
    }
}

// ---------------------------------------------------------------------------
// OAuth 2.0: what comes back
// ---------------------------------------------------------------------------

/// The code and the state in the query of the redirect.
pub open spec fn redirect_answer(query: Seq<(Seq<char>, Seq<char>)>) -> Result<
    (Seq<char>, Option<Seq<char>>),
    ErrorData,
> {
    match text_for(query, "error"@) {
        Some(error) => Err(
            ErrorData::Other(
                "OAuth2 authorization failed with "@ + error + match text_for(
                    query,
                    "error_description"@,
                ) {
                    Some(text) => ": "@ + text,
                    None => ""@,
                },
            ),
        ),
        None => match if_filled(text_for(query, "code"@)) {
            Some(code) => Ok((code, text_for(query, "state"@))),
            None => Err(
                ErrorData::Other("OAuth2 redirect URL did not contain a code parameter"@),
            ),
        },
    }
}

fn copied(s: Option<&String>) -> (r: Option<String>)
    ensures
        r.deep_view() == s.deep_view(),
{
    match s {
        Some(v) => Some(v.clone()),
        None => None,
    }
}

/// Finds the code and the state in the query of the redirect.
pub fn read_redirect_query(query: &Vec<(String, String)>) -> (r: Result<
    (String, Option<String>),
    CommandError,
>)
    ensures
        both(r) == redirect_answer(query.deep_view()),
{
    if let Some(error) = find_text(query, "error") {
        let description = match find_text(query, "error_description") {
            Some(text) => cat2(": ", text.as_str()),
            None => "".to_owned(),
        };
        let text = cat3(
            "OAuth2 authorization failed with ",
            error.as_str(),
            description.as_str(),
        );
        return Err(CommandError::Other(text));
    }
    match when_filled(copied(find_text(query, "code"))) {
        Some(code) => Ok((code, copied(find_text(query, "state")))),
        None => Err(
            CommandError::Other("OAuth2 redirect URL did not contain a code parameter".to_owned()),
        ),
    }
}

/// The code and the state that the user hands over: in an address, or the bare code.
pub open spec fn redirect_input(input: Seq<char>) -> Result<
    (Seq<char>, Option<Seq<char>>),
    ErrorData,
> {
    let text = trimmed(input);
    if text.len() == 0 {
        Err(ErrorData::Other("OAuth2 authorization response was empty"@))
    } else {
        match query_of(text) {
            Some(query) => redirect_answer(query),
            None => Ok((text, None)),
        }
    }
}

pub fn parse_oauth2_redirect_input(input: &str) -> (r: Result<
    (String, Option<String>),
    CommandError,
>)
    ensures
        both(r) == redirect_input(input@),
{
    let text = trim(input);
    if text.as_str().is_empty() {
        return Err(CommandError::Other("OAuth2 authorization response was empty".to_owned()));
    }
    match read_query(text.as_str()) {
        Some(query) => read_redirect_query(&query),
        None => Ok((text, None)),
    }
}

/// What a client authorizes with: its secret where it has one, and else its name in the form.
pub open spec fn exchange_form(
    client_id: Seq<char>,
    client_secret: Option<Seq<char>>,
    redirect_uri: Seq<char>,
    code: Seq<char>,
    verifier: Seq<char>,
) -> Seq<(Seq<char>, Seq<char>)> {
    let form = seq![
        ("code"@, code),
        ("grant_type"@, "authorization_code"@),
        ("redirect_uri"@, redirect_uri),
        ("code_verifier"@, verifier),
    ];
    match if_filled(client_secret) {
        Some(secret) => form,
        None => form.push(("client_id"@, client_id)),
    }
}

/// The request that exchanges the code for tokens.
pub open spec fn exchange_request(
    client_id: Seq<char>,
    client_secret: Option<Seq<char>>,
    redirect_uri: Seq<char>,
    code: Seq<char>,
    verifier: Seq<char>,
) -> AskData {
    AskData::Http {
        url: "https://api.x.com/2/oauth2/token"@,
        authorization: match if_filled(client_secret) {
            Some(secret) => Some(basic_credentials(client_id, secret)),
            None => None,
        },
        form: Some(exchange_form(client_id, client_secret, redirect_uri, code, verifier)),
    }
}

fn make_exchange_request(
    client_id: &str,
    client_secret: &Option<String>,
    redirect_uri: &str,
    code: &str,
    code_verifier: &str,
) -> (r: Ask)
    ensures
        r.deep_view() == exchange_request(
            client_id@,
            client_secret.deep_view(),
            redirect_uri@,
            code@,
            code_verifier@,
        ),
{
    let mut form: Vec<(String, String)> = vec![
        pair("code", code),
        pair("grant_type", "authorization_code"),
        pair("redirect_uri", redirect_uri),
        pair("code_verifier", code_verifier),
    ];
    assert(form.deep_view() =~= seq![
        ("code"@, code@),
        ("grant_type"@, "authorization_code"@),
        ("redirect_uri"@, redirect_uri@),
        ("code_verifier"@, code_verifier@),
    ]);
    let authorization = match client_secret {
        Some(secret) => if filled(secret.as_str()) {
            Some(basic_authorization(client_id, secret.as_str()))
        } else {
            None
        },
        None => None,
    };
    if authorization.is_none() {
        extend_by(&mut form, pair("client_id", client_id));
    }
    Ask::Http {
        url: "https://api.x.com/2/oauth2/token".to_owned(),
        authorization,
        form: Some(form),
    }
}

/// What the tokens in a response amount to, with the time at which they expire.
pub open spec fn user_context(
    payload: Data,
    access: Seq<char>,
    client_id: Seq<char>,
    client_secret: Option<Seq<char>>,
    requested: Seq<Seq<char>>,
    expires_at: Option<i64>,
) -> OAuth2Data {
    OAuth2Data {
        client_id,
        client_secret,
        access_token: access,
        refresh_token: if_filled(payload.text_at("refresh_token"@)),
        expires_at,
        scopes: match payload.text_at("scope"@) {
            Some(value) => words_of(value, CharSet::Whitespace),
            None => requested,
        },
    }
}

/// The seconds since 1970 after some more seconds, in the arithmetic of the machine.
pub open spec fn seconds_after(millis: u64, seconds: i64) -> i64 {
    ((millis / 1000) as i64).wrapping_add(seconds)
}

/// When the tokens expire, where the response says how long they last.
pub open spec fn expiry(t: Talk, lasts: Option<i64>) -> Step<Option<i64>> {
    match lasts {
        None => done(t, None),
        Some(seconds) => bind(
            ask_millis(t),
            |t: Talk, millis: u64| done(t, Some(seconds_after(millis, seconds))),
        ),
    }
}

fn find_expiry(s: &mut Session, lasts: Option<i64>) -> (r: Result<Option<i64>, Stop>)
    ensures
        (final(s).talk(), both(r)) == expiry(old(s).talk(), lasts),
{
    match lasts {
        None => Ok(None),
        Some(seconds) => {
            let millis: u64 = s.millis()?;
            Ok(Some(((millis / 1000) as i64).wrapping_add(seconds)))
        },
    }
}

/// The tokens that a code is exchanged for.
pub open spec fn code_exchanged(
    t: Talk,
    client_id: Seq<char>,
    client_secret: Option<Seq<char>>,
    redirect_uri: Seq<char>,
    code: Seq<char>,
    verifier: Seq<char>,
    requested: Seq<Seq<char>>,
) -> Step<OAuth2Data> {
    bind(
        ask_api(t, exchange_request(client_id, client_secret, redirect_uri, code, verifier)),
        |t: Talk, r: Result<Data, FaultData>|
            match r {
                Err(e) => fail(t, ErrorData::Backend(e)),
                Ok(payload) => match if_filled(payload.text_at("access_token"@)) {
                    None => fail(
                        t,
                        ErrorData::Other("OAuth2 token response did not include access_token"@),
                    ),
                    Some(access) => bind(
                        expiry(t, payload.signed_at("expires_in"@)),
                        |t: Talk, expires_at: Option<i64>|
                            done(
                                t,
                                user_context(
                                    payload,
                                    access,
                                    client_id,
                                    client_secret,
                                    requested,
                                    expires_at,
                                ),
                            ),
                    ),
                },
            },
    )
}

pub fn oauth2_exchange_authorization_code(
    s: &mut Session,
    client_id: &str,
    client_secret: &Option<String>,
    redirect_uri: &str,
    code: &str,
    code_verifier: &str,
    requested_scopes: &Vec<String>,
) -> (r: Result<OAuth2User, Stop>)
    ensures
        (final(s).talk(), both(r)) == code_exchanged(
            old(s).talk(),
            client_id@,
            client_secret.deep_view(),
            redirect_uri@,
            code@,
            code_verifier@,
            requested_scopes.deep_view(),
        ),
{
    let ask = make_exchange_request(client_id, client_secret, redirect_uri, code, code_verifier);
    let payload = match s.api(ask)? {
        Ok(payload) => payload,
        Err(e) => {
            return Err(Stop::Fail(CommandError::Backend(e)));
        },
    };
    let access_token = match when_filled(copied(payload.get_str("access_token"))) {
        Some(token) => token,
        None => {
            return Err(
                Stop::Fail(
                    CommandError::Other(
                        "OAuth2 token response did not include access_token".to_owned(),
                    ),
                ),
            );
        },
    };
    let expires_at = find_expiry(s, payload.get_i64("expires_in"))?;
    let scopes = match payload.get_str("scope") {
        Some(value) => split_whitespace(value.as_str()),
        None => copy_texts(requested_scopes),
    };
    let client_secret = match client_secret {
        Some(secret) => Some(secret.clone()),
        None => None,
    };
    Ok(
        OAuth2User {
            client_id: client_id.to_owned(),
            client_secret,
            access_token,
            refresh_token: when_filled(copied(payload.get_str("refresh_token"))),
            expires_at,
            scopes,
        },
    )
}

/// The name of the user whom a token stands for.
pub open spec fn token_owner(t: Talk, access: Seq<char>) -> Step<Seq<char>> {
    bind(
        ask_api(
            t,
            AskData::Http {
                url: "https://api.x.com/2/users/me?user.fields=username"@,
                authorization: Some("Bearer "@ + access),
                form: None,
            },
        ),
        |t: Talk, r: Result<Data, FaultData>|
            match r {
                Err(e) => fail(t, ErrorData::Backend(e)),
                Ok(payload) => match text_in(get_in(payload.get("data"@), "username"@)) {
                    Some(name) => done(t, name),
                    None => fail(
                        t,
                        ErrorData::Other("OAuth2 /2/users/me response did not include username"@),
                    ),
                },
            },
    )
}

pub fn oauth2_fetch_screen_name(s: &mut Session, access_token: &str) -> (r: Result<String, Stop>)
    ensures
        (final(s).talk(), both(r)) == token_owner(old(s).talk(), access_token@),
{
    let ask = Ask::Http {
        url: "https://api.x.com/2/users/me?user.fields=username".to_owned(),
        authorization: Some(cat2("Bearer ", access_token)),
        form: None,
    };
    let payload = match s.api(ask)? {
        Ok(payload) => payload,
        Err(e) => {
            return Err(Stop::Fail(CommandError::Backend(e)));
        },
    };
    match str_from(get_from(payload.get("data"), "username")) {
        Some(name) => Ok(name.clone()),
        None => Err(
            Stop::Fail(
                CommandError::Other(
                    "OAuth2 /2/users/me response did not include username".to_owned(),
                ),
            ),
        ),
    }
}

// ---------------------------------------------------------------------------
// OAuth 2.0: the whole
// ---------------------------------------------------------------------------

/// The credentials that are there already, where they are those of the user.
pub open spec fn own_credentials(existing: Option<CredentialsData>, name: Seq<char>) -> Option<
    CredentialsData,
> {
    match existing {
        Some(c) => if lowered(c.username) == lowered(name) {
            Some(c)
        } else {
            None
        },
        None => None,
    }
}

/// The key to store an account under: that of the user's credentials, or else the client's name.
pub open spec fn storage_key(
    existing: Option<CredentialsData>,
    name: Seq<char>,
    client_id: Seq<char>,
) -> Seq<char> {
    match own_credentials(existing, name) {
        Some(c) => if is_filled(c.consumer_key) {
            c.consumer_key
        } else {
            client_id
        },
        None => client_id,
    }
}

/// The user's credentials with new tokens; what there is besides them is kept.
pub open spec fn oauth2_credentials(
    existing: Option<CredentialsData>,
    name: Seq<char>,
    client_id: Seq<char>,
    user: OAuth2Data,
) -> CredentialsData {
    let key = storage_key(existing, name, client_id);
    match own_credentials(existing, name) {
        Some(c) => CredentialsData {
            username: name,
            consumer_key: if is_filled(c.consumer_key) {
                c.consumer_key
            } else {
                key
            },
            oauth2_user: Some(user),
            ..c
        },
        None => CredentialsData {
            username: name,
            consumer_key: key,
            consumer_secret: ""@,
            token: ""@,
            secret: ""@,
            bearer_token: None,
            oauth2_user: Some(user),
        },
    }
}

/// The key and the credentials to store.
pub fn merge_credentials(
    existing: &Option<Credentials>,
    name: &str,
    client_id: &str,
    user: OAuth2User,
) -> (r: (String, Credentials))
    ensures
        r.0@ == storage_key(existing.deep_view(), name@, client_id@),
        r.1.deep_view() == oauth2_credentials(
            existing.deep_view(),
            name@,
            client_id@,
            user.deep_view(),
        ),
{
    if let Some(c) = existing {
        if eq_ignore_ascii_case(c.username.as_str(), name) {
            let key = if filled(c.consumer_key.as_str()) {
                c.consumer_key.clone()
            } else {
                client_id.to_owned()
            };
            let mut credentials = c.copy();
            credentials.username = name.to_owned();
            if !filled(credentials.consumer_key.as_str()) {
                credentials.consumer_key = key.clone();
            }
            credentials.oauth2_user = Some(user);
            return (key, credentials);
        }
    }
    let credentials = Credentials {
        username: name.to_owned(),
        consumer_key: client_id.to_owned(),
        consumer_secret: "".to_owned(),
        token: "".to_owned(),
        secret: "".to_owned(),
        bearer_token: None,
        oauth2_user: Some(user),
    };
    (client_id.to_owned(), credentials)
}

pub open spec fn oauth2_notice() -> Seq<Seq<char>> {
    seq![
        "OAuth 2.0 user-context authorization is required for bookmarks."@,
        "Configure your X app with OAuth 2.0 enabled and an exact callback URL match."@,
        "Recommended scopes: "@ + joined(default_scopes(), " "@),
    ]
}

fn oauth2_notice_lines() -> (r: Vec<String>)
    ensures
        r.deep_view() == oauth2_notice(),
{
    let scopes = join(&oauth2_default_scopes(), " ");
    let lines: Vec<String> = vec![
        "OAuth 2.0 user-context authorization is required for bookmarks.".to_owned(),
        "Configure your X app with OAuth 2.0 enabled and an exact callback URL match.".to_owned(),
        cat2("Recommended scopes: ", scopes.as_str()),
    ];
    assert(lines.deep_view() =~= oauth2_notice());
    lines
}

pub open spec fn redirect_notice() -> Seq<Seq<char>> {
    seq![
        ""@,
        "Open the authorization page, sign in, and approve the app."@,
        "After X redirects to your callback URL, copy the full URL from the browser and paste it below."@,
    ]
}

fn redirect_notice_lines() -> (r: Vec<String>)
    ensures
        r.deep_view() == redirect_notice(),
{
    let lines: Vec<String> = vec![
        "".to_owned(),
        "Open the authorization page, sign in, and approve the app.".to_owned(),
        "After X redirects to your callback URL, copy the full URL from the browser and paste it below.".to_owned(),
    ];
    assert(lines.deep_view() =~= redirect_notice());
    lines
}

/// The client's secret, where there is one.
pub open spec fn client_secret_asked(t: Talk) -> Step<Option<Seq<char>>> {
    bind(
        first_env(
            t,
            "X_AUTHORIZE_OAUTH2_CLIENT_SECRET"@,
            "T_AUTHORIZE_OAUTH2_CLIENT_SECRET"@,
        ),
        |t: Talk, v: Option<Seq<char>>|
            bind(
                prompted(t, "Enter your OAuth2 client secret (press Enter for public clients):"@),
                |t: Talk, entered: Seq<char>|
                    done(
                        t,
                        match v {
                            Some(s) => Some(s),
                            None => if_filled(Some(entered)),
                        },
                    ),
            ),
    )
}

fn ask_client_secret(s: &mut Session) -> (r: Result<Option<String>, Stop>)
    ensures
        (final(s).talk(), both(r)) == client_secret_asked(old(s).talk()),
{
    let v = env_first(s, "X_AUTHORIZE_OAUTH2_CLIENT_SECRET", "T_AUTHORIZE_OAUTH2_CLIENT_SECRET")?;
    let entered = prompt(s, "Enter your OAuth2 client secret (press Enter for public clients):")?;
    match v {
        Some(secret) => Ok(Some(secret)),
        None => Ok(when_filled(Some(entered))),
    }
}

/// The client's name, its secret and the address that the user comes back to.
pub open spec fn client_asked(t: Talk, display_uri: bool) -> Step<
    (Seq<char>, Option<Seq<char>>, Seq<char>),
> {
    bind(
        opened_on_enter(
            say_all(t, oauth2_notice()),
            "Press [Enter] to open the X Developer site."@,
            DEVELOPER_SITE@,
            display_uri,
        ),
        |t: Talk, u: ()|
            bind(
                first_env(t, "X_AUTHORIZE_OAUTH2_CLIENT_ID"@, "T_AUTHORIZE_OAUTH2_CLIENT_ID"@),
                |t: Talk, named: Option<Seq<char>>|
                    bind(
                        prompted(t, "Enter your OAuth2 client ID:"@),
                        |t: Talk, entered: Seq<char>|
                            bind(
                                client_secret_asked(t),
                                |t: Talk, secret: Option<Seq<char>>|
                                    bind(
                                        redirect_uri_asked(t),
                                        |t: Talk, uri: Seq<char>|
                                            done(t, (or_else(named, entered), secret, uri)),
                                    ),
                            ),
                    ),
            ),
    )
}

fn ask_client(s: &mut Session, display_uri: bool) -> (r: Result<
    (String, Option<String>, String),
    Stop,
>)
    ensures
        (final(s).talk(), both(r)) == client_asked(old(s).talk(), display_uri),
{
    s.say_lines(oauth2_notice_lines());
    open_on_enter(s, "Press [Enter] to open the X Developer site.", DEVELOPER_SITE, display_uri)?;
    let named = env_first(s, "X_AUTHORIZE_OAUTH2_CLIENT_ID", "T_AUTHORIZE_OAUTH2_CLIENT_ID")?;
    let entered = prompt(s, "Enter your OAuth2 client ID:")?;
    let client_secret = ask_client_secret(s)?;
    let redirect_uri = ask_redirect_uri(s)?;
    Ok((unwrap_or_else(named, entered), client_secret, redirect_uri))
}

pub open spec fn redirect_uri_asked(t: Talk) -> Step<Seq<char>> {
    bind(
        first_env(t, "X_AUTHORIZE_OAUTH2_REDIRECT_URI"@, "T_AUTHORIZE_OAUTH2_REDIRECT_URI"@),
        |t: Talk, named: Option<Seq<char>>|
            bind(
                prompted_with_default(
                    t,
                    "Enter your OAuth2 redirect URI:"@,
                    DEFAULT_OAUTH2_REDIRECT_URI@,
                ),
                |t: Talk, entered: Seq<char>| done(t, or_else(named, entered)),
            ),
    )
}

fn ask_redirect_uri(s: &mut Session) -> (r: Result<String, Stop>)
    ensures
        (final(s).talk(), both(r)) == redirect_uri_asked(old(s).talk()),
{
    let named = env_first(s, "X_AUTHORIZE_OAUTH2_REDIRECT_URI", "T_AUTHORIZE_OAUTH2_REDIRECT_URI")?;
    let entered = prompt_with_default(
        s,
        "Enter your OAuth2 redirect URI:",
        DEFAULT_OAUTH2_REDIRECT_URI,
    )?;
    Ok(unwrap_or_else(named, entered))
}

/// Whether a text is short enough for its digest.
pub open spec fn has_digest(verifier: Seq<char>) -> bool {
    byte_length(verifier) < 0x2000_0000_0000_0000
}

/// The code that the user comes back with. A state that comes back has to be that which was sent.
pub open spec fn code_asked(
    t: Talk,
    client_id: Seq<char>,
    redirect_uri: Seq<char>,
    scopes: Seq<Seq<char>>,
    state: Seq<char>,
    verifier: Seq<char>,
    display_uri: bool,
) -> Step<Seq<char>> {
    if !has_digest(verifier) {
        fail(t, mismatch())
    } else {
        bind(
            settled(t, authorize_uri(client_id, redirect_uri, scopes, state, verifier)),
            |t: Talk, uri: Seq<char>|
                bind(
                    opened_on_enter(
                        say_all(t, redirect_notice()),
                        "Press [Enter] to open the OAuth 2.0 authorization page."@,
                        uri,
                        display_uri,
                    ),
                    |t: Talk, u: ()|
                        bind(
                            first_env(
                                t,
                                "X_AUTHORIZE_OAUTH2_REDIRECTED_URL"@,
                                "T_AUTHORIZE_OAUTH2_REDIRECTED_URL"@,
                            ),
                            |t: Talk, named: Option<Seq<char>>|
                                bind(
                                    prompted(
                                        t,
                                        "Paste the full redirected URL, or just the code value:"@,
                                    ),
                                    |t: Talk, entered: Seq<char>|
                                        settled(
                                            t,
                                            verified_code(or_else(named, entered), state),
                                        ),
                                ),
                        ),
                ),
        )
    }
}

/// The code in what the user hands over, unless another state came with it than was sent.
pub open spec fn verified_code(input: Seq<char>, state: Seq<char>) -> Result<
    Seq<char>,
    ErrorData,
> {
    match redirect_input(input) {
        Err(e) => Err(e),
        Ok((code, returned)) => if returned is Some && returned != Some(state) {
            Err(
                ErrorData::Other(
                    "OAuth2 state mismatch; authorization response could not be verified"@,
                ),
            )
        } else {
            Ok(code)
        },
    }
}

pub fn verify_code(input: &str, state: &str) -> (r: Result<String, CommandError>)
    ensures
        both(r) == verified_code(input@, state@),
{
    let (code, returned) = match parse_oauth2_redirect_input(input) {
        Ok(answer) => answer,
        Err(e) => {
            return Err(e);
        },
    };
    if let Some(returned) = returned {
        if !same(returned.as_str(), state) {
            return Err(
                CommandError::Other(
                    "OAuth2 state mismatch; authorization response could not be verified".to_owned(),
                ),
            );
        }
    }
    Ok(code)
}

fn ask_code(
    s: &mut Session,
    client_id: &str,
    redirect_uri: &str,
    scopes: &Vec<String>,
    state: &str,
    code_verifier: &str,
    display_uri: bool,
) -> (r: Result<String, Stop>)
    ensures
        (final(s).talk(), both(r)) == code_asked(
            old(s).talk(),
            client_id@,
            redirect_uri@,
            scopes.deep_view(),
            state@,
            code_verifier@,
            display_uri,
        ),
{
    let length: u64 = code_verifier.as_bytes().len() as u64;
    if length >= 0x2000_0000_0000_0000 {
        return Err(
            Stop::Fail(
                CommandError::Other("The reply does not answer what was asked".to_owned()),
            ),
        );
    }
    let uri = match build_oauth2_authorize_uri(
        client_id,
        redirect_uri,
        scopes,
        state,
        code_verifier,
    ) {
        Ok(uri) => uri,
        Err(e) => {
            return Err(Stop::Fail(e));
        },
    };
    s.say_lines(redirect_notice_lines());
    open_on_enter(
        s,
        "Press [Enter] to open the OAuth 2.0 authorization page.",
        uri.as_str(),
        display_uri,
    )?;
    let named = env_first(
        s,
        "X_AUTHORIZE_OAUTH2_REDIRECTED_URL",
        "T_AUTHORIZE_OAUTH2_REDIRECTED_URL",
    )?;
    let entered = prompt(s, "Paste the full redirected URL, or just the code value:")?;
    let input = unwrap_or_else(named, entered);
    match verify_code(input.as_str(), state) {
        Ok(code) => Ok(code),
        Err(e) => Err(Stop::Fail(e)),
    }
}

/// Stores an account that was authorized with OAuth 2.0.
pub open spec fn oauth2_saved(
    t: Talk,
    existing: Option<CredentialsData>,
    client_id: Seq<char>,
    user: OAuth2Data,
) -> Step<()> {
    bind(
        token_owner(t, user.access_token),
        |t: Talk, name: Seq<char>|
            bind(
                ask_done(
                    t,
                    AskData::SaveProfile {
                        name,
                        storage_key: storage_key(existing, name, client_id),
                        credentials: oauth2_credentials(existing, name, client_id, user),
                    },
                ),
                |t: Talk, u: ()| done(say(t, "OAuth2 authorization successful."@), ()),
            ),
    )
}

fn save_oauth2(
    s: &mut Session,
    existing: &Option<Credentials>,
    client_id: &str,
    user: OAuth2User,
) -> (r: Result<(), Stop>)
    ensures
        (final(s).talk(), unit(r)) == oauth2_saved(
            old(s).talk(),
            existing.deep_view(),
            client_id@,
            user.deep_view(),
        ),
{
    let name = oauth2_fetch_screen_name(s, user.access_token.as_str())?;
    let (key, credentials) = merge_credentials(existing, name.as_str(), client_id, user);
    s.done(Ask::SaveProfile { name, storage_key: key, credentials })?;
    s.say("OAuth2 authorization successful.".to_owned());
    Ok(())
}

/// The whole of an authorization with OAuth 2.0.
pub open spec fn authorized_oauth2(
    t: Talk,
    existing: Option<CredentialsData>,
    display_uri: bool,
) -> Step<()> {
    bind(
        client_asked(t, display_uri),
        |t: Talk, client: (Seq<char>, Option<Seq<char>>, Seq<char>)|
            bind(
                scopes_asked(t),
                |t: Talk, scopes: Seq<Seq<char>>|
                    bind(
                        ask_token(t, 24),
                        |t: Talk, state: Seq<char>|
                            bind(
                                ask_token(t, 48),
                                |t: Talk, verifier: Seq<char>|
                                    exchanged_and_saved(
                                        t,
                                        existing,
                                        client,
                                        scopes,
                                        state,
                                        verifier,
                                        display_uri,
                                    ),
                            ),
                    ),
            ),
    )
}

pub open spec fn exchanged_and_saved(
    t: Talk,
    existing: Option<CredentialsData>,
    client: (Seq<char>, Option<Seq<char>>, Seq<char>),
    scopes: Seq<Seq<char>>,
    state: Seq<char>,
    verifier: Seq<char>,
    display_uri: bool,
) -> Step<()> {
    bind(
        code_asked(t, client.0, client.2, scopes, state, verifier, display_uri),
        |t: Talk, code: Seq<char>|
            bind(
                code_exchanged(t, client.0, client.1, client.2, code, verifier, scopes),
                |t: Talk, user: OAuth2Data| oauth2_saved(t, existing, client.0, user),
            ),
    )
}

pub fn run_authorize_oauth2(
    s: &mut Session,
    existing_credentials: &Option<Credentials>,
    display_uri: bool,
) -> (r: Result<(), Stop>)
    ensures
        (final(s).talk(), unit(r)) == authorized_oauth2(
            old(s).talk(),
            existing_credentials.deep_view(),
            display_uri,
        ),
{
    let (client_id, client_secret, redirect_uri) = ask_client(s, display_uri)?;
    let scopes = oauth2_scopes(s)?;
    let state = s.token(24)?;
    let code_verifier = s.token(48)?;
    let code = ask_code(
        s,
        client_id.as_str(),
        redirect_uri.as_str(),
        &scopes,
        state.as_str(),
        code_verifier.as_str(),
        display_uri,
    )?;
    let user = oauth2_exchange_authorization_code(
        s,
        client_id.as_str(),
        &client_secret,
        redirect_uri.as_str(),
        code.as_str(),
        code_verifier.as_str(),
        &scopes,
    )?;
    save_oauth2(s, existing_credentials, client_id.as_str(), user)
}

/// A code is taken from a redirect only where the state that came with it, if one did, is the one
/// that was sent.
pub proof fn law_state_has_to_match(input: Seq<char>, state: Seq<char>)
    ensures
        verified_code(input, state) matches Ok(code) ==> (redirect_input(input) matches Ok(answer)
            && answer.0 == code && (answer.1 is None || answer.1 == Some(state))),
        redirect_input(input) matches Ok(answer) ==> (answer.1 is Some && answer.1 != Some(state)
            ==> verified_code(input, state) is Err),
{
}

/// Authorizing an account for OAuth 2.0 keeps what it signs older calls with.
pub proof fn law_older_tokens_are_kept(
    existing: CredentialsData,
    name: Seq<char>,
    client_id: Seq<char>,
    user: OAuth2Data,
)
    requires
        lowered(existing.username) == lowered(name),
    ensures
        ({
            let kept = oauth2_credentials(Some(existing), name, client_id, user);
            &&& kept.consumer_secret == existing.consumer_secret
            &&& kept.token == existing.token
            &&& kept.secret == existing.secret
            &&& kept.bearer_token == existing.bearer_token
            &&& kept.oauth2_user == Some(user)
        }),
{
}

} // verus!
