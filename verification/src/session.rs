//! A command as a talk with the world outside.
//!
//! A command runs on the replies that are known so far. Where it needs one more, it stops with
//! what it asks for; once the reply is recorded, it is run again from its start. What it says is
//! gathered between two asks, so that each line is said once.

use vstd::prelude::*;

use crate::json::{copy_texts, Data, Json};
use crate::list::{extend_by, map_list};
use crate::params::AuthScheme;
use crate::time::{Clock, ClockData, Instant};

verus! {

// ---------------------------------------------------------------------------
// Errors
// ---------------------------------------------------------------------------

/// Why a call to the API failed.
pub enum BackendError {
    /// The API, or the way to it, answered with an error.
    Http(String),
    /// No account is authorized.
    MissingCredentials,
    /// Anything else, in words.
    Other(String),
}

pub ghost enum FaultData {
    Http(Seq<char>),
    MissingCredentials,
    Other(Seq<char>),
}

impl DeepView for BackendError {
    type V = FaultData;

    open spec fn deep_view(&self) -> FaultData {
        match *self {
            BackendError::Http(s) => FaultData::Http(s@),
            BackendError::MissingCredentials => FaultData::MissingCredentials,
            BackendError::Other(s) => FaultData::Other(s@),
        }
    }
}

impl BackendError {
    pub fn copy(&self) -> (r: BackendError)
        ensures
            r.deep_view() == self.deep_view(),
    {
        match self {
            BackendError::Http(s) => BackendError::Http(s.clone()),
            BackendError::MissingCredentials => BackendError::MissingCredentials,
            BackendError::Other(s) => BackendError::Other(s.clone()),
        }
    }
}

/// Why a command failed.
pub enum CommandError {
    RcFile(String),
    Backend(BackendError),
    Io(String),
    MissingArguments { command: String, expected: usize },
    Other(String),
}

pub ghost enum ErrorData {
    RcFile(Seq<char>),
    Backend(FaultData),
    Io(Seq<char>),
    MissingArguments { command: Seq<char>, expected: nat },
    Other(Seq<char>),
}

impl DeepView for CommandError {
    type V = ErrorData;

    open spec fn deep_view(&self) -> ErrorData {
        match *self {
            CommandError::RcFile(s) => ErrorData::RcFile(s@),
            CommandError::Backend(e) => ErrorData::Backend(e.deep_view()),
            CommandError::Io(s) => ErrorData::Io(s@),
            CommandError::MissingArguments { command, expected } => ErrorData::MissingArguments {
                command: command@,
                expected: expected as nat,
            },
            CommandError::Other(s) => ErrorData::Other(s@),
        }
    }
}

// ---------------------------------------------------------------------------
// Accounts
// ---------------------------------------------------------------------------

/// The OAuth 2.0 user context of an account.
pub struct OAuth2User {
    pub client_id: String,
    pub client_secret: Option<String>,
    pub access_token: String,
    pub refresh_token: Option<String>,
    pub expires_at: Option<i64>,
    pub scopes: Vec<String>,
}

pub ghost struct OAuth2Data {
    pub client_id: Seq<char>,
    pub client_secret: Option<Seq<char>>,
    pub access_token: Seq<char>,
    pub refresh_token: Option<Seq<char>>,
    pub expires_at: Option<i64>,
    pub scopes: Seq<Seq<char>>,
}

impl DeepView for OAuth2User {
    type V = OAuth2Data;

    open spec fn deep_view(&self) -> OAuth2Data {
        OAuth2Data {
            client_id: self.client_id@,
            client_secret: self.client_secret.deep_view(),
            access_token: self.access_token@,
            refresh_token: self.refresh_token.deep_view(),
            expires_at: self.expires_at,
            scopes: self.scopes.deep_view(),
        }
    }
}

/// What an account signs its calls with.
pub struct Credentials {
    pub username: String,
    pub consumer_key: String,
    pub consumer_secret: String,
    pub token: String,
    pub secret: String,
    pub bearer_token: Option<String>,
    pub oauth2_user: Option<OAuth2User>,
}

pub ghost struct CredentialsData {
    pub username: Seq<char>,
    pub consumer_key: Seq<char>,
    pub consumer_secret: Seq<char>,
    pub token: Seq<char>,
    pub secret: Seq<char>,
    pub bearer_token: Option<Seq<char>>,
    pub oauth2_user: Option<OAuth2Data>,
}

impl DeepView for Credentials {
    type V = CredentialsData;

    open spec fn deep_view(&self) -> CredentialsData {
        CredentialsData {
            username: self.username@,
            consumer_key: self.consumer_key@,
            consumer_secret: self.consumer_secret@,
            token: self.token@,
            secret: self.secret@,
            bearer_token: self.bearer_token.deep_view(),
            oauth2_user: self.oauth2_user.deep_view(),
        }
    }
}

fn copy_option(s: &Option<String>) -> (r: Option<String>)
    ensures
        r.deep_view() == s.deep_view(),
{
    match s {
        Some(t) => Some(t.clone()),
        None => None,
    }
}

impl Credentials {
    pub fn copy(&self) -> (r: Credentials)
        ensures
            r.deep_view() == self.deep_view(),
    {
        let oauth2_user = match &self.oauth2_user {
            Some(u) => Some(
                OAuth2User {
                    client_id: u.client_id.clone(),
                    client_secret: copy_option(&u.client_secret),
                    access_token: u.access_token.clone(),
                    refresh_token: copy_option(&u.refresh_token),
                    expires_at: u.expires_at,
                    scopes: copy_texts(&u.scopes),
                },
            ),
            None => None,
        };
        Credentials {
            username: self.username.clone(),
            consumer_key: self.consumer_key.clone(),
            consumer_secret: self.consumer_secret.clone(),
            token: self.token.clone(),
            secret: self.secret.clone(),
            bearer_token: copy_option(&self.bearer_token),
            oauth2_user,
        }
    }
}

/// The accounts in the configuration file: the keys of each, and the active one.
pub struct ProfileBook {
    pub profiles: Vec<(String, Vec<String>)>,
    pub active: Option<(String, String)>,
    pub credentials: Option<Credentials>,
}

pub ghost struct BookData {
    pub profiles: Seq<(Seq<char>, Seq<Seq<char>>)>,
    pub active: Option<(Seq<char>, Seq<char>)>,
    pub credentials: Option<CredentialsData>,
}

impl DeepView for ProfileBook {
    type V = BookData;

    open spec fn deep_view(&self) -> BookData {
        BookData {
            profiles: self.profiles.deep_view(),
            active: self.active.deep_view(),
            credentials: self.credentials.deep_view(),
        }
    }
}

impl ProfileBook {
    pub fn copy(&self) -> (r: ProfileBook)
        ensures
            r.deep_view() == self.deep_view(),
    {
        let both = |p: &(String, Vec<String>)| -> (q: (String, Vec<String>))
            ensures
                q.deep_view() == p.deep_view(),
        {
            (p.0.clone(), copy_texts(&p.1))
        };
        let profiles = map_list(
            &self.profiles,
            both,
            Ghost(|p: (Seq<char>, Seq<Seq<char>>)| p),
        );
        proof {
            let all = self.profiles.deep_view();
            assert(all.map_values(|p: (Seq<char>, Seq<Seq<char>>)| p) =~= all);
        }
        let active = match &self.active {
            Some((name, key)) => Some((name.clone(), key.clone())),
            None => None,
        };
        let credentials = match &self.credentials {
            Some(c) => Some(c.copy()),
            None => None,
        };
        ProfileBook { profiles, active, credentials }
    }
}

impl BookData {
    /// The name of the active account, or a stand-in.
    pub open spec fn active_name(self) -> Seq<char> {
        match self.active {
            Some((name, key)) => name,
            None => "unknown"@,
        }
    }
}

pub fn active_profile_name_or_unknown(book: &ProfileBook) -> (r: String)
    ensures
        r@ == book.deep_view().active_name(),
{
    match &book.active {
        Some((name, _)) => name.clone(),
        None => "unknown".to_owned(),
    }
}

// ---------------------------------------------------------------------------
// Asks and replies
// ---------------------------------------------------------------------------

/// How a call to the API is made and signed.
#[derive(Clone, Copy, Debug, PartialEq, Eq, Structural)]
pub enum Method {
    Get,
    GetOauth2,
    GetOauth2User,
    Post,
    PostBody,
    PostBodyOauth2,
    PostBodyOauth2User,
    Delete,
    DeleteOauth2User,
}

/// A call to the API. `retry` says whether it may be repeated where it fails for the moment only.
pub struct Request {
    pub method: Method,
    pub retry: bool,
    pub path: String,
    pub params: Vec<(String, String)>,
    pub body: Option<Json>,
}

#[verifier::ext_equal]
pub ghost struct RequestData {
    pub method: Method,
    pub retry: bool,
    pub path: Seq<char>,
    pub params: Seq<(Seq<char>, Seq<char>)>,
    pub body: Option<Data>,
}

impl DeepView for Request {
    type V = RequestData;

    open spec fn deep_view(&self) -> RequestData {
        RequestData {
            method: self.method,
            retry: self.retry,
            path: self.path@,
            params: self.params.deep_view(),
            body: self.body.deep_view(),
        }
    }
}

/// What is made of the events of a stream.
#[derive(Clone, Copy, Debug, PartialEq, Eq, Structural)]
pub enum StreamKind {
    Tweets,
    Matrix,
}

/// A request that is signed with OAuth 1.0a for a consumer, and a token where there is one.
pub struct SignedRequest {
    pub url: String,
    pub consumer: (String, String),
    pub token: Option<(String, String)>,
    pub params: Vec<(String, String)>,
}

pub ghost struct SignedData {
    pub url: Seq<char>,
    pub consumer: (Seq<char>, Seq<char>),
    pub token: Option<(Seq<char>, Seq<char>)>,
    pub params: Seq<(Seq<char>, Seq<char>)>,
}

impl DeepView for SignedRequest {
    type V = SignedData;

    open spec fn deep_view(&self) -> SignedData {
        SignedData {
            url: self.url@,
            consumer: self.consumer.deep_view(),
            token: self.token.deep_view(),
            params: self.params.deep_view(),
        }
    }
}

/// What a command asks of the world outside.
pub enum Ask {
    /// The accounts in the configuration file.
    Profiles,
    /// Makes an account active.
    SetActive { user: String, key: Option<String> },
    /// Removes an account, or one key of it.
    DeleteAccount { user: String, key: Option<String> },
    /// Stores credentials and makes them active.
    SaveProfile { name: String, storage_key: String, credentials: Credentials },
    /// Prepares calls that are signed with the credentials.
    Connect(Credentials),
    /// The credentials that calls are signed with by now; renewed tokens are among them.
    Refreshed,
    /// Stores renewed credentials.
    StoreCredentials { name: String, storage_key: String, credentials: Credentials },
    /// A call to the API.
    Api(Request),
    /// A stream of events, opened with the signature, until `limit` of them were shown where there is a limit.
    Stream {
        kind: StreamKind,
        path: String,
        params: Vec<(String, String)>,
        auth: AuthScheme,
        limit: Option<usize>,
    },
    /// A line from the user, after the given text.
    Prompt(String),
    /// The bytes of a file.
    ReadFile(String),
    /// The present, and the time zone at the instants.
    Clock(Vec<Instant>),
    /// Milliseconds since 1970.
    Millis,
    /// A variable of the environment.
    Env(String),
    /// Opens an address in the browser.
    Browse(String),
    /// Random bytes, so many, as URL-safe text.
    RandomToken(usize),
    /// The shortest notation of the number that the text gives, where it gives one.
    Decimal(String),
    /// The text at an address.
    Page(String),
    /// The JSON value at an address.
    JsonPage(String),
    /// A signed request by POST, for its text.
    SignedPost(SignedRequest),
    /// A signed request by GET, for its JSON value.
    SignedGet(SignedRequest),
    /// A form sent by POST, or a GET where there is no form, with an `Authorization` header where
    /// one is given.
    Http { url: String, authorization: Option<String>, form: Option<Vec<(String, String)>> },
}

pub ghost enum AskData {
    Profiles,
    SetActive { user: Seq<char>, key: Option<Seq<char>> },
    DeleteAccount { user: Seq<char>, key: Option<Seq<char>> },
    SaveProfile { name: Seq<char>, storage_key: Seq<char>, credentials: CredentialsData },
    Connect(CredentialsData),
    Refreshed,
    StoreCredentials { name: Seq<char>, storage_key: Seq<char>, credentials: CredentialsData },
    Api(RequestData),
    Stream {
        kind: StreamKind,
        path: Seq<char>,
        params: Seq<(Seq<char>, Seq<char>)>,
        auth: AuthScheme,
        limit: Option<nat>,
    },
    Prompt(Seq<char>),
    ReadFile(Seq<char>),
    Clock(Seq<Instant>),
    Millis,
    Env(Seq<char>),
    Browse(Seq<char>),
    RandomToken(nat),
    Decimal(Seq<char>),
    Page(Seq<char>),
    JsonPage(Seq<char>),
    SignedPost(SignedData),
    SignedGet(SignedData),
    Http {
        url: Seq<char>,
        authorization: Option<Seq<char>>,
        form: Option<Seq<(Seq<char>, Seq<char>)>>,
    },
}

impl DeepView for Ask {
    type V = AskData;

    open spec fn deep_view(&self) -> AskData {
        match *self {
            Ask::Profiles => AskData::Profiles,
            Ask::SetActive { user, key } => AskData::SetActive { user: user@, key: key.deep_view() },
            Ask::DeleteAccount { user, key } => AskData::DeleteAccount {
                user: user@,
                key: key.deep_view(),
            },
            Ask::SaveProfile { name, storage_key, credentials } => AskData::SaveProfile {
                name: name@,
                storage_key: storage_key@,
                credentials: credentials.deep_view(),
            },
            Ask::Connect(c) => AskData::Connect(c.deep_view()),
            Ask::Refreshed => AskData::Refreshed,
            Ask::StoreCredentials { name, storage_key, credentials } => AskData::StoreCredentials {
                name: name@,
                storage_key: storage_key@,
                credentials: credentials.deep_view(),
            },
            Ask::Api(r) => AskData::Api(r.deep_view()),
            Ask::Stream { kind, path, params, auth, limit } => AskData::Stream {
                kind,
                path: path@,
                params: params.deep_view(),
                auth,
                limit: match limit {
                    Some(n) => Some(n as nat),
                    None => None,
                },
            },
            Ask::Prompt(s) => AskData::Prompt(s@),
            Ask::ReadFile(s) => AskData::ReadFile(s@),
            Ask::Clock(v) => AskData::Clock(v@),
            Ask::Millis => AskData::Millis,
            Ask::Env(s) => AskData::Env(s@),
            Ask::Browse(s) => AskData::Browse(s@),
            Ask::RandomToken(n) => AskData::RandomToken(n as nat),
            Ask::Decimal(s) => AskData::Decimal(s@),
            Ask::Page(s) => AskData::Page(s@),
            Ask::JsonPage(s) => AskData::JsonPage(s@),
            Ask::SignedPost(r) => AskData::SignedPost(r.deep_view()),
            Ask::SignedGet(r) => AskData::SignedGet(r.deep_view()),
            Ask::Http { url, authorization, form } => AskData::Http {
                url: url@,
                authorization: authorization.deep_view(),
                form: form.deep_view(),
            },
        }
    }
}

/// Where reading a page failed, and how.
pub enum PageError {
    Send(String),
    Read(String),
    Parse(String),
}

pub ghost enum PageFault {
    Send(Seq<char>),
    Read(Seq<char>),
    Parse(Seq<char>),
}

impl DeepView for PageError {
    type V = PageFault;

    open spec fn deep_view(&self) -> PageFault {
        match *self {
            PageError::Send(s) => PageFault::Send(s@),
            PageError::Read(s) => PageFault::Read(s@),
            PageError::Parse(s) => PageFault::Parse(s@),
        }
    }
}

/// What the world outside replies.
pub enum Reply {
    /// To `Profiles`.
    Profiles(Result<ProfileBook, String>),
    /// To `SetActive`, with the name of the account.
    Named(Result<String, String>),
    /// To `DeleteAccount`, `SaveProfile` and `StoreCredentials`.
    Done(Result<(), String>),
    /// To `Api`, `SignedGet` and `Http`.
    Api(Result<Json, BackendError>),
    /// To `Refreshed`.
    Credentials(Credentials),
    /// To `Stream` and `Connect`.
    Ended(Result<(), BackendError>),
    /// To `Prompt`.
    Line(Result<String, String>),
    /// To `ReadFile`.
    Bytes(Result<Vec<u8>, String>),
    /// To `Clock`.
    Clock(Clock),
    /// To `Millis`.
    Millis(u64),
    /// To `Env` and `Decimal`.
    Text(Option<String>),
    /// To `Browse`: whether a browser was opened.
    Browsed(bool),
    /// To `RandomToken`.
    Token(Result<String, String>),
    /// To `Page`.
    Page(Result<String, PageError>),
    /// To `JsonPage`.
    JsonPage(Result<Json, PageError>),
    /// To `SignedPost`.
    Signed(Result<String, String>),
}

pub ghost enum ReplyData {
    Profiles(Result<BookData, Seq<char>>),
    Named(Result<Seq<char>, Seq<char>>),
    Done(Result<(), Seq<char>>),
    Api(Result<Data, FaultData>),
    Credentials(CredentialsData),
    Ended(Result<(), FaultData>),
    Line(Result<Seq<char>, Seq<char>>),
    Bytes(Result<Seq<u8>, Seq<char>>),
    Clock(ClockData),
    Millis(u64),
    Text(Option<Seq<char>>),
    Browsed(bool),
    Token(Result<Seq<char>, Seq<char>>),
    Page(Result<Seq<char>, PageFault>),
    JsonPage(Result<Data, PageFault>),
    Signed(Result<Seq<char>, Seq<char>>),
}

/// What both sides of a result stand for.
pub open spec fn both<T: DeepView, E: DeepView>(r: Result<T, E>) -> Result<T::V, E::V> {
    match r {
        Ok(v) => Ok(v.deep_view()),
        Err(e) => Err(e.deep_view()),
    }
}

impl DeepView for Reply {
    type V = ReplyData;

    open spec fn deep_view(&self) -> ReplyData {
        match *self {
            Reply::Profiles(r) => ReplyData::Profiles(both(r)),
            Reply::Named(r) => ReplyData::Named(both(r)),
            Reply::Done(r) => ReplyData::Done(
                match r {
                    Ok(()) => Ok(()),
                    Err(s) => Err(s@),
                },
            ),
            Reply::Api(r) => ReplyData::Api(both(r)),
            Reply::Credentials(c) => ReplyData::Credentials(c.deep_view()),
            Reply::Ended(r) => ReplyData::Ended(
                match r {
                    Ok(()) => Ok(()),
                    Err(e) => Err(e.deep_view()),
                },
            ),
            Reply::Line(r) => ReplyData::Line(both(r)),
            Reply::Bytes(r) => ReplyData::Bytes(
                match r {
                    Ok(v) => Ok(v@),
                    Err(s) => Err(s@),
                },
            ),
            Reply::Clock(c) => ReplyData::Clock(c@),
            Reply::Millis(n) => ReplyData::Millis(n),
            Reply::Text(s) => ReplyData::Text(s.deep_view()),
            Reply::Browsed(b) => ReplyData::Browsed(b),
            Reply::Token(r) => ReplyData::Token(both(r)),
            Reply::Page(r) => ReplyData::Page(both(r)),
            Reply::JsonPage(r) => ReplyData::JsonPage(both(r)),
            Reply::Signed(r) => ReplyData::Signed(both(r)),
        }
    }
}

/// Why a command stopped: it asks for something, or it failed.
pub enum Stop {
    Ask(Ask),
    Fail(CommandError),
}

pub ghost enum StopData {
    Ask(AskData),
    Fail(ErrorData),
}

impl DeepView for Stop {
    type V = StopData;

    open spec fn deep_view(&self) -> StopData {
        match *self {
            Stop::Ask(a) => StopData::Ask(a.deep_view()),
            Stop::Fail(e) => StopData::Fail(e.deep_view()),
        }
    }
}

/// Something that a command says: a line on the standard output or the standard error, or a JSON
/// value on the standard output.
pub enum Saying {
    Out(String),
    Complaint(String),
    Json(Json),
}

pub ghost enum SayingData {
    Out(Seq<char>),
    Complaint(Seq<char>),
    Json(Data),
}

impl DeepView for Saying {
    type V = SayingData;

    open spec fn deep_view(&self) -> SayingData {
        match *self {
            Saying::Out(s) => SayingData::Out(s@),
            Saying::Complaint(s) => SayingData::Complaint(s@),
            Saying::Json(j) => SayingData::Json(j@),
        }
    }
}

// ---------------------------------------------------------------------------
// The talk
// ---------------------------------------------------------------------------

/// The replies that are known, how many of them were used, and what was said since the last; for
/// proofs also all that was asked for, from the start on.
pub struct Session {
    pub replies: Vec<Reply>,
    pub next: usize,
    pub said: Vec<Saying>,
    pub asked: Ghost<Seq<AskData>>,
}

#[verifier::ext_equal]
pub ghost struct Talk {
    pub replies: Seq<ReplyData>,
    pub next: nat,
    pub said: Seq<SayingData>,
    pub asked: Seq<AskData>,
}

/// How many of the known replies are not used yet.
pub open spec fn replies_left(t: Talk) -> nat {
    if t.next < t.replies.len() {
        (t.replies.len() - t.next) as nat
    } else {
        0
    }
}

/// What a command comes to from a point in its talk.
pub type Step<T> = (Talk, Result<T, StopData>);

/// The talk goes on with `k` where the step came to a value.
pub open spec fn bind<A, B>(step: Step<A>, k: spec_fn(Talk, A) -> Step<B>) -> Step<B> {
    match step.1 {
        Ok(a) => k(step.0, a),
        Err(stop) => (step.0, Err(stop)),
    }
}

pub open spec fn done<A>(t: Talk, a: A) -> Step<A> {
    (t, Ok(a))
}

pub open spec fn fail<A>(t: Talk, e: ErrorData) -> Step<A> {
    (t, Err(StopData::Fail(e)))
}

/// Asks for a reply: the next one that is known, or else the command stops here. With a reply,
/// what was said before counts as said. Either way it is noted what was asked for.
pub open spec fn ask(t: Talk, a: AskData) -> Step<ReplyData> {
    if t.next < t.replies.len() {
        (
            Talk {
                replies: t.replies,
                next: t.next + 1,
                said: Seq::empty(),
                asked: t.asked.push(a),
            },
            Ok(t.replies[t.next as int]),
        )
    } else {
        (Talk { asked: t.asked.push(a), ..t }, Err(StopData::Ask(a)))
    }
}

/// A reply that does not answer what was asked.
pub open spec fn mismatch() -> ErrorData {
    ErrorData::Other("The reply does not answer what was asked"@)
}

pub open spec fn say(t: Talk, line: Seq<char>) -> Talk {
    Talk { said: t.said.push(SayingData::Out(line)), ..t }
}

pub open spec fn say_err(t: Talk, line: Seq<char>) -> Talk {
    Talk { said: t.said.push(SayingData::Complaint(line)), ..t }
}

pub open spec fn say_json(t: Talk, value: Data) -> Talk {
    Talk { said: t.said.push(SayingData::Json(value)), ..t }
}

pub open spec fn say_all(t: Talk, lines: Seq<Seq<char>>) -> Talk {
    Talk { said: t.said + lines.map_values(|l: Seq<char>| SayingData::Out(l)), ..t }
}

// What each ask comes to.

pub open spec fn ask_profiles(t: Talk) -> Step<BookData> {
    bind(
        ask(t, AskData::Profiles),
        |t: Talk, r: ReplyData|
            match r {
                ReplyData::Profiles(Ok(book)) => done(t, book),
                ReplyData::Profiles(Err(s)) => fail(t, ErrorData::RcFile(s)),
                _ => fail(t, mismatch()),
            },
    )
}

pub open spec fn ask_named(t: Talk, a: AskData) -> Step<Seq<char>> {
    bind(
        ask(t, a),
        |t: Talk, r: ReplyData|
            match r {
                ReplyData::Named(Ok(s)) => done(t, s),
                ReplyData::Named(Err(s)) => fail(t, ErrorData::RcFile(s)),
                _ => fail(t, mismatch()),
            },
    )
}

pub open spec fn ask_done(t: Talk, a: AskData) -> Step<()> {
    bind(
        ask(t, a),
        |t: Talk, r: ReplyData|
            match r {
                ReplyData::Done(Ok(())) => done(t, ()),
                ReplyData::Done(Err(s)) => fail(t, ErrorData::RcFile(s)),
                _ => fail(t, mismatch()),
            },
    )
}

/// A call whose failure is looked at.
pub open spec fn ask_api(t: Talk, a: AskData) -> Step<Result<Data, FaultData>> {
    bind(
        ask(t, a),
        |t: Talk, r: ReplyData|
            match r {
                ReplyData::Api(result) => done(t, result),
                _ => fail(t, mismatch()),
            },
    )
}

/// A call whose failure ends the command.
pub open spec fn call(t: Talk, request: RequestData) -> Step<Data> {
    bind(
        ask_api(t, AskData::Api(request)),
        |t: Talk, r: Result<Data, FaultData>|
            match r {
                Ok(d) => done(t, d),
                Err(e) => fail(t, ErrorData::Backend(e)),
            },
    )
}

pub open spec fn ask_stream(t: Talk, a: AskData) -> Step<Result<(), FaultData>> {
    bind(
        ask(t, a),
        |t: Talk, r: ReplyData|
            match r {
                ReplyData::Ended(result) => done(t, result),
                _ => fail(t, mismatch()),
            },
    )
}

pub open spec fn ask_credentials(t: Talk) -> Step<CredentialsData> {
    bind(
        ask(t, AskData::Refreshed),
        |t: Talk, r: ReplyData|
            match r {
                ReplyData::Credentials(c) => done(t, c),
                _ => fail(t, mismatch()),
            },
    )
}

/// Whether something was done, for what that is worth.
pub open spec fn ask_attempt(t: Talk, a: AskData) -> Step<()> {
    bind(
        ask(t, a),
        |t: Talk, r: ReplyData|
            match r {
                ReplyData::Done(attempt) => done(t, ()),
                _ => fail(t, mismatch()),
            },
    )
}

pub open spec fn ask_line(t: Talk, text: Seq<char>) -> Step<Seq<char>> {
    bind(
        ask(t, AskData::Prompt(text)),
        |t: Talk, r: ReplyData|
            match r {
                ReplyData::Line(Ok(s)) => done(t, s),
                ReplyData::Line(Err(s)) => fail(t, ErrorData::Io(s)),
                _ => fail(t, mismatch()),
            },
    )
}

pub open spec fn ask_file(t: Talk, path: Seq<char>) -> Step<Seq<u8>> {
    bind(
        ask(t, AskData::ReadFile(path)),
        |t: Talk, r: ReplyData|
            match r {
                ReplyData::Bytes(Ok(s)) => done(t, s),
                ReplyData::Bytes(Err(s)) => fail(t, ErrorData::Io(s)),
                _ => fail(t, mismatch()),
            },
    )
}

pub open spec fn ask_clock(t: Talk, instants: Seq<Instant>) -> Step<ClockData> {
    bind(
        ask(t, AskData::Clock(instants)),
        |t: Talk, r: ReplyData|
            match r {
                ReplyData::Clock(c) => done(t, c),
                _ => fail(t, mismatch()),
            },
    )
}

pub open spec fn ask_millis(t: Talk) -> Step<u64> {
    bind(
        ask(t, AskData::Millis),
        |t: Talk, r: ReplyData|
            match r {
                ReplyData::Millis(n) => done(t, n),
                _ => fail(t, mismatch()),
            },
    )
}

pub open spec fn ask_text(t: Talk, a: AskData) -> Step<Option<Seq<char>>> {
    bind(
        ask(t, a),
        |t: Talk, r: ReplyData|
            match r {
                ReplyData::Text(s) => done(t, s),
                _ => fail(t, mismatch()),
            },
    )
}

pub open spec fn ask_browse(t: Talk, uri: Seq<char>) -> Step<bool> {
    bind(
        ask(t, AskData::Browse(uri)),
        |t: Talk, r: ReplyData|
            match r {
                ReplyData::Browsed(b) => done(t, b),
                _ => fail(t, mismatch()),
            },
    )
}

pub open spec fn ask_token(t: Talk, len: nat) -> Step<Seq<char>> {
    bind(
        ask(t, AskData::RandomToken(len)),
        |t: Talk, r: ReplyData|
            match r {
                ReplyData::Token(Ok(s)) => done(t, s),
                ReplyData::Token(Err(s)) => fail(t, ErrorData::Other(s)),
                _ => fail(t, mismatch()),
            },
    )
}

pub open spec fn ask_page(t: Talk, url: Seq<char>) -> Step<Result<Seq<char>, PageFault>> {
    bind(
        ask(t, AskData::Page(url)),
        |t: Talk, r: ReplyData|
            match r {
                ReplyData::Page(p) => done(t, p),
                _ => fail(t, mismatch()),
            },
    )
}

pub open spec fn ask_json_page(t: Talk, url: Seq<char>) -> Step<Result<Data, PageFault>> {
    bind(
        ask(t, AskData::JsonPage(url)),
        |t: Talk, r: ReplyData|
            match r {
                ReplyData::JsonPage(p) => done(t, p),
                _ => fail(t, mismatch()),
            },
    )
}

pub open spec fn ask_signed(t: Talk, request: SignedData) -> Step<Result<Seq<char>, Seq<char>>> {
    bind(
        ask(t, AskData::SignedPost(request)),
        |t: Talk, r: ReplyData|
            match r {
                ReplyData::Signed(p) => done(t, p),
                _ => fail(t, mismatch()),
            },
    )
}

fn mismatched() -> (r: Stop)
    ensures
        r.deep_view() == StopData::Fail(mismatch()),
{
    Stop::Fail(CommandError::Other("The reply does not answer what was asked".to_owned()))
}

fn copy_texts_result(r: &Result<String, String>) -> (q: Result<String, String>)
    ensures
        both(q) == both(*r),
{
    match r {
        Ok(s) => Ok(s.clone()),
        Err(s) => Err(s.clone()),
    }
}

fn copy_page_error(e: &PageError) -> (r: PageError)
    ensures
        r.deep_view() == e.deep_view(),
{
    match e {
        PageError::Send(s) => PageError::Send(s.clone()),
        PageError::Read(s) => PageError::Read(s.clone()),
        PageError::Parse(s) => PageError::Parse(s.clone()),
    }
}

impl Session {
    /// A talk that starts with the given replies known.
    pub fn new(replies: Vec<Reply>) -> (r: Session)
        ensures
            r.talk() == (Talk {
                replies: replies.deep_view(),
                next: 0,
                said: Seq::empty(),
                asked: Seq::empty(),
            }),
    {
        let said: Vec<Saying> = Vec::new();
        assert(said.deep_view() =~= Seq::empty());
        Session { replies, next: 0, said, asked: Ghost(Seq::empty()) }
    }

    pub open spec fn talk(&self) -> Talk {
        Talk {
            replies: self.replies.deep_view(),
            next: self.next as nat,
            said: self.said.deep_view(),
            asked: self.asked@,
        }
    }

    /// The place of the reply to `a`, or the ask itself where none is known.
    fn reply_at(&mut self, a: Ask) -> (r: Result<usize, Stop>)
        ensures
            final(self).replies == old(self).replies,
            final(self).talk() == ask(old(self).talk(), a.deep_view()).0,
            match r {
                Ok(i) => i < final(self).replies@.len() && ask(
                    old(self).talk(),
                    a.deep_view(),
                ).1 == Ok::<ReplyData, StopData>(final(self).replies@[i as int].deep_view()),
                Err(stop) => ask(old(self).talk(), a.deep_view()).1 == Err::<ReplyData, StopData>(
                    stop.deep_view(),
                ),
            },
    {
        assert(self.replies.deep_view().len() == self.replies@.len());
        self.asked = Ghost(self.asked@.push(a.deep_view()));
        if self.next < self.replies.len() {
            let i: usize = self.next;
            self.next = i + 1;
            self.said = Vec::new();
            assert(self.said.deep_view() =~= Seq::empty());
            Ok(i)
        } else {
            Err(Stop::Ask(a))
        }
    }

    pub fn say(&mut self, line: String)
        ensures
            final(self).talk() == say(old(self).talk(), line@),
    {
        extend_by(&mut self.said, Saying::Out(line));
    }

    pub fn say_err(&mut self, line: String)
        ensures
            final(self).talk() == say_err(old(self).talk(), line@),
    {
        extend_by(&mut self.said, Saying::Complaint(line));
    }

    pub fn write_json(&mut self, value: Json)
        ensures
            final(self).talk() == say_json(old(self).talk(), value@),
    {
        extend_by(&mut self.said, Saying::Json(value));
    }

    pub fn write_json_array(&mut self, values: Vec<Json>)
        ensures
            final(self).talk() == say_json(old(self).talk(), Data::Array(values.deep_view())),
    {
        let value = crate::json::array_json(values);
        self.write_json(value);
    }

    pub fn say_lines(&mut self, lines: Vec<String>)
        ensures
            final(self).talk() == say_all(old(self).talk(), lines.deep_view()),
    {
        let ghost before = self.said.deep_view();
        let ghost all = lines.deep_view();
        let ghost f = |l: Seq<char>| SayingData::Out(l);
        let mut i: usize = 0;
        assert(before + all.take(0).map_values(f) =~= before);
        while i < lines.len()
            invariant
                i <= lines.len(),
                all == lines.deep_view(),
                f == (|l: Seq<char>| SayingData::Out(l)),
                self.replies == old(self).replies,
                self.next == old(self).next,
                self.asked == old(self).asked,
                self.said.deep_view() == before + all.take(i as int).map_values(f),
            decreases lines.len() - i,
        {
            proof {
                crate::list::lemma_mapped_step(all, i as int, f);
            }
            extend_by(&mut self.said, Saying::Out(lines[i].clone()));
            assert(self.said.deep_view() =~= before + all.take(i + 1).map_values(f));
            i += 1;
        }
        assert(all.take(i as int) =~= all);
    }

    pub fn profiles(&mut self) -> (r: Result<ProfileBook, Stop>)
        ensures
            (final(self).talk(), both(r)) == ask_profiles(old(self).talk()),
    {
        let i: usize = self.reply_at(Ask::Profiles)?;
        match &self.replies[i] {
            Reply::Profiles(Ok(book)) => Ok(book.copy()),
            Reply::Profiles(Err(s)) => Err(Stop::Fail(CommandError::RcFile(s.clone()))),
            _ => Err(mismatched()),
        }
    }

    pub fn named(&mut self, a: Ask) -> (r: Result<String, Stop>)
        ensures
            (final(self).talk(), both(r)) == ask_named(old(self).talk(), a.deep_view()),
    {
        let i: usize = self.reply_at(a)?;
        match &self.replies[i] {
            Reply::Named(Ok(s)) => Ok(s.clone()),
            Reply::Named(Err(s)) => Err(Stop::Fail(CommandError::RcFile(s.clone()))),
            _ => Err(mismatched()),
        }
    }

    pub fn done(&mut self, a: Ask) -> (r: Result<(), Stop>)
        ensures
            (final(self).talk(), unit(r)) == ask_done(old(self).talk(), a.deep_view()),
    {
        let i: usize = self.reply_at(a)?;
        match &self.replies[i] {
            Reply::Done(Ok(())) => Ok(()),
            Reply::Done(Err(s)) => Err(Stop::Fail(CommandError::RcFile(s.clone()))),
            _ => Err(mismatched()),
        }
    }

    pub fn api(&mut self, a: Ask) -> (r: Result<Result<Json, BackendError>, Stop>)
        ensures
            (final(self).talk(), inner(r)) == ask_api(old(self).talk(), a.deep_view()),
    {
        let i: usize = self.reply_at(a)?;
        match &self.replies[i] {
            Reply::Api(Ok(j)) => Ok(Ok(j.copy())),
            Reply::Api(Err(e)) => Ok(Err(e.copy())),
            _ => Err(mismatched()),
        }
    }

    pub fn call(&mut self, request: Request) -> (r: Result<Json, Stop>)
        ensures
            (final(self).talk(), both(r)) == call(old(self).talk(), request.deep_view()),
    {
        match self.api(Ask::Api(request))? {
            Ok(j) => Ok(j),
            Err(e) => Err(Stop::Fail(CommandError::Backend(e))),
        }
    }

    pub fn stream(&mut self, a: Ask) -> (r: Result<Result<(), BackendError>, Stop>)
        ensures
            (final(self).talk(), inner_unit(r)) == ask_stream(old(self).talk(), a.deep_view()),
    {
        let i: usize = self.reply_at(a)?;
        match &self.replies[i] {
            Reply::Ended(Ok(())) => Ok(Ok(())),
            Reply::Ended(Err(e)) => Ok(Err(e.copy())),
            _ => Err(mismatched()),
        }
    }

    pub fn refreshed(&mut self) -> (r: Result<Credentials, Stop>)
        ensures
            (final(self).talk(), both(r)) == ask_credentials(old(self).talk()),
    {
        let i: usize = self.reply_at(Ask::Refreshed)?;
        match &self.replies[i] {
            Reply::Credentials(c) => Ok(c.copy()),
            _ => Err(mismatched()),
        }
    }

    pub fn attempt(&mut self, a: Ask) -> (r: Result<(), Stop>)
        ensures
            (final(self).talk(), unit(r)) == ask_attempt(old(self).talk(), a.deep_view()),
    {
        let i: usize = self.reply_at(a)?;
        match &self.replies[i] {
            Reply::Done(_) => Ok(()),
            _ => Err(mismatched()),
        }
    }

    pub fn line(&mut self, text: String) -> (r: Result<String, Stop>)
        ensures
            (final(self).talk(), both(r)) == ask_line(old(self).talk(), text@),
    {
        let i: usize = self.reply_at(Ask::Prompt(text))?;
        match &self.replies[i] {
            Reply::Line(Ok(s)) => Ok(s.clone()),
            Reply::Line(Err(s)) => Err(Stop::Fail(CommandError::Io(s.clone()))),
            _ => Err(mismatched()),
        }
    }

    pub fn file(&mut self, path: String) -> (r: Result<Vec<u8>, Stop>)
        ensures
            (final(self).talk(), bytes(r)) == ask_file(old(self).talk(), path@),
    {
        let i: usize = self.reply_at(Ask::ReadFile(path))?;
        match &self.replies[i] {
            Reply::Bytes(Ok(v)) => {
                let copy = v.clone();
                assert(copy@ =~= v@);
                Ok(copy)
            },
            Reply::Bytes(Err(s)) => Err(Stop::Fail(CommandError::Io(s.clone()))),
            _ => Err(mismatched()),
        }
    }

    pub fn clock(&mut self, instants: Vec<Instant>) -> (r: Result<Clock, Stop>)
        ensures
            (final(self).talk(), timed(r)) == ask_clock(old(self).talk(), instants@),
    {
        let i: usize = self.reply_at(Ask::Clock(instants))?;
        match &self.replies[i] {
            Reply::Clock(c) => {
                let mut zone: Vec<(Instant, i32)> = Vec::new();
                let mut k: usize = 0;
                while k < c.zone.len()
                    invariant
                        k <= c.zone.len(),
                        zone@ == c.zone@.take(k as int),
                    decreases c.zone.len() - k,
                {
                    zone.push((c.zone[k].0, c.zone[k].1));
                    k += 1;
                    assert(zone@ =~= c.zone@.take(k as int));
                }
                assert(zone@ =~= c.zone@);
                Ok(Clock { now: c.now, zone })
            },
            _ => Err(mismatched()),
        }
    }

    pub fn millis(&mut self) -> (r: Result<u64, Stop>)
        ensures
            (final(self).talk(), both(r)) == ask_millis(old(self).talk()),
    {
        let i: usize = self.reply_at(Ask::Millis)?;
        match &self.replies[i] {
            Reply::Millis(n) => Ok(*n),
            _ => Err(mismatched()),
        }
    }

    pub fn text(&mut self, a: Ask) -> (r: Result<Option<String>, Stop>)
        ensures
            (final(self).talk(), both(r)) == ask_text(old(self).talk(), a.deep_view()),
    {
        let i: usize = self.reply_at(a)?;
        match &self.replies[i] {
            Reply::Text(s) => Ok(copy_option(s)),
            _ => Err(mismatched()),
        }
    }

    pub fn browse(&mut self, uri: String) -> (r: Result<bool, Stop>)
        ensures
            (final(self).talk(), both(r)) == ask_browse(old(self).talk(), uri@),
    {
        let i: usize = self.reply_at(Ask::Browse(uri))?;
        match &self.replies[i] {
            Reply::Browsed(b) => Ok(*b),
            _ => Err(mismatched()),
        }
    }

    pub fn token(&mut self, len: usize) -> (r: Result<String, Stop>)
        ensures
            (final(self).talk(), both(r)) == ask_token(old(self).talk(), len as nat),
    {
        let i: usize = self.reply_at(Ask::RandomToken(len))?;
        match &self.replies[i] {
            Reply::Token(Ok(s)) => Ok(s.clone()),
            Reply::Token(Err(s)) => Err(Stop::Fail(CommandError::Other(s.clone()))),
            _ => Err(mismatched()),
        }
    }

    pub fn page(&mut self, url: String) -> (r: Result<Result<String, PageError>, Stop>)
        ensures
            (final(self).talk(), inner(r)) == ask_page(old(self).talk(), url@),
    {
        let i: usize = self.reply_at(Ask::Page(url))?;
        match &self.replies[i] {
            Reply::Page(Ok(s)) => Ok(Ok(s.clone())),
            Reply::Page(Err(e)) => Ok(Err(copy_page_error(e))),
            _ => Err(mismatched()),
        }
    }

    pub fn json_page(&mut self, url: String) -> (r: Result<Result<Json, PageError>, Stop>)
        ensures
            (final(self).talk(), inner(r)) == ask_json_page(old(self).talk(), url@),
    {
        let i: usize = self.reply_at(Ask::JsonPage(url))?;
        match &self.replies[i] {
            Reply::JsonPage(Ok(j)) => Ok(Ok(j.copy())),
            Reply::JsonPage(Err(e)) => Ok(Err(copy_page_error(e))),
            _ => Err(mismatched()),
        }
    }

    pub fn signed(&mut self, request: SignedRequest) -> (r: Result<Result<String, String>, Stop>)
        ensures
            (final(self).talk(), inner(r)) == ask_signed(old(self).talk(), request.deep_view()),
    {
        let i: usize = self.reply_at(Ask::SignedPost(request))?;
        match &self.replies[i] {
            Reply::Signed(p) => Ok(copy_texts_result(p)),
            _ => Err(mismatched()),
        }
    }
}

// Results of the asks whose values need a view of their own.

pub open spec fn unit(r: Result<(), Stop>) -> Result<(), StopData> {
    match r {
        Ok(()) => Ok(()),
        Err(s) => Err(s.deep_view()),
    }
}

pub open spec fn inner<T: DeepView, E: DeepView>(r: Result<Result<T, E>, Stop>) -> Result<
    Result<T::V, E::V>,
    StopData,
> {
    match r {
        Ok(v) => Ok(both(v)),
        Err(s) => Err(s.deep_view()),
    }
}

pub open spec fn inner_unit(r: Result<Result<(), BackendError>, Stop>) -> Result<
    Result<(), FaultData>,
    StopData,
> {
    match r {
        Ok(Ok(())) => Ok(Ok(())),
        Ok(Err(e)) => Ok(Err(e.deep_view())),
        Err(s) => Err(s.deep_view()),
    }
}

pub open spec fn bytes(r: Result<Vec<u8>, Stop>) -> Result<Seq<u8>, StopData> {
    match r {
        Ok(v) => Ok(v@),
        Err(s) => Err(s.deep_view()),
    }
}

pub open spec fn timed(r: Result<Clock, Stop>) -> Result<ClockData, StopData> {
    match r {
        Ok(c) => Ok(c@),
        Err(s) => Err(s.deep_view()),
    }
}

/// A talk in which more replies are known.
pub open spec fn with_more(t: Talk, more: Seq<ReplyData>) -> Talk {
    Talk { replies: t.replies + more, ..t }
}

} // verus!
