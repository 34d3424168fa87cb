//! Whole commands, run against a backend with canned answers.

use clap::builder::PossibleValuesParser;
use clap::{Arg, ArgAction, ArgMatches, Command};
use serde_json::Value;
use std::collections::{HashMap, VecDeque};

use x_cli::command::execute_command;
use x_cli::errors::{failure_lines, format_error_for_display};
use x_cli::extract::{extract_geo_places, extract_users};
use x_cli::fetch::{extract_collection_entries, fetch_current_user, fetch_user_collections};
use x_cli::invocation::Invocation;
use x_cli::json::{Json, Number};
use x_cli::manifest::legacy_app_spec;
use x_cli::messages::dm_event_type;
use x_cli::options::Options;
use x_cli::params::AuthScheme;
use x_cli::places::resolve_geo_coordinates;
use x_cli::plan::{
    command_for_path, command_plan, first_step, ArgPlan, ArgRole, CommandPlan, Start,
};
use x_cli::session::{
    Ask, BackendError, CommandError, Credentials, Method, OAuth2User, PageError, ProfileBook,
    Reply, Request, Saying, Session, Stop,
};
use x_cli::stream::{stream_event, tweet_from_stream_event};
use x_cli::time::{created_time, Clock, Instant};

const VERSION: &str = "5.0.0";

// ---------------------------------------------------------------------------
// JSON
// ---------------------------------------------------------------------------

fn json(text: &str) -> Value {
    serde_json::from_str(text).expect("valid JSON")
}

fn to_json(value: &Value) -> Json {
    match value {
        Value::Null => Json::Null,
        Value::Bool(b) => Json::Bool(*b),
        Value::Number(n) => {
            if let Some(u) = n.as_u64() {
                Json::Number(Number::Unsigned(u))
            } else if let Some(i) = n.as_i64() {
                Json::Number(Number::Negative(i))
            } else {
                Json::Number(Number::Float(n.to_string()))
            }
        }
        Value::String(s) => Json::Text(s.clone()),
        Value::Array(items) => Json::Array(items.iter().map(to_json).collect()),
        Value::Object(map) => {
            Json::Object(map.iter().map(|(k, v)| (k.clone(), to_json(v))).collect())
        }
    }
}

fn to_value(value: &Json) -> Value {
    match value {
        Json::Null => Value::Null,
        Json::Bool(b) => Value::Bool(*b),
        Json::Number(Number::Unsigned(n)) => Value::from(*n),
        Json::Number(Number::Negative(n)) => Value::from(*n),
        Json::Number(Number::Float(s)) => serde_json::from_str(s).expect("a number"),
        Json::Text(s) => Value::String(s.clone()),
        Json::Array(items) => Value::Array(items.iter().map(to_value).collect()),
        Json::Object(entries) => Value::Object(
            entries
                .iter()
                .map(|(k, v)| (k.clone(), to_value(v)))
                .collect(),
        ),
    }
}

fn to_values(items: &[Json]) -> Vec<Value> {
    items.iter().map(to_value).collect()
}

// ---------------------------------------------------------------------------
// Backends
// ---------------------------------------------------------------------------

#[derive(Debug, Clone)]
struct CallRecord {
    method: String,
    path: String,
    params: Vec<(String, String)>,
    body: Option<Value>,
}

trait Backend {
    fn answer(&mut self, call: &CallRecord) -> Result<Value, BackendError>;

    fn stream(&mut self, path: &str, auth: AuthScheme) -> Result<Vec<Value>, BackendError>;
}

#[derive(Default)]
struct MockBackend {
    responses: HashMap<(String, String), VecDeque<Result<Value, String>>>,
    streams: HashMap<(String, AuthScheme), VecDeque<Result<Vec<Value>, String>>>,
}

impl MockBackend {
    fn new() -> Self {
        Self::default()
    }

    fn enqueue_json_response(&mut self, method: &str, path: &str, value: Value) {
        self.responses
            .entry((method.to_string(), path.to_string()))
            .or_default()
            .push_back(Ok(value));
    }

    fn enqueue_failure(&mut self, method: &str, path: &str, text: &str) {
        self.responses
            .entry((method.to_string(), path.to_string()))
            .or_default()
            .push_back(Err(text.to_string()));
    }

    fn enqueue_stream_events(&mut self, path: &str, auth: AuthScheme, events: Vec<Value>) {
        self.streams
            .entry((path.to_string(), auth))
            .or_default()
            .push_back(Ok(events));
    }

    fn enqueue_stream_failure(&mut self, path: &str, auth: AuthScheme, text: &str) {
        self.streams
            .entry((path.to_string(), auth))
            .or_default()
            .push_back(Err(text.to_string()));
    }

    fn take(&mut self, method: &str, path: &str) -> Option<Result<Value, String>> {
        self.responses
            .get_mut(&(method.to_string(), path.to_string()))
            .and_then(VecDeque::pop_front)
    }
}

impl Backend for MockBackend {
    fn answer(&mut self, call: &CallRecord) -> Result<Value, BackendError> {
        let mut found = self.take(&call.method, &call.path);
        if found.is_none() && call.method.starts_with("GET") {
            found = self.take("GET", &call.path);
        }
        match found {
            Some(Ok(value)) => Ok(value),
            Some(Err(text)) => Err(BackendError::Http(text)),
            None => Err(BackendError::Other(format!(
                "no answer to {} {}",
                call.method, call.path
            ))),
        }
    }

    fn stream(&mut self, path: &str, auth: AuthScheme) -> Result<Vec<Value>, BackendError> {
        match self
            .streams
            .get_mut(&(path.to_string(), auth))
            .and_then(VecDeque::pop_front)
        {
            Some(Ok(events)) => Ok(events),
            Some(Err(text)) => Err(BackendError::Http(text)),
            None => Err(BackendError::Other(format!("no stream at {path} for {auth:?}"))),
        }
    }
}

struct FailingBackend {
    error_message: String,
}

impl FailingBackend {
    fn new(error_message: &str) -> Self {
        Self {
            error_message: error_message.to_string(),
        }
    }
}

impl Backend for FailingBackend {
    fn answer(&mut self, _call: &CallRecord) -> Result<Value, BackendError> {
        Err(BackendError::Http(self.error_message.clone()))
    }

    fn stream(&mut self, _path: &str, _auth: AuthScheme) -> Result<Vec<Value>, BackendError> {
        Err(BackendError::Http(self.error_message.clone()))
    }
}

// ---------------------------------------------------------------------------
// The world around a command
// ---------------------------------------------------------------------------

fn no_accounts() -> ProfileBook {
    ProfileBook {
        profiles: Vec::new(),
        active: None,
        credentials: None,
    }
}

fn some_credentials(name: &str) -> Credentials {
    Credentials {
        username: name.to_string(),
        consumer_key: "abc123".to_string(),
        consumer_secret: "asdfasd223sd2".to_string(),
        token: "428004849-token".to_string(),
        secret: "epzrjvxt".to_string(),
        bearer_token: None,
        oauth2_user: None,
    }
}

fn testcli() -> ProfileBook {
    ProfileBook {
        profiles: vec![("testcli".to_string(), vec!["abc123".to_string()])],
        active: Some(("testcli".to_string(), "abc123".to_string())),
        credentials: Some(some_credentials("testcli")),
    }
}

fn copy_book(book: &ProfileBook) -> ProfileBook {
    book.copy()
}

struct World<'a> {
    backend: &'a mut dyn Backend,
    book: ProfileBook,
    options: Options,
    calls: Vec<CallRecord>,
    asked: Vec<String>,
    stdout: String,
    stderr: String,
    lines: VecDeque<String>,
    env: HashMap<String, String>,
    files: HashMap<String, Vec<u8>>,
    pages: HashMap<String, String>,
    forms: VecDeque<Result<Value, BackendError>>,
    signed: VecDeque<Result<String, String>>,
    tokens: VecDeque<String>,
    browser: bool,
    refreshed: Option<Credentials>,
    stored: Vec<(String, String, Credentials)>,
}

impl<'a> World<'a> {
    fn new(backend: &'a mut dyn Backend, book: ProfileBook) -> Self {
        World {
            backend,
            book,
            options: Options {
                flags: Vec::new(),
                values: Vec::new(),
            },
            calls: Vec::new(),
            asked: Vec::new(),
            stdout: String::new(),
            stderr: String::new(),
            lines: VecDeque::new(),
            env: HashMap::new(),
            files: HashMap::new(),
            pages: HashMap::new(),
            forms: VecDeque::new(),
            signed: VecDeque::new(),
            tokens: VecDeque::new(),
            browser: true,
            refreshed: None,
            stored: Vec::new(),
        }
    }

    fn emit(&mut self, said: &[Saying]) {
        for saying in said {
            match saying {
                Saying::Out(line) => {
                    self.stdout.push_str(line);
                    self.stdout.push('\n');
                }
                Saying::Complaint(line) => {
                    self.stderr.push_str(line);
                    self.stderr.push('\n');
                }
                Saying::Json(value) => {
                    let text = serde_json::to_string_pretty(&to_value(value)).expect("JSON");
                    self.stdout.push_str(&text);
                    self.stdout.push('\n');
                }
            }
        }
    }

    fn clock(instants: &[Instant]) -> Clock {
        Clock {
            now: Instant {
                secs: 1_704_067_200,
                nanos: 0,
            },
            zone: instants.iter().map(|t| (*t, 0)).collect(),
        }
    }

    fn api(&mut self, request: &Request) -> Result<Json, BackendError> {
        let method = match request.method {
            Method::Get => "GET",
            Method::GetOauth2 => "GET_OAUTH2",
            Method::GetOauth2User => "GET_OAUTH2_USER",
            Method::Post => "POST",
            Method::PostBody => "POST_JSON",
            Method::PostBodyOauth2 => "POST_JSON_OAUTH2",
            Method::PostBodyOauth2User => "POST_JSON_OAUTH2_USER",
            Method::Delete => "DELETE",
            Method::DeleteOauth2User => "DELETE_OAUTH2_USER",
        };
        let call = CallRecord {
            method: method.to_string(),
            path: request.path.clone(),
            params: request.params.clone(),
            body: request.body.as_ref().map(to_value),
        };
        let mut attempts = if request.retry { 3 } else { 1 };
        loop {
            self.calls.push(call.clone());
            attempts -= 1;
            match self.backend.answer(&call) {
                Ok(value) => return Ok(to_json(&value)),
                Err(error) if attempts == 0 => return Err(error),
                Err(_) => {}
            }
        }
    }

    fn perform(&mut self, ask: Ask) -> Reply {
        match ask {
            Ask::Profiles => Reply::Profiles(Ok(copy_book(&self.book))),
            Ask::SetActive { user, key } => {
                self.asked.push(format!("set active {user} {key:?}"));
                Reply::Named(Ok(user))
            }
            Ask::DeleteAccount { user, key } => {
                self.asked.push(format!("delete account {user} {key:?}"));
                Reply::Done(Ok(()))
            }
            Ask::SaveProfile {
                name,
                storage_key,
                credentials,
            } => {
                self.stored.push((name, storage_key, credentials));
                Reply::Done(Ok(()))
            }
            Ask::Connect(_) => Reply::Ended(Ok(())),
            Ask::Refreshed => Reply::Credentials(match &self.refreshed {
                Some(c) => c.copy(),
                None => self.book.credentials.as_ref().expect("credentials").copy(),
            }),
            Ask::StoreCredentials {
                name,
                storage_key,
                credentials,
            } => {
                self.stored.push((name, storage_key, credentials));
                Reply::Done(Err("the disk is full".to_string()))
            }
            Ask::Api(request) => {
                let result = self.api(&request);
                Reply::Api(result)
            }
            Ask::Stream {
                kind,
                path,
                auth,
                limit,
                ..
            } => {
                self.calls.push(CallRecord {
                    method: "STREAM".to_string(),
                    path: path.clone(),
                    params: Vec::new(),
                    body: None,
                });
                let events = match self.backend.stream(&path, auth) {
                    Ok(events) => events,
                    Err(error) => return Reply::Ended(Err(error)),
                };
                let mut seen = 0;
                for event in &events {
                    let event = to_json(event);
                    let time = tweet_from_stream_event(&event).and_then(|t| created_time(&t));
                    let clock = Self::clock(&time.into_iter().collect::<Vec<_>>());
                    let step = stream_event(kind, &event, &self.options, &clock, seen, limit);
                    self.stdout.push_str(&step.output);
                    seen = step.seen;
                    if !step.more {
                        break;
                    }
                }
                Reply::Ended(Ok(()))
            }
            Ask::Prompt(text) => {
                self.asked.push(text);
                Reply::Line(
                    self.lines
                        .pop_front()
                        .ok_or_else(|| "no more input".to_string()),
                )
            }
            Ask::ReadFile(path) => Reply::Bytes(
                self.files
                    .get(&path)
                    .cloned()
                    .ok_or_else(|| format!("no file {path}")),
            ),
            Ask::Clock(instants) => Reply::Clock(Self::clock(&instants)),
            Ask::Millis => Reply::Millis(1_704_067_200_000),
            Ask::Env(name) => Reply::Text(self.env.get(&name).cloned()),
            Ask::Browse(uri) => {
                self.asked.push(format!("browse {uri}"));
                Reply::Browsed(self.browser)
            }
            Ask::RandomToken(len) => {
                self.asked.push(format!("random {len}"));
                Reply::Token(
                    self.tokens
                        .pop_front()
                        .ok_or_else(|| "no random bytes".to_string()),
                )
            }
            Ask::Decimal(text) => {
                Reply::Text(text.parse::<f64>().ok().map(|number| number.to_string()))
            }
            Ask::Page(url) => Reply::Page(match self.pages.get(&url) {
                Some(page) => Ok(page.clone()),
                None => Err(PageError::Send(format!("no page {url}"))),
            }),
            Ask::JsonPage(url) => {
                self.asked.push(url.clone());
                Reply::JsonPage(match self.pages.get(&url) {
                    Some(page) => match serde_json::from_str::<Value>(page) {
                        Ok(value) => Ok(to_json(&value)),
                        Err(error) => Err(PageError::Parse(error.to_string())),
                    },
                    None => Err(PageError::Send(format!("no page {url}"))),
                })
            }
            Ask::SignedPost(request) => {
                self.asked.push(format!(
                    "post {} {:?} {:?} {:?}",
                    request.url, request.consumer, request.token, request.params
                ));
                Reply::Signed(
                    self.signed
                        .pop_front()
                        .unwrap_or_else(|| Err("no answer".to_string())),
                )
            }
            Ask::SignedGet(request) => {
                self.asked.push(format!(
                    "get {} {:?} {:?} {:?}",
                    request.url, request.consumer, request.token, request.params
                ));
                Reply::Api(self.form())
            }
            Ask::Http {
                url,
                authorization,
                form,
            } => {
                self.asked
                    .push(format!("http {url} {authorization:?} {form:?}"));
                Reply::Api(self.form())
            }
        }
    }

    fn form(&mut self) -> Result<Json, BackendError> {
        match self.forms.pop_front() {
            Some(Ok(value)) => Ok(to_json(&value)),
            Some(Err(error)) => Err(error),
            None => Err(BackendError::Other("no answer".to_string())),
        }
    }

    fn drive<T>(
        &mut self,
        run: impl Fn(&mut Session) -> Result<T, Stop>,
    ) -> Result<T, CommandError> {
        let mut replies = Vec::new();
        loop {
            let mut session = Session::new(replies);
            let result = run(&mut session);
            self.emit(&session.said);
            replies = session.replies;
            match result {
                Ok(value) => return Ok(value),
                Err(Stop::Fail(error)) => return Err(error),
                Err(Stop::Ask(ask)) => {
                    let reply = self.perform(ask);
                    replies.push(reply);
                }
            }
        }
    }
}

// ---------------------------------------------------------------------------
// The command line
// ---------------------------------------------------------------------------

fn build_arg(plan: &ArgPlan) -> Arg {
    let mut arg = Arg::new(plan.id.clone()).global(plan.global);
    if let Some(long) = &plan.long {
        arg = arg.long(long.clone());
    }
    if let Some(alias) = &plan.alias {
        arg = arg.visible_alias(alias.clone());
    }
    if let Some(short) = plan.short {
        arg = arg.short(short);
    }
    if let Some(help) = &plan.help {
        arg = arg.help(help.clone());
    }
    if let Some(value_name) = &plan.value_name {
        arg = arg.value_name(value_name.clone());
    }
    if let Some(default_value) = &plan.default_value {
        arg = arg.default_value(default_value.clone());
    }
    match plan.role {
        ArgRole::Flag => arg.action(ArgAction::SetTrue),
        ArgRole::Value => {
            arg = arg.action(ArgAction::Set).num_args(1);
            if !plan.possible_values.is_empty() {
                arg = arg.value_parser(PossibleValuesParser::new(plan.possible_values.clone()));
            }
            arg
        }
        ArgRole::Positional(min) => arg.num_args(min..).action(ArgAction::Append),
    }
}

fn build_command(plan: &CommandPlan) -> Command {
    let mut command = Command::new(plan.name.clone()).disable_help_subcommand(true);
    if let Some(about) = &plan.about {
        command = command.about(about.clone());
    }
    for alias in &plan.aliases {
        command = command.visible_alias(alias.clone());
    }
    for arg in &plan.args {
        command = command.arg(build_arg(arg));
    }
    for subcommand in &plan.subcommands {
        command = command.subcommand(build_command(subcommand));
    }
    command
}

fn clap_command(plan: &CommandPlan) -> Command {
    build_command(plan)
        .disable_version_flag(true)
        .allow_external_subcommands(false)
        .arg_required_else_help(false)
        .subcommand_required(false)
}

fn read_options(args: &[&ArgPlan], matches: &ArgMatches) -> Options {
    let mut options = Options {
        flags: Vec::new(),
        values: Vec::new(),
    };
    for arg in args {
        match arg.role {
            ArgRole::Flag => {
                if matches.get_flag(&arg.id) {
                    options.flags.push(arg.id.clone());
                }
            }
            ArgRole::Value => {
                if let Some(value) = matches.get_one::<String>(&arg.id) {
                    options.values.push((arg.id.clone(), value.clone()));
                }
            }
            ArgRole::Positional(_) => {}
        }
    }
    options
}

/// What the command line is: words to print with an exit code, or a command.
enum Parsed {
    Words(String, i32),
    Call(Invocation, bool),
}

fn parse(args: &[&str]) -> Parsed {
    let plan = command_plan(&legacy_app_spec());
    let matches = match clap_command(&plan).try_get_matches_from(args) {
        Ok(matches) => matches,
        Err(error) => return Parsed::Words(error.render().to_string(), error.exit_code()),
    };
    let mut path = Vec::new();
    let mut leaf = &matches;
    while let Some((name, inner)) = leaf.subcommand() {
        path.push(name.to_string());
        leaf = inner;
    }
    match first_step(&plan, matches.get_flag("version_flag"), &path) {
        Start::Version => return Parsed::Words(VERSION.to_string(), 0),
        Start::Help => {
            return Parsed::Words(clap_command(&plan).render_help().to_string(), 0);
        }
        Start::GroupHelp(words) => {
            return match clap_command(&plan).try_get_matches_from(words) {
                Ok(_) => Parsed::Words(String::new(), 0),
                Err(error) => Parsed::Words(error.render().to_string(), error.exit_code()),
            };
        }
        Start::Run => {}
    }
    let own = command_for_path(&plan, &path).expect("the command is planned");
    let known: Vec<&ArgPlan> = plan.args.iter().chain(own.args.iter()).collect();
    let options = read_options(&known, leaf);
    let args = leaf
        .get_many::<String>("args")
        .map(|values| values.cloned().collect())
        .unwrap_or_default();
    let with_profile = options.values.iter().any(|(id, _)| id == "profile");
    Parsed::Call(
        Invocation {
            path,
            args,
            options,
        },
        with_profile,
    )
}

struct Outcome {
    code: i32,
    stdout: String,
    stderr: String,
    calls: Vec<CallRecord>,
}

impl Outcome {
    fn calls(&self) -> &[CallRecord] {
        &self.calls
    }
}

fn call_of(args: &[&str]) -> Invocation {
    match parse(args) {
        Parsed::Call(call, _) => call,
        Parsed::Words(words, _) => panic!("{words}"),
    }
}

fn copy_options(options: &Options) -> Options {
    Options {
        flags: options.flags.clone(),
        values: options.values.clone(),
    }
}

fn run_in(world: &mut World, call: &Invocation, connected: bool) -> i32 {
    world.options = copy_options(&call.options);
    match world.drive(|session| execute_command(session, call, VERSION, connected)) {
        Ok(code) => code,
        Err(error) => {
            for line in failure_lines("x", &error) {
                world.stderr.push_str(&line);
                world.stderr.push('\n');
            }
            1
        }
    }
}

fn run_with_backend(args: &[&str], backend: &mut dyn Backend) -> Outcome {
    match parse(args) {
        Parsed::Words(words, code) => Outcome {
            code,
            stdout: words,
            stderr: String::new(),
            calls: Vec::new(),
        },
        Parsed::Call(call, with_profile) => {
            let book = if with_profile { testcli() } else { no_accounts() };
            let mut world = World::new(backend, book);
            let code = run_in(&mut world, &call, true);
            Outcome {
                code,
                stdout: world.stdout,
                stderr: world.stderr,
                calls: world.calls,
            }
        }
    }
}

fn run_with_io(args: &[&str]) -> Outcome {
    run_with_backend(args, &mut MockBackend::new())
}

#[test]
fn supports_version_flag_without_subcommand() {
    let ran = run_with_io(&["x", "-v"]);

    assert_eq!(ran.code, 0);
    assert!(ran.stderr.is_empty());
    assert_eq!(ran.stdout.trim(), VERSION);
}

#[test]
fn stream_without_subcommand_prints_stream_help() {
    let ran = run_with_io(&["x", "stream"]);

    assert_eq!(ran.code, 0);
    assert!(ran.stderr.is_empty());
    assert!(ran.stdout.contains("Usage: x stream"));
    assert!(ran.stdout.contains("Stream posts in real time."));
}

#[test]
fn collection_without_subcommand_prints_help() {
    let ran = run_with_io(&["x", "collection"]);

    assert_eq!(ran.code, 0);
    assert!(ran.stderr.is_empty());
    assert!(ran.stdout.contains("collection"));
}

#[test]
fn clap_structure_is_valid() {
    let app = legacy_app_spec();
    let command = clap_command(&command_plan(&app));
    command.debug_assert();
}

struct DmFallbackBackend;

impl Backend for DmFallbackBackend {
    fn answer(&mut self, call: &CallRecord) -> Result<Value, BackendError> {
        match (call.method.as_str(), call.path.as_str()) {
            ("GET", "/2/dm_events") => Err(BackendError::Http("403: Forbidden".to_string())),
            ("GET", "/1.1/direct_messages/events/list.json") => Ok(json(
                r#"{"events": [{"type": "message_create", "id": "10", "created_timestamp": "1493058197715", "message_create": {"sender_id": "2", "target": {"recipient_id": "1"}, "message_data": {"text": "hello"}}}], "users": {"2": {"id_str": "2", "screen_name": "alice"}}}"#,
            )),
            ("GET", "/2/users/me") => Ok(json(r#"{"data": {"id": "1", "username": "me"}}"#)),
            (method, path) => Err(BackendError::Other(format!("no answer to {method} {path}"))),
        }
    }

    fn stream(&mut self, _path: &str, _auth: AuthScheme) -> Result<Vec<Value>, BackendError> {
        Ok(Vec::new())
    }
}

#[test]
fn direct_messages_falls_back_to_v1_when_v2_dm_endpoint_is_forbidden() {
    let mut backend = DmFallbackBackend;
    let ran = run_with_backend(&["x", "direct_messages", "--csv"], &mut backend);

    assert_eq!(ran.code, 0, "stderr was: {}", ran.stderr);
    assert!(ran.stdout.contains("ID,Posted at,Screen name,Text"));
    assert!(ran.stdout.contains(",alice,hello"));
    assert!(ran.calls().iter().any(|call| call.path == "/2/dm_events"));
    assert!(ran
        .calls()
        .iter()
        .any(|call| call.path == "/1.1/direct_messages/events/list.json"));
}

#[test]
fn matrix_streams_from_filtered_stream() {
    let mut backend = MockBackend::new();
    backend.enqueue_json_response(
        "GET_OAUTH2",
        "/2/tweets/search/stream/rules",
        json(r#"{"data": []}"#),
    );
    backend.enqueue_json_response(
        "POST_JSON_OAUTH2",
        "/2/tweets/search/stream/rules",
        json(r#"{"data": [{"id": "rule-1", "value": "の lang:ja"}]}"#),
    );
    backend.enqueue_stream_events(
        "/2/tweets/search/stream",
        AuthScheme::OAuth2Bearer,
        vec![json(r#"{"data": {"id": "1", "text": "abcあいう"}}"#)],
    );
    backend.enqueue_json_response(
        "POST_JSON_OAUTH2",
        "/2/tweets/search/stream/rules",
        json(r#"{}"#),
    );

    let ran = run_with_backend(&["x", "matrix"], &mut backend);

    assert_eq!(ran.code, 0, "stderr was: {}", ran.stderr);
    assert_eq!(ran.stdout, "\x1b[1;32;40mういあ\x1b[0m");
    assert!(ran
        .calls()
        .iter()
        .any(|call| call.method == "STREAM" && call.path == "/2/tweets/search/stream"));
}

struct V2UnavailableBackend;

impl Backend for V2UnavailableBackend {
    fn answer(&mut self, call: &CallRecord) -> Result<Value, BackendError> {
        match (call.method.as_str(), call.path.as_str()) {
            ("GET", "/2/users/me") => {
                Err(BackendError::Http("503: Service Unavailable".to_string()))
            }
            ("GET", "/1.1/account/verify_credentials.json") => Ok(json(
                r#"{"id": 42, "id_str": "42", "screen_name": "fallbackuser", "name": "Fallback User"}"#,
            )),
            (method, path) => Err(BackendError::Other(format!("no answer to {method} {path}"))),
        }
    }

    fn stream(&mut self, _path: &str, _auth: AuthScheme) -> Result<Vec<Value>, BackendError> {
        Ok(Vec::new())
    }
}

#[test]
fn fetch_current_user_falls_back_to_v1_on_503() {
    let mut backend = V2UnavailableBackend;
    let mut world = World::new(&mut backend, no_accounts());
    let user = match world.drive(fetch_current_user) {
        Ok(user) => to_value(&user),
        Err(error) => panic!("should fall back to v1.1: {}", error.to_text()),
    };

    assert_eq!(user["screen_name"], "fallbackuser");
    // Three attempts at /2/users/me, then one at /1.1/account/verify_credentials.json.
    assert_eq!(world.calls.len(), 3 + 1, "calls: {:?}", world.calls);
    assert!(
        world.calls.iter().any(|call| call.path == "/2/users/me"),
        "v2 endpoint should be attempted"
    );
    assert!(
        world
            .calls
            .iter()
            .any(|call| call.path == "/1.1/account/verify_credentials.json"),
        "v1.1 fallback should be attempted"
    );
}

#[test]
fn fetch_current_user_does_not_fall_back_on_non_503_errors() {
    let mut backend = FailingBackend::new("401: Unauthorized");
    let mut world = World::new(&mut backend, no_accounts());
    let result = world.drive(fetch_current_user);

    let error_msg = match result {
        Ok(_) => panic!("there should be an error"),
        Err(error) => error.to_text(),
    };
    assert!(
        error_msg.contains("401:"),
        "error should propagate: {error_msg}"
    );
}

#[test]
fn resolve_geo_coordinates_parses_lat_lng() {
    let args = vec!["37.7697,-122.3933".to_string()];
    let mut backend = MockBackend::new();
    let mut world = World::new(&mut backend, no_accounts());
    let (lat, lng) = match world.drive(|session| resolve_geo_coordinates(session, &args)) {
        Ok(at) => at,
        Err(error) => panic!("{}", error.to_text()),
    };
    let lat: f64 = lat.parse().expect("a number");
    let lng: f64 = lng.parse().expect("a number");
    assert!((lat - 37.7697).abs() < 0.001);
    assert!((lng - (-122.3933)).abs() < 0.001);
}

#[test]
fn timeline_is_wired_to_backend() {
    let mut backend = MockBackend::new();
    backend.enqueue_json_response(
        "GET",
        "/2/users/me",
        json(r#"{"data": {"id": "99", "username": "testcli"}}"#),
    );
    backend.enqueue_json_response(
        "GET",
        "/2/users/99/timelines/reverse_chronological",
        json(
            r#"{"data": [{"id": "1", "created_at": "2011-04-06T19:13:37.000Z", "text": "hello", "author_id": "42"}], "includes": {"users": [{"id": "42", "username": "alice"}]}}"#,
        ),
    );

    let ran = run_with_backend(&["x", "timeline"], &mut backend);

    assert_eq!(ran.code, 0);
    assert!(ran.stderr.is_empty());
    assert!(ran.stdout.contains("@alice"));
    assert_eq!(ran.calls()[0].path, "/2/users/me");
    assert_eq!(
        ran.calls()[1].path,
        "/2/users/99/timelines/reverse_chronological"
    );
}

#[test]
fn dm_event_type_normalizes_legacy_and_v2_values() {
    assert_eq!(
        dm_event_type(&to_json(&json(r#"{"type": "message_create"}"#))),
        "messagecreate"
    );
    assert_eq!(
        dm_event_type(&to_json(&json(r#"{"event_type": "MessageCreate"}"#))),
        "messagecreate"
    );
}

#[test]
fn prints_hint_for_429_errors() {
    let mut backend = FailingBackend::new("429: Too Many Requests");

    let ran = run_with_backend(&["x", "timeline"], &mut backend);

    assert_eq!(ran.code, 1);
    let output = ran.stderr.clone();
    assert!(
        output.contains("Too Many Requests"),
        "error message should appear: {output}"
    );
    assert!(output.contains("Hint: X API rate limit reached."));
}

#[test]
fn does_not_print_hint_for_403_errors() {
    let mut backend = FailingBackend::new("403: Forbidden");

    let ran = run_with_backend(&["x", "timeline"], &mut backend);

    assert_eq!(ran.code, 1);
    let output = ran.stderr.clone();
    assert!(
        output.contains("Forbidden"),
        "error message should appear: {output}"
    );
    assert!(!output.contains("Hint:"));
}

#[test]
fn extract_users_handles_bare_v1_user_object() {
    let bare_user = json(
            r#"{"id": 12345, "id_str": "12345", "screen_name": "testuser", "name": "Test User", "location": "Earth", "description": "A test account"}"#,
        );

    let users = to_values(&extract_users(&to_json(&bare_user)));

    assert_eq!(users.len(), 1);
    assert_eq!(users[0]["screen_name"], "testuser");
    assert_eq!(users[0]["id"], 12345);
}

#[test]
fn extract_users_handles_bare_v1_user_with_only_id() {
    let bare_user = json(r#"{"id": 99, "id_str": "99"}"#);

    let users = to_values(&extract_users(&to_json(&bare_user)));

    assert_eq!(users.len(), 1);
    assert_eq!(users[0]["id"], 99);
}

#[test]
fn extract_users_handles_bare_v1_user_with_only_screen_name() {
    let bare_user = json(r#"{"screen_name": "alice"}"#);

    let users = to_values(&extract_users(&to_json(&bare_user)));

    assert_eq!(users.len(), 1);
    assert_eq!(users[0]["screen_name"], "alice");
}

#[test]
fn extract_users_returns_empty_for_unrecognized_object() {
    let unknown = json(r#"{"some_unrelated_key": "value"}"#);

    let users = to_values(&extract_users(&to_json(&unknown)));

    assert!(users.is_empty());
}

#[test]
fn error_messages_with_body_are_surfaced_to_stderr() {
    let mut backend = FailingBackend::new("429: Rate limit exceeded");

    let ran = run_with_backend(&["x", "timeline"], &mut backend);

    assert_eq!(ran.code, 1);
    let output = ran.stderr.clone();
    assert!(
        output.contains("Rate limit exceeded"),
        "parsed message should appear in error: {output}"
    );
    assert!(
        output.contains("Hint: X API rate limit reached."),
        "429 hint should still be triggered: {output}"
    );
}

#[test]
fn format_error_for_display_strips_status_code_prefix() {
    let error = CommandError::Backend(BackendError::Http(
        "402: CreditsDepleted: Account out of credits".to_string(),
    ));
    let displayed = format_error_for_display(&error);
    assert_eq!(displayed, "CreditsDepleted: Account out of credits");
}

#[test]
fn format_error_for_display_passes_through_non_http_errors() {
    let error = CommandError::Backend(BackendError::Http("connection refused".to_string()));
    let displayed = format_error_for_display(&error);
    assert_eq!(displayed, "connection refused");
}

#[test]
fn extract_geo_places_from_result() {
    let response = json(
            r#"{"result": {"places": [{"id": "abc", "name": "Place A", "full_name": "Place A, US", "place_type": "city", "country": "United States"}, {"id": "def", "name": "Place B", "full_name": "Place B, US", "place_type": "neighborhood", "country": "United States"}]}}"#,
        );
    let places = to_values(&extract_geo_places(&to_json(&response)));
    assert_eq!(places.len(), 2);
    assert_eq!(places[0]["id"], "abc");
    assert_eq!(places[1]["id"], "def");
}

#[test]
fn extract_geo_places_handles_missing_result() {
    let response = json(r#"{}"#);
    let places = to_values(&extract_geo_places(&to_json(&response)));
    assert!(places.is_empty());
}

#[test]
fn place_command_wired_to_backend() {
    let mut backend = MockBackend::new();
    backend.enqueue_json_response(
        "GET",
        "/1.1/geo/id/test123.json",
        json(
            r#"{"id": "test123", "place_type": "city", "name": "Test City", "full_name": "Test City, TS", "country": "Test Country", "country_code": "TC"}"#,
        ),
    );

    let ran = run_with_backend(&["x", "place", "test123", "--profile", "test.trc"], &mut backend);

    assert_eq!(ran.code, 0);
    let output = ran.stdout.clone();
    assert!(output.contains("test123"));
    assert!(output.contains("Test City, TS"));
}

#[test]
fn collection_create_calls_v1_api() {
    let mut backend = MockBackend::new();
    backend.enqueue_json_response(
        "POST",
        "/1.1/collections/create.json",
        json(r#"{"response": {"timeline_id": "custom-123"}}"#),
    );

    let ran = run_with_backend(&["x", "collection", "create", "My Collection", "A test collection", "--profile", "test.trc"], &mut backend);

    assert_eq!(ran.code, 0);
    assert_eq!(ran.calls()[0].path, "/1.1/collections/create.json");
    assert!(
        ran.calls()[0]
            .params
            .contains(&("name".to_string(), "My Collection".to_string()))
    );
    assert!(
        ran.calls()[0]
            .params
            .contains(&("description".to_string(), "A test collection".to_string()))
    );
    let output = ran.stdout.clone();
    assert!(output.contains("created the collection"));
}

#[test]
fn collection_add_calls_entries_add() {
    let mut backend = MockBackend::new();
    // Enqueue for resolve_collection_id -> fetch_user_collections
    backend.enqueue_json_response(
        "GET",
        "/1.1/collections/list.json",
        json(
            r#"{"objects": {"timelines": {"custom-999": {"name": "My Coll"}}}, "response": {"results": [{"timeline_id": "custom-999"}], "cursors": {}}}"#,
        ),
    );
    backend.enqueue_json_response(
        "POST",
        "/1.1/collections/entries/add.json",
        json(r#"{"response": {"errors": []}}"#),
    );

    let ran = run_with_backend(&["x", "collection", "add", "--id", "custom-999", "12345", "--profile", "test.trc"], &mut backend);

    assert_eq!(ran.code, 0);
    assert_eq!(ran.calls()[0].path, "/1.1/collections/entries/add.json");
    assert!(
        ran.calls()[0]
            .params
            .contains(&("tweet_id".to_string(), "12345".to_string()))
    );
}

#[test]
fn collection_entries_extracts_v1_tweets() {
    let response = json(
            r#"{"objects": {"tweets": {"111": {"id_str": "111", "text": "Hello world", "created_at": "Mon Apr 06 19:13:37 +0000 2011", "user": {"id_str": "42"}}}, "users": {"42": {"id_str": "42", "screen_name": "alice"}}}, "response": {"timeline": [{"tweet": {"id": "111", "sort_index": "0"}}], "position": {"min_position": "0", "max_position": "0", "was_truncated": false}}}"#,
        );

    let tweets = to_values(&extract_collection_entries(&to_json(&response)));
    assert_eq!(tweets.len(), 1);
    assert_eq!(tweets[0].get("id_str").and_then(Value::as_str), Some("111"));
    assert_eq!(
        tweets[0].get("text").and_then(Value::as_str),
        Some("Hello world")
    );
}

#[test]
fn collections_lists_user_collections() {
    let mut backend = MockBackend::new();
    backend.enqueue_json_response(
        "GET",
        "/1.1/collections/list.json",
        json(
            r#"{"objects": {"timelines": {"custom-100": {"name": "First Collection", "description": "desc1"}, "custom-200": {"name": "Second Collection", "description": "desc2"}}}, "response": {"results": [{"timeline_id": "custom-100"}, {"timeline_id": "custom-200"}], "cursors": {}}}"#,
        ),
    );

    let ran = run_with_backend(&["x", "collections", "--id", "99", "--profile", "test.trc"], &mut backend);

    assert_eq!(ran.code, 0);
    let output = ran.stdout.clone();
    assert!(output.contains("First Collection"));
    assert!(output.contains("Second Collection"));
    assert_eq!(ran.calls()[0].path, "/1.1/collections/list.json");
}

#[test]
fn delete_collection_calls_destroy() {
    let mut backend = MockBackend::new();
    backend.enqueue_json_response(
        "POST",
        "/1.1/collections/destroy.json",
        json(r#"{"destroyed": true}"#),
    );

    let ran = run_with_backend(&["x", "delete", "collection", "--id", "custom-123", "--profile", "test.trc"], &mut backend);

    assert_eq!(ran.code, 0);
    assert_eq!(ran.calls()[0].path, "/1.1/collections/destroy.json");
    assert!(
        ran.calls()[0]
            .params
            .contains(&("id".to_string(), "custom-123".to_string()))
    );
}

#[test]
fn collection_entries_command_wired_to_backend() {
    let mut backend = MockBackend::new();
    backend.enqueue_json_response(
        "GET",
        "/1.1/collections/entries.json",
        json(
            r#"{"objects": {"tweets": {"555": {"id_str": "555", "text": "Hello from collection", "created_at": "Mon Apr 06 19:13:37 +0000 2011", "user": {"id_str": "42"}}}, "users": {"42": {"id_str": "42", "screen_name": "alice"}}}, "response": {"timeline": [{"tweet": {"id": "555", "sort_index": "0"}}], "position": {"min_position": "0", "max_position": "0", "was_truncated": false}}}"#,
        ),
    );

    let ran = run_with_backend(&["x", "collection", "entries", "--id", "custom-999", "--profile", "test.trc"], &mut backend);

    assert_eq!(ran.code, 0);
    assert_eq!(ran.calls()[0].path, "/1.1/collections/entries.json");
    let output = ran.stdout.clone();
    assert!(output.contains("Hello from collection"));
}

#[test]
fn collection_information_command_wired_to_backend() {
    let mut backend = MockBackend::new();
    backend.enqueue_json_response(
        "GET",
        "/1.1/collections/show.json",
        json(
            r#"{"objects": {"timelines": {"custom-777": {"name": "My Timeline", "description": "A great collection", "collection_url": "https://x.com/test/timelines/777", "timeline_order": "curation_reverse_chron", "visibility": "public"}}}, "response": {"timeline_id": "custom-777"}}"#,
        ),
    );

    let ran = run_with_backend(&["x", "collection", "information", "--id", "custom-777", "--profile", "test.trc"], &mut backend);

    assert_eq!(ran.code, 0);
    assert_eq!(ran.calls()[0].path, "/1.1/collections/show.json");
    let output = ran.stdout.clone();
    assert!(output.contains("My Timeline"));
    assert!(output.contains("A great collection"));
}

#[test]
fn collection_information_csv_mode() {
    let mut backend = MockBackend::new();
    backend.enqueue_json_response(
        "GET",
        "/1.1/collections/show.json",
        json(
            r#"{"objects": {"timelines": {"custom-777": {"name": "My Timeline", "description": "desc", "collection_url": "https://x.com/test/timelines/777", "timeline_order": "curation_reverse_chron", "visibility": "public"}}}, "response": {"timeline_id": "custom-777"}}"#,
        ),
    );

    let ran = run_with_backend(&["x", "collection", "information", "--id", "custom-777", "--csv", "--profile", "test.trc"], &mut backend);

    assert_eq!(ran.code, 0);
    let output = ran.stdout.clone();
    assert!(output.contains("ID,Name,Description"));
    assert!(output.contains("My Timeline"));
}

#[test]
fn collection_remove_calls_entries_remove() {
    let mut backend = MockBackend::new();
    backend.enqueue_json_response(
        "POST",
        "/1.1/collections/entries/remove.json",
        json(r#"{"response": {"errors": []}}"#),
    );

    let ran = run_with_backend(&["x", "collection", "remove", "--id", "custom-999", "12345", "--profile", "test.trc"], &mut backend);

    assert_eq!(ran.code, 0);
    assert_eq!(
        ran.calls()[0].path,
        "/1.1/collections/entries/remove.json"
    );
    assert!(
        ran.calls()[0]
            .params
            .contains(&("tweet_id".to_string(), "12345".to_string()))
    );
    let output = ran.stdout.clone();
    assert!(output.contains("removed"));
}

#[test]
fn collection_update_calls_update_endpoint() {
    let mut backend = MockBackend::new();
    backend.enqueue_json_response(
        "POST",
        "/1.1/collections/update.json",
        json(r#"{"response": {"timeline_id": "custom-999"}}"#),
    );

    let ran = run_with_backend(&["x", "collection", "update", "--id", "custom-999", "--name", "New Name", "--description", "New Desc", "--url", "https://example.com", "--profile", "test.trc"], &mut backend);

    assert_eq!(ran.code, 0);
    assert_eq!(ran.calls()[0].path, "/1.1/collections/update.json");
    assert!(
        ran.calls()[0]
            .params
            .contains(&("name".to_string(), "New Name".to_string()))
    );
    assert!(
        ran.calls()[0]
            .params
            .contains(&("description".to_string(), "New Desc".to_string()))
    );
    assert!(
        ran.calls()[0]
            .params
            .contains(&("url".to_string(), "https://example.com".to_string()))
    );
    let output = ran.stdout.clone();
    assert!(output.contains("updated"));
}

#[test]
fn collections_csv_mode() {
    let mut backend = MockBackend::new();
    backend.enqueue_json_response(
        "GET",
        "/1.1/collections/list.json",
        json(
            r#"{"objects": {"timelines": {"custom-100": {"name": "Coll A", "description": "d1", "collection_url": "https://x.com/a"}}}, "response": {"results": [{"timeline_id": "custom-100"}], "cursors": {}}}"#,
        ),
    );

    let ran = run_with_backend(&["x", "collections", "--id", "99", "--csv", "--profile", "test.trc"], &mut backend);

    assert_eq!(ran.code, 0);
    let output = ran.stdout.clone();
    assert!(output.contains("ID,Name,Description,URL"));
    assert!(output.contains("Coll A"));
}

#[test]
fn collections_long_mode() {
    let mut backend = MockBackend::new();
    backend.enqueue_json_response(
        "GET",
        "/1.1/collections/list.json",
        json(
            r#"{"objects": {"timelines": {"custom-100": {"name": "Coll A", "description": "d1"}}}, "response": {"results": [{"timeline_id": "custom-100"}], "cursors": {}}}"#,
        ),
    );

    let ran = run_with_backend(&["x", "collections", "--id", "99", "--long", "--profile", "test.trc"], &mut backend);

    assert_eq!(ran.code, 0);
    let output = ran.stdout.clone();
    assert!(output.contains("Coll A"));
    assert!(output.contains("ID"));
}

#[test]
fn collections_reverse_mode() {
    let mut backend = MockBackend::new();
    backend.enqueue_json_response(
        "GET",
        "/1.1/collections/list.json",
        json(
            r#"{"objects": {"timelines": {"custom-100": {"name": "AAA", "description": ""}, "custom-200": {"name": "ZZZ", "description": ""}}}, "response": {"results": [{"timeline_id": "custom-100"}, {"timeline_id": "custom-200"}], "cursors": {}}}"#,
        ),
    );

    let ran = run_with_backend(&["x", "collections", "--id", "99", "--reverse", "--profile", "test.trc"], &mut backend);

    assert_eq!(ran.code, 0);
    let output = ran.stdout.clone();
    let aaa_pos = output.find("AAA").unwrap();
    let zzz_pos = output.find("ZZZ").unwrap();
    assert!(
        zzz_pos < aaa_pos,
        "ZZZ should appear before AAA when reversed"
    );
}

#[test]
fn resolve_collection_id_by_name() {
    let mut backend = MockBackend::new();
    backend.enqueue_json_response(
        "GET",
        "/1.1/collections/list.json",
        json(
            r#"{"objects": {"timelines": {"custom-42": {"name": "My Coll"}}}, "response": {"results": [{"timeline_id": "custom-42"}], "cursors": {}}}"#,
        ),
    );
    // Add the entries response for the actual command
    backend.enqueue_json_response(
        "GET",
        "/1.1/collections/entries.json",
        json(
            r#"{"objects": {"tweets": {}, "users": {}}, "response": {"timeline": [], "position": {"min_position": "0", "max_position": "0", "was_truncated": false}}}"#,
        ),
    );

    let ran = run_with_backend(&["x", "collection", "entries", "My Coll", "--profile", "test.trc"], &mut backend);

    assert_eq!(ran.code, 0);
    // First call resolves the name via collections/list
    assert_eq!(ran.calls()[0].path, "/1.1/collections/list.json");
    // Second call fetches entries with the resolved ID
    assert_eq!(ran.calls()[1].path, "/1.1/collections/entries.json");
    assert!(
        ran.calls()[1]
            .params
            .contains(&("id".to_string(), "custom-42".to_string()))
    );
}

#[test]
fn timeline_json_outputs_array() {
    let mut backend = MockBackend::new();
    backend.enqueue_json_response(
        "GET",
        "/2/users/me",
        json(r#"{"data": {"id": "99", "username": "testcli"}}"#),
    );
    backend.enqueue_json_response(
        "GET",
        "/2/users/99/timelines/reverse_chronological",
        json(
            r#"{"data": [{"id": "1", "created_at": "2011-04-06T19:13:37.000Z", "text": "hello world", "author_id": "42"}], "includes": {"users": [{"id": "42", "username": "alice"}]}}"#,
        ),
    );

    let ran = run_with_backend(&["x", "--json", "timeline"], &mut backend);

    assert_eq!(ran.code, 0);
    let output = ran.stdout.clone();
    let parsed: Value = serde_json::from_str(&output).expect("valid JSON array");
    assert!(parsed.is_array());
    assert_eq!(parsed.as_array().unwrap().len(), 1);
    assert_eq!(parsed[0]["text"], "hello world");
    assert_eq!(parsed[0]["user"]["screen_name"], "alice");
}

#[test]
fn status_json_includes_quoted_tweet() {
    let mut backend = MockBackend::new();
    backend.enqueue_json_response(
        "GET",
        "/2/tweets/100",
        json(
            r#"{"data": {"id": "100", "text": "Check this out", "author_id": "1", "created_at": "2024-01-01T00:00:00.000Z", "referenced_tweets": [{"type": "quoted", "id": "50"}]}, "includes": {"users": [{"id": "1", "username": "quoter"}], "tweets": [{"id": "50", "text": "Original thought", "author_id": "2", "created_at": "2024-01-01T00:00:00.000Z"}]}}"#,
        ),
    );

    let ran = run_with_backend(&["x", "--json", "status", "100"], &mut backend);

    assert_eq!(ran.code, 0);
    let output = ran.stdout.clone();
    let parsed: Value = serde_json::from_str(&output).expect("valid JSON");
    assert_eq!(parsed["status"]["quoted_status_id"], "50");
    assert_eq!(parsed["status"]["quoted_status"]["text"], "Original thought");
}

#[test]
fn status_json_includes_media() {
    let mut backend = MockBackend::new();
    backend.enqueue_json_response(
        "GET",
        "/2/tweets/200",
        json(
            r#"{"data": {"id": "200", "text": "Photo post", "author_id": "1", "created_at": "2024-01-01T00:00:00.000Z", "attachments": {"media_keys": ["media_1"]}}, "includes": {"users": [{"id": "1", "username": "poster"}], "media": [{"media_key": "media_1", "type": "photo", "url": "https://pbs.twimg.com/media/example.jpg", "width": 1024, "height": 768}]}}"#,
        ),
    );

    let ran = run_with_backend(&["x", "--json", "status", "200"], &mut backend);

    assert_eq!(ran.code, 0);
    let output = ran.stdout.clone();
    let parsed: Value = serde_json::from_str(&output).expect("valid JSON");
    let media = parsed["status"]["media"].as_array().expect("media array");
    assert_eq!(media.len(), 1);
    assert_eq!(media[0]["type"], "photo");
    assert_eq!(media[0]["url"], "https://pbs.twimg.com/media/example.jpg");
}

#[test]
fn search_all_json_outputs_array() {
    let mut backend = MockBackend::new();
    backend.enqueue_json_response(
        "GET",
        "/2/tweets/search/recent",
        json(
            r#"{"data": [{"id": "10", "text": "found it", "author_id": "5", "created_at": "2024-01-01T00:00:00.000Z"}], "includes": {"users": [{"id": "5", "username": "searcher"}]}, "meta": {"result_count": 1}}"#,
        ),
    );

    let ran = run_with_backend(&["x", "--json", "search", "all", "hello"], &mut backend);

    assert_eq!(ran.code, 0);
    let output = ran.stdout.clone();
    let parsed: Value = serde_json::from_str(&output).expect("valid JSON array");
    assert!(parsed.is_array());
    assert_eq!(parsed[0]["text"], "found it");
}

#[test]
fn bookmarks_json_outputs_array() {
    let mut backend = MockBackend::new();
    // authenticated_user_id_for_bookmarks calls /2/users/me via OAuth2User
    backend.enqueue_json_response(
        "GET",
        "/2/users/me",
        json(r#"{"data": {"id": "77", "username": "tester"}}"#),
    );
    backend.enqueue_json_response(
        "GET",
        "/2/users/77/bookmarks",
        json(
            r#"{"data": [{"id": "300", "created_at": "2024-06-01T12:00:00.000Z", "text": "bookmarked post", "author_id": "8"}], "includes": {"users": [{"id": "8", "username": "author"}]}}"#,
        ),
    );

    let ran = run_with_backend(&["x", "--json", "bookmarks"], &mut backend);

    assert_eq!(ran.code, 0);
    let output = ran.stdout.clone();
    let parsed: Value = serde_json::from_str(&output).expect("valid JSON array");
    assert!(parsed.is_array());
    assert_eq!(parsed.as_array().unwrap().len(), 1);
    assert_eq!(parsed[0]["text"], "bookmarked post");
    assert_eq!(parsed[0]["user"]["screen_name"], "author");
}

#[test]
fn status_thread_json_outputs_sorted_array() {
    let mut backend = MockBackend::new();
    // Initial status fetch
    backend.enqueue_json_response(
        "GET",
        "/2/tweets/500",
        json(
            r#"{"data": {"id": "500", "text": "thread starter", "author_id": "1", "created_at": "2024-01-01T00:00:00.000Z", "conversation_id": "500"}, "includes": {"users": [{"id": "1", "username": "threadauthor"}]}}"#,
        ),
    );
    // Thread search by conversation_id
    backend.enqueue_json_response(
        "GET",
        "/2/tweets/search/recent",
        json(
            r#"{"data": [{"id": "501", "text": "reply one", "author_id": "1", "created_at": "2024-01-01T00:01:00.000Z", "conversation_id": "500"}, {"id": "502", "text": "reply two", "author_id": "2", "created_at": "2024-01-01T00:02:00.000Z", "conversation_id": "500"}], "includes": {"users": [{"id": "1", "username": "threadauthor"}, {"id": "2", "username": "replier"}]}}"#,
        ),
    );

    let ran = run_with_backend(&["x", "--json", "status", "--thread", "500"], &mut backend);

    assert_eq!(ran.code, 0);
    let output = ran.stdout.clone();
    let parsed: Value = serde_json::from_str(&output).expect("valid JSON array");
    let arr = parsed.as_array().expect("should be array");
    assert_eq!(arr.len(), 3);
    // Should be sorted chronologically by ID
    assert_eq!(arr[0]["id_str"], "500");
    assert_eq!(arr[1]["id_str"], "501");
    assert_eq!(arr[2]["id_str"], "502");
    assert_eq!(arr[0]["text"], "thread starter");
    assert_eq!(arr[2]["text"], "reply two");
}

#[test]
fn status_json_includes_articles() {
    let mut backend = MockBackend::new();
    backend.enqueue_json_response(
        "GET",
        "/2/tweets/300",
        json(
            r#"{"data": {"id": "300", "text": "Read my article", "author_id": "1", "created_at": "2024-01-01T00:00:00.000Z", "entities": {"urls": [{"expanded_url": "https://x.com/i/article/123456", "title": "My Great Article", "description": "A deep dive"}, {"expanded_url": "https://example.com/not-an-article"}]}}, "includes": {"users": [{"id": "1", "username": "writer"}]}}"#,
        ),
    );

    let ran = run_with_backend(&["x", "--json", "status", "300"], &mut backend);

    assert_eq!(ran.code, 0);
    let output = ran.stdout.clone();
    let parsed: Value = serde_json::from_str(&output).expect("valid JSON");
    let articles = parsed["status"]["articles"].as_array().expect("articles array");
    assert_eq!(articles.len(), 1);
    assert_eq!(articles[0]["url"], "https://x.com/i/article/123456");
    assert_eq!(articles[0]["title"], "My Great Article");
    assert_eq!(articles[0]["description"], "A deep dive");
}

// ---------------------------------------------------------------------------
// Accounts and the commands that need no service
// ---------------------------------------------------------------------------

fn run(world: &mut World, args: &[&str]) -> i32 {
    run_in(world, &call_of(args), true)
}

fn params_of(call: &CallRecord) -> Vec<(&str, &str)> {
    call.params
        .iter()
        .map(|(key, value)| (key.as_str(), value.as_str()))
        .collect()
}

fn routes(calls: &[CallRecord]) -> Vec<String> {
    calls
        .iter()
        .map(|call| format!("{} {}", call.method, call.path))
        .collect()
}

/// A backend that knows the account in use as number 99 and `bob` as number 7.
fn known_users() -> MockBackend {
    let mut backend = MockBackend::new();
    backend.enqueue_json_response(
        "GET",
        "/2/users/me",
        json(r#"{"data": {"id": "99", "username": "testcli"}}"#),
    );
    backend.enqueue_json_response(
        "GET",
        "/2/users/by/username/bob",
        json(r#"{"data": {"id": "7", "username": "bob"}}"#),
    );
    backend
}

#[test]
fn version_and_ruler_need_no_account() {
    let ran = run_with_io(&["x", "version"]);
    assert_eq!((ran.code, ran.stdout.as_str()), (0, "5.0.0\n"));
    let ran = run_with_io(&["x", "ruler", "--indent", "2"]);
    assert_eq!(ran.code, 0);
    assert!(ran.stdout.starts_with("  ....:....|....:..20|"));
    assert_eq!(ran.stdout.len(), 283);
}

#[test]
fn accounts_are_listed_with_the_active_key() {
    let mut backend = MockBackend::new();
    let mut book = testcli();
    book.profiles[0].1.push("other".to_string());
    let mut world = World::new(&mut backend, book);
    assert_eq!(run(&mut world, &["x", "accounts"]), 0);
    assert_eq!(world.stdout, "testcli\n  abc123 (active)\n  other\n");
}

#[test]
fn accounts_are_chosen_and_deleted() {
    let mut backend = MockBackend::new();
    let mut world = World::new(&mut backend, testcli());
    assert_eq!(run(&mut world, &["x", "set", "active", "bob", "key"]), 0);
    assert_eq!(
        world.stdout,
        "Active account has been updated to bob.\n"
    );
    assert_eq!(run(&mut world, &["x", "delete", "account", "bob"]), 0);
    assert_eq!(
        world.asked,
        ["set active bob Some(\"key\")", "delete account bob None"]
    );
}

#[test]
fn missing_arguments_are_told_before_anything_is_asked() {
    let mut backend = MockBackend::new();
    let mut world = World::new(&mut backend, testcli());
    let call = Invocation {
        path: vec!["list".to_string(), "add".to_string()],
        args: vec!["friends".to_string()],
        options: Options {
            flags: Vec::new(),
            values: Vec::new(),
        },
    };
    assert_eq!(run_in(&mut world, &call, true), 1);
    assert_eq!(
        world.stderr,
        "x: Missing required argument for command list add: expected at least 2 arguments\n"
    );
    assert!(world.calls.is_empty());
    assert!(world.stdout.is_empty());
}

#[test]
fn unknown_paths_are_told() {
    let mut backend = MockBackend::new();
    let mut world = World::new(&mut backend, testcli());
    let call = Invocation {
        path: vec!["do".to_string(), "this".to_string()],
        args: Vec::new(),
        options: Options {
            flags: Vec::new(),
            values: Vec::new(),
        },
    };
    assert_eq!(run_in(&mut world, &call, true), 2);
    assert_eq!(
        world.stderr,
        "Unsupported command path 'do this'. If this is a legacy alias, run `x --help` to inspect available commands.\n"
    );
}

#[test]
fn without_an_account_nothing_is_sent() {
    let mut backend = MockBackend::new();
    let mut world = World::new(&mut backend, no_accounts());
    assert_eq!(run_in(&mut world, &call_of(&["x", "timeline"]), false), 1);
    assert!(world.calls.is_empty());
    assert!(world.stderr.starts_with("x: "));
}

#[test]
fn renewed_credentials_are_stored_though_the_command_fails() {
    let mut backend = FailingBackend::new("500: Oops");
    let mut renewed = some_credentials("testcli");
    renewed.oauth2_user = Some(OAuth2User {
        client_id: "client".to_string(),
        client_secret: None,
        access_token: "new".to_string(),
        refresh_token: Some("newer".to_string()),
        expires_at: None,
        scopes: Vec::new(),
    });
    let mut world = World::new(&mut backend, testcli());
    world.refreshed = Some(renewed);
    assert_eq!(run_in(&mut world, &call_of(&["x", "blocks"]), false), 1);
    assert_eq!(world.stderr, "x: Oops\n");
    assert_eq!(world.stored.len(), 1);
    let (name, key, stored) = &world.stored[0];
    assert_eq!((name.as_str(), key.as_str()), ("testcli", "abc123"));
    assert_eq!(
        stored.oauth2_user.as_ref().map(|user| user.access_token.as_str()),
        Some("new")
    );
}

#[test]
fn credentials_that_stay_are_not_stored() {
    let mut backend = FailingBackend::new("500: Oops");
    let mut world = World::new(&mut backend, testcli());
    assert_eq!(run_in(&mut world, &call_of(&["x", "blocks"]), false), 1);
    assert!(world.stored.is_empty());
}

// ---------------------------------------------------------------------------
// Acting on users and posts
// ---------------------------------------------------------------------------

#[test]
fn blocking_tells_how_to_unblock() {
    let mut backend = known_users();
    backend.enqueue_json_response("POST_JSON", "/2/users/99/blocking", json("{}"));
    let mut world = World::new(&mut backend, testcli());
    assert_eq!(run(&mut world, &["x", "block", "@bob"]), 0);
    assert_eq!(
        world.stdout,
        "@testcli blocked 1 user.\n\nRun `x delete block @bob` to unblock.\n"
    );
    assert_eq!(
        world.calls.last().and_then(|call| call.body.clone()),
        Some(json(r#"{"target_user_id": "7"}"#))
    );
}

#[test]
fn unfollowing_deletes_the_relationship() {
    let mut backend = known_users();
    backend.enqueue_json_response("DELETE", "/2/users/99/following/7", json("{}"));
    let mut world = World::new(&mut backend, testcli());
    assert_eq!(run(&mut world, &["x", "unfollow", "bob"]), 0);
    assert_eq!(world.stdout, "@testcli is no longer following 1 user.\n");
}

#[test]
fn bookmarks_are_added_by_identifier() {
    let mut backend = known_users();
    backend.enqueue_json_response("POST_JSON_OAUTH2_USER", "/2/users/99/bookmarks", json("{}"));
    backend.enqueue_json_response("POST_JSON_OAUTH2_USER", "/2/users/99/bookmarks", json("{}"));
    let mut world = World::new(&mut backend, testcli());
    assert_eq!(run(&mut world, &["x", "bookmark", "1", "2"]), 0);
    assert_eq!(world.stdout, "@testcli bookmarked 2 posts.\n");
}

#[test]
fn updates_carry_their_media() {
    let mut backend = MockBackend::new();
    backend.enqueue_json_response(
        "POST",
        "/1.1/media/upload.json",
        json(r#"{"media_id": 55}"#),
    );
    backend.enqueue_json_response("POST_JSON", "/2/tweets", json(r#"{"data": {"id": "8"}}"#));
    let mut world = World::new(&mut backend, testcli());
    world.env.insert("HOME".to_string(), "/home/me".to_string());
    world
        .files
        .insert("/home/me/cat.png".to_string(), vec![0, 255, 254]);
    assert_eq!(
        run(&mut world, &["x", "update", "--file", "~/cat.png", "a", "cat"]),
        0
    );
    assert_eq!(
        world.stdout,
        "Tweet posted by @testcli.\n\nRun `x delete status 8` to delete.\n"
    );
    assert_eq!(params_of(&world.calls[0]), [("media_data", "AP/+")]);
    assert_eq!(
        world.calls[1].body,
        Some(json(r#"{"text": "a cat", "media": {"media_ids": ["55"]}}"#))
    );
}

#[test]
fn updates_without_a_media_identifier_fail() {
    let mut backend = MockBackend::new();
    backend.enqueue_json_response("POST", "/1.1/media/upload.json", json("{}"));
    let mut world = World::new(&mut backend, testcli());
    world.files.insert("cat.png".to_string(), vec![1]);
    assert_eq!(run(&mut world, &["x", "update", "--file", "cat.png"]), 1);
    assert_eq!(
        world.stderr,
        "x: I/O error: Media upload did not return a media_id\n"
    );
}

#[test]
fn replies_to_all_name_each_user_once() {
    let mut backend = MockBackend::new();
    backend.enqueue_json_response(
        "GET",
        "/2/tweets/5",
        json(
            r#"{"data": {"id": "5", "text": "hi @zoe @TestCli @bob", "author_id": "7"}, "includes": {"users": [{"id": "7", "username": "bob"}]}}"#,
        ),
    );
    backend.enqueue_json_response("POST_JSON", "/2/tweets", json(r#"{"data": {"id": "9"}}"#));
    let mut world = World::new(&mut backend, testcli());
    assert_eq!(run(&mut world, &["x", "reply", "--all", "5", "hey"]), 0);
    assert!(world
        .stdout
        .starts_with("Reply posted by @testcli to @bob @zoe.\n"));
    assert_eq!(
        world.calls[1].body,
        Some(json(
            r#"{"text": "@bob @zoe hey", "reply": {"in_reply_to_tweet_id": "5"}}"#
        ))
    );
}

fn a_status() -> MockBackend {
    let mut backend = MockBackend::new();
    backend.enqueue_json_response(
        "GET",
        "/2/tweets/5",
        json(
            r#"{"data": {"id": "5", "text": "hi", "author_id": "99"}, "includes": {"users": [{"id": "99", "username": "testcli"}]}}"#,
        ),
    );
    backend.enqueue_json_response("DELETE", "/2/tweets/5", json("{}"));
    backend
}

#[test]
fn deleting_a_status_needs_a_yes() {
    let mut backend = a_status();
    let mut world = World::new(&mut backend, testcli());
    world.lines.push_back("Y".to_string());
    assert_eq!(run(&mut world, &["x", "delete", "status", "5"]), 0);
    assert_eq!(
        world.asked,
        ["Are you sure you want to permanently delete @testcli's status: \"hi\"? [y/N] "]
    );
    assert_eq!(world.stdout, "@testcli deleted the Tweet: \"hi\"\n");
    assert_eq!(
        routes(&world.calls),
        ["GET_OAUTH2 /2/tweets/5", "DELETE /2/tweets/5"]
    );
}

#[test]
fn deleting_a_status_stops_at_a_no() {
    let mut backend = a_status();
    let mut world = World::new(&mut backend, testcli());
    world.lines.push_back("yes".to_string());
    assert_eq!(run(&mut world, &["x", "delete", "status", "5"]), 0);
    assert_eq!(world.stdout, "");
    assert_eq!(routes(&world.calls), ["GET_OAUTH2 /2/tweets/5"]);
}

#[test]
fn deleting_a_status_by_force_asks_nothing() {
    let mut backend = a_status();
    let mut world = World::new(&mut backend, testcli());
    assert_eq!(
        run(&mut world, &["x", "delete", "status", "--force", "5"]),
        0
    );
    assert!(world.asked.is_empty());
    assert_eq!(world.stdout, "@testcli deleted Tweet 5.\n");
}

#[test]
fn profile_images_are_sent_encoded() {
    let mut backend = MockBackend::new();
    backend.enqueue_json_response(
        "POST",
        "/1.1/account/update_profile_background_image.json",
        json("{}"),
    );
    let mut world = World::new(&mut backend, testcli());
    world.files.insert("me.png".to_string(), vec![0, 255, 254]);
    assert_eq!(
        run(
            &mut world,
            &["x", "set", "profile_background_image", "--tile", "me.png"]
        ),
        0
    );
    assert_eq!(
        params_of(&world.calls[0]),
        [("image", "AP/+"), ("skip_status", "true"), ("tile", "true")]
    );
    assert_eq!(
        world.stdout,
        "@testcli's background image has been updated.\n"
    );
}

#[test]
fn unreadable_files_are_told() {
    let mut backend = MockBackend::new();
    let mut world = World::new(&mut backend, testcli());
    assert_eq!(run(&mut world, &["x", "set", "profile_image", "none"]), 1);
    assert_eq!(world.stderr, "x: I/O error: no file none\n");
}

// ---------------------------------------------------------------------------
// Users and their circles
// ---------------------------------------------------------------------------

fn circles() -> MockBackend {
    let mut backend = MockBackend::new();
    backend.enqueue_json_response(
        "GET",
        "/2/users/7/following",
        json(r#"{"data": [{"id": "1"}, {"id": "2"}]}"#),
    );
    backend.enqueue_json_response(
        "GET",
        "/2/users/7/followers",
        json(r#"{"data": [{"id": "2"}], "meta": {"next_token": "more"}}"#),
    );
    backend.enqueue_json_response(
        "GET",
        "/2/users/7/followers",
        json(r#"{"data": [{"id": "3"}]}"#),
    );
    backend.enqueue_json_response(
        "GET",
        "/2/users",
        json(r#"{"data": [{"id": "0", "username": "found"}]}"#),
    );
    backend
}

fn looked_up(command: &str) -> String {
    let mut backend = circles();
    let mut world = World::new(&mut backend, testcli());
    let call = Invocation {
        path: vec![command.to_string()],
        args: vec!["7".to_string()],
        options: Options {
            flags: vec!["id".to_string()],
            values: Vec::new(),
        },
    };
    assert_eq!(run_in(&mut world, &call, true), 0);
    assert_eq!(world.stdout, "found\n");
    let last = world.calls.last().expect("a lookup");
    assert_eq!(last.path, "/2/users");
    last.params[0].1.clone()
}

#[test]
fn circles_divide_the_users() {
    assert_eq!(looked_up("friends"), "2");
    assert_eq!(looked_up("groupies"), "3");
    assert_eq!(looked_up("leaders"), "1");
    assert_eq!(looked_up("followers"), "2,3");
    assert_eq!(looked_up("followings"), "1,2");
}

#[test]
fn does_follow_answers_by_its_code() {
    let mut backend = known_users();
    backend.enqueue_json_response(
        "GET",
        "/2/users/by/username/testcli",
        json(r#"{"data": {"id": "99", "username": "testcli"}}"#),
    );
    backend.enqueue_json_response(
        "GET",
        "/2/users/7/following",
        json(r#"{"data": [{"id": "1"}]}"#),
    );
    let mut world = World::new(&mut backend, testcli());
    assert_eq!(run(&mut world, &["x", "does_follow", "bob"]), 1);
    assert_eq!(world.stderr, "No, @bob does not follow @testcli.\n");
}

#[test]
fn users_are_sorted_and_written_as_csv() {
    let mut backend = MockBackend::new();
    backend.enqueue_json_response(
        "GET",
        "/2/users/by",
        json(
            r#"{"data": [
                {"id": "1", "username": "Zed", "public_metrics": {"followers_count": 5}},
                {"id": "2", "username": "amy", "public_metrics": {"followers_count": 9}}
            ]}"#,
        ),
    );
    let mut world = World::new(&mut backend, testcli());
    assert_eq!(run(&mut world, &["x", "users", "@Zed", "amy"]), 0);
    assert_eq!(world.stdout, "amy\nZed\n");
    assert_eq!(
        params_of(&world.calls[0])[0],
        ("usernames", "Zed,amy")
    );
}

#[test]
fn lists_are_found_by_their_slug() {
    let mut backend = known_users();
    backend.enqueue_json_response(
        "GET",
        "/2/users/7/owned_lists",
        json(r#"{"data": [{"id": "3", "name": "Best Friends"}]}"#),
    );
    backend.enqueue_json_response("DELETE", "/2/lists/3", json("{}"));
    let mut world = World::new(&mut backend, testcli());
    assert_eq!(
        run(&mut world, &["x", "delete", "list", "@bob/best-friends"]),
        0
    );
    assert_eq!(
        routes(&world.calls).last().map(String::as_str),
        Some("DELETE /2/lists/3")
    );
}

#[test]
fn searches_for_users_end_at_a_repeated_page() {
    let mut backend = MockBackend::new();
    let page = r#"{"data": [{"id": "1", "username": "amy"}], "meta": {"next_token": "t"}}"#;
    backend.enqueue_json_response("GET", "/2/users/search", json(page));
    backend.enqueue_json_response("GET", "/2/users/search", json(page));
    let mut world = World::new(&mut backend, testcli());
    assert_eq!(run(&mut world, &["x", "search", "users", "amy"]), 0);
    assert_eq!(world.stdout, "amy\n");
    assert_eq!(world.calls.len(), 2);
}

// ---------------------------------------------------------------------------
// Posts
// ---------------------------------------------------------------------------

#[test]
fn timelines_are_cut_to_the_number_asked_for() {
    let mut backend = MockBackend::new();
    let page = r#"{"data": [{"id": "1", "text": "one", "created_at": "2011-04-06T19:13:37.000Z"}, {"id": "2", "text": "two"}], "meta": {"next_token": "t"}}"#;
    backend.enqueue_json_response("GET", "/2/users/7/tweets", json(page));
    backend.enqueue_json_response("GET", "/2/users/7/tweets", json(page));
    let mut world = World::new(&mut backend, testcli());
    assert_eq!(
        run(
            &mut world,
            &["x", "timeline", "--id", "--csv", "-n", "3", "7"]
        ),
        0
    );
    assert_eq!(
        world.stdout,
        "ID,Posted at,Screen name,Text\n1,2011-04-06 19:13:37 +0000,,one\n2,,,two\n1,2011-04-06 19:13:37 +0000,,one\n"
    );
    assert_eq!(
        params_of(&world.calls[1]).last(),
        Some(&("pagination_token", "t"))
    );
}

#[test]
fn retweets_are_told_apart() {
    let mut backend = MockBackend::new();
    backend.enqueue_json_response(
        "GET",
        "/2/users/7/tweets",
        json(r#"{"data": [{"id": "1", "text": "RT @amy: hi"}, {"id": "2", "text": "two"}]}"#),
    );
    let mut world = World::new(&mut backend, testcli());
    assert_eq!(run(&mut world, &["x", "retweets", "--id", "7"]), 0);
    assert_eq!(world.stdout, "   @\n   RT @amy: hi\n\n");
}

#[test]
fn statuses_show_what_they_reply_to() {
    let mut backend = MockBackend::new();
    backend.enqueue_json_response(
        "GET",
        "/2/tweets/5",
        json(
            r#"{"data": {"id": "5", "text": "yes", "author_id": "7", "referenced_tweets": [{"type": "replied_to", "id": "4"}]}, "includes": {"users": [{"id": "7", "username": "bob"}]}}"#,
        ),
    );
    backend.enqueue_json_response(
        "GET",
        "/2/tweets/4",
        json(
            r#"{"data": {"id": "4", "text": "no?", "author_id": "8"}, "includes": {"users": [{"id": "8", "username": "amy"}]}}"#,
        ),
    );
    let mut world = World::new(&mut backend, testcli());
    assert_eq!(run(&mut world, &["x", "status", "5"]), 0);
    assert!(world.stdout.starts_with("ID           5\nText         yes\n"));
    assert!(world
        .stdout
        .ends_with("\nIn reply to:\n   @amy\n   no?\n\n"));
}

#[test]
fn messages_sent_are_told_from_those_received() {
    let events = r#"{"data": [
        {"id": "1", "event_type": "MessageCreate", "sender_id": "7", "dm_conversation_id": "7-99", "text": "to me"},
        {"id": "2", "event_type": "MessageCreate", "sender_id": "99", "dm_conversation_id": "7-99", "text": "to you"}
    ], "includes": {"users": [{"id": "7", "username": "bob"}]}}"#;
    let mut backend = known_users();
    backend.enqueue_json_response("GET", "/2/dm_events", json(events));
    let mut world = World::new(&mut backend, testcli());
    assert_eq!(run(&mut world, &["x", "direct_messages"]), 0);
    assert_eq!(world.stdout, "   @bob\n   to me\n\n");

    let mut backend = known_users();
    backend.enqueue_json_response("GET", "/2/dm_events", json(events));
    let mut world = World::new(&mut backend, testcli());
    assert_eq!(
        run(&mut world, &["x", "direct_messages_sent", "-n", "500"]),
        0
    );
    assert_eq!(world.stdout, "   @bob\n   to you\n\n");
    assert_eq!(params_of(&world.calls[0])[0], ("max_results", "50"));
}

// ---------------------------------------------------------------------------
// Collections
// ---------------------------------------------------------------------------

#[test]
fn all_pages_of_collections_are_fetched() {
    let mut backend = MockBackend::new();
    for page in 1..=60 {
        let cursors = if page < 60 {
            format!(r#"{{"next_cursor": "after-{page}"}}"#)
        } else {
            r#"{"next_cursor": ""}"#.to_string()
        };
        backend.enqueue_json_response(
            "GET",
            "/1.1/collections/list.json",
            json(&format!(
                r#"{{"objects": {{"timelines": {{"custom-{page}": {{"name": "Number {page}"}}}}}}, "response": {{"results": [{{"timeline_id": "custom-{page}"}}, {{"timeline_id": "gone"}}], "cursors": {cursors}}}}}"#
            )),
        );
    }
    let mut world = World::new(&mut backend, testcli());
    let found = match world.drive(|s| fetch_user_collections(s, "@bob", false)) {
        Ok(found) => to_values(&found),
        Err(_) => panic!("the pages are all there"),
    };
    assert_eq!(found.len(), 60);
    for (at, collection) in found.iter().enumerate() {
        let page = at + 1;
        assert_eq!(
            collection,
            &json(&format!(
                r#"{{"name": "Number {page}", "id_str": "custom-{page}"}}"#
            ))
        );
    }
    assert_eq!(world.calls.len(), 60);
    let who = ("screen_name".to_string(), "bob".to_string());
    assert_eq!(world.calls[0].params, vec![who.clone()]);
    for page in 1..60 {
        assert_eq!(
            world.calls[page].params,
            vec![
                who.clone(),
                ("cursor".to_string(), format!("after-{page}")),
            ]
        );
    }
}

#[test]
fn a_failed_page_of_collections_is_told() {
    let mut backend = MockBackend::new();
    backend.enqueue_json_response(
        "GET",
        "/1.1/collections/list.json",
        json(r#"{"response": {"results": [], "cursors": {"next_cursor": "more"}}}"#),
    );
    for _ in 0..3 {
        backend.enqueue_failure("GET", "/1.1/collections/list.json", "404: Not Found");
    }
    let mut world = World::new(&mut backend, testcli());
    match world.drive(|s| fetch_user_collections(s, "7", true)) {
        Err(error) => assert_eq!(error.to_text(), "404: Not Found"),
        Ok(_) => panic!("the second page fails"),
    }
}

// ---------------------------------------------------------------------------
// Streams
// ---------------------------------------------------------------------------

const RULES: &str = "/2/tweets/search/stream/rules";

#[test]
fn rules_are_removed_after_a_failed_stream() {
    let mut backend = MockBackend::new();
    backend.enqueue_json_response("GET", RULES, json(r#"{"data": [{"id": "old"}]}"#));
    backend.enqueue_json_response("POST_JSON_OAUTH2", RULES, json("{}"));
    backend.enqueue_json_response("POST_JSON_OAUTH2", RULES, json(r#"{"data": [{"id": "new"}]}"#));
    backend.enqueue_json_response("POST_JSON_OAUTH2", RULES, json("{}"));
    backend.enqueue_stream_failure(
        "/2/tweets/search/stream",
        AuthScheme::OAuth2Bearer,
        "500: Gone",
    );
    let mut world = World::new(&mut backend, testcli());
    assert_eq!(run(&mut world, &["x", "stream", "search", "cats", "dogs"]), 1);
    assert_eq!(world.stderr, "x: Gone\n");
    assert_eq!(world.calls.len(), 5);
    assert_eq!(
        world.calls[1].body,
        Some(json(r#"{"delete": {"ids": ["old"]}}"#))
    );
    assert_eq!(
        world.calls[2].body,
        Some(json(
            r#"{"add": [{"value": "cats OR dogs", "tag": "x-rust-1704067200000-0"}]}"#
        ))
    );
    assert_eq!(world.calls[3].method, "STREAM");
    assert_eq!(
        world.calls[4].body,
        Some(json(r#"{"delete": {"ids": ["new"]}}"#))
    );
}

#[test]
fn rules_that_cannot_be_read_are_told() {
    let mut backend = MockBackend::new();
    for _ in 0..3 {
        backend.enqueue_failure("GET_OAUTH2", RULES, "429: Too many");
    }
    let mut world = World::new(&mut backend, testcli());
    assert_eq!(run(&mut world, &["x", "stream", "users", "7"]), 1);
    assert!(world.stderr.starts_with("x: Too many\nHint: X API rate limit"));
}

#[test]
fn streams_stop_at_the_number_of_events() {
    let mut backend = MockBackend::new();
    backend.enqueue_stream_events(
        "/2/tweets/sample/stream",
        AuthScheme::OAuth2Bearer,
        vec![
            json(r#"{"data": {"id": "1", "text": "one", "author_id": "7"}, "includes": {"users": [{"id": "7", "username": "bob"}]}}"#),
            json(r#"{"ping": 1}"#),
            json(r#"{"data": {"id": "2", "text": "two, too"}}"#),
            json(r#"{"data": {"id": "3", "text": "three"}}"#),
        ],
    );
    let mut world = World::new(&mut backend, testcli());
    world
        .env
        .insert("X_STREAM_MAX_EVENTS".to_string(), "2".to_string());
    assert_eq!(run(&mut world, &["x", "stream", "all", "--csv"]), 0);
    assert_eq!(
        world.stdout,
        "ID,Posted at,Screen name,Text\n1,,bob,one\n2,,unknown,\"two, too\"\n"
    );
}

// ---------------------------------------------------------------------------
// Places
// ---------------------------------------------------------------------------

#[test]
fn the_location_is_that_of_the_address() {
    let mut backend = MockBackend::new();
    let mut world = World::new(&mut backend, testcli());
    world.pages.insert(
        "http://checkip.dyndns.org/".to_string(),
        "<b>Current IP Address: 203.0.113.7</b>".to_string(),
    );
    world.pages.insert(
        "https://ipinfo.io/203.0.113.7/json".to_string(),
        r#"{"loc": "37.5,-122", "city": "Here", "region": "", "country": "US"}"#.to_string(),
    );
    assert_eq!(run(&mut world, &["x", "my_location"]), 0);
    assert_eq!(world.stdout, "Here, US\n");
}

#[test]
fn pages_without_an_address_are_told() {
    let mut backend = MockBackend::new();
    let mut world = World::new(&mut backend, testcli());
    assert_eq!(run(&mut world, &["x", "my_location"]), 1);
    assert_eq!(
        world.stderr,
        "x: Failed to look up IP address: no page http://checkip.dyndns.org/\n"
    );
    world.stderr.clear();
    world.pages.insert(
        "http://checkip.dyndns.org/".to_string(),
        "nothing".to_string(),
    );
    assert_eq!(run(&mut world, &["x", "my_location"]), 1);
    assert_eq!(world.stderr, "x: Could not parse IP address\n");
}

#[test]
fn places_are_looked_for_around_an_address() {
    let mut backend = MockBackend::new();
    backend.enqueue_json_response(
        "GET",
        "/1.1/geo/reverse_geocode.json",
        json(
            r#"{"result": {"places": [{"id": "b", "name": "Zoo", "full_name": "Zoo"}, {"id": "a", "name": "arch", "full_name": "Arch"}]}}"#,
        ),
    );
    let mut world = World::new(&mut backend, testcli());
    world.pages.insert(
        "https://nominatim.openstreetmap.org/search?q=San+Jos%C3%A9&format=json&limit=1".to_string(),
        r#"[{"lat": "37.50", "lon": "-122"}]"#.to_string(),
    );
    assert_eq!(run(&mut world, &["x", "nearby_places", "San", "José"]), 0);
    assert_eq!(world.stdout, "Arch\nZoo\n");
    assert_eq!(
        params_of(&world.calls[0]),
        [("lat", "37.5"), ("long", "-122")]
    );
}

#[test]
fn trends_may_leave_out_hashtags() {
    let mut backend = MockBackend::new();
    backend.enqueue_json_response(
        "GET",
        "/2/trends/by/woeid/1",
        json(r##"{"data": [{"trend_name": "#tag"}, {"name": "word"}]}"##),
    );
    let mut world = World::new(&mut backend, testcli());
    assert_eq!(run(&mut world, &["x", "trends", "--exclude-hashtags"]), 0);
    assert_eq!(world.stdout, "word\n");
}

// ---------------------------------------------------------------------------
// Authorization
// ---------------------------------------------------------------------------

fn lines(items: &[&str]) -> VecDeque<String> {
    items.iter().map(|item| item.to_string()).collect()
}

#[test]
fn accounts_are_authorized_with_a_pin() {
    let mut backend = MockBackend::new();
    let mut world = World::new(&mut backend, no_accounts());
    world.lines = lines(&["", "key", "secret", "", " 123 "]);
    world.env.insert(
        "T_AUTHORIZE_API_SECRET".to_string(),
        "from the environment".to_string(),
    );
    world.signed = VecDeque::from([
        Ok("oauth_token=a/b&oauth_token_secret=s".to_string()),
        Ok("oauth_token=t&oauth_token_secret=u&screen_name=hint".to_string()),
    ]);
    world.forms = VecDeque::from([Ok(json(r#"{"data": {"username": "bob"}}"#))]);
    assert_eq!(run(&mut world, &["x", "authorize"]), 0);
    assert!(world.stdout.starts_with("Welcome! "));
    assert!(world.stdout.ends_with("Authorization successful.\n"));
    let asked: Vec<&str> = world.asked.iter().map(String::as_str).collect();
    assert!(asked.contains(&"browse https://api.twitter.com/oauth/authorize?oauth_token=a%2Fb"));
    assert!(asked.contains(&"Enter your API secret: "));
    assert_eq!(world.stored.len(), 1);
    let (name, key, credentials) = &world.stored[0];
    assert_eq!((name.as_str(), key.as_str()), ("bob", "key"));
    assert_eq!(credentials.consumer_secret, "from the environment");
    assert_eq!(credentials.token, "t");
    assert_eq!(credentials.secret, "u");
}

#[test]
fn names_of_authorized_accounts_fall_back() {
    let mut backend = MockBackend::new();
    let mut world = World::new(&mut backend, testcli());
    world.lines = lines(&["", "key", "secret", "", "123"]);
    world.browser = false;
    world.signed = VecDeque::from([
        Ok("oauth_token=a&oauth_token_secret=s".to_string()),
        Ok("oauth_token=t&oauth_token_secret=u&screen_name=hint".to_string()),
    ]);
    assert_eq!(run(&mut world, &["x", "authorize"]), 0);
    assert_eq!(world.stored[0].0, "hint");
    assert!(world
        .stderr
        .contains("Open: https://api.twitter.com/oauth/authorize?oauth_token=a\n"));
}

#[test]
fn failed_authorizations_are_told() {
    let mut backend = MockBackend::new();
    let mut world = World::new(&mut backend, testcli());
    world.lines = lines(&["", "key", "secret"]);
    world.signed = VecDeque::from([Ok("oauth_token=a".to_string())]);
    assert_eq!(run(&mut world, &["x", "authorize"]), 1);
    assert_eq!(
        world.stderr,
        "x: oauth_token_secret missing from request token response\n"
    );
    assert!(world.stored.is_empty());
}

fn oauth2_world<'a>(backend: &'a mut MockBackend, redirected: &str) -> World<'a> {
    let mut world = World::new(backend, testcli());
    world.lines = lines(&["", "client", "", "", "", redirected]);
    world.tokens = lines(&["state", "dBjftJeZ4CVP-mB92K27uhbUJU1p1r_wW1gFWFOEjXk"]);
    world.forms = VecDeque::from([
        Ok(json(
            r#"{"access_token": "access", "expires_in": 7200, "scope": "tweet.read  users.read"}"#,
        )),
        Ok(json(r#"{"data": {"username": "TestCli"}}"#)),
    ]);
    world
}

#[test]
fn bookmarks_are_authorized_with_a_code() {
    let mut backend = MockBackend::new();
    let mut world = oauth2_world(
        &mut backend,
        "http://127.0.0.1:8080/callback?state=state&code=c",
    );
    assert_eq!(
        run(&mut world, &["x", "authorize", "--oauth2", "--display-uri"]),
        0
    );
    assert!(world
        .stdout
        .ends_with("OAuth2 authorization successful.\n"));
    assert!(world
        .stdout
        .contains("&code_challenge=E9Melhoa2OwvFrEMTJguCHaoeK1t8URWbuGJSstw-cM&"));
    assert!(world.asked.contains(&"random 24".to_string()));
    assert!(world.asked.contains(&"random 48".to_string()));
    let (name, key, credentials) = &world.stored[0];
    assert_eq!((name.as_str(), key.as_str()), ("TestCli", "abc123"));
    assert_eq!(credentials.token, "428004849-token");
    let user = credentials.oauth2_user.as_ref().expect("a context");
    assert_eq!(user.access_token, "access");
    assert_eq!(user.client_secret, None);
    assert_eq!(user.expires_at, Some(1_704_067_200 + 7200));
    assert_eq!(user.scopes, ["tweet.read", "users.read"]);
}

#[test]
fn codes_with_another_state_are_refused() {
    let mut backend = MockBackend::new();
    let mut world = oauth2_world(
        &mut backend,
        "http://127.0.0.1:8080/callback?state=other&code=c",
    );
    assert_eq!(run(&mut world, &["x", "authorize", "--oauth2"]), 1);
    assert_eq!(
        world.stderr,
        "x: OAuth2 state mismatch; authorization response could not be verified\n"
    );
    assert!(world.stored.is_empty());
    assert_eq!(world.forms.len(), 2);
}

#[test]
fn a_session_that_is_run_again_goes_on_where_it_asked() {
    let call = call_of(&["x", "blocks"]);
    let asked = |replies: Vec<Reply>| {
        let mut session = Session::new(replies);
        match execute_command(&mut session, &call, VERSION, true) {
            Err(Stop::Ask(ask)) => Some(ask),
            _ => None,
        }
    };
    assert!(matches!(asked(Vec::new()), Some(Ask::Profiles)));
    let profiles = || Reply::Profiles(Ok(testcli()));
    assert!(matches!(
        asked(vec![profiles()]),
        Some(Ask::Api(request)) if request.path == "/2/users/me"
    ));
    let me = Reply::Api(Ok(to_json(&json(r#"{"data": {"id": "99"}}"#))));
    assert!(matches!(
        asked(vec![profiles(), me]),
        Some(Ask::Api(request)) if request.path == "/2/users/99/blocking"
    ));
}
