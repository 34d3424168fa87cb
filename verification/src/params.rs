//! The parameters of calls to the API.

use vstd::prelude::*;

use crate::json::{Data, Json};
use crate::list::{collect_list, collected, extend_by, move_in};
use crate::options::{opt_string, opt_usize_or, Options, OptionsData};
use crate::session::{Method, Request, RequestData};
use crate::text::{decimal, decimal_usize, same};

verus! {

pub const DEFAULT_NUM_RESULTS: usize = 20;

pub const MAX_SEARCH_RESULTS: usize = 100;

pub const MAX_PAGE: usize = 51;

pub const V2_TWEET_FIELDS: &'static str = "author_id,created_at,entities,geo,id,in_reply_to_user_id,public_metrics,referenced_tweets,source,text,attachments,conversation_id";

pub const V2_USER_FIELDS: &'static str = "created_at,description,id,location,name,protected,public_metrics,url,username,verified";

pub const V2_LIST_FIELDS: &'static str = "created_at,description,follower_count,id,member_count,name,owner_id,private";

pub const V2_TWEET_EXPANSIONS: &'static str = "author_id,geo.place_id,referenced_tweets.id,attachments.media_keys";

pub const V2_MEDIA_FIELDS: &'static str = "media_key,type,url,preview_image_url,height,width,duration_ms,alt_text";

pub const V2_USER_EXPANSIONS: &'static str = "pinned_tweet_id";

pub const V2_PLACE_FIELDS: &'static str = "contained_within,country,country_code,full_name,geo,id,name,place_type";

// ---------------------------------------------------------------------------
// Pairs
// ---------------------------------------------------------------------------

pub fn pair(key: &str, value: &str) -> (r: (String, String))
    ensures
        r.deep_view() == (key@, value@),
{
    (key.to_owned(), value.to_owned())
}

pub fn no_params() -> (r: Vec<(String, String)>)
    ensures
        r.deep_view() == Seq::<(Seq<char>, Seq<char>)>::empty(),
{
    let r: Vec<(String, String)> = Vec::new();
    assert(r.deep_view() =~= Seq::empty());
    r
}

pub fn one_param(key: &str, value: &str) -> (r: Vec<(String, String)>)
    ensures
        r.deep_view() == seq![(key@, value@)],
{
    let r: Vec<(String, String)> = vec![pair(key, value)];
    assert(r.deep_view() =~= seq![(key@, value@)]);
    r
}

pub open spec fn other_than(p: (Seq<char>, Seq<char>), key: Seq<char>) -> Option<
    (Seq<char>, Seq<char>),
> {
    if p.0 == key {
        None
    } else {
        Some(p)
    }
}

/// The parameters with the key set anew, behind the others.
pub open spec fn set_param(
    params: Seq<(Seq<char>, Seq<char>)>,
    key: Seq<char>,
    value: Seq<char>,
) -> Seq<(Seq<char>, Seq<char>)> {
    collected(params, |p: (Seq<char>, Seq<char>)| other_than(p, key)).push((key, value))
}

pub fn replace_param(params: Vec<(String, String)>, key: &str, value: &str) -> (r: Vec<
    (String, String),
>)
    ensures
        r.deep_view() == set_param(params.deep_view(), key@, value@),
{
    let keep = |p: &(String, String)| -> (r: Option<(String, String)>)
        ensures
            r.deep_view() == other_than(p.deep_view(), key@),
    {
        if same(p.0.as_str(), key) {
            None
        } else {
            Some((p.0.clone(), p.1.clone()))
        }
    };
    let mut out = collect_list(
        &params,
        keep,
        Ghost(|p: (Seq<char>, Seq<char>)| other_than(p, key@)),
    );
    extend_by(&mut out, pair(key, value));
    out
}

pub open spec fn has_param(params: Seq<(Seq<char>, Seq<char>)>, key: Seq<char>) -> bool {
    crate::options::text_for(params, key) is Some
}

pub fn copy_params(params: &Vec<(String, String)>) -> (r: Vec<(String, String)>)
    ensures
        r.deep_view() == params.deep_view(),
{
    let mut out: Vec<(String, String)> = Vec::new();
    let mut i: usize = 0;
    while i < params.len()
        invariant
            i <= params.len(),
            out.deep_view() == params.deep_view().take(i as int),
        decreases params.len() - i,
    {
        extend_by(&mut out, (params[i].0.clone(), params[i].1.clone()));
        i += 1;
        assert(out.deep_view() =~= params.deep_view().take(i as int));
    }
    assert(out.deep_view() =~= params.deep_view());
    out
}

/// A parameter for the text, where there is one.
pub open spec fn param_if(key: Seq<char>, value: Option<Seq<char>>) -> Seq<(Seq<char>, Seq<char>)> {
    match value {
        Some(s) => seq![(key, s)],
        None => Seq::empty(),
    }
}

pub fn add_param_if(params: &mut Vec<(String, String)>, key: &str, value: Option<&String>)
    ensures
        final(params).deep_view() == old(params).deep_view() + param_if(key@, value.deep_view()),
{
    let ghost before = params.deep_view();
    if let Some(s) = value {
        extend_by(params, pair(key, s.as_str()));
    }
    assert(params.deep_view() =~= before + param_if(key@, value.deep_view()));
}

// ---------------------------------------------------------------------------
// Requests
// ---------------------------------------------------------------------------

pub open spec fn plain(
    method: Method,
    path: Seq<char>,
    params: Seq<(Seq<char>, Seq<char>)>,
) -> RequestData {
    RequestData { method, retry: false, path, params, body: None }
}

pub open spec fn retried(
    method: Method,
    path: Seq<char>,
    params: Seq<(Seq<char>, Seq<char>)>,
) -> RequestData {
    RequestData { method, retry: true, path, params, body: None }
}

pub open spec fn with_body(method: Method, path: Seq<char>, body: Data) -> RequestData {
    RequestData { method, retry: false, path, params: Seq::empty(), body: Some(body) }
}

pub open spec fn with_body_retried(method: Method, path: Seq<char>, body: Data) -> RequestData {
    RequestData { method, retry: true, path, params: Seq::empty(), body: Some(body) }
}

pub fn request(method: Method, path: String, params: Vec<(String, String)>) -> (r: Request)
    ensures
        r.deep_view() == plain(method, path@, params.deep_view()),
{
    Request { method, retry: false, path, params, body: None }
}

pub fn request_retried(method: Method, path: String, params: Vec<(String, String)>) -> (r: Request)
    ensures
        r.deep_view() == retried(method, path@, params.deep_view()),
{
    Request { method, retry: true, path, params, body: None }
}

pub fn request_body(method: Method, path: String, body: Json) -> (r: Request)
    ensures
        r.deep_view() == with_body(method, path@, body@),
{
    Request { method, retry: false, path, params: no_params(), body: Some(body) }
}

pub fn request_body_retried(method: Method, path: String, body: Json) -> (r: Request)
    ensures
        r.deep_view() == with_body_retried(method, path@, body@),
{
    Request { method, retry: true, path, params: no_params(), body: Some(body) }
}

/// Which signature a page of tweets is fetched with, or a stream opened.
#[derive(Clone, Copy, Debug, PartialEq, Eq, Hash, Structural)]
pub enum AuthScheme {
    OAuth1User,
    OAuth2Bearer,
    OAuth2User,
}

pub open spec fn get_with(auth: AuthScheme) -> Method {
    match auth {
        AuthScheme::OAuth1User => Method::Get,
        AuthScheme::OAuth2Bearer => Method::GetOauth2,
        AuthScheme::OAuth2User => Method::GetOauth2User,
    }
}

pub fn get_method(auth: AuthScheme) -> (r: Method)
    ensures
        r == get_with(auth),
{
    match auth {
        AuthScheme::OAuth1User => Method::Get,
        AuthScheme::OAuth2Bearer => Method::GetOauth2,
        AuthScheme::OAuth2User => Method::GetOauth2User,
    }
}

// ---------------------------------------------------------------------------
// Sets of parameters
// ---------------------------------------------------------------------------

pub open spec fn tweet_params() -> Seq<(Seq<char>, Seq<char>)> {
    seq![
        ("tweet.fields"@, V2_TWEET_FIELDS@),
        ("expansions"@, V2_TWEET_EXPANSIONS@),
        ("user.fields"@, V2_USER_FIELDS@),
        ("place.fields"@, V2_PLACE_FIELDS@),
        ("media.fields"@, V2_MEDIA_FIELDS@),
    ]
}

pub fn v2_tweet_params() -> (r: Vec<(String, String)>)
    ensures
        r.deep_view() == tweet_params(),
{
    let r: Vec<(String, String)> = vec![
        pair("tweet.fields", V2_TWEET_FIELDS),
        pair("expansions", V2_TWEET_EXPANSIONS),
        pair("user.fields", V2_USER_FIELDS),
        pair("place.fields", V2_PLACE_FIELDS),
        pair("media.fields", V2_MEDIA_FIELDS),
    ];
    assert(r.deep_view() =~= tweet_params());
    r
}

pub open spec fn stream_params() -> Seq<(Seq<char>, Seq<char>)> {
    seq![
        ("tweet.fields"@, "author_id,created_at,referenced_tweets"@),
        ("expansions"@, "author_id,referenced_tweets.id"@),
    ]
}

pub fn v2_stream_params() -> (r: Vec<(String, String)>)
    ensures
        r.deep_view() == stream_params(),
{
    let r: Vec<(String, String)> = vec![
        pair("tweet.fields", "author_id,created_at,referenced_tweets"),
        pair("expansions", "author_id,referenced_tweets.id"),
    ];
    assert(r.deep_view() =~= stream_params());
    r
}

pub open spec fn user_params() -> Seq<(Seq<char>, Seq<char>)> {
    seq![
        ("user.fields"@, V2_USER_FIELDS@),
        ("expansions"@, V2_USER_EXPANSIONS@),
        ("tweet.fields"@, V2_TWEET_FIELDS@),
    ]
}

pub fn v2_user_params() -> (r: Vec<(String, String)>)
    ensures
        r.deep_view() == user_params(),
{
    let r: Vec<(String, String)> = vec![
        pair("user.fields", V2_USER_FIELDS),
        pair("expansions", V2_USER_EXPANSIONS),
        pair("tweet.fields", V2_TWEET_FIELDS),
    ];
    assert(r.deep_view() =~= user_params());
    r
}

pub open spec fn at_most(a: nat, b: nat) -> nat {
    if a < b {
        a
    } else {
        b
    }
}

/// How many results one page is to hold.
pub open spec fn page_size(options: OptionsData) -> (Seq<char>, Seq<char>) {
    (
        "max_results"@,
        decimal(
            at_most(
                options.number_or("number"@, DEFAULT_NUM_RESULTS as nat),
                MAX_SEARCH_RESULTS as nat,
            ),
        ),
    )
}

fn page_size_param(options: &Options) -> (r: (String, String))
    ensures
        r.deep_view() == page_size(options@),
{
    let wanted: usize = opt_usize_or(options, "number", DEFAULT_NUM_RESULTS);
    let n: usize = if wanted < MAX_SEARCH_RESULTS {
        wanted
    } else {
        MAX_SEARCH_RESULTS
    };
    ("max_results".to_owned(), decimal_usize(n))
}

pub open spec fn timeline_like_params(options: OptionsData) -> Seq<(Seq<char>, Seq<char>)> {
    seq![page_size(options)] + param_if("exclude"@, options.text("exclude"@)) + param_if(
        "until_id"@,
        options.text("max_id"@),
    ) + param_if("since_id"@, options.text("since_id"@))
}

pub fn timeline_like_v2_params(options: &Options) -> (r: Vec<(String, String)>)
    ensures
        r.deep_view() == timeline_like_params(options@),
{
    let mut params: Vec<(String, String)> = vec![page_size_param(options)];
    assert(params.deep_view() =~= seq![page_size(options@)]);
    add_param_if(&mut params, "exclude", opt_string(options, "exclude"));
    add_param_if(&mut params, "until_id", opt_string(options, "max_id"));
    add_param_if(&mut params, "since_id", opt_string(options, "since_id"));
    params
}

pub open spec fn bookmark_params(options: OptionsData) -> Seq<(Seq<char>, Seq<char>)> {
    seq![page_size(options)] + tweet_params()
}

pub fn bookmark_v2_params(options: &Options) -> (r: Vec<(String, String)>)
    ensures
        r.deep_view() == bookmark_params(options@),
{
    let mut params: Vec<(String, String)> = vec![page_size_param(options)];
    assert(params.deep_view() =~= seq![page_size(options@)]);
    move_in(&mut params, v2_tweet_params());
    params
}

pub open spec fn timeline_params(options: OptionsData) -> Seq<(Seq<char>, Seq<char>)> {
    timeline_like_params(options) + tweet_params()
}

pub fn timeline_v2_params(options: &Options) -> (r: Vec<(String, String)>)
    ensures
        r.deep_view() == timeline_params(options@),
{
    let mut params = timeline_like_v2_params(options);
    move_in(&mut params, v2_tweet_params());
    params
}

/// A parameter that is set anew is there once, as the last, and nothing else is added.
pub proof fn law_parameter_is_set_once(
    params: Seq<(Seq<char>, Seq<char>)>,
    key: Seq<char>,
    value: Seq<char>,
)
    ensures
        set_param(params, key, value).last() == (key, value),
        forall|i: int|
            0 <= i < set_param(params, key, value).len() - 1 ==> (#[trigger] set_param(
                params,
                key,
                value,
            )[i]).0 != key && params.contains(set_param(params, key, value)[i]),
{
    let f = |p: (Seq<char>, Seq<char>)| other_than(p, key);
    let kept = collected(params, f);
    let all = set_param(params, key, value);
    assert forall|i: int| 0 <= i < all.len() - 1 implies (#[trigger] all[i]).0 != key
        && params.contains(all[i]) by {
        assert(all[i] == kept[i]);
        crate::list::lemma_collected_from(params, f, i);
        let k = choose|k: int| 0 <= k < params.len() && f(#[trigger] params[k]) == Some(kept[i]);
        assert(params[k] == kept[i]);
    }
}

} // verus!
