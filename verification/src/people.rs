//! Commands about users and how they relate.

use vstd::prelude::*;

use crate::extract::{extract_ids, extract_tweets, extract_users, ids_in, tweets_in, users_in};
use crate::fetch::{
    collect_user_search_pages, current_id, current_user, current_user_id,
    fetch_current_user_with_credentials, fetch_list_member_ids_v2, fetch_relationship_ids_v2,
    fetch_user, first_or, found_users, list_id_resolved, lookup_users_by_ids, member_ids,
    relationship_ids, resolve_list_id, resolve_user_id, take_first_or, user_fetched,
    user_id_resolved, users_looked_up,
};
use crate::idset::{
    difference, difference_of, has_text, insert_text, intersection, intersection_of,
    is_ordered_set, ordered_set, set_of, set_with,
};
use crate::invocation::{
    arg_at, arg_or_active_name, first_or_active, get_arg, Invocation, InvocationData,
};
use crate::json::{value_id, Data, Json};
use crate::list::{extend_by, map_list, move_in};
use crate::options::{opt_bool, opt_text_or, Options, OptionsData};
use crate::params::{
    one_param, pair, plain, request, tweet_params, user_params, v2_tweet_params, v2_user_params,
    V2_USER_FIELDS,
};
use crate::present::{
    ensure_min_args, need_args, show_users, show_whois, users_shown, whois_shown,
};
use crate::session::{
    bind, both, done, say, say_err, say_json, Method, Session, Step, Stop, StopData, Talk,
};
use crate::text::{cat2, cat3, join, joined, same};
use crate::words::{
    bare_name, count_with_delimiter, delimited, extract_owner_and_list, normalize_user_arg,
    owner_and_list, strip_at, user_arg,
};

verus! {

// ---------------------------------------------------------------------------
// Looking users up
// ---------------------------------------------------------------------------

pub open spec fn ended(step: Step<()>) -> Step<i32> {
    bind(step, |t: Talk, u: ()| done(t, 0i32))
}

/// The parameter that names the users.
pub open spec fn named_users(call: InvocationData) -> (Seq<char>, Seq<char>) {
    if call.by_id() {
        ("ids"@, joined(call.args, ","@))
    } else {
        ("usernames"@, joined(call.args.map_values(|a: Seq<char>| bare_name(a)), ","@))
    }
}

pub open spec fn users(t: Talk, call: InvocationData) -> Step<i32> {
    bind(
        need_args(t, call.path, call.args, 1),
        |t: Talk, u: ()|
            bind(
                crate::session::call(
                    t,
                    plain(
                        Method::GetOauth2,
                        if call.by_id() {
                            "/2/users"@
                        } else {
                            "/2/users/by"@
                        },
                        seq![named_users(call)] + user_params(),
                    ),
                ),
                |t: Talk, d: Data| ended(users_shown(t, users_in(d), call.options)),
            ),
    )
}

pub fn run_users(s: &mut Session, call: &Invocation) -> (r: Result<i32, Stop>)
    ensures
        (final(s).talk(), both(r)) == users(old(s).talk(), call@),
{
    ensure_min_args(&call.path, &call.args, 1)?;
    let by_id = opt_bool(&call.options, "id");
    let named = if by_id {
        ("ids".to_owned(), join(&call.args, ","))
    } else {
        let f = |a: &String| -> (r: String)
            ensures
                r@ == bare_name(a@),
        {
            strip_at(a.as_str())
        };
        let names = map_list(&call.args, f, Ghost(|a: Seq<char>| bare_name(a)));
        ("usernames".to_owned(), join(&names, ","))
    };
    let mut params: Vec<(String, String)> = vec![named];
    assert(params.deep_view() =~= seq![named_users(call@)]);
    move_in(&mut params, v2_user_params());
    let path = if by_id {
        "/2/users".to_owned()
    } else {
        "/2/users/by".to_owned()
    };
    let response = s.call(request(Method::GetOauth2, path, params))?;
    show_users(s, &extract_users(&response), &call.options)?;
    Ok(0)
}

pub open spec fn whois(t: Talk, call: InvocationData) -> Step<i32> {
    bind(
        need_args(t, call.path, call.args, 1),
        |t: Talk, u: ()|
            bind(
                user_fetched(t, call.args[0], call.by_id()),
                |t: Talk, user: Data| ended(whois_shown(t, user, call.options)),
            ),
    )
}

pub fn run_whois(s: &mut Session, call: &Invocation) -> (r: Result<i32, Stop>)
    ensures
        (final(s).talk(), both(r)) == whois(old(s).talk(), call@),
{
    ensure_min_args(&call.path, &call.args, 1)?;
    assert(call@.args[0] == call.args@[0]@);
    let user = fetch_user(s, call.args[0].as_str(), opt_bool(&call.options, "id"))?;
    show_whois(s, &user, &call.options)?;
    Ok(0)
}

pub open spec fn whoami(t: Talk, call: InvocationData, active: bool, user_context: bool) -> Step<
    i32,
> {
    if active {
        bind(
            current_user(t, user_context),
            |t: Talk, user: Data| ended(whois_shown(t, user, call.options)),
        )
    } else {
        done(
            say_err(
                t,
                "You haven't authorized an account, run `x authorize` to get started."@,
            ),
            0i32,
        )
    }
}

pub fn run_whoami(s: &mut Session, call: &Invocation, active: bool, user_context: bool) -> (r:
    Result<i32, Stop>)
    ensures
        (final(s).talk(), both(r)) == whoami(old(s).talk(), call@, active, user_context),
{
    if active {
        let user = fetch_current_user_with_credentials(s, user_context)?;
        show_whois(s, &user, &call.options)?;
    } else {
        s.say_err(
            "You haven't authorized an account, run `x authorize` to get started.".to_owned(),
        );
    }
    Ok(0)
}

pub open spec fn search_users(t: Talk, call: InvocationData) -> Step<i32> {
    bind(
        need_args(t, call.path, call.args, 1),
        |t: Talk, u: ()|
            bind(
                found_users(t, joined(call.args, " "@)),
                |t: Talk, found: Seq<Data>|
                    if call.options.flag("json"@) {
                        done(say_json(t, Data::Array(found)), 0i32)
                    } else {
                        ended(users_shown(t, found, call.options))
                    },
            ),
    )
}

pub fn run_search_users(s: &mut Session, call: &Invocation) -> (r: Result<i32, Stop>)
    ensures
        (final(s).talk(), both(r)) == search_users(old(s).talk(), call@),
{
    ensure_min_args(&call.path, &call.args, 1)?;
    let found = collect_user_search_pages(s, join(&call.args, " ").as_str())?;
    if opt_bool(&call.options, "json") {
        s.write_json_array(found);
    } else {
        show_users(s, &found, &call.options)?;
    }
    Ok(0)
}

/// The users under a path of the account: those that it blocks or mutes.
pub open spec fn own_users(t: Talk, call: InvocationData, tail: Seq<char>) -> Step<i32> {
    bind(
        current_user_id(t, false),
        |t: Talk, me: Seq<char>|
            bind(
                crate::session::call(
                    t,
                    plain(
                        Method::Get,
                        "/2/users/"@ + me + tail,
                        seq![("user.fields"@, V2_USER_FIELDS@)],
                    ),
                ),
                |t: Talk, d: Data| ended(users_shown(t, users_in(d), call.options)),
            ),
    )
}

pub fn run_own_users(s: &mut Session, call: &Invocation, tail: &str) -> (r: Result<i32, Stop>)
    ensures
        (final(s).talk(), both(r)) == own_users(old(s).talk(), call@, tail@),
{
    let me = current_id(s, false)?;
    let response = s.call(
        request(
            Method::Get,
            cat3("/2/users/", me.as_str(), tail),
            one_param("user.fields", V2_USER_FIELDS),
        ),
    )?;
    show_users(s, &extract_users(&response), &call.options)?;
    Ok(0)
}

// ---------------------------------------------------------------------------
// Relations
// ---------------------------------------------------------------------------

/// Looks the users up and shows them.
pub open spec fn ids_shown(t: Talk, ids: Seq<Seq<char>>, options: OptionsData) -> Step<i32> {
    bind(
        users_looked_up(t, ids, Seq::empty()),
        |t: Talk, found: Seq<Data>| ended(users_shown(t, found, options)),
    )
}

pub fn show_ids(s: &mut Session, ids: &Vec<String>, options: &Options) -> (r: Result<i32, Stop>)
    ensures
        (final(s).talk(), both(r)) == ids_shown(old(s).talk(), ids.deep_view(), options@),
{
    let found = lookup_users_by_ids(s, ids)?;
    show_users(s, &found, options)?;
    Ok(0)
}

/// The users on one side of a relation.
pub open spec fn related(
    t: Talk,
    call: InvocationData,
    who: Seq<char>,
    relationship: Seq<char>,
) -> Step<i32> {
    bind(
        user_id_resolved(t, first_or_active(call.args, who), call.by_id()),
        |t: Talk, id: Seq<char>|
            bind(
                relationship_ids(t, id, relationship),
                |t: Talk, ids: Seq<Seq<char>>| ids_shown(t, ids, call.options),
            ),
    )
}

pub fn run_related(s: &mut Session, call: &Invocation, who: &str, relationship: &str) -> (r: Result<
    i32,
    Stop,
>)
    ensures
        (final(s).talk(), both(r)) == related(old(s).talk(), call@, who@, relationship@),
{
    let user = arg_or_active_name(&call.args, who);
    let id = resolve_user_id(s, user.as_str(), opt_bool(&call.options, "id"))?;
    let ids = fetch_relationship_ids_v2(s, id.as_str(), relationship)?;
    show_ids(s, &ids, &call.options)
}

/// Which of those that a user follows, and that follow the user, are meant.
#[derive(Clone, Copy, Debug, PartialEq, Eq, Structural)]
pub enum Circle {
    /// Those on both sides.
    Friends,
    /// Followers that are not followed.
    Groupies,
    /// Followed users that do not follow.
    Leaders,
}

pub open spec fn in_circle(
    circle: Circle,
    following: Seq<Seq<char>>,
    followers: Seq<Seq<char>>,
) -> Seq<Seq<char>> {
    match circle {
        Circle::Friends => intersection_of(set_of(following), set_of(followers)),
        Circle::Groupies => difference_of(set_of(followers), set_of(following)),
        Circle::Leaders => difference_of(set_of(following), set_of(followers)),
    }
}

pub open spec fn circle_shown(t: Talk, call: InvocationData, who: Seq<char>, circle: Circle) -> Step<
    i32,
> {
    bind(
        user_id_resolved(t, first_or_active(call.args, who), call.by_id()),
        |t: Talk, id: Seq<char>|
            bind(
                relationship_ids(t, id, "following"@),
                |t: Talk, following: Seq<Seq<char>>|
                    bind(
                        relationship_ids(t, id, "followers"@),
                        |t: Talk, followers: Seq<Seq<char>>|
                            ids_shown(t, in_circle(circle, following, followers), call.options),
                    ),
            ),
    )
}

pub fn run_circle(s: &mut Session, call: &Invocation, who: &str, circle: Circle) -> (r: Result<
    i32,
    Stop,
>)
    ensures
        (final(s).talk(), both(r)) == circle_shown(old(s).talk(), call@, who@, circle),
{
    let user = arg_or_active_name(&call.args, who);
    let id = resolve_user_id(s, user.as_str(), opt_bool(&call.options, "id"))?;
    let following = fetch_relationship_ids_v2(s, id.as_str(), "following")?;
    let followers = fetch_relationship_ids_v2(s, id.as_str(), "followers")?;
    let following_set = ordered_set(&following);
    let followers_set = ordered_set(&followers);
    let ids = match circle {
        Circle::Friends => intersection(&following_set, &followers_set),
        Circle::Groupies => difference(&followers_set, &following_set),
        Circle::Leaders => difference(&following_set, &followers_set),
    };
    show_ids(s, &ids, &call.options)
}

/// The second user, or the account itself.
pub open spec fn second_user_id(t: Talk, call: InvocationData) -> Step<Seq<char>> {
    match arg_at(call.args, 1) {
        Some(candidate) => user_id_resolved(t, candidate, call.by_id()),
        None => current_user_id(t, false),
    }
}

pub open spec fn followings_following(t: Talk, call: InvocationData) -> Step<i32> {
    bind(
        need_args(t, call.path, call.args, 1),
        |t: Talk, u: ()|
            bind(
                user_id_resolved(t, call.args[0], call.by_id()),
                |t: Talk, first: Seq<char>|
                    bind(
                        second_user_id(t, call),
                        |t: Talk, second: Seq<char>|
                            bind(
                                relationship_ids(t, first, "followers"@),
                                |t: Talk, followers: Seq<Seq<char>>|
                                    bind(
                                        relationship_ids(t, second, "following"@),
                                        |t: Talk, following: Seq<Seq<char>>|
                                            ids_shown(
                                                t,
                                                intersection_of(
                                                    set_of(followers),
                                                    set_of(following),
                                                ),
                                                call.options,
                                            ),
                                    ),
                            ),
                    ),
            ),
    )
}

pub fn run_followings_following(s: &mut Session, call: &Invocation) -> (r: Result<i32, Stop>)
    ensures
        (final(s).talk(), both(r)) == followings_following(old(s).talk(), call@),
{
    ensure_min_args(&call.path, &call.args, 1)?;
    assert(call@.args[0] == call.args@[0]@);
    let by_id = opt_bool(&call.options, "id");
    let first = resolve_user_id(s, call.args[0].as_str(), by_id)?;
    let second = match get_arg(&call.args, 1) {
        Some(candidate) => resolve_user_id(s, candidate.as_str(), by_id)?,
        None => current_id(s, false)?,
    };
    let followers = fetch_relationship_ids_v2(s, first.as_str(), "followers")?;
    let following = fetch_relationship_ids_v2(s, second.as_str(), "following")?;
    let ids = intersection(&ordered_set(&followers), &ordered_set(&following));
    show_ids(s, &ids, &call.options)
}

/// The identifiers of several users.
pub open spec fn all_resolved(
    t: Talk,
    names: Seq<Seq<char>>,
    by_id: bool,
    ids: Seq<Seq<char>>,
) -> Step<Seq<Seq<char>>>
    decreases names.len(),
{
    if names.len() == 0 {
        done(t, ids)
    } else {
        bind(
            user_id_resolved(t, names[0], by_id),
            |t: Talk, id: Seq<char>| all_resolved(t, names.drop_first(), by_id, ids.push(id)),
        )
    }
}

fn resolve_all(s: &mut Session, names: &Vec<String>, by_id: bool, ids: Vec<String>, from: usize) -> (r:
    Result<Vec<String>, Stop>)
    requires
        from <= names@.len(),
    ensures
        (final(s).talk(), both(r)) == all_resolved(
            old(s).talk(),
            names.deep_view().skip(from as int),
            by_id,
            ids.deep_view(),
        ),
    decreases names@.len() - from,
{
    let ghost rest = names.deep_view().skip(from as int);
    if from == names.len() {
        return Ok(ids);
    }
    assert(rest[0] == names@[from as int]@);
    assert(rest.drop_first() =~= names.deep_view().skip(from + 1));
    let id = resolve_user_id(s, names[from].as_str(), by_id)?;
    let mut ids = ids;
    extend_by(&mut ids, id);
    resolve_all(s, names, by_id, ids, from + 1)
}

/// The users, and the account itself where only one is given.
pub open spec fn with_active(t: Talk, ids: Seq<Seq<char>>, who: Seq<char>) -> Step<Seq<Seq<char>>> {
    if ids.len() == 1 {
        bind(user_id_resolved(t, who, false), |t: Talk, id: Seq<char>| done(t, ids.push(id)))
    } else {
        done(t, ids)
    }
}

/// What the relations of all the users have in common.
pub open spec fn common_ids(
    t: Talk,
    users: Seq<Seq<char>>,
    relationship: Seq<char>,
    common: Option<Seq<Seq<char>>>,
) -> Step<Seq<Seq<char>>>
    decreases users.len(),
{
    if users.len() == 0 {
        done(
            t,
            match common {
                Some(set) => set,
                None => Seq::empty(),
            },
        )
    } else {
        bind(
            relationship_ids(t, users[0], relationship),
            |t: Talk, ids: Seq<Seq<char>>|
                common_ids(
                    t,
                    users.drop_first(),
                    relationship,
                    Some(
                        match common {
                            Some(set) => intersection_of(set, set_of(ids)),
                            None => set_of(ids),
                        },
                    ),
                ),
        )
    }
}

fn find_common_ids(
    s: &mut Session,
    users: &Vec<String>,
    relationship: &str,
    common: Option<Vec<String>>,
    from: usize,
) -> (r: Result<Vec<String>, Stop>)
    requires
        from <= users@.len(),
    ensures
        (final(s).talk(), both(r)) == common_ids(
            old(s).talk(),
            users.deep_view().skip(from as int),
            relationship@,
            common.deep_view(),
        ),
    decreases users@.len() - from,
{
    let ghost rest = users.deep_view().skip(from as int);
    if from == users.len() {
        return match common {
            Some(set) => Ok(set),
            None => {
                let none: Vec<String> = Vec::new();
                assert(none.deep_view() =~= Seq::empty());
                Ok(none)
            },
        };
    }
    assert(rest[0] == users@[from as int]@);
    assert(rest.drop_first() =~= users.deep_view().skip(from + 1));
    let ids = fetch_relationship_ids_v2(s, users[from].as_str(), relationship)?;
    let set = ordered_set(&ids);
    let next = match &common {
        Some(known) => intersection(known, &set),
        None => set,
    };
    find_common_ids(s, users, relationship, Some(next), from + 1)
}

pub open spec fn intersection_relation(options: OptionsData) -> Seq<char> {
    if options.text_or("type"@, "followings"@) == "followers"@ {
        "followers"@
    } else {
        "following"@
    }
}

pub open spec fn intersection_shown(t: Talk, call: InvocationData, who: Seq<char>) -> Step<i32> {
    bind(
        need_args(t, call.path, call.args, 1),
        |t: Talk, u: ()|
            bind(
                all_resolved(t, call.args, call.by_id(), Seq::empty()),
                |t: Talk, ids: Seq<Seq<char>>|
                    bind(
                        with_active(t, ids, who),
                        |t: Talk, users: Seq<Seq<char>>|
                            bind(
                                common_ids(t, users, intersection_relation(call.options), None),
                                |t: Talk, common: Seq<Seq<char>>|
                                    ids_shown(t, common, call.options),
                            ),
                    ),
            ),
    )
}

pub fn run_intersection(s: &mut Session, call: &Invocation, who: &str) -> (r: Result<i32, Stop>)
    ensures
        (final(s).talk(), both(r)) == intersection_shown(old(s).talk(), call@, who@),
{
    ensure_min_args(&call.path, &call.args, 1)?;
    let none: Vec<String> = Vec::new();
    assert(none.deep_view() =~= Seq::empty());
    assert(call@.args.skip(0) =~= call@.args);
    let mut users = resolve_all(s, &call.args, opt_bool(&call.options, "id"), none, 0)?;
    assert(users.deep_view().len() == users@.len());
    if users.len() == 1 {
        let me = resolve_user_id(s, who, false)?;
        extend_by(&mut users, me);
    }
    let relationship = if same(
        opt_text_or(&call.options, "type", "followings").as_str(),
        "followers",
    ) {
        "followers"
    } else {
        "following"
    };
    assert(users.deep_view().skip(0) =~= users.deep_view());
    let common = find_common_ids(s, &users, relationship, None, 0)?;
    show_ids(s, &common, &call.options)
}

// ---------------------------------------------------------------------------
// Questions
// ---------------------------------------------------------------------------

/// The second argument as a user, or the active account.
pub open spec fn second_or_active(call: InvocationData, who: Seq<char>) -> Seq<char> {
    match arg_at(call.args, 1) {
        Some(user) => user_arg(user, call.by_id()),
        None => who,
    }
}

fn get_second_or_active(call: &Invocation, who: &str, by_id: bool) -> (r: String)
    requires
        by_id == call@.by_id(),
    ensures
        r@ == second_or_active(call@, who@),
{
    match get_arg(&call.args, 1) {
        Some(user) => normalize_user_arg(user.as_str(), by_id),
        None => who.to_owned(),
    }
}

pub open spec fn answered(t: Talk, yes: bool, yes_line: Seq<char>, no_line: Seq<char>) -> Step<i32> {
    if yes {
        done(say(t, yes_line), 0i32)
    } else {
        done(say_err(t, no_line), 1i32)
    }
}

pub open spec fn does_follow(t: Talk, call: InvocationData, who: Seq<char>) -> Step<i32> {
    bind(
        need_args(t, call.path, call.args, 1),
        |t: Talk, u: ()|
            {
                let first = user_arg(call.args[0], call.by_id());
                let second = second_or_active(call, who);
                bind(
                    user_id_resolved(t, first, call.by_id()),
                    |t: Talk, first_id: Seq<char>|
                        bind(
                            user_id_resolved(t, second, call.by_id()),
                            |t: Talk, second_id: Seq<char>|
                                bind(
                                    relationship_ids(t, first_id, "following"@),
                                    |t: Talk, ids: Seq<Seq<char>>|
                                        answered(
                                            t,
                                            ids.contains(second_id),
                                            "Yes, @"@ + bare_name(first) + " follows @"@
                                                + bare_name(second) + "."@,
                                            "No, @"@ + bare_name(first) + " does not follow @"@
                                                + bare_name(second) + "."@,
                                        ),
                                ),
                        ),
                )
            },
    )
}

fn answer(s: &mut Session, yes: bool, yes_line: String, no_line: String) -> (r: Result<i32, Stop>)
    ensures
        (final(s).talk(), both(r)) == answered(old(s).talk(), yes, yes_line@, no_line@),
{
    if yes {
        s.say(yes_line);
        Ok(0)
    } else {
        s.say_err(no_line);
        Ok(1)
    }
}

pub fn run_does_follow(s: &mut Session, call: &Invocation, who: &str) -> (r: Result<i32, Stop>)
    ensures
        (final(s).talk(), both(r)) == does_follow(old(s).talk(), call@, who@),
{
    ensure_min_args(&call.path, &call.args, 1)?;
    assert(call@.args[0] == call.args@[0]@);
    let by_id = opt_bool(&call.options, "id");
    let first = normalize_user_arg(call.args[0].as_str(), by_id);
    let second = get_second_or_active(call, who, by_id);
    let first_id = resolve_user_id(s, first.as_str(), by_id)?;
    let second_id = resolve_user_id(s, second.as_str(), by_id)?;
    let ids = fetch_relationship_ids_v2(s, first_id.as_str(), "following")?;
    let one = strip_at(first.as_str());
    let two = strip_at(second.as_str());
    let yes_line = cat2("Yes, @", one.as_str()).concat(" follows @").concat(two.as_str()).concat(
        ".",
    );
    let no_line = cat2("No, @", one.as_str()).concat(" does not follow @").concat(
        two.as_str(),
    ).concat(".");
    answer(s, has_text(&ids, second_id.as_str()), yes_line, no_line)
}

pub open spec fn shown_list_name(call: InvocationData, who: Seq<char>) -> Seq<char> {
    if call.by_id() {
        call.args[0]
    } else {
        owner_and_list(call.args[0], false, who).1
    }
}

pub open spec fn does_contain(t: Talk, call: InvocationData, who: Seq<char>) -> Step<i32> {
    bind(
        need_args(t, call.path, call.args, 1),
        |t: Talk, u: ()|
            bind(
                list_id_resolved(t, call.args[0], call.by_id(), who),
                |t: Talk, list_id: Seq<char>|
                    {
                        let name = shown_list_name(call, who);
                        let user = second_or_active(call, who);
                        bind(
                            user_id_resolved(t, user, call.by_id()),
                            |t: Talk, user_id: Seq<char>|
                                bind(
                                    member_ids(t, list_id),
                                    |t: Talk, ids: Seq<Seq<char>>|
                                        answered(
                                            t,
                                            ids.contains(user_id),
                                            "Yes, "@ + name + " contains @"@ + bare_name(user)
                                                + "."@,
                                            "No, "@ + name + " does not contain @"@ + bare_name(
                                                user,
                                            ) + "."@,
                                        ),
                                ),
                        )
                    },
            ),
    )
}

pub fn run_does_contain(s: &mut Session, call: &Invocation, who: &str) -> (r: Result<i32, Stop>)
    ensures
        (final(s).talk(), both(r)) == does_contain(old(s).talk(), call@, who@),
{
    ensure_min_args(&call.path, &call.args, 1)?;
    assert(call@.args[0] == call.args@[0]@);
    let by_id = opt_bool(&call.options, "id");
    let list_id = resolve_list_id(s, call.args[0].as_str(), by_id, who)?;
    let name = if by_id {
        call.args[0].clone()
    } else {
        extract_owner_and_list(call.args[0].as_str(), false, who).1
    };
    let user = get_second_or_active(call, who, by_id);
    let user_id = resolve_user_id(s, user.as_str(), by_id)?;
    let ids = fetch_list_member_ids_v2(s, list_id.as_str())?;
    let bare = strip_at(user.as_str());
    let yes_line = cat2("Yes, ", name.as_str()).concat(" contains @").concat(
        bare.as_str(),
    ).concat(".");
    let no_line = cat2("No, ", name.as_str()).concat(" does not contain @").concat(
        bare.as_str(),
    ).concat(".");
    answer(s, has_text(&ids, user_id.as_str()), yes_line, no_line)
}

// ---------------------------------------------------------------------------
// Reach
// ---------------------------------------------------------------------------

/// The followers of all the users together.
pub open spec fn audience_of(t: Talk, users: Seq<Seq<char>>, audience: Seq<Seq<char>>) -> Step<
    Seq<Seq<char>>,
>
    decreases users.len(),
{
    if users.len() == 0 {
        done(t, audience)
    } else {
        bind(
            relationship_ids(t, users[0], "followers"@),
            |t: Talk, ids: Seq<Seq<char>>|
                audience_of(t, users.drop_first(), audience + ids),
        )
    }
}

fn gather_audience(s: &mut Session, users: &Vec<String>, audience: Vec<String>, from: usize) -> (r:
    Result<Vec<String>, Stop>)
    requires
        from <= users@.len(),
    ensures
        (final(s).talk(), both(r)) == audience_of(
            old(s).talk(),
            users.deep_view().skip(from as int),
            audience.deep_view(),
        ),
    decreases users@.len() - from,
{
    let ghost rest = users.deep_view().skip(from as int);
    if from == users.len() {
        return Ok(audience);
    }
    assert(rest[0] == users@[from as int]@);
    assert(rest.drop_first() =~= users.deep_view().skip(from + 1));
    let ids = fetch_relationship_ids_v2(s, users[from].as_str(), "followers")?;
    let mut audience = audience;
    move_in(&mut audience, ids);
    gather_audience(s, users, audience, from + 1)
}

/// The identifier of a tweet's author.
pub open spec fn author_id_of(tweet: Data) -> Seq<char> {
    let user_id = match tweet.get("user"@) {
        Some(user) => user.id(),
        None => None,
    };
    match user_id {
        Some(id) => id,
        None => tweet.words_at("author_id"@),
    }
}

fn find_author_id(tweet: &Json) -> (r: String)
    ensures
        r@ == author_id_of(tweet@),
{
    let user_id: Option<String> = match tweet.get("user") {
        Some(user) => value_id(user),
        None => None,
    };
    match user_id {
        Some(id) => id,
        None => tweet.words_at("author_id"),
    }
}

pub open spec fn reach_params() -> Seq<(Seq<char>, Seq<char>)> {
    tweet_params() + seq![("expansions"@, "author_id"@), ("user.fields"@, V2_USER_FIELDS@)]
}

/// How many distinct users, the author aside, a tweet reaches through its author and those that
/// repeated it.
pub open spec fn reached(
    audience: Seq<Seq<char>>,
    author: Seq<char>,
) -> nat {
    difference_of(set_of(audience), seq![author]).len()
}

pub open spec fn reach(t: Talk, call: InvocationData) -> Step<i32> {
    bind(
        need_args(t, call.path, call.args, 1),
        |t: Talk, u: ()|
            bind(
                crate::session::call(
                    t,
                    plain(Method::Get, "/2/tweets/"@ + call.args[0], reach_params()),
                ),
                |t: Talk, d: Data|
                    {
                        let author = author_id_of(first_or(tweets_in(d), d));
                        bind(
                            crate::session::call(
                                t,
                                plain(
                                    Method::GetOauth2,
                                    "/2/tweets/"@ + call.args[0] + "/retweeted_by"@,
                                    seq![("max_results"@, "100"@)],
                                ),
                            ),
                            |t: Talk, r: Data|
                                bind(
                                    audience_of(
                                        t,
                                        set_with(set_of(ids_in(r)), author),
                                        Seq::empty(),
                                    ),
                                    |t: Talk, audience: Seq<Seq<char>>|
                                        done(
                                            say(
                                                t,
                                                delimited(reached(audience, author) as int, ','),
                                            ),
                                            0i32,
                                        ),
                                ),
                        )
                    },
            ),
    )
}

pub fn run_reach(s: &mut Session, call: &Invocation) -> (r: Result<i32, Stop>)
    ensures
        (final(s).talk(), both(r)) == reach(old(s).talk(), call@),
{
    ensure_min_args(&call.path, &call.args, 1)?;
    assert(call@.args[0] == call.args@[0]@);
    let mut params = v2_tweet_params();
    let more: Vec<(String, String)> = vec![
        pair("expansions", "author_id"),
        pair("user.fields", V2_USER_FIELDS),
    ];
    assert(more.deep_view() =~= seq![
        ("expansions"@, "author_id"@),
        ("user.fields"@, V2_USER_FIELDS@),
    ]);
    move_in(&mut params, more);
    let response = s.call(
        request(Method::Get, cat2("/2/tweets/", call.args[0].as_str()), params),
    )?;
    let tweet = take_first_or(extract_tweets(&response), response);
    let author = find_author_id(&tweet);
    let retweeters = s.call(
        request(
            Method::GetOauth2,
            cat3("/2/tweets/", call.args[0].as_str(), "/retweeted_by"),
            one_param("max_results", "100"),
        ),
    )?;
    let users = insert_text(ordered_set(&extract_ids(&retweeters)), author.as_str());
    let none: Vec<String> = Vec::new();
    assert(none.deep_view() =~= Seq::empty());
    assert(users.deep_view().skip(0) =~= users.deep_view());
    let audience = gather_audience(s, &users, none, 0)?;
    let authors: Vec<String> = vec![author];
    assert(authors.deep_view() =~= seq![author@]);
    let reached_ids = difference(&ordered_set(&audience), &authors);
    assert(reached_ids.deep_view().len() == reached_ids@.len());
    s.say(count_with_delimiter(reached_ids.len() as u64, ','));
    Ok(0)
}

// ---------------------------------------------------------------------------
// Laws
// ---------------------------------------------------------------------------

/// Friends are those on both sides, groupies the followers that are not followed, and leaders the
/// followed that do not follow: friends and leaders share out the followed, friends and groupies
/// the followers. Each circle is in ascending order without repeats.
pub proof fn law_circles_divide_the_users(
    following: Seq<Seq<char>>,
    followers: Seq<Seq<char>>,
    user: Seq<char>,
)
    ensures
        in_circle(Circle::Friends, following, followers).contains(user) <==> (following.contains(user)
            && followers.contains(user)),
        in_circle(Circle::Groupies, following, followers).contains(user) <==> (followers.contains(
            user,
        ) && !following.contains(user)),
        in_circle(Circle::Leaders, following, followers).contains(user) <==> (following.contains(user)
            && !followers.contains(user)),
        is_ordered_set(in_circle(Circle::Friends, following, followers)),
        is_ordered_set(in_circle(Circle::Groupies, following, followers)),
        is_ordered_set(in_circle(Circle::Leaders, following, followers)),
{
    crate::idset::law_set_holds_each_text_once(following);
    crate::idset::law_set_holds_each_text_once(followers);
    crate::idset::law_intersection_and_difference(set_of(following), set_of(followers));
    crate::idset::law_intersection_and_difference(set_of(followers), set_of(following));
    assert(set_of(following).contains(user) <==> following.contains(user));
    assert(set_of(followers).contains(user) <==> followers.contains(user));
    assert(intersection_of(set_of(following), set_of(followers)).contains(user) <==> (set_of(
        following,
    ).contains(user) && set_of(followers).contains(user)));
}

/// Where the user and both sides of the relation are known, what is looked up and shown is the
/// circle of those sides.
pub proof fn law_circle_is_looked_up(
    t: Talk,
    call: InvocationData,
    who: Seq<char>,
    circle: Circle,
    id: Seq<char>,
    following: Seq<Seq<char>>,
    followers: Seq<Seq<char>>,
)
    requires
        ({
            let user = user_id_resolved(t, first_or_active(call.args, who), call.by_id());
            let one = relationship_ids(user.0, id, "following"@);
            &&& user.1 == Ok::<Seq<char>, StopData>(id)
            &&& one.1 == Ok::<Seq<Seq<char>>, StopData>(following)
            &&& relationship_ids(one.0, id, "followers"@).1 == Ok::<Seq<Seq<char>>, StopData>(
                followers,
            )
        }),
    ensures
        ({
            let user = user_id_resolved(t, first_or_active(call.args, who), call.by_id());
            let one = relationship_ids(user.0, id, "following"@);
            let other = relationship_ids(one.0, id, "followers"@);
            circle_shown(t, call, who, circle) == ids_shown(
                other.0,
                in_circle(circle, following, followers),
                call.options,
            )
        }),
{
}

} // verus!
