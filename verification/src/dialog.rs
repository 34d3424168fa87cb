//! What a step asked for, what it was answered, and what it changed by that.

use vstd::prelude::*;

use crate::extract::users_in;
use crate::fetch::{
    bookmark_owner, collection_id_resolved, collections_from, current_user_id, first_or,
    list_id_resolved, owned_lists, owned_lists_from, user_collections, user_id_resolved,
};
use crate::json::Data;
use crate::list::collected;
use crate::params::{retried, set_param, user_params};
use crate::session::{ask, call, say, say_err, AskData, Method, ReplyData, RequestData, Talk};
use crate::words::bare_name;

verus! {

/// A talk that has used no more replies than there are.
pub open spec fn is_sound(t: Talk) -> bool {
    t.next <= t.replies.len()
}

/// Whether a talk came from another by asks that were all answered.
#[verifier::opaque]
pub open spec fn since(t0: Talk, t: Talk) -> bool {
    &&& t.replies == t0.replies
    &&& t0.next <= t.next <= t.replies.len()
    &&& t.asked.len() == t0.asked.len() + (t.next - t0.next)
}

/// What was asked from one talk to another, and the answers.
#[verifier::opaque]
pub open spec fn dialog(t0: Talk, t: Talk) -> Seq<(AskData, ReplyData)> {
    Seq::new(
        (t.next - t0.next) as nat,
        |i: int| (t.asked[t0.asked.len() + i], t.replies[t0.next + i]),
    )
}

/// Whether a request only reads.
pub open spec fn is_read(method: Method) -> bool {
    method == Method::Get || method == Method::GetOauth2 || method == Method::GetOauth2User
}

/// The request to the API that changes something, where the ask is one.
pub open spec fn change_in(x: (AskData, ReplyData)) -> Option<RequestData> {
    match x.0 {
        AskData::Api(r) => if is_read(r.method) {
            None
        } else {
            Some(r)
        },
        _ => None,
    }
}

/// The requests in a dialog that change something, in order.
#[verifier::opaque]
pub open spec fn changes(d: Seq<(AskData, ReplyData)>) -> Seq<RequestData> {
    collected(d, |x: (AskData, ReplyData)| change_in(x))
}

/// The identifier of the user in an answer of the API.
pub open spec fn told_id(answer: Data) -> Option<Seq<char>> {
    first_or(users_in(answer), Data::Null).id()
}

/// Whether the API was asked for the user of the name, and answered with the identifier.
pub open spec fn tells_id(x: (AskData, ReplyData), user: Seq<char>, id: Seq<char>) -> bool {
    &&& x.0 == AskData::Api(
        retried(
            Method::GetOauth2,
            "/2/users/by/username/"@ + bare_name(user),
            user_params(),
        ),
    )
    &&& x.1 matches ReplyData::Api(Ok(answer)) && id == (match told_id(answer) {
        Some(i) => i,
        None => bare_name(user),
    })
}

/// Whether the identifier is that of the user: the argument itself where users are named by
/// identifier, else what the API answered for the name.
pub open spec fn is_id_of(
    d: Seq<(AskData, ReplyData)>,
    user: Seq<char>,
    by_id: bool,
    id: Seq<char>,
) -> bool {
    if by_id {
        id == user
    } else {
        exists|k: int| 0 <= k < d.len() && tells_id(#[trigger] d[k], user, id)
    }
}

// ---------------------------------------------------------------------------
// How dialogs grow
// ---------------------------------------------------------------------------

pub proof fn lemma_dialog_starts(t: Talk)
    requires
        is_sound(t),
    ensures
        since(t, t),
        dialog(t, t) == Seq::<(AskData, ReplyData)>::empty(),
        changes(dialog(t, t)) == Seq::<RequestData>::empty(),
{
    reveal(since);
    reveal(dialog);
    reveal(changes);
    assert(dialog(t, t) =~= Seq::empty());
}

pub broadcast proof fn lemma_dialog_ask(t0: Talk, t: Talk, a: AskData)
    requires
        #[trigger] since(t0, t),
        t.next < t.replies.len(),
    ensures
        since(t0, (#[trigger] ask(t, a)).0),
        dialog(t0, ask(t, a).0) == dialog(t0, t).push((a, t.replies[t.next as int])),
{
    reveal(since);
    reveal(dialog);
    let u = ask(t, a).0;
    assert(dialog(t0, u) =~= dialog(t0, t).push((a, t.replies[t.next as int]))) by {
        assert forall|i: int| 0 <= i < t.next - t0.next implies #[trigger] u.asked[t0.asked.len()
            + i] == t.asked[t0.asked.len() + i] by {}
    }
}

pub broadcast proof fn lemma_dialog_say(t0: Talk, t: Talk, line: Seq<char>)
    requires
        #[trigger] since(t0, t),
    ensures
        since(t0, #[trigger] say(t, line)),
        dialog(t0, say(t, line)) == dialog(t0, t),
{
    reveal(since);
    reveal(dialog);
    assert(dialog(t0, say(t, line)) =~= dialog(t0, t));
}

pub broadcast proof fn lemma_dialog_say_err(t0: Talk, t: Talk, line: Seq<char>)
    requires
        #[trigger] since(t0, t),
    ensures
        since(t0, #[trigger] say_err(t, line)),
        dialog(t0, say_err(t, line)) == dialog(t0, t),
{
    reveal(since);
    reveal(dialog);
    assert(dialog(t0, say_err(t, line)) =~= dialog(t0, t));
}

pub broadcast proof fn lemma_changes_push(
    d: Seq<(AskData, ReplyData)>,
    x: (AskData, ReplyData),
)
    ensures
        #[trigger] changes(d.push(x)) == (match change_in(x) {
            Some(r) => changes(d).push(r),
            None => changes(d),
        }),
{
    reveal(changes);
    assert(d.push(x).drop_last() =~= d);
}

/// How dialogs grow, and what they change.
pub broadcast group group_dialog {
    lemma_dialog_ask,
    lemma_dialog_say,
    lemma_dialog_say_err,
    lemma_changes_push,
}

/// Whether a dialog goes on from another.
pub open spec fn goes_on(d: Seq<(AskData, ReplyData)>, more: Seq<(AskData, ReplyData)>) -> bool {
    d.len() <= more.len() && forall|k: int| 0 <= k < d.len() ==> #[trigger] more[k] == d[k]
}

/// What was learnt stays known.
pub proof fn lemma_still_known(
    d: Seq<(AskData, ReplyData)>,
    more: Seq<(AskData, ReplyData)>,
    user: Seq<char>,
    by_id: bool,
    id: Seq<char>,
)
    requires
        goes_on(d, more),
        is_id_of(d, user, by_id, id),
    ensures
        is_id_of(more, user, by_id, id),
{
    if !by_id {
        let k = choose|k: int| 0 <= k < d.len() && tells_id(#[trigger] d[k], user, id);
        assert(tells_id(more[k], user, id));
    }
}

// ---------------------------------------------------------------------------
// Steps that only read
// ---------------------------------------------------------------------------

/// Whether a step from `t` to `u` only read, as seen from `t0`.
pub open spec fn only_read(t0: Talk, t: Talk, u: Talk) -> bool {
    &&& since(t0, u)
    &&& changes(dialog(t0, u)) == changes(dialog(t0, t))
    &&& goes_on(dialog(t0, t), dialog(t0, u))
}

/// A user is looked up by the name, and by nothing where the identifier is given.
pub broadcast proof fn lemma_user_id_resolved(
    t0: Talk,
    t: Talk,
    user: Seq<char>,
    by_id: bool,
)
    requires
        #[trigger] since(t0, t),
        (#[trigger] user_id_resolved(t, user, by_id)).1 is Ok,
    ensures
        only_read(t0, t, user_id_resolved(t, user, by_id).0),
        is_id_of(
            dialog(t0, user_id_resolved(t, user, by_id).0),
            user,
            by_id,
            user_id_resolved(t, user, by_id).1->Ok_0,
        ),
{
    broadcast use group_dialog;
    if !by_id {
        let a = AskData::Api(
            retried(
                Method::GetOauth2,
                "/2/users/by/username/"@ + bare_name(user),
                user_params(),
            ),
        );
        let u = ask(t, a).0;
        let d = dialog(t0, u);
        assert(tells_id(d[d.len() - 1], user, user_id_resolved(t, user, by_id).1->Ok_0));
    }
}

pub broadcast proof fn lemma_current_user_id(t0: Talk, t: Talk, user_context: bool)
    requires
        #[trigger] since(t0, t),
        (#[trigger] current_user_id(t, user_context)).1 is Ok,
    ensures
        only_read(t0, t, current_user_id(t, user_context).0),
{
    broadcast use group_dialog;
}

pub broadcast proof fn lemma_bookmark_owner(t0: Talk, t: Talk)
    requires
        #[trigger] since(t0, t),
        (#[trigger] bookmark_owner(t)).1 is Ok,
    ensures
        only_read(t0, t, bookmark_owner(t).0),
{
    broadcast use group_dialog;
}

proof fn lemma_owned_lists_from(
    t0: Talk,
    t: Talk,
    path: Seq<char>,
    params: Seq<(Seq<char>, Seq<char>)>,
    lists: Seq<Data>,
    pages: nat,
)
    requires
        since(t0, t),
        owned_lists_from(t, path, params, lists, pages).1 is Ok,
    ensures
        only_read(t0, t, owned_lists_from(t, path, params, lists, pages).0),
    decreases pages,
{
    broadcast use group_dialog;
    if pages > 0 {
        let first = call(t, retried(Method::GetOauth2, path, params));
        if let Ok(d) = first.1 {
            if let Some(token) = crate::fetch::next_token(d) {
                lemma_owned_lists_from(
                    t0,
                    first.0,
                    path,
                    set_param(params, "pagination_token"@, token),
                    lists + crate::extract::lists_in(d),
                    (pages - 1) as nat,
                );
            }
        }
    }
}

pub broadcast proof fn lemma_list_id_resolved(
    t0: Talk,
    t: Talk,
    user_list: Seq<char>,
    by_id: bool,
    default_owner: Seq<char>,
)
    requires
        #[trigger] since(t0, t),
        (#[trigger] list_id_resolved(t, user_list, by_id, default_owner)).1 is Ok,
    ensures
        only_read(t0, t, list_id_resolved(t, user_list, by_id, default_owner).0),
{
    if !by_id {
        let (owner, name) = crate::words::owner_and_list(user_list, false, default_owner);
        let first = user_id_resolved(t, owner, false);
        lemma_user_id_resolved(t0, t, owner, false);
        let id = first.1->Ok_0;
        lemma_owned_lists_from(
            t0,
            first.0,
            "/2/users/"@ + id + "/owned_lists"@,
            seq![("max_results"@, "100"@)] + crate::fetch::list_params(),
            Seq::empty(),
            crate::params::MAX_PAGE as nat,
        );
        assert(owned_lists(first.0, id).1 is Ok);
    }
}

proof fn lemma_collections_from(
    t0: Talk,
    t: Talk,
    params: Seq<(Seq<char>, Seq<char>)>,
    collections: Seq<Data>,
    pages: nat,
)
    requires
        since(t0, t),
        collections_from(t, params, collections, pages).1 is Ok,
    ensures
        only_read(t0, t, collections_from(t, params, collections, pages).0),
    decreases pages,
{
    broadcast use group_dialog;
    if pages > 0 {
        let first = call(t, retried(Method::Get, "/1.1/collections/list.json"@, params));
        if let Ok(d) = first.1 {
            if let Some(cursor) = crate::fetch::next_cursor(d) {
                lemma_collections_from(
                    t0,
                    first.0,
                    set_param(params, "cursor"@, cursor),
                    collections + crate::fetch::collections_in(d),
                    (pages - 1) as nat,
                );
            }
        }
    }
}

pub broadcast proof fn lemma_collection_id_resolved(
    t0: Talk,
    t: Talk,
    name_or_id: Seq<char>,
    by_id: bool,
    default_owner: Seq<char>,
)
    requires
        #[trigger] since(t0, t),
        (#[trigger] collection_id_resolved(t, name_or_id, by_id, default_owner)).1 is Ok,
    ensures
        only_read(t0, t, collection_id_resolved(t, name_or_id, by_id, default_owner).0),
{
    if !by_id {
        assert(user_collections(t, default_owner, false).1 is Ok);
        lemma_collections_from(
            t0,
            t,
            seq![crate::words::user_param(false, default_owner)],
            Seq::empty(),
            crate::session::replies_left(t) + 1,
        );
    }
}

/// Steps that only read.
pub broadcast group group_reading {
    lemma_user_id_resolved,
    lemma_current_user_id,
    lemma_bookmark_owner,
    lemma_list_id_resolved,
    lemma_collection_id_resolved,
}

} // verus!
