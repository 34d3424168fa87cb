//! What commands change: the requests that they make of the API beyond reading, and what they say
//! of it.

use vstd::prelude::*;

use crate::act::{
    each_deleted, each_posted, each_reported, each_targeted, each_untargeted, ids_of, names_with_at,
    statuses_deleted, status_deleted, tweet_fetched, users_of,
};
use crate::command::performed_alone;
use crate::dialog::{
    changes, dialog, goes_on, group_dialog, group_reading, is_id_of, is_sound, lemma_dialog_starts,
    lemma_still_known, since, told_id,
};
use crate::encode::base64_of;
use crate::fetch::{
    bookmark_owner, collection_id_resolved, current_user_id, list_id_resolved, user_id_resolved,
};
use crate::invocation::InvocationData;
use crate::json::Data;
use crate::lists::{entries_changed, members_added};
use crate::params::{plain, retried, tweet_params, user_params};
use crate::paths::Remote;
use crate::session::{
    call, AskData, BookData, Method, ReplyData, RequestData, SayingData, StopData, Talk,
};
use crate::text::{joined, lowered, trim_back, trimmed, CharSet};
use crate::words::{bare_name, counted, user_arg};

verus! {

/// A request for each of the texts, which its body holds under the key.
pub open spec fn posts(
    method: Method,
    retry: bool,
    path: Seq<char>,
    key: Seq<char>,
    texts: Seq<Seq<char>>,
) -> Seq<RequestData> {
    Seq::new(
        texts.len(),
        |i: int|
            RequestData {
                method,
                retry,
                path,
                params: Seq::empty(),
                body: Some(Data::Object(seq![(key, Data::Text(texts[i]))])),
            },
    )
}

/// A request without a body for each of the texts, which ends its path.
pub open spec fn deletions(
    method: Method,
    retry: bool,
    prefix: Seq<char>,
    texts: Seq<Seq<char>>,
) -> Seq<RequestData> {
    Seq::new(
        texts.len(),
        |i: int|
            RequestData {
                method,
                retry,
                path: prefix + texts[i],
                params: Seq::empty(),
                body: None,
            },
    )
}

/// The deletion that takes a post back: the text in the body ends the path.
pub open spec fn taken_back(post: RequestData, method: Method) -> RequestData {
    RequestData {
        method,
        retry: post.retry,
        path: post.path + "/"@ + (post.body->Some_0->Object_0[0].1)->Text_0,
        params: Seq::empty(),
        body: None,
    }
}

/// Whether these are the identifiers of the users, in order.
pub open spec fn are_ids_of(
    d: Seq<(AskData, ReplyData)>,
    users: Seq<Seq<char>>,
    by_id: bool,
    ids: Seq<Seq<char>>,
) -> bool {
    &&& ids.len() == users.len()
    &&& forall|i: int| 0 <= i < ids.len() ==> is_id_of(d, users[i], by_id, #[trigger] ids[i])
}

/// What the account is said to have done.
pub open spec fn one_line(line: Seq<char>) -> Seq<SayingData> {
    seq![SayingData::Out(line)]
}

// ---------------------------------------------------------------------------
// Several of a kind
// ---------------------------------------------------------------------------

proof fn lemma_each_posted(
    t0: Talk,
    t: Talk,
    method: Method,
    retry: bool,
    path: Seq<char>,
    key: Seq<char>,
    texts: Seq<Seq<char>>,
)
    requires
        since(t0, t),
        !crate::dialog::is_read(method),
        each_posted(t, method, retry, path, key, texts).1 is Ok,
    ensures
        ({
            let u = each_posted(t, method, retry, path, key, texts).0;
            &&& since(t0, u)
            &&& changes(dialog(t0, u)) == changes(dialog(t0, t)) + posts(
                method,
                retry,
                path,
                key,
                texts,
            )
            &&& texts.len() > 0 ==> u.said == Seq::<SayingData>::empty()
        }),
    decreases texts.len(),
{
    broadcast use group_dialog;
    let all = posts(method, retry, path, key, texts);
    if texts.len() == 0 {
        assert(changes(dialog(t0, t)) + all =~= changes(dialog(t0, t)));
    } else {
        let first = call(t, all[0]);
        let rest = texts.drop_first();
        assert(first.1 is Ok);
        lemma_each_posted(t0, first.0, method, retry, path, key, rest);
        assert(all =~= seq![all[0]] + posts(method, retry, path, key, rest));
        assert(changes(dialog(t0, t)).push(all[0]) + posts(method, retry, path, key, rest)
            =~= changes(dialog(t0, t)) + all);
        if rest.len() == 0 {
            assert(each_posted(t, method, retry, path, key, texts).0 == first.0);
        }
    }
}

proof fn lemma_each_deleted(
    t0: Talk,
    t: Talk,
    method: Method,
    retry: bool,
    prefix: Seq<char>,
    texts: Seq<Seq<char>>,
)
    requires
        since(t0, t),
        !crate::dialog::is_read(method),
        each_deleted(t, method, retry, prefix, texts).1 is Ok,
    ensures
        ({
            let u = each_deleted(t, method, retry, prefix, texts).0;
            &&& since(t0, u)
            &&& changes(dialog(t0, u)) == changes(dialog(t0, t)) + deletions(
                method,
                retry,
                prefix,
                texts,
            )
            &&& texts.len() > 0 ==> u.said == Seq::<SayingData>::empty()
        }),
    decreases texts.len(),
{
    broadcast use group_dialog;
    let all = deletions(method, retry, prefix, texts);
    if texts.len() == 0 {
        assert(changes(dialog(t0, t)) + all =~= changes(dialog(t0, t)));
    } else {
        let first = call(t, all[0]);
        let rest = texts.drop_first();
        assert(first.1 is Ok);
        lemma_each_deleted(t0, first.0, method, retry, prefix, rest);
        assert(all =~= seq![all[0]] + deletions(method, retry, prefix, rest));
        assert(changes(dialog(t0, t)).push(all[0]) + deletions(method, retry, prefix, rest)
            =~= changes(dialog(t0, t)) + all);
        if rest.len() == 0 {
            assert(each_deleted(t, method, retry, prefix, texts).0 == first.0);
        }
    }
}

proof fn lemma_each_targeted(
    t0: Talk,
    t: Talk,
    path: Seq<char>,
    users: Seq<Seq<char>>,
    by_id: bool,
    names: Seq<Seq<char>>,
) -> (ids: Seq<Seq<char>>)
    requires
        since(t0, t),
        each_targeted(t, path, users, by_id, names).1 is Ok,
    ensures
        ({
            let step = each_targeted(t, path, users, by_id, names);
            let d = dialog(t0, step.0);
            &&& since(t0, step.0)
            &&& goes_on(dialog(t0, t), d)
            &&& are_ids_of(d, users, by_id, ids)
            &&& changes(d) == changes(dialog(t0, t)) + posts(
                Method::PostBody,
                false,
                path,
                "target_user_id"@,
                ids,
            )
            &&& step.1->Ok_0.len() == names.len() + users.len()
            &&& users.len() > 0 ==> step.0.said == Seq::<SayingData>::empty()
        }),
    decreases users.len(),
{
    broadcast use {group_dialog, group_reading};
    let key = "target_user_id"@;
    if users.len() == 0 {
        assert(changes(dialog(t0, t)) + posts(Method::PostBody, false, path, key, Seq::empty())
            =~= changes(dialog(t0, t)));
        Seq::empty()
    } else {
        let found = user_id_resolved(t, users[0], by_id);
        let id = found.1->Ok_0;
        let one = posts(Method::PostBody, false, path, key, seq![id])[0];
        let posted = call(found.0, one);
        assert(posted.1 is Ok);
        let rest = users.drop_first();
        let name = crate::extract::shown_user(posted.1->Ok_0, users[0]);
        let others = lemma_each_targeted(t0, posted.0, path, rest, by_id, names.push(name));
        let ids = seq![id] + others;
        let d = dialog(t0, each_targeted(t, path, users, by_id, names).0);
        lemma_still_known(dialog(t0, found.0), d, users[0], by_id, id);
        assert forall|i: int| 0 <= i < ids.len() implies is_id_of(
            d,
            users[i],
            by_id,
            #[trigger] ids[i],
        ) by {
            if i > 0 {
                assert(ids[i] == others[i - 1]);
                assert(users[i] == rest[i - 1]);
            }
        }
        assert(changes(dialog(t0, t)).push(one) + posts(
            Method::PostBody,
            false,
            path,
            key,
            others,
        ) =~= changes(dialog(t0, t)) + posts(Method::PostBody, false, path, key, ids));
        if rest.len() == 0 {
            assert(each_targeted(t, path, users, by_id, names).0 == posted.0);
        }
        ids
    }
}

proof fn lemma_each_untargeted(
    t0: Talk,
    t: Talk,
    prefix: Seq<char>,
    users: Seq<Seq<char>>,
    by_id: bool,
) -> (ids: Seq<Seq<char>>)
    requires
        since(t0, t),
        each_untargeted(t, prefix, users, by_id).1 is Ok,
    ensures
        ({
            let u = each_untargeted(t, prefix, users, by_id).0;
            let d = dialog(t0, u);
            &&& since(t0, u)
            &&& goes_on(dialog(t0, t), d)
            &&& are_ids_of(d, users, by_id, ids)
            &&& changes(d) == changes(dialog(t0, t)) + deletions(
                Method::Delete,
                false,
                prefix,
                ids,
            )
            &&& users.len() > 0 ==> u.said == Seq::<SayingData>::empty()
        }),
    decreases users.len(),
{
    broadcast use {group_dialog, group_reading};
    if users.len() == 0 {
        assert(changes(dialog(t0, t)) + deletions(Method::Delete, false, prefix, Seq::empty())
            =~= changes(dialog(t0, t)));
        Seq::empty()
    } else {
        let found = user_id_resolved(t, users[0], by_id);
        let id = found.1->Ok_0;
        let one = deletions(Method::Delete, false, prefix, seq![id])[0];
        let sent = call(found.0, one);
        assert(sent.1 is Ok);
        let rest = users.drop_first();
        let others = lemma_each_untargeted(t0, sent.0, prefix, rest, by_id);
        let ids = seq![id] + others;
        let d = dialog(t0, each_untargeted(t, prefix, users, by_id).0);
        lemma_still_known(dialog(t0, found.0), d, users[0], by_id, id);
        assert forall|i: int| 0 <= i < ids.len() implies is_id_of(
            d,
            users[i],
            by_id,
            #[trigger] ids[i],
        ) by {
            if i > 0 {
                assert(ids[i] == others[i - 1]);
                assert(users[i] == rest[i - 1]);
            }
        }
        assert(changes(dialog(t0, t)).push(one) + deletions(Method::Delete, false, prefix, others)
            =~= changes(dialog(t0, t)) + deletions(Method::Delete, false, prefix, ids));
        if rest.len() == 0 {
            assert(each_untargeted(t, prefix, users, by_id).0 == sent.0);
        }
        ids
    }
}

/// The identifier of a user is that of the argument, with or without an `@` before it.
proof fn lemma_ids_of_args(
    d: Seq<(AskData, ReplyData)>,
    args: Seq<Seq<char>>,
    by_id: bool,
    ids: Seq<Seq<char>>,
)
    requires
        are_ids_of(d, users_of(args, by_id), by_id, ids),
    ensures
        are_ids_of(d, args, by_id, ids),
{
    let users = users_of(args, by_id);
    assert forall|i: int| 0 <= i < ids.len() implies is_id_of(
        d,
        args[i],
        by_id,
        #[trigger] ids[i],
    ) by {
        assert(is_id_of(d, users[i], by_id, ids[i]));
        assert(users[i] == user_arg(args[i], by_id));
        crate::words::law_bare_name_is_final(args[i]);
        if !by_id {
            let k = choose|k: int|
                0 <= k < d.len() && crate::dialog::tells_id(#[trigger] d[k], users[i], ids[i]);
            assert(crate::dialog::tells_id(d[k], args[i], ids[i]));
        }
    }
}

// ---------------------------------------------------------------------------
// Following, blocking and muting
// ---------------------------------------------------------------------------

/// `follow` posts each user named, by the user's identifier and in order, to the users that the
/// account follows, changes nothing else, and says how many there were.
pub proof fn law_follow_follows(t: Talk, call: InvocationData, book: BookData)
    requires
        is_sound(t),
        performed_alone(t, call, book, Remote::Follow).1 is Ok,
    ensures
        ({
            let step = performed_alone(t, call, book, Remote::Follow);
            let d = dialog(t, step.0);
            let me = current_user_id(t, false).1->Ok_0;
            &&& exists|ids: Seq<Seq<char>>| #[trigger]
                are_ids_of(d, call.args, call.by_id(), ids) && changes(d) == posts(
                    Method::PostBody,
                    false,
                    "/2/users/"@ + me + "/following"@,
                    "target_user_id"@,
                    ids,
                )
            &&& step.1 == Ok::<i32, StopData>(0)
            &&& step.0.said == one_line(
                "@"@ + book.active_name() + " is now following "@ + counted(
                    call.args.len(),
                    "more user"@,
                    Some("more users"@),
                ) + "."@,
            )
        }),
{
    broadcast use {group_dialog, group_reading};
    lemma_dialog_starts(t);
    let users = users_of(call.args, call.by_id());
    let mine = current_user_id(t, false);
    let me = mine.1->Ok_0;
    let path = "/2/users/"@ + me + "/following"@;
    let ids = lemma_each_targeted(t, mine.0, path, users, call.by_id(), Seq::empty());
    let d = dialog(t, performed_alone(t, call, book, Remote::Follow).0);
    lemma_ids_of_args(d, call.args, call.by_id(), ids);
    assert(changes(d) =~= posts(Method::PostBody, false, path, "target_user_id"@, ids));
}

/// `block` posts each user named, by the user's identifier and in order, to the users that the
/// account blocks, changes nothing else, says how many there were and how to unblock them.
pub proof fn law_block_blocks(t: Talk, call: InvocationData, book: BookData)
    requires
        is_sound(t),
        performed_alone(t, call, book, Remote::Block).1 is Ok,
    ensures
        ({
            let step = performed_alone(t, call, book, Remote::Block);
            let d = dialog(t, step.0);
            let me = current_user_id(t, false).1->Ok_0;
            &&& exists|ids: Seq<Seq<char>>| #[trigger]
                are_ids_of(d, call.args, call.by_id(), ids) && changes(d) == posts(
                    Method::PostBody,
                    false,
                    "/2/users/"@ + me + "/blocking"@,
                    "target_user_id"@,
                    ids,
                )
            &&& step.1 == Ok::<i32, StopData>(0)
            &&& step.0.said.len() == 3
            &&& step.0.said[0] == SayingData::Out(
                "@"@ + book.active_name() + " blocked "@ + counted(call.args.len(), "user"@, None)
                    + "."@,
            )
            &&& exists|names: Seq<Seq<char>>|
                names.len() == call.args.len() && step.0.said[2] == SayingData::Out(
                    "Run `x delete block "@ + #[trigger] names_with_at(names) + "` to unblock."@,
                )
        }),
{
    broadcast use {group_dialog, group_reading};
    lemma_dialog_starts(t);
    let users = users_of(call.args, call.by_id());
    let mine = current_user_id(t, false);
    let me = mine.1->Ok_0;
    let path = "/2/users/"@ + me + "/blocking"@;
    let ids = lemma_each_targeted(t, mine.0, path, users, call.by_id(), Seq::empty());
    let d = dialog(t, performed_alone(t, call, book, Remote::Block).0);
    lemma_ids_of_args(d, call.args, call.by_id(), ids);
    assert(changes(d) =~= posts(Method::PostBody, false, path, "target_user_id"@, ids));
    let names = each_targeted(mine.0, path, users, call.by_id(), Seq::empty()).1->Ok_0;
    assert(names.len() == call.args.len());
    assert(performed_alone(t, call, book, Remote::Block).0.said[2] == SayingData::Out(
        "Run `x delete block "@ + names_with_at(names) + "` to unblock."@,
    ));
}

/// `mute` posts each user named, by the user's identifier and in order, to the users that the
/// account mutes, changes nothing else, and says how many there were.
pub proof fn law_mute_mutes(t: Talk, call: InvocationData, book: BookData)
    requires
        is_sound(t),
        performed_alone(t, call, book, Remote::Mute).1 is Ok,
    ensures
        ({
            let step = performed_alone(t, call, book, Remote::Mute);
            let d = dialog(t, step.0);
            let me = current_user_id(t, false).1->Ok_0;
            &&& exists|ids: Seq<Seq<char>>| #[trigger]
                are_ids_of(d, call.args, call.by_id(), ids) && changes(d) == posts(
                    Method::PostBody,
                    false,
                    "/2/users/"@ + me + "/muting"@,
                    "target_user_id"@,
                    ids,
                )
            &&& step.1 == Ok::<i32, StopData>(0)
            &&& step.0.said == one_line(
                "@"@ + book.active_name() + " muted "@ + counted(call.args.len(), "user"@, None)
                    + "."@,
            )
        }),
{
    broadcast use {group_dialog, group_reading};
    lemma_dialog_starts(t);
    let users = users_of(call.args, call.by_id());
    let mine = current_user_id(t, false);
    let me = mine.1->Ok_0;
    let path = "/2/users/"@ + me + "/muting"@;
    let ids = lemma_each_targeted(t, mine.0, path, users, call.by_id(), Seq::empty());
    let d = dialog(t, performed_alone(t, call, book, Remote::Mute).0);
    lemma_ids_of_args(d, call.args, call.by_id(), ids);
    assert(changes(d) =~= posts(Method::PostBody, false, path, "target_user_id"@, ids));
}

proof fn lemma_untargeted(
    t: Talk,
    call: InvocationData,
    who: Seq<char>,
    tail: Seq<char>,
    verb: Seq<char>,
) -> (ids: Seq<Seq<char>>)
    requires
        is_sound(t),
        crate::act::users_untargeted(t, call, who, tail, verb).1 is Ok,
    ensures
        ({
            let u = crate::act::users_untargeted(t, call, who, tail, verb).0;
            let d = dialog(t, u);
            let me = current_user_id(t, false).1->Ok_0;
            &&& are_ids_of(d, call.args, call.by_id(), ids)
            &&& changes(d) == deletions(Method::Delete, false, "/2/users/"@ + me + tail, ids)
            &&& u.said == one_line(
                crate::invocation::told(who, verb, counted(call.args.len(), "user"@, None)),
            )
        }),
{
    broadcast use {group_dialog, group_reading};
    lemma_dialog_starts(t);
    let users = users_of(call.args, call.by_id());
    let mine = current_user_id(t, false);
    let prefix = "/2/users/"@ + mine.1->Ok_0 + tail;
    let ids = lemma_each_untargeted(t, mine.0, prefix, users, call.by_id());
    let d = dialog(t, crate::act::users_untargeted(t, call, who, tail, verb).0);
    lemma_ids_of_args(d, call.args, call.by_id(), ids);
    assert(changes(d) =~= deletions(Method::Delete, false, prefix, ids));
    ids
}

/// `unfollow` deletes each user named, in order, from the users that the account follows, changes
/// nothing else, and says how many there were.
pub proof fn law_unfollow_unfollows(t: Talk, call: InvocationData, book: BookData)
    requires
        is_sound(t),
        performed_alone(t, call, book, Remote::Unfollow).1 is Ok,
    ensures
        ({
            let step = performed_alone(t, call, book, Remote::Unfollow);
            let d = dialog(t, step.0);
            let me = current_user_id(t, false).1->Ok_0;
            &&& exists|ids: Seq<Seq<char>>| #[trigger]
                are_ids_of(d, call.args, call.by_id(), ids) && changes(d) == deletions(
                    Method::Delete,
                    false,
                    "/2/users/"@ + me + "/following/"@,
                    ids,
                )
            &&& step.1 == Ok::<i32, StopData>(0)
            &&& step.0.said == one_line(
                "@"@ + book.active_name() + " is no longer following "@ + counted(
                    call.args.len(),
                    "user"@,
                    None,
                ) + "."@,
            )
        }),
{
    let ids = lemma_untargeted(
        t,
        call,
        book.active_name(),
        "/following/"@,
        " is no longer following "@,
    );
}

/// `delete block` deletes each user named, in order, from the users that the account blocks,
/// changes nothing else, and says how many there were.
pub proof fn law_delete_block_unblocks(t: Talk, call: InvocationData, book: BookData)
    requires
        is_sound(t),
        performed_alone(t, call, book, Remote::DeleteBlock).1 is Ok,
    ensures
        ({
            let step = performed_alone(t, call, book, Remote::DeleteBlock);
            let d = dialog(t, step.0);
            let me = current_user_id(t, false).1->Ok_0;
            &&& exists|ids: Seq<Seq<char>>| #[trigger]
                are_ids_of(d, call.args, call.by_id(), ids) && changes(d) == deletions(
                    Method::Delete,
                    false,
                    "/2/users/"@ + me + "/blocking/"@,
                    ids,
                )
            &&& step.1 == Ok::<i32, StopData>(0)
            &&& step.0.said == one_line(
                "@"@ + book.active_name() + " unblocked "@ + counted(
                    call.args.len(),
                    "user"@,
                    None,
                ) + "."@,
            )
        }),
{
    let ids = lemma_untargeted(t, call, book.active_name(), "/blocking/"@, " unblocked "@);
}

/// `delete mute` deletes each user named, in order, from the users that the account mutes, changes
/// nothing else, and says how many there were.
pub proof fn law_delete_mute_unmutes(t: Talk, call: InvocationData, book: BookData)
    requires
        is_sound(t),
        performed_alone(t, call, book, Remote::DeleteMute).1 is Ok,
    ensures
        ({
            let step = performed_alone(t, call, book, Remote::DeleteMute);
            let d = dialog(t, step.0);
            let me = current_user_id(t, false).1->Ok_0;
            &&& exists|ids: Seq<Seq<char>>| #[trigger]
                are_ids_of(d, call.args, call.by_id(), ids) && changes(d) == deletions(
                    Method::Delete,
                    false,
                    "/2/users/"@ + me + "/muting/"@,
                    ids,
                )
            &&& step.1 == Ok::<i32, StopData>(0)
            &&& step.0.said == one_line(
                "@"@ + book.active_name() + " unmuted "@ + counted(call.args.len(), "user"@, None)
                    + "."@,
            )
        }),
{
    let ids = lemma_untargeted(t, call, book.active_name(), "/muting/"@, " unmuted "@);
}

/// What one command posts another takes back: for users named by identifier, `unfollow` deletes
/// from under the very path that `follow` posts to, `delete block` from under that of `block` and
/// `delete mute` from under that of `mute`; and none of the three pairs touches another's.
pub proof fn law_relations_are_taken_back(
    t: Talk,
    later: Talk,
    call: InvocationData,
    book: BookData,
    pair: (Remote, Remote),
)
    requires
        is_sound(t),
        is_sound(later),
        call.by_id(),
        pair == (Remote::Follow, Remote::Unfollow) || pair == (Remote::Block, Remote::DeleteBlock)
            || pair == (Remote::Mute, Remote::DeleteMute),
        performed_alone(t, call, book, pair.0).1 is Ok,
        performed_alone(later, call, book, pair.1).1 is Ok,
        current_user_id(t, false).1 == current_user_id(later, false).1,
    ensures
        ({
            let there = changes(dialog(t, performed_alone(t, call, book, pair.0).0));
            let back = changes(dialog(later, performed_alone(later, call, book, pair.1).0));
            &&& there.len() == call.args.len()
            &&& back.len() == call.args.len()
            &&& forall|i: int|
                0 <= i < call.args.len() ==> #[trigger] back[i] == taken_back(
                    there[i],
                    Method::Delete,
                )
        }),
{
    let d = dialog(t, performed_alone(t, call, book, pair.0).0);
    let e = dialog(later, performed_alone(later, call, book, pair.1).0);
    let me = current_user_id(t, false).1->Ok_0;
    let tail = if pair.0 == Remote::Follow {
        law_follow_follows(t, call, book);
        law_unfollow_unfollows(later, call, book);
        reveal_strlit("/following");
        reveal_strlit("/following/");
        assert("/following/"@ =~= "/following"@ + "/"@) by {
            reveal_strlit("/");
        }
        "/following"@
    } else if pair.0 == Remote::Block {
        law_block_blocks(t, call, book);
        law_delete_block_unblocks(later, call, book);
        reveal_strlit("/blocking");
        reveal_strlit("/blocking/");
        assert("/blocking/"@ =~= "/blocking"@ + "/"@) by {
            reveal_strlit("/");
        }
        "/blocking"@
    } else {
        law_mute_mutes(t, call, book);
        law_delete_mute_unmutes(later, call, book);
        reveal_strlit("/muting");
        reveal_strlit("/muting/");
        assert("/muting/"@ =~= "/muting"@ + "/"@) by {
            reveal_strlit("/");
        }
        "/muting"@
    };
    let path = "/2/users/"@ + me + tail;
    let prefix = "/2/users/"@ + me + (tail + "/"@);
    let ids = choose|ids: Seq<Seq<char>>| #[trigger]
        are_ids_of(d, call.args, call.by_id(), ids) && changes(d) == posts(
            Method::PostBody,
            false,
            path,
            "target_user_id"@,
            ids,
        );
    let others = choose|ids: Seq<Seq<char>>| #[trigger]
        are_ids_of(e, call.args, call.by_id(), ids) && changes(e) == deletions(
            Method::Delete,
            false,
            prefix,
            ids,
        );
    assert(ids =~= call.args);
    assert(others =~= call.args);
    assert forall|i: int| 0 <= i < call.args.len() implies #[trigger] changes(e)[i] == taken_back(
        changes(d)[i],
        Method::Delete,
    ) by {
        assert(prefix + call.args[i] =~= path + "/"@ + call.args[i]);
    }
}

/// `report_spam` reports each user named, in order, and changes nothing else.
pub proof fn law_report_spam_reports(t: Talk, call: InvocationData, book: BookData)
    requires
        is_sound(t),
        performed_alone(t, call, book, Remote::ReportSpam).1 is Ok,
    ensures
        ({
            let step = performed_alone(t, call, book, Remote::ReportSpam);
            let made = changes(dialog(t, step.0));
            &&& made.len() == call.args.len()
            &&& forall|i: int|
                0 <= i < made.len() ==> #[trigger] made[i] == plain(
                    Method::Post,
                    "/1.1/users/report_spam.json"@,
                    if call.by_id() {
                        seq![("user_id"@, call.args[i])]
                    } else {
                        seq![("screen_name"@, bare_name(call.args[i]))]
                    },
                )
            &&& step.1 == Ok::<i32, StopData>(0)
            &&& step.0.said == one_line(
                "@"@ + book.active_name() + " reported "@ + counted(call.args.len(), "user"@, None)
                    + "."@,
            )
        }),
{
    broadcast use {group_dialog, group_reading};
    lemma_dialog_starts(t);
    let users = users_of(call.args, call.by_id());
    lemma_each_reported(t, t, users, call.by_id());
    let made = changes(dialog(t, performed_alone(t, call, book, Remote::ReportSpam).0));
    assert forall|i: int| 0 <= i < made.len() implies #[trigger] made[i] == plain(
        Method::Post,
        "/1.1/users/report_spam.json"@,
        if call.by_id() {
            seq![("user_id"@, call.args[i])]
        } else {
            seq![("screen_name"@, bare_name(call.args[i]))]
        },
    ) by {
        crate::words::law_bare_name_is_final(call.args[i]);
        assert(users[i] == user_arg(call.args[i], call.by_id()));
    }
}

proof fn lemma_each_reported(t0: Talk, t: Talk, users: Seq<Seq<char>>, by_id: bool)
    requires
        since(t0, t),
        each_reported(t, users, by_id).1 is Ok,
    ensures
        ({
            let u = each_reported(t, users, by_id).0;
            &&& since(t0, u)
            &&& changes(dialog(t0, u)) == changes(dialog(t0, t)) + Seq::new(
                users.len(),
                |i: int|
                    plain(
                        Method::Post,
                        "/1.1/users/report_spam.json"@,
                        seq![crate::words::user_param(by_id, users[i])],
                    ),
            )
            &&& users.len() > 0 ==> u.said == Seq::<SayingData>::empty()
        }),
    decreases users.len(),
{
    broadcast use group_dialog;
    let all = Seq::new(
        users.len(),
        |i: int|
            plain(
                Method::Post,
                "/1.1/users/report_spam.json"@,
                seq![crate::words::user_param(by_id, users[i])],
            ),
    );
    if users.len() == 0 {
        assert(changes(dialog(t0, t)) + all =~= changes(dialog(t0, t)));
    } else {
        let first = call(t, all[0]);
        let rest = users.drop_first();
        assert(first.1 is Ok);
        lemma_each_reported(t0, first.0, rest, by_id);
        assert(changes(dialog(t0, each_reported(t, users, by_id).0)) =~= changes(dialog(t0, t))
            + all);
        if rest.len() == 0 {
            assert(each_reported(t, users, by_id).0 == first.0);
        }
    }
}

// ---------------------------------------------------------------------------
// Likes, retweets, bookmarks and messages
// ---------------------------------------------------------------------------

/// The identifiers among arguments: each without the blanks around it.
pub open spec fn tidied(args: Seq<Seq<char>>) -> Seq<Seq<char>> {
    Seq::new(args.len(), |i: int| trimmed(args[i]))
}

/// `favorite` and `retweet` post each tweet named, in order, to the account's likes and to its
/// retweets; `bookmark` to the bookmarks. Nothing else is changed, and it is said how many there
/// were.
pub proof fn law_tweets_are_liked_repeated_and_kept(
    t: Talk,
    call: InvocationData,
    book: BookData,
    command: Remote,
)
    requires
        is_sound(t),
        command == Remote::Favorite || command == Remote::Retweet || command == Remote::Bookmark,
        performed_alone(t, call, book, command).1 is Ok,
    ensures
        ({
            let step = performed_alone(t, call, book, command);
            let made = changes(dialog(t, step.0));
            let who = "@"@ + book.active_name();
            &&& step.1 == Ok::<i32, StopData>(0)
            &&& command == Remote::Favorite ==> made == posts(
                Method::PostBody,
                false,
                "/2/users/"@ + current_user_id(t, false).1->Ok_0 + "/likes"@,
                "tweet_id"@,
                tidied(call.args),
            ) && step.0.said == one_line(
                who + " favorited "@ + counted(call.args.len(), "tweet"@, None) + "."@,
            )
            &&& command == Remote::Retweet ==> made == posts(
                Method::PostBody,
                false,
                "/2/users/"@ + current_user_id(t, false).1->Ok_0 + "/retweets"@,
                "tweet_id"@,
                tidied(call.args),
            ) && step.0.said == one_line(
                who + " retweeted "@ + counted(call.args.len(), "tweet"@, None) + "."@,
            )
            &&& command == Remote::Bookmark ==> made == posts(
                Method::PostBodyOauth2User,
                true,
                "/2/users/"@ + bookmark_owner(t).1->Ok_0 + "/bookmarks"@,
                "tweet_id"@,
                tidied(call.args),
            ) && step.0.said == one_line(
                who + " bookmarked "@ + counted(call.args.len(), "post"@, None) + "."@,
            )
        }),
{
    broadcast use {group_dialog, group_reading};
    lemma_dialog_starts(t);
    assert(ids_of(call.args) =~= tidied(call.args));
    let key = "tweet_id"@;
    let made = changes(dialog(t, performed_alone(t, call, book, command).0));
    if command == Remote::Bookmark {
        let mine = bookmark_owner(t);
        let path = "/2/users/"@ + mine.1->Ok_0 + "/bookmarks"@;
        let method = Method::PostBodyOauth2User;
        lemma_each_posted(t, mine.0, method, true, path, key, ids_of(call.args));
        assert(made =~= posts(method, true, path, key, tidied(call.args)));
    } else {
        let mine = current_user_id(t, false);
        let path = "/2/users/"@ + mine.1->Ok_0 + (if command == Remote::Favorite {
            "/likes"@
        } else {
            "/retweets"@
        });
        lemma_each_posted(t, mine.0, Method::PostBody, false, path, key, ids_of(call.args));
        assert(made =~= posts(Method::PostBody, false, path, key, tidied(call.args)));
    }
}

/// `delete favorite` deletes each tweet named, in order, from the account's likes, `unbookmark`
/// from its bookmarks; `delete dm` deletes each message named. Nothing else is changed.
pub proof fn law_likes_bookmarks_and_messages_are_deleted(
    t: Talk,
    call: InvocationData,
    book: BookData,
    command: Remote,
)
    requires
        is_sound(t),
        command == Remote::DeleteFavorite || command == Remote::Unbookmark || command
            == Remote::DeleteDm,
        performed_alone(t, call, book, command).1 is Ok,
    ensures
        ({
            let step = performed_alone(t, call, book, command);
            let made = changes(dialog(t, step.0));
            &&& step.1 == Ok::<i32, StopData>(0)
            &&& command == Remote::DeleteFavorite ==> made == deletions(
                Method::Delete,
                false,
                "/2/users/"@ + current_user_id(t, false).1->Ok_0 + "/likes/"@,
                tidied(call.args),
            )
            &&& command == Remote::Unbookmark ==> made == deletions(
                Method::DeleteOauth2User,
                true,
                "/2/users/"@ + bookmark_owner(t).1->Ok_0 + "/bookmarks/"@,
                tidied(call.args),
            ) && step.0.said == one_line(
                "@"@ + book.active_name() + " removed "@ + counted(
                    call.args.len(),
                    "bookmark"@,
                    None,
                ) + "."@,
            )
            &&& command == Remote::DeleteDm ==> made == deletions(
                Method::Delete,
                false,
                "/2/dm_events/"@,
                tidied(call.args),
            )
        }),
{
    broadcast use {group_dialog, group_reading};
    lemma_dialog_starts(t);
    assert(ids_of(call.args) =~= tidied(call.args));
    let made = changes(dialog(t, performed_alone(t, call, book, command).0));
    if command == Remote::Unbookmark {
        let mine = bookmark_owner(t);
        let prefix = "/2/users/"@ + mine.1->Ok_0 + "/bookmarks/"@;
        let method = Method::DeleteOauth2User;
        lemma_each_deleted(t, mine.0, method, true, prefix, ids_of(call.args));
        assert(made =~= deletions(method, true, prefix, tidied(call.args)));
    } else if command == Remote::DeleteFavorite {
        let mine = current_user_id(t, false);
        let prefix = "/2/users/"@ + mine.1->Ok_0 + "/likes/"@;
        lemma_each_deleted(t, mine.0, Method::Delete, false, prefix, ids_of(call.args));
        assert(made =~= deletions(Method::Delete, false, prefix, tidied(call.args)));
    } else {
        lemma_each_deleted(t, t, Method::Delete, false, "/2/dm_events/"@, ids_of(call.args));
        assert(made =~= deletions(Method::Delete, false, "/2/dm_events/"@, tidied(call.args)));
    }
}

/// The request that sends a text to a user.
pub open spec fn message(to: Seq<char>, text: Seq<char>) -> RequestData {
    RequestData {
        method: Method::PostBody,
        retry: false,
        path: "/2/dm_conversations/with/"@ + to + "/messages"@,
        params: Seq::empty(),
        body: Some(Data::Object(seq![("text"@, Data::Text(text))])),
    }
}

/// `dm` sends one message, to the user named first: to the identifier given, or to the one that
/// the API answers for the name. The text is that of the words behind the user, with single blanks
/// between them, and of nothing else: where there is one word it is that word, whoever it goes to.
pub proof fn law_dm_sends_the_words(t: Talk, call: InvocationData, book: BookData)
    requires
        is_sound(t),
        performed_alone(t, call, book, Remote::Dm).1 is Ok,
    ensures
        ({
            let step = performed_alone(t, call, book, Remote::Dm);
            let d = dialog(t, step.0);
            let made = changes(d);
            &&& made.len() == 1
            &&& exists|to: Seq<char>, text: Seq<char>|
                made[0] == #[trigger] message(to, text) && is_words(text, call.args.skip(1)) && (
                call.args.len() == 2 ==> text == call.args[1]) && (if call.by_id() {
                    to == call.args[0] && d.len() == 1
                } else {
                    &&& d.len() == 2
                    &&& d[0].0 == AskData::Api(
                        retried(
                            Method::GetOauth2,
                            "/2/users/by/username/"@ + bare_name(call.args[0]),
                            user_params(),
                        ),
                    )
                    &&& d[0].1 matches ReplyData::Api(Ok(answer)) && (told_id(
                        answer,
                    ) matches Some(id) ==> to == id)
                })
            &&& step.1 == Ok::<i32, StopData>(0)
            &&& step.0.said == one_line(
                "Direct Message sent from @"@ + book.active_name() + " to @"@ + bare_name(
                    call.args[0],
                ) + "."@,
            )
        }),
{
    broadcast use group_dialog;
    lemma_dialog_starts(t);
    let target = crate::act::dm_target(t, call);
    let to = target.1->Ok_0;
    let text = joined(call.args.skip(1), " "@);
    lemma_words_joined(call.args.skip(1));
    let d = dialog(t, performed_alone(t, call, book, Remote::Dm).0);
    assert(changes(d)[0] == message(to, text));
}

/// Whether a text is that of the words, with a single blank between two of them.
pub open spec fn is_words(text: Seq<char>, words: Seq<Seq<char>>) -> bool
    decreases words.len(),
{
    if words.len() == 0 {
        text.len() == 0
    } else if words.len() == 1 {
        text == words[0]
    } else {
        let n = words[0].len() as int;
        &&& n < text.len()
        &&& text.take(n) == words[0]
        &&& text[n] == ' '
        &&& is_words(text.skip(n + 1), words.drop_first())
    }
}

pub proof fn lemma_words_joined(words: Seq<Seq<char>>)
    ensures
        is_words(joined(words, " "@), words),
    decreases words.len(),
{
    reveal_strlit(" ");
    assert(" "@ =~= seq![' ']);
    if words.len() > 1 {
        let rest = words.drop_first();
        lemma_words_joined(rest);
        assert(words =~= seq![words[0]] + rest);
        crate::text::lemma_joined_of_both(seq![words[0]], rest, " "@);
        assert(joined(seq![words[0]], " "@) == words[0]);
        let text = joined(words, " "@);
        let n = words[0].len() as int;
        assert(text =~= words[0] + seq![' '] + joined(rest, " "@));
        assert(text.take(n) =~= words[0]);
        assert(text.skip(n + 1) =~= joined(rest, " "@));
    }
}

// ---------------------------------------------------------------------------
// Posting and deleting tweets
// ---------------------------------------------------------------------------

/// Whether the last but one of the changes uploads the file: the bytes that were read, in Base64.
pub open spec fn uploads_file(
    d: Seq<(AskData, ReplyData)>,
    made: Seq<RequestData>,
    id: Seq<char>,
) -> bool {
    &&& d.len() >= 3
    &&& made.len() == 2
    &&& d[d.len() - 3].0 is ReadFile
    &&& d[d.len() - 3].1 matches ReplyData::Bytes(Ok(bytes)) && made[0] == retried(
        Method::Post,
        "/1.1/media/upload.json"@,
        seq![("media_data"@, base64_of(bytes))],
    )
    &&& d[d.len() - 2].0 == AskData::Api(made[0])
    &&& d[d.len() - 2].1 matches ReplyData::Api(Ok(answer)) && (answer.text_at(
        "media_id_string"@,
    ) matches Some(i) ==> id == i)
}

/// `update` posts one tweet, with the words given as its text; where a file is given it is
/// uploaded first and the tweet carries it. It is said that the account posted, and how to delete
/// the tweet by the identifier that the API gave it.
pub proof fn law_update_posts_the_words(t: Talk, call: InvocationData, book: BookData)
    requires
        is_sound(t),
        performed_alone(t, call, book, Remote::Update).1 is Ok,
    ensures
        ({
            let step = performed_alone(t, call, book, Remote::Update);
            let d = dialog(t, step.0);
            let made = changes(d);
            let post = made.last();
            &&& made.len() > 0
            &&& post.method == Method::PostBody
            &&& post.path == "/2/tweets"@
            &&& post.params.len() == 0
            &&& post.body matches Some(Data::Object(entries)) && {
                &&& entries.len() > 0
                &&& entries[0].0 == "text"@
                &&& entries[0].1 matches Data::Text(text) && is_words(text, call.args)
                &&& match call.options.text("file"@) {
                    None => made.len() == 1 && entries.len() == 1,
                    Some(path) => entries.len() == 2 && exists|id: Seq<char>| #[trigger]
                        uploads_file(d, made, id) && entries[1] == carried_file(id),
                }
            }
            &&& step.1 == Ok::<i32, StopData>(0)
            &&& step.0.said.len() > 0
            &&& step.0.said[0] == SayingData::Out(
                "Tweet posted by @"@ + book.active_name() + "."@,
            )
            &&& d.len() > 0
            &&& d.last().1 matches ReplyData::Api(Ok(answer)) && (given_id(answer).len() > 0
                ==> step.0.said.last() == SayingData::Out(
                "Run `x delete status "@ + given_id(answer) + "` to delete."@,
            ))
        }),
{
    broadcast use group_dialog;
    lemma_dialog_starts(t);
    lemma_words_joined(call.args);
    let d = dialog(t, performed_alone(t, call, book, Remote::Update).0);
    if let Some(path) = call.options.text("file"@) {
        let up = crate::act::media_uploaded(t, path);
        let id = up.1->Ok_0;
        assert(uploads_file(d, changes(d), id));
    }
}

/// The identifier that an answer gives to what was posted; none where it gives none.
pub open spec fn given_id(answer: Data) -> Seq<char> {
    match (answer.id(), answer.get("data"@)) {
        (Some(id), _) => id,
        (None, Some(data)) => crate::json::or_empty(data.id()),
        (None, None) => Seq::empty(),
    }
}

/// What a tweet says of the file that it carries.
pub open spec fn carried_file(id: Seq<char>) -> (Seq<char>, Data) {
    ("media"@, Data::Object(seq![("media_ids"@, Data::Array(seq![Data::Text(id)]))]))
}

/// `reply` posts one tweet, in reply to the one that is named first: its text ends with the words
/// behind that, and begins with the users that are addressed. What is replied to was fetched.
pub proof fn law_reply_answers_the_tweet(t: Talk, call: InvocationData, book: BookData)
    requires
        is_sound(t),
        performed_alone(t, call, book, Remote::Reply).1 is Ok,
    ensures
        ({
            let step = performed_alone(t, call, book, Remote::Reply);
            let d = dialog(t, step.0);
            let made = changes(d);
            let post = made.last();
            let status = tweet_fetched(t, call.args[0]).1->Ok_0;
            let to = crate::act::reply_prefix(
                crate::act::addressees(status, call.options.flag("all"@), book.active_name()),
            );
            &&& d.len() > 0
            &&& d[0].0 == AskData::Api(
                plain(Method::GetOauth2, "/2/tweets/"@ + call.args[0], tweet_params()),
            )
            &&& made.len() > 0
            &&& post.method == Method::PostBody
            &&& post.path == "/2/tweets"@
            &&& post.params.len() == 0
            &&& post.body matches Some(Data::Object(entries)) && {
                &&& entries.len() >= 2
                &&& exists|words: Seq<char>| #[trigger]
                    is_words(words, call.args.skip(1)) && entries[0] == (
                        "text"@,
                        Data::Text(trimmed(to + " "@ + words)),
                    )
                &&& entries[1] == (
                    "reply"@,
                    Data::Object(seq![("in_reply_to_tweet_id"@, Data::Text(call.args[0]))]),
                )
                &&& match call.options.text("file"@) {
                    None => made.len() == 1 && entries.len() == 2,
                    Some(path) => entries.len() == 3 && exists|id: Seq<char>| #[trigger]
                        uploads_file(d, made, id) && entries[2] == carried_file(id),
                }
            }
            &&& step.1 == Ok::<i32, StopData>(0)
            &&& step.0.said.len() > 0
            &&& step.0.said[0] == SayingData::Out(
                "Reply posted by @"@ + book.active_name() + " to "@ + to + "."@,
            )
            &&& d.last().1 matches ReplyData::Api(Ok(answer)) && (given_id(answer).len() > 0
                ==> step.0.said.last() == SayingData::Out(
                "Run `x delete status "@ + given_id(answer) + "` to delete."@,
            ))
        }),
{
    broadcast use group_dialog;
    lemma_dialog_starts(t);
    lemma_words_joined(call.args.skip(1));
    let d = dialog(t, performed_alone(t, call, book, Remote::Reply).0);
    let fetched = tweet_fetched(t, call.args[0]);
    assert(is_words(joined(call.args.skip(1), " "@), call.args.skip(1)));
    if let Some(path) = call.options.text("file"@) {
        let up = crate::act::media_uploaded(fetched.0, path);
        assert(uploads_file(d, changes(d), up.1->Ok_0));
    }
}

/// A reply addresses the author of the tweet and, where all are to be addressed, those that the
/// tweet mentions; the account itself is never addressed, and nobody else is.
pub proof fn law_reply_addresses(status: Data, all: bool, who: Seq<char>, user: Seq<char>)
    ensures
        crate::act::addressees(status, all, who).contains(user) <==> {
            &&& lowered(user) != lowered(who)
            &&& user == crate::json::or_empty(
                crate::json::text_in(
                    crate::json::get_in(status.get("user"@), "screen_name"@),
                ),
            ) || all && crate::words::mentions_in(
                crate::extract::text_of(status, false),
            ).contains(user)
        },
{
    let author = seq![crate::json::or_empty(crate::act::tweet_author(status))];
    let mentioned = crate::words::mentions_in(crate::extract::text_of(status, false));
    let users = if all {
        crate::idset::set_of(author + mentioned)
    } else {
        author
    };
    crate::idset::law_set_holds_each_text_once(author + mentioned);
    assert((author + mentioned).contains(user) <==> user == author[0] || mentioned.contains(
        user,
    )) by {
        if (author + mentioned).contains(user) {
            let i = choose|i: int|
                0 <= i < (author + mentioned).len() && (author + mentioned)[i] == user;
            if i > 0 {
                assert(mentioned[i - 1] == user);
            }
        }
        if mentioned.contains(user) {
            let i = choose|i: int| 0 <= i < mentioned.len() && mentioned[i] == user;
            assert((author + mentioned)[i + 1] == user);
        }
        assert((author + mentioned)[0] == author[0]);
    }
    assert(users.contains(user) <==> user == author[0] || all && mentioned.contains(user)) by {
        assert(author[0] == author[0]);
        assert(crate::idset::set_of(author + mentioned).contains(user) <==> (author
            + mentioned).contains(user));
    }
    let f = |u: Seq<char>| crate::act::someone_else(u, who);
    let kept = crate::list::collected(users, f);
    if kept.contains(user) {
        let i = choose|i: int| 0 <= i < kept.len() && kept[i] == user;
        crate::list::lemma_collected_from(users, f, i);
        let k = choose|k: int| 0 <= k < users.len() && f(#[trigger] users[k]) == Some(kept[i]);
        assert(users[k] == user);
    }
    if users.contains(user) && lowered(user) != lowered(who) {
        let k = choose|k: int| 0 <= k < users.len() && users[k] == user;
        lemma_collected_holds(users, f, k, user);
    }
}

/// What an item gives is collected.
pub proof fn lemma_collected_holds<A, B>(s: Seq<A>, f: spec_fn(A) -> Option<B>, k: int, b: B)
    requires
        0 <= k < s.len(),
        f(s[k]) == Some(b),
    ensures
        crate::list::collected(s, f).contains(b),
    decreases s.len(),
{
    let front = s.drop_last();
    let all = crate::list::collected(s, f);
    let before = crate::list::collected(front, f);
    if k == s.len() - 1 {
        assert(all.last() == b);
    } else {
        lemma_collected_holds(front, f, k, b);
        let i = choose|i: int| 0 <= i < before.len() && before[i] == b;
        assert(all[i] == b);
    }
}

/// One tweet is deleted: at once where that is forced; else its text is shown to the user, and it
/// is deleted exactly where the answer is yes.
pub proof fn law_one_status_is_deleted(t: Talk, who: Seq<char>, id: Seq<char>, force: bool)
    requires
        is_sound(t),
        status_deleted(t, who, id, force).1 is Ok,
    ensures
        ({
            let u = status_deleted(t, who, id, force).0;
            let d = dialog(t, u);
            let deleting = plain(Method::Delete, "/2/tweets/"@ + id, Seq::empty());
            if force {
                &&& changes(d) == seq![deleting]
                &&& u.said == one_line("@"@ + who + " deleted Tweet "@ + id + "."@)
            } else {
                let status = tweet_fetched(t, id).1->Ok_0;
                let text = crate::extract::text_of(status, false);
                let author = crate::json::text_in(
                    crate::json::get_in(status.get("user"@), "screen_name"@),
                );
                &&& d.len() >= 2
                &&& d[0].0 == AskData::Api(
                    plain(Method::GetOauth2, "/2/tweets/"@ + id, tweet_params()),
                )
                &&& author matches Some(name) ==> d[1].0 == AskData::Prompt(
                    "Are you sure you want to permanently delete @"@ + name + "'s status: \""@
                        + text + "\"? [y/N]"@ + " "@,
                )
                &&& d[1].1 matches ReplyData::Line(Ok(answer)) && (if lowered(
                    trim_back(answer, CharSet::LineBreaks),
                ) == seq!['y'] {
                    &&& changes(d) == seq![deleting]
                    &&& u.said == one_line(
                        "@"@ + who + " deleted the Tweet: \""@ + text + "\""@,
                    )
                } else {
                    &&& changes(d).len() == 0
                    &&& u.said.len() == 0
                })
            }
        }),
{
    broadcast use group_dialog;
    lemma_dialog_starts(t);
    reveal_strlit("y");
    assert(lowered("y"@) =~= seq!['y']);
}

proof fn lemma_statuses_deleted(t0: Talk, t: Talk, who: Seq<char>, ids: Seq<Seq<char>>)
    requires
        since(t0, t),
        statuses_deleted(t, who, ids, true).1 is Ok,
    ensures
        ({
            let u = statuses_deleted(t, who, ids, true).0;
            &&& since(t0, u)
            &&& changes(dialog(t0, u)) == changes(dialog(t0, t)) + deletions(
                Method::Delete,
                false,
                "/2/tweets/"@,
                ids,
            )
        }),
    decreases ids.len(),
{
    broadcast use group_dialog;
    let all = deletions(Method::Delete, false, "/2/tweets/"@, ids);
    if ids.len() == 0 {
        assert(changes(dialog(t0, t)) + all =~= changes(dialog(t0, t)));
    } else {
        let first = status_deleted(t, who, ids[0], true);
        assert(call(t, all[0]).1 is Ok);
        let rest = ids.drop_first();
        lemma_statuses_deleted(t0, first.0, who, rest);
        assert(changes(dialog(t0, statuses_deleted(t, who, ids, true).0)) =~= changes(
            dialog(t0, t),
        ) + all);
    }
}

/// `delete status --force` deletes each tweet named, in order, and changes nothing else.
pub proof fn law_delete_status_deletes(t: Talk, call: InvocationData, book: BookData)
    requires
        is_sound(t),
        call.options.flag("force"@),
        performed_alone(t, call, book, Remote::DeleteStatus).1 is Ok,
    ensures
        ({
            let step = performed_alone(t, call, book, Remote::DeleteStatus);
            &&& changes(dialog(t, step.0)) == deletions(
                Method::Delete,
                false,
                "/2/tweets/"@,
                tidied(call.args),
            )
            &&& step.1 == Ok::<i32, StopData>(0)
        }),
{
    lemma_dialog_starts(t);
    assert(ids_of(call.args) =~= tidied(call.args));
    lemma_statuses_deleted(t, t, book.active_name(), ids_of(call.args));
    assert(changes(dialog(t, performed_alone(t, call, book, Remote::DeleteStatus).0))
        =~= deletions(Method::Delete, false, "/2/tweets/"@, tidied(call.args)));
}

/// `delete status` of one tweet does to that tweet, under the name of the account, what deleting
/// one tweet does.
pub proof fn law_delete_status_asks_first(t: Talk, call: InvocationData, book: BookData)
    requires
        call.args.len() == 1,
    ensures
        ({
            let step = performed_alone(t, call, book, Remote::DeleteStatus);
            let one = status_deleted(
                t,
                book.active_name(),
                trimmed(call.args[0]),
                call.options.flag("force"@),
            );
            &&& step.0 == one.0
            &&& step.1 == (match one.1 {
                Ok(u) => Ok::<i32, StopData>(0),
                Err(stop) => Err::<i32, StopData>(stop),
            })
        }),
{
    reveal_with_fuel(statuses_deleted, 2);
    assert(ids_of(call.args)[0] == trimmed(call.args[0]));
    assert(ids_of(call.args).drop_first().len() == 0);
}

// ---------------------------------------------------------------------------
// Lists and collections
// ---------------------------------------------------------------------------

/// `list create` makes one list, with the name and the description that are given, private where
/// that is wished.
pub proof fn law_list_create_creates(t: Talk, call: InvocationData, book: BookData)
    requires
        is_sound(t),
        performed_alone(t, call, book, Remote::ListCreate).1 is Ok,
    ensures
        ({
            let step = performed_alone(t, call, book, Remote::ListCreate);
            let made = changes(dialog(t, step.0));
            &&& made.len() == 1
            &&& made[0].method == Method::PostBody
            &&& made[0].path == "/2/lists"@
            &&& made[0].params.len() == 0
            &&& made[0].body matches Some(Data::Object(entries)) && {
                &&& entries.len() == 3
                &&& entries[0] == ("name"@, Data::Text(call.args[0]))
                &&& entries[1].0 == "description"@
                &&& entries[1].1 == Data::Text(
                    if call.args.len() > 1 {
                        call.args[1]
                    } else {
                        Seq::empty()
                    },
                )
                &&& entries[2] == ("private"@, Data::Bool(call.options.flag("private"@)))
            }
            &&& step.1 == Ok::<i32, StopData>(0)
            &&& step.0.said == one_line(
                "@"@ + book.active_name() + " created the list \""@ + call.args[0] + "\"."@,
            )
        }),
{
    broadcast use group_dialog;
    lemma_dialog_starts(t);
}

proof fn lemma_members_added(
    t0: Talk,
    t: Talk,
    path: Seq<char>,
    users: Seq<Seq<char>>,
    by_id: bool,
) -> (ids: Seq<Seq<char>>)
    requires
        since(t0, t),
        members_added(t, path, users, by_id).1 is Ok,
    ensures
        ({
            let u = members_added(t, path, users, by_id).0;
            let d = dialog(t0, u);
            &&& since(t0, u)
            &&& goes_on(dialog(t0, t), d)
            &&& are_ids_of(d, users, by_id, ids)
            &&& changes(d) == changes(dialog(t0, t)) + posts(
                Method::PostBody,
                false,
                path,
                "user_id"@,
                ids,
            )
            &&& users.len() > 0 ==> u.said == Seq::<SayingData>::empty()
        }),
    decreases users.len(),
{
    broadcast use {group_dialog, group_reading};
    let key = "user_id"@;
    if users.len() == 0 {
        assert(changes(dialog(t0, t)) + posts(Method::PostBody, false, path, key, Seq::empty())
            =~= changes(dialog(t0, t)));
        Seq::empty()
    } else {
        let found = user_id_resolved(t, users[0], by_id);
        let id = found.1->Ok_0;
        let one = posts(Method::PostBody, false, path, key, seq![id])[0];
        let posted = call(found.0, one);
        assert(posted.1 is Ok);
        let rest = users.drop_first();
        let others = lemma_members_added(t0, posted.0, path, rest, by_id);
        let ids = seq![id] + others;
        let d = dialog(t0, members_added(t, path, users, by_id).0);
        lemma_still_known(dialog(t0, found.0), d, users[0], by_id, id);
        assert forall|i: int| 0 <= i < ids.len() implies is_id_of(
            d,
            users[i],
            by_id,
            #[trigger] ids[i],
        ) by {
            if i > 0 {
                assert(ids[i] == others[i - 1]);
                assert(users[i] == rest[i - 1]);
            }
        }
        assert(changes(dialog(t0, t)).push(one) + posts(
            Method::PostBody,
            false,
            path,
            key,
            others,
        ) =~= changes(dialog(t0, t)) + posts(Method::PostBody, false, path, key, ids));
        if rest.len() == 0 {
            assert(members_added(t, path, users, by_id).0 == posted.0);
        }
        ids
    }
}

/// `list add` posts each user behind the list, in order, to the members of that list, and changes
/// nothing else.
pub proof fn law_list_add_adds(t: Talk, call: InvocationData, book: BookData)
    requires
        is_sound(t),
        performed_alone(t, call, book, Remote::ListAdd).1 is Ok,
    ensures
        ({
            let step = performed_alone(t, call, book, Remote::ListAdd);
            let d = dialog(t, step.0);
            let who = book.active_name();
            let list = list_id_resolved(t, call.args[0], call.by_id(), who).1->Ok_0;
            &&& exists|ids: Seq<Seq<char>>| #[trigger]
                are_ids_of(d, call.args.skip(1), call.by_id(), ids) && changes(d) == posts(
                    Method::PostBody,
                    false,
                    "/2/lists/"@ + list + "/members"@,
                    "user_id"@,
                    ids,
                )
            &&& step.1 == Ok::<i32, StopData>(0)
            &&& step.0.said == one_line(
                "@"@ + who + " added "@ + counted((call.args.len() - 1) as nat, "member"@, None)
                    + " to the list \""@ + call.args[0] + "\"."@,
            )
        }),
{
    broadcast use {group_dialog, group_reading};
    lemma_dialog_starts(t);
    let users = users_of(call.args.skip(1), call.by_id());
    let found = list_id_resolved(t, call.args[0], call.by_id(), book.active_name());
    let path = "/2/lists/"@ + found.1->Ok_0 + "/members"@;
    let ids = lemma_members_added(t, found.0, path, users, call.by_id());
    let d = dialog(t, performed_alone(t, call, book, Remote::ListAdd).0);
    lemma_ids_of_args(d, call.args.skip(1), call.by_id(), ids);
    assert(changes(d) =~= posts(Method::PostBody, false, path, "user_id"@, ids));
}

/// `list remove` deletes each user behind the list, in order, from the members of that list, and
/// changes nothing else.
pub proof fn law_list_remove_removes(t: Talk, call: InvocationData, book: BookData)
    requires
        is_sound(t),
        performed_alone(t, call, book, Remote::ListRemove).1 is Ok,
    ensures
        ({
            let step = performed_alone(t, call, book, Remote::ListRemove);
            let d = dialog(t, step.0);
            let who = book.active_name();
            let list = list_id_resolved(t, call.args[0], call.by_id(), who).1->Ok_0;
            &&& exists|ids: Seq<Seq<char>>| #[trigger]
                are_ids_of(d, call.args.skip(1), call.by_id(), ids) && changes(d) == deletions(
                    Method::Delete,
                    false,
                    "/2/lists/"@ + list + "/members/"@,
                    ids,
                )
            &&& step.1 == Ok::<i32, StopData>(0)
            &&& step.0.said == one_line(
                "@"@ + who + " removed "@ + counted((call.args.len() - 1) as nat, "member"@, None)
                    + " from the list \""@ + call.args[0] + "\"."@,
            )
        }),
{
    broadcast use {group_dialog, group_reading};
    lemma_dialog_starts(t);
    let users = users_of(call.args.skip(1), call.by_id());
    let found = list_id_resolved(t, call.args[0], call.by_id(), book.active_name());
    let prefix = "/2/lists/"@ + found.1->Ok_0 + "/members/"@;
    let ids = lemma_each_untargeted(t, found.0, prefix, users, call.by_id());
    let d = dialog(t, performed_alone(t, call, book, Remote::ListRemove).0);
    lemma_ids_of_args(d, call.args.skip(1), call.by_id(), ids);
    assert(changes(d) =~= deletions(Method::Delete, false, prefix, ids));
}

/// `delete list` deletes the list that is named, and changes nothing else.
pub proof fn law_delete_list_deletes(t: Talk, call: InvocationData, book: BookData)
    requires
        is_sound(t),
        performed_alone(t, call, book, Remote::DeleteList).1 is Ok,
    ensures
        ({
            let step = performed_alone(t, call, book, Remote::DeleteList);
            let who = book.active_name();
            let list = list_id_resolved(t, call.args[0], call.by_id(), who).1->Ok_0;
            &&& changes(dialog(t, step.0)) == seq![
                plain(Method::Delete, "/2/lists/"@ + list, Seq::empty()),
            ]
            &&& step.1 == Ok::<i32, StopData>(0)
        }),
{
    broadcast use {group_dialog, group_reading};
    lemma_dialog_starts(t);
}

/// A parameter that is given.
pub open spec fn given(key: Seq<char>, value: Option<Seq<char>>) -> Seq<(Seq<char>, Seq<char>)> {
    match value {
        Some(s) => seq![(key, s)],
        None => Seq::empty(),
    }
}

/// `collection create`, `collection update` and `delete collection` make the one request for the
/// collection that is named, with what is given of it.
pub proof fn law_collections_are_made_and_deleted(
    t: Talk,
    call: InvocationData,
    book: BookData,
    command: Remote,
)
    requires
        is_sound(t),
        command == Remote::CollectionCreate || command == Remote::CollectionUpdate || command
            == Remote::DeleteCollection,
        performed_alone(t, call, book, command).1 is Ok,
    ensures
        ({
            let step = performed_alone(t, call, book, command);
            let made = changes(dialog(t, step.0));
            let who = book.active_name();
            let id = collection_id_resolved(t, call.args[0], call.by_id(), who).1->Ok_0;
            &&& step.1 == Ok::<i32, StopData>(0)
            &&& command == Remote::CollectionCreate ==> {
                &&& made == seq![
                    retried(
                        Method::Post,
                        "/1.1/collections/create.json"@,
                        seq![("name"@, call.args[0])] + given(
                            "description"@,
                            if call.args.len() > 1 {
                                Some(call.args[1])
                            } else {
                                None
                            },
                        ) + given("url"@, call.options.text("url"@)) + given(
                            "timeline_order"@,
                            call.options.text("timeline_order"@),
                        ),
                    ),
                ]
                &&& step.0.said == one_line(
                    "@"@ + who + " created the collection \""@ + call.args[0] + "\"."@,
                )
            }
            &&& command == Remote::CollectionUpdate ==> {
                &&& made == seq![
                    retried(
                        Method::Post,
                        "/1.1/collections/update.json"@,
                        seq![("id"@, id)] + given("name"@, call.options.text("name"@)) + given(
                            "description"@,
                            call.options.text("description"@),
                        ) + given("url"@, call.options.text("url"@)),
                    ),
                ]
                &&& step.0.said == one_line("@"@ + who + " updated the collection."@)
            }
            &&& command == Remote::DeleteCollection ==> {
                &&& made == seq![
                    retried(
                        Method::Post,
                        "/1.1/collections/destroy.json"@,
                        seq![("id"@, id)],
                    ),
                ]
                &&& step.0.said == one_line("@"@ + who + " deleted the collection."@)
            }
        }),
{
    broadcast use {group_dialog, group_reading};
    lemma_dialog_starts(t);
}

proof fn lemma_entries_changed(
    t0: Talk,
    t: Talk,
    path: Seq<char>,
    id: Seq<char>,
    tweets: Seq<Seq<char>>,
)
    requires
        since(t0, t),
        entries_changed(t, path, id, tweets).1 is Ok,
    ensures
        ({
            let u = entries_changed(t, path, id, tweets).0;
            &&& since(t0, u)
            &&& changes(dialog(t0, u)) == changes(dialog(t0, t)) + entry_posts(path, id, tweets)
            &&& tweets.len() > 0 ==> u.said == Seq::<SayingData>::empty()
        }),
    decreases tweets.len(),
{
    broadcast use group_dialog;
    let all = entry_posts(path, id, tweets);
    if tweets.len() == 0 {
        assert(changes(dialog(t0, t)) + all =~= changes(dialog(t0, t)));
    } else {
        let first = call(t, all[0]);
        let rest = tweets.drop_first();
        assert(first.1 is Ok);
        lemma_entries_changed(t0, first.0, path, id, rest);
        assert(changes(dialog(t0, entries_changed(t, path, id, tweets).0)) =~= changes(
            dialog(t0, t),
        ) + all);
        if rest.len() == 0 {
            assert(entries_changed(t, path, id, tweets).0 == first.0);
        }
    }
}

/// A request on the collection for each of the tweets.
pub open spec fn entry_posts(path: Seq<char>, id: Seq<char>, tweets: Seq<Seq<char>>) -> Seq<
    RequestData,
> {
    Seq::new(
        tweets.len(),
        |i: int| retried(Method::Post, path, seq![("id"@, id), ("tweet_id"@, tweets[i])]),
    )
}

/// `collection add` adds each tweet behind the collection to it, and `collection remove` removes
/// each from it; nothing else is changed.
pub proof fn law_collection_entries_are_changed(
    t: Talk,
    call: InvocationData,
    book: BookData,
    command: Remote,
)
    requires
        is_sound(t),
        command == Remote::CollectionAdd || command == Remote::CollectionRemove,
        performed_alone(t, call, book, command).1 is Ok,
    ensures
        ({
            let step = performed_alone(t, call, book, command);
            let made = changes(dialog(t, step.0));
            let who = book.active_name();
            let id = collection_id_resolved(t, call.args[0], call.by_id(), who).1->Ok_0;
            let tweets = tidied(call.args.skip(1));
            &&& step.1 == Ok::<i32, StopData>(0)
            &&& command == Remote::CollectionAdd ==> {
                &&& made == entry_posts("/1.1/collections/entries/add.json"@, id, tweets)
                &&& step.0.said == one_line(
                    "@"@ + who + " added "@ + counted(tweets.len(), "tweet"@, None)
                        + " to the collection."@,
                )
            }
            &&& command == Remote::CollectionRemove ==> {
                &&& made == entry_posts("/1.1/collections/entries/remove.json"@, id, tweets)
                &&& step.0.said == one_line(
                    "@"@ + who + " removed "@ + counted(tweets.len(), "tweet"@, None)
                        + " from the collection."@,
                )
            }
        }),
{
    broadcast use {group_dialog, group_reading};
    lemma_dialog_starts(t);
    let tweets = ids_of(call.args.skip(1));
    assert(tweets =~= tidied(call.args.skip(1)));
    let found = collection_id_resolved(t, call.args[0], call.by_id(), book.active_name());
    let path = if command == Remote::CollectionAdd {
        "/1.1/collections/entries/add.json"@
    } else {
        "/1.1/collections/entries/remove.json"@
    };
    lemma_entries_changed(t, found.0, path, found.1->Ok_0, tweets);
    assert(changes(dialog(t, performed_alone(t, call, book, command).0)) =~= entry_posts(
        path,
        found.1->Ok_0,
        tweets,
    ));
}

// ---------------------------------------------------------------------------
// The profile
// ---------------------------------------------------------------------------

/// What a command on the profile sets: the path, the parameter, and what it is called. The text is
/// the first argument, or all of them with blanks between where `whole` says so.
pub open spec fn profile_part(command: Remote) -> Option<
    (Seq<char>, Seq<char>, bool, Seq<char>),
> {
    match command {
        Remote::SetBio => Some(
            ("/1.1/account/update_profile.json"@, "description"@, true, "bio"@),
        ),
        Remote::SetLanguage => Some(("/1.1/account/settings.json"@, "lang"@, false, "language"@)),
        Remote::SetLocation => Some(
            ("/1.1/account/update_profile.json"@, "location"@, true, "location"@),
        ),
        Remote::SetName => Some(("/1.1/account/update_profile.json"@, "name"@, true, "name"@)),
        Remote::SetProfileLinkColor => Some(
            (
                "/1.1/account/update_profile.json"@,
                "profile_link_color"@,
                false,
                "profile link color"@,
            ),
        ),
        Remote::SetWebsite => Some(
            ("/1.1/account/update_profile.json"@, "url"@, false, "website"@),
        ),
        _ => None,
    }
}

proof fn lemma_profile_set(
    t: Talk,
    call: InvocationData,
    who: Seq<char>,
    path: Seq<char>,
    key: Seq<char>,
    whole: bool,
    what: Seq<char>,
)
    requires
        is_sound(t),
        crate::act::profile_set(t, call, who, path, key, whole, what).1 is Ok,
    ensures
        ({
            let step = crate::act::profile_set(t, call, who, path, key, whole, what);
            let made = changes(dialog(t, step.0));
            &&& made.len() == 1
            &&& made[0].method == Method::Post
            &&& made[0].path == path
            &&& made[0].body is None
            &&& made[0].params.len() == 1
            &&& made[0].params[0].0 == key
            &&& whole ==> is_words(made[0].params[0].1, call.args)
            &&& !whole ==> made[0].params[0].1 == call.args[0]
            &&& step.1 == Ok::<i32, StopData>(0)
            &&& step.0.said == one_line("@"@ + who + "'s "@ + what + " has been updated."@)
        }),
{
    broadcast use group_dialog;
    lemma_dialog_starts(t);
    lemma_words_joined(call.args);
}

/// A command on a part of the profile sets that part, to the text that is given, and no other.
pub proof fn law_profile_parts_are_set(
    t: Talk,
    call: InvocationData,
    book: BookData,
    command: Remote,
)
    requires
        is_sound(t),
        profile_part(command) is Some,
        performed_alone(t, call, book, command).1 is Ok,
    ensures
        ({
            let step = performed_alone(t, call, book, command);
            let made = changes(dialog(t, step.0));
            let (path, key, whole, what) = profile_part(command)->Some_0;
            &&& made.len() == 1
            &&& made[0].method == Method::Post
            &&& made[0].path == path
            &&& made[0].body is None
            &&& made[0].params.len() == 1
            &&& made[0].params[0].0 == key
            &&& whole ==> is_words(made[0].params[0].1, call.args)
            &&& !whole ==> made[0].params[0].1 == call.args[0]
            &&& step.1 == Ok::<i32, StopData>(0)
            &&& step.0.said == one_line(
                "@"@ + book.active_name() + "'s "@ + what + " has been updated."@,
            )
        }),
{
    let who = book.active_name();
    let profile = "/1.1/account/update_profile.json"@;
    match command {
        Remote::SetBio => {
            lemma_profile_set(t, call, who, profile, "description"@, true, "bio"@);
        },
        Remote::SetLanguage => {
            let settings = "/1.1/account/settings.json"@;
            lemma_profile_set(t, call, who, settings, "lang"@, false, "language"@);
        },
        Remote::SetLocation => {
            lemma_profile_set(t, call, who, profile, "location"@, true, "location"@);
        },
        Remote::SetName => {
            lemma_profile_set(t, call, who, profile, "name"@, true, "name"@);
        },
        Remote::SetProfileLinkColor => {
            let what = "profile link color"@;
            lemma_profile_set(t, call, who, profile, "profile_link_color"@, false, what);
        },
        _ => {
            lemma_profile_set(t, call, who, profile, "url"@, false, "website"@);
        },
    }
}

/// `set profile_image` and `set profile_background_image` post the bytes of the file that is
/// named, in Base64; a path within the home directory is written out first.
pub proof fn law_profile_images_are_set(
    t: Talk,
    call: InvocationData,
    book: BookData,
    command: Remote,
)
    requires
        is_sound(t),
        command == Remote::SetProfileImage || command == Remote::SetProfileBackgroundImage,
        performed_alone(t, call, book, command).1 is Ok,
    ensures
        ({
            let step = performed_alone(t, call, book, command);
            let d = dialog(t, step.0);
            let made = changes(d);
            &&& d.len() >= 2
            &&& d[d.len() - 2].0 is ReadFile
            &&& !crate::text::begins_with(call.args[0], "~/"@) ==> d[d.len() - 2].0
                == AskData::ReadFile(call.args[0])
            &&& d[d.len() - 2].1 matches ReplyData::Bytes(Ok(bytes)) && {
                &&& command == Remote::SetProfileImage ==> made == seq![
                    plain(
                        Method::Post,
                        "/1.1/account/update_profile_image.json"@,
                        seq![("image"@, base64_of(bytes))],
                    ),
                ] && step.0.said == one_line(
                    "@"@ + book.active_name() + "'s image has been updated."@,
                )
                &&& command == Remote::SetProfileBackgroundImage ==> made == seq![
                    plain(
                        Method::Post,
                        "/1.1/account/update_profile_background_image.json"@,
                        if call.options.flag("tile"@) {
                            seq![
                                ("image"@, base64_of(bytes)),
                                ("skip_status"@, "true"@),
                                ("tile"@, "true"@),
                            ]
                        } else {
                            seq![("image"@, base64_of(bytes)), ("skip_status"@, "true"@)]
                        },
                    ),
                ] && step.0.said == one_line(
                    "@"@ + book.active_name() + "'s background image has been updated."@,
                )
            }
            &&& step.1 == Ok::<i32, StopData>(0)
        }),
{
    broadcast use group_dialog;
    lemma_dialog_starts(t);
}

} // verus!
