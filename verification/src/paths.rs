//! Finding the command that a path names.

use vstd::prelude::*;

use crate::text::same;

verus! {

/// The commands that talk to the API.
#[derive(Clone, Copy, Debug, PartialEq, Eq, Structural)]
pub enum Remote {
    Authorize,
    Bookmark,
    Bookmarks,
    Open,
    Block,
    Mute,
    Follow,
    Unfollow,
    Unbookmark,
    ReportSpam,
    Favorite,
    Retweet,
    Dm,
    Update,
    Reply,
    DoesFollow,
    DoesContain,
    Reach,
    Matrix,
    DirectMessages,
    DirectMessagesSent,
    Favorites,
    Mentions,
    Retweets,
    RetweetsOfMe,
    Timeline,
    Status,
    Users,
    Whois,
    Whoami,
    Followings,
    Followers,
    Friends,
    Groupies,
    Leaders,
    FollowingsFollowing,
    Intersection,
    Blocks,
    Muted,
    Lists,
    Collections,
    Trends,
    MyLocation,
    NearbyPlaces,
    Place,
    Places,
    TrendLocations,
    DeleteBlock,
    DeleteMute,
    DeleteFavorite,
    DeleteStatus,
    DeleteDm,
    DeleteCollection,
    DeleteList,
    CollectionCreate,
    CollectionAdd,
    CollectionEntries,
    CollectionInformation,
    CollectionRemove,
    CollectionUpdate,
    ListCreate,
    ListAdd,
    ListRemove,
    ListInformation,
    ListMembers,
    ListTimeline,
    SearchAll,
    SearchTimeline,
    SearchMentions,
    SearchFavorites,
    SearchRetweets,
    SearchList,
    SearchUsers,
    SetBio,
    SetLanguage,
    SetLocation,
    SetName,
    SetProfileLinkColor,
    SetWebsite,
    SetProfileImage,
    SetProfileBackgroundImage,
    StreamTimeline,
    StreamAll,
    StreamSearch,
    StreamMatrix,
    StreamUsers,
    StreamList,
    /// No command at all.
    Unknown,
}

/// The commands that need the configuration file at most.
#[derive(Clone, Copy, Debug, PartialEq, Eq, Structural)]
pub enum Local {
    Version,
    Ruler,
    Accounts,
    SetActive,
    DeleteAccount,
    /// None of them.
    Other,
}

/// The command of one name.
pub open spec fn remote_named(name: Seq<char>) -> Remote {
    if name == "authorize"@ {
        Remote::Authorize
    } else if name == "bookmark"@ {
        Remote::Bookmark
    } else if name == "bookmarks"@ {
        Remote::Bookmarks
    } else if name == "open"@ {
        Remote::Open
    } else if name == "block"@ {
        Remote::Block
    } else if name == "mute"@ {
        Remote::Mute
    } else if name == "follow"@ {
        Remote::Follow
    } else if name == "unfollow"@ {
        Remote::Unfollow
    } else if name == "unbookmark"@ {
        Remote::Unbookmark
    } else if name == "report_spam"@ {
        Remote::ReportSpam
    } else if name == "favorite"@ {
        Remote::Favorite
    } else if name == "retweet"@ {
        Remote::Retweet
    } else if name == "dm"@ {
        Remote::Dm
    } else if name == "update"@ {
        Remote::Update
    } else if name == "reply"@ {
        Remote::Reply
    } else if name == "does_follow"@ {
        Remote::DoesFollow
    } else if name == "does_contain"@ {
        Remote::DoesContain
    } else if name == "reach"@ {
        Remote::Reach
    } else if name == "matrix"@ {
        Remote::Matrix
    } else if name == "direct_messages"@ {
        Remote::DirectMessages
    } else if name == "direct_messages_sent"@ {
        Remote::DirectMessagesSent
    } else if name == "favorites"@ {
        Remote::Favorites
    } else if name == "mentions"@ {
        Remote::Mentions
    } else if name == "retweets"@ {
        Remote::Retweets
    } else if name == "retweets_of_me"@ {
        Remote::RetweetsOfMe
    } else if name == "timeline"@ {
        Remote::Timeline
    } else if name == "status"@ {
        Remote::Status
    } else if name == "users"@ {
        Remote::Users
    } else if name == "whois"@ {
        Remote::Whois
    } else if name == "whoami"@ {
        Remote::Whoami
    } else if name == "followings"@ {
        Remote::Followings
    } else if name == "followers"@ {
        Remote::Followers
    } else if name == "friends"@ {
        Remote::Friends
    } else if name == "groupies"@ {
        Remote::Groupies
    } else if name == "leaders"@ {
        Remote::Leaders
    } else if name == "followings_following"@ {
        Remote::FollowingsFollowing
    } else if name == "intersection"@ {
        Remote::Intersection
    } else if name == "blocks"@ {
        Remote::Blocks
    } else if name == "muted"@ {
        Remote::Muted
    } else if name == "lists"@ {
        Remote::Lists
    } else if name == "collections"@ {
        Remote::Collections
    } else if name == "trends"@ {
        Remote::Trends
    } else if name == "my_location"@ {
        Remote::MyLocation
    } else if name == "nearby_places"@ {
        Remote::NearbyPlaces
    } else if name == "place"@ {
        Remote::Place
    } else if name == "places"@ {
        Remote::Places
    } else if name == "trend_locations"@ {
        Remote::TrendLocations
    } else {
        Remote::Unknown
    }
}

fn find_remote(name: &str) -> (r: Remote)
    ensures
        r == remote_named(name@),
{
    if same(name, "authorize") {
        Remote::Authorize
    } else if same(name, "bookmark") {
        Remote::Bookmark
    } else if same(name, "bookmarks") {
        Remote::Bookmarks
    } else if same(name, "open") {
        Remote::Open
    } else if same(name, "block") {
        Remote::Block
    } else if same(name, "mute") {
        Remote::Mute
    } else if same(name, "follow") {
        Remote::Follow
    } else if same(name, "unfollow") {
        Remote::Unfollow
    } else if same(name, "unbookmark") {
        Remote::Unbookmark
    } else if same(name, "report_spam") {
        Remote::ReportSpam
    } else if same(name, "favorite") {
        Remote::Favorite
    } else if same(name, "retweet") {
        Remote::Retweet
    } else if same(name, "dm") {
        Remote::Dm
    } else if same(name, "update") {
        Remote::Update
    } else if same(name, "reply") {
        Remote::Reply
    } else if same(name, "does_follow") {
        Remote::DoesFollow
    } else if same(name, "does_contain") {
        Remote::DoesContain
    } else if same(name, "reach") {
        Remote::Reach
    } else if same(name, "matrix") {
        Remote::Matrix
    } else if same(name, "direct_messages") {
        Remote::DirectMessages
    } else if same(name, "direct_messages_sent") {
        Remote::DirectMessagesSent
    } else if same(name, "favorites") {
        Remote::Favorites
    } else if same(name, "mentions") {
        Remote::Mentions
    } else if same(name, "retweets") {
        Remote::Retweets
    } else if same(name, "retweets_of_me") {
        Remote::RetweetsOfMe
    } else if same(name, "timeline") {
        Remote::Timeline
    } else if same(name, "status") {
        Remote::Status
    } else if same(name, "users") {
        Remote::Users
    } else if same(name, "whois") {
        Remote::Whois
    } else if same(name, "whoami") {
        Remote::Whoami
    } else if same(name, "followings") {
        Remote::Followings
    } else if same(name, "followers") {
        Remote::Followers
    } else if same(name, "friends") {
        Remote::Friends
    } else if same(name, "groupies") {
        Remote::Groupies
    } else if same(name, "leaders") {
        Remote::Leaders
    } else if same(name, "followings_following") {
        Remote::FollowingsFollowing
    } else if same(name, "intersection") {
        Remote::Intersection
    } else if same(name, "blocks") {
        Remote::Blocks
    } else if same(name, "muted") {
        Remote::Muted
    } else if same(name, "lists") {
        Remote::Lists
    } else if same(name, "collections") {
        Remote::Collections
    } else if same(name, "trends") {
        Remote::Trends
    } else if same(name, "my_location") {
        Remote::MyLocation
    } else if same(name, "nearby_places") {
        Remote::NearbyPlaces
    } else if same(name, "place") {
        Remote::Place
    } else if same(name, "places") {
        Remote::Places
    } else if same(name, "trend_locations") {
        Remote::TrendLocations
    } else {
        Remote::Unknown
    }
}

/// The command of the group `delete`.
pub open spec fn delete_named(name: Seq<char>) -> Remote {
    if name == "block"@ {
        Remote::DeleteBlock
    } else if name == "mute"@ {
        Remote::DeleteMute
    } else if name == "favorite"@ {
        Remote::DeleteFavorite
    } else if name == "status"@ {
        Remote::DeleteStatus
    } else if name == "dm"@ {
        Remote::DeleteDm
    } else if name == "collection"@ {
        Remote::DeleteCollection
    } else if name == "list"@ {
        Remote::DeleteList
    } else {
        Remote::Unknown
    }
}

fn find_delete(name: &str) -> (r: Remote)
    ensures
        r == delete_named(name@),
{
    if same(name, "block") {
        Remote::DeleteBlock
    } else if same(name, "mute") {
        Remote::DeleteMute
    } else if same(name, "favorite") {
        Remote::DeleteFavorite
    } else if same(name, "status") {
        Remote::DeleteStatus
    } else if same(name, "dm") {
        Remote::DeleteDm
    } else if same(name, "collection") {
        Remote::DeleteCollection
    } else if same(name, "list") {
        Remote::DeleteList
    } else {
        Remote::Unknown
    }
}

/// The command of the group `collection`.
pub open spec fn collection_named(name: Seq<char>) -> Remote {
    if name == "create"@ {
        Remote::CollectionCreate
    } else if name == "add"@ {
        Remote::CollectionAdd
    } else if name == "entries"@ {
        Remote::CollectionEntries
    } else if name == "information"@ {
        Remote::CollectionInformation
    } else if name == "remove"@ {
        Remote::CollectionRemove
    } else if name == "update"@ {
        Remote::CollectionUpdate
    } else {
        Remote::Unknown
    }
}

fn find_collection(name: &str) -> (r: Remote)
    ensures
        r == collection_named(name@),
{
    if same(name, "create") {
        Remote::CollectionCreate
    } else if same(name, "add") {
        Remote::CollectionAdd
    } else if same(name, "entries") {
        Remote::CollectionEntries
    } else if same(name, "information") {
        Remote::CollectionInformation
    } else if same(name, "remove") {
        Remote::CollectionRemove
    } else if same(name, "update") {
        Remote::CollectionUpdate
    } else {
        Remote::Unknown
    }
}

/// The command of the group `list`.
pub open spec fn list_named(name: Seq<char>) -> Remote {
    if name == "create"@ {
        Remote::ListCreate
    } else if name == "add"@ {
        Remote::ListAdd
    } else if name == "remove"@ {
        Remote::ListRemove
    } else if name == "information"@ {
        Remote::ListInformation
    } else if name == "members"@ {
        Remote::ListMembers
    } else if name == "timeline"@ {
        Remote::ListTimeline
    } else {
        Remote::Unknown
    }
}

fn find_list(name: &str) -> (r: Remote)
    ensures
        r == list_named(name@),
{
    if same(name, "create") {
        Remote::ListCreate
    } else if same(name, "add") {
        Remote::ListAdd
    } else if same(name, "remove") {
        Remote::ListRemove
    } else if same(name, "information") {
        Remote::ListInformation
    } else if same(name, "members") {
        Remote::ListMembers
    } else if same(name, "timeline") {
        Remote::ListTimeline
    } else {
        Remote::Unknown
    }
}

/// The command of the group `search`.
pub open spec fn search_named(name: Seq<char>) -> Remote {
    if name == "all"@ {
        Remote::SearchAll
    } else if name == "timeline"@ {
        Remote::SearchTimeline
    } else if name == "mentions"@ {
        Remote::SearchMentions
    } else if name == "favorites"@ {
        Remote::SearchFavorites
    } else if name == "retweets"@ {
        Remote::SearchRetweets
    } else if name == "list"@ {
        Remote::SearchList
    } else if name == "users"@ {
        Remote::SearchUsers
    } else {
        Remote::Unknown
    }
}

fn find_search(name: &str) -> (r: Remote)
    ensures
        r == search_named(name@),
{
    if same(name, "all") {
        Remote::SearchAll
    } else if same(name, "timeline") {
        Remote::SearchTimeline
    } else if same(name, "mentions") {
        Remote::SearchMentions
    } else if same(name, "favorites") {
        Remote::SearchFavorites
    } else if same(name, "retweets") {
        Remote::SearchRetweets
    } else if same(name, "list") {
        Remote::SearchList
    } else if same(name, "users") {
        Remote::SearchUsers
    } else {
        Remote::Unknown
    }
}

/// The command of the group `set`.
pub open spec fn set_named(name: Seq<char>) -> Remote {
    if name == "bio"@ {
        Remote::SetBio
    } else if name == "language"@ {
        Remote::SetLanguage
    } else if name == "location"@ {
        Remote::SetLocation
    } else if name == "name"@ {
        Remote::SetName
    } else if name == "profile_link_color"@ {
        Remote::SetProfileLinkColor
    } else if name == "website"@ {
        Remote::SetWebsite
    } else if name == "profile_image"@ {
        Remote::SetProfileImage
    } else if name == "profile_background_image"@ {
        Remote::SetProfileBackgroundImage
    } else {
        Remote::Unknown
    }
}

fn find_set(name: &str) -> (r: Remote)
    ensures
        r == set_named(name@),
{
    if same(name, "bio") {
        Remote::SetBio
    } else if same(name, "language") {
        Remote::SetLanguage
    } else if same(name, "location") {
        Remote::SetLocation
    } else if same(name, "name") {
        Remote::SetName
    } else if same(name, "profile_link_color") {
        Remote::SetProfileLinkColor
    } else if same(name, "website") {
        Remote::SetWebsite
    } else if same(name, "profile_image") {
        Remote::SetProfileImage
    } else if same(name, "profile_background_image") {
        Remote::SetProfileBackgroundImage
    } else {
        Remote::Unknown
    }
}

/// The command of the group `stream`.
pub open spec fn stream_named(name: Seq<char>) -> Remote {
    if name == "timeline"@ {
        Remote::StreamTimeline
    } else if name == "all"@ {
        Remote::StreamAll
    } else if name == "search"@ {
        Remote::StreamSearch
    } else if name == "matrix"@ {
        Remote::StreamMatrix
    } else if name == "users"@ {
        Remote::StreamUsers
    } else if name == "list"@ {
        Remote::StreamList
    } else {
        Remote::Unknown
    }
}

fn find_stream(name: &str) -> (r: Remote)
    ensures
        r == stream_named(name@),
{
    if same(name, "timeline") {
        Remote::StreamTimeline
    } else if same(name, "all") {
        Remote::StreamAll
    } else if same(name, "search") {
        Remote::StreamSearch
    } else if same(name, "matrix") {
        Remote::StreamMatrix
    } else if same(name, "users") {
        Remote::StreamUsers
    } else if same(name, "list") {
        Remote::StreamList
    } else {
        Remote::Unknown
    }
}

/// The command of a group and a name in it.
pub open spec fn remote_in(group: Seq<char>, name: Seq<char>) -> Remote {
    if group == "delete"@ {
        delete_named(name)
    } else if group == "collection"@ {
        collection_named(name)
    } else if group == "list"@ {
        list_named(name)
    } else if group == "search"@ {
        search_named(name)
    } else if group == "set"@ {
        set_named(name)
    } else if group == "stream"@ {
        stream_named(name)
    } else {
        Remote::Unknown
    }
}

fn find_remote_in(group: &str, name: &str) -> (r: Remote)
    ensures
        r == remote_in(group@, name@),
{
    if same(group, "delete") {
        find_delete(name)
    } else if same(group, "collection") {
        find_collection(name)
    } else if same(group, "list") {
        find_list(name)
    } else if same(group, "search") {
        find_search(name)
    } else if same(group, "set") {
        find_set(name)
    } else if same(group, "stream") {
        find_stream(name)
    } else {
        Remote::Unknown
    }
}

/// The command that a path of names leads to.
pub open spec fn remote_at(path: Seq<Seq<char>>) -> Remote {
    if path.len() == 1 {
        remote_named(path[0])
    } else if path.len() == 2 {
        remote_in(path[0], path[1])
    } else {
        Remote::Unknown
    }
}

pub fn classify_remote(path: &Vec<String>) -> (r: Remote)
    ensures
        r == remote_at(path.deep_view()),
{
    assert(path.deep_view().len() == path@.len());
    if path.len() == 1 {
        assert(path.deep_view()[0] == path@[0]@);
        find_remote(path[0].as_str())
    } else if path.len() == 2 {
        assert(path.deep_view()[0] == path@[0]@);
        assert(path.deep_view()[1] == path@[1]@);
        find_remote_in(path[0].as_str(), path[1].as_str())
    } else {
        Remote::Unknown
    }
}

/// The command that needs no account, where the path leads to one.
pub open spec fn local_at(path: Seq<Seq<char>>) -> Local {
    if path.len() == 1 {
        if path[0] == "version"@ {
            Local::Version
        } else if path[0] == "ruler"@ {
            Local::Ruler
        } else if path[0] == "accounts"@ {
            Local::Accounts
        } else {
            Local::Other
        }
    } else if path.len() == 2 {
        if path[0] == "set"@ && path[1] == "active"@ {
            Local::SetActive
        } else if path[0] == "delete"@ && path[1] == "account"@ {
            Local::DeleteAccount
        } else {
            Local::Other
        }
    } else {
        Local::Other
    }
}

pub fn classify_local(path: &Vec<String>) -> (r: Local)
    ensures
        r == local_at(path.deep_view()),
{
    assert(path.deep_view().len() == path@.len());
    if path.len() == 1 {
        assert(path.deep_view()[0] == path@[0]@);
        let name = path[0].as_str();
        if same(name, "version") {
            Local::Version
        } else if same(name, "ruler") {
            Local::Ruler
        } else if same(name, "accounts") {
            Local::Accounts
        } else {
            Local::Other
        }
    } else if path.len() == 2 {
        assert(path.deep_view()[0] == path@[0]@);
        assert(path.deep_view()[1] == path@[1]@);
        if same(path[0].as_str(), "set") && same(path[1].as_str(), "active") {
            Local::SetActive
        } else if same(path[0].as_str(), "delete") && same(path[1].as_str(), "account") {
            Local::DeleteAccount
        } else {
            Local::Other
        }
    } else {
        Local::Other
    }
}

// ---------------------------------------------------------------------------
// Laws
// ---------------------------------------------------------------------------

/// The commands on the account and on users are called by their names.
#[verifier::rlimit(60)]
pub proof fn law_names_for_acting()
    ensures
        remote_at(seq!["authorize"@]) == Remote::Authorize,
        remote_at(seq!["bookmark"@]) == Remote::Bookmark,
        remote_at(seq!["bookmarks"@]) == Remote::Bookmarks,
        remote_at(seq!["open"@]) == Remote::Open,
        remote_at(seq!["block"@]) == Remote::Block,
        remote_at(seq!["mute"@]) == Remote::Mute,
        remote_at(seq!["follow"@]) == Remote::Follow,
        remote_at(seq!["unfollow"@]) == Remote::Unfollow,
        remote_at(seq!["unbookmark"@]) == Remote::Unbookmark,
        remote_at(seq!["report_spam"@]) == Remote::ReportSpam,
{
    reveal_strlit("authorize");
    assert("authorize"@.len() == 9);
    reveal_strlit("bookmark");
    assert("bookmark"@.len() == 8);
    reveal_strlit("bookmarks");
    assert("bookmarks"@.len() == 9);
    reveal_strlit("open");
    assert("open"@.len() == 4);
    reveal_strlit("block");
    assert("block"@.len() == 5);
    reveal_strlit("mute");
    assert("mute"@.len() == 4);
    reveal_strlit("follow");
    assert("follow"@.len() == 6);
    reveal_strlit("unfollow");
    assert("unfollow"@.len() == 8);
    reveal_strlit("unbookmark");
    assert("unbookmark"@.len() == 10);
    reveal_strlit("report_spam");
    assert("report_spam"@.len() == 11);
    assert("bookmarks"@[0] != "authorize"@[0]);
    assert("mute"@[0] != "open"@[0]);
    assert("unfollow"@[0] != "bookmark"@[0]);
}

/// The commands that post and ask are called by their names.
#[verifier::rlimit(60)]
pub proof fn law_names_for_posting()
    ensures
        remote_at(seq!["favorite"@]) == Remote::Favorite,
        remote_at(seq!["retweet"@]) == Remote::Retweet,
        remote_at(seq!["dm"@]) == Remote::Dm,
        remote_at(seq!["update"@]) == Remote::Update,
        remote_at(seq!["reply"@]) == Remote::Reply,
        remote_at(seq!["does_follow"@]) == Remote::DoesFollow,
        remote_at(seq!["does_contain"@]) == Remote::DoesContain,
        remote_at(seq!["reach"@]) == Remote::Reach,
        remote_at(seq!["matrix"@]) == Remote::Matrix,
{
    reveal_strlit("authorize");
    assert("authorize"@.len() == 9);
    reveal_strlit("bookmark");
    assert("bookmark"@.len() == 8);
    reveal_strlit("bookmarks");
    assert("bookmarks"@.len() == 9);
    reveal_strlit("open");
    assert("open"@.len() == 4);
    reveal_strlit("block");
    assert("block"@.len() == 5);
    reveal_strlit("mute");
    assert("mute"@.len() == 4);
    reveal_strlit("follow");
    assert("follow"@.len() == 6);
    reveal_strlit("unfollow");
    assert("unfollow"@.len() == 8);
    reveal_strlit("unbookmark");
    assert("unbookmark"@.len() == 10);
    reveal_strlit("report_spam");
    assert("report_spam"@.len() == 11);
    reveal_strlit("favorite");
    assert("favorite"@.len() == 8);
    reveal_strlit("retweet");
    assert("retweet"@.len() == 7);
    reveal_strlit("dm");
    assert("dm"@.len() == 2);
    reveal_strlit("update");
    assert("update"@.len() == 6);
    reveal_strlit("reply");
    assert("reply"@.len() == 5);
    reveal_strlit("does_follow");
    assert("does_follow"@.len() == 11);
    reveal_strlit("does_contain");
    assert("does_contain"@.len() == 12);
    reveal_strlit("reach");
    assert("reach"@.len() == 5);
    reveal_strlit("matrix");
    assert("matrix"@.len() == 6);
    assert("favorite"@[0] != "bookmark"@[0]);
    assert("favorite"@[0] != "unfollow"@[0]);
    assert("update"@[0] != "follow"@[0]);
    assert("reply"@[0] != "block"@[0]);
    assert("does_follow"@[0] != "report_spam"@[0]);
    assert("reach"@[0] != "block"@[0]);
    assert("reach"@[2] != "reply"@[2]);
    assert("matrix"@[0] != "follow"@[0]);
    assert("matrix"@[0] != "update"@[0]);
}

/// The commands that show tweets and messages are called by their names.
#[verifier::rlimit(60)]
pub proof fn law_names_for_showing_tweets()
    ensures
        remote_at(seq!["direct_messages"@]) == Remote::DirectMessages,
        remote_at(seq!["direct_messages_sent"@]) == Remote::DirectMessagesSent,
        remote_at(seq!["favorites"@]) == Remote::Favorites,
        remote_at(seq!["mentions"@]) == Remote::Mentions,
        remote_at(seq!["retweets"@]) == Remote::Retweets,
        remote_at(seq!["retweets_of_me"@]) == Remote::RetweetsOfMe,
        remote_at(seq!["timeline"@]) == Remote::Timeline,
        remote_at(seq!["status"@]) == Remote::Status,
{
    reveal_strlit("authorize");
    assert("authorize"@.len() == 9);
    reveal_strlit("bookmark");
    assert("bookmark"@.len() == 8);
    reveal_strlit("bookmarks");
    assert("bookmarks"@.len() == 9);
    reveal_strlit("open");
    assert("open"@.len() == 4);
    reveal_strlit("block");
    assert("block"@.len() == 5);
    reveal_strlit("mute");
    assert("mute"@.len() == 4);
    reveal_strlit("follow");
    assert("follow"@.len() == 6);
    reveal_strlit("unfollow");
    assert("unfollow"@.len() == 8);
    reveal_strlit("unbookmark");
    assert("unbookmark"@.len() == 10);
    reveal_strlit("report_spam");
    assert("report_spam"@.len() == 11);
    reveal_strlit("favorite");
    assert("favorite"@.len() == 8);
    reveal_strlit("retweet");
    assert("retweet"@.len() == 7);
    reveal_strlit("dm");
    assert("dm"@.len() == 2);
    reveal_strlit("update");
    assert("update"@.len() == 6);
    reveal_strlit("reply");
    assert("reply"@.len() == 5);
    reveal_strlit("does_follow");
    assert("does_follow"@.len() == 11);
    reveal_strlit("does_contain");
    assert("does_contain"@.len() == 12);
    reveal_strlit("reach");
    assert("reach"@.len() == 5);
    reveal_strlit("matrix");
    assert("matrix"@.len() == 6);
    reveal_strlit("direct_messages");
    assert("direct_messages"@.len() == 15);
    reveal_strlit("direct_messages_sent");
    assert("direct_messages_sent"@.len() == 20);
    reveal_strlit("favorites");
    assert("favorites"@.len() == 9);
    reveal_strlit("mentions");
    assert("mentions"@.len() == 8);
    reveal_strlit("retweets");
    assert("retweets"@.len() == 8);
    reveal_strlit("retweets_of_me");
    assert("retweets_of_me"@.len() == 14);
    reveal_strlit("timeline");
    assert("timeline"@.len() == 8);
    reveal_strlit("status");
    assert("status"@.len() == 6);
    assert("favorites"@[0] != "authorize"@[0]);
    assert("favorites"@[0] != "bookmarks"@[0]);
    assert("mentions"@[0] != "bookmark"@[0]);
    assert("mentions"@[0] != "unfollow"@[0]);
    assert("mentions"@[0] != "favorite"@[0]);
    assert("retweets"@[0] != "bookmark"@[0]);
    assert("retweets"@[0] != "unfollow"@[0]);
    assert("retweets"@[0] != "favorite"@[0]);
    assert("retweets"@[0] != "mentions"@[0]);
    assert("timeline"@[0] != "bookmark"@[0]);
    assert("timeline"@[0] != "unfollow"@[0]);
    assert("timeline"@[0] != "favorite"@[0]);
    assert("timeline"@[0] != "mentions"@[0]);
    assert("timeline"@[0] != "retweets"@[0]);
    assert("status"@[0] != "follow"@[0]);
    assert("status"@[0] != "update"@[0]);
    assert("status"@[0] != "matrix"@[0]);
}

/// The commands that show users are called by their names.
#[verifier::rlimit(60)]
pub proof fn law_names_for_showing_users()
    ensures
        remote_at(seq!["users"@]) == Remote::Users,
        remote_at(seq!["whois"@]) == Remote::Whois,
        remote_at(seq!["whoami"@]) == Remote::Whoami,
        remote_at(seq!["followings"@]) == Remote::Followings,
        remote_at(seq!["followers"@]) == Remote::Followers,
        remote_at(seq!["friends"@]) == Remote::Friends,
        remote_at(seq!["groupies"@]) == Remote::Groupies,
        remote_at(seq!["leaders"@]) == Remote::Leaders,
        remote_at(seq!["followings_following"@]) == Remote::FollowingsFollowing,
        remote_at(seq!["intersection"@]) == Remote::Intersection,
{
    reveal_strlit("authorize");
    assert("authorize"@.len() == 9);
    reveal_strlit("bookmark");
    assert("bookmark"@.len() == 8);
    reveal_strlit("bookmarks");
    assert("bookmarks"@.len() == 9);
    reveal_strlit("open");
    assert("open"@.len() == 4);
    reveal_strlit("block");
    assert("block"@.len() == 5);
    reveal_strlit("mute");
    assert("mute"@.len() == 4);
    reveal_strlit("follow");
    assert("follow"@.len() == 6);
    reveal_strlit("unfollow");
    assert("unfollow"@.len() == 8);
    reveal_strlit("unbookmark");
    assert("unbookmark"@.len() == 10);
    reveal_strlit("report_spam");
    assert("report_spam"@.len() == 11);
    reveal_strlit("favorite");
    assert("favorite"@.len() == 8);
    reveal_strlit("retweet");
    assert("retweet"@.len() == 7);
    reveal_strlit("dm");
    assert("dm"@.len() == 2);
    reveal_strlit("update");
    assert("update"@.len() == 6);
    reveal_strlit("reply");
    assert("reply"@.len() == 5);
    reveal_strlit("does_follow");
    assert("does_follow"@.len() == 11);
    reveal_strlit("does_contain");
    assert("does_contain"@.len() == 12);
    reveal_strlit("reach");
    assert("reach"@.len() == 5);
    reveal_strlit("matrix");
    assert("matrix"@.len() == 6);
    reveal_strlit("direct_messages");
    assert("direct_messages"@.len() == 15);
    reveal_strlit("direct_messages_sent");
    assert("direct_messages_sent"@.len() == 20);
    reveal_strlit("favorites");
    assert("favorites"@.len() == 9);
    reveal_strlit("mentions");
    assert("mentions"@.len() == 8);
    reveal_strlit("retweets");
    assert("retweets"@.len() == 8);
    reveal_strlit("retweets_of_me");
    assert("retweets_of_me"@.len() == 14);
    reveal_strlit("timeline");
    assert("timeline"@.len() == 8);
    reveal_strlit("status");
    assert("status"@.len() == 6);
    reveal_strlit("users");
    assert("users"@.len() == 5);
    reveal_strlit("whois");
    assert("whois"@.len() == 5);
    reveal_strlit("whoami");
    assert("whoami"@.len() == 6);
    reveal_strlit("followings");
    assert("followings"@.len() == 10);
    reveal_strlit("followers");
    assert("followers"@.len() == 9);
    reveal_strlit("friends");
    assert("friends"@.len() == 7);
    reveal_strlit("groupies");
    assert("groupies"@.len() == 8);
    reveal_strlit("leaders");
    assert("leaders"@.len() == 7);
    reveal_strlit("followings_following");
    assert("followings_following"@.len() == 20);
    reveal_strlit("intersection");
    assert("intersection"@.len() == 12);
    assert("users"@[0] != "block"@[0]);
    assert("users"@[0] != "reply"@[0]);
    assert("users"@[0] != "reach"@[0]);
    assert("whois"@[0] != "block"@[0]);
    assert("whois"@[0] != "reply"@[0]);
    assert("whois"@[0] != "reach"@[0]);
    assert("whois"@[0] != "users"@[0]);
    assert("whoami"@[0] != "follow"@[0]);
    assert("whoami"@[0] != "update"@[0]);
    assert("whoami"@[0] != "matrix"@[0]);
    assert("whoami"@[0] != "status"@[0]);
    assert("followings"@[0] != "unbookmark"@[0]);
    assert("followers"@[0] != "authorize"@[0]);
    assert("followers"@[0] != "bookmarks"@[0]);
    assert("followers"@[1] != "favorites"@[1]);
    assert("friends"@[0] != "retweet"@[0]);
    assert("groupies"@[0] != "bookmark"@[0]);
    assert("groupies"@[0] != "unfollow"@[0]);
    assert("groupies"@[0] != "favorite"@[0]);
    assert("groupies"@[0] != "mentions"@[0]);
    assert("groupies"@[0] != "retweets"@[0]);
    assert("groupies"@[0] != "timeline"@[0]);
    assert("leaders"@[0] != "retweet"@[0]);
    assert("leaders"@[0] != "friends"@[0]);
    assert("followings_following"@[0] != "direct_messages_sent"@[0]);
    assert("intersection"@[0] != "does_contain"@[0]);
}

/// The other commands of one name are called by their names.
#[verifier::rlimit(60)]
pub proof fn law_names_for_showing_more()
    ensures
        remote_at(seq!["blocks"@]) == Remote::Blocks,
        remote_at(seq!["muted"@]) == Remote::Muted,
        remote_at(seq!["lists"@]) == Remote::Lists,
        remote_at(seq!["collections"@]) == Remote::Collections,
        remote_at(seq!["trends"@]) == Remote::Trends,
        remote_at(seq!["my_location"@]) == Remote::MyLocation,
        remote_at(seq!["nearby_places"@]) == Remote::NearbyPlaces,
        remote_at(seq!["place"@]) == Remote::Place,
        remote_at(seq!["places"@]) == Remote::Places,
        remote_at(seq!["trend_locations"@]) == Remote::TrendLocations,
{
    reveal_strlit("authorize");
    assert("authorize"@.len() == 9);
    reveal_strlit("bookmark");
    assert("bookmark"@.len() == 8);
    reveal_strlit("bookmarks");
    assert("bookmarks"@.len() == 9);
    reveal_strlit("open");
    assert("open"@.len() == 4);
    reveal_strlit("block");
    assert("block"@.len() == 5);
    reveal_strlit("mute");
    assert("mute"@.len() == 4);
    reveal_strlit("follow");
    assert("follow"@.len() == 6);
    reveal_strlit("unfollow");
    assert("unfollow"@.len() == 8);
    reveal_strlit("unbookmark");
    assert("unbookmark"@.len() == 10);
    reveal_strlit("report_spam");
    assert("report_spam"@.len() == 11);
    reveal_strlit("favorite");
    assert("favorite"@.len() == 8);
    reveal_strlit("retweet");
    assert("retweet"@.len() == 7);
    reveal_strlit("dm");
    assert("dm"@.len() == 2);
    reveal_strlit("update");
    assert("update"@.len() == 6);
    reveal_strlit("reply");
    assert("reply"@.len() == 5);
    reveal_strlit("does_follow");
    assert("does_follow"@.len() == 11);
    reveal_strlit("does_contain");
    assert("does_contain"@.len() == 12);
    reveal_strlit("reach");
    assert("reach"@.len() == 5);
    reveal_strlit("matrix");
    assert("matrix"@.len() == 6);
    reveal_strlit("direct_messages");
    assert("direct_messages"@.len() == 15);
    reveal_strlit("direct_messages_sent");
    assert("direct_messages_sent"@.len() == 20);
    reveal_strlit("favorites");
    assert("favorites"@.len() == 9);
    reveal_strlit("mentions");
    assert("mentions"@.len() == 8);
    reveal_strlit("retweets");
    assert("retweets"@.len() == 8);
    reveal_strlit("retweets_of_me");
    assert("retweets_of_me"@.len() == 14);
    reveal_strlit("timeline");
    assert("timeline"@.len() == 8);
    reveal_strlit("status");
    assert("status"@.len() == 6);
    reveal_strlit("users");
    assert("users"@.len() == 5);
    reveal_strlit("whois");
    assert("whois"@.len() == 5);
    reveal_strlit("whoami");
    assert("whoami"@.len() == 6);
    reveal_strlit("followings");
    assert("followings"@.len() == 10);
    reveal_strlit("followers");
    assert("followers"@.len() == 9);
    reveal_strlit("friends");
    assert("friends"@.len() == 7);
    reveal_strlit("groupies");
    assert("groupies"@.len() == 8);
    reveal_strlit("leaders");
    assert("leaders"@.len() == 7);
    reveal_strlit("followings_following");
    assert("followings_following"@.len() == 20);
    reveal_strlit("intersection");
    assert("intersection"@.len() == 12);
    reveal_strlit("blocks");
    assert("blocks"@.len() == 6);
    reveal_strlit("muted");
    assert("muted"@.len() == 5);
    reveal_strlit("lists");
    assert("lists"@.len() == 5);
    reveal_strlit("collections");
    assert("collections"@.len() == 11);
    reveal_strlit("trends");
    assert("trends"@.len() == 6);
    reveal_strlit("my_location");
    assert("my_location"@.len() == 11);
    reveal_strlit("nearby_places");
    assert("nearby_places"@.len() == 13);
    reveal_strlit("place");
    assert("place"@.len() == 5);
    reveal_strlit("places");
    assert("places"@.len() == 6);
    reveal_strlit("trend_locations");
    assert("trend_locations"@.len() == 15);
    assert("blocks"@[0] != "follow"@[0]);
    assert("blocks"@[0] != "update"@[0]);
    assert("blocks"@[0] != "matrix"@[0]);
    assert("blocks"@[0] != "status"@[0]);
    assert("blocks"@[0] != "whoami"@[0]);
    assert("muted"@[0] != "block"@[0]);
    assert("muted"@[0] != "reply"@[0]);
    assert("muted"@[0] != "reach"@[0]);
    assert("muted"@[0] != "users"@[0]);
    assert("muted"@[0] != "whois"@[0]);
    assert("lists"@[0] != "block"@[0]);
    assert("lists"@[0] != "reply"@[0]);
    assert("lists"@[0] != "reach"@[0]);
    assert("lists"@[0] != "users"@[0]);
    assert("lists"@[0] != "whois"@[0]);
    assert("lists"@[0] != "muted"@[0]);
    assert("collections"@[0] != "report_spam"@[0]);
    assert("collections"@[0] != "does_follow"@[0]);
    assert("trends"@[0] != "follow"@[0]);
    assert("trends"@[0] != "update"@[0]);
    assert("trends"@[0] != "matrix"@[0]);
    assert("trends"@[0] != "status"@[0]);
    assert("trends"@[0] != "whoami"@[0]);
    assert("trends"@[0] != "blocks"@[0]);
    assert("my_location"@[0] != "report_spam"@[0]);
    assert("my_location"@[0] != "does_follow"@[0]);
    assert("my_location"@[0] != "collections"@[0]);
    assert("place"@[0] != "block"@[0]);
    assert("place"@[0] != "reply"@[0]);
    assert("place"@[0] != "reach"@[0]);
    assert("place"@[0] != "users"@[0]);
    assert("place"@[0] != "whois"@[0]);
    assert("place"@[0] != "muted"@[0]);
    assert("place"@[0] != "lists"@[0]);
    assert("places"@[0] != "follow"@[0]);
    assert("places"@[0] != "update"@[0]);
    assert("places"@[0] != "matrix"@[0]);
    assert("places"@[0] != "status"@[0]);
    assert("places"@[0] != "whoami"@[0]);
    assert("places"@[0] != "blocks"@[0]);
    assert("places"@[0] != "trends"@[0]);
    assert("trend_locations"@[0] != "direct_messages"@[0]);
}

/// The commands of the group `delete` are called by their names behind it.
pub proof fn law_names_in_delete_lead_to_their_commands()
    ensures
        remote_at(seq!["delete"@, "block"@]) == Remote::DeleteBlock,
        remote_at(seq!["delete"@, "mute"@]) == Remote::DeleteMute,
        remote_at(seq!["delete"@, "favorite"@]) == Remote::DeleteFavorite,
        remote_at(seq!["delete"@, "status"@]) == Remote::DeleteStatus,
        remote_at(seq!["delete"@, "dm"@]) == Remote::DeleteDm,
        remote_at(seq!["delete"@, "collection"@]) == Remote::DeleteCollection,
        remote_at(seq!["delete"@, "list"@]) == Remote::DeleteList,
{
    reveal_strlit("delete");
    assert("delete"@.len() == 6);
    reveal_strlit("collection");
    assert("collection"@.len() == 10);
    reveal_strlit("list");
    assert("list"@.len() == 4);
    reveal_strlit("search");
    assert("search"@.len() == 6);
    reveal_strlit("set");
    assert("set"@.len() == 3);
    reveal_strlit("stream");
    assert("stream"@.len() == 6);
    reveal_strlit("block");
    assert("block"@.len() == 5);
    reveal_strlit("mute");
    assert("mute"@.len() == 4);
    reveal_strlit("favorite");
    assert("favorite"@.len() == 8);
    reveal_strlit("status");
    assert("status"@.len() == 6);
    reveal_strlit("dm");
    assert("dm"@.len() == 2);
    assert("delete"@[0] != "search"@[0]);
    assert("delete"@[0] != "stream"@[0]);
    assert("delete"@[0] != "status"@[0]);
    assert("list"@[0] != "mute"@[0]);
    assert("search"@[1] != "stream"@[1]);
    assert("search"@[1] != "status"@[1]);
    assert("stream"@[2] != "status"@[2]);
}

/// The commands of the group `collection` are called by their names behind it.
pub proof fn law_names_in_collection_lead_to_their_commands()
    ensures
        remote_at(seq!["collection"@, "create"@]) == Remote::CollectionCreate,
        remote_at(seq!["collection"@, "add"@]) == Remote::CollectionAdd,
        remote_at(seq!["collection"@, "entries"@]) == Remote::CollectionEntries,
        remote_at(seq!["collection"@, "information"@]) == Remote::CollectionInformation,
        remote_at(seq!["collection"@, "remove"@]) == Remote::CollectionRemove,
        remote_at(seq!["collection"@, "update"@]) == Remote::CollectionUpdate,
{
    reveal_strlit("delete");
    assert("delete"@.len() == 6);
    reveal_strlit("collection");
    assert("collection"@.len() == 10);
    reveal_strlit("list");
    assert("list"@.len() == 4);
    reveal_strlit("search");
    assert("search"@.len() == 6);
    reveal_strlit("set");
    assert("set"@.len() == 3);
    reveal_strlit("stream");
    assert("stream"@.len() == 6);
    reveal_strlit("create");
    assert("create"@.len() == 6);
    reveal_strlit("add");
    assert("add"@.len() == 3);
    reveal_strlit("entries");
    assert("entries"@.len() == 7);
    reveal_strlit("information");
    assert("information"@.len() == 11);
    reveal_strlit("remove");
    assert("remove"@.len() == 6);
    reveal_strlit("update");
    assert("update"@.len() == 6);
    assert("delete"@[0] != "search"@[0]);
    assert("delete"@[0] != "stream"@[0]);
    assert("delete"@[0] != "create"@[0]);
    assert("delete"@[0] != "remove"@[0]);
    assert("delete"@[0] != "update"@[0]);
    assert("search"@[1] != "stream"@[1]);
    assert("search"@[0] != "create"@[0]);
    assert("search"@[0] != "remove"@[0]);
    assert("search"@[0] != "update"@[0]);
    assert("set"@[0] != "add"@[0]);
    assert("stream"@[0] != "create"@[0]);
    assert("stream"@[0] != "remove"@[0]);
    assert("stream"@[0] != "update"@[0]);
    assert("create"@[0] != "remove"@[0]);
    assert("create"@[0] != "update"@[0]);
    assert("remove"@[0] != "update"@[0]);
}

/// The commands of the group `list` are called by their names behind it.
pub proof fn law_names_in_list_lead_to_their_commands()
    ensures
        remote_at(seq!["list"@, "create"@]) == Remote::ListCreate,
        remote_at(seq!["list"@, "add"@]) == Remote::ListAdd,
        remote_at(seq!["list"@, "remove"@]) == Remote::ListRemove,
        remote_at(seq!["list"@, "information"@]) == Remote::ListInformation,
        remote_at(seq!["list"@, "members"@]) == Remote::ListMembers,
        remote_at(seq!["list"@, "timeline"@]) == Remote::ListTimeline,
{
    reveal_strlit("delete");
    assert("delete"@.len() == 6);
    reveal_strlit("collection");
    assert("collection"@.len() == 10);
    reveal_strlit("list");
    assert("list"@.len() == 4);
    reveal_strlit("search");
    assert("search"@.len() == 6);
    reveal_strlit("set");
    assert("set"@.len() == 3);
    reveal_strlit("stream");
    assert("stream"@.len() == 6);
    reveal_strlit("create");
    assert("create"@.len() == 6);
    reveal_strlit("add");
    assert("add"@.len() == 3);
    reveal_strlit("remove");
    assert("remove"@.len() == 6);
    reveal_strlit("information");
    assert("information"@.len() == 11);
    reveal_strlit("members");
    assert("members"@.len() == 7);
    reveal_strlit("timeline");
    assert("timeline"@.len() == 8);
    assert("delete"@[0] != "search"@[0]);
    assert("delete"@[0] != "stream"@[0]);
    assert("delete"@[0] != "create"@[0]);
    assert("delete"@[0] != "remove"@[0]);
    assert("search"@[1] != "stream"@[1]);
    assert("search"@[0] != "create"@[0]);
    assert("search"@[0] != "remove"@[0]);
    assert("set"@[0] != "add"@[0]);
    assert("stream"@[0] != "create"@[0]);
    assert("stream"@[0] != "remove"@[0]);
    assert("create"@[0] != "remove"@[0]);
}

/// The commands of the group `search` are called by their names behind it.
pub proof fn law_names_in_search_lead_to_their_commands()
    ensures
        remote_at(seq!["search"@, "all"@]) == Remote::SearchAll,
        remote_at(seq!["search"@, "timeline"@]) == Remote::SearchTimeline,
        remote_at(seq!["search"@, "mentions"@]) == Remote::SearchMentions,
        remote_at(seq!["search"@, "favorites"@]) == Remote::SearchFavorites,
        remote_at(seq!["search"@, "retweets"@]) == Remote::SearchRetweets,
        remote_at(seq!["search"@, "list"@]) == Remote::SearchList,
        remote_at(seq!["search"@, "users"@]) == Remote::SearchUsers,
{
    reveal_strlit("delete");
    assert("delete"@.len() == 6);
    reveal_strlit("collection");
    assert("collection"@.len() == 10);
    reveal_strlit("list");
    assert("list"@.len() == 4);
    reveal_strlit("search");
    assert("search"@.len() == 6);
    reveal_strlit("set");
    assert("set"@.len() == 3);
    reveal_strlit("stream");
    assert("stream"@.len() == 6);
    reveal_strlit("all");
    assert("all"@.len() == 3);
    reveal_strlit("timeline");
    assert("timeline"@.len() == 8);
    reveal_strlit("mentions");
    assert("mentions"@.len() == 8);
    reveal_strlit("favorites");
    assert("favorites"@.len() == 9);
    reveal_strlit("retweets");
    assert("retweets"@.len() == 8);
    reveal_strlit("users");
    assert("users"@.len() == 5);
    assert("delete"@[0] != "search"@[0]);
    assert("delete"@[0] != "stream"@[0]);
    assert("search"@[1] != "stream"@[1]);
    assert("set"@[0] != "all"@[0]);
    assert("timeline"@[0] != "mentions"@[0]);
    assert("timeline"@[0] != "retweets"@[0]);
    assert("mentions"@[0] != "retweets"@[0]);
}

/// The commands of the group `set` are called by their names behind it.
pub proof fn law_names_in_set_lead_to_their_commands()
    ensures
        remote_at(seq!["set"@, "bio"@]) == Remote::SetBio,
        remote_at(seq!["set"@, "language"@]) == Remote::SetLanguage,
        remote_at(seq!["set"@, "location"@]) == Remote::SetLocation,
        remote_at(seq!["set"@, "name"@]) == Remote::SetName,
        remote_at(seq!["set"@, "profile_link_color"@]) == Remote::SetProfileLinkColor,
        remote_at(seq!["set"@, "website"@]) == Remote::SetWebsite,
        remote_at(seq!["set"@, "profile_image"@]) == Remote::SetProfileImage,
        remote_at(seq!["set"@, "profile_background_image"@]) == Remote::SetProfileBackgroundImage,
{
    reveal_strlit("delete");
    assert("delete"@.len() == 6);
    reveal_strlit("collection");
    assert("collection"@.len() == 10);
    reveal_strlit("list");
    assert("list"@.len() == 4);
    reveal_strlit("search");
    assert("search"@.len() == 6);
    reveal_strlit("set");
    assert("set"@.len() == 3);
    reveal_strlit("stream");
    assert("stream"@.len() == 6);
    reveal_strlit("bio");
    assert("bio"@.len() == 3);
    reveal_strlit("language");
    assert("language"@.len() == 8);
    reveal_strlit("location");
    assert("location"@.len() == 8);
    reveal_strlit("name");
    assert("name"@.len() == 4);
    reveal_strlit("profile_link_color");
    assert("profile_link_color"@.len() == 18);
    reveal_strlit("website");
    assert("website"@.len() == 7);
    reveal_strlit("profile_image");
    assert("profile_image"@.len() == 13);
    reveal_strlit("profile_background_image");
    assert("profile_background_image"@.len() == 24);
    assert("delete"@[0] != "search"@[0]);
    assert("delete"@[0] != "stream"@[0]);
    assert("list"@[0] != "name"@[0]);
    assert("search"@[1] != "stream"@[1]);
    assert("set"@[0] != "bio"@[0]);
    assert("language"@[1] != "location"@[1]);
}

/// The commands of the group `stream` are called by their names behind it.
pub proof fn law_names_in_stream_lead_to_their_commands()
    ensures
        remote_at(seq!["stream"@, "timeline"@]) == Remote::StreamTimeline,
        remote_at(seq!["stream"@, "all"@]) == Remote::StreamAll,
        remote_at(seq!["stream"@, "search"@]) == Remote::StreamSearch,
        remote_at(seq!["stream"@, "matrix"@]) == Remote::StreamMatrix,
        remote_at(seq!["stream"@, "users"@]) == Remote::StreamUsers,
        remote_at(seq!["stream"@, "list"@]) == Remote::StreamList,
{
    reveal_strlit("delete");
    assert("delete"@.len() == 6);
    reveal_strlit("collection");
    assert("collection"@.len() == 10);
    reveal_strlit("list");
    assert("list"@.len() == 4);
    reveal_strlit("search");
    assert("search"@.len() == 6);
    reveal_strlit("set");
    assert("set"@.len() == 3);
    reveal_strlit("stream");
    assert("stream"@.len() == 6);
    reveal_strlit("timeline");
    assert("timeline"@.len() == 8);
    reveal_strlit("all");
    assert("all"@.len() == 3);
    reveal_strlit("matrix");
    assert("matrix"@.len() == 6);
    reveal_strlit("users");
    assert("users"@.len() == 5);
    assert("delete"@[0] != "search"@[0]);
    assert("delete"@[0] != "stream"@[0]);
    assert("delete"@[0] != "matrix"@[0]);
    assert("search"@[1] != "stream"@[1]);
    assert("search"@[0] != "matrix"@[0]);
    assert("set"@[0] != "all"@[0]);
    assert("stream"@[0] != "matrix"@[0]);
}

/// The commands that need no connection are called by their names, and no other command is.
pub proof fn law_names_of_local_commands()
    ensures
        local_at(seq!["version"@]) == Local::Version,
        local_at(seq!["ruler"@]) == Local::Ruler,
        local_at(seq!["accounts"@]) == Local::Accounts,
        local_at(seq!["set"@, "active"@]) == Local::SetActive,
        local_at(seq!["delete"@, "account"@]) == Local::DeleteAccount,
        local_at(seq!["authorize"@]) == Local::Other,
        local_at(seq!["bookmark"@]) == Local::Other,
        local_at(seq!["bookmarks"@]) == Local::Other,
        local_at(seq!["open"@]) == Local::Other,
        local_at(seq!["block"@]) == Local::Other,
        local_at(seq!["mute"@]) == Local::Other,
        local_at(seq!["follow"@]) == Local::Other,
        local_at(seq!["unfollow"@]) == Local::Other,
        local_at(seq!["unbookmark"@]) == Local::Other,
        local_at(seq!["report_spam"@]) == Local::Other,
        local_at(seq!["favorite"@]) == Local::Other,
        local_at(seq!["retweet"@]) == Local::Other,
        local_at(seq!["dm"@]) == Local::Other,
        local_at(seq!["update"@]) == Local::Other,
        local_at(seq!["reply"@]) == Local::Other,
        local_at(seq!["does_follow"@]) == Local::Other,
        local_at(seq!["does_contain"@]) == Local::Other,
        local_at(seq!["reach"@]) == Local::Other,
        local_at(seq!["matrix"@]) == Local::Other,
        local_at(seq!["direct_messages"@]) == Local::Other,
        local_at(seq!["direct_messages_sent"@]) == Local::Other,
        local_at(seq!["favorites"@]) == Local::Other,
        local_at(seq!["mentions"@]) == Local::Other,
        local_at(seq!["retweets"@]) == Local::Other,
        local_at(seq!["retweets_of_me"@]) == Local::Other,
        local_at(seq!["timeline"@]) == Local::Other,
        local_at(seq!["status"@]) == Local::Other,
        local_at(seq!["users"@]) == Local::Other,
        local_at(seq!["whois"@]) == Local::Other,
        local_at(seq!["whoami"@]) == Local::Other,
        local_at(seq!["followings"@]) == Local::Other,
        local_at(seq!["followers"@]) == Local::Other,
        local_at(seq!["friends"@]) == Local::Other,
        local_at(seq!["groupies"@]) == Local::Other,
        local_at(seq!["leaders"@]) == Local::Other,
        local_at(seq!["followings_following"@]) == Local::Other,
        local_at(seq!["intersection"@]) == Local::Other,
        local_at(seq!["blocks"@]) == Local::Other,
        local_at(seq!["muted"@]) == Local::Other,
        local_at(seq!["lists"@]) == Local::Other,
        local_at(seq!["collections"@]) == Local::Other,
        local_at(seq!["trends"@]) == Local::Other,
        local_at(seq!["my_location"@]) == Local::Other,
        local_at(seq!["nearby_places"@]) == Local::Other,
        local_at(seq!["place"@]) == Local::Other,
        local_at(seq!["places"@]) == Local::Other,
        local_at(seq!["trend_locations"@]) == Local::Other,
{
    reveal_strlit("version");
    assert("version"@.len() == 7);
    reveal_strlit("ruler");
    assert("ruler"@.len() == 5);
    reveal_strlit("accounts");
    assert("accounts"@.len() == 8);
    reveal_strlit("set");
    assert("set"@.len() == 3);
    reveal_strlit("delete");
    assert("delete"@.len() == 6);
    reveal_strlit("active");
    assert("active"@.len() == 6);
    reveal_strlit("account");
    assert("account"@.len() == 7);
    reveal_strlit("authorize");
    assert("authorize"@.len() == 9);
    reveal_strlit("bookmark");
    assert("bookmark"@.len() == 8);
    reveal_strlit("bookmarks");
    assert("bookmarks"@.len() == 9);
    reveal_strlit("open");
    assert("open"@.len() == 4);
    reveal_strlit("block");
    assert("block"@.len() == 5);
    reveal_strlit("mute");
    assert("mute"@.len() == 4);
    reveal_strlit("follow");
    assert("follow"@.len() == 6);
    reveal_strlit("unfollow");
    assert("unfollow"@.len() == 8);
    reveal_strlit("unbookmark");
    assert("unbookmark"@.len() == 10);
    reveal_strlit("report_spam");
    assert("report_spam"@.len() == 11);
    reveal_strlit("favorite");
    assert("favorite"@.len() == 8);
    reveal_strlit("retweet");
    assert("retweet"@.len() == 7);
    reveal_strlit("dm");
    assert("dm"@.len() == 2);
    reveal_strlit("update");
    assert("update"@.len() == 6);
    reveal_strlit("reply");
    assert("reply"@.len() == 5);
    reveal_strlit("does_follow");
    assert("does_follow"@.len() == 11);
    reveal_strlit("does_contain");
    assert("does_contain"@.len() == 12);
    reveal_strlit("reach");
    assert("reach"@.len() == 5);
    reveal_strlit("matrix");
    assert("matrix"@.len() == 6);
    reveal_strlit("direct_messages");
    assert("direct_messages"@.len() == 15);
    reveal_strlit("direct_messages_sent");
    assert("direct_messages_sent"@.len() == 20);
    reveal_strlit("favorites");
    assert("favorites"@.len() == 9);
    reveal_strlit("mentions");
    assert("mentions"@.len() == 8);
    reveal_strlit("retweets");
    assert("retweets"@.len() == 8);
    reveal_strlit("retweets_of_me");
    assert("retweets_of_me"@.len() == 14);
    reveal_strlit("timeline");
    assert("timeline"@.len() == 8);
    reveal_strlit("status");
    assert("status"@.len() == 6);
    reveal_strlit("users");
    assert("users"@.len() == 5);
    reveal_strlit("whois");
    assert("whois"@.len() == 5);
    reveal_strlit("whoami");
    assert("whoami"@.len() == 6);
    reveal_strlit("followings");
    assert("followings"@.len() == 10);
    reveal_strlit("followers");
    assert("followers"@.len() == 9);
    reveal_strlit("friends");
    assert("friends"@.len() == 7);
    reveal_strlit("groupies");
    assert("groupies"@.len() == 8);
    reveal_strlit("leaders");
    assert("leaders"@.len() == 7);
    reveal_strlit("followings_following");
    assert("followings_following"@.len() == 20);
    reveal_strlit("intersection");
    assert("intersection"@.len() == 12);
    reveal_strlit("blocks");
    assert("blocks"@.len() == 6);
    reveal_strlit("muted");
    assert("muted"@.len() == 5);
    reveal_strlit("lists");
    assert("lists"@.len() == 5);
    reveal_strlit("collections");
    assert("collections"@.len() == 11);
    reveal_strlit("trends");
    assert("trends"@.len() == 6);
    reveal_strlit("my_location");
    assert("my_location"@.len() == 11);
    reveal_strlit("nearby_places");
    assert("nearby_places"@.len() == 13);
    reveal_strlit("place");
    assert("place"@.len() == 5);
    reveal_strlit("places");
    assert("places"@.len() == 6);
    reveal_strlit("trend_locations");
    assert("trend_locations"@.len() == 15);
    assert("version"@[0] != "account"@[0]);
    assert("version"@[0] != "retweet"@[0]);
    assert("version"@[0] != "friends"@[0]);
    assert("version"@[0] != "leaders"@[0]);
    assert("ruler"@[0] != "block"@[0]);
    assert("ruler"@[1] != "reply"@[1]);
    assert("ruler"@[1] != "reach"@[1]);
    assert("ruler"@[0] != "users"@[0]);
    assert("ruler"@[0] != "whois"@[0]);
    assert("ruler"@[0] != "muted"@[0]);
    assert("ruler"@[0] != "lists"@[0]);
    assert("ruler"@[0] != "place"@[0]);
    assert("accounts"@[0] != "bookmark"@[0]);
    assert("accounts"@[0] != "unfollow"@[0]);
    assert("accounts"@[0] != "favorite"@[0]);
    assert("accounts"@[0] != "mentions"@[0]);
    assert("accounts"@[0] != "retweets"@[0]);
    assert("accounts"@[0] != "timeline"@[0]);
    assert("accounts"@[0] != "groupies"@[0]);
    assert("delete"@[0] != "active"@[0]);
    assert("delete"@[0] != "follow"@[0]);
    assert("delete"@[0] != "update"@[0]);
    assert("delete"@[0] != "matrix"@[0]);
    assert("delete"@[0] != "status"@[0]);
    assert("delete"@[0] != "whoami"@[0]);
    assert("delete"@[0] != "blocks"@[0]);
    assert("delete"@[0] != "trends"@[0]);
    assert("delete"@[0] != "places"@[0]);
    assert("active"@[0] != "follow"@[0]);
    assert("active"@[0] != "update"@[0]);
    assert("active"@[0] != "matrix"@[0]);
    assert("active"@[0] != "status"@[0]);
    assert("active"@[0] != "whoami"@[0]);
    assert("active"@[0] != "blocks"@[0]);
    assert("active"@[0] != "trends"@[0]);
    assert("active"@[0] != "places"@[0]);
    assert("account"@[0] != "retweet"@[0]);
    assert("account"@[0] != "friends"@[0]);
    assert("account"@[0] != "leaders"@[0]);
    assert("authorize"@[0] != "bookmarks"@[0]);
    assert("authorize"@[0] != "favorites"@[0]);
    assert("authorize"@[0] != "followers"@[0]);
    assert("bookmark"@[0] != "unfollow"@[0]);
    assert("bookmark"@[0] != "favorite"@[0]);
    assert("bookmark"@[0] != "mentions"@[0]);
    assert("bookmark"@[0] != "retweets"@[0]);
    assert("bookmark"@[0] != "timeline"@[0]);
    assert("bookmark"@[0] != "groupies"@[0]);
    assert("bookmarks"@[0] != "favorites"@[0]);
    assert("bookmarks"@[0] != "followers"@[0]);
    assert("open"@[0] != "mute"@[0]);
    assert("block"@[0] != "reply"@[0]);
    assert("block"@[0] != "reach"@[0]);
    assert("block"@[0] != "users"@[0]);
    assert("block"@[0] != "whois"@[0]);
    assert("block"@[0] != "muted"@[0]);
    assert("block"@[0] != "lists"@[0]);
    assert("block"@[0] != "place"@[0]);
    assert("follow"@[0] != "update"@[0]);
    assert("follow"@[0] != "matrix"@[0]);
    assert("follow"@[0] != "status"@[0]);
    assert("follow"@[0] != "whoami"@[0]);
    assert("follow"@[0] != "blocks"@[0]);
    assert("follow"@[0] != "trends"@[0]);
    assert("follow"@[0] != "places"@[0]);
    assert("unfollow"@[0] != "favorite"@[0]);
    assert("unfollow"@[0] != "mentions"@[0]);
    assert("unfollow"@[0] != "retweets"@[0]);
    assert("unfollow"@[0] != "timeline"@[0]);
    assert("unfollow"@[0] != "groupies"@[0]);
    assert("unbookmark"@[0] != "followings"@[0]);
    assert("report_spam"@[0] != "does_follow"@[0]);
    assert("report_spam"@[0] != "collections"@[0]);
    assert("report_spam"@[0] != "my_location"@[0]);
    assert("favorite"@[0] != "mentions"@[0]);
    assert("favorite"@[0] != "retweets"@[0]);
    assert("favorite"@[0] != "timeline"@[0]);
    assert("favorite"@[0] != "groupies"@[0]);
    assert("retweet"@[0] != "friends"@[0]);
    assert("retweet"@[0] != "leaders"@[0]);
    assert("update"@[0] != "matrix"@[0]);
    assert("update"@[0] != "status"@[0]);
    assert("update"@[0] != "whoami"@[0]);
    assert("update"@[0] != "blocks"@[0]);
    assert("update"@[0] != "trends"@[0]);
    assert("update"@[0] != "places"@[0]);
    assert("reply"@[2] != "reach"@[2]);
    assert("reply"@[0] != "users"@[0]);
    assert("reply"@[0] != "whois"@[0]);
    assert("reply"@[0] != "muted"@[0]);
    assert("reply"@[0] != "lists"@[0]);
    assert("reply"@[0] != "place"@[0]);
    assert("does_follow"@[0] != "collections"@[0]);
    assert("does_follow"@[0] != "my_location"@[0]);
    assert("does_contain"@[0] != "intersection"@[0]);
    assert("reach"@[0] != "users"@[0]);
    assert("reach"@[0] != "whois"@[0]);
    assert("reach"@[0] != "muted"@[0]);
    assert("reach"@[0] != "lists"@[0]);
    assert("reach"@[0] != "place"@[0]);
    assert("matrix"@[0] != "status"@[0]);
    assert("matrix"@[0] != "whoami"@[0]);
    assert("matrix"@[0] != "blocks"@[0]);
    assert("matrix"@[0] != "trends"@[0]);
    assert("matrix"@[0] != "places"@[0]);
    assert("direct_messages"@[0] != "trend_locations"@[0]);
    assert("direct_messages_sent"@[0] != "followings_following"@[0]);
    assert("favorites"@[1] != "followers"@[1]);
    assert("mentions"@[0] != "retweets"@[0]);
    assert("mentions"@[0] != "timeline"@[0]);
    assert("mentions"@[0] != "groupies"@[0]);
    assert("retweets"@[0] != "timeline"@[0]);
    assert("retweets"@[0] != "groupies"@[0]);
    assert("timeline"@[0] != "groupies"@[0]);
    assert("status"@[0] != "whoami"@[0]);
    assert("status"@[0] != "blocks"@[0]);
    assert("status"@[0] != "trends"@[0]);
    assert("status"@[0] != "places"@[0]);
    assert("users"@[0] != "whois"@[0]);
    assert("users"@[0] != "muted"@[0]);
    assert("users"@[0] != "lists"@[0]);
    assert("users"@[0] != "place"@[0]);
    assert("whois"@[0] != "muted"@[0]);
    assert("whois"@[0] != "lists"@[0]);
    assert("whois"@[0] != "place"@[0]);
    assert("whoami"@[0] != "blocks"@[0]);
    assert("whoami"@[0] != "trends"@[0]);
    assert("whoami"@[0] != "places"@[0]);
    assert("friends"@[0] != "leaders"@[0]);
    assert("blocks"@[0] != "trends"@[0]);
    assert("blocks"@[0] != "places"@[0]);
    assert("muted"@[0] != "lists"@[0]);
    assert("muted"@[0] != "place"@[0]);
    assert("lists"@[0] != "place"@[0]);
    assert("collections"@[0] != "my_location"@[0]);
    assert("trends"@[0] != "places"@[0]);
}

} // verus!
