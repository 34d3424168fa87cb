//! The descriptions of the commands.

use vstd::prelude::*;

use crate::text::same;

verus! {

/// The description of a top-level command.
pub open spec fn top_description(method: Seq<char>) -> Option<Seq<char>> {
    if method == "accounts"@ {
        Some("List accounts."@)
    } else if method == "authorize"@ {
        Some("Authorize an application via OAuth."@)
    } else if method == "bookmark"@ {
        Some("Bookmark posts."@)
    } else if method == "bookmarks"@ {
        Some("Returns the most recent bookmarked posts."@)
    } else if method == "block"@ {
        Some("Block users."@)
    } else if method == "blocks"@ {
        Some("Returns a list of blocked users."@)
    } else if method == "direct_messages"@ {
        Some("Returns the 20 most recent Direct Messages sent to you."@)
    } else if method == "direct_messages_sent"@ {
        Some("Returns the 20 most recent Direct Messages you've sent."@)
    } else if method == "dm"@ {
        Some("Sends that person a Direct Message."@)
    } else if method == "does_contain"@ {
        Some("Find out whether a list contains a user."@)
    } else if method == "does_follow"@ {
        Some("Find out whether one user follows another."@)
    } else if method == "favorite"@ {
        Some("Marks posts as favorites."@)
    } else if method == "favorites"@ {
        Some("Returns the 20 most recent posts you favorited."@)
    } else if method == "follow"@ {
        Some("Follow users."@)
    } else if method == "followings"@ {
        Some("Returns a list of the people you follow."@)
    } else if method == "followings_following"@ {
        Some("Displays your friends who follow the specified user."@)
    } else if method == "followers"@ {
        Some("Returns a list of the people who follow you."@)
    } else if method == "friends"@ {
        Some("Returns the list of people who you follow and follow you back."@)
    } else if method == "groupies"@ {
        Some("Returns the list of people who follow you but you don't follow back."@)
    } else if method == "intersection"@ {
        Some("Displays the intersection of users followed by the specified users."@)
    } else if method == "leaders"@ {
        Some("Returns the list of people who you follow but don't follow you back."@)
    } else if method == "lists"@ {
        Some("Returns the lists created by a user."@)
    } else if method == "collections"@ {
        Some("Returns the collections created by a user."@)
    } else if method == "matrix"@ {
        Some("Unfortunately, no one can be told what the Matrix is. You have to see it for yourself."@)
    } else if method == "mentions"@ {
        Some("Returns the 20 most recent posts mentioning you."@)
    } else if method == "mute"@ {
        Some("Mute users."@)
    } else if method == "muted"@ {
        Some("Returns a list of the people you have muted."@)
    } else if method == "open"@ {
        Some("Opens that user's profile in a web browser."@)
    } else if method == "reach"@ {
        Some("Shows the maximum number of people who may have seen the specified post in their timeline."@)
    } else if method == "reply"@ {
        Some("Post a reply directed at another person."@)
    } else if method == "report_spam"@ {
        Some("Report users for spam."@)
    } else if method == "retweet"@ {
        Some("Repost posts to your followers."@)
    } else if method == "retweets"@ {
        Some("Returns the 20 most recent reposts by a user."@)
    } else if method == "retweets_of_me"@ {
        Some("Returns the 20 most recent posts of the authenticated user that have been reposted by others."@)
    } else if method == "ruler"@ {
        Some("Prints a 280-character ruler."@)
    } else if method == "status"@ {
        Some("Retrieves detailed information about a post."@)
    } else if method == "timeline"@ {
        Some("Returns the 20 most recent posts by a user."@)
    } else if method == "trends"@ {
        Some("Returns the top 50 trending topics."@)
    } else if method == "my_location"@ {
        Some("Retrieves place information based on your IP address."@)
    } else if method == "nearby_places"@ {
        Some("Retrieves nearby places using an address or your IP geolocation."@)
    } else if method == "place"@ {
        Some("Retrieves detailed information about a place."@)
    } else if method == "places"@ {
        Some("Retrieves places with similar names near an address or your IP geolocation."@)
    } else if method == "trend_locations"@ {
        Some("Returns the locations for which X has trending topic information."@)
    } else if method == "unbookmark"@ {
        Some("Remove bookmarked posts."@)
    } else if method == "unfollow"@ {
        Some("Unfollow users."@)
    } else if method == "update"@ {
        Some("Post to your timeline."@)
    } else if method == "users"@ {
        Some("Returns a list of users you specify."@)
    } else if method == "version"@ {
        Some("Show version."@)
    } else if method == "whois"@ {
        Some("Retrieves profile information for the user."@)
    } else if method == "whoami"@ {
        Some("Retrieves profile information for the authenticated user."@)
    } else if method == "collection"@ {
        Some("Manage collections."@)
    } else if method == "delete"@ {
        Some("Delete posts, Direct Messages, etc."@)
    } else if method == "list"@ {
        Some("Manage lists."@)
    } else if method == "search"@ {
        Some("Search posts."@)
    } else if method == "set"@ {
        Some("Change various account settings."@)
    } else if method == "stream"@ {
        Some("Stream posts in real time."@)
    } else {
        None
    }
}

fn describe_top(method: &str) -> (r: Option<String>)
    ensures
        r.deep_view() == top_description(method@),
{
    if same(method, "accounts") {
        Some("List accounts.".to_owned())
    } else if same(method, "authorize") {
        Some("Authorize an application via OAuth.".to_owned())
    } else if same(method, "bookmark") {
        Some("Bookmark posts.".to_owned())
    } else if same(method, "bookmarks") {
        Some("Returns the most recent bookmarked posts.".to_owned())
    } else if same(method, "block") {
        Some("Block users.".to_owned())
    } else if same(method, "blocks") {
        Some("Returns a list of blocked users.".to_owned())
    } else if same(method, "direct_messages") {
        Some("Returns the 20 most recent Direct Messages sent to you.".to_owned())
    } else if same(method, "direct_messages_sent") {
        Some("Returns the 20 most recent Direct Messages you've sent.".to_owned())
    } else if same(method, "dm") {
        Some("Sends that person a Direct Message.".to_owned())
    } else if same(method, "does_contain") {
        Some("Find out whether a list contains a user.".to_owned())
    } else if same(method, "does_follow") {
        Some("Find out whether one user follows another.".to_owned())
    } else if same(method, "favorite") {
        Some("Marks posts as favorites.".to_owned())
    } else if same(method, "favorites") {
        Some("Returns the 20 most recent posts you favorited.".to_owned())
    } else if same(method, "follow") {
        Some("Follow users.".to_owned())
    } else if same(method, "followings") {
        Some("Returns a list of the people you follow.".to_owned())
    } else if same(method, "followings_following") {
        Some("Displays your friends who follow the specified user.".to_owned())
    } else if same(method, "followers") {
        Some("Returns a list of the people who follow you.".to_owned())
    } else if same(method, "friends") {
        Some("Returns the list of people who you follow and follow you back.".to_owned())
    } else if same(method, "groupies") {
        Some("Returns the list of people who follow you but you don't follow back.".to_owned())
    } else if same(method, "intersection") {
        Some("Displays the intersection of users followed by the specified users.".to_owned())
    } else if same(method, "leaders") {
        Some("Returns the list of people who you follow but don't follow you back.".to_owned())
    } else if same(method, "lists") {
        Some("Returns the lists created by a user.".to_owned())
    } else if same(method, "collections") {
        Some("Returns the collections created by a user.".to_owned())
    } else if same(method, "matrix") {
        Some("Unfortunately, no one can be told what the Matrix is. You have to see it for yourself.".to_owned())
    } else if same(method, "mentions") {
        Some("Returns the 20 most recent posts mentioning you.".to_owned())
    } else if same(method, "mute") {
        Some("Mute users.".to_owned())
    } else if same(method, "muted") {
        Some("Returns a list of the people you have muted.".to_owned())
    } else if same(method, "open") {
        Some("Opens that user's profile in a web browser.".to_owned())
    } else if same(method, "reach") {
        Some("Shows the maximum number of people who may have seen the specified post in their timeline.".to_owned())
    } else if same(method, "reply") {
        Some("Post a reply directed at another person.".to_owned())
    } else if same(method, "report_spam") {
        Some("Report users for spam.".to_owned())
    } else if same(method, "retweet") {
        Some("Repost posts to your followers.".to_owned())
    } else if same(method, "retweets") {
        Some("Returns the 20 most recent reposts by a user.".to_owned())
    } else if same(method, "retweets_of_me") {
        Some("Returns the 20 most recent posts of the authenticated user that have been reposted by others.".to_owned())
    } else if same(method, "ruler") {
        Some("Prints a 280-character ruler.".to_owned())
    } else if same(method, "status") {
        Some("Retrieves detailed information about a post.".to_owned())
    } else if same(method, "timeline") {
        Some("Returns the 20 most recent posts by a user.".to_owned())
    } else if same(method, "trends") {
        Some("Returns the top 50 trending topics.".to_owned())
    } else if same(method, "my_location") {
        Some("Retrieves place information based on your IP address.".to_owned())
    } else if same(method, "nearby_places") {
        Some("Retrieves nearby places using an address or your IP geolocation.".to_owned())
    } else if same(method, "place") {
        Some("Retrieves detailed information about a place.".to_owned())
    } else if same(method, "places") {
        Some("Retrieves places with similar names near an address or your IP geolocation.".to_owned())
    } else if same(method, "trend_locations") {
        Some("Returns the locations for which X has trending topic information.".to_owned())
    } else if same(method, "unbookmark") {
        Some("Remove bookmarked posts.".to_owned())
    } else if same(method, "unfollow") {
        Some("Unfollow users.".to_owned())
    } else if same(method, "update") {
        Some("Post to your timeline.".to_owned())
    } else if same(method, "users") {
        Some("Returns a list of users you specify.".to_owned())
    } else if same(method, "version") {
        Some("Show version.".to_owned())
    } else if same(method, "whois") {
        Some("Retrieves profile information for the user.".to_owned())
    } else if same(method, "whoami") {
        Some("Retrieves profile information for the authenticated user.".to_owned())
    } else if same(method, "collection") {
        Some("Manage collections.".to_owned())
    } else if same(method, "delete") {
        Some("Delete posts, Direct Messages, etc.".to_owned())
    } else if same(method, "list") {
        Some("Manage lists.".to_owned())
    } else if same(method, "search") {
        Some("Search posts.".to_owned())
    } else if same(method, "set") {
        Some("Change various account settings.".to_owned())
    } else if same(method, "stream") {
        Some("Stream posts in real time.".to_owned())
    } else {
        None
    }
}

/// The description of a subcommand of `delete`.
pub open spec fn delete_description(method: Seq<char>) -> Option<Seq<char>> {
    if method == "block"@ {
        Some("Unblock users."@)
    } else if method == "dm"@ {
        Some("Delete the last Direct Message sent."@)
    } else if method == "favorite"@ {
        Some("Delete favorites."@)
    } else if method == "list"@ {
        Some("Delete a list."@)
    } else if method == "collection"@ {
        Some("Delete a collection."@)
    } else if method == "mute"@ {
        Some("Unmute users."@)
    } else if method == "account"@ {
        Some("Delete account or consumer key."@)
    } else if method == "status"@ {
        Some("Delete posts."@)
    } else {
        None
    }
}

fn describe_delete(method: &str) -> (r: Option<String>)
    ensures
        r.deep_view() == delete_description(method@),
{
    if same(method, "block") {
        Some("Unblock users.".to_owned())
    } else if same(method, "dm") {
        Some("Delete the last Direct Message sent.".to_owned())
    } else if same(method, "favorite") {
        Some("Delete favorites.".to_owned())
    } else if same(method, "list") {
        Some("Delete a list.".to_owned())
    } else if same(method, "collection") {
        Some("Delete a collection.".to_owned())
    } else if same(method, "mute") {
        Some("Unmute users.".to_owned())
    } else if same(method, "account") {
        Some("Delete account or consumer key.".to_owned())
    } else if same(method, "status") {
        Some("Delete posts.".to_owned())
    } else {
        None
    }
}

/// The description of a subcommand of `list`.
pub open spec fn list_description(method: Seq<char>) -> Option<Seq<char>> {
    if method == "add"@ {
        Some("Add members to a list."@)
    } else if method == "create"@ {
        Some("Create a new list."@)
    } else if method == "information"@ {
        Some("Retrieves detailed information about a list."@)
    } else if method == "members"@ {
        Some("Returns the members of a list."@)
    } else if method == "remove"@ {
        Some("Remove members from a list."@)
    } else if method == "timeline"@ {
        Some("Show post timeline for members of the specified list."@)
    } else {
        None
    }
}

fn describe_list(method: &str) -> (r: Option<String>)
    ensures
        r.deep_view() == list_description(method@),
{
    if same(method, "add") {
        Some("Add members to a list.".to_owned())
    } else if same(method, "create") {
        Some("Create a new list.".to_owned())
    } else if same(method, "information") {
        Some("Retrieves detailed information about a list.".to_owned())
    } else if same(method, "members") {
        Some("Returns the members of a list.".to_owned())
    } else if same(method, "remove") {
        Some("Remove members from a list.".to_owned())
    } else if same(method, "timeline") {
        Some("Show post timeline for members of the specified list.".to_owned())
    } else {
        None
    }
}

/// The description of a subcommand of `search`.
pub open spec fn search_description(method: Seq<char>) -> Option<Seq<char>> {
    if method == "all"@ {
        Some("Returns the 20 most recent posts that match the specified query."@)
    } else if method == "favorites"@ {
        Some("Returns posts you've favorited that match the specified query."@)
    } else if method == "list"@ {
        Some("Returns posts on a list that match the specified query."@)
    } else if method == "mentions"@ {
        Some("Returns posts mentioning you that match the specified query."@)
    } else if method == "retweets"@ {
        Some("Returns posts you've reposted that match the specified query."@)
    } else if method == "timeline"@ {
        Some("Returns posts in your timeline that match the specified query."@)
    } else if method == "users"@ {
        Some("Returns users that match the specified query."@)
    } else {
        None
    }
}

fn describe_search(method: &str) -> (r: Option<String>)
    ensures
        r.deep_view() == search_description(method@),
{
    if same(method, "all") {
        Some("Returns the 20 most recent posts that match the specified query.".to_owned())
    } else if same(method, "favorites") {
        Some("Returns posts you've favorited that match the specified query.".to_owned())
    } else if same(method, "list") {
        Some("Returns posts on a list that match the specified query.".to_owned())
    } else if same(method, "mentions") {
        Some("Returns posts mentioning you that match the specified query.".to_owned())
    } else if same(method, "retweets") {
        Some("Returns posts you've reposted that match the specified query.".to_owned())
    } else if same(method, "timeline") {
        Some("Returns posts in your timeline that match the specified query.".to_owned())
    } else if same(method, "users") {
        Some("Returns users that match the specified query.".to_owned())
    } else {
        None
    }
}

/// The description of a subcommand of `set`.
pub open spec fn set_description(method: Seq<char>) -> Option<Seq<char>> {
    if method == "active"@ {
        Some("Set your active account."@)
    } else if method == "bio"@ {
        Some("Edits your Bio information on your profile."@)
    } else if method == "language"@ {
        Some("Selects the language you'd like to receive notifications in."@)
    } else if method == "location"@ {
        Some("Updates the location field in your profile."@)
    } else if method == "name"@ {
        Some("Sets the name field on your profile."@)
    } else if method == "profile_background_image"@ {
        Some("Sets the background image on your profile."@)
    } else if method == "profile_image"@ {
        Some("Sets the image on your profile."@)
    } else if method == "profile_link_color"@ {
        Some("Sets the color scheme of links on your profile page."@)
    } else if method == "website"@ {
        Some("Sets the website field on your profile."@)
    } else {
        None
    }
}

fn describe_set(method: &str) -> (r: Option<String>)
    ensures
        r.deep_view() == set_description(method@),
{
    if same(method, "active") {
        Some("Set your active account.".to_owned())
    } else if same(method, "bio") {
        Some("Edits your Bio information on your profile.".to_owned())
    } else if same(method, "language") {
        Some("Selects the language you'd like to receive notifications in.".to_owned())
    } else if same(method, "location") {
        Some("Updates the location field in your profile.".to_owned())
    } else if same(method, "name") {
        Some("Sets the name field on your profile.".to_owned())
    } else if same(method, "profile_background_image") {
        Some("Sets the background image on your profile.".to_owned())
    } else if same(method, "profile_image") {
        Some("Sets the image on your profile.".to_owned())
    } else if same(method, "profile_link_color") {
        Some("Sets the color scheme of links on your profile page.".to_owned())
    } else if same(method, "website") {
        Some("Sets the website field on your profile.".to_owned())
    } else {
        None
    }
}

/// The description of a subcommand of `stream`.
pub open spec fn stream_description(method: Seq<char>) -> Option<Seq<char>> {
    if method == "all"@ {
        Some("Stream a random sample of all posts (Control-C to stop)."@)
    } else if method == "list"@ {
        Some("Stream a timeline for members of the specified list (Control-C to stop)."@)
    } else if method == "matrix"@ {
        Some("Unfortunately, no one can be told what the Matrix is. You have to see it for yourself."@)
    } else if method == "search"@ {
        Some("Stream posts that contain specified keywords, joined with logical ORs (Control-C to stop)."@)
    } else if method == "timeline"@ {
        Some("Stream your timeline (Control-C to stop)."@)
    } else if method == "users"@ {
        Some("Stream posts either from or in reply to specified users (Control-C to stop)."@)
    } else {
        None
    }
}

fn describe_stream(method: &str) -> (r: Option<String>)
    ensures
        r.deep_view() == stream_description(method@),
{
    if same(method, "all") {
        Some("Stream a random sample of all posts (Control-C to stop).".to_owned())
    } else if same(method, "list") {
        Some("Stream a timeline for members of the specified list (Control-C to stop).".to_owned())
    } else if same(method, "matrix") {
        Some("Unfortunately, no one can be told what the Matrix is. You have to see it for yourself.".to_owned())
    } else if same(method, "search") {
        Some("Stream posts that contain specified keywords, joined with logical ORs (Control-C to stop).".to_owned())
    } else if same(method, "timeline") {
        Some("Stream your timeline (Control-C to stop).".to_owned())
    } else if same(method, "users") {
        Some("Stream posts either from or in reply to specified users (Control-C to stop).".to_owned())
    } else {
        None
    }
}

/// The description of a subcommand of `collection`.
pub open spec fn collection_description(method: Seq<char>) -> Option<Seq<char>> {
    if method == "add"@ {
        Some("Add posts to a collection."@)
    } else if method == "create"@ {
        Some("Create a new collection."@)
    } else if method == "entries"@ {
        Some("Show posts in a collection."@)
    } else if method == "information"@ {
        Some("Retrieves detailed information about a collection."@)
    } else if method == "remove"@ {
        Some("Remove posts from a collection."@)
    } else if method == "update"@ {
        Some("Update a collection's metadata."@)
    } else {
        None
    }
}

fn describe_collection(method: &str) -> (r: Option<String>)
    ensures
        r.deep_view() == collection_description(method@),
{
    if same(method, "add") {
        Some("Add posts to a collection.".to_owned())
    } else if same(method, "create") {
        Some("Create a new collection.".to_owned())
    } else if same(method, "entries") {
        Some("Show posts in a collection.".to_owned())
    } else if same(method, "information") {
        Some("Retrieves detailed information about a collection.".to_owned())
    } else if same(method, "remove") {
        Some("Remove posts from a collection.".to_owned())
    } else if same(method, "update") {
        Some("Update a collection's metadata.".to_owned())
    } else {
        None
    }
}

/// The description of a command, by the name of its parent and its own method. The parent of a
/// top-level command has no name.
pub open spec fn description(parent: Seq<char>, method: Seq<char>) -> Option<Seq<char>> {
    if parent == ""@ {
        top_description(method)
    } else if parent == "delete"@ {
        delete_description(method)
    } else if parent == "list"@ {
        list_description(method)
    } else if parent == "search"@ {
        search_description(method)
    } else if parent == "set"@ {
        set_description(method)
    } else if parent == "stream"@ {
        stream_description(method)
    } else if parent == "collection"@ {
        collection_description(method)
    } else {
        None
    }
}

pub fn describe(parent: &str, method: &str) -> (r: Option<String>)
    ensures
        r.deep_view() == description(parent@, method@),
{
    if same(parent, "") {
        describe_top(method)
    } else if same(parent, "delete") {
        describe_delete(method)
    } else if same(parent, "list") {
        describe_list(method)
    } else if same(parent, "search") {
        describe_search(method)
    } else if same(parent, "set") {
        describe_set(method)
    } else if same(parent, "stream") {
        describe_stream(method)
    } else if same(parent, "collection") {
        describe_collection(method)
    } else {
        None
    }
}

} // verus!
