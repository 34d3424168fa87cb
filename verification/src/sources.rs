//! The command classes, in the notation of Thor.

use vstd::prelude::*;

use crate::text::cat2;

verus! {

/// Accounts, and what an account does to others.
pub const CLI_ACCOUNTS: &'static str = r#"module T
  class CLI < Thor
    DEFAULT_NUM_RESULTS = 20

    check_unknown_options!

    class_option "color", aliases: "-C", type: :string, enum: %w[icon auto never], default: "auto", desc: "Control how color is used in output"
    class_option "profile", aliases: "-P", type: :string, desc: "Path to RC file", banner: "FILE"

    desc "accounts", "List accounts"
    def accounts
    end

    desc "authorize", "Allows an application to request user authorization"
    method_option "display-uri", aliases: "-d", type: :boolean, desc: "Display the authorization URL instead of attempting to open it."
    method_option "oauth2", type: :boolean, desc: "Authorize the OAuth 2.0 user context that bookmarks need."
    def authorize
    end

    desc "whoami", "Retrieves profile information for the authenticated user."
    method_option "csv", aliases: "-c", type: :boolean, desc: "Output in CSV format."
    method_option "decode_uris", aliases: "-d", type: :boolean, desc: "Decodes t.co URLs into their original form."
    method_option "long", aliases: "-l", type: :boolean, desc: "Output in long format."
    method_option "relative_dates", aliases: "-a", type: :boolean, desc: "Show relative dates."
    def whoami
    end

    desc "whois USER", "Retrieves profile information for the user."
    method_option "csv", aliases: "-c", type: :boolean, desc: "Output in CSV format."
    method_option "decode_uris", aliases: "-d", type: :boolean, desc: "Decodes t.co URLs into their original form."
    method_option "id", aliases: "-i", type: :boolean, desc: "Specify user via ID instead of screen name."
    method_option "long", aliases: "-l", type: :boolean, desc: "Output in long format."
    method_option "relative_dates", aliases: "-a", type: :boolean, desc: "Show relative dates."
    def whois(user)
    end
    map %w[user] => :whois

    desc "users USER [USER...]", "Returns a list of users you specify."
    method_option "csv", aliases: "-c", type: :boolean, desc: "Output in CSV format."
    method_option "id", aliases: "-i", type: :boolean, desc: "Specify input as X user IDs instead of screen names."
    method_option "long", aliases: "-l", type: :boolean, desc: "Output in long format."
    method_option "relative_dates", aliases: "-a", type: :boolean, desc: "Show relative dates."
    method_option "reverse", aliases: "-r", type: :boolean, desc: "Reverse the order of the sort."
    method_option "sort", aliases: "-s", type: :string, enum: %w[favorites followers friends listed screen_name since tweets tweeted], default: "screen_name", desc: "Specify the order of the results.", banner: "ORDER"
    method_option "unsorted", aliases: "-u", type: :boolean, desc: "Output is not sorted."
    def users(user, *users)
    end
    map %w[stats] => :users

    desc "block USER [USER...]", "Block users."
    method_option "id", aliases: "-i", type: :boolean, desc: "Specify input as X user IDs instead of screen names."
    def block(user, *users)
    end

    desc "mute USER [USER...]", "Mute users."
    method_option "id", aliases: "-i", type: :boolean, desc: "Specify input as X user IDs instead of screen names."
    def mute(user, *users)
    end

    desc "follow USER [USER...]", "Follow users."
    method_option "id", aliases: "-i", type: :boolean, desc: "Specify input as X user IDs instead of screen names."
    def follow(user, *users)
    end

    desc "unfollow USER [USER...]", "Allows you to stop following users."
    method_option "id", aliases: "-i", type: :boolean, desc: "Specify input as X user IDs instead of screen names."
    def unfollow(user, *users)
    end

    desc "report_spam USER [USER...]", "Report users for spam."
    method_option "id", aliases: "-i", type: :boolean, desc: "Specify input as X user IDs instead of screen names."
    def report_spam(user, *users)
    end
    map %w[report reportspam spam] => :report_spam

    desc "blocks", "Returns a list of blocked users."
    method_option "csv", aliases: "-c", type: :boolean, desc: "Output in CSV format."
    method_option "long", aliases: "-l", type: :boolean, desc: "Output in long format."
    method_option "relative_dates", aliases: "-a", type: :boolean, desc: "Show relative dates."
    method_option "reverse", aliases: "-r", type: :boolean, desc: "Reverse the order of the sort."
    method_option "sort", aliases: "-s", type: :string, enum: %w[favorites followers friends listed screen_name since tweets tweeted], default: "screen_name", desc: "Specify the order of the results.", banner: "ORDER"
    method_option "unsorted", aliases: "-u", type: :boolean, desc: "Output is not sorted."
    def blocks
    end

    desc "muted", "Returns a list of the people you have muted."
    method_option "csv", aliases: "-c", type: :boolean, desc: "Output in CSV format."
    method_option "long", aliases: "-l", type: :boolean, desc: "Output in long format."
    method_option "relative_dates", aliases: "-a", type: :boolean, desc: "Show relative dates."
    method_option "reverse", aliases: "-r", type: :boolean, desc: "Reverse the order of the sort."
    method_option "sort", aliases: "-s", type: :string, enum: %w[favorites followers friends listed screen_name since tweets tweeted], default: "screen_name", desc: "Specify the order of the results.", banner: "ORDER"
    method_option "unsorted", aliases: "-u", type: :boolean, desc: "Output is not sorted."
    def muted
    end
    map %w[mutes] => :muted
"#;

/// How users relate.
pub const CLI_PEOPLE: &'static str = r#"
    desc "does_contain [USER/]LIST USER", "Find out whether a list contains a user."
    method_option "id", aliases: "-i", type: :boolean, desc: "Specify input as X user IDs instead of screen names."
    def does_contain(user_list, user = nil)
    end
    map %w[dc doescontain] => :does_contain

    desc "does_follow USER [USER]", "Find out whether one user follows another."
    method_option "id", aliases: "-i", type: :boolean, desc: "Specify input as X user IDs instead of screen names."
    def does_follow(user1, user2 = nil)
    end
    map %w[df doesfollow] => :does_follow

    desc "followings [USER]", "Returns a list of the people you follow on X."
    method_option "csv", aliases: "-c", type: :boolean, desc: "Output in CSV format."
    method_option "id", aliases: "-i", type: :boolean, desc: "Specify user via ID instead of screen name."
    method_option "long", aliases: "-l", type: :boolean, desc: "Output in long format."
    method_option "relative_dates", aliases: "-a", type: :boolean, desc: "Show relative dates."
    method_option "reverse", aliases: "-r", type: :boolean, desc: "Reverse the order of the sort."
    method_option "sort", aliases: "-s", type: :string, enum: %w[favorites followers friends listed screen_name since tweets tweeted], default: "screen_name", desc: "Specify the order of the results.", banner: "ORDER"
    method_option "unsorted", aliases: "-u", type: :boolean, desc: "Output is not sorted."
    def followings(user = nil)
    end

    desc "followings_following USER [USER]", "Displays your friends who follow the specified user."
    method_option "csv", aliases: "-c", type: :boolean, desc: "Output in CSV format."
    method_option "id", aliases: "-i", type: :boolean, desc: "Specify input as X user IDs instead of screen names."
    method_option "long", aliases: "-l", type: :boolean, desc: "Output in long format."
    method_option "relative_dates", aliases: "-a", type: :boolean, desc: "Show relative dates."
    method_option "reverse", aliases: "-r", type: :boolean, desc: "Reverse the order of the sort."
    method_option "sort", aliases: "-s", type: :string, enum: %w[favorites followers friends listed screen_name since tweets tweeted], default: "screen_name", desc: "Specify the order of the results.", banner: "ORDER"
    method_option "unsorted", aliases: "-u", type: :boolean, desc: "Output is not sorted."
    def followings_following(user1, user2 = nil)
    end
    map %w[ff followingsfollowing] => :followings_following

    desc "followers [USER]", "Returns a list of the people who follow you on X."
    method_option "csv", aliases: "-c", type: :boolean, desc: "Output in CSV format."
    method_option "id", aliases: "-i", type: :boolean, desc: "Specify user via ID instead of screen name."
    method_option "long", aliases: "-l", type: :boolean, desc: "Output in long format."
    method_option "relative_dates", aliases: "-a", type: :boolean, desc: "Show relative dates."
    method_option "reverse", aliases: "-r", type: :boolean, desc: "Reverse the order of the sort."
    method_option "sort", aliases: "-s", type: :string, enum: %w[favorites followers friends listed screen_name since tweets tweeted], default: "screen_name", desc: "Specify the order of the results.", banner: "ORDER"
    method_option "unsorted", aliases: "-u", type: :boolean, desc: "Output is not sorted."
    def followers(user = nil)
    end

    desc "friends [USER]", "Returns the list of people who you follow and follow you back."
    method_option "csv", aliases: "-c", type: :boolean, desc: "Output in CSV format."
    method_option "id", aliases: "-i", type: :boolean, desc: "Specify user via ID instead of screen name."
    method_option "long", aliases: "-l", type: :boolean, desc: "Output in long format."
    method_option "relative_dates", aliases: "-a", type: :boolean, desc: "Show relative dates."
    method_option "reverse", aliases: "-r", type: :boolean, desc: "Reverse the order of the sort."
    method_option "sort", aliases: "-s", type: :string, enum: %w[favorites followers friends listed screen_name since tweets tweeted], default: "screen_name", desc: "Specify the order of the results.", banner: "ORDER"
    method_option "unsorted", aliases: "-u", type: :boolean, desc: "Output is not sorted."
    def friends(user = nil)
    end

    desc "groupies [USER]", "Returns the list of people who follow you but you don't follow back."
    method_option "csv", aliases: "-c", type: :boolean, desc: "Output in CSV format."
    method_option "id", aliases: "-i", type: :boolean, desc: "Specify user via ID instead of screen name."
    method_option "long", aliases: "-l", type: :boolean, desc: "Output in long format."
    method_option "relative_dates", aliases: "-a", type: :boolean, desc: "Show relative dates."
    method_option "reverse", aliases: "-r", type: :boolean, desc: "Reverse the order of the sort."
    method_option "sort", aliases: "-s", type: :string, enum: %w[favorites followers friends listed screen_name since tweets tweeted], default: "screen_name", desc: "Specify the order of the results.", banner: "ORDER"
    method_option "unsorted", aliases: "-u", type: :boolean, desc: "Output is not sorted."
    def groupies(user = nil)
    end
    map %w[disciples] => :groupies

    desc "intersection USER [USER...]", "Displays the intersection of users followed by the specified users."
    method_option "csv", aliases: "-c", type: :boolean, desc: "Output in CSV format."
    method_option "id", aliases: "-i", type: :boolean, desc: "Specify input as X user IDs instead of screen names."
    method_option "long", aliases: "-l", type: :boolean, desc: "Output in long format."
    method_option "relative_dates", aliases: "-a", type: :boolean, desc: "Show relative dates."
    method_option "reverse", aliases: "-r", type: :boolean, desc: "Reverse the order of the sort."
    method_option "sort", aliases: "-s", type: :string, enum: %w[favorites followers friends listed screen_name since tweets tweeted], default: "screen_name", desc: "Specify the order of the results.", banner: "ORDER"
    method_option "type", aliases: "-t", type: :string, enum: %w[followers followings], default: "followings", desc: "Specify the type of intersection."
    method_option "unsorted", aliases: "-u", type: :boolean, desc: "Output is not sorted."
    def intersection(first_user, *users)
    end
    map %w[overlap] => :intersection

    desc "leaders [USER]", "Returns the list of people who you follow but don't follow you back."
    method_option "csv", aliases: "-c", type: :boolean, desc: "Output in CSV format."
    method_option "id", aliases: "-i", type: :boolean, desc: "Specify user via ID instead of screen name."
    method_option "long", aliases: "-l", type: :boolean, desc: "Output in long format."
    method_option "relative_dates", aliases: "-a", type: :boolean, desc: "Show relative dates."
    method_option "reverse", aliases: "-r", type: :boolean, desc: "Reverse the order of the sort."
    method_option "sort", aliases: "-s", type: :string, enum: %w[favorites followers friends listed screen_name since tweets tweeted], default: "screen_name", desc: "Specify the order of the results.", banner: "ORDER"
    method_option "unsorted", aliases: "-u", type: :boolean, desc: "Output is not sorted."
    def leaders(user = nil)
    end
"#;

/// Writing posts and messages.
pub const CLI_POSTS: &'static str = r#"
    desc "bookmark TWEET_ID [TWEET_ID...]", "Bookmark posts."
    def bookmark(status_id, *status_ids)
    end

    desc "unbookmark TWEET_ID [TWEET_ID...]", "Remove bookmarked posts."
    def unbookmark(status_id, *status_ids)
    end

    desc "favorite TWEET_ID [TWEET_ID...]", "Marks posts as favorites."
    def favorite(status_id, *status_ids)
    end
    map %w[fave favourite] => :favorite

    desc "retweet TWEET_ID [TWEET_ID...]", "Sends posts to your followers."
    def retweet(status_id, *status_ids)
    end
    map %w[rt] => :retweet

    desc "dm USER MESSAGE", "Sends that person a Direct Message."
    method_option "id", aliases: "-i", type: :boolean, desc: "Specify user via ID instead of screen name."
    def dm(user, message)
    end
    map %w[d m] => :dm

    desc "reply TWEET_ID [MESSAGE]", "Post your post as a reply directed at another person."
    method_option "all", aliases: "-a", type: :boolean, desc: "Reply to all users mentioned in the post."
    method_option "file", aliases: "-f", type: :string, desc: "The path to an image to attach to your post."
    def reply(status_id, message = nil)
    end

    desc "update [MESSAGE]", "Post a post."
    method_option "file", aliases: "-f", type: :string, desc: "The path to an image to attach to your post."
    def update(message = nil)
    end
    map %w[post tweet] => :update

    desc "open USER", "Opens that user's profile in a web browser."
    method_option "id", aliases: "-i", type: :boolean, desc: "Specify user via ID instead of screen name."
    method_option "status", aliases: "-s", type: :boolean, desc: "Specify input as a post ID instead of a screen name."
    def open(user)
    end

    desc "reach TWEET_ID", "Shows the maximum number of people who may have seen the specified post in their timeline."
    def reach(tweet_id)
    end

    desc "ruler", "Prints a 280-character ruler"
    method_option "indent", aliases: "-i", type: :numeric, default: 0, desc: "The number of spaces to print before the ruler."
    def ruler
    end

    desc "status TWEET_ID", "Retrieves detailed information about a post."
    method_option "csv", aliases: "-c", type: :boolean, desc: "Output in CSV format."
    method_option "decode_uris", aliases: "-d", type: :boolean, desc: "Decodes t.co URLs into their original form."
    method_option "long", aliases: "-l", type: :boolean, desc: "Output in long format."
    method_option "relative_dates", aliases: "-a", type: :boolean, desc: "Show relative dates."
    def status(status_id)
    end

    desc "version", "Show version."
    def version
    end
    map %w[-v --version] => :version
"#;

/// Reading posts and messages.
pub const CLI_TIMELINES: &'static str = r#"
    desc "bookmarks", "Returns the #{DEFAULT_NUM_RESULTS} most recent bookmarked posts."
    method_option "csv", aliases: "-c", type: :boolean, desc: "Output in CSV format."
    method_option "decode_uris", aliases: "-d", type: :boolean, desc: "Decodes t.co URLs into their original form."
    method_option "long", aliases: "-l", type: :boolean, desc: "Output in long format."
    method_option "relative_dates", aliases: "-a", type: :boolean, desc: "Show relative dates."
    method_option "reverse", aliases: "-r", type: :boolean, desc: "Reverse the order of the sort."
    method_option "max_id", aliases: "-m", type: :numeric, desc: "Returns only the results with an ID less than the specified ID."
    method_option "number", aliases: "-n", type: :numeric, default: DEFAULT_NUM_RESULTS, desc: "Limit the number of results."
    def bookmarks
    end

    desc "direct_messages", "Returns the #{DEFAULT_NUM_RESULTS} most recent Direct Messages sent to you."
    method_option "csv", aliases: "-c", type: :boolean, desc: "Output in CSV format."
    method_option "decode_uris", aliases: "-d", type: :boolean, desc: "Decodes t.co URLs into their original form."
    method_option "long", aliases: "-l", type: :boolean, desc: "Output in long format."
    method_option "number", aliases: "-n", type: :numeric, default: DEFAULT_NUM_RESULTS, desc: "Limit the number of results."
    method_option "relative_dates", aliases: "-a", type: :boolean, desc: "Show relative dates."
    method_option "reverse", aliases: "-r", type: :boolean, desc: "Reverse the order of the sort."
    def direct_messages
    end
    map %w[directmessages dms] => :direct_messages

    desc "direct_messages_sent", "Returns the #{DEFAULT_NUM_RESULTS} most recent Direct Messages you've sent."
    method_option "csv", aliases: "-c", type: :boolean, desc: "Output in CSV format."
    method_option "decode_uris", aliases: "-d", type: :boolean, desc: "Decodes t.co URLs into their original form."
    method_option "long", aliases: "-l", type: :boolean, desc: "Output in long format."
    method_option "number", aliases: "-n", type: :numeric, default: DEFAULT_NUM_RESULTS, desc: "Limit the number of results."
    method_option "relative_dates", aliases: "-a", type: :boolean, desc: "Show relative dates."
    method_option "reverse", aliases: "-r", type: :boolean, desc: "Reverse the order of the sort."
    def direct_messages_sent
    end
    map %w[directmessagessent sent_messages sentmessages sms] => :direct_messages_sent

    desc "favorites [USER]", "Returns the #{DEFAULT_NUM_RESULTS} most recent posts you favorited."
    method_option "csv", aliases: "-c", type: :boolean, desc: "Output in CSV format."
    method_option "decode_uris", aliases: "-d", type: :boolean, desc: "Decodes t.co URLs into their original form."
    method_option "id", aliases: "-i", type: :boolean, desc: "Specify user via ID instead of screen name."
    method_option "long", aliases: "-l", type: :boolean, desc: "Output in long format."
    method_option "max_id", aliases: "-m", type: :numeric, desc: "Returns only the results with an ID less than the specified ID."
    method_option "number", aliases: "-n", type: :numeric, default: DEFAULT_NUM_RESULTS, desc: "Limit the number of results."
    method_option "relative_dates", aliases: "-a", type: :boolean, desc: "Show relative dates."
    method_option "reverse", aliases: "-r", type: :boolean, desc: "Reverse the order of the sort."
    method_option "since_id", aliases: "-s", type: :numeric, desc: "Returns only the results with an ID greater than the specified ID."
    def favorites(user = nil)
    end
    map %w[faves favourites] => :favorites

    desc "matrix", "Unfortunately, no one can be told what the Matrix is. You have to see it for yourself."
    def matrix
    end

    desc "mentions", "Returns the #{DEFAULT_NUM_RESULTS} most recent posts mentioning you."
    method_option "csv", aliases: "-c", type: :boolean, desc: "Output in CSV format."
    method_option "decode_uris", aliases: "-d", type: :boolean, desc: "Decodes t.co URLs into their original form."
    method_option "long", aliases: "-l", type: :boolean, desc: "Output in long format."
    method_option "max_id", aliases: "-m", type: :numeric, desc: "Returns only the results with an ID less than the specified ID."
    method_option "number", aliases: "-n", type: :numeric, default: DEFAULT_NUM_RESULTS, desc: "Limit the number of results."
    method_option "relative_dates", aliases: "-a", type: :boolean, desc: "Show relative dates."
    method_option "reverse", aliases: "-r", type: :boolean, desc: "Reverse the order of the sort."
    method_option "since_id", aliases: "-s", type: :numeric, desc: "Returns only the results with an ID greater than the specified ID."
    def mentions
    end
    map %w[replies] => :mentions

    desc "retweets [USER]", "Returns the #{DEFAULT_NUM_RESULTS} most recent reposts by a user."
    method_option "csv", aliases: "-c", type: :boolean, desc: "Output in CSV format."
    method_option "decode_uris", aliases: "-d", type: :boolean, desc: "Decodes t.co URLs into their original form."
    method_option "id", aliases: "-i", type: :boolean, desc: "Specify user via ID instead of screen name."
    method_option "long", aliases: "-l", type: :boolean, desc: "Output in long format."
    method_option "max_id", aliases: "-m", type: :numeric, desc: "Returns only the results with an ID less than the specified ID."
    method_option "number", aliases: "-n", type: :numeric, default: DEFAULT_NUM_RESULTS, desc: "Limit the number of results."
    method_option "relative_dates", aliases: "-a", type: :boolean, desc: "Show relative dates."
    method_option "reverse", aliases: "-r", type: :boolean, desc: "Reverse the order of the sort."
    method_option "since_id", aliases: "-s", type: :numeric, desc: "Returns only the results with an ID greater than the specified ID."
    def retweets(user = nil)
    end
    map %w[rts] => :retweets

    desc "retweets_of_me", "Returns the #{DEFAULT_NUM_RESULTS} most recent posts of the authenticated user that have been reposted by others."
    method_option "csv", aliases: "-c", type: :boolean, desc: "Output in CSV format."
    method_option "decode_uris", aliases: "-d", type: :boolean, desc: "Decodes t.co URLs into their original form."
    method_option "long", aliases: "-l", type: :boolean, desc: "Output in long format."
    method_option "max_id", aliases: "-m", type: :numeric, desc: "Returns only the results with an ID less than the specified ID."
    method_option "number", aliases: "-n", type: :numeric, default: DEFAULT_NUM_RESULTS, desc: "Limit the number of results."
    method_option "relative_dates", aliases: "-a", type: :boolean, desc: "Show relative dates."
    method_option "reverse", aliases: "-r", type: :boolean, desc: "Reverse the order of the sort."
    method_option "since_id", aliases: "-s", type: :numeric, desc: "Returns only the results with an ID greater than the specified ID."
    def retweets_of_me
    end
    map %w[retweetsofme] => :retweets_of_me

    desc "timeline [USER]", "Returns the #{DEFAULT_NUM_RESULTS} most recent posts by a user."
    method_option "csv", aliases: "-c", type: :boolean, desc: "Output in CSV format."
    method_option "decode_uris", aliases: "-d", type: :boolean, desc: "Decodes t.co URLs into their original form."
    method_option "exclude", aliases: "-e", type: :string, enum: %w[replies retweets], desc: "Exclude certain types of posts from the results.", banner: "TYPE"
    method_option "id", aliases: "-i", type: :boolean, desc: "Specify user via ID instead of screen name."
    method_option "long", aliases: "-l", type: :boolean, desc: "Output in long format."
    method_option "max_id", aliases: "-m", type: :numeric, desc: "Returns only the results with an ID less than the specified ID."
    method_option "number", aliases: "-n", type: :numeric, default: DEFAULT_NUM_RESULTS, desc: "Limit the number of results."
    method_option "relative_dates", aliases: "-a", type: :boolean, desc: "Show relative dates."
    method_option "reverse", aliases: "-r", type: :boolean, desc: "Reverse the order of the sort."
    method_option "since_id", aliases: "-s", type: :numeric, desc: "Returns only the results with an ID greater than the specified ID."
    def timeline(user = nil)
    end
    map %w[tl] => :timeline
"#;

/// Lists, collections and places.
pub const CLI_PLACES: &'static str = r#"
    desc "lists [USER]", "Returns the lists created by a user."
    method_option "csv", aliases: "-c", type: :boolean, desc: "Output in CSV format."
    method_option "id", aliases: "-i", type: :boolean, desc: "Specify user via ID instead of screen name."
    method_option "long", aliases: "-l", type: :boolean, desc: "Output in long format."
    method_option "relative_dates", aliases: "-a", type: :boolean, desc: "Show relative dates."
    method_option "reverse", aliases: "-r", type: :boolean, desc: "Reverse the order of the sort."
    method_option "sort", aliases: "-s", type: :string, enum: %w[members mode since slug subscribers], default: "slug", desc: "Specify the order of the results.", banner: "ORDER"
    method_option "unsorted", aliases: "-u", type: :boolean, desc: "Output is not sorted."
    def lists(user = nil)
    end

    desc "collections [USER]", "Returns the collections created by a user."
    method_option "csv", aliases: "-c", type: :boolean, desc: "Output in CSV format."
    method_option "id", aliases: "-i", type: :boolean, desc: "Specify user via ID instead of screen name."
    method_option "long", aliases: "-l", type: :boolean, desc: "Output in long format."
    method_option "reverse", aliases: "-r", type: :boolean, desc: "Reverse the order of the sort."
    method_option "sort", aliases: "-s", type: :string, enum: %w[name since], default: "name", desc: "Specify the order of the results.", banner: "ORDER"
    method_option "unsorted", aliases: "-u", type: :boolean, desc: "Output is not sorted."
    def collections(user = nil)
    end

    desc "trends [WOEID]", "Returns the top 50 trending topics."
    method_option "exclude-hashtags", aliases: "-x", type: :boolean, desc: "Remove all hashtags from the trends list."
    def trends(woe_id = 1)
    end

    desc "my_location", "Retrieves place information based on your IP address."
    def my_location
    end
    map %w[mylocation] => :my_location

    desc "nearby_places [ADDRESS]", "Retrieves nearby places using an address or your IP geolocation."
    method_option "csv", aliases: "-c", type: :boolean, desc: "Output in CSV format."
    method_option "long", aliases: "-l", type: :boolean, desc: "Output in long format."
    method_option "reverse", aliases: "-r", type: :boolean, desc: "Reverse the order of the sort."
    method_option "sort", aliases: "-s", type: :string, enum: %w[country name type], default: "name", desc: "Specify the order of the results.", banner: "ORDER"
    method_option "unsorted", aliases: "-u", type: :boolean, desc: "Output is not sorted."
    def nearby_places(*address)
    end
    map %w[nearbyplaces] => :nearby_places

    desc "place PLACE_ID", "Retrieves detailed information about a place."
    method_option "csv", aliases: "-c", type: :boolean, desc: "Output in CSV format."
    def place(place_id)
    end

    desc "places NAME [ADDRESS]", "Retrieves places with similar names near an address or your IP geolocation."
    method_option "csv", aliases: "-c", type: :boolean, desc: "Output in CSV format."
    method_option "long", aliases: "-l", type: :boolean, desc: "Output in long format."
    method_option "reverse", aliases: "-r", type: :boolean, desc: "Reverse the order of the sort."
    method_option "sort", aliases: "-s", type: :string, enum: %w[country name type], default: "name", desc: "Specify the order of the results.", banner: "ORDER"
    method_option "unsorted", aliases: "-u", type: :boolean, desc: "Output is not sorted."
    def places(name, *address)
    end

    desc "trend_locations", "Returns the locations for which X has trending topic information."
    method_option "csv", aliases: "-c", type: :boolean, desc: "Output in CSV format."
    method_option "long", aliases: "-l", type: :boolean, desc: "Output in long format."
    method_option "reverse", aliases: "-r", type: :boolean, desc: "Reverse the order of the sort."
    method_option "sort", aliases: "-s", type: :string, enum: %w[country name parent type woeid], default: "name", desc: "Specify the order of the results.", banner: "ORDER"
    method_option "unsorted", aliases: "-u", type: :boolean, desc: "Output is not sorted."
    def trend_locations
    end
    map %w[locations trendlocations] => :trend_locations
"#;

/// Commands with subcommands.
pub const CLI_GROUPS: &'static str = r#"
    desc "collection SUBCOMMAND ...ARGS", "Commands for managing collections."
    subcommand "collection", T::Collection

    desc "delete SUBCOMMAND ...ARGS", "Delete posts, Direct Messages, etc."
    subcommand "delete", T::Delete

    desc "list SUBCOMMAND ...ARGS", "Do various things with lists."
    subcommand "list", T::List

    desc "search SUBCOMMAND ...ARGS", "Search through posts."
    subcommand "search", T::Search

    desc "set SUBCOMMAND ...ARGS", "Change various account settings."
    subcommand "set", T::Set

    desc "stream SUBCOMMAND ...ARGS", "Commands for streaming posts."
    subcommand "stream", T::Stream
  end
end
"#;

/// The class of the top-level commands.
pub open spec fn cli_source() -> Seq<char> {
    CLI_ACCOUNTS@ + CLI_PEOPLE@ + CLI_POSTS@ + CLI_TIMELINES@ + CLI_PLACES@ + CLI_GROUPS@
}

pub fn cli_text() -> (r: String)
    ensures
        r@ == cli_source(),
{
    cat2(CLI_ACCOUNTS, CLI_PEOPLE).concat(CLI_POSTS).concat(CLI_TIMELINES).concat(
        CLI_PLACES,
    ).concat(CLI_GROUPS)
}

pub const COLLECTION_RB: &'static str = r#"module T
  class Collection < Thor
    DEFAULT_NUM_RESULTS = 20

    check_unknown_options!

    desc "add COLLECTION TWEET_ID [TWEET_ID...]", "Add posts to a collection."
    method_option "id", aliases: "-i", type: :boolean, desc: "Specify collection via ID instead of name."
    def add(collection, status_id, *status_ids)
    end

    desc "create NAME [DESCRIPTION]", "Create a new collection."
    method_option "timeline_order", aliases: "-o", type: :string, enum: %w[curation_reverse_chron tweet_chron tweet_reverse_chron], desc: "The order of the posts in the collection."
    method_option "url", aliases: "-u", type: :string, desc: "The address that the collection links to."
    def create(name, description = nil)
    end

    desc "entries COLLECTION", "Show posts in a collection."
    method_option "csv", aliases: "-c", type: :boolean, desc: "Output in CSV format."
    method_option "decode_uris", aliases: "-d", type: :boolean, desc: "Decodes t.co URLs into their original form."
    method_option "id", aliases: "-i", type: :boolean, desc: "Specify collection via ID instead of name."
    method_option "long", aliases: "-l", type: :boolean, desc: "Output in long format."
    method_option "number", aliases: "-n", type: :numeric, default: DEFAULT_NUM_RESULTS, desc: "Limit the number of results."
    method_option "relative_dates", aliases: "-a", type: :boolean, desc: "Show relative dates."
    method_option "reverse", aliases: "-r", type: :boolean, desc: "Reverse the order of the sort."
    def entries(collection)
    end

    desc "information COLLECTION", "Retrieves detailed information about a collection."
    method_option "csv", aliases: "-c", type: :boolean, desc: "Output in CSV format."
    method_option "id", aliases: "-i", type: :boolean, desc: "Specify collection via ID instead of name."
    def information(collection)
    end
    map %w[details] => :information

    desc "remove COLLECTION TWEET_ID [TWEET_ID...]", "Remove posts from a collection."
    method_option "id", aliases: "-i", type: :boolean, desc: "Specify collection via ID instead of name."
    def remove(collection, status_id, *status_ids)
    end

    desc "update COLLECTION", "Update a collection's metadata."
    method_option "description", aliases: "-d", type: :string, desc: "The new description of the collection."
    method_option "id", aliases: "-i", type: :boolean, desc: "Specify collection via ID instead of name."
    method_option "name", aliases: "-n", type: :string, desc: "The new name of the collection."
    method_option "url", aliases: "-u", type: :string, desc: "The address that the collection links to."
    def update(collection)
    end
  end
end
"#;

pub const DELETE_RB: &'static str = r#"module T
  class Delete < Thor

    check_unknown_options!

    desc "block USER [USER...]", "Unblock users."
    method_option "id", aliases: "-i", type: :boolean, desc: "Specify input as X user IDs instead of screen names."
    def block(user, *users)
    end

    desc "dm [DIRECT_MESSAGE_ID] [DIRECT_MESSAGE_ID...]", "Delete the last Direct Message sent."
    method_option "force", aliases: "-f", type: :boolean, desc: "Skip confirmation."
    def dm(direct_message_id, *direct_message_ids)
    end
    map %w[d m] => :dm

    desc "favorite TWEET_ID [TWEET_ID...]", "Delete favorites."
    method_option "force", aliases: "-f", type: :boolean, desc: "Skip confirmation."
    def favorite(status_id, *status_ids)
    end
    map %w[fave favourite] => :favorite

    desc "list LIST", "Delete a list."
    method_option "force", aliases: "-f", type: :boolean, desc: "Skip confirmation."
    method_option "id", aliases: "-i", type: :boolean, desc: "Specify list via ID instead of slug."
    def list(list)
    end

    desc "collection COLLECTION", "Delete a collection."
    method_option "force", aliases: "-f", type: :boolean, desc: "Skip confirmation."
    method_option "id", aliases: "-i", type: :boolean, desc: "Specify collection via ID instead of name."
    def collection(collection)
    end

    desc "mute USER [USER...]", "Unmute users."
    method_option "id", aliases: "-i", type: :boolean, desc: "Specify input as X user IDs instead of screen names."
    def mute(user, *users)
    end

    desc "account USER [KEY]", "delete account or consumer key from t"
    def account(account, key = nil)
    end

    desc "status TWEET_ID [TWEET_ID...]", "Delete posts."
    method_option "force", aliases: "-f", type: :boolean, desc: "Skip confirmation."
    def status(status_id, *status_ids)
    end
    map %w[post tweet update] => :status
  end
end
"#;

pub const LIST_RB: &'static str = r#"module T
  class List < Thor
    DEFAULT_NUM_RESULTS = 20

    check_unknown_options!

    desc "add LIST USER [USER...]", "Add members to a list."
    method_option "id", aliases: "-i", type: :boolean, desc: "Specify input as X user IDs instead of screen names."
    def add(list_name, user, *users)
    end

    desc "create LIST [DESCRIPTION]", "Create a new list."
    method_option "private", aliases: "-p", type: :boolean, desc: "Create a private list."
    def create(list_name, description = nil)
    end

    desc "information [USER/]LIST", "Retrieves detailed information about a list."
    method_option "csv", aliases: "-c", type: :boolean, desc: "Output in CSV format."
    method_option "id", aliases: "-i", type: :boolean, desc: "Specify input as X user IDs instead of screen names."
    def information(user_list)
    end
    map %w[details] => :information

    desc "members [USER/]LIST", "Returns the members of a list."
    method_option "csv", aliases: "-c", type: :boolean, desc: "Output in CSV format."
    method_option "id", aliases: "-i", type: :boolean, desc: "Specify input as X user IDs instead of screen names."
    method_option "long", aliases: "-l", type: :boolean, desc: "Output in long format."
    method_option "relative_dates", aliases: "-a", type: :boolean, desc: "Show relative dates."
    method_option "reverse", aliases: "-r", type: :boolean, desc: "Reverse the order of the sort."
    method_option "sort", aliases: "-s", type: :string, enum: %w[favorites followers friends listed screen_name since tweets tweeted], default: "screen_name", desc: "Specify the order of the results.", banner: "ORDER"
    method_option "unsorted", aliases: "-u", type: :boolean, desc: "Output is not sorted."
    def members(user_list)
    end

    desc "remove LIST USER [USER...]", "Remove members from a list."
    method_option "id", aliases: "-i", type: :boolean, desc: "Specify input as X user IDs instead of screen names."
    def remove(list_name, user, *users)
    end

    desc "timeline [USER/]LIST", "Show post timeline for members of the specified list."
    method_option "csv", aliases: "-c", type: :boolean, desc: "Output in CSV format."
    method_option "decode_uris", aliases: "-d", type: :boolean, desc: "Decodes t.co URLs into their original form."
    method_option "id", aliases: "-i", type: :boolean, desc: "Specify input as X user IDs instead of screen names."
    method_option "long", aliases: "-l", type: :boolean, desc: "Output in long format."
    method_option "number", aliases: "-n", type: :numeric, default: DEFAULT_NUM_RESULTS, desc: "Limit the number of results."
    method_option "relative_dates", aliases: "-a", type: :boolean, desc: "Show relative dates."
    method_option "reverse", aliases: "-r", type: :boolean, desc: "Reverse the order of the sort."
    def timeline(user_list)
    end
    map %w[tl] => :timeline
  end
end
"#;

pub const SEARCH_RB: &'static str = r#"module T
  class Search < Thor
    DEFAULT_NUM_RESULTS = 20

    check_unknown_options!

    desc "all QUERY", "Returns the #{DEFAULT_NUM_RESULTS} most recent posts that match the specified query."
    method_option "csv", aliases: "-c", type: :boolean, desc: "Output in CSV format."
    method_option "decode_uris", aliases: "-d", type: :boolean, desc: "Decodes t.co URLs into their original form."
    method_option "long", aliases: "-l", type: :boolean, desc: "Output in long format."
    method_option "number", aliases: "-n", type: :numeric, default: DEFAULT_NUM_RESULTS, desc: "Limit the number of results."
    method_option "relative_dates", aliases: "-a", type: :boolean, desc: "Show relative dates."
    def all(query)
    end

    desc "favorites [USER] QUERY", "Returns posts you've favorited that match the specified query."
    method_option "csv", aliases: "-c", type: :boolean, desc: "Output in CSV format."
    method_option "decode_uris", aliases: "-d", type: :boolean, desc: "Decodes t.co URLs into their original form."
    method_option "id", aliases: "-i", type: :boolean, desc: "Specify user via ID instead of screen name."
    method_option "long", aliases: "-l", type: :boolean, desc: "Output in long format."
    method_option "relative_dates", aliases: "-a", type: :boolean, desc: "Show relative dates."
    def favorites(*args)
    end
    map %w[faves] => :favorites

    desc "list [USER/]LIST QUERY", "Returns posts on a list that match the specified query."
    method_option "csv", aliases: "-c", type: :boolean, desc: "Output in CSV format."
    method_option "decode_uris", aliases: "-d", type: :boolean, desc: "Decodes t.co URLs into their original form."
    method_option "id", aliases: "-i", type: :boolean, desc: "Specify user via ID instead of screen name."
    method_option "long", aliases: "-l", type: :boolean, desc: "Output in long format."
    method_option "relative_dates", aliases: "-a", type: :boolean, desc: "Show relative dates."
    def list(user_list, query)
    end

    desc "mentions QUERY", "Returns posts mentioning you that match the specified query."
    method_option "csv", aliases: "-c", type: :boolean, desc: "Output in CSV format."
    method_option "decode_uris", aliases: "-d", type: :boolean, desc: "Decodes t.co URLs into their original form."
    method_option "long", aliases: "-l", type: :boolean, desc: "Output in long format."
    method_option "relative_dates", aliases: "-a", type: :boolean, desc: "Show relative dates."
    def mentions(query)
    end
    map %w[replies] => :mentions

    desc "retweets [USER] QUERY", "Returns posts you've reposted that match the specified query."
    method_option "csv", aliases: "-c", type: :boolean, desc: "Output in CSV format."
    method_option "decode_uris", aliases: "-d", type: :boolean, desc: "Decodes t.co URLs into their original form."
    method_option "id", aliases: "-i", type: :boolean, desc: "Specify user via ID instead of screen name."
    method_option "long", aliases: "-l", type: :boolean, desc: "Output in long format."
    method_option "relative_dates", aliases: "-a", type: :boolean, desc: "Show relative dates."
    def retweets(*args)
    end
    map %w[rts] => :retweets

    desc "timeline [USER] QUERY", "Returns posts in your timeline that match the specified query."
    method_option "csv", aliases: "-c", type: :boolean, desc: "Output in CSV format."
    method_option "decode_uris", aliases: "-d", type: :boolean, desc: "Decodes t.co URLs into their original form."
    method_option "exclude", aliases: "-e", type: :string, enum: %w[replies retweets], desc: "Exclude certain types of posts from the results.", banner: "TYPE"
    method_option "id", aliases: "-i", type: :boolean, desc: "Specify user via ID instead of screen name."
    method_option "long", aliases: "-l", type: :boolean, desc: "Output in long format."
    method_option "max_id", aliases: "-m", type: :numeric, desc: "Returns only the results with an ID less than the specified ID."
    method_option "relative_dates", aliases: "-a", type: :boolean, desc: "Show relative dates."
    method_option "since_id", aliases: "-s", type: :numeric, desc: "Returns only the results with an ID greater than the specified ID."
    def timeline(*args)
    end
    map %w[tl] => :timeline

    desc "users QUERY", "Returns users that match the specified query."
    method_option "csv", aliases: "-c", type: :boolean, desc: "Output in CSV format."
    method_option "long", aliases: "-l", type: :boolean, desc: "Output in long format."
    method_option "relative_dates", aliases: "-a", type: :boolean, desc: "Show relative dates."
    method_option "reverse", aliases: "-r", type: :boolean, desc: "Reverse the order of the sort."
    method_option "sort", aliases: "-s", type: :string, enum: %w[favorites followers friends listed screen_name since tweets tweeted], default: "screen_name", desc: "Specify the order of the results.", banner: "ORDER"
    method_option "unsorted", aliases: "-u", type: :boolean, desc: "Output is not sorted."
    def users(query)
    end
  end
end
"#;

pub const SET_RB: &'static str = r#"module T
  class Set < Thor

    check_unknown_options!

    desc "active SCREEN_NAME [CONSUMER_KEY]", "Set your active account."
    def active(screen_name, consumer_key = nil)
    end
    map %w[account default] => :active

    desc "bio DESCRIPTION", "Edits your Bio information on your profile."
    def bio(description)
    end

    desc "language LANGUAGE_NAME", "Selects the language you'd like to receive notifications in."
    def language(language_name)
    end

    desc "location PLACE_NAME", "Updates the location field in your profile."
    def location(place_name)
    end

    desc "name NAME", "Sets the name field on your profile."
    def name(name)
    end

    desc "profile_background_image FILE", "Sets the background image on your profile."
    method_option "tile", aliases: "-t", type: :boolean, desc: "Whether or not to tile the background image."
    def profile_background_image(file)
    end
    map %w[background background_image] => :profile_background_image

    desc "profile_image FILE", "Sets the image on your profile."
    def profile_image(file)
    end
    map %w[avatar image] => :profile_image

    desc "profile_link_color COLOR", "Sets the color scheme of links on your profile page."
    def profile_link_color(color)
    end
    map %w[link_color] => :profile_link_color

    desc "website URI", "Sets the website field on your profile."
    def website(uri)
    end
  end
end
"#;

pub const STREAM_RB: &'static str = r#"module T
  class Stream < Thor

    check_unknown_options!

    desc "all", "Stream a random sample of all posts (Control-C to stop)"
    method_option "csv", aliases: "-c", type: :boolean, desc: "Output in CSV format."
    method_option "decode_uris", aliases: "-d", type: :boolean, desc: "Decodes t.co URLs into their original form."
    method_option "long", aliases: "-l", type: :boolean, desc: "Output in long format."
    def all
    end

    desc "list [USER/]LIST", "Stream a timeline for members of the specified list (Control-C to stop)"
    method_option "csv", aliases: "-c", type: :boolean, desc: "Output in CSV format."
    method_option "decode_uris", aliases: "-d", type: :boolean, desc: "Decodes t.co URLs into their original form."
    method_option "id", aliases: "-i", type: :boolean, desc: "Specify list via ID instead of slug."
    method_option "long", aliases: "-l", type: :boolean, desc: "Output in long format."
    def list(user_list)
    end
    map %w[tl] => :list

    desc "matrix", "Unfortunately, no one can be told what the Matrix is. You have to see it for yourself."
    def matrix
    end

    desc "search KEYWORD [KEYWORD...]", "Stream posts that contain specified keywords, joined with logical ORs (Control-C to stop)"
    method_option "csv", aliases: "-c", type: :boolean, desc: "Output in CSV format."
    method_option "decode_uris", aliases: "-d", type: :boolean, desc: "Decodes t.co URLs into their original form."
    method_option "long", aliases: "-l", type: :boolean, desc: "Output in long format."
    def search(keyword, *keywords)
    end

    desc "timeline", "Stream your timeline (Control-C to stop)"
    method_option "csv", aliases: "-c", type: :boolean, desc: "Output in CSV format."
    method_option "decode_uris", aliases: "-d", type: :boolean, desc: "Decodes t.co URLs into their original form."
    method_option "long", aliases: "-l", type: :boolean, desc: "Output in long format."
    def timeline
    end

    desc "users USER_ID [USER_ID...]", "Stream posts either from or in reply to specified users (Control-C to stop)"
    method_option "csv", aliases: "-c", type: :boolean, desc: "Output in CSV format."
    method_option "decode_uris", aliases: "-d", type: :boolean, desc: "Decodes t.co URLs into their original form."
    method_option "long", aliases: "-l", type: :boolean, desc: "Output in long format."
    def users(user_id, *user_ids)
    end
  end
end
"#;

} // verus!
