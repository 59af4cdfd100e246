//! Typed Discord REST routes: each knows its path relative to the API base.
use vstd::prelude::*;

use crate::api_types::{
    Channel, CreateMessageRequest, CurrentUserGuild, EditMessageRequest, GatewayBotInfo,
    GetChannelMessagesQuery, GetCurrentUserGuildsQuery, Message, Snowflake, User,
};
use crate::text::{concat3, concat4, to_owned_string};

verus! {

/// A REST route: a path under the API base and the payload it answers with.
pub trait Route {
    type Response;

    /// The route's path, without a leading `/`.
    spec fn spec_path(&self) -> Seq<char>;

    fn path(&self) -> (res: String)
        ensures
            res@ == self.spec_path(),
    ;
}

/// A route that takes a query string.
pub trait QueryRoute: Route {
    type Query;

    spec fn spec_query(&self) -> Self::Query;

    fn query(&self) -> (res: &Self::Query)
        ensures
            *res == self.spec_query(),
    ;
}

/// A route that sends a JSON body.
pub trait JsonBodyRoute: Route {
    type Body;

    spec fn spec_body(&self) -> Self::Body;

    fn body(&self) -> (res: &Self::Body)
        ensures
            *res == self.spec_body(),
    ;
}

/// `GET users/@me`.
#[derive(Clone, Copy, Debug, Default)]
pub struct GetCurrentUser;

impl Route for GetCurrentUser {
    type Response = User;

    open spec fn spec_path(&self) -> Seq<char> {
        "users/@me"@
    }

    fn path(&self) -> (res: String) {
        to_owned_string("users/@me")
    }
}

/// `GET gateway/bot`.
#[derive(Clone, Copy, Debug, Default)]
pub struct GetGatewayBot;

impl Route for GetGatewayBot {
    type Response = GatewayBotInfo;

    open spec fn spec_path(&self) -> Seq<char> {
        "gateway/bot"@
    }

    fn path(&self) -> (res: String) {
        to_owned_string("gateway/bot")
    }
}

/// `GET users/@me/guilds`.
#[derive(Clone, Debug)]
pub struct GetCurrentUserGuilds {
    pub query: GetCurrentUserGuildsQuery,
}

impl Default for GetCurrentUserGuilds {
    fn default() -> (res: Self)
        ensures
            res.query.before is None,
            res.query.after is None,
            res.query.limit is None,
            res.query.with_counts is None,
    {
        GetCurrentUserGuilds { query: GetCurrentUserGuildsQuery::default() }
    }
}

impl Route for GetCurrentUserGuilds {
    type Response = Vec<CurrentUserGuild>;

    open spec fn spec_path(&self) -> Seq<char> {
        "users/@me/guilds"@
    }

    fn path(&self) -> (res: String) {
        to_owned_string("users/@me/guilds")
    }
}

impl QueryRoute for GetCurrentUserGuilds {
    type Query = GetCurrentUserGuildsQuery;

    open spec fn spec_query(&self) -> GetCurrentUserGuildsQuery {
        self.query
    }

    fn query(&self) -> (res: &GetCurrentUserGuildsQuery) {
        &self.query
    }
}

/// `GET guilds/{guild_id}/channels`.
#[derive(Clone, Debug)]
pub struct GetGuildChannels {
    pub guild_id: Snowflake,
}

impl Route for GetGuildChannels {
    type Response = Vec<Channel>;

    open spec fn spec_path(&self) -> Seq<char> {
        "guilds/"@ + self.guild_id.0@ + "/channels"@
    }

    fn path(&self) -> (res: String) {
        concat3("guilds/", self.guild_id.0.as_str(), "/channels")
    }
}

/// `GET channels/{channel_id}/messages`.
#[derive(Clone, Debug)]
pub struct GetChannelMessages {
    pub channel_id: Snowflake,
    pub query: GetChannelMessagesQuery,
}

impl Route for GetChannelMessages {
    type Response = Vec<Message>;

    open spec fn spec_path(&self) -> Seq<char> {
        "channels/"@ + self.channel_id.0@ + "/messages"@
    }

    fn path(&self) -> (res: String) {
        concat3("channels/", self.channel_id.0.as_str(), "/messages")
    }
}

impl QueryRoute for GetChannelMessages {
    type Query = GetChannelMessagesQuery;

    open spec fn spec_query(&self) -> GetChannelMessagesQuery {
        self.query
    }

    fn query(&self) -> (res: &GetChannelMessagesQuery) {
        &self.query
    }
}

/// `POST channels/{channel_id}/messages`.
#[derive(Clone, Debug)]
pub struct CreateChannelMessage {
    pub channel_id: Snowflake,
    pub body: CreateMessageRequest,
}

impl Route for CreateChannelMessage {
    type Response = Message;

    open spec fn spec_path(&self) -> Seq<char> {
        "channels/"@ + self.channel_id.0@ + "/messages"@
    }

    fn path(&self) -> (res: String) {
        concat3("channels/", self.channel_id.0.as_str(), "/messages")
    }
}

impl JsonBodyRoute for CreateChannelMessage {
    type Body = CreateMessageRequest;

    open spec fn spec_body(&self) -> CreateMessageRequest {
        self.body
    }

    fn body(&self) -> (res: &CreateMessageRequest) {
        &self.body
    }
}

/// `PATCH channels/{channel_id}/messages/{message_id}`.
#[derive(Clone, Debug)]
pub struct EditChannelMessage {
    pub channel_id: Snowflake,
    pub message_id: Snowflake,
    pub body: EditMessageRequest,
}

impl Route for EditChannelMessage {
    type Response = Message;

    open spec fn spec_path(&self) -> Seq<char> {
        "channels/"@ + self.channel_id.0@ + "/messages/"@ + self.message_id.0@
    }

    fn path(&self) -> (res: String) {
        concat4("channels/", self.channel_id.0.as_str(), "/messages/", self.message_id.0.as_str())
    }
}

impl JsonBodyRoute for EditChannelMessage {
    type Body = EditMessageRequest;

    open spec fn spec_body(&self) -> EditMessageRequest {
        self.body
    }

    fn body(&self) -> (res: &EditMessageRequest) {
        &self.body
    }
}

/// `DELETE channels/{channel_id}/messages/{message_id}`.
#[derive(Clone, Debug)]
pub struct DeleteChannelMessage {
    pub channel_id: Snowflake,
    pub message_id: Snowflake,
}

impl Route for DeleteChannelMessage {
    type Response = ();

    open spec fn spec_path(&self) -> Seq<char> {
        "channels/"@ + self.channel_id.0@ + "/messages/"@ + self.message_id.0@
    }

    fn path(&self) -> (res: String) {
        concat4("channels/", self.channel_id.0.as_str(), "/messages/", self.message_id.0.as_str())
    }
}

/// A message's path is its channel's message-list path, then `/` and the message id.
pub proof fn law_message_path_extends_channel_path(channel_id: Snowflake, message_id: Snowflake, body: EditMessageRequest)
    ensures
        (EditChannelMessage { channel_id, message_id, body }).spec_path()
            == (GetChannelMessages {
                channel_id,
                query: GetChannelMessagesQuery { around: None, before: None, after: None, limit: None },
            }).spec_path() + "/"@ + message_id.0@,
        (EditChannelMessage { channel_id, message_id, body }).spec_path()
            == (DeleteChannelMessage { channel_id, message_id }).spec_path(),
{
    reveal_strlit("channels/");
    reveal_strlit("/messages");
    reveal_strlit("/messages/");
    reveal_strlit("/");
    assert(("channels/"@ + channel_id.0@ + "/messages/"@ + message_id.0@) =~= ("channels/"@
        + channel_id.0@ + "/messages"@ + "/"@ + message_id.0@));
}

} // verus!
