//! Discord REST payloads, the channel-type code table, and the typed routes.
use vstd::prelude::*;

use crate::json::{
    opt_str, optional_bool, optional_text, record_member, record_optional, record_shape,
    spec_opt_str, spec_optional_bool, spec_optional_text, spec_record_member, spec_record_optional,
    spec_record_shape,
};
use crate::text::to_owned_string;

verus! {

/// A Discord id, kept as the decimal text Discord sends.
#[derive(Clone, Debug, PartialEq, Eq, Hash)]
pub struct Snowflake(pub String);

impl From<String> for Snowflake {
    fn from(value: String) -> (res: Self)
        ensures
            res.0@ == value@,
    {
        Snowflake(value)
    }
}

impl vstd::std_specs::convert::FromSpecImpl<String> for Snowflake {
    open spec fn obeys_from_spec() -> bool {
        true
    }

    open spec fn from_spec(v: String) -> Snowflake {
        Snowflake(v)
    }
}

impl<'a> From<&'a str> for Snowflake {
    fn from(value: &'a str) -> (res: Self)
        ensures
            res.0@ == value@,
    {
        Snowflake(to_owned_string(value))
    }
}

/// A `String` cannot be built in specifications, so this conversion is not
/// declared to follow a spec function; `from` itself states its result.
impl<'a> vstd::std_specs::convert::FromSpecImpl<&'a str> for Snowflake {
    open spec fn obeys_from_spec() -> bool {
        false
    }

    open spec fn from_spec(v: &'a str) -> Snowflake {
        Snowflake(choose|s: String| s@ == v@)
    }
}

impl Snowflake {
    /// The id's text, as `Display` shows it.
    pub fn to_string(&self) -> (res: String)
        ensures
            res@ == self.0@,
    {
        self.0.clone()
    }
}

#[derive(Clone, Debug)]
pub struct User {
    pub id: Snowflake,
    pub username: String,
    pub global_name: Option<String>,
    pub avatar: Option<String>,
    pub bot: Option<bool>,
}

#[derive(Clone, Debug)]
pub struct Guild {
    pub id: Snowflake,
    pub name: String,
    pub icon: Option<String>,
    pub owner_id: Option<Snowflake>,
}

/// Discord's channel types, with `Unknown` keeping any code this client
/// does not name.
#[derive(Clone, Copy, Debug, PartialEq, Eq, Hash, Structural)]
pub enum ChannelType {
    GuildText,
    Dm,
    GuildVoice,
    GroupDm,
    GuildCategory,
    GuildAnnouncement,
    AnnouncementThread,
    PublicThread,
    PrivateThread,
    GuildStageVoice,
    GuildDirectory,
    GuildForum,
    GuildMedia,
    Unknown(u16),
}

/// The channel type a numeric code stands for.
pub open spec fn spec_channel_type_from_code(value: u16) -> ChannelType {
    if value == 0 {
        ChannelType::GuildText
    } else if value == 1 {
        ChannelType::Dm
    } else if value == 2 {
        ChannelType::GuildVoice
    } else if value == 3 {
        ChannelType::GroupDm
    } else if value == 4 {
        ChannelType::GuildCategory
    } else if value == 5 {
        ChannelType::GuildAnnouncement
    } else if value == 10 {
        ChannelType::AnnouncementThread
    } else if value == 11 {
        ChannelType::PublicThread
    } else if value == 12 {
        ChannelType::PrivateThread
    } else if value == 13 {
        ChannelType::GuildStageVoice
    } else if value == 14 {
        ChannelType::GuildDirectory
    } else if value == 15 {
        ChannelType::GuildForum
    } else if value == 16 {
        ChannelType::GuildMedia
    } else {
        ChannelType::Unknown(value)
    }
}

/// The numeric code of a channel type.
pub open spec fn spec_channel_type_code(value: ChannelType) -> u16 {
    match value {
        ChannelType::GuildText => 0,
        ChannelType::Dm => 1,
        ChannelType::GuildVoice => 2,
        ChannelType::GroupDm => 3,
        ChannelType::GuildCategory => 4,
        ChannelType::GuildAnnouncement => 5,
        ChannelType::AnnouncementThread => 10,
        ChannelType::PublicThread => 11,
        ChannelType::PrivateThread => 12,
        ChannelType::GuildStageVoice => 13,
        ChannelType::GuildDirectory => 14,
        ChannelType::GuildForum => 15,
        ChannelType::GuildMedia => 16,
        ChannelType::Unknown(other) => other,
    }
}

/// The codes that have a named channel type.
pub open spec fn spec_is_named_code(value: u16) -> bool {
    value <= 5 || (10 <= value && value <= 16)
}

impl From<u16> for ChannelType {
    fn from(value: u16) -> (res: Self)
        ensures
            res == spec_channel_type_from_code(value),
    {
        match value {
            0 => ChannelType::GuildText,
            1 => ChannelType::Dm,
            2 => ChannelType::GuildVoice,
            3 => ChannelType::GroupDm,
            4 => ChannelType::GuildCategory,
            5 => ChannelType::GuildAnnouncement,
            10 => ChannelType::AnnouncementThread,
            11 => ChannelType::PublicThread,
            12 => ChannelType::PrivateThread,
            13 => ChannelType::GuildStageVoice,
            14 => ChannelType::GuildDirectory,
            15 => ChannelType::GuildForum,
            16 => ChannelType::GuildMedia,
            other => ChannelType::Unknown(other),
        }
    }
}

impl vstd::std_specs::convert::FromSpecImpl<u16> for ChannelType {
    open spec fn obeys_from_spec() -> bool {
        true
    }

    open spec fn from_spec(v: u16) -> ChannelType {
        spec_channel_type_from_code(v)
    }
}

impl From<ChannelType> for u16 {
    fn from(value: ChannelType) -> (res: Self)
        ensures
            res == spec_channel_type_code(value),
    {
        match value {
            ChannelType::GuildText => 0,
            ChannelType::Dm => 1,
            ChannelType::GuildVoice => 2,
            ChannelType::GroupDm => 3,
            ChannelType::GuildCategory => 4,
            ChannelType::GuildAnnouncement => 5,
            ChannelType::AnnouncementThread => 10,
            ChannelType::PublicThread => 11,
            ChannelType::PrivateThread => 12,
            ChannelType::GuildStageVoice => 13,
            ChannelType::GuildDirectory => 14,
            ChannelType::GuildForum => 15,
            ChannelType::GuildMedia => 16,
            ChannelType::Unknown(other) => other,
        }
    }
}

impl vstd::std_specs::convert::FromSpecImpl<ChannelType> for u16 {
    open spec fn obeys_from_spec() -> bool {
        true
    }

    open spec fn from_spec(v: ChannelType) -> u16 {
        spec_channel_type_code(v)
    }
}

/// Every code survives decoding and re-encoding: `u16::from(ChannelType::from(v)) == v`.
pub proof fn law_channel_code_round_trips(value: u16)
    ensures
        spec_channel_type_code(spec_channel_type_from_code(value)) == value,
        spec_channel_type_from_code(value) is Unknown <==> !spec_is_named_code(value),
{
}

/// Each named channel type has Discord's fixed code, in both directions:
/// GuildText 0, Dm 1, GuildVoice 2, GroupDm 3, GuildCategory 4,
/// GuildAnnouncement 5, AnnouncementThread 10, PublicThread 11,
/// PrivateThread 12, GuildStageVoice 13, GuildDirectory 14, GuildForum 15,
/// GuildMedia 16; codes 6 to 9 and from 17 on have no name.
pub proof fn law_channel_type_codes(value: u16)
    ensures
        spec_channel_type_from_code(0) == ChannelType::GuildText && spec_channel_type_code(ChannelType::GuildText) == 0,
        spec_channel_type_from_code(1) == ChannelType::Dm && spec_channel_type_code(ChannelType::Dm) == 1,
        spec_channel_type_from_code(2) == ChannelType::GuildVoice && spec_channel_type_code(ChannelType::GuildVoice) == 2,
        spec_channel_type_from_code(3) == ChannelType::GroupDm && spec_channel_type_code(ChannelType::GroupDm) == 3,
        spec_channel_type_from_code(4) == ChannelType::GuildCategory
            && spec_channel_type_code(ChannelType::GuildCategory) == 4,
        spec_channel_type_from_code(5) == ChannelType::GuildAnnouncement
            && spec_channel_type_code(ChannelType::GuildAnnouncement) == 5,
        spec_channel_type_from_code(10) == ChannelType::AnnouncementThread
            && spec_channel_type_code(ChannelType::AnnouncementThread) == 10,
        spec_channel_type_from_code(11) == ChannelType::PublicThread
            && spec_channel_type_code(ChannelType::PublicThread) == 11,
        spec_channel_type_from_code(12) == ChannelType::PrivateThread
            && spec_channel_type_code(ChannelType::PrivateThread) == 12,
        spec_channel_type_from_code(13) == ChannelType::GuildStageVoice
            && spec_channel_type_code(ChannelType::GuildStageVoice) == 13,
        spec_channel_type_from_code(14) == ChannelType::GuildDirectory
            && spec_channel_type_code(ChannelType::GuildDirectory) == 14,
        spec_channel_type_from_code(15) == ChannelType::GuildForum
            && spec_channel_type_code(ChannelType::GuildForum) == 15,
        spec_channel_type_from_code(16) == ChannelType::GuildMedia
            && spec_channel_type_code(ChannelType::GuildMedia) == 16,
        (6 <= value <= 9 || 17 <= value) ==> spec_channel_type_from_code(value) == ChannelType::Unknown(value),
{
}

/// Every channel type survives encoding and decoding, except an `Unknown`
/// that carries a code which has a name (it decodes to that name).
pub proof fn law_channel_type_round_trips(value: ChannelType)
    requires
        !(value matches ChannelType::Unknown(code) && spec_is_named_code(code)),
    ensures
        spec_channel_type_from_code(spec_channel_type_code(value)) == value,
{
}

#[derive(Clone, Debug)]
pub struct Channel {
    pub id: Snowflake,
    pub guild_id: Option<Snowflake>,
    pub name: Option<String>,
    pub topic: Option<String>,
    /// The channel's `type` on the wire.
    pub kind: Option<ChannelType>,
}

#[derive(Clone, Debug)]
pub struct Message {
    pub id: Snowflake,
    pub channel_id: Snowflake,
    pub author: User,
    pub content: String,
    pub timestamp: String,
}

#[derive(Clone, Copy, Debug)]
pub struct SessionStartLimit {
    pub total: u32,
    pub remaining: u32,
    pub reset_after: u64,
    pub max_concurrency: u32,
}

#[derive(Clone, Debug)]
pub struct GatewayBotInfo {
    pub url: String,
    pub shards: u32,
    pub session_start_limit: SessionStartLimit,
}

#[derive(Clone, Debug)]
pub struct CurrentUserGuild {
    pub id: Snowflake,
    pub name: String,
    pub icon: Option<String>,
    pub banner: Option<String>,
    pub owner: bool,
    pub permissions: String,
    /// Empty when the payload has no `features`.
    pub features: Vec<String>,
    pub approximate_member_count: Option<u64>,
    pub approximate_presence_count: Option<u64>,
}

/// Paging for `GET /users/@me/guilds`; an unset field is left out of the query.
#[derive(Clone, Debug)]
pub struct GetCurrentUserGuildsQuery {
    pub before: Option<Snowflake>,
    pub after: Option<Snowflake>,
    pub limit: Option<u8>,
    pub with_counts: Option<bool>,
}

impl Default for GetCurrentUserGuildsQuery {
    fn default() -> (res: Self)
        ensures
            res.before is None,
            res.after is None,
            res.limit is None,
            res.with_counts is None,
    {
        GetCurrentUserGuildsQuery { before: None, after: None, limit: None, with_counts: None }
    }
}

/// Paging for `GET /channels/{id}/messages`; an unset field is left out of the query.
#[derive(Clone, Debug)]
pub struct GetChannelMessagesQuery {
    pub around: Option<Snowflake>,
    pub before: Option<Snowflake>,
    pub after: Option<Snowflake>,
    pub limit: Option<u8>,
}

impl Default for GetChannelMessagesQuery {
    fn default() -> (res: Self)
        ensures
            res.around is None,
            res.before is None,
            res.after is None,
            res.limit is None,
    {
        GetChannelMessagesQuery { around: None, before: None, after: None, limit: None }
    }
}

/// A kind of mention a message may ping (`roles`, `users`, `everyone` on the wire).
#[derive(Clone, Copy, Debug, PartialEq, Eq, Structural)]
pub enum AllowedMentionType {
    Roles,
    Users,
    Everyone,
}

/// Which mentions a message may ping; an empty `parse` is left out of the payload.
#[derive(Clone, Debug)]
pub struct AllowedMentions {
    pub parse: Vec<AllowedMentionType>,
    pub roles: Option<Vec<Snowflake>>,
    pub users: Option<Vec<Snowflake>>,
    pub replied_user: Option<bool>,
}

impl Default for AllowedMentions {
    fn default() -> (res: Self)
        ensures
            res.parse@.len() == 0,
            res.roles is None,
            res.users is None,
            res.replied_user is None,
    {
        AllowedMentions { parse: Vec::new(), roles: None, users: None, replied_user: None }
    }
}

/// The body of `POST /channels/{id}/messages`; unset fields are left out.
#[derive(Clone, Debug)]
pub struct CreateMessageRequest {
    pub content: Option<String>,
    pub tts: Option<bool>,
    pub nonce: Option<String>,
    pub allowed_mentions: Option<AllowedMentions>,
}

impl Default for CreateMessageRequest {
    fn default() -> (res: Self)
        ensures
            res.content is None,
            res.tts is None,
            res.nonce is None,
            res.allowed_mentions is None,
    {
        CreateMessageRequest { content: None, tts: None, nonce: None, allowed_mentions: None }
    }
}

/// The body of `PATCH /channels/{id}/messages/{id}`; unset fields are left out.
#[derive(Clone, Debug)]
pub struct EditMessageRequest {
    pub content: Option<String>,
    pub allowed_mentions: Option<AllowedMentions>,
}

impl Default for EditMessageRequest {
    fn default() -> (res: Self)
        ensures
            res.content is None,
            res.allowed_mentions is None,
    {
        EditMessageRequest { content: None, allowed_mentions: None }
    }
}

/// The JSON error body Discord answers a failed request with.
#[derive(Clone, Debug)]
pub struct ApiErrorBody {
    pub code: i64,
    pub message: String,
}

/// Errors of this crate's own checks.
#[derive(Debug, PartialEq, Eq, Structural)]
pub enum ApiTypeError {
    MissingToken,
}

impl ApiTypeError {
    /// The message shown for this error.
    pub fn message(&self) -> (res: String)
        ensures
            res@ == "missing required token"@,
    {
        to_owned_string("missing required token")
    }
}

// ---------------------------------------------------------------------------
// Reading payloads
// ---------------------------------------------------------------------------

pub struct UserView {
    pub id: Seq<char>,
    pub username: Seq<char>,
    pub global_name: Option<Seq<char>>,
    pub avatar: Option<Seq<char>>,
    pub bot: Option<bool>,
}

impl View for User {
    type V = UserView;

    open spec fn view(&self) -> UserView {
        UserView {
            id: self.id.0@,
            username: self.username@,
            global_name: self.global_name.deep_view(),
            avatar: self.avatar.deep_view(),
            bot: self.bot,
        }
    }
}

pub struct MessageView {
    pub id: Seq<char>,
    pub channel_id: Seq<char>,
    pub author: UserView,
    pub content: Seq<char>,
    pub timestamp: Seq<char>,
}

impl View for Message {
    type V = MessageView;

    open spec fn view(&self) -> MessageView {
        MessageView {
            id: self.id.0@,
            channel_id: self.channel_id.0@,
            author: self.author@,
            content: self.content@,
            timestamp: self.timestamp@,
        }
    }
}

/// A user read from JSON: `{id, username, global_name?, avatar?, bot?}`
/// (or those five in an array); optional members may be absent or null.
pub open spec fn spec_user_from_json(v: serde_json::Value) -> Option<UserView> {
    let id = spec_opt_str(spec_record_member(v, 0, "id"@));
    let username = spec_opt_str(spec_record_member(v, 1, "username"@));
    let global_name = spec_optional_text(spec_record_optional(v, 2, "global_name"@, false));
    let avatar = spec_optional_text(spec_record_optional(v, 3, "avatar"@, false));
    let bot = spec_optional_bool(spec_record_optional(v, 4, "bot"@, false));
    if spec_record_shape(v, 5) && id is Some && username is Some && global_name is Some && avatar is Some
        && bot is Some {
        Some(UserView {
            id: id->0,
            username: username->0,
            global_name: global_name->0,
            avatar: avatar->0,
            bot: bot->0,
        })
    } else {
        None
    }
}

/// Reads a user from JSON.
pub fn user_from_json(v: &serde_json::Value) -> (res: Option<User>)
    ensures
        match spec_user_from_json(*v) {
            Some(u) => res matches Some(user) && user@ == u,
            None => res is None,
        },
{
    if !record_shape(v, 5) {
        return None;
    }
    let id = match opt_str(&record_member(v, 0, "id")) {
        Some(t) => t,
        None => return None,
    };
    let username = match opt_str(&record_member(v, 1, "username")) {
        Some(t) => t,
        None => return None,
    };
    let global_name = match optional_text(&record_optional(v, 2, "global_name", false)) {
        Some(t) => t,
        None => return None,
    };
    let avatar = match optional_text(&record_optional(v, 3, "avatar", false)) {
        Some(t) => t,
        None => return None,
    };
    let bot = match optional_bool(&record_optional(v, 4, "bot", false)) {
        Some(b) => b,
        None => return None,
    };
    Some(User { id: Snowflake(id), username, global_name, avatar, bot })
}

/// A message read from JSON: `{id, channel_id, author, content, timestamp}`
/// (or those five in an array), the author being a user.
pub open spec fn spec_message_from_json(v: serde_json::Value) -> Option<MessageView> {
    let id = spec_opt_str(spec_record_member(v, 0, "id"@));
    let channel_id = spec_opt_str(spec_record_member(v, 1, "channel_id"@));
    let author = match spec_record_member(v, 2, "author"@) {
        Some(a) => spec_user_from_json(a),
        None => None,
    };
    let content = spec_opt_str(spec_record_member(v, 3, "content"@));
    let timestamp = spec_opt_str(spec_record_member(v, 4, "timestamp"@));
    if spec_record_shape(v, 5) && id is Some && channel_id is Some && author is Some && content is Some
        && timestamp is Some {
        Some(MessageView {
            id: id->0,
            channel_id: channel_id->0,
            author: author->0,
            content: content->0,
            timestamp: timestamp->0,
        })
    } else {
        None
    }
}

/// Reads a message from JSON.
pub fn message_from_json(v: &serde_json::Value) -> (res: Option<Message>)
    ensures
        match spec_message_from_json(*v) {
            Some(m) => res matches Some(msg) && msg@ == m,
            None => res is None,
        },
{
    if !record_shape(v, 5) {
        return None;
    }
    let id = match opt_str(&record_member(v, 0, "id")) {
        Some(t) => t,
        None => return None,
    };
    let channel_id = match opt_str(&record_member(v, 1, "channel_id")) {
        Some(t) => t,
        None => return None,
    };
    let author = match record_member(v, 2, "author") {
        Some(a) => match user_from_json(&a) {
            Some(u) => u,
            None => return None,
        },
        None => return None,
    };
    let content = match opt_str(&record_member(v, 3, "content")) {
        Some(t) => t,
        None => return None,
    };
    let timestamp = match opt_str(&record_member(v, 4, "timestamp")) {
        Some(t) => t,
        None => return None,
    };
    Some(Message { id: Snowflake(id), channel_id: Snowflake(channel_id), author, content, timestamp })
}

} // verus!
