use opencord::api_types::{
    message_from_json, user_from_json, AllowedMentionType, AllowedMentions, ApiTypeError,
    ChannelType, CreateMessageRequest, EditMessageRequest, GetChannelMessagesQuery,
    GetCurrentUserGuildsQuery, Snowflake,
};
use opencord::routes::{
    CreateChannelMessage, DeleteChannelMessage, EditChannelMessage, GetChannelMessages,
    GetCurrentUser, GetCurrentUserGuilds, GetGatewayBot, GetGuildChannels, JsonBodyRoute,
    QueryRoute, Route,
};

#[test]
fn channel_type_roundtrips_numeric_values() {
    let values = [0_u16, 1, 2, 3, 4, 5, 10, 11, 12, 13, 14, 15, 16, 42];

    for value in values {
        let parsed = ChannelType::from(value);
        let encoded: u16 = parsed.into();
        assert_eq!(encoded, value);
    }
}

#[test]
fn discord_routes_have_expected_paths() {
    let get_current_user = GetCurrentUser;
    assert_eq!(get_current_user.path(), "users/@me");

    let get_gateway_bot = GetGatewayBot;
    assert_eq!(get_gateway_bot.path(), "gateway/bot");

    let get_current_user_guilds = GetCurrentUserGuilds {
        query: GetCurrentUserGuildsQuery::default(),
    };
    assert_eq!(get_current_user_guilds.path(), "users/@me/guilds");
    let _: &GetCurrentUserGuildsQuery = get_current_user_guilds.query();

    let get_guild_channels = GetGuildChannels {
        guild_id: Snowflake::from("123"),
    };
    assert_eq!(get_guild_channels.path(), "guilds/123/channels");

    let get_channel_messages = GetChannelMessages {
        channel_id: Snowflake::from("456"),
        query: GetChannelMessagesQuery::default(),
    };
    assert_eq!(get_channel_messages.path(), "channels/456/messages");
    let _: &GetChannelMessagesQuery = get_channel_messages.query();

    let create_channel_message = CreateChannelMessage {
        channel_id: Snowflake::from("789"),
        body: CreateMessageRequest::default(),
    };
    assert_eq!(create_channel_message.path(), "channels/789/messages");
    let _: &CreateMessageRequest = create_channel_message.body();

    let edit_channel_message = EditChannelMessage {
        channel_id: Snowflake::from("789"),
        message_id: Snowflake::from("999"),
        body: EditMessageRequest::default(),
    };
    assert_eq!(edit_channel_message.path(), "channels/789/messages/999");
    let _: &EditMessageRequest = edit_channel_message.body();

    let delete_channel_message = DeleteChannelMessage {
        channel_id: Snowflake::from("789"),
        message_id: Snowflake::from("999"),
    };
    assert_eq!(delete_channel_message.path(), "channels/789/messages/999");
}

#[test]
fn api_types_public_api_lock() {
    let _snowflake = Snowflake::from("123");

    let _ = ChannelType::from(0_u16);
    let _: u16 = ChannelType::GuildText.into();

    let _mentions = AllowedMentions {
        parse: vec![AllowedMentionType::Everyone],
        ..Default::default()
    };

    let get_current_user = GetCurrentUser;
    let _ = get_current_user.path();

    let get_gateway_bot = GetGatewayBot;
    let _ = get_gateway_bot.path();

    let get_current_user_guilds = GetCurrentUserGuilds {
        query: GetCurrentUserGuildsQuery::default(),
    };
    let _: &GetCurrentUserGuildsQuery = get_current_user_guilds.query();
    let _ = get_current_user_guilds.path();

    let get_guild_channels = GetGuildChannels {
        guild_id: Snowflake::from("1"),
    };
    let _ = get_guild_channels.path();

    let get_channel_messages = GetChannelMessages {
        channel_id: Snowflake::from("2"),
        query: GetChannelMessagesQuery::default(),
    };
    let _: &GetChannelMessagesQuery = get_channel_messages.query();
    let _ = get_channel_messages.path();

    let create_channel_message = CreateChannelMessage {
        channel_id: Snowflake::from("3"),
        body: CreateMessageRequest::default(),
    };
    let _: &CreateMessageRequest = create_channel_message.body();
    let _ = create_channel_message.path();
}

#[test]
fn known_channel_types_decode_to_their_names() {
    assert_eq!(ChannelType::from(0_u16), ChannelType::GuildText);
    assert_eq!(ChannelType::from(2_u16), ChannelType::GuildVoice);
    assert_eq!(ChannelType::from(15_u16), ChannelType::GuildForum);
    assert_eq!(ChannelType::from(6_u16), ChannelType::Unknown(6));
    let named: u16 = ChannelType::GuildMedia.into();
    assert_eq!(named, 16);
    let unknown: u16 = ChannelType::Unknown(999).into();
    assert_eq!(unknown, 999);
}

#[test]
fn snowflake_text_round_trips() {
    let id = Snowflake::from("80351110224678912".to_owned());
    assert_eq!(id.to_string(), "80351110224678912");
    assert_eq!(id, Snowflake::from("80351110224678912"));
}

#[test]
fn api_type_error_message() {
    assert_eq!(ApiTypeError::MissingToken.message(), "missing required token");
}

#[test]
fn user_and_message_payloads_read() {
    let user: serde_json::Value = serde_json::from_str(
        r#"{"id":"80351110224678912","username":"Nelly","global_name":"Nelly","avatar":"8342729096ea3675442027381ff50dfe","bot":false,"extra":1}"#,
    )
    .unwrap();
    let user = user_from_json(&user).expect("user fixture should parse");
    assert_eq!(user.id, Snowflake::from("80351110224678912"));
    assert_eq!(user.username, "Nelly");
    assert_eq!(user.global_name.as_deref(), Some("Nelly"));
    assert_eq!(user.avatar.as_deref(), Some("8342729096ea3675442027381ff50dfe"));
    assert_eq!(user.bot, Some(false));

    let message: serde_json::Value = serde_json::from_str(
        r#"{"id":"111","channel_id":"123","author":{"id":"1","username":"a","global_name":null},"content":"hello from fixture","timestamp":"2024-07-01T12:34:56.789000+00:00"}"#,
    )
    .unwrap();
    let message = message_from_json(&message).expect("message should parse");
    assert_eq!(message.id.0, "111");
    assert_eq!(message.channel_id.0, "123");
    assert_eq!(message.author.global_name, None);
    assert_eq!(message.author.avatar, None);
    assert_eq!(message.content, "hello from fixture");

    let bad: serde_json::Value = serde_json::from_str(r#"{"id":"1","username":5}"#).unwrap();
    assert!(user_from_json(&bad).is_none());
}
