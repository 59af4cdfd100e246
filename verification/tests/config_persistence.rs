use opencord::config::{
    api_base_url_from, exchanger_from, gateway_intents_from, oauth_config_from, ExchangerChoice, DEFAULT_OAUTH_SCOPE,
};
use opencord::persistence::{
    create_index_sql, create_table_sql, delete_value_sql, select_value_sql,
    storage_error_from_driver, upsert_value_sql, validate_namespace, PgStoreError,
    DEFAULT_TABLE_NAME,
};
use opencord::service::DEFAULT_GATEWAY_INTENTS;
use opencord::storage::StorageError;

fn some(s: &str) -> Option<String> {
    Some(s.to_owned())
}

#[test]
fn intents_default_and_parse() {
    assert_eq!(gateway_intents_from(None), Ok(DEFAULT_GATEWAY_INTENTS));
    assert_eq!(DEFAULT_GATEWAY_INTENTS, 641);
    assert_eq!(gateway_intents_from(Some("513")), Ok(513));
    assert_eq!(
        gateway_intents_from(Some("lots")),
        Err("invalid OPENCORD_GATEWAY_INTENTS: lots".to_owned())
    );
    assert!(gateway_intents_from(Some("")).is_err());
    assert!(gateway_intents_from(Some("18446744073709551616")).is_err());
}

#[test]
fn oauth_settings_absent_mean_no_oauth() {
    assert!(matches!(oauth_config_from(None, None, None, None), Ok(None)));
}

#[test]
fn oauth_settings_complete_give_config_with_default_scope() {
    let config = oauth_config_from(
        some("client-1"),
        some("https://discord.com/oauth2/authorize"),
        some("https://app.example/callback"),
        None,
    )
    .unwrap()
    .unwrap();
    assert_eq!(config.client_id, "client-1");
    assert_eq!(config.scope, DEFAULT_OAUTH_SCOPE);
    assert_eq!(config.authorize_url.as_str(), "https://discord.com/oauth2/authorize");
    assert_eq!(config.redirect_uri.as_str(), "https://app.example/callback");
}

#[test]
fn oauth_settings_partial_or_invalid_are_refused() {
    assert_eq!(
        oauth_config_from(None, some("https://a.example/"), None, None).unwrap_err(),
        "DISCORD_OAUTH_CLIENT_ID must be set when OAuth is configured"
    );
    assert_eq!(
        oauth_config_from(some("id"), None, some("https://r.example/"), None).unwrap_err(),
        "DISCORD_OAUTH_AUTHORIZE_URL must be set when OAuth is configured"
    );
    assert_eq!(
        oauth_config_from(some("id"), some("https://a.example/"), None, None).unwrap_err(),
        "DISCORD_OAUTH_REDIRECT_URI must be set when OAuth is configured"
    );
    assert_eq!(
        oauth_config_from(some("id"), some("not a url"), some("https://r.example/"), None)
            .unwrap_err(),
        "invalid DISCORD_OAUTH_AUTHORIZE_URL: not a url"
    );
    assert_eq!(
        oauth_config_from(some("id"), some("https://a.example/"), some("nope"), None).unwrap_err(),
        "invalid DISCORD_OAUTH_REDIRECT_URI: nope"
    );
    assert_eq!(
        oauth_config_from(
            some("id"),
            some("https://a.example/"),
            some("https://r.example/"),
            some("   ")
        )
        .unwrap_err(),
        "DISCORD_OAUTH_SCOPE cannot be empty when OAuth is configured"
    );
}

#[test]
fn exchanger_needs_oauth_and_secret() {
    assert!(matches!(exchanger_from(false, some("s"), None), Ok(ExchangerChoice::Unsupported)));
    assert!(matches!(exchanger_from(true, None, None), Ok(ExchangerChoice::Unsupported)));
    match exchanger_from(true, some("secret"), None) {
        Ok(ExchangerChoice::Discord { token_url, client_secret }) => {
            assert_eq!(token_url.as_str(), "https://discord.com/api/oauth2/token");
            assert_eq!(client_secret, "secret");
        }
        other => panic!("unexpected exchanger: {other:?}"),
    }
    match exchanger_from(true, some("secret"), some("https://tokens.example/t")) {
        Ok(ExchangerChoice::Discord { token_url, .. }) => {
            assert_eq!(token_url.as_str(), "https://tokens.example/t");
        }
        other => panic!("unexpected exchanger: {other:?}"),
    }
    assert_eq!(
        exchanger_from(true, some("secret"), some("::")).unwrap_err(),
        "invalid DISCORD_OAUTH_TOKEN_URL: ::"
    );
}

#[test]
fn namespaces_must_not_be_blank() {
    assert_eq!(validate_namespace("tenant-a"), Ok(()));
    assert_eq!(validate_namespace(""), Err(PgStoreError::EmptyNamespace));
    assert_eq!(validate_namespace(" \t "), Err(PgStoreError::EmptyNamespace));
    assert_eq!(PgStoreError::EmptyNamespace.message(), "namespace cannot be empty");
    assert_eq!(PgStoreError::Sqlx("boom".to_owned()).message(), "boom");
}

#[test]
fn driver_failures_become_backend_errors() {
    assert_eq!(
        storage_error_from_driver("connection refused"),
        StorageError::Backend("postgres key-value store error: connection refused".to_owned())
    );
}

#[test]
fn sql_statements_name_the_table() {
    assert_eq!(DEFAULT_TABLE_NAME, "opencord_kv_store");
    assert_eq!(
        select_value_sql("kv"),
        "SELECT value FROM kv WHERE namespace = $1 AND key = $2"
    );
    assert_eq!(delete_value_sql("kv"), "DELETE FROM kv WHERE namespace = $1 AND key = $2");
    assert_eq!(
        create_index_sql("kv"),
        "CREATE INDEX IF NOT EXISTS kv_updated_at_idx ON kv (updated_at)"
    );
    assert!(create_table_sql("kv").starts_with("CREATE TABLE IF NOT EXISTS kv ("));
    assert!(create_table_sql("kv").ends_with("PRIMARY KEY(namespace, key))"));
    assert!(upsert_value_sql("kv").starts_with("INSERT INTO kv (namespace, key, value, updated_at)"));
    assert!(upsert_value_sql("kv").contains("ON CONFLICT(namespace, key) DO UPDATE"));
}

#[test]
fn api_base_url_defaults_and_must_parse() {
    assert_eq!(api_base_url_from(None).unwrap().as_str(), "https://discord.com/api/v10");
    assert_eq!(api_base_url_from(some("http://127.0.0.1:9/api")).unwrap().as_str(), "http://127.0.0.1:9/api");
    assert_eq!(api_base_url_from(some("nope")).unwrap_err(), "invalid DISCORD_API_BASE_URL: nope");
}
