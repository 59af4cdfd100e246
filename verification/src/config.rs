//! The service's start-up settings, from the values the environment gave.
use vstd::prelude::*;

use crate::service::{OAuthConfig, DEFAULT_GATEWAY_INTENTS};
use crate::text::{concat2, parse_u64, spec_parse_u64, spec_trim, to_owned_string, trim};
use crate::urls::{spec_url_parse, url_parse};

verus! {

/// The OAuth scope asked for when none is configured.
pub const DEFAULT_OAUTH_SCOPE: &'static str = "identify guilds";

/// The OAuth token endpoint used when none is configured.
pub const DEFAULT_OAUTH_TOKEN_URL: &'static str = "https://discord.com/api/oauth2/token";

/// The Discord API base URL used when none is configured.
pub const DEFAULT_API_BASE_URL: &'static str = "https://discord.com/api/v10";

/// The Discord API base URL: the default when unset, otherwise the URL
/// given, which must parse.
pub fn api_base_url_from(raw: Option<String>) -> (res: Result<url::Url, String>)
    ensures
        ({
            let text = match raw {
                Some(r) => r@,
                None => DEFAULT_API_BASE_URL@,
            };
            match spec_url_parse(text) {
                Ok(u) => res == Ok::<url::Url, String>(u),
                Err(_) => res matches Err(m) && m@ == "invalid DISCORD_API_BASE_URL: "@ + text,
            }
        }),
{
    let text = match raw {
        Some(r) => r,
        None => to_owned_string(DEFAULT_API_BASE_URL),
    };
    match url_parse(text.as_str()) {
        Ok(u) => Ok(u),
        Err(_) => Err(concat2("invalid DISCORD_API_BASE_URL: ", text.as_str())),
    }
}

/// The gateway intents: the default when unset, otherwise the decimal value given.
pub fn gateway_intents_from(raw: Option<&str>) -> (res: Result<u64, String>)
    ensures
        match raw {
            None => res == Ok::<u64, String>(DEFAULT_GATEWAY_INTENTS),
            Some(r) => match spec_parse_u64(r@) {
                Some(v) => res == Ok::<u64, String>(v),
                None => res matches Err(m) && m@ == "invalid OPENCORD_GATEWAY_INTENTS: "@ + r@,
            },
        },
{
    match raw {
        None => Ok(DEFAULT_GATEWAY_INTENTS),
        Some(r) => match parse_u64(r) {
            Some(v) => Ok(v),
            None => Err(concat2("invalid OPENCORD_GATEWAY_INTENTS: ", r)),
        },
    }
}

/// What the OAuth settings give: no OAuth when none is set; otherwise the
/// client id, authorize URL and redirect URI are required, both URLs must
/// parse, and the scope (by default `identify guilds`) must not be blank.
pub open spec fn spec_oauth_outcome(
    client_id: Option<Seq<char>>,
    authorize_url: Option<Seq<char>>,
    redirect_uri: Option<Seq<char>>,
    scope: Option<Seq<char>>,
) -> Result<Option<(Seq<char>, url::Url, url::Url, Seq<char>)>, Seq<char>> {
    if client_id is None && authorize_url is None && redirect_uri is None && scope is None {
        Ok(None)
    } else if client_id is None {
        Err("DISCORD_OAUTH_CLIENT_ID must be set when OAuth is configured"@)
    } else if authorize_url is None {
        Err("DISCORD_OAUTH_AUTHORIZE_URL must be set when OAuth is configured"@)
    } else if redirect_uri is None {
        Err("DISCORD_OAUTH_REDIRECT_URI must be set when OAuth is configured"@)
    } else if spec_url_parse(authorize_url->0) is Err {
        Err("invalid DISCORD_OAUTH_AUTHORIZE_URL: "@ + authorize_url->0)
    } else if spec_url_parse(redirect_uri->0) is Err {
        Err("invalid DISCORD_OAUTH_REDIRECT_URI: "@ + redirect_uri->0)
    } else {
        let s = match scope {
            Some(s) => s,
            None => DEFAULT_OAUTH_SCOPE@,
        };
        if spec_trim(s).len() == 0 {
            Err("DISCORD_OAUTH_SCOPE cannot be empty when OAuth is configured"@)
        } else {
            Ok(Some((client_id->0, spec_url_parse(authorize_url->0)->Ok_0, spec_url_parse(redirect_uri->0)->Ok_0, s)))
        }
    }
}

/// The views of optional texts.
pub open spec fn spec_opt_text(s: Option<String>) -> Option<Seq<char>> {
    match s {
        Some(t) => Some(t@),
        None => None,
    }
}

/// The OAuth configuration from the settings given.
pub fn oauth_config_from(
    client_id: Option<String>,
    authorize_url: Option<String>,
    redirect_uri: Option<String>,
    scope: Option<String>,
) -> (res: Result<Option<OAuthConfig>, String>)
    ensures
        match spec_oauth_outcome(spec_opt_text(client_id), spec_opt_text(authorize_url), spec_opt_text(redirect_uri), spec_opt_text(scope)) {
            Ok(None) => res matches Ok(None),
            Ok(Some((id, auth, redirect, sc))) => res matches Ok(Some(c)) && c.client_id@ == id && c.authorize_url == auth
                && c.redirect_uri == redirect && c.scope@ == sc,
            Err(m) => res matches Err(e) && e@ == m,
        },
{
    if client_id.is_none() && authorize_url.is_none() && redirect_uri.is_none() && scope.is_none() {
        return Ok(None);
    }
    let client_id = match client_id {
        Some(c) => c,
        None => return Err(to_owned_string("DISCORD_OAUTH_CLIENT_ID must be set when OAuth is configured")),
    };
    let authorize_raw = match authorize_url {
        Some(a) => a,
        None => return Err(to_owned_string("DISCORD_OAUTH_AUTHORIZE_URL must be set when OAuth is configured")),
    };
    let redirect_raw = match redirect_uri {
        Some(r) => r,
        None => return Err(to_owned_string("DISCORD_OAUTH_REDIRECT_URI must be set when OAuth is configured")),
    };
    let authorize_url = match url_parse(authorize_raw.as_str()) {
        Ok(u) => u,
        Err(_) => return Err(concat2("invalid DISCORD_OAUTH_AUTHORIZE_URL: ", authorize_raw.as_str())),
    };
    let redirect_uri = match url_parse(redirect_raw.as_str()) {
        Ok(u) => u,
        Err(_) => return Err(concat2("invalid DISCORD_OAUTH_REDIRECT_URI: ", redirect_raw.as_str())),
    };
    let scope = match scope {
        Some(s) => s,
        None => to_owned_string(DEFAULT_OAUTH_SCOPE),
    };
    if trim(scope.as_str()).unicode_len() == 0 {
        return Err(to_owned_string("DISCORD_OAUTH_SCOPE cannot be empty when OAuth is configured"));
    }
    Ok(Some(OAuthConfig { authorize_url, client_id, redirect_uri, scope }))
}

/// Which code exchanger the service uses.
#[derive(Debug)]
pub enum ExchangerChoice {
    /// OAuth is not (fully) configured: exchanges fail.
    Unsupported,
    /// Exchanges go to Discord's token endpoint with the client secret.
    Discord { token_url: url::Url, client_secret: String },
}

/// The exchanger: Discord's when OAuth is configured and a client secret is
/// set (the token URL defaulting to Discord's, and required to parse);
/// otherwise the unsupported one.
pub fn exchanger_from(oauth_configured: bool, client_secret: Option<String>, token_url: Option<String>) -> (res: Result<ExchangerChoice, String>)
    ensures
        (!oauth_configured || client_secret is None) ==> res matches Ok(ExchangerChoice::Unsupported),
        (oauth_configured && client_secret is Some) ==> ({
            let raw = match token_url {
                Some(t) => t@,
                None => DEFAULT_OAUTH_TOKEN_URL@,
            };
            match spec_url_parse(raw) {
                Ok(u) => res matches Ok(ExchangerChoice::Discord { token_url: t, client_secret: s }) && t == u
                    && s@ == client_secret->0@,
                Err(_) => res matches Err(m) && m@ == "invalid DISCORD_OAUTH_TOKEN_URL: "@ + raw,
            }
        }),
{
    if !oauth_configured {
        return Ok(ExchangerChoice::Unsupported);
    }
    let client_secret = match client_secret {
        Some(s) => s,
        None => return Ok(ExchangerChoice::Unsupported),
    };
    let raw = match token_url {
        Some(t) => t,
        None => to_owned_string(DEFAULT_OAUTH_TOKEN_URL),
    };
    match url_parse(raw.as_str()) {
        Ok(token_url) => Ok(ExchangerChoice::Discord { token_url, client_secret }),
        Err(_) => Err(concat2("invalid DISCORD_OAUTH_TOKEN_URL: ", raw.as_str())),
    }
}

} // verus!
