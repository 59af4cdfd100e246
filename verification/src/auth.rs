//! Login tokens: the error type of token providers and the in-memory token slot.
use vstd::prelude::*;

use crate::text::{concat2, to_owned_string};

verus! {

/// Why a token could not be had.
#[derive(Debug, PartialEq, Eq)]
pub enum AuthError {
    /// No token is set.
    MissingToken,
    /// The provider failed, with its reason.
    Provider(String),
}

/// The message of an auth error.
pub open spec fn spec_auth_error_message(e: AuthError) -> Seq<char> {
    match e {
        AuthError::MissingToken => "token is missing"@,
        AuthError::Provider(m) => "auth provider failed: "@ + m@,
    }
}

impl AuthError {
    /// The message shown for this error.
    pub fn message(&self) -> (res: String)
        ensures
            res@ == spec_auth_error_message(*self),
    {
        match self {
            AuthError::MissingToken => to_owned_string("token is missing"),
            AuthError::Provider(m) => concat2("auth provider failed: ", m.as_str()),
        }
    }
}

/// A token held in memory: set, read back, cleared.
#[derive(Debug)]
pub struct MemoryTokenProvider {
    token: Option<String>,
}

impl View for MemoryTokenProvider {
    type V = Option<Seq<char>>;

    closed spec fn view(&self) -> Option<Seq<char>> {
        self.token.deep_view()
    }
}

impl Default for MemoryTokenProvider {
    fn default() -> (res: Self)
        ensures
            res@ is None,
    {
        MemoryTokenProvider { token: None }
    }
}

impl MemoryTokenProvider {
    /// A provider holding no token.
    pub fn new() -> (res: Self)
        ensures
            res@ is None,
    {
        MemoryTokenProvider { token: None }
    }

    /// A provider holding `token`.
    pub fn from_token(token: &str) -> (res: Self)
        ensures
            res@ == Some(token@),
    {
        MemoryTokenProvider { token: Some(to_owned_string(token)) }
    }

    /// The token held, if any.
    pub fn get_token(&self) -> (res: Option<String>)
        ensures
            res.deep_view() == self@,
    {
        match &self.token {
            Some(t) => Some(t.clone()),
            None => None,
        }
    }

    /// Holds `token` from now on.
    pub fn set_token(&mut self, token: String)
        ensures
            final(self)@ == Some(token@),
    {
        self.token = Some(token);
    }

    /// Holds no token from now on.
    pub fn clear_token(&mut self)
        ensures
            final(self)@ is None,
    {
        self.token = None;
    }

    /// The token held, or `MissingToken` when there is none.
    pub fn require_token(&self) -> (res: Result<String, AuthError>)
        ensures
            match self@ {
                Some(t) => res matches Ok(s) && s@ == t,
                None => res == Err::<String, AuthError>(AuthError::MissingToken),
            },
    {
        match &self.token {
            Some(t) => Ok(t.clone()),
            None => Err(AuthError::MissingToken),
        }
    }
}

} // verus!
