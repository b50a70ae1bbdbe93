//! What the HTTP layer decides: whether a caller is let in, and how the
//! outcome of a query is reported.

use vstd::prelude::*;
use crate::session::{McpResponse, QueryError};
use crate::text::{has_prefix, skip_chars, starts_with, str_eq};

verus! {

/// The bearer-token check: the expected key, and whether the check is on.
#[derive(Clone, Debug, PartialEq, Eq)]
pub struct AuthConfig {
    pub api_key: Option<String>,
    pub enabled: bool,
}

/// The body of the reply to a caller that was turned away.
#[derive(Clone, Debug, PartialEq, Eq)]
pub struct AuthError {
    pub error: String,
    pub message: String,
}

/// The status of the reply to a caller that was turned away.
pub const STATUS_UNAUTHORIZED: u16 = 401;

/// The status of the reply to a query that failed.
pub const STATUS_INTERNAL_SERVER_ERROR: u16 = 500;

/// Whether the flag that switches the check off is set: it is, when it
/// reads `true` and nothing else.
pub open spec fn flag_set(flag: Option<String>) -> bool {
    flag matches Some(f) && f@ == "true"@
}

/// The token that an `Authorization` header carries: what follows
/// `Bearer ` where the header starts with it.
pub open spec fn bearer_token(header: Seq<char>) -> Option<Seq<char>> {
    if starts_with(header, "Bearer "@) {
        Some(header.skip(7))
    } else {
        None
    }
}

/// Whether a caller with this `Authorization` header is let in.
pub open spec fn authorized(auth: AuthConfig, header: Option<String>) -> bool {
    !auth.enabled || (auth.api_key is Some && header is Some && bearer_token(header->0@) == Some(
        auth.api_key->0@,
    ))
}

impl AuthConfig {
    /// The check that the settings select: it is on when a key is
    /// configured and the flag that switches it off is not set.
    pub fn from_settings(api_key: Option<String>, disable_flag: &Option<String>) -> (c: AuthConfig)
        ensures
            c.api_key == api_key,
            c.enabled == (api_key is Some && !flag_set(*disable_flag)),
    {
        let disabled = match disable_flag {
            Some(f) => str_eq(f.as_str(), "true"),
            None => false,
        };
        let enabled = !disabled && api_key.is_some();
        AuthConfig { api_key, enabled }
    }
}

/// Extracts the token from an `Authorization` header.
pub fn token_of(header: &str) -> (r: Option<String>)
    ensures
        match r {
            Some(token) => bearer_token(header@) == Some(token@),
            None => bearer_token(header@) is None,
        },
{
    if has_prefix(header, "Bearer ") {
        proof {
            reveal_strlit("Bearer ");
        }
        Some(skip_chars(header, 7))
    } else {
        None
    }
}

/// Lets a caller in or turns it away. With the check off everyone is let
/// in; with it on, only a caller whose header carries the configured key
/// as a bearer token.
pub fn auth_middleware(auth: &AuthConfig, authorization: &Option<String>) -> (r: Result<
    (),
    (u16, AuthError),
>)
    ensures
        r is Ok <==> authorized(*auth, *authorization),
        r matches Err((status, body)) ==> {
            &&& status == STATUS_UNAUTHORIZED
            &&& body.error@ == "Unauthorized"@
            &&& body.message@ == "Invalid or missing API key"@
        },
{
    if !auth.enabled {
        return Ok(());
    }
    let provided = match authorization {
        Some(header) => token_of(header.as_str()),
        None => None,
    };
    let admitted = match (&auth.api_key, &provided) {
        (Some(expected), Some(token)) => str_eq(expected.as_str(), token.as_str()),
        _ => false,
    };
    if admitted {
        Ok(())
    } else {
        Err(
            (
                STATUS_UNAUTHORIZED,
                AuthError {
                    error: String::from_str("Unauthorized"),
                    message: String::from_str("Invalid or missing API key"),
                },
            ),
        )
    }
}

/// Reports the outcome of a query to the HTTP caller: the response on
/// success, and the same opaque server error for every failure.
pub fn handle_request(outcome: Result<McpResponse, QueryError>) -> (r: Result<McpResponse, u16>)
    ensures
        r == match outcome {
            Ok(response) => Ok::<McpResponse, u16>(response),
            Err(_) => Err(STATUS_INTERNAL_SERVER_ERROR),
        },
{
    match outcome {
        Ok(response) => Ok(response),
        Err(_) => Err(STATUS_INTERNAL_SERVER_ERROR),
    }
}

} // verus!
