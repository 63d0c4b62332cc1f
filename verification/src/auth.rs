//! The handshake: whether an upgrade request may become a connection.

use vstd::prelude::*;

verus! {

/// The HTTP status that answers a rejected upgrade.
pub const UNAUTHORIZED_STATUS: u16 = 401;

/// The query parameters of an upgrade request.
#[derive(Debug)]
pub struct WsQueryParams {
    /// The token the client presents, if any.
    pub token: Option<String>,
}

/// What becomes of an upgrade request.
#[derive(Clone, Copy, Debug, PartialEq, Eq, Structural)]
pub enum UpgradeDecision {
    /// The request becomes a connection.
    Proceed,
    /// The request is answered with the unauthorized status; nothing is
    /// allocated for it.
    Unauthorized,
}

/// Whether a presented token passes: any token does where none is
/// configured, otherwise only the configured one.
pub open spec fn token_accepted(configured: Option<Seq<char>>, token: Seq<char>) -> bool {
    match configured {
        Some(expected) => token == expected,
        None => true,
    }
}

/// Whether a request may be upgraded: always where no token is configured,
/// otherwise only where it presents the configured token.
pub open spec fn upgrade_allowed(
    configured: Option<Seq<char>>,
    presented: Option<Seq<char>>,
) -> bool {
    match configured {
        None => true,
        Some(expected) => presented == Some(expected),
    }
}

/// The characters of an optional string slice.
pub open spec fn optional_text(text: Option<&str>) -> Option<Seq<char>> {
    match text {
        Some(s) => Some(s@),
        None => None,
    }
}

/// The characters of an optional string.
pub open spec fn optional_string(text: Option<String>) -> Option<Seq<char>> {
    match text {
        Some(s) => Some(s@),
        None => None,
    }
}

/// Checks a presented token against the configured one.
pub fn validate_token(configured: Option<&str>, token: &str) -> (accepted: bool)
    ensures
        accepted == token_accepted(optional_text(configured), token@),
{
    match configured {
        Some(expected) => String::from_str(token) == String::from_str(expected),
        None => true,
    }
}

/// Decides an upgrade request before anything is allocated for it. With a
/// configured token, a request that presents another token or none is
/// rejected.
pub fn authorize_upgrade(configured: Option<&str>, params: &WsQueryParams) -> (decision:
    UpgradeDecision)
    ensures
        decision == if upgrade_allowed(optional_text(configured), optional_string(params.token)) {
            UpgradeDecision::Proceed
        } else {
            UpgradeDecision::Unauthorized
        },
{
    match configured {
        None => UpgradeDecision::Proceed,
        Some(_) => match &params.token {
            Some(token) => if validate_token(configured, token.as_str()) {
                UpgradeDecision::Proceed
            } else {
                UpgradeDecision::Unauthorized
            },
            None => UpgradeDecision::Unauthorized,
        },
    }
}

} // verus!
