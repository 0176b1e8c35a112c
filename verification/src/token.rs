//! The bearer token and the shapes of the login exchange. The token is
//! created by a first successful login, replaced (never mutated) on
//! refresh, and considered invalid once the current time passes its
//! expiry instant.

use vstd::prelude::*;
use crate::datetime::Timestamp;

verus! {

/// The one client identifier the service accepts.
#[derive(PartialEq, Eq, Structural, Clone, Copy, Debug)]
pub enum ClientId {
    Moonclimbing,
}

/// The wire value of a client identifier.
pub fn client_id_value(c: &ClientId) -> (s: &'static str)
    ensures
        s@ == "com.moonclimbing.mb"@,
{
    match c {
        ClientId::Moonclimbing => "com.moonclimbing.mb",
    }
}

/// The one grant kind the login uses.
#[derive(PartialEq, Eq, Structural, Clone, Copy, Debug)]
pub enum GrantType {
    Password,
}

/// The wire value of a grant kind.
pub fn grant_type_value(g: &GrantType) -> (s: &'static str)
    ensures
        s@ == "password"@,
{
    match g {
        GrantType::Password => "password",
    }
}

/// The one account role the service reports.
#[derive(PartialEq, Eq, Structural, Clone, Copy, Debug)]
pub enum Role {
    User,
}

/// The one token kind the service issues.
#[derive(PartialEq, Eq, Structural, Clone, Copy, Debug)]
pub enum TokenType {
    Bearer,
}

/// A bearer token with the account metadata returned alongside it.
#[derive(Clone, Debug)]
pub struct Token {
    pub expires: Timestamp,
    pub issued: Timestamp,
    pub agree_terms: bool,
    pub firstname: String,
    pub lastname: String,
    pub is_commercial: bool,
    pub nickname: String,
    pub role: Role,
    pub user_id: String,
    pub access_token: String,
    pub as_client_id: ClientId,
    pub expires_in_secs: u64,
    pub refresh_token: String,
    pub token_type: TokenType,
    pub username: String,
}

impl Token {
    /// Whether the token is no longer valid at the given instant.
    pub open spec fn is_expired_spec(&self, now: Timestamp) -> bool {
        now.after_spec(self.expires)
    }

    /// Whether the token is no longer valid at the given instant.
    pub fn is_expired(&self, now: &Timestamp) -> (r: bool)
        ensures
            r == self.is_expired_spec(*now),
    {
        now.is_after(&self.expires)
    }
}

/// The form-encoded body of a password-grant login request.
pub struct LoginRequest {
    pub username: String,
    pub password: String,
    pub grant_type: GrantType,
    pub client_id: ClientId,
}

/// What a login response decoded into: either a token record or the
/// recognized error record. A body that is neither is a decode failure,
/// handled before this type is built.
pub enum LoginOutcome {
    Granted(Token),
    InvalidGrant { error_description: String },
}

} // verus!
