//! The ingestion client: credentials, the cached bearer token, and the
//! decisions of the token lifecycle. The store never hands out a mutable
//! token; callers receive a cloned access credential per request. The
//! caller that drives the network performs one decision at a time, so at
//! most one login is in flight.

use vstd::prelude::*;
use crate::datetime::Timestamp;
use crate::err::ApiError;
use crate::token::{ClientId, GrantType, LoginOutcome, LoginRequest, Token};

verus! {

/// What a request path must do to obtain a bearer credential: use the
/// cached one, perform the initial login first, or exchange the refresh
/// credential first.
pub enum TokenAction {
    Use { access_token: String },
    Login,
    Refresh { refresh_token: String },
}

/// The ingestion client: immutable credentials supplied once, and the
/// token slot they fill on demand.
pub struct MoonboardAPI {
    pub username: String,
    pub password: String,
    pub token: Option<Token>,
}

impl MoonboardAPI {
    /// A client with no token yet; the first data request triggers the
    /// initial login.
    pub fn new(username: String, password: String) -> (api: MoonboardAPI)
        ensures
            api.username == username,
            api.password == password,
            api.token is None,
    {
        MoonboardAPI { username, password, token: None }
    }

    /// The token decision at a given instant: login when the slot is
    /// empty, refresh when the cached token has expired, otherwise use it.
    pub open spec fn token_action_spec(&self, now: Timestamp) -> TokenAction {
        match self.token {
            None => TokenAction::Login,
            Some(t) => if t.is_expired_spec(now) {
                TokenAction::Refresh { refresh_token: t.refresh_token }
            } else {
                TokenAction::Use { access_token: t.access_token }
            },
        }
    }

    /// Decides how the next request obtains its bearer credential.
    pub fn token_action(&self, now: &Timestamp) -> (a: TokenAction)
        ensures
            match (a, self.token_action_spec(*now)) {
                (TokenAction::Login, TokenAction::Login) => true,
                (
                    TokenAction::Use { access_token: e },
                    TokenAction::Use { access_token: s },
                ) => e@ == s@,
                (
                    TokenAction::Refresh { refresh_token: e },
                    TokenAction::Refresh { refresh_token: s },
                ) => e@ == s@,
                _ => false,
            },
    {
        match &self.token {
            None => TokenAction::Login,
            Some(t) => {
                if t.is_expired(now) {
                    TokenAction::Refresh { refresh_token: t.refresh_token.clone() }
                } else {
                    TokenAction::Use { access_token: t.access_token.clone() }
                }
            },
        }
    }

    /// The form body of the initial login: the stored credentials under a
    /// password grant with the fixed client identifier.
    pub fn login_request(&self) -> (r: LoginRequest)
        ensures
            r.username@ == self.username@,
            r.password@ == self.password@,
            r.grant_type == GrantType::Password,
            r.client_id == ClientId::Moonclimbing,
    {
        LoginRequest {
            username: self.username.clone(),
            password: self.password.clone(),
            grant_type: GrantType::Password,
            client_id: ClientId::Moonclimbing,
        }
    }

    /// Applies what the login endpoint answered: a granted token fills the
    /// slot; the recognized error record leaves the slot alone and surfaces
    /// as an authentication failure carrying the server's description.
    pub fn apply_login(&mut self, outcome: LoginOutcome) -> (r: Result<(), ApiError>)
        ensures
            final(self).username == old(self).username,
            final(self).password == old(self).password,
            match outcome {
                LoginOutcome::Granted(t) => r is Ok && final(self).token == Some(t),
                LoginOutcome::InvalidGrant { error_description } => (match r {
                    Err(ApiError::Auth { description }) => description == error_description,
                    _ => false,
                }) && final(self).token == old(self).token,
            },
    {
        match outcome {
            LoginOutcome::Granted(t) => {
                self.token = Some(t);
                Ok(())
            },
            LoginOutcome::InvalidGrant { error_description } => Err(
                ApiError::Auth { description: error_description },
            ),
        }
    }

    /// The refresh path. Exchanging the refresh credential for a new token
    /// is deliberately not implemented: rather than silently falling back
    /// to a fresh login, the operation fails loudly until a true refresh
    /// exists, and the client is left unchanged.
    pub fn refresh(&mut self) -> (r: Result<(), ApiError>)
        ensures
            *final(self) == *old(self),
            r == Err::<(), ApiError>(ApiError::RefreshUnsupported),
    {
        Err(ApiError::RefreshUnsupported)
    }
}

/// Requesting a credential again before the cached token expires decides
/// to reuse it: no further login is issued by a driver that follows the
/// decision.
pub proof fn lemma_cached_token_reused(api: MoonboardAPI, now: Timestamp)
    requires
        api.token is Some,
        !api.token.unwrap().is_expired_spec(now),
    ensures
        api.token_action_spec(now) == (TokenAction::Use {
            access_token: api.token.unwrap().access_token,
        }),
        !(api.token_action_spec(now) is Login),
        !(api.token_action_spec(now) is Refresh),
{
}

} // verus!
