use moonboard::client::{MoonboardAPI, TokenAction};
use moonboard::datetime::Timestamp;
use moonboard::err::ApiError;
use moonboard::token::{
    client_id_value, grant_type_value, ClientId, GrantType, LoginOutcome, Role, Token, TokenType,
};

fn token_expiring_at(secs: i64) -> Token {
    Token {
        expires: Timestamp { secs, nanos: 0 },
        issued: Timestamp { secs: secs - 3600, nanos: 0 },
        agree_terms: true,
        firstname: "Jane".to_string(),
        lastname: "Doe".to_string(),
        is_commercial: false,
        nickname: "jd".to_string(),
        role: Role::User,
        user_id: "00000000-0000-0000-0000-000000000000".to_string(),
        access_token: "token-abc".to_string(),
        as_client_id: ClientId::Moonclimbing,
        expires_in_secs: 3600,
        refresh_token: "refresh-xyz".to_string(),
        token_type: TokenType::Bearer,
        username: "jane".to_string(),
    }
}

#[test]
fn login_fills_the_slot() {
    let mut api = MoonboardAPI::new("jane".to_string(), "pw".to_string());
    let now = Timestamp { secs: 500, nanos: 0 };
    assert!(matches!(api.token_action(&now), TokenAction::Login));
    assert!(api.apply_login(LoginOutcome::Granted(token_expiring_at(1000))).is_ok());
    match api.token_action(&now) {
        TokenAction::Use { access_token } => assert_eq!(access_token, "token-abc"),
        _ => panic!("expected the cached token to be used"),
    }
}

#[test]
fn cached_token_reused_before_expiry() {
    // Asking again before expiry performs no further login: both
    // decisions hand out the cached credential.
    let mut api = MoonboardAPI::new("jane".to_string(), "pw".to_string());
    api.apply_login(LoginOutcome::Granted(token_expiring_at(1000))).unwrap();
    let now = Timestamp { secs: 500, nanos: 0 };
    let mut logins = 0;
    for _ in 0..2 {
        match api.token_action(&now) {
            TokenAction::Use { access_token } => {
                assert_eq!(access_token, "token-abc")
            },
            TokenAction::Login => logins += 1,
            TokenAction::Refresh { .. } => panic!("no refresh is due before expiry"),
        }
    }
    assert_eq!(logins, 0);
}

#[test]
fn expiry_is_strict() {
    let mut api = MoonboardAPI::new("jane".to_string(), "pw".to_string());
    api.apply_login(LoginOutcome::Granted(token_expiring_at(1000))).unwrap();
    // At the expiry instant itself the token still counts as valid.
    assert!(matches!(
        api.token_action(&Timestamp { secs: 1000, nanos: 0 }),
        TokenAction::Use { .. }
    ));
    // One nanosecond past it, a refresh is due.
    match api.token_action(&Timestamp { secs: 1000, nanos: 1 }) {
        TokenAction::Refresh { refresh_token } => {
            assert_eq!(refresh_token, "refresh-xyz")
        },
        _ => panic!("expected a refresh decision after expiry"),
    }
}

#[test]
fn invalid_grant_surfaces_description() {
    // The error record of the token endpoint becomes an authentication
    // failure carrying the server's wording.
    let mut api = MoonboardAPI::new("jane".to_string(), "wrong".to_string());
    let r = api.apply_login(LoginOutcome::InvalidGrant {
        error_description: "bad password".to_string(),
    });
    let err = r.unwrap_err();
    assert_eq!(err, ApiError::Auth { description: "bad password".to_string() });
    let message = err.message();
    assert!(message.contains("bad password"));
    assert_eq!(message, "Token error: invalid_grant: bad password");
    // The failed login leaves the slot empty: the next decision is still
    // a login.
    assert!(matches!(
        api.token_action(&Timestamp { secs: 0, nanos: 0 }),
        TokenAction::Login
    ));
}

#[test]
fn refresh_fails_loudly() {
    let mut api = MoonboardAPI::new("jane".to_string(), "pw".to_string());
    api.apply_login(LoginOutcome::Granted(token_expiring_at(1000))).unwrap();
    let r = api.refresh();
    assert_eq!(r.unwrap_err(), ApiError::RefreshUnsupported);
}

#[test]
fn login_request_carries_fixed_grant() {
    let api = MoonboardAPI::new("jane".to_string(), "pw".to_string());
    let req = api.login_request();
    assert_eq!(req.username, "jane");
    assert_eq!(req.password, "pw");
    assert_eq!(grant_type_value(&req.grant_type), "password");
    assert_eq!(client_id_value(&req.client_id), "com.moonclimbing.mb");
    assert!(matches!(req.grant_type, GrantType::Password));
    assert!(matches!(req.client_id, ClientId::Moonclimbing));
}
