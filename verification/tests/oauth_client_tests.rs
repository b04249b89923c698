use doken::args::{Arguments, Grant, TokenType};
use doken::callback::{AntiForgeryToken, ResponseMode};
use doken::oauth_client::{
    can_be_endpoint, fresh_state, AuthorizationRequestSpec, ClientError, Endpoints, OAuthClient,
};

fn arguments(grant: Grant) -> Arguments {
    Arguments {
        grant,
        token_url: Some("https://auth.example.com/token".to_string()),
        authorization_url: Some("https://auth.example.com/authorize".to_string()),
        discovery_url: None,
        client_id: "my-client".to_string(),
        port: 8081,
        client_secret: None,
        client_secret_stdin: false,
        username: None,
        password: None,
        password_stdin: false,
        scope: "offline_access".to_string(),
        audience: None,
        force: false,
        debug: false,
        token_type: TokenType::AccessToken,
        timeout: 30_000,
    }
}

fn token(secret: &str) -> AntiForgeryToken {
    AntiForgeryToken::new(secret.to_string())
}

fn error_of(args: &Arguments, discovered: Option<Endpoints>) -> Option<ClientError> {
    OAuthClient::new(args, discovered).err()
}

#[test]
fn code_flow_url_carries_the_standard_parameters() {
    let args = arguments(Grant::AuthorizationCode);
    let client = OAuthClient::new(&args, None).ok().unwrap();
    let (url, state) = client.authorize_url_with_state(None, token("S-1")).unwrap();
    assert_eq!(state, token("S-1"));
    assert_eq!(
        url,
        "https://auth.example.com/authorize?response_type=code&client_id=my-client&state=S-1&redirect_uri=http%3A%2F%2Flocalhost%3A8081&scope=offline_access"
    );
}

#[test]
fn audience_is_an_extra_parameter() {
    let mut args = arguments(Grant::AuthorizationCode);
    args.audience = Some("https://api.example.com".to_string());
    args.scope = "openid profile".to_string();
    let client = OAuthClient::new(&args, None).ok().unwrap();
    let (url, _) = client.authorize_url_with_state(None, token("S")).unwrap();
    assert_eq!(
        url,
        "https://auth.example.com/authorize?response_type=code&client_id=my-client&state=S&redirect_uri=http%3A%2F%2Flocalhost%3A8081&scope=openid+profile&audience=https%3A%2F%2Fapi.example.com"
    );
}

#[test]
fn pkce_flow_url_carries_the_s256_challenge() {
    let args = arguments(Grant::AuthorizationCodeWithPKCE);
    let client = OAuthClient::new(&args, None).ok().unwrap();
    let verifier = "dBjftJeZ4CVP-mB92K27uhbUJU1p1r_wW1gFWFOEjXk".to_string();
    let (url, _) = client.authorize_url_with_state(Some(verifier), token("S")).unwrap();
    assert_eq!(
        url,
        "https://auth.example.com/authorize?response_type=code&client_id=my-client&state=S&code_challenge=E9Melhoa2OwvFrEMTJguCHaoeK1t8URWbuGJSstw-cM&code_challenge_method=S256&redirect_uri=http%3A%2F%2Flocalhost%3A8081&scope=offline_access"
    );
}

#[test]
fn pkce_verifier_length_is_checked() {
    let args = arguments(Grant::AuthorizationCodeWithPKCE);
    let client = OAuthClient::new(&args, None).ok().unwrap();
    for length in [0usize, 1, 42, 129, 500] {
        let got = client.authorize_url_with_state(Some("a".repeat(length)), token("S"));
        assert_eq!(got, Err(ClientError::InvalidPkceVerifier), "{}", length);
        assert_eq!(
            client.authorize_url(Some("a".repeat(length))).err(),
            Some(ClientError::InvalidPkceVerifier)
        );
    }
    for length in [43usize, 44, 128] {
        assert!(client.authorize_url_with_state(Some("a".repeat(length)), token("S")).is_ok());
    }
    // 22 characters of two bytes each are 44 bytes, 21 are only 42.
    assert!(client.authorize_url_with_state(Some("é".repeat(22)), token("S")).is_ok());
    assert!(client.authorize_url_with_state(Some("é".repeat(21)), token("S")).is_err());
}

#[test]
fn implicit_flow_url_asks_for_a_posted_token() {
    let mut args = arguments(Grant::Implicit);
    args.token_url = None;
    args.audience = Some("api".to_string());
    let client = OAuthClient::new(&args, None).ok().unwrap();
    let (url, state) = client.implicit_url_with_state(token("S"));
    assert_eq!(state, token("S"));
    assert_eq!(
        url,
        "https://auth.example.com/authorize?response_type=token&client_id=my-client&state=S&redirect_uri=http%3A%2F%2Flocalhost%3A8081&scope=offline_access&audience=api&response_mode=form_post"
    );
}

#[test]
fn random_state_is_carried_by_the_url() {
    let args = arguments(Grant::AuthorizationCode);
    let client = OAuthClient::new(&args, None).ok().unwrap();
    let (url, state) = client.authorize_url(None).unwrap();
    assert!(!state.secret().is_empty());
    assert!(url.contains(&format!("&state={}&", state.secret())));
    let (implicit, implicit_state) = client.implicit_url();
    assert!(implicit.contains(&format!("&state={}&", implicit_state.secret())));
    assert!(implicit.ends_with("&response_mode=form_post"));
}

#[test]
fn fresh_states_differ() {
    assert_ne!(fresh_state(), fresh_state());
}

#[test]
fn fresh_state_is_22_url_safe_characters() {
    for _ in 0..50 {
        let state = fresh_state();
        let secret = state.secret();
        assert_eq!(secret.chars().count(), 22);
        assert!(secret.chars().all(|c| c.is_ascii_alphanumeric() || c == '-' || c == '_'));
    }
}

#[test]
fn existing_query_of_the_endpoint_is_kept() {
    let mut args = arguments(Grant::AuthorizationCode);
    args.authorization_url = Some("https://auth.example.com/authorize?tenant=a".to_string());
    args.scope = String::new();
    let client = OAuthClient::new(&args, None).ok().unwrap();
    let (url, _) = client.authorize_url_with_state(None, token("S")).unwrap();
    assert_eq!(
        url,
        "https://auth.example.com/authorize?tenant=a&response_type=code&client_id=my-client&state=S&redirect_uri=http%3A%2F%2Flocalhost%3A8081"
    );
}

#[test]
fn redirect_url_is_on_localhost() {
    let mut args = arguments(Grant::AuthorizationCode);
    args.port = 9000;
    let client = OAuthClient::new(&args, None).ok().unwrap();
    assert_eq!(client.redirect_url(), "http://localhost:9000");
}

#[test]
fn discovered_endpoints_take_the_place_of_configured_ones() {
    let mut args = arguments(Grant::AuthorizationCode);
    args.discovery_url = Some("https://id.example.com/.well-known/openid-configuration".to_string());
    let discovered = Endpoints {
        token_url: Some("https://id.example.com/token".to_string()),
        authorization_url: "https://id.example.com/auth".to_string(),
    };
    let client = OAuthClient::new(&args, Some(discovered)).ok().unwrap();
    let (url, _) = client.authorize_url_with_state(None, token("S")).unwrap();
    assert!(url.starts_with("https://id.example.com/auth?response_type=code&"));
    assert_eq!(error_of(&args, None), Some(ClientError::MissingEndpoints));
}

#[test]
fn missing_and_invalid_endpoints_are_reported() {
    let mut args = arguments(Grant::AuthorizationCode);
    args.token_url = None;
    assert_eq!(error_of(&args, None), Some(ClientError::MissingTokenUrl));
    args.authorization_url = None;
    assert_eq!(error_of(&args, None), Some(ClientError::MissingTokenUrl));

    let mut args = arguments(Grant::AuthorizationCode);
    args.authorization_url = None;
    assert_eq!(error_of(&args, None), Some(ClientError::MissingAuthorizationUrl));

    let mut args = arguments(Grant::Implicit);
    args.token_url = None;
    args.authorization_url = None;
    assert_eq!(error_of(&args, None), Some(ClientError::MissingAuthorizationUrl));

    let mut args = arguments(Grant::AuthorizationCode);
    args.authorization_url = Some("/authorize".to_string());
    args.token_url = Some("also no url".to_string());
    assert_eq!(error_of(&args, None), Some(ClientError::InvalidAuthorizationUrl));
    args.authorization_url = Some("https://auth.example.com/authorize".to_string());
    assert_eq!(error_of(&args, None), Some(ClientError::InvalidTokenUrl));
}

#[test]
fn request_spec_is_written_as_it_stands() {
    let spec = AuthorizationRequestSpec {
        authorization_url: "https://auth.example.com/authorize".to_string(),
        client_id: "my client".to_string(),
        callback_url: "http://localhost:8081/callback".to_string(),
        scope: "a".to_string(),
        audience: None,
        pkce_verifier: None,
        response_mode: ResponseMode::FormPost,
        state: token("S"),
    };
    assert_eq!(
        spec.extra(),
        vec![("response_mode".to_string(), "form_post".to_string())]
    );
    assert_eq!(
        spec.url(),
        Some("https://auth.example.com/authorize?response_type=token&client_id=my+client&state=S&redirect_uri=http%3A%2F%2Flocalhost%3A8081%2Fcallback&scope=a&response_mode=form_post".to_string())
    );
    let broken = AuthorizationRequestSpec { callback_url: "no url".to_string(), ..spec.clone() };
    assert_eq!(broken.url(), None);
    let broken = AuthorizationRequestSpec { authorization_url: String::new(), ..spec.clone() };
    assert_eq!(broken.url(), None);
    let short = AuthorizationRequestSpec { pkce_verifier: Some("short".to_string()), ..spec };
    assert_eq!(short.url(), None);
}

#[test]
fn authorization_request_follows_the_grant() {
    let verifier = || Some("dBjftJeZ4CVP-mB92K27uhbUJU1p1r_wW1gFWFOEjXk".to_string());

    let args = arguments(Grant::AuthorizationCodeWithPKCE);
    let client = OAuthClient::new(&args, None).ok().unwrap();
    let request = client.authorization_request(verifier(), token("S")).unwrap();
    assert_eq!(request.response_mode, ResponseMode::Query);
    assert_eq!(request.pkce_verifier, verifier());
    assert_eq!(request.callback_url, "http://localhost:8081");
    assert_eq!(request.authorization_url, "https://auth.example.com/authorize");
    assert_eq!(request.client_id, "my-client");
    assert_eq!(request.scope, "offline_access");
    assert_eq!(request.state, token("S"));
    assert!(request.url().is_some());
    assert_eq!(
        client.authorization_request(None, token("S")),
        Err(ClientError::MissingPkceVerifier)
    );
    assert_eq!(
        client.authorization_request(Some("short".to_string()), token("S")),
        Err(ClientError::InvalidPkceVerifier)
    );

    let args = arguments(Grant::AuthorizationCode);
    let client = OAuthClient::new(&args, None).ok().unwrap();
    let request = client.authorization_request(None, token("S")).unwrap();
    assert_eq!(request.response_mode, ResponseMode::Query);
    assert_eq!(request.pkce_verifier, None);
    assert_eq!(
        client.authorization_request(verifier(), token("S")),
        Err(ClientError::UnexpectedPkceVerifier)
    );

    let mut args = arguments(Grant::Implicit);
    args.audience = Some("api".to_string());
    let client = OAuthClient::new(&args, None).ok().unwrap();
    let request = client.authorization_request(None, token("S")).unwrap();
    assert_eq!(request.response_mode, ResponseMode::FormPost);
    assert_eq!(request.audience, Some("api".to_string()));
    assert_eq!(
        request.extra(),
        vec![
            ("audience".to_string(), "api".to_string()),
            ("response_mode".to_string(), "form_post".to_string())
        ]
    );
    assert_eq!(
        client.authorization_request(verifier(), token("S")),
        Err(ClientError::UnexpectedPkceVerifier)
    );

    for grant in [Grant::ResourceOwnerPasswordClientCredentials, Grant::ClientCredentials] {
        let args = arguments(grant);
        let client = OAuthClient::new(&args, None).ok().unwrap();
        assert_eq!(
            client.authorization_request(None, token("S")),
            Err(ClientError::NotInteractive)
        );
    }
}

#[test]
fn endpoint_must_be_a_url_without_fragment() {
    assert!(can_be_endpoint("https://auth.example.com/authorize"));
    assert!(can_be_endpoint("https://auth.example.com/authorize?tenant=a"));
    assert!(can_be_endpoint("https://auth.example.com"));
    assert!(!can_be_endpoint("https://auth.example.com/authorize#"));
    assert!(!can_be_endpoint("https://auth.example.com/authorize#top"));
    assert!(!can_be_endpoint("https://auth.example.com/authorize?tenant=a#top"));
    assert!(!can_be_endpoint("/authorize"));
    assert!(!can_be_endpoint(""));
}

#[test]
fn endpoint_with_a_fragment_is_refused() {
    for endpoint in ["https://auth.example.com/authorize#", "https://auth.example.com/a?b=c#d"] {
        let mut args = arguments(Grant::AuthorizationCode);
        args.authorization_url = Some(endpoint.to_string());
        assert_eq!(error_of(&args, None), Some(ClientError::InvalidAuthorizationUrl));

        let spec = AuthorizationRequestSpec {
            authorization_url: endpoint.to_string(),
            client_id: "my-client".to_string(),
            callback_url: "http://localhost:8081".to_string(),
            scope: "a".to_string(),
            audience: None,
            pkce_verifier: None,
            response_mode: ResponseMode::Query,
            state: token("S"),
        };
        assert_eq!(spec.url(), None);
        let with_pkce = AuthorizationRequestSpec {
            pkce_verifier: Some("dBjftJeZ4CVP-mB92K27uhbUJU1p1r_wW1gFWFOEjXk".to_string()),
            ..spec
        };
        assert_eq!(with_pkce.url(), None);
    }
}

#[test]
fn discovered_endpoint_with_a_fragment_is_refused() {
    let mut args = arguments(Grant::AuthorizationCode);
    args.discovery_url = Some("https://id.example.com/.well-known/openid-configuration".to_string());
    let discovered = Endpoints {
        token_url: Some("https://id.example.com/token".to_string()),
        authorization_url: "https://id.example.com/auth#x".to_string(),
    };
    assert_eq!(error_of(&args, Some(discovered)), Some(ClientError::InvalidAuthorizationUrl));
}

#[test]
fn drawn_states_have_the_fresh_shape() {
    let args = arguments(Grant::AuthorizationCode);
    let client = OAuthClient::new(&args, None).ok().unwrap();
    let shaped = |state: &AntiForgeryToken| {
        state.secret().chars().count() == 22
            && state.secret().chars().all(|c| c.is_ascii_alphanumeric() || c == '-' || c == '_')
    };
    let (_, first) = client.authorize_url(None).unwrap();
    let (_, second) = client.authorize_url(None).unwrap();
    let (_, third) = client.implicit_url();
    assert!(shaped(&first) && shaped(&second) && shaped(&third));
    assert_ne!(first, second);
    assert_ne!(second, third);
}
