use doken::token_info::{join_scopes, TokenInfo};

fn words(items: &[&str]) -> Vec<String> {
    items.iter().map(|w| w.to_string()).collect()
}

#[test]
fn scopes_are_joined_with_single_spaces() {
    assert_eq!(join_scopes(&words(&[])), "");
    assert_eq!(join_scopes(&words(&["openid"])), "openid");
    assert_eq!(join_scopes(&words(&["openid", "profile", "email"])), "openid profile email");
    assert_eq!(join_scopes(&words(&["", "a", ""])), " a ");
}

#[test]
fn token_response_becomes_a_token() {
    let token = TokenInfo::from_token_response(
        "at".to_string(),
        Some("rt".to_string()),
        Some(3600),
        Some(words(&["openid", "offline_access"])),
        1_700_000_000,
    );
    assert_eq!(
        token,
        Some(TokenInfo {
            access_token: "at".to_string(),
            refresh_token: Some("rt".to_string()),
            expires: Some(1_700_003_600),
            scope: Some("openid offline_access".to_string()),
        })
    );
}

#[test]
fn token_response_without_optional_fields() {
    let token = TokenInfo::from_token_response("at".to_string(), None, None, None, u64::MAX);
    assert_eq!(
        token,
        Some(TokenInfo {
            access_token: "at".to_string(),
            refresh_token: None,
            expires: None,
            scope: None,
        })
    );
}

#[test]
fn token_response_with_a_lifetime_past_the_clock_is_refused() {
    assert_eq!(TokenInfo::from_token_response("at".to_string(), None, Some(2), None, u64::MAX - 1), None);
    assert_eq!(
        TokenInfo::from_token_response("at".to_string(), None, Some(1), None, u64::MAX - 1)
            .map(|t| t.expires),
        Some(Some(u64::MAX))
    );
}
