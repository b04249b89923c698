use doken::auth_server::{AuthServer, ListenerRequest};
use doken::callback::AntiForgeryToken;
use doken::race::{RaceError, RaceEvent, RedirectRace};
use doken::token_info::TokenInfo;

fn token(secret: &str) -> AntiForgeryToken {
    AntiForgeryToken::new(secret.to_string())
}

fn request(method: &str, url: &str, body: &str) -> ListenerRequest {
    ListenerRequest { method: method.to_string(), url: url.to_string(), body: body.to_string() }
}

#[test]
fn listener_binds_the_loopback_interface() {
    assert_eq!(AuthServer::new(8081).address(), "127.0.0.1:8081");
    assert_eq!(AuthServer::new(0).address(), "127.0.0.1:0");
    assert_eq!(AuthServer::new(65535).address(), "127.0.0.1:65535");
}

#[test]
fn listener_callback_is_on_localhost() {
    assert_eq!(AuthServer::new(8081).callback_url(), "http://localhost:8081");
    assert_eq!(AuthServer::new(80).callback_url(), "http://localhost:80");
}

#[test]
fn default_message_is_an_html_page() {
    let response = AuthServer::response_with_default_message();
    assert_eq!(response.status, 200);
    assert_eq!(response.content_type, "text/html; charset=UTF-8");
    assert_eq!(
        response.body,
        "<!doctype html><html lang=\"en\"><script>window.close();</script><head><meta charset=utf-8><title>Doken</title></head><body>Successfully signed in. Close current tab.</body></html>"
    );
}

#[test]
fn listener_takes_the_code_of_a_matching_callback() {
    let server = AuthServer::new(8081);
    let got = server.get_code(&request("GET", "/?code=abc&state=S", ""), &token("S"));
    assert_eq!(got, Some("abc".to_string()));
    let got = server.get_code(&request("GET", "?state=S&code=abc", ""), &token("S"));
    assert_eq!(got, Some("abc".to_string()));
}

#[test]
fn listener_ignores_a_wrong_state() {
    let server = AuthServer::new(8081);
    let got = server.get_code(&request("GET", "/?code=abc&state=wrong", ""), &token("S"));
    assert_eq!(got, None);
}

#[test]
fn listener_ignores_other_paths() {
    let server = AuthServer::new(8081);
    let expected = token("S");
    for url in ["/favicon.ico?code=abc&state=S", "/callback?code=abc&state=S", "@example.com/?code=abc&state=S", "*"] {
        assert_eq!(server.get_code(&request("GET", url, ""), &expected), None, "{}", url);
    }
}

#[test]
fn listener_ignores_requests_without_code_or_state() {
    let server = AuthServer::new(8081);
    let expected = token("S");
    for url in ["/", "/?code=abc", "/?state=S", ""] {
        assert_eq!(server.get_code(&request("GET", url, ""), &expected), None, "{}", url);
    }
}

#[test]
fn listener_takes_a_posted_token() {
    let server = AuthServer::new(8081);
    let posted = request("POST", "/", "access_token=abc&expires_in=3600&state=S");
    assert_eq!(
        server.get_token_data(&posted, &token("S"), 1000),
        Some(TokenInfo {
            access_token: "abc".to_string(),
            refresh_token: None,
            expires: Some(4600),
            scope: None,
        })
    );
}

#[test]
fn listener_ignores_what_is_no_posted_token() {
    let server = AuthServer::new(8081);
    let expected = token("S");
    let body = "access_token=abc&expires_in=3600&state=S";
    assert_eq!(server.get_token_data(&request("GET", "/", body), &expected, 0), None);
    assert_eq!(server.get_token_data(&request("POST", "/other", body), &expected, 0), None);
    assert_eq!(server.get_token_data(&request("POST", "/", body), &token("T"), 0), None);
    assert_eq!(
        server.get_token_data(&request("POST", "/", "access_token=abc&state=S"), &expected, 0),
        None
    );
    assert_eq!(server.get_token_data(&request("POST", "/", ""), &expected, 0), None);
}

#[test]
fn every_request_gets_the_default_message() {
    let server = AuthServer::new(8081);
    let mut open: RedirectRace<String> = AuthServer::start_race();
    let ignored = server.process_request(&mut open, None);
    assert_eq!(ignored, AuthServer::response_with_default_message());
    assert!(open.is_pending());
    let resolved = server.process_request(&mut open, Some("abc".to_string()));
    assert_eq!(resolved, AuthServer::response_with_default_message());
    assert!(!open.is_pending());
    let late = server.process_request(&mut open, Some("late".to_string()));
    assert_eq!(late, AuthServer::response_with_default_message());
    assert_eq!(open.conclude(), Some(Ok("abc".to_string())));
}

#[test]
fn listener_race_has_no_cancellation() {
    let mut open: RedirectRace<String> = AuthServer::start_race();
    open.step(RaceEvent::CancelSignal);
    assert!(open.is_pending());
    open.step(RaceEvent::TimerElapsed);
    assert_eq!(open.conclude(), Some(Err(RaceError::Timeout)));
}
