use doken::auth_browser::{
    fulfilment_body, AuthBrowser, BrowserLaunch, FirstPage, Interception, PausedRequest,
    BLANK_PAGE_URL, CONTENT_NOT_OK, CONTENT_OK, FIRST_PAGE_DELAY_MS, FIRST_PAGE_RETRIES,
};
use doken::callback::AntiForgeryToken;
use doken::race::{RaceError, RedirectRace};
use doken::token_info::TokenInfo;

const CALLBACK: &str = "http://localhost:8081/callback";

fn token(secret: &str) -> AntiForgeryToken {
    AntiForgeryToken::new(secret.to_string())
}

fn paused(id: &str, url: &str, method: &str, post_data: Option<&str>) -> PausedRequest {
    PausedRequest {
        request_id: id.to_string(),
        url: url.to_string(),
        method: method.to_string(),
        post_data: post_data.map(|d| d.to_string()),
    }
}

#[test]
fn pages_are_the_fixed_ones() {
    assert_eq!(CONTENT_OK, "<html><head></head><body><h1>OK</h1></body></html>");
    assert_eq!(CONTENT_NOT_OK, "<html><head></head><body><h1>NOT OK</h1></body></html>");
}

#[test]
fn fulfilment_bodies_are_base64() {
    assert_eq!(
        fulfilment_body(true),
        "PGh0bWw+PGhlYWQ+PC9oZWFkPjxib2R5PjxoMT5PSzwvaDE+PC9ib2R5PjwvaHRtbD4="
    );
    assert_eq!(
        fulfilment_body(false),
        "PGh0bWw+PGhlYWQ+PC9oZWFkPjxib2R5PjxoMT5OT1QgT0s8L2gxPjwvYm9keT48L2h0bWw+"
    );
}

#[test]
fn browser_is_launched_with_interception() {
    assert_eq!(
        AuthBrowser::new(false).launch_browser(),
        BrowserLaunch {
            headless: false,
            viewport_width: 800,
            viewport_height: 1000,
            window_width: 800,
            window_height: 1000,
            request_intercept: true,
            respect_https_errors: true,
            cache: true,
        }
    );
    assert!(AuthBrowser::new(true).launch_browser().headless);
}

#[test]
fn first_page_is_used_as_soon_as_it_is_there() {
    assert_eq!(AuthBrowser::wait_for_first_page(FIRST_PAGE_RETRIES, true), FirstPage::Use);
    assert_eq!(AuthBrowser::wait_for_first_page(0, true), FirstPage::Use);
}

#[test]
fn first_page_is_created_after_ten_retries() {
    assert_eq!(FIRST_PAGE_RETRIES, 10);
    assert_eq!(FIRST_PAGE_DELAY_MS, 100);
    assert_eq!(BLANK_PAGE_URL, "about:blank");
    let mut retries = FIRST_PAGE_RETRIES;
    let mut looks = 0;
    loop {
        looks += 1;
        match AuthBrowser::wait_for_first_page(retries, false) {
            FirstPage::Retry { retries: left, delay_ms } => {
                assert_eq!(left, retries - 1);
                assert_eq!(delay_ms, 100);
                retries = left;
            }
            decision => {
                assert_eq!(decision, FirstPage::CreateBlank);
                break;
            }
        }
    }
    assert_eq!(looks, 11);
}

#[test]
fn unrelated_traffic_is_transparent() {
    let browser = AuthBrowser::new(true);
    let mut open: RedirectRace<String> = browser.start_race();
    for url in [
        "https://auth.example.com/login?state=S&code=abc",
        "http://localhost:8081/favicon.ico",
        "http://localhost:8082/callback?code=abc&state=S",
        "https://localhost:8081/callback?code=abc&state=S",
        "data:text/plain,hello",
        "not a url",
    ] {
        let event = paused("r1", url, "GET", None);
        let inspected = browser.get_code(&event, CALLBACK, &token("S"));
        assert_eq!(inspected, None, "{}", url);
        let action = browser.process_request(&mut open, event.request_id.clone(), inspected);
        assert_eq!(action, Interception::Continue { request_id: "r1".to_string() });
        assert!(open.is_pending());
        let posted = paused("r2", url, "POST", Some("access_token=a&expires_in=1&state=S"));
        assert_eq!(browser.get_token_data(&posted, CALLBACK, &token("S"), 0), None);
    }
}

#[test]
fn exact_match_is_fulfilled_ok_and_resolves() {
    let browser = AuthBrowser::new(true);
    let mut open: RedirectRace<String> = browser.start_race();
    let event = paused("r7", "http://localhost:8081/callback?code=abc&state=S", "GET", None);
    let inspected = browser.get_code(&event, CALLBACK, &token("S"));
    assert_eq!(inspected, Some(Some("abc".to_string())));
    let action = browser.process_request(&mut open, event.request_id.clone(), inspected);
    assert_eq!(
        action,
        Interception::Fulfill {
            request_id: "r7".to_string(),
            response_code: 200,
            body: "PGh0bWw+PGhlYWQ+PC9oZWFkPjxib2R5PjxoMT5PSzwvaDE+PC9ib2R5PjwvaHRtbD4=".to_string(),
        }
    );
    let again = browser.get_code(&event, CALLBACK, &token("S"));
    let action = browser.process_request(&mut open, "r8".to_string(), again);
    assert!(matches!(action, Interception::Fulfill { response_code: 200, .. }));
    assert_eq!(open.conclude(), Some(Ok("abc".to_string())));
}

#[test]
fn wrong_state_is_fulfilled_not_ok_and_ignored() {
    let browser = AuthBrowser::new(true);
    let mut open: RedirectRace<String> = browser.start_race();
    let event = paused("r9", "http://localhost:8081/callback?code=abc&state=wrong", "GET", None);
    let inspected = browser.get_code(&event, CALLBACK, &token("S"));
    assert_eq!(inspected, Some(None));
    let action = browser.process_request(&mut open, event.request_id.clone(), inspected);
    assert_eq!(
        action,
        Interception::Fulfill {
            request_id: "r9".to_string(),
            response_code: 200,
            body: "PGh0bWw+PGhlYWQ+PC9oZWFkPjxib2R5PjxoMT5OT1QgT0s8L2gxPjwvYm9keT48L2h0bWw+"
                .to_string(),
        }
    );
    assert!(open.is_pending());
}

#[test]
fn posted_token_is_taken_from_the_callback() {
    let browser = AuthBrowser::new(true);
    let event =
        paused("r1", CALLBACK, "POST", Some("access_token=abc&expires_in=3600&state=S"));
    assert_eq!(
        browser.get_token_data(&event, CALLBACK, &token("S"), 1_000),
        Some(Some(TokenInfo {
            access_token: "abc".to_string(),
            refresh_token: None,
            expires: Some(4_600),
            scope: None,
        }))
    );
}

#[test]
fn malformed_post_is_answered_and_ignored() {
    let browser = AuthBrowser::new(true);
    let expected = token("S");
    let missing = paused("r1", CALLBACK, "POST", Some("access_token=abc&state=S"));
    assert_eq!(browser.get_token_data(&missing, CALLBACK, &expected, 0), Some(None));
    let no_body = paused("r2", CALLBACK, "POST", None);
    assert_eq!(browser.get_token_data(&no_body, CALLBACK, &expected, 0), Some(None));
    let get = paused("r3", CALLBACK, "GET", Some("access_token=abc&expires_in=1&state=S"));
    assert_eq!(browser.get_token_data(&get, CALLBACK, &expected, 0), Some(None));
    let mut open: RedirectRace<TokenInfo> = browser.start_race();
    let action = browser.process_request(&mut open, "r1".to_string(), Some(None));
    assert!(matches!(action, Interception::Fulfill { .. }));
    assert!(open.is_pending());
}

#[test]
fn closed_browser_cancels_the_flow() {
    let browser = AuthBrowser::new(false);
    let mut open: RedirectRace<String> = browser.start_race();
    assert!(browser.watch_handler(&mut open, false));
    assert!(open.is_pending());
    assert!(!browser.watch_handler(&mut open, true));
    assert_eq!(open.conclude(), Some(Err(RaceError::Cancelled)));
}

#[test]
fn closed_browser_after_the_result_changes_nothing() {
    let browser = AuthBrowser::new(false);
    let mut open: RedirectRace<String> = browser.start_race();
    browser.process_request(&mut open, "r1".to_string(), Some(Some("abc".to_string())));
    assert!(!browser.watch_handler(&mut open, true));
    assert_eq!(open.conclude(), Some(Ok("abc".to_string())));
}

#[test]
fn deeply_nested_blob_request_is_passed_through() {
    let browser = AuthBrowser::new(true);
    let mut open: RedirectRace<String> = browser.start_race();
    let url = format!("{}{}?code=abc&state=S", "blob:".repeat(200_000), CALLBACK);
    let event = paused("r1", &url, "GET", None);
    let inspected = browser.get_code(&event, CALLBACK, &token("S"));
    assert_eq!(inspected, None);
    let action = browser.process_request(&mut open, event.request_id.clone(), inspected);
    assert_eq!(action, Interception::Continue { request_id: "r1".to_string() });
    assert!(open.is_pending());
    let posted = paused("r2", &url, "POST", Some("access_token=a&expires_in=1&state=S"));
    assert_eq!(browser.get_token_data(&posted, CALLBACK, &token("S"), 0), None);
}
