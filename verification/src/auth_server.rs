//! The listener channel: a local HTTP endpoint that the provider redirects the
//! user's browser to. This module decides what each accepted request means for
//! the flow and what is answered to it; sockets are the caller's business.

use crate::callback::{first_value, AntiForgeryToken};
use crate::race::{decides, RaceEvent, RedirectRace};
use crate::text::{decimal_text, option_text, render_decimal};
use crate::token_info::{TokenInfo, TokenInfoView};
use crate::validator::{
    inspect_for_code, inspect_for_token, inspected_code, inspected_token, option_token,
};
use crate::wire::{form_pairs, targets_callback, url_parts};
use vstd::prelude::*;
use vstd::string::StringExecFns;

verus! {

/// One request as the listener accepted it.
#[derive(Debug, Clone, PartialEq, Eq)]
pub struct ListenerRequest {
    /// The request method in upper case, such as `GET` or `POST`.
    pub method: String,
    /// The request target: path and query, as on the request line.
    pub url: String,
    /// The request body, empty if there was none.
    pub body: String,
}

/// What the listener answers.
#[derive(Debug, Clone, PartialEq, Eq)]
pub struct HttpResponse {
    pub status: u16,
    pub content_type: String,
    pub body: String,
}

/// The listener bound to one local port.
#[derive(Debug, Clone, Copy, PartialEq, Eq, Structural)]
pub struct AuthServer {
    port: u16,
}

/// Whether `response` is the fixed confirmation page: status 200, HTML, and the
/// text that tells the user that the sign-in went through.
pub open spec fn is_default_message(response: HttpResponse) -> bool {
    &&& response.status == 200
    &&& response.content_type@ == "text/html; charset=UTF-8"@
    &&& response.body@
        == "<!doctype html><html lang=\"en\"><script>window.close();</script><head><meta charset=utf-8><title>Doken</title></head><body>Successfully signed in. Close current tab.</body></html>"@
}

/// The callback URL of the listener on `port`.
pub open spec fn listener_callback_url(port: u16) -> Seq<char> {
    "http://localhost:"@ + decimal_text(port as nat)
}

/// The full URL of a request with the given target to the listener on `port`.
pub open spec fn listener_request_url(port: u16, target: Seq<char>) -> Seq<char> {
    listener_callback_url(port) + target
}

/// Both answers of a validator that was not asked and of one that said no
/// come to the same for a listener: nothing is delivered.
pub open spec fn delivered<V>(inspected: Option<Option<V>>) -> Option<V> {
    match inspected {
        Some(verdict) => verdict,
        None => None,
    }
}

/// What a request with the given target means to a code flow on `port`: the
/// code, if the request is addressed to the callback endpoint and passes
/// validation, and nothing otherwise.
pub open spec fn listener_code(port: u16, target: Seq<char>, expected: Seq<char>) -> Option<
    Seq<char>,
> {
    delivered(
        inspected_code(listener_request_url(port, target), listener_callback_url(port), expected),
    )
}

/// What a request means to a flow on `port` that waits for a posted token.
pub open spec fn listener_token(
    port: u16,
    method: Seq<char>,
    target: Seq<char>,
    body: Seq<char>,
    expected: Seq<char>,
    captured_at: u64,
) -> Option<TokenInfoView> {
    delivered(
        inspected_token(
            listener_request_url(port, target),
            method,
            Some(body),
            listener_callback_url(port),
            expected,
            captured_at,
        ),
    )
}

impl AuthServer {
    /// The port that the listener is bound to.
    pub closed spec fn port(&self) -> u16 {
        self.port
    }

    /// Describes the listener on `port`.
    pub fn new(port: u16) -> (server: AuthServer)
        ensures
            server.port() == port,
    {
        AuthServer { port }
    }

    /// Opens the race of a flow on this channel. A listener has no
    /// cancellation signal.
    pub fn start_race<T>() -> (race: RedirectRace<T>)
        ensures
            !race.cancellable(),
            race.outcome() is None,
    {
        RedirectRace::new(false)
    }

    /// The socket address to bind: the loopback interface and the port.
    pub fn address(&self) -> (address: String)
        ensures
            address@ == "127.0.0.1:"@ + decimal_text(self.port() as nat),
    {
        "127.0.0.1:".to_owned().concat(render_decimal(self.port as u64).as_str())
    }

    /// The URL that the provider is told to deliver its answer to.
    pub fn callback_url(&self) -> (url: String)
        ensures
            url@ == listener_callback_url(self.port()),
    {
        "http://localhost:".to_owned().concat(render_decimal(self.port as u64).as_str())
    }

    /// The page that every accepted request is answered with, whether or not
    /// it resolved the flow, so that the browser tab never hangs.
    pub fn response_with_default_message() -> (response: HttpResponse)
        ensures
            is_default_message(response),
    {
        HttpResponse {
            status: 200,
            content_type: "text/html; charset=UTF-8".to_owned(),
            body: "<!doctype html><html lang=\"en\"><script>window.close();</script><head><meta charset=utf-8><title>Doken</title></head><body>Successfully signed in. Close current tab.</body></html>".to_owned(),
        }
    }

    /// The full URL of a request with the given target.
    fn request_url(&self, target: &String) -> (url: String)
        ensures
            url@ == listener_request_url(self.port(), target@),
    {
        self.callback_url().concat(target.as_str())
    }

    /// Looks for this flow's authorization code in one request.
    pub fn get_code(&self, request: &ListenerRequest, csrf_token: &AntiForgeryToken) -> (code:
        Option<String>)
        ensures
            option_text(code) == listener_code(self.port(), request.url@, csrf_token@),
    {
        let url = self.request_url(&request.url);
        let callback = self.callback_url();
        match inspect_for_code(url.as_str(), callback.as_str(), csrf_token) {
            Some(verdict) => verdict,
            None => None,
        }
    }

    /// Looks for this flow's token in one request, taken at `captured_at`
    /// seconds since the Unix epoch.
    pub fn get_token_data(
        &self,
        request: &ListenerRequest,
        csrf_token: &AntiForgeryToken,
        captured_at: u64,
    ) -> (token: Option<TokenInfo>)
        ensures
            option_token(token) == listener_token(
                self.port(),
                request.method@,
                request.url@,
                request.body@,
                csrf_token@,
                captured_at,
            ),
    {
        let url = self.request_url(&request.url);
        let callback = self.callback_url();
        match inspect_for_token(
            url.as_str(),
            &request.method,
            Some(&request.body),
            callback.as_str(),
            csrf_token,
            captured_at,
        ) {
            Some(verdict) => verdict,
            None => None,
        }
    }

    /// Finishes one request: hands the validator's verdict to the race and
    /// gives the answer to send. The answer is the same whatever the verdict.
    pub fn process_request<T>(&self, race: &mut RedirectRace<T>, verdict: Option<T>) -> (response:
        HttpResponse)
        ensures
            final(race).cancellable() == old(race).cancellable(),
            final(race).outcome() == match old(race).outcome() {
                Some(outcome) => Some(outcome),
                None => decides(old(race).cancellable(), RaceEvent::Callback(verdict)),
            },
            is_default_message(response),
    {
        race.step(RaceEvent::Callback(verdict));
        Self::response_with_default_message()
    }
}

/// A request to the listener's callback endpoint whose query carries a code
/// and echoes the flow's anti-forgery token delivers that code.
pub proof fn law_listener_exact_match_delivers_code(
    port: u16,
    target: Seq<char>,
    expected: Seq<char>,
    code: Seq<char>,
)
    requires
        targets_callback(listener_request_url(port, target), listener_callback_url(port)),
        first_value(url_parts(listener_request_url(port, target))->0.query_pairs, "state"@) == Some(
            expected,
        ),
        first_value(url_parts(listener_request_url(port, target))->0.query_pairs, "code"@) == Some(
            code,
        ),
    ensures
        listener_code(port, target, expected) == Some(code),
{
}

/// A request to the listener that echoes a state other than the flow's
/// anti-forgery token delivers nothing, neither a code nor a token.
pub proof fn law_listener_wrong_state_is_ignored(
    port: u16,
    target: Seq<char>,
    expected: Seq<char>,
    state: Seq<char>,
)
    requires
        state != expected,
    ensures
        url_parts(listener_request_url(port, target)) matches Some(parts) && first_value(
            parts.query_pairs,
            "state"@,
        ) == Some(state) ==> listener_code(port, target, expected) is None,
        forall|method: Seq<char>, body: Seq<char>, captured_at: u64|
            first_value(form_pairs(body), "state"@) == Some(state) ==> (#[trigger] listener_token(
                port,
                method,
                target,
                body,
                expected,
                captured_at,
            )) is None,
{
}

/// A request to the listener that is not addressed to its callback endpoint
/// delivers nothing, whatever it carries.
pub proof fn law_listener_other_paths_deliver_nothing(
    port: u16,
    target: Seq<char>,
    expected: Seq<char>,
)
    requires
        !targets_callback(listener_request_url(port, target), listener_callback_url(port)),
    ensures
        listener_code(port, target, expected) is None,
        forall|method: Seq<char>, body: Seq<char>, captured_at: u64|
            (#[trigger] listener_token(port, method, target, body, expected, captured_at)) is None,
{
}

/// A post to the listener that lacks `expires_in` delivers no token.
pub proof fn law_listener_malformed_post_is_ignored(
    port: u16,
    method: Seq<char>,
    target: Seq<char>,
    body: Seq<char>,
    expected: Seq<char>,
    captured_at: u64,
)
    requires
        first_value(form_pairs(body), "expires_in"@) is None,
    ensures
        listener_token(port, method, target, body, expected, captured_at) is None,
{
}

} // verus!
