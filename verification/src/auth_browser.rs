//! The browser channel: an automated browser whose every outgoing request is
//! paused and shown to the flow. This module decides, request by request,
//! whether the request is the provider's callback, what the browser is told to
//! do with it, and what it means for the flow. Driving the browser is the
//! caller's business.

use crate::callback::{first_value, AntiForgeryToken};
use crate::race::{decides, RaceEvent, RaceOutcome, RedirectRace};
use crate::text::option_text;
use crate::token_info::{TokenInfo, TokenInfoView};
use crate::validator::{
    inspect_for_code, inspect_for_token, inspected_code, inspected_token, option_token,
};
use crate::wire::{base64_standard, encode_base64, form_pairs, targets_callback, url_parts};
use vstd::prelude::*;

verus! {

/// The page shown for a callback that resolved the flow.
pub const CONTENT_OK: &'static str = "<html><head></head><body><h1>OK</h1></body></html>";

/// The page shown for a callback that did not resolve the flow.
pub const CONTENT_NOT_OK: &'static str = "<html><head></head><body><h1>NOT OK</h1></body></html>";

/// One outgoing request of the page, paused by the browser.
#[derive(Debug, Clone, PartialEq, Eq)]
pub struct PausedRequest {
    /// The browser's handle for the paused request.
    pub request_id: String,
    /// The absolute URL that the page asked for.
    pub url: String,
    /// The request method in upper case.
    pub method: String,
    /// The body of a `POST`, if the browser reported one.
    pub post_data: Option<String>,
}

/// What the browser is told to do with a paused request.
#[derive(Debug, Clone, PartialEq, Eq)]
pub enum Interception {
    /// Answer locally; the request never reaches the network. `body` is Base64.
    Fulfill { request_id: String, response_code: u16, body: String },
    /// Let the request go on to the network exactly as the page made it.
    Continue { request_id: String },
}

/// The mathematical value of an [`Interception`].
pub enum InterceptionView {
    Fulfill { request_id: Seq<char>, response_code: u16, body: Seq<char> },
    Continue { request_id: Seq<char> },
}

impl View for Interception {
    type V = InterceptionView;

    open spec fn view(&self) -> InterceptionView {
        match *self {
            Interception::Fulfill { request_id, response_code, body } => InterceptionView::Fulfill {
                request_id: request_id@,
                response_code,
                body: body@,
            },
            Interception::Continue { request_id } => InterceptionView::Continue {
                request_id: request_id@,
            },
        }
    }
}

/// The page for a verdict.
pub open spec fn content_for(resolved: bool) -> Seq<char> {
    if resolved {
        CONTENT_OK@
    } else {
        CONTENT_NOT_OK@
    }
}

/// The local answer to a request that was addressed to the callback endpoint.
pub open spec fn fulfilment(request_id: Seq<char>, resolved: bool) -> InterceptionView {
    InterceptionView::Fulfill {
        request_id,
        response_code: 200,
        body: base64_standard(content_for(resolved)),
    }
}

/// What the browser is told for a request, given what the validator was asked.
pub open spec fn interception_for<V>(request_id: Seq<char>, inspected: Option<Option<V>>)
    -> InterceptionView {
    match inspected {
        Some(verdict) => fulfilment(request_id, verdict is Some),
        None => InterceptionView::Continue { request_id },
    }
}

/// What a request does to the race, given what the validator was asked: a
/// request that was not shown to the validator does nothing.
pub open spec fn race_after<T>(
    before: Option<RaceOutcome<T>>,
    cancellable: bool,
    inspected: Option<Option<T>>,
) -> Option<RaceOutcome<T>> {
    match (before, inspected) {
        (None, Some(verdict)) => decides(cancellable, RaceEvent::Callback(verdict)),
        _ => before,
    }
}

/// The Base64 text of the page for a verdict.
pub fn fulfilment_body(resolved: bool) -> (body: String)
    ensures
        body@ == base64_standard(content_for(resolved)),
{
    let content = if resolved {
        CONTENT_OK
    } else {
        CONTENT_NOT_OK
    };
    proof {
        reveal_strlit("<html><head></head><body><h1>OK</h1></body></html>");
        reveal_strlit("<html><head></head><body><h1>NOT OK</h1></body></html>");
        assert(content@.len() <= 54);
        assert(vstd::string::is_ascii(content));
        vstd::string::is_ascii_spec_bytes(content);
    }
    encode_base64(content)
}

/// How the browser is started.
#[derive(Debug, Clone, Copy, PartialEq, Eq, Structural)]
pub struct BrowserLaunch {
    /// Whether the browser runs without a window.
    pub headless: bool,
    pub viewport_width: u32,
    pub viewport_height: u32,
    pub window_width: u32,
    pub window_height: u32,
    /// Whether every outgoing request is paused for the flow to see.
    pub request_intercept: bool,
    /// Whether certificate errors stop a page from loading.
    pub respect_https_errors: bool,
    pub cache: bool,
}

/// What to do after looking for the browser's first page once.
#[derive(Debug, Clone, Copy, PartialEq, Eq, Structural)]
pub enum FirstPage {
    /// A page is there: take the first one.
    Use,
    /// No page yet: wait `delay_ms` and look again, with `retries` looks left
    /// after that one.
    Retry { retries: u32, delay_ms: u64 },
    /// No page and no retries left: open a blank page and take that.
    CreateBlank,
}

/// How often the search for the first page is retried before a page is created.
pub const FIRST_PAGE_RETRIES: u32 = 10;

/// The pause before each look for the first page, in milliseconds.
pub const FIRST_PAGE_DELAY_MS: u64 = 100;

/// The address of the page that is created when the browser shows none.
pub const BLANK_PAGE_URL: &'static str = "about:blank";

/// The decision after one look for the first page.
pub open spec fn first_page_step(retries: u32, page_found: bool) -> FirstPage {
    if page_found {
        FirstPage::Use
    } else if retries == 0 {
        FirstPage::CreateBlank
    } else {
        FirstPage::Retry { retries: (retries - 1) as u32, delay_ms: FIRST_PAGE_DELAY_MS }
    }
}

/// The decision after a run of looks, the first made with `retries` retries
/// left, each telling whether a page was found: `None` while the search goes
/// on, else the decision that ended it.
pub open spec fn first_page_search(retries: u32, looks: Seq<bool>) -> Option<FirstPage>
    decreases looks.len(),
{
    if looks.len() == 0 {
        None
    } else {
        match first_page_step(retries, looks[0]) {
            FirstPage::Retry { retries, .. } => first_page_search(retries, looks.drop_first()),
            decision => Some(decision),
        }
    }
}

/// The browser channel of one flow.
#[derive(Debug, Clone, Copy, PartialEq, Eq, Structural)]
pub struct AuthBrowser {
    headless: bool,
}

impl AuthBrowser {
    /// Whether the browser runs without a window.
    pub closed spec fn headless(&self) -> bool {
        self.headless
    }

    /// Describes the browser channel.
    pub fn new(headless: bool) -> (browser: AuthBrowser)
        ensures
            browser.headless() == headless,
    {
        AuthBrowser { headless }
    }

    /// The settings that the browser is started with: a window of 800 by 1000
    /// with a viewport of the same size, request interception on, certificate
    /// errors respected and the cache enabled.
    pub fn launch_browser(&self) -> (launch: BrowserLaunch)
        ensures
            launch == (BrowserLaunch {
                headless: self.headless(),
                viewport_width: 800,
                viewport_height: 1000,
                window_width: 800,
                window_height: 1000,
                request_intercept: true,
                respect_https_errors: true,
                cache: true,
            }),
    {
        let width: u32 = 800;
        let height: u32 = 1000;
        BrowserLaunch {
            headless: self.headless,
            viewport_width: width,
            viewport_height: height,
            window_width: width,
            window_height: height,
            request_intercept: true,
            respect_https_errors: true,
            cache: true,
        }
    }

    /// Decides what to do after one look for the browser's first page, made
    /// with `retries` retries left.
    pub fn wait_for_first_page(retries: u32, page_found: bool) -> (decision: FirstPage)
        ensures
            decision == first_page_step(retries, page_found),
    {
        if page_found {
            FirstPage::Use
        } else if retries == 0 {
            FirstPage::CreateBlank
        } else {
            FirstPage::Retry { retries: retries - 1, delay_ms: FIRST_PAGE_DELAY_MS }
        }
    }

    /// Opens the race of a flow on this channel. It listens to the
    /// cancellation signal.
    pub fn start_race<T>(&self) -> (race: RedirectRace<T>)
        ensures
            race.cancellable(),
            race.outcome() is None,
    {
        RedirectRace::new(true)
    }

    /// Takes one report of the browser's control channel. An error there means
    /// that the browser is gone, most often because the user closed the
    /// window: it raises the cancellation signal and ends the watch.
    pub fn watch_handler<T>(&self, race: &mut RedirectRace<T>, failed: bool) -> (keep_watching:
        bool)
        ensures
            keep_watching == !failed,
            final(race).cancellable() == old(race).cancellable(),
            final(race).outcome() == if failed && old(race).outcome() is None {
                decides(old(race).cancellable(), RaceEvent::<T>::CancelSignal)
            } else {
                old(race).outcome()
            },
    {
        if failed {
            race.step(RaceEvent::CancelSignal);
        }
        !failed
    }

    /// Shows a paused request to the validator of a code flow, but only if it
    /// is addressed to `callback_url`.
    pub fn get_code(
        &self,
        event: &PausedRequest,
        callback_url: &str,
        csrf_token: &AntiForgeryToken,
    ) -> (inspected: Option<Option<String>>)
        ensures
            inspected is Some <==> targets_callback(event.url@, callback_url@),
            inspected matches Some(verdict) ==> inspected_code(event.url@, callback_url@, csrf_token@)
                == Some(option_text(verdict)),
    {
        inspect_for_code(event.url.as_str(), callback_url, csrf_token)
    }

    /// Shows a paused request to the validator of a flow that waits for a
    /// posted token, but only if it is addressed to `callback_url`.
    pub fn get_token_data(
        &self,
        event: &PausedRequest,
        callback_url: &str,
        csrf_token: &AntiForgeryToken,
        captured_at: u64,
    ) -> (inspected: Option<Option<TokenInfo>>)
        ensures
            inspected is Some <==> targets_callback(event.url@, callback_url@),
            inspected matches Some(verdict) ==> inspected_token(
                event.url@,
                event.method@,
                option_text(event.post_data),
                callback_url@,
                csrf_token@,
                captured_at,
            ) == Some(option_token(verdict)),
    {
        inspect_for_token(
            event.url.as_str(),
            &event.method,
            event.post_data.as_ref(),
            callback_url,
            csrf_token,
            captured_at,
        )
    }

    /// Finishes one paused request. A request that was shown to the validator
    /// is answered locally, `OK` if it resolved the flow and `NOT OK` if not,
    /// and its verdict goes to the race; any other request is passed through
    /// and leaves the race as it was.
    pub fn process_request<T>(
        &self,
        race: &mut RedirectRace<T>,
        request_id: String,
        inspected: Option<Option<T>>,
    ) -> (interception: Interception)
        ensures
            interception@ == interception_for(request_id@, inspected),
            final(race).cancellable() == old(race).cancellable(),
            final(race).outcome() == race_after(
                old(race).outcome(),
                old(race).cancellable(),
                inspected,
            ),
    {
        match inspected {
            Some(verdict) => {
                let body = fulfilment_body(verdict.is_some());
                race.step(RaceEvent::Callback(verdict));
                Interception::Fulfill { request_id, response_code: 200, body }
            },
            None => Interception::Continue { request_id },
        }
    }
}

/// As long as no page shows up, the search retries exactly as often as it has
/// retries, and then decides to create a blank page.
pub proof fn law_first_page_created_after_retries(retries: u32, looks: Seq<bool>)
    requires
        forall|i: int| 0 <= i < looks.len() ==> !#[trigger] looks[i],
    ensures
        looks.len() <= retries ==> first_page_search(retries, looks) is None,
        looks.len() > retries ==> first_page_search(retries, looks) == Some(FirstPage::CreateBlank),
    decreases looks.len(),
{
    if looks.len() > 0 {
        assert(!looks[0]);
        if retries > 0 {
            assert forall|i: int| 0 <= i < looks.drop_first().len() implies !#[trigger] looks.drop_first()[i] by {
                assert(looks.drop_first()[i] == looks[i + 1]);
            }
            law_first_page_created_after_retries((retries - 1) as u32, looks.drop_first());
        }
    }
}

/// The first look that finds a page ends the search with that page, if the
/// retries had not run out before.
pub proof fn law_first_page_found_is_used(retries: u32, misses: Seq<bool>, later: Seq<bool>)
    requires
        forall|i: int| 0 <= i < misses.len() ==> !#[trigger] misses[i],
        misses.len() <= retries,
    ensures
        first_page_search(retries, misses.push(true) + later) == Some(FirstPage::Use),
    decreases misses.len(),
{
    let looks = misses.push(true) + later;
    if misses.len() == 0 {
        assert(looks[0]);
    } else {
        assert(looks[0] == misses[0]);
        assert(!misses[0]);
        assert(looks.drop_first() =~= misses.drop_first().push(true) + later);
        assert forall|i: int| 0 <= i < misses.drop_first().len() implies !#[trigger] misses.drop_first()[i] by {
            assert(misses.drop_first()[i] == misses[i + 1]);
        }
        law_first_page_found_is_used((retries - 1) as u32, misses.drop_first(), later);
    }
}

/// A request that is not addressed to the callback endpoint is passed through
/// with nothing but its own handle, is never shown to a validator, and so is
/// treated the same whatever the flow's anti-forgery token is.
pub proof fn law_unrelated_traffic_is_transparent(
    request_id: Seq<char>,
    request_url: Seq<char>,
    callback_url: Seq<char>,
    expected: Seq<char>,
    other: Seq<char>,
)
    requires
        !targets_callback(request_url, callback_url),
    ensures
        inspected_code(request_url, callback_url, expected) is None,
        inspected_code(request_url, callback_url, expected) == inspected_code(
            request_url,
            callback_url,
            other,
        ),
        interception_for(request_id, inspected_code(request_url, callback_url, expected))
            == (InterceptionView::Continue { request_id }),
        forall|before: Option<RaceOutcome<Seq<char>>>, cancellable: bool|
            race_after(before, cancellable, inspected_code(request_url, callback_url, expected))
                == before,
        forall|method: Seq<char>, post_data: Option<Seq<char>>, captured_at: u64|
            (#[trigger] inspected_token(
                request_url,
                method,
                post_data,
                callback_url,
                expected,
                captured_at,
            )) is None,
{
}

/// A request to the callback endpoint whose query carries a code and echoes
/// the flow's anti-forgery token is answered with the `OK` page and resolves an
/// open race with that code; the same request once more is answered alike and
/// leaves the race as it is.
pub proof fn law_exact_match_resolves_once(
    request_id: Seq<char>,
    request_url: Seq<char>,
    callback_url: Seq<char>,
    expected: Seq<char>,
    code: Seq<char>,
    cancellable: bool,
)
    requires
        targets_callback(request_url, callback_url),
        first_value(url_parts(request_url)->0.query_pairs, "state"@) == Some(expected),
        first_value(url_parts(request_url)->0.query_pairs, "code"@) == Some(code),
    ensures
        inspected_code(request_url, callback_url, expected) == Some(Some(code)),
        interception_for(request_id, inspected_code(request_url, callback_url, expected))
            == fulfilment(request_id, true),
        race_after(None, cancellable, inspected_code(request_url, callback_url, expected)) == Some(
            RaceOutcome::Resolved(code),
        ),
        race_after(
            Some(RaceOutcome::Resolved(code)),
            cancellable,
            inspected_code(request_url, callback_url, expected),
        ) == Some(RaceOutcome::Resolved(code)),
{
}

/// A request to the callback endpoint that echoes a state other than the
/// flow's anti-forgery token is answered with the `NOT OK` page and leaves the
/// race exactly as it was, for a code flow and for a posted token alike.
pub proof fn law_wrong_state_is_ignored(
    request_id: Seq<char>,
    request_url: Seq<char>,
    callback_url: Seq<char>,
    expected: Seq<char>,
    state: Seq<char>,
)
    requires
        targets_callback(request_url, callback_url),
        state != expected,
    ensures
        first_value(url_parts(request_url)->0.query_pairs, "state"@) == Some(state) ==> {
            let inspected = inspected_code(request_url, callback_url, expected);
            &&& inspected == Some(None::<Seq<char>>)
            &&& interception_for(request_id, inspected) == fulfilment(request_id, false)
            &&& forall|before: Option<RaceOutcome<Seq<char>>>, cancellable: bool|
                #[trigger] race_after(before, cancellable, inspected) == before
        },
        forall|method: Seq<char>, body: Seq<char>, captured_at: u64|
            first_value(form_pairs(body), "state"@) == Some(state) ==> {
                let inspected = #[trigger] inspected_token(
                    request_url,
                    method,
                    Some(body),
                    callback_url,
                    expected,
                    captured_at,
                );
                &&& inspected == Some(None::<TokenInfoView>)
                &&& interception_for(request_id, inspected) == fulfilment(request_id, false)
                &&& forall|before: Option<RaceOutcome<TokenInfoView>>, cancellable: bool|
                    #[trigger] race_after(before, cancellable, inspected) == before
            },
{
}

/// A post to the callback endpoint that lacks `expires_in` does not end the
/// flow: it is answered with the `NOT OK` page and the race goes on as before.
pub proof fn law_malformed_post_is_ignored(
    request_id: Seq<char>,
    request_url: Seq<char>,
    method: Seq<char>,
    body: Seq<char>,
    callback_url: Seq<char>,
    expected: Seq<char>,
    captured_at: u64,
)
    requires
        targets_callback(request_url, callback_url),
        first_value(form_pairs(body), "expires_in"@) is None,
    ensures
        ({
            let inspected = inspected_token(
                request_url,
                method,
                Some(body),
                callback_url,
                expected,
                captured_at,
            );
            &&& inspected == Some(None::<TokenInfoView>)
            &&& interception_for(request_id, inspected) == fulfilment(request_id, false)
            &&& forall|before: Option<RaceOutcome<TokenInfoView>>, cancellable: bool|
                #[trigger] race_after(before, cancellable, inspected) == before
        }),
{
}

} // verus!
