//! The implicit grant: the user is sent to the provider, and the provider posts
//! the token itself to the local listener.

use crate::args::Arguments;
use crate::auth_server::{is_default_message, listener_token, AuthServer, HttpResponse, ListenerRequest};
use crate::callback::{AntiForgeryToken, ResponseMode};
use crate::oauth_client::{fresh_state, is_fresh_state, OAuthClient};
use crate::race::{outcome_result, RaceError, RaceEvent, RaceOutcome, RedirectRace};
use crate::token_info::TokenInfo;
use vstd::prelude::*;

verus! {

/// Retrieves a token with the implicit grant.
pub struct ImplicitRetriever<'a> {
    args: &'a Arguments,
    oauth_client: &'a OAuthClient<'a>,
}

/// One run of the implicit grant, from the authorization request to the
/// outcome of the race.
pub struct ImplicitFlow {
    authorization_url: String,
    timeout: u64,
    server: AuthServer,
    csrf_token: AntiForgeryToken,
    race: RedirectRace<TokenInfo>,
}

impl<'a> ImplicitRetriever<'a> {
    /// The arguments of the run.
    pub closed spec fn args(&self) -> Arguments {
        *self.args
    }

    /// The client that writes the authorization request.
    pub closed spec fn oauth_client(&self) -> OAuthClient<'a> {
        *self.oauth_client
    }

    /// Puts the parts of the retriever together.
    pub fn new(args: &'a Arguments, oauth_client: &'a OAuthClient<'a>) -> (retriever:
        ImplicitRetriever<'a>)
        ensures
            retriever.args() == *args,
            retriever.oauth_client() == *oauth_client,
    {
        ImplicitRetriever { args, oauth_client }
    }

    /// Starts a flow that carries `state` as its anti-forgery token: writes
    /// the authorization request, describes the listener on the configured
    /// port and opens the race, which has no cancellation signal.
    pub fn retrieve_with_state(&self, state: AntiForgeryToken) -> (flow: ImplicitFlow)
        ensures
            Some(flow.authorization_url()) == self.oauth_client().request(
                None,
                ResponseMode::FormPost,
                state,
            ).url_text(),
            flow.timeout() == self.args().timeout,
            flow.port() == self.args().port,
            flow.csrf_token() == state,
            flow.outcome() is None,
    {
        let (authorization_url, csrf_token) = self.oauth_client.implicit_url_with_state(state);
        ImplicitFlow {
            authorization_url,
            timeout: self.args.timeout,
            server: AuthServer::new(self.args.port),
            csrf_token,
            race: AuthServer::start_race(),
        }
    }

    /// Starts a flow with a fresh random anti-forgery token.
    pub fn retrieve(&self) -> (flow: ImplicitFlow)
        ensures
            is_fresh_state(flow.csrf_token()@),
            Some(flow.authorization_url()) == self.oauth_client().request(
                None,
                ResponseMode::FormPost,
                flow.csrf_token(),
            ).url_text(),
            flow.timeout() == self.args().timeout,
            flow.port() == self.args().port,
            flow.outcome() is None,
    {
        self.retrieve_with_state(fresh_state())
    }
}

impl ImplicitFlow {
    /// The URL to send the user to.
    pub closed spec fn authorization_url(&self) -> Seq<char> {
        self.authorization_url@
    }

    /// How long the flow waits for its callback, in milliseconds.
    pub closed spec fn timeout(&self) -> u64 {
        self.timeout
    }

    /// The port of the flow's listener.
    pub closed spec fn port(&self) -> u16 {
        self.server.port()
    }

    /// The anti-forgery token of the flow.
    pub closed spec fn csrf_token(&self) -> AntiForgeryToken {
        self.csrf_token
    }

    /// The state that the flow's callback has to echo.
    pub open spec fn expected(&self) -> Seq<char> {
        self.csrf_token()@
    }

    /// The outcome of the flow's race so far.
    pub closed spec fn outcome(&self) -> Option<RaceOutcome<TokenInfo>> {
        self.race.outcome()
    }

    /// The listener of the flow.
    pub fn server(&self) -> (server: AuthServer)
        ensures
            server.port() == self.port(),
    {
        self.server
    }

    /// The URL to send the user to.
    pub fn url(&self) -> (url: &String)
        ensures
            url@ == self.authorization_url(),
    {
        &self.authorization_url
    }

    /// How long to wait for the callback, in milliseconds.
    pub fn wait_ms(&self) -> (timeout: u64)
        ensures
            timeout == self.timeout(),
    {
        self.timeout
    }

    /// Whether the flow still waits.
    pub fn is_pending(&self) -> (pending: bool)
        ensures
            pending == (self.outcome() is None),
    {
        self.race.is_pending()
    }

    /// Takes one request that the listener accepted at `captured_at` seconds
    /// since the Unix epoch, and says what to answer. A flow that still waits
    /// is resolved by a request that delivers its token and left waiting by
    /// any other; a flow that has its outcome keeps it.
    pub fn on_request(&mut self, request: &ListenerRequest, captured_at: u64) -> (response:
        HttpResponse)
        ensures
            is_default_message(response),
            final(self).authorization_url() == old(self).authorization_url(),
            final(self).timeout() == old(self).timeout(),
            final(self).port() == old(self).port(),
            final(self).csrf_token() == old(self).csrf_token(),
            old(self).outcome() is Some ==> final(self).outcome() == old(self).outcome(),
            old(self).outcome() is None ==> match listener_token(
                old(self).port(),
                request.method@,
                request.url@,
                request.body@,
                old(self).expected(),
                captured_at,
            ) {
                Some(token) => final(self).outcome() matches Some(RaceOutcome::Resolved(t)) && t@
                    == token,
                None => final(self).outcome() is None,
            },
    {
        let verdict = self.server.get_token_data(request, &self.csrf_token, captured_at);
        self.server.process_request(&mut self.race, verdict)
    }

    /// Tells the flow that its timeout elapsed: a flow that still waits ends
    /// as timed out.
    pub fn on_timeout(&mut self)
        ensures
            final(self).authorization_url() == old(self).authorization_url(),
            final(self).timeout() == old(self).timeout(),
            final(self).port() == old(self).port(),
            final(self).csrf_token() == old(self).csrf_token(),
            final(self).outcome() == match old(self).outcome() {
                Some(outcome) => Some(outcome),
                None => Some(RaceOutcome::TimedOut),
            },
    {
        self.race.step(RaceEvent::TimerElapsed);
    }

    /// Ends the flow and hands out its result, `None` if it was still waiting.
    pub fn finish(self) -> (result: Option<Result<TokenInfo, RaceError>>)
        ensures
            result == match self.outcome() {
                Some(outcome) => Some(outcome_result(outcome)),
                None => None,
            },
    {
        self.race.conclude()
    }
}

} // verus!
