//! The client side of the authorization request: where the user is sent, and
//! with which parameters. The request URL is assembled by the `oauth2` crate.

use crate::args::{Arguments, Grant};
use crate::auth_server::{listener_callback_url, AuthServer};
use crate::callback::{AntiForgeryToken, ResponseMode};
use crate::text::option_text;
use crate::wire::{pairs_view, parse_url, url_parts};
use oauth2::basic::BasicClient;
use oauth2::{AuthUrl, ClientId, CsrfToken, PkceCodeChallenge, PkceCodeVerifier, RedirectUrl, ResponseType, Scope};
use vstd::prelude::*;
use vstd::string::StringSliceAdditionalSpecFns;

verus! {

/// The URL that `oauth2::AuthorizationRequest::url` gives for a client with the
/// given authorization endpoint, client identifier and redirect URI, after the
/// response type was set, the scope and then each extra parameter were added in
/// order, with `state` as the CSRF token; `None` where the endpoint or the
/// redirect URI is no URL.
pub uninterp spec fn authorization_url_text(
    endpoint: Seq<char>,
    client_id: Seq<char>,
    redirect_uri: Seq<char>,
    response_type: Seq<char>,
    scope: Seq<char>,
    state: Seq<char>,
    extra: Seq<(Seq<char>, Seq<char>)>,
) -> Option<Seq<char>>;

/// The same for a request that also carries the S256 challenge that
/// `oauth2::PkceCodeChallenge::from_code_verifier_sha256` derives from `verifier`.
pub uninterp spec fn pkce_authorization_url_text(
    endpoint: Seq<char>,
    client_id: Seq<char>,
    redirect_uri: Seq<char>,
    response_type: Seq<char>,
    scope: Seq<char>,
    state: Seq<char>,
    extra: Seq<(Seq<char>, Seq<char>)>,
    verifier: Seq<char>,
) -> Option<Seq<char>>;

/// Whether both texts are absolute URLs.
pub open spec fn are_urls(endpoint: Seq<char>, redirect_uri: Seq<char>) -> bool {
    url_parts(endpoint) is Some && url_parts(redirect_uri) is Some
}

/// Whether `text` can serve as an authorization endpoint: an absolute URL
/// without a fragment, whose normalized text has no more than `u32::MAX` bytes.
/// Parameters can be appended to such a URL and to no other.
pub open spec fn is_endpoint(text: Seq<char>) -> bool {
    url_parts(text) matches Some(parts) && parts.fragment is None && parts.length <= u32::MAX
}

/// Builds an `oauth2::basic::BasicClient`, starts a request on it with
/// `authorize_url`, hands it the response type, the scope and each extra
/// parameter, and takes the URL from `AuthorizationRequest::url`. Trusted: the
/// result is what [`authorization_url_text`] names, and it is there exactly
/// when `AuthUrl::new` and `RedirectUrl::new` accept their texts, which they do
/// when `url::Url::parse` does. `AuthorizationRequest::url` appends the
/// parameters with `Url::query_pairs_mut`, which panics where it has to mark
/// the start of a query past `u32::MAX` bytes or to put a fragment back past
/// them; `requires` leaves out every endpoint with a fragment or of that length.
#[verifier::external_body]
fn request_url(
    endpoint: &str,
    client_id: &str,
    redirect_uri: &str,
    response_type: &str,
    scope: &str,
    state: &str,
    extra: &Vec<(String, String)>,
) -> (url: Option<String>)
    requires
        is_endpoint(endpoint@),
    ensures
        option_text(url) == authorization_url_text(endpoint@, client_id@, redirect_uri@, response_type@, scope@, state@, pairs_view(extra@)),
        url is Some <==> are_urls(endpoint@, redirect_uri@),
{
    let auth_url = AuthUrl::new(endpoint.to_owned()).ok()?;
    let client = BasicClient::new(ClientId::new(client_id.to_owned()), None, auth_url, None)
        .set_redirect_uri(RedirectUrl::new(redirect_uri.to_owned()).ok()?);
    let token = CsrfToken::new(state.to_owned());
    let request = client
        .authorize_url(move || token)
        .set_response_type(&ResponseType::new(response_type.to_owned()))
        .add_scope(Scope::new(scope.to_owned()));
    let request = extra.iter().fold(request, |r, p| r.add_extra_param(p.0.as_str(), p.1.as_str()));
    Some(request.url().0.to_string())
}

/// As [`request_url`], with `set_pkce_challenge` called on the request with the
/// challenge of `PkceCodeChallenge::from_code_verifier_sha256`. That function
/// panics on a verifier shorter than 43 or longer than 128 bytes; `requires`
/// leaves those out, and the endpoints that [`request_url`] leaves out.
/// Trusted: the result is what
/// [`pkce_authorization_url_text`] names.
#[verifier::external_body]
fn pkce_request_url(
    endpoint: &str,
    client_id: &str,
    redirect_uri: &str,
    response_type: &str,
    scope: &str,
    state: &str,
    extra: &Vec<(String, String)>,
    verifier: &str,
) -> (url: Option<String>)
    requires
        is_endpoint(endpoint@),
        43 <= verifier.spec_bytes().len() <= 128,
    ensures
        option_text(url) == pkce_authorization_url_text(endpoint@, client_id@, redirect_uri@, response_type@, scope@, state@, pairs_view(extra@), verifier@),
        url is Some <==> are_urls(endpoint@, redirect_uri@),
{
    let auth_url = AuthUrl::new(endpoint.to_owned()).ok()?;
    let client = BasicClient::new(ClientId::new(client_id.to_owned()), None, auth_url, None)
        .set_redirect_uri(RedirectUrl::new(redirect_uri.to_owned()).ok()?);
    let token = CsrfToken::new(state.to_owned());
    let challenge = PkceCodeChallenge::from_code_verifier_sha256(&PkceCodeVerifier::new(verifier.to_owned()));
    let request = client
        .authorize_url(move || token)
        .set_pkce_challenge(challenge)
        .set_response_type(&ResponseType::new(response_type.to_owned()))
        .add_scope(Scope::new(scope.to_owned()));
    let request = extra.iter().fold(request, |r, p| r.add_extra_param(p.0.as_str(), p.1.as_str()));
    Some(request.url().0.to_string())
}

/// Whether `c` belongs to the URL-safe Base64 alphabet: an ASCII letter, a
/// digit, `-` or `_`.
pub open spec fn is_url_safe_char(c: char) -> bool {
    ('A' <= c && c <= 'Z') || ('a' <= c && c <= 'z') || ('0' <= c && c <= '9') || c == '-' || c
        == '_'
}

/// The shape of the anti-forgery token of a new flow: 128 bits written in
/// URL-safe Base64 without padding, which makes 22 characters of that alphabet.
/// Such a text stands in a query unchanged.
pub open spec fn is_fresh_state(text: Seq<char>) -> bool {
    text.len() == 22 && forall|i: int| 0 <= i < text.len() ==> is_url_safe_char(#[trigger] text[i])
}

/// Calls `oauth2::CsrfToken::new_random` and takes the secret out. Trusted: the
/// text has the shape that holds of every outcome, since that function encodes
/// 16 random bytes with the URL-safe alphabet and no padding. Which text comes
/// is left open: it is random.
#[verifier::external_body]
fn random_state() -> (state: String)
    ensures
        is_fresh_state(state@),
{
    CsrfToken::new_random().secret().clone()
}

/// Makes the anti-forgery token of a new flow: a fresh random text of 22
/// characters from the URL-safe Base64 alphabet.
pub fn fresh_state() -> (token: AntiForgeryToken)
    ensures
        is_fresh_state(token@),
{
    AntiForgeryToken::new(random_state())
}

/// The description of one authorization request. It is built once for a flow
/// and not changed afterwards.
#[derive(Debug, Clone, PartialEq, Eq)]
pub struct AuthorizationRequestSpec {
    /// The provider's authorization endpoint.
    pub authorization_url: String,
    pub client_id: String,
    /// The URL that the provider delivers its answer to.
    pub callback_url: String,
    pub scope: String,
    pub audience: Option<String>,
    /// The PKCE code verifier whose S256 challenge the request carries.
    pub pkce_verifier: Option<String>,
    pub response_mode: ResponseMode,
    /// The anti-forgery token that the request carries as `state`.
    pub state: AntiForgeryToken,
}

/// The `response_type` that asks for delivery in `mode`: a code comes in the
/// query, a token in a posted form.
pub open spec fn response_type_of(mode: ResponseMode) -> Seq<char> {
    match mode {
        ResponseMode::Query => "code"@,
        ResponseMode::FormPost => "token"@,
    }
}

/// The parameters that a request carries beside those of the OAuth 2.0
/// standard: the audience, if one is asked for, and then the response mode, if
/// the answer is to be posted.
pub open spec fn extra_parameters(audience: Option<Seq<char>>, mode: ResponseMode) -> Seq<
    (Seq<char>, Seq<char>),
> {
    let first = match audience {
        Some(audience) => seq![("audience"@, audience)],
        None => seq![],
    };
    match mode {
        ResponseMode::Query => first,
        ResponseMode::FormPost => first.push(("response_mode"@, "form_post"@)),
    }
}

/// Whether a PKCE code verifier has a length that RFC 7636 allows: 43 to 128
/// bytes.
pub open spec fn verifier_length_allowed(verifier: Seq<char>) -> bool {
    43 <= vstd::utf8::encode_utf8(verifier).len() <= 128
}

/// Decides whether a text can serve as an authorization endpoint.
pub fn can_be_endpoint(text: &str) -> (fit: bool)
    ensures
        fit == is_endpoint(text@),
{
    match parse_url(text) {
        Some(parts) => parts.fragment.is_none() && parts.length <= u32::MAX as usize,
        None => false,
    }
}

impl AuthorizationRequestSpec {
    /// The URL that the user is sent to, or `None` where the endpoint cannot
    /// serve as one, the callback is no URL or the PKCE verifier has a length
    /// that is not allowed.
    pub open spec fn url_text(self) -> Option<Seq<char>> {
        let extra = extra_parameters(option_text(self.audience), self.response_mode);
        if !is_endpoint(self.authorization_url@) {
            None
        } else {
            match self.pkce_verifier {
                None => authorization_url_text(
                    self.authorization_url@,
                    self.client_id@,
                    self.callback_url@,
                    response_type_of(self.response_mode),
                    self.scope@,
                    self.state@,
                    extra,
                ),
                Some(verifier) => if verifier_length_allowed(verifier@) {
                    pkce_authorization_url_text(
                        self.authorization_url@,
                        self.client_id@,
                        self.callback_url@,
                        response_type_of(self.response_mode),
                        self.scope@,
                        self.state@,
                        extra,
                        verifier@,
                    )
                } else {
                    None
                },
            }
        }
    }

    /// Whether the request can be written as a URL.
    pub open spec fn well_formed(self) -> bool {
        &&& is_endpoint(self.authorization_url@)
        &&& url_parts(self.callback_url@) is Some
        &&& self.pkce_verifier matches Some(verifier) ==> verifier_length_allowed(verifier@)
    }

    /// The parameters beside those of the standard, in the order in which the
    /// request carries them.
    pub fn extra(&self) -> (extra: Vec<(String, String)>)
        ensures
            pairs_view(extra@) == extra_parameters(option_text(self.audience), self.response_mode),
    {
        let mut extra: Vec<(String, String)> = Vec::new();
        if let Some(audience) = &self.audience {
            extra.push(("audience".to_owned(), audience.clone()));
        }
        match self.response_mode {
            ResponseMode::Query => {},
            ResponseMode::FormPost => {
                extra.push(("response_mode".to_owned(), "form_post".to_owned()));
            },
        }
        proof {
            assert(pairs_view(extra@) =~= extra_parameters(
                option_text(self.audience),
                self.response_mode,
            ));
        }
        extra
    }

    /// Writes the request as the URL that the user is sent to.
    pub fn url(&self) -> (url: Option<String>)
        ensures
            option_text(url) == self.url_text(),
            url is Some <==> self.well_formed(),
    {
        if !can_be_endpoint(self.authorization_url.as_str()) {
            return None;
        }
        let extra = self.extra();
        let response_type = match self.response_mode {
            ResponseMode::Query => "code",
            ResponseMode::FormPost => "token",
        };
        match &self.pkce_verifier {
            None => request_url(
                self.authorization_url.as_str(),
                self.client_id.as_str(),
                self.callback_url.as_str(),
                response_type,
                self.scope.as_str(),
                self.state.secret().as_str(),
                &extra,
            ),
            Some(verifier) => {
                let length = verifier.as_str().as_bytes().len();
                if 43 <= length && length <= 128 {
                    pkce_request_url(
                        self.authorization_url.as_str(),
                        self.client_id.as_str(),
                        self.callback_url.as_str(),
                        response_type,
                        self.scope.as_str(),
                        self.state.secret().as_str(),
                        &extra,
                        verifier.as_str(),
                    )
                } else {
                    None
                }
            },
        }
    }
}

/// Why a client cannot be set up or a request cannot be written.
#[derive(Debug, Clone, Copy, PartialEq, Eq, Structural)]
pub enum ClientError {
    /// Discovery was asked for and no discovered endpoints were handed in.
    MissingEndpoints,
    /// The grant needs a token endpoint and none is configured.
    MissingTokenUrl,
    /// No authorization endpoint is configured.
    MissingAuthorizationUrl,
    /// The authorization endpoint is no absolute URL, has a fragment, or is
    /// longer than `u32::MAX` bytes.
    InvalidAuthorizationUrl,
    InvalidTokenUrl,
    InvalidRedirectUrl,
    /// The PKCE code verifier is shorter than 43 or longer than 128 bytes.
    InvalidPkceVerifier,
    /// The grant requires a PKCE code verifier and none was given.
    MissingPkceVerifier,
    /// A PKCE code verifier was given to a grant that carries no challenge.
    UnexpectedPkceVerifier,
    /// The grant sends the user nowhere, so it has no authorization request.
    NotInteractive,
}

/// The two endpoints of a provider.
#[derive(Debug, Clone, PartialEq, Eq)]
pub struct Endpoints {
    pub token_url: Option<String>,
    pub authorization_url: String,
}

/// The endpoints that a client works with: the discovered ones where the
/// arguments name a discovery URL, else the configured ones. Only the implicit
/// grant does without a token endpoint.
pub open spec fn endpoints_of(args: Arguments, discovered: Option<Endpoints>) -> Result<
    Endpoints,
    ClientError,
> {
    if args.discovery_url is Some {
        match discovered {
            Some(endpoints) => Ok(endpoints),
            None => Err(ClientError::MissingEndpoints),
        }
    } else if args.token_url is None && args.grant != Grant::Implicit {
        Err(ClientError::MissingTokenUrl)
    } else {
        match args.authorization_url {
            Some(authorization_url) => Ok(Endpoints { token_url: args.token_url, authorization_url }),
            None => Err(ClientError::MissingAuthorizationUrl),
        }
    }
}

/// Whether an optional text is absent or an absolute URL.
pub open spec fn absent_or_url(text: Option<String>) -> bool {
    text matches Some(t) ==> url_parts(t@) is Some
}

/// The first reason for which no client can be set up, if there is one.
pub open spec fn client_fault(args: Arguments, discovered: Option<Endpoints>) -> Option<
    ClientError,
> {
    match endpoints_of(args, discovered) {
        Err(error) => Some(error),
        Ok(endpoints) => if !is_endpoint(endpoints.authorization_url@) {
            Some(ClientError::InvalidAuthorizationUrl)
        } else if !absent_or_url(endpoints.token_url) {
            Some(ClientError::InvalidTokenUrl)
        } else if url_parts(listener_callback_url(args.port)) is None {
            Some(ClientError::InvalidRedirectUrl)
        } else {
            None
        },
    }
}

/// The authorization request of each grant: a code grant asks for delivery in
/// the query, with a PKCE challenge exactly where the grant is the one with
/// PKCE; the implicit grant asks for a posted token and carries no challenge;
/// the other grants have no authorization request.
pub open spec fn request_plan(grant: Grant, pkce_verifier: Option<String>) -> Result<
    ResponseMode,
    ClientError,
> {
    match grant {
        Grant::AuthorizationCodeWithPKCE => match pkce_verifier {
            Some(verifier) => if verifier_length_allowed(verifier@) {
                Ok(ResponseMode::Query)
            } else {
                Err(ClientError::InvalidPkceVerifier)
            },
            None => Err(ClientError::MissingPkceVerifier),
        },
        Grant::AuthorizationCode => if pkce_verifier is Some {
            Err(ClientError::UnexpectedPkceVerifier)
        } else {
            Ok(ResponseMode::Query)
        },
        Grant::Implicit => if pkce_verifier is Some {
            Err(ClientError::UnexpectedPkceVerifier)
        } else {
            Ok(ResponseMode::FormPost)
        },
        _ => Err(ClientError::NotInteractive),
    }
}

/// A client of one provider, set up from the arguments of a run.
pub struct OAuthClient<'a> {
    args: &'a Arguments,
    endpoints: Endpoints,
    redirect_url: String,
}

impl<'a> OAuthClient<'a> {
    #[verifier::type_invariant]
    spec fn valid(self) -> bool {
        &&& self.redirect_url@ == listener_callback_url(self.args.port)
        &&& is_endpoint(self.endpoints.authorization_url@)
        &&& url_parts(self.redirect_url@) is Some
    }

    /// The arguments that the client was set up from.
    pub closed spec fn args(&self) -> Arguments {
        *self.args
    }

    /// The endpoints that the client works with.
    pub closed spec fn endpoints(&self) -> Endpoints {
        self.endpoints
    }

    /// The URL that the provider is told to deliver its answer to.
    pub closed spec fn callback_url(&self) -> String {
        self.redirect_url
    }

    /// The request that this client makes for delivery in `mode`.
    pub open spec fn request(
        &self,
        pkce_verifier: Option<String>,
        mode: ResponseMode,
        state: AntiForgeryToken,
    ) -> AuthorizationRequestSpec {
        AuthorizationRequestSpec {
            authorization_url: self.endpoints().authorization_url,
            client_id: self.args().client_id,
            callback_url: self.callback_url(),
            scope: self.args().scope,
            audience: self.args().audience,
            pkce_verifier,
            response_mode: mode,
            state,
        }
    }

    /// Picks the endpoints of the provider.
    fn choose_endpoints(args: &Arguments, discovered: Option<Endpoints>) -> (chosen: Result<
        Endpoints,
        ClientError,
    >)
        ensures
            chosen == endpoints_of(*args, discovered),
    {
        if args.discovery_url.is_some() {
            match discovered {
                Some(endpoints) => Ok(endpoints),
                None => Err(ClientError::MissingEndpoints),
            }
        } else {
            let token_url = match &args.token_url {
                Some(url) => Some(url.clone()),
                None => None,
            };
            if token_url.is_none() && !matches!(args.grant, Grant::Implicit) {
                Err(ClientError::MissingTokenUrl)
            } else {
                match &args.authorization_url {
                    Some(url) => Ok(Endpoints { token_url, authorization_url: url.clone() }),
                    None => Err(ClientError::MissingAuthorizationUrl),
                }
            }
        }
    }

    /// Sets up the client. `discovered` holds the endpoints that discovery
    /// gave, for arguments that name a discovery URL.
    pub fn new(args: &'a Arguments, discovered: Option<Endpoints>) -> (client: Result<
        OAuthClient<'a>,
        ClientError,
    >)
        ensures
            match client {
                Ok(c) => client_fault(*args, discovered) is None && c.args() == *args && Ok::<
                    Endpoints,
                    ClientError,
                >(c.endpoints()) == endpoints_of(*args, discovered) && c.callback_url()@
                    == listener_callback_url(args.port),
                Err(error) => client_fault(*args, discovered) == Some(error),
            },
    {
        let endpoints = match Self::choose_endpoints(args, discovered) {
            Ok(endpoints) => endpoints,
            Err(error) => {
                return Err(error);
            },
        };
        if !can_be_endpoint(endpoints.authorization_url.as_str()) {
            return Err(ClientError::InvalidAuthorizationUrl);
        }
        if let Some(token_url) = &endpoints.token_url {
            if parse_url(token_url.as_str()).is_none() {
                return Err(ClientError::InvalidTokenUrl);
            }
        }
        let redirect_url = AuthServer::new(args.port).callback_url();
        if parse_url(redirect_url.as_str()).is_none() {
            return Err(ClientError::InvalidRedirectUrl);
        }
        Ok(OAuthClient { args, endpoints, redirect_url })
    }

    /// The endpoints that the client works with: the discovered ones or the
    /// configured ones, as they were chosen when the client was set up.
    pub fn chosen_endpoints(&self) -> (endpoints: &Endpoints)
        ensures
            *endpoints == self.endpoints(),
    {
        &self.endpoints
    }

    /// The redirect URI of the client, which is the callback URL of its flows.
    pub fn redirect_url(&self) -> (url: &String)
        ensures
            url == self.callback_url(),
            url@ == listener_callback_url(self.args().port),
    {
        proof {
            use_type_invariant(self);
        }
        &self.redirect_url
    }

    /// Describes the request of this client for delivery in `mode`: endpoint,
    /// client, callback, scope and audience come from the client.
    pub fn authorization_url_builder(
        &self,
        pkce_verifier: Option<String>,
        mode: ResponseMode,
        state: AntiForgeryToken,
    ) -> (request: AuthorizationRequestSpec)
        ensures
            request == self.request(pkce_verifier, mode, state),
            is_endpoint(request.authorization_url@),
            url_parts(request.callback_url@) is Some,
    {
        proof {
            use_type_invariant(self);
        }
        let audience = match &self.args.audience {
            Some(audience) => Some(audience.clone()),
            None => None,
        };
        AuthorizationRequestSpec {
            authorization_url: self.endpoints.authorization_url.clone(),
            client_id: self.args.client_id.clone(),
            callback_url: self.redirect_url.clone(),
            scope: self.args.scope.clone(),
            audience,
            pkce_verifier,
            response_mode: mode,
            state,
        }
    }

    /// Describes the authorization request of the configured grant, carrying
    /// `state`. The request that comes back can be written as a URL.
    pub fn authorization_request(
        &self,
        pkce_verifier: Option<String>,
        state: AntiForgeryToken,
    ) -> (request: Result<AuthorizationRequestSpec, ClientError>)
        ensures
            match request {
                Ok(spec) => request_plan(self.args().grant, pkce_verifier) matches Ok(mode)
                    && spec == self.request(pkce_verifier, mode, state) && spec.well_formed(),
                Err(error) => request_plan(self.args().grant, pkce_verifier) == Err::<
                    ResponseMode,
                    ClientError,
                >(error),
            },
    {
        let mode = match self.args.grant {
            Grant::AuthorizationCodeWithPKCE => {
                match &pkce_verifier {
                    Some(verifier) => {
                        let length = verifier.as_str().as_bytes().len();
                        if length < 43 || length > 128 {
                            return Err(ClientError::InvalidPkceVerifier);
                        }
                    },
                    None => {
                        return Err(ClientError::MissingPkceVerifier);
                    },
                }
                ResponseMode::Query
            },
            Grant::AuthorizationCode => {
                if pkce_verifier.is_some() {
                    return Err(ClientError::UnexpectedPkceVerifier);
                }
                ResponseMode::Query
            },
            Grant::Implicit => {
                if pkce_verifier.is_some() {
                    return Err(ClientError::UnexpectedPkceVerifier);
                }
                ResponseMode::FormPost
            },
            _ => {
                return Err(ClientError::NotInteractive);
            },
        };
        Ok(self.authorization_url_builder(pkce_verifier, mode, state))
    }

    /// Writes the authorization URL of a code flow that carries `state`, with
    /// the S256 challenge of `pkce_verifier` if one is given. Fails only on a
    /// verifier whose length is not allowed.
    pub fn authorize_url_with_state(
        &self,
        pkce_verifier: Option<String>,
        state: AntiForgeryToken,
    ) -> (written: Result<(String, AntiForgeryToken), ClientError>)
        ensures
            written is Ok <==> (pkce_verifier matches Some(v) ==> verifier_length_allowed(v@)),
            written matches Ok(pair) ==> pair.1 == state && Some(pair.0@) == self.request(
                pkce_verifier,
                ResponseMode::Query,
                state,
            ).url_text(),
            written matches Err(error) ==> error == ClientError::InvalidPkceVerifier,
    {
        let request = self.authorization_url_builder(pkce_verifier, ResponseMode::Query, state);
        match request.url() {
            Some(url) => Ok((url, request.state)),
            None => Err(ClientError::InvalidPkceVerifier),
        }
    }

    /// Writes the authorization URL of a code flow with a fresh random
    /// anti-forgery token, drawn for this call, and hands out that token with
    /// it.
    pub fn authorize_url(&self, pkce_verifier: Option<String>) -> (written: Result<
        (String, AntiForgeryToken),
        ClientError,
    >)
        ensures
            written is Ok <==> (pkce_verifier matches Some(v) ==> verifier_length_allowed(v@)),
            written matches Ok(pair) ==> is_fresh_state(pair.1@) && Some(pair.0@) == self.request(
                pkce_verifier,
                ResponseMode::Query,
                pair.1,
            ).url_text(),
            written matches Err(error) ==> error == ClientError::InvalidPkceVerifier,
    {
        self.authorize_url_with_state(pkce_verifier, fresh_state())
    }

    /// Writes the authorization URL of an implicit flow that carries `state`:
    /// it asks for a token, delivered by form post.
    pub fn implicit_url_with_state(&self, state: AntiForgeryToken) -> (written: (
        String,
        AntiForgeryToken,
    ))
        ensures
            written.1 == state,
            Some(written.0@) == self.request(None, ResponseMode::FormPost, state).url_text(),
    {
        let request = self.authorization_url_builder(None, ResponseMode::FormPost, state);
        let url = request.url();
        (url.unwrap(), request.state)
    }

    /// Writes the authorization URL of an implicit flow with a fresh random
    /// anti-forgery token, drawn for this call, and hands out that token with
    /// it.
    pub fn implicit_url(&self) -> (written: (String, AntiForgeryToken))
        ensures
            is_fresh_state(written.1@),
            Some(written.0@) == self.request(None, ResponseMode::FormPost, written.1).url_text(),
    {
        self.implicit_url_with_state(fresh_state())
    }
}

} // verus!
