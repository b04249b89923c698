//! The two validators that a channel runs on a request addressed to the callback
//! endpoint: one for flows that deliver an authorization code in the query, one
//! for flows that post the token itself.

use crate::callback::{
    accept, accepted, extracted, first_value, AntiForgeryToken, CapturedCallback,
    CapturedCallbackView, Rejection, ResponseMode,
};
use crate::text::{decimal_u64, eq_literal, option_text};
use crate::token_info::{issued_directly, TokenInfo, TokenInfoView};
use crate::wire::{
    form_pairs, is_callback_target, parse_form, parse_url, targets_callback, url_parts,
};
use vstd::prelude::*;

verus! {

/// The authorization code that a request to `request_url` delivers to the flow
/// whose anti-forgery token is `expected`, or why it delivers none.
pub open spec fn code_callback(request_url: Seq<char>, expected: Seq<char>) -> Result<
    Seq<char>,
    Rejection,
> {
    match url_parts(request_url) {
        Some(parts) => match accepted(ResponseMode::Query, parts.query_pairs, expected) {
            Ok(CapturedCallbackView::Code { code, .. }) => Ok(code),
            Ok(_) => Err(Rejection::MalformedCallback),
            Err(rejection) => Err(rejection),
        },
        None => Err(Rejection::MalformedCallback),
    }
}

/// The token that a request with the given method and body delivers at
/// `captured_at` to the flow whose anti-forgery token is `expected`, or why it
/// delivers none. Only a `POST` with a body can deliver one, and its expiry has
/// to fit in 64 bits.
pub open spec fn token_callback(
    method: Seq<char>,
    body: Option<Seq<char>>,
    expected: Seq<char>,
    captured_at: u64,
) -> Result<TokenInfoView, Rejection> {
    if method == "POST"@ && body is Some {
        match accepted(ResponseMode::FormPost, form_pairs(body->0), expected) {
            Ok(CapturedCallbackView::Token { access_token, expires_in, .. }) => if captured_at
                + expires_in <= u64::MAX {
                Ok(issued_directly(access_token, captured_at, expires_in))
            } else {
                Err(Rejection::MalformedCallback)
            },
            Ok(_) => Err(Rejection::MalformedCallback),
            Err(rejection) => Err(rejection),
        }
    } else {
        Err(Rejection::MalformedCallback)
    }
}

/// What the validator of a code flow is asked about a request: `None` where the
/// request is not addressed to the callback endpoint and is therefore never
/// shown to the validator, else the validator's verdict.
pub open spec fn inspected_code(
    request_url: Seq<char>,
    callback_url: Seq<char>,
    expected: Seq<char>,
) -> Option<Option<Seq<char>>> {
    if targets_callback(request_url, callback_url) {
        Some(
            match code_callback(request_url, expected) {
                Ok(code) => Some(code),
                Err(_) => None,
            },
        )
    } else {
        None
    }
}

/// The same for a flow that waits for a posted token.
pub open spec fn inspected_token(
    request_url: Seq<char>,
    method: Seq<char>,
    post_data: Option<Seq<char>>,
    callback_url: Seq<char>,
    expected: Seq<char>,
    captured_at: u64,
) -> Option<Option<TokenInfoView>> {
    if targets_callback(request_url, callback_url) {
        Some(
            match token_callback(method, post_data, expected, captured_at) {
                Ok(token) => Some(token),
                Err(_) => None,
            },
        )
    } else {
        None
    }
}

/// Whether a validator's answer is the one that the rules give.
pub open spec fn code_agrees(got: Result<String, Rejection>, want: Result<Seq<char>, Rejection>) -> bool {
    match got {
        Ok(code) => want == Ok::<Seq<char>, Rejection>(code@),
        Err(rejection) => want == Err::<Seq<char>, Rejection>(rejection),
    }
}

/// Whether a validator's answer is the one that the rules give.
pub open spec fn token_agrees(
    got: Result<TokenInfo, Rejection>,
    want: Result<TokenInfoView, Rejection>,
) -> bool {
    match got {
        Ok(token) => want == Ok::<TokenInfoView, Rejection>(token@),
        Err(rejection) => want == Err::<TokenInfoView, Rejection>(rejection),
    }
}

/// Validates a redirect that should carry `code` and `state` in its query.
pub fn code_from_url(request_url: &str, expected: &AntiForgeryToken) -> (code: Result<
    String,
    Rejection,
>)
    ensures
        code_agrees(code, code_callback(request_url@, expected@)),
{
    match parse_url(request_url) {
        Some(parts) => match accept(ResponseMode::Query, &parts.query_pairs, expected) {
            Ok(CapturedCallback::Code { code, .. }) => Ok(code),
            Ok(_) => Err(Rejection::MalformedCallback),
            Err(rejection) => Err(rejection),
        },
        None => Err(Rejection::MalformedCallback),
    }
}

/// Validates a form post that should carry `access_token`, `expires_in` and
/// `state` in its body.
pub fn token_from_form(
    method: &String,
    body: Option<&String>,
    expected: &AntiForgeryToken,
    captured_at: u64,
) -> (token: Result<TokenInfo, Rejection>)
    ensures
        token_agrees(
            token,
            token_callback(
                method@,
                match body {
                    Some(text) => Some(text@),
                    None => None,
                },
                expected@,
                captured_at,
            ),
        ),
{
    if !eq_literal(method, "POST") {
        return Err(Rejection::MalformedCallback);
    }
    let text = match body {
        Some(text) => text,
        None => {
            return Err(Rejection::MalformedCallback);
        },
    };
    let pairs = parse_form(text.as_str());
    match accept(ResponseMode::FormPost, &pairs, expected) {
        Ok(CapturedCallback::Token { access_token, expires_in, .. }) => {
            match TokenInfo::from_direct_issue(access_token, captured_at, expires_in) {
                Some(token) => Ok(token),
                None => Err(Rejection::MalformedCallback),
            }
        },
        Ok(_) => Err(Rejection::MalformedCallback),
        Err(rejection) => Err(rejection),
    }
}

/// The mathematical value of an optional token.
pub open spec fn option_token(token: Option<TokenInfo>) -> Option<TokenInfoView> {
    match token {
        Some(t) => Some(t@),
        None => None,
    }
}

/// Shows a request to the validator of a code flow, but only if it is
/// addressed to `callback_url`.
pub fn inspect_for_code(request_url: &str, callback_url: &str, expected: &AntiForgeryToken) -> (
inspected: Option<Option<String>>)
    ensures
        inspected is Some <==> targets_callback(request_url@, callback_url@),
        inspected matches Some(verdict) ==> inspected_code(request_url@, callback_url@, expected@)
            == Some(option_text(verdict)),
{
    if is_callback_target(request_url, callback_url) {
        match code_from_url(request_url, expected) {
            Ok(code) => Some(Some(code)),
            Err(_) => Some(None),
        }
    } else {
        None
    }
}

/// Shows a request to the validator of a flow that waits for a posted token,
/// but only if it is addressed to `callback_url`.
pub fn inspect_for_token(
    request_url: &str,
    method: &String,
    body: Option<&String>,
    callback_url: &str,
    expected: &AntiForgeryToken,
    captured_at: u64,
) -> (inspected: Option<Option<TokenInfo>>)
    ensures
        inspected is Some <==> targets_callback(request_url@, callback_url@),
        inspected matches Some(verdict) ==> inspected_token(
            request_url@,
            method@,
            match body {
                Some(text) => Some(text@),
                None => None,
            },
            callback_url@,
            expected@,
            captured_at,
        ) == Some(option_token(verdict)),
{
    if is_callback_target(request_url, callback_url) {
        match token_from_form(method, body, expected, captured_at) {
            Ok(token) => Some(Some(token)),
            Err(_) => Some(None),
        }
    } else {
        None
    }
}

/// A redirect whose query carries a code and echoes the flow's anti-forgery
/// token exactly delivers that code.
pub proof fn law_matching_redirect_delivers_code(
    request_url: Seq<char>,
    expected: Seq<char>,
    code: Seq<char>,
)
    requires
        url_parts(request_url) matches Some(parts) && first_value(parts.query_pairs, "state"@)
            == Some(expected) && first_value(parts.query_pairs, "code"@) == Some(code),
    ensures
        code_callback(request_url, expected) == Ok::<Seq<char>, Rejection>(code),
{
}

/// A redirect that echoes a state other than the flow's anti-forgery token
/// delivers nothing, whatever else it carries: with a code it is a forgery
/// mismatch, without one it is malformed.
pub proof fn law_wrong_state_delivers_no_code(
    request_url: Seq<char>,
    expected: Seq<char>,
    state: Seq<char>,
)
    requires
        url_parts(request_url) matches Some(parts) && first_value(parts.query_pairs, "state"@)
            == Some(state),
        state != expected,
    ensures
        code_callback(request_url, expected) is Err,
        first_value(url_parts(request_url)->0.query_pairs, "code"@) is Some ==> code_callback(
            request_url,
            expected,
        ) == Err::<Seq<char>, Rejection>(Rejection::CsrfMismatch),
        first_value(url_parts(request_url)->0.query_pairs, "code"@) is None ==> code_callback(
            request_url,
            expected,
        ) == Err::<Seq<char>, Rejection>(Rejection::MalformedCallback),
{
}

/// A form post that echoes a state other than the flow's anti-forgery token
/// delivers no token, whatever else it carries.
pub proof fn law_wrong_state_delivers_no_token(
    method: Seq<char>,
    body: Seq<char>,
    expected: Seq<char>,
    state: Seq<char>,
    captured_at: u64,
)
    requires
        first_value(form_pairs(body), "state"@) == Some(state),
        state != expected,
    ensures
        token_callback(method, Some(body), expected, captured_at) is Err,
{
}

/// A form post that lacks one of `access_token`, `expires_in` and `state`, or
/// whose `expires_in` is no number, is malformed: it yields no token and no
/// other failure.
pub proof fn law_incomplete_post_is_malformed(
    method: Seq<char>,
    body: Seq<char>,
    expected: Seq<char>,
    captured_at: u64,
)
    requires
        ({
            let pairs = form_pairs(body);
            ||| first_value(pairs, "access_token"@) is None
            ||| first_value(pairs, "expires_in"@) is None
            ||| first_value(pairs, "state"@) is None
            ||| first_value(pairs, "expires_in"@) matches Some(text) && decimal_u64(text) is None
        }),
    ensures
        extracted(ResponseMode::FormPost, form_pairs(body)) == Err::<
            CapturedCallbackView,
            Rejection,
        >(Rejection::MalformedCallback),
        token_callback(method, Some(body), expected, captured_at) == Err::<
            crate::token_info::TokenInfoView,
            Rejection,
        >(Rejection::MalformedCallback),
{
}

/// A form post that carries an access token, a lifetime in seconds and the
/// flow's anti-forgery token delivers exactly this token: the access token as
/// posted, an expiry that many seconds after the capture, no refresh token and
/// no scope.
pub proof fn law_matching_post_delivers_token(
    body: Seq<char>,
    expected: Seq<char>,
    access_token: Seq<char>,
    lifetime: Seq<char>,
    seconds: u64,
    captured_at: u64,
)
    requires
        first_value(form_pairs(body), "access_token"@) == Some(access_token),
        first_value(form_pairs(body), "expires_in"@) == Some(lifetime),
        first_value(form_pairs(body), "state"@) == Some(expected),
        decimal_u64(lifetime) == Some(seconds),
        captured_at + seconds <= u64::MAX,
    ensures
        token_callback("POST"@, Some(body), expected, captured_at) == Ok::<
            crate::token_info::TokenInfoView,
            Rejection,
        >(
            crate::token_info::TokenInfoView {
                access_token,
                refresh_token: None,
                expires: Some((captured_at + seconds) as u64),
                scope: None,
            },
        ),
{
}

} // verus!
