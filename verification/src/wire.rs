//! The text formats that callbacks arrive in: URLs, form-encoded pairs and
//! Base64. Decoding and encoding are done by the `url`, `form_urlencoded` and
//! `base64` crates; this module gives their results names that the contracts of
//! the rest of the library are stated over.

use crate::text::{eq_literal, option_text};
use base64::Engine;
use vstd::prelude::*;
use vstd::string::StringSliceAdditionalSpecFns;

verus! {

/// The name/value pairs of a form-encoded text, as mathematical sequences.
pub open spec fn pairs_view(pairs: Seq<(String, String)>) -> Seq<(Seq<char>, Seq<char>)> {
    pairs.map_values(|pair: (String, String)| (pair.0@, pair.1@))
}

/// What the logic reads of a URL: its scheme, its path, the decoded pairs of
/// its query, its fragment, and how many bytes its normalized text has.
pub struct UrlParts {
    pub scheme: String,
    pub path: String,
    pub query_pairs: Vec<(String, String)>,
    pub fragment: Option<String>,
    pub length: usize,
}

/// The mathematical value of [`UrlParts`].
pub struct UrlPartsView {
    pub scheme: Seq<char>,
    pub path: Seq<char>,
    pub query_pairs: Seq<(Seq<char>, Seq<char>)>,
    pub fragment: Option<Seq<char>>,
    pub length: nat,
}

impl View for UrlParts {
    type V = UrlPartsView;

    open spec fn view(&self) -> UrlPartsView {
        UrlPartsView {
            scheme: self.scheme@,
            path: self.path@,
            query_pairs: pairs_view(self.query_pairs@),
            fragment: option_text(self.fragment),
            length: self.length as nat,
        }
    }
}

/// The pairs that `form_urlencoded::parse` yields for the UTF-8 bytes of `input`,
/// in order, each name and value percent-decoded.
pub uninterp spec fn form_pairs(input: Seq<char>) -> Seq<(Seq<char>, Seq<char>)>;

/// What `url::Url::parse` reads from `input`: the scheme as `Url::scheme`
/// gives it, in lower case, the path and the query pairs of the URL, the fragment that `Url::fragment` gives, and the length in bytes of
/// `Url::as_str`; `None` where parsing reports an error.
pub uninterp spec fn url_parts(input: Seq<char>) -> Option<UrlPartsView>;

/// Whether `a` and `b` both parse as URLs and `url::Url::origin` gives equal
/// origins for them.
pub uninterp spec fn same_origin(a: Seq<char>, b: Seq<char>) -> bool;

/// The text that the standard Base64 alphabet with padding gives for the UTF-8
/// bytes of `input`.
pub uninterp spec fn base64_standard(input: Seq<char>) -> Seq<char>;

/// Calls `form_urlencoded::parse` on the bytes of `input` and collects the pairs
/// it yields as owned strings. Trusted: the result is what [`form_pairs`] names.
#[verifier::external_body]
pub(crate) fn parse_form(input: &str) -> (pairs: Vec<(String, String)>)
    ensures
        pairs_view(pairs@) == form_pairs(input@),
{
    form_urlencoded::parse(input.as_bytes()).into_owned().collect()
}

/// Calls `url::Url::parse`, then `Url::scheme`, `Url::path`, `Url::query_pairs`,
/// `Url::fragment` and `Url::as_str` on the URL it gives. Trusted: the result is
/// what [`url_parts`] names, `None` exactly where parsing fails.
#[verifier::external_body]
pub(crate) fn parse_url(input: &str) -> (parts: Option<UrlParts>)
    ensures
        parts is Some <==> url_parts(input@) is Some,
        parts matches Some(p) ==> url_parts(input@) == Some(p@),
{
    let url = url::Url::parse(input).ok()?;
    Some(UrlParts {
        scheme: url.scheme().to_owned(),
        path: url.path().to_owned(),
        query_pairs: url.query_pairs().into_owned().collect(),
        fragment: url.fragment().map(str::to_owned),
        length: url.as_str().len(),
    })
}

/// Whether `text` is a URL of the scheme `blob`. The origin of such a URL is
/// that of the URL in its path, which may be a `blob` URL in turn.
pub open spec fn is_blob(text: Seq<char>) -> bool {
    url_parts(text) matches Some(parts) && parts.scheme == "blob"@
}

/// Calls `url::Url::parse` on both texts and compares what `Url::origin` gives
/// for them with `==`. Trusted: the result is what [`same_origin`] names; it is
/// `false` where either text does not parse. For a `blob` URL `Url::origin`
/// calls itself once for each `blob:` that the path begins with, and a long
/// run of them exhausts the stack; `requires` leaves every `blob` URL out.
#[verifier::external_body]
fn compare_origins(a: &str, b: &str) -> (same: bool)
    requires
        !is_blob(a@),
        !is_blob(b@),
    ensures
        same == same_origin(a@, b@),
{
    match (url::Url::parse(a), url::Url::parse(b)) {
        (Ok(a), Ok(b)) => a.origin() == b.origin(),
        _ => false,
    }
}

/// Calls `base64::engine::general_purpose::STANDARD.encode` on the bytes of
/// `input`. Trusted: the result is what [`base64_standard`] names. The encoder
/// panics where the length of its output overflows `usize`; `requires` leaves
/// those inputs out.
#[verifier::external_body]
pub(crate) fn encode_base64(input: &str) -> (encoded: String)
    requires
        input.spec_bytes().len() / 3 * 4 + 4 <= usize::MAX,
    ensures
        encoded@ == base64_standard(input@),
{
    base64::engine::general_purpose::STANDARD.encode(input)
}

/// Whether a request to `request_url` is addressed to the endpoint `callback_url`:
/// both are URLs, neither of the scheme `blob`, of one origin and with the same
/// path.
pub open spec fn targets_callback(request_url: Seq<char>, callback_url: Seq<char>) -> bool {
    &&& url_parts(request_url) is Some
    &&& url_parts(callback_url) is Some
    &&& !is_blob(request_url)
    &&& !is_blob(callback_url)
    &&& same_origin(request_url, callback_url)
    &&& url_parts(request_url)->0.path == url_parts(callback_url)->0.path
}

/// Decides whether a request is addressed to the callback endpoint.
pub fn is_callback_target(request_url: &str, callback_url: &str) -> (hit: bool)
    ensures
        hit == targets_callback(request_url@, callback_url@),
{
    match (parse_url(request_url), parse_url(callback_url)) {
        (Some(request), Some(callback)) => {
            if eq_literal(&request.scheme, "blob") || eq_literal(&callback.scheme, "blob") {
                false
            } else {
                compare_origins(request_url, callback_url) && request.path == callback.path
            }
        },
        _ => false,
    }
}

} // verus!
