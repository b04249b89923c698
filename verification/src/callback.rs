//! What a callback carries and whether it belongs to the flow that waits for it.

use crate::text::{decimal_u64, eq_literal, parse_decimal_u64};
use crate::wire::pairs_view;
use vstd::prelude::*;

verus! {

/// Why a callback is not taken as this flow's answer. Neither ends the wait:
/// the request that belongs to the flow may still arrive.
#[derive(Debug, Clone, Copy, PartialEq, Eq, Structural)]
pub enum Rejection {
    /// A field that the response mode requires is absent or unusable.
    MalformedCallback,
    /// The callback echoes a state other than this flow's anti-forgery token.
    CsrfMismatch,
}

/// How the provider delivers its answer to the callback endpoint.
#[derive(Debug, Clone, Copy, PartialEq, Eq, Structural)]
pub enum ResponseMode {
    /// A redirect whose query carries `code` and `state`.
    Query,
    /// A form post whose body carries `access_token`, `expires_in` and `state`.
    FormPost,
}

/// The fields of one callback.
#[derive(Debug, Clone, PartialEq, Eq)]
pub enum CapturedCallback {
    Code { code: String, state: String },
    Token { access_token: String, expires_in: u64, state: String },
}

/// The mathematical value of a [`CapturedCallback`].
pub enum CapturedCallbackView {
    Code { code: Seq<char>, state: Seq<char> },
    Token { access_token: Seq<char>, expires_in: u64, state: Seq<char> },
}

impl View for CapturedCallback {
    type V = CapturedCallbackView;

    open spec fn view(&self) -> CapturedCallbackView {
        match *self {
            CapturedCallback::Code { code, state } => CapturedCallbackView::Code {
                code: code@,
                state: state@,
            },
            CapturedCallback::Token {
                access_token,
                expires_in,
                state,
            } => CapturedCallbackView::Token { access_token: access_token@, expires_in, state: state@ },
        }
    }
}

impl CapturedCallbackView {
    /// The state that the callback echoes.
    pub open spec fn state(self) -> Seq<char> {
        match self {
            CapturedCallbackView::Code { state, .. } => state,
            CapturedCallbackView::Token { state, .. } => state,
        }
    }
}

/// The value of the first pair named `name`, if there is one.
pub open spec fn first_value(pairs: Seq<(Seq<char>, Seq<char>)>, name: Seq<char>) -> Option<
    Seq<char>,
>
    decreases pairs.len(),
{
    if pairs.len() == 0 {
        None
    } else if pairs[0].0 == name {
        Some(pairs[0].1)
    } else {
        first_value(pairs.drop_first(), name)
    }
}

/// `first_value` finds a pair exactly when some pair bears the name, and then
/// gives the value of the earliest one.
pub proof fn lemma_first_value(pairs: Seq<(Seq<char>, Seq<char>)>, name: Seq<char>)
    ensures
        first_value(pairs, name) is None <==> forall|i: int|
            0 <= i < pairs.len() ==> (#[trigger] pairs[i]).0 != name,
        first_value(pairs, name) matches Some(value) ==> exists|i: int|
            0 <= i < pairs.len() && (#[trigger] pairs[i]) == (name, value) && forall|j: int|
                0 <= j < i ==> (#[trigger] pairs[j]).0 != name,
    decreases pairs.len(),
{
    if pairs.len() == 0 {
    } else if pairs[0].0 == name {
        assert(pairs[0] == (name, pairs[0].1));
    } else {
        let rest = pairs.drop_first();
        lemma_first_value(rest, name);
        assert forall|i: int| 0 <= i < rest.len() implies rest[i] == pairs[i + 1] by {}
        if first_value(rest, name) is None {
            assert forall|i: int| 0 <= i < pairs.len() implies (#[trigger] pairs[i]).0 != name by {
                if i > 0 {
                    assert(rest[i - 1] == pairs[i]);
                }
            }
        } else {
            let value = first_value(rest, name)->0;
            let k = choose|i: int|
                0 <= i < rest.len() && (#[trigger] rest[i]) == (name, value) && forall|j: int|
                    0 <= j < i ==> (#[trigger] rest[j]).0 != name;
            assert(pairs[k + 1] == (name, value));
            assert forall|j: int| 0 <= j < k + 1 implies (#[trigger] pairs[j]).0 != name by {
                if j > 0 {
                    assert(rest[j - 1] == pairs[j]);
                }
            }
        }
    }
}

/// Finds the value of the first pair named `name`: `None` exactly where no pair
/// bears the name, else the value of the earliest pair that does.
pub fn find_value<'a>(pairs: &'a Vec<(String, String)>, name: &str) -> (value: Option<&'a String>)
    ensures
        value is Some <==> first_value(pairs_view(pairs@), name@) is Some,
        value matches Some(v) ==> first_value(pairs_view(pairs@), name@) == Some(v@),
        value is None <==> forall|i: int|
            0 <= i < pairs_view(pairs@).len() ==> (#[trigger] pairs_view(pairs@)[i]).0 != name@,
        value matches Some(v) ==> exists|i: int|
            0 <= i < pairs_view(pairs@).len() && (#[trigger] pairs_view(pairs@)[i]) == (name@, v@)
                && forall|j: int| 0 <= j < i ==> (#[trigger] pairs_view(pairs@)[j]).0 != name@,
{
    let ghost all = pairs_view(pairs@);
    let mut at: usize = 0;
    proof {
        assert(all.subrange(0, all.len() as int) =~= all);
    }
    while at < pairs.len()
        invariant
            at <= pairs.len(),
            all == pairs_view(pairs@),
            first_value(all, name@) == first_value(all.subrange(at as int, all.len() as int), name@),
        decreases pairs.len() - at,
    {
        let ghost rest = all.subrange(at as int, all.len() as int);
        proof {
            assert(rest[0] == all[at as int]);
            assert(rest.drop_first() =~= all.subrange(at + 1, all.len() as int));
        }
        if eq_literal(&pairs[at].0, name) {
            proof {
                lemma_first_value(all, name@);
            }
            return Some(&pairs[at].1);
        }
        at = at + 1;
    }
    proof {
        assert(all.subrange(at as int, all.len() as int).len() == 0);
        lemma_first_value(all, name@);
    }
    None
}

/// The anti-forgery token of one flow: the value that the authorization request
/// carries as `state` and that the flow's own callback echoes.
#[derive(Debug, Clone, PartialEq, Eq)]
pub struct AntiForgeryToken {
    secret: String,
}

impl View for AntiForgeryToken {
    type V = Seq<char>;

    closed spec fn view(&self) -> Seq<char> {
        self.secret@
    }
}

impl AntiForgeryToken {
    /// Wraps the secret of a flow.
    pub fn new(secret: String) -> (token: AntiForgeryToken)
        ensures
            token@ == secret@,
    {
        AntiForgeryToken { secret }
    }

    /// The secret itself.
    pub fn secret(&self) -> (secret: &String)
        ensures
            secret@ == self@,
    {
        &self.secret
    }

    /// Whether `captured_state` is this token: the same characters, no more and
    /// no fewer, with no folding of case.
    pub fn matches(&self, captured_state: &String) -> (same: bool)
        ensures
            same == (captured_state@ == self@),
    {
        *captured_state == self.secret
    }
}

/// What a callback with the decoded `pairs` carries under `mode`, or
/// `MalformedCallback` where a required field is absent or `expires_in` is no
/// unsigned decimal number of 64 bits.
pub open spec fn extracted(mode: ResponseMode, pairs: Seq<(Seq<char>, Seq<char>)>) -> Result<
    CapturedCallbackView,
    Rejection,
> {
    match mode {
        ResponseMode::Query => match (first_value(pairs, "state"@), first_value(pairs, "code"@)) {
            (Some(state), Some(code)) => Ok(CapturedCallbackView::Code { code, state }),
            _ => Err(Rejection::MalformedCallback),
        },
        ResponseMode::FormPost => match (
            first_value(pairs, "access_token"@),
            first_value(pairs, "expires_in"@),
            first_value(pairs, "state"@),
        ) {
            (Some(access_token), Some(expires_in), Some(state)) => match decimal_u64(expires_in) {
                Some(seconds) => Ok(
                    CapturedCallbackView::Token { access_token, expires_in: seconds, state },
                ),
                None => Err(Rejection::MalformedCallback),
            },
            _ => Err(Rejection::MalformedCallback),
        },
    }
}

/// The outcome of holding a callback against the expected anti-forgery token.
pub open spec fn validated(callback: CapturedCallbackView, expected: Seq<char>) -> Result<
    CapturedCallbackView,
    Rejection,
> {
    if callback.state() == expected {
        Ok(callback)
    } else {
        Err(Rejection::CsrfMismatch)
    }
}

/// Extraction followed by validation.
pub open spec fn accepted(
    mode: ResponseMode,
    pairs: Seq<(Seq<char>, Seq<char>)>,
    expected: Seq<char>,
) -> Result<CapturedCallbackView, Rejection> {
    match extracted(mode, pairs) {
        Ok(callback) => validated(callback, expected),
        Err(rejection) => Err(rejection),
    }
}

/// Whether an exec result agrees with its mathematical counterpart.
pub open spec fn agrees(
    got: Result<CapturedCallback, Rejection>,
    want: Result<CapturedCallbackView, Rejection>,
) -> bool {
    match got {
        Ok(callback) => want == Ok::<CapturedCallbackView, Rejection>(callback@),
        Err(rejection) => want == Err::<CapturedCallbackView, Rejection>(rejection),
    }
}

/// Pulls the fields that `mode` requires out of the decoded pairs of a callback.
pub fn extract(mode: ResponseMode, pairs: &Vec<(String, String)>) -> (callback: Result<
    CapturedCallback,
    Rejection,
>)
    ensures
        agrees(callback, extracted(mode, pairs_view(pairs@))),
{
    match mode {
        ResponseMode::Query => {
            match (find_value(pairs, "state"), find_value(pairs, "code")) {
                (Some(state), Some(code)) => Ok(
                    CapturedCallback::Code { code: code.clone(), state: state.clone() },
                ),
                _ => Err(Rejection::MalformedCallback),
            }
        },
        ResponseMode::FormPost => {
            match (
                find_value(pairs, "access_token"),
                find_value(pairs, "expires_in"),
                find_value(pairs, "state"),
            ) {
                (Some(access_token), Some(expires_in), Some(state)) => {
                    match parse_decimal_u64(expires_in.as_str()) {
                        Some(seconds) => Ok(
                            CapturedCallback::Token {
                                access_token: access_token.clone(),
                                expires_in: seconds,
                                state: state.clone(),
                            },
                        ),
                        None => Err(Rejection::MalformedCallback),
                    }
                },
                _ => Err(Rejection::MalformedCallback),
            }
        },
    }
}

/// Holds a callback against the flow's anti-forgery token.
pub fn validate(callback: CapturedCallback, expected: &AntiForgeryToken) -> (checked: Result<
    CapturedCallback,
    Rejection,
>)
    ensures
        agrees(checked, validated(callback@, expected@)),
{
    let same = match &callback {
        CapturedCallback::Code { state, .. } => expected.matches(state),
        CapturedCallback::Token { state, .. } => expected.matches(state),
    };
    if same {
        Ok(callback)
    } else {
        Err(Rejection::CsrfMismatch)
    }
}

/// Extracts and validates in one step.
pub fn accept(
    mode: ResponseMode,
    pairs: &Vec<(String, String)>,
    expected: &AntiForgeryToken,
) -> (checked: Result<CapturedCallback, Rejection>)
    ensures
        agrees(checked, accepted(mode, pairs_view(pairs@), expected@)),
{
    match extract(mode, pairs) {
        Ok(callback) => validate(callback, expected),
        Err(rejection) => Err(rejection),
    }
}

} // verus!
