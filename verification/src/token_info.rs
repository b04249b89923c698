//! The result of a completed flow.

use crate::text::option_text;
use vstd::prelude::*;
use vstd::string::StringExecFns;

verus! {

/// A token as handed to the caller of a flow. Times are whole seconds since
/// the Unix epoch.
#[derive(Debug, Clone, PartialEq, Eq)]
pub struct TokenInfo {
    pub access_token: String,
    pub refresh_token: Option<String>,
    pub expires: Option<u64>,
    pub scope: Option<String>,
}

/// The mathematical value of a [`TokenInfo`].
pub struct TokenInfoView {
    pub access_token: Seq<char>,
    pub refresh_token: Option<Seq<char>>,
    pub expires: Option<u64>,
    pub scope: Option<Seq<char>>,
}

impl View for TokenInfo {
    type V = TokenInfoView;

    open spec fn view(&self) -> TokenInfoView {
        TokenInfoView {
            access_token: self.access_token@,
            refresh_token: option_text(self.refresh_token),
            expires: self.expires,
            scope: option_text(self.scope),
        }
    }
}

/// The token that a provider issues directly: no refresh token, no scope, and an
/// expiry `expires_in` seconds after `captured_at`.
pub open spec fn issued_directly(access_token: Seq<char>, captured_at: u64, expires_in: u64)
    -> TokenInfoView
    recommends
        captured_at + expires_in <= u64::MAX,
{
    TokenInfoView {
        access_token,
        refresh_token: None,
        expires: Some((captured_at + expires_in) as u64),
        scope: None,
    }
}

/// The scopes of a token as one text: the scopes in order, with one space
/// between neighbours.
pub open spec fn joined_scopes(scopes: Seq<String>) -> Seq<char>
    decreases scopes.len(),
{
    if scopes.len() == 0 {
        Seq::empty()
    } else if scopes.len() == 1 {
        scopes[0]@
    } else {
        joined_scopes(scopes.drop_last()) + seq![' '] + scopes.last()@
    }
}

/// The token that a token endpoint answers with, received at `received_at`:
/// the fields as answered, the lifetime turned into an expiry and the scopes
/// joined.
pub open spec fn answered(
    access_token: Seq<char>,
    refresh_token: Option<Seq<char>>,
    expires_in: Option<u64>,
    scopes: Option<Vec<String>>,
    received_at: u64,
) -> TokenInfoView {
    TokenInfoView {
        access_token,
        refresh_token,
        expires: match expires_in {
            Some(lifetime) => Some((received_at + lifetime) as u64),
            None => None,
        },
        scope: match scopes {
            Some(all) => Some(joined_scopes(all@)),
            None => None,
        },
    }
}

/// Writes scopes as one text, separated by single spaces.
pub fn join_scopes(scopes: &Vec<String>) -> (text: String)
    ensures
        text@ == joined_scopes(scopes@),
{
    let mut text = String::new();
    let mut at: usize = 0;
    while at < scopes.len()
        invariant
            at <= scopes.len(),
            text@ == joined_scopes(scopes@.subrange(0, at as int)),
        decreases scopes.len() - at,
    {
        let ghost before = scopes@.subrange(0, at as int);
        let ghost after = scopes@.subrange(0, at + 1);
        proof {
            reveal_strlit(" ");
            assert(after.drop_last() =~= before);
            assert(after.last() == scopes@[at as int]);
        }
        if at > 0 {
            text.append(" ");
            assert(text@ =~= joined_scopes(before) + seq![' ']);
        }
        text.append(scopes[at].as_str());
        assert(text@ =~= joined_scopes(after));
        at = at + 1;
    }
    proof {
        assert(scopes@.subrange(0, at as int) =~= scopes@);
    }
    text
}

impl TokenInfo {
    /// Builds the token of a directly issued access token, or `None` where the
    /// expiry is past the last second that 64 bits can hold.
    pub fn from_direct_issue(access_token: String, captured_at: u64, expires_in: u64) -> (token:
        Option<TokenInfo>)
        ensures
            token is Some <==> captured_at + expires_in <= u64::MAX,
            token matches Some(t) ==> t@ == issued_directly(access_token@, captured_at, expires_in),
    {
        match captured_at.checked_add(expires_in) {
            Some(expires) => Some(
                TokenInfo { access_token, refresh_token: None, expires: Some(expires), scope: None },
            ),
            None => None,
        }
    }

    /// Builds the token of a token endpoint's answer that was received at
    /// `received_at`, or `None` where the expiry is past the last second that
    /// 64 bits can hold.
    pub fn from_token_response(
        access_token: String,
        refresh_token: Option<String>,
        expires_in: Option<u64>,
        scopes: Option<Vec<String>>,
        received_at: u64,
    ) -> (token: Option<TokenInfo>)
        ensures
            token is Some <==> (expires_in matches Some(lifetime) ==> received_at + lifetime
                <= u64::MAX),
            token matches Some(t) ==> t@ == answered(
                access_token@,
                option_text(refresh_token),
                expires_in,
                scopes,
                received_at,
            ),
    {
        let expires = match expires_in {
            Some(lifetime) => match received_at.checked_add(lifetime) {
                Some(at) => Some(at),
                None => {
                    return None;
                },
            },
            None => None,
        };
        let scope = match &scopes {
            Some(all) => Some(join_scopes(all)),
            None => None,
        };
        Some(TokenInfo { access_token, refresh_token, expires, scope })
    }
}

} // verus!
