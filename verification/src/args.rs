//! The configuration of one run and the rules that tie its arguments to the
//! grant that was chosen.

use crate::callback::ResponseMode;
use crate::text::eq_literal;
use vstd::prelude::*;

verus! {

/// The grant that a token is asked for with.
#[derive(Debug, Clone, Copy, PartialEq, Eq, Structural)]
pub enum Grant {
    /// Authorization code with PKCE (RFC 7636).
    AuthorizationCodeWithPKCE,
    /// Authorization code (RFC 6749, section 4.1).
    AuthorizationCode,
    /// Implicit (RFC 6749, section 4.2).
    Implicit,
    /// Resource owner password credentials (RFC 6749, section 4.3).
    ResourceOwnerPasswordClientCredentials,
    /// Client credentials (RFC 6749, section 4.4).
    ClientCredentials,
}

/// Which of the tokens of a token response is handed out.
#[derive(Debug, Clone, Copy, PartialEq, Eq, Structural)]
pub enum TokenType {
    IdToken,
    AccessToken,
}

/// What a callback has to be searched for.
#[derive(Debug, Clone, Copy, PartialEq, Eq, Structural)]
pub enum ExtractionTarget {
    /// An authorization code, to be exchanged for a token.
    Code,
    /// The token itself.
    Token,
}

impl Grant {
    /// Whether the grant sends the user through the provider's pages and so
    /// waits for a callback.
    pub open spec fn interactive(self) -> bool {
        self == Grant::AuthorizationCodeWithPKCE || self == Grant::AuthorizationCode || self
            == Grant::Implicit
    }

    /// How the provider delivers its answer, for the grants that wait for one.
    pub open spec fn delivery(self) -> Option<ResponseMode> {
        match self {
            Grant::AuthorizationCodeWithPKCE => Some(ResponseMode::Query),
            Grant::AuthorizationCode => Some(ResponseMode::Query),
            Grant::Implicit => Some(ResponseMode::FormPost),
            _ => None,
        }
    }

    /// What the callback is searched for, for the grants that wait for one.
    pub open spec fn target(self) -> Option<ExtractionTarget> {
        match self {
            Grant::AuthorizationCodeWithPKCE => Some(ExtractionTarget::Code),
            Grant::AuthorizationCode => Some(ExtractionTarget::Code),
            Grant::Implicit => Some(ExtractionTarget::Token),
            _ => None,
        }
    }

    /// Whether the grant uses the interception subsystem.
    pub fn is_interactive(&self) -> (interactive: bool)
        ensures
            interactive == self.interactive(),
    {
        match self {
            Grant::AuthorizationCodeWithPKCE => true,
            Grant::AuthorizationCode => true,
            Grant::Implicit => true,
            _ => false,
        }
    }

    /// The response mode that the authorization request asks for.
    pub fn response_mode(&self) -> (mode: Option<ResponseMode>)
        ensures
            mode == self.delivery(),
    {
        match self {
            Grant::AuthorizationCodeWithPKCE => Some(ResponseMode::Query),
            Grant::AuthorizationCode => Some(ResponseMode::Query),
            Grant::Implicit => Some(ResponseMode::FormPost),
            _ => None,
        }
    }

    /// Whether the authorization request must carry a PKCE challenge.
    pub fn requires_pkce(&self) -> (required: bool)
        ensures
            required == (*self == Grant::AuthorizationCodeWithPKCE),
    {
        match self {
            Grant::AuthorizationCodeWithPKCE => true,
            _ => false,
        }
    }

    /// What the callback is searched for.
    pub fn extraction_target(&self) -> (target: Option<ExtractionTarget>)
        ensures
            target == self.target(),
    {
        match self {
            Grant::AuthorizationCodeWithPKCE => Some(ExtractionTarget::Code),
            Grant::AuthorizationCode => Some(ExtractionTarget::Code),
            Grant::Implicit => Some(ExtractionTarget::Token),
            _ => None,
        }
    }
}

/// The configuration of one run. It is fixed before a flow starts and is not
/// changed while the flow runs.
#[derive(Debug, Clone, PartialEq, Eq)]
pub struct Arguments {
    /// Authentication grant.
    pub grant: Grant,
    /// OAuth 2.0 token exchange URL.
    pub token_url: Option<String>,
    /// OAuth 2.0 authorization initiation URL.
    pub authorization_url: Option<String>,
    /// OpenID Connect discovery URL.
    pub discovery_url: Option<String>,
    /// OAuth 2.0 client identifier.
    pub client_id: String,
    /// Port of the callback URL.
    pub port: u16,
    /// OAuth 2.0 client secret.
    pub client_secret: Option<String>,
    /// Whether the client secret is read from standard input.
    pub client_secret_stdin: bool,
    /// User name for the resource owner password credentials grant.
    pub username: Option<String>,
    /// Password for the resource owner password credentials grant.
    pub password: Option<String>,
    /// Whether the password is read from standard input.
    pub password_stdin: bool,
    /// OAuth 2.0 scope.
    pub scope: String,
    /// OpenID Connect requested audience.
    pub audience: Option<String>,
    /// Whether a cached state is ignored and a fresh flow is run.
    pub force: bool,
    /// Whether diagnostics are printed.
    pub debug: bool,
    /// Which token is handed out.
    pub token_type: TokenType,
    /// How long a flow waits for its callback, in milliseconds.
    pub timeout: u64,
}

/// What is wrong with a set of arguments.
#[derive(Debug, Clone, Copy, PartialEq, Eq, Structural)]
pub enum ErrorKind {
    MissingRequiredArgument,
    ArgumentConflict,
}

/// A rule that the arguments break, with the sentence shown to the user.
#[derive(Debug, Clone, PartialEq, Eq)]
pub struct ArgumentError {
    pub kind: ErrorKind,
    pub message: String,
}

/// The rules on arguments, and what is done about secrets.
pub struct Args;

/// The sentence for a flow that has no URL to start from.
pub open spec fn missing_urls_message() -> Seq<char> {
    "<--token-url, --authorization-url|--discovery-url> arguments have to be provided"@
}

/// The sentence for a grant that has no token endpoint.
pub open spec fn missing_token_url_message() -> Seq<char> {
    "<--token-url|--discovery-url> arguments have to be provided"@
}

/// The sentence for a grant that has no client secret.
pub open spec fn missing_client_secret_message() -> Seq<char> {
    "--client-secret or --client-secret-stdin is required while used with `client-credentials` grant."@
}

/// The sentence for a password grant without a user name.
pub open spec fn missing_username_message() -> Seq<char> {
    "--username is required while used with `resource-owner-password-client-credentials` grant."@
}

/// The sentence for a password grant without a password.
pub open spec fn missing_password_message() -> Seq<char> {
    "--password or --password-stdin is required while used with `resource-owner-password-client-credentials` grant."@
}

/// The sentence for an implicit grant that was given a token endpoint.
pub open spec fn token_url_conflict_message() -> Seq<char> {
    "--token-url cannot be used with:\n\t--grant implicit"@
}

/// The sentence for an implicit grant without an authorization endpoint.
pub open spec fn missing_authorization_url_message() -> Seq<char> {
    "<--authorization-url|--discovery-url> arguments have to be provided"@
}

/// The rule that an authorization code grant can break: it needs at least one
/// of the three URLs.
pub open spec fn authorization_grant_fault(args: Arguments) -> Option<(ErrorKind, Seq<char>)> {
    if args.token_url is None && args.authorization_url is None && args.discovery_url is None {
        Some((ErrorKind::MissingRequiredArgument, missing_urls_message()))
    } else {
        None
    }
}

/// The first rule of the chosen grant that the arguments break, if any. The
/// rules of a grant are tried in the order in which they are listed here.
pub open spec fn grant_fault(args: Arguments) -> Option<(ErrorKind, Seq<char>)> {
    let no_token_endpoint = args.token_url is None && args.discovery_url is None;
    let no_client_secret = args.client_secret is None && !args.client_secret_stdin;
    match args.grant {
        Grant::AuthorizationCodeWithPKCE => authorization_grant_fault(args),
        Grant::AuthorizationCode => authorization_grant_fault(args),
        Grant::ResourceOwnerPasswordClientCredentials => if no_token_endpoint {
            Some((ErrorKind::MissingRequiredArgument, missing_token_url_message()))
        } else if no_client_secret {
            Some((ErrorKind::MissingRequiredArgument, missing_client_secret_message()))
        } else if args.username is None {
            Some((ErrorKind::MissingRequiredArgument, missing_username_message()))
        } else if args.password is None && !args.password_stdin {
            Some((ErrorKind::MissingRequiredArgument, missing_password_message()))
        } else {
            None
        },
        Grant::ClientCredentials => if no_token_endpoint {
            Some((ErrorKind::MissingRequiredArgument, missing_token_url_message()))
        } else if no_client_secret {
            Some((ErrorKind::MissingRequiredArgument, missing_client_secret_message()))
        } else {
            None
        },
        Grant::Implicit => if args.token_url is Some {
            Some((ErrorKind::ArgumentConflict, token_url_conflict_message()))
        } else if args.authorization_url is None && args.discovery_url is None {
            Some((ErrorKind::MissingRequiredArgument, missing_authorization_url_message()))
        } else {
            None
        },
    }
}

/// Whether a check's answer is the fault that the rules name.
pub open spec fn reports(checked: Result<(), ArgumentError>, fault: Option<(ErrorKind, Seq<char>)>)
    -> bool {
    match checked {
        Ok(_) => fault is None,
        Err(error) => fault == Some((error.kind, error.message@)),
    }
}

/// Builds the error for a required argument that is missing.
fn missing(message: &str) -> (error: Result<(), ArgumentError>)
    ensures
        error matches Err(e) && e.kind == ErrorKind::MissingRequiredArgument && e.message@
            == message@,
{
    Err(ArgumentError { kind: ErrorKind::MissingRequiredArgument, message: message.to_owned() })
}

impl Args {
    /// Checks that an authorization code grant has a URL to start from.
    pub fn assert_urls_for_authorization_grants(args: &Arguments) -> (checked: Result<
        (),
        ArgumentError,
    >)
        ensures
            reports(checked, authorization_grant_fault(*args)),
    {
        if args.token_url.is_none() && args.authorization_url.is_none()
            && args.discovery_url.is_none() {
            missing(
                "<--token-url, --authorization-url|--discovery-url> arguments have to be provided",
            )
        } else {
            Ok(())
        }
    }

    /// Checks the arguments against the rules of the chosen grant and reports
    /// the first rule that they break.
    pub fn assert_grant_specific_arguments(args: &Arguments) -> (checked: Result<
        (),
        ArgumentError,
    >)
        ensures
            reports(checked, grant_fault(*args)),
    {
        match args.grant {
            Grant::AuthorizationCodeWithPKCE => Self::assert_urls_for_authorization_grants(args),
            Grant::AuthorizationCode => Self::assert_urls_for_authorization_grants(args),
            Grant::ResourceOwnerPasswordClientCredentials => {
                if args.token_url.is_none() && args.discovery_url.is_none() {
                    missing("<--token-url|--discovery-url> arguments have to be provided")
                } else if args.client_secret.is_none() && !args.client_secret_stdin {
                    missing(
                        "--client-secret or --client-secret-stdin is required while used with `client-credentials` grant.",
                    )
                } else if args.username.is_none() {
                    missing(
                        "--username is required while used with `resource-owner-password-client-credentials` grant.",
                    )
                } else if args.password.is_none() && !args.password_stdin {
                    missing(
                        "--password or --password-stdin is required while used with `resource-owner-password-client-credentials` grant.",
                    )
                } else {
                    Ok(())
                }
            },
            Grant::ClientCredentials => {
                if args.token_url.is_none() && args.discovery_url.is_none() {
                    missing("<--token-url|--discovery-url> arguments have to be provided")
                } else if args.client_secret.is_none() && !args.client_secret_stdin {
                    missing(
                        "--client-secret or --client-secret-stdin is required while used with `client-credentials` grant.",
                    )
                } else {
                    Ok(())
                }
            },
            Grant::Implicit => {
                if args.token_url.is_some() {
                    Err(
                        ArgumentError {
                            kind: ErrorKind::ArgumentConflict,
                            message: "--token-url cannot be used with:\n\t--grant implicit".to_owned(),
                        },
                    )
                } else if args.authorization_url.is_none() && args.discovery_url.is_none() {
                    missing("<--authorization-url|--discovery-url> arguments have to be provided")
                } else {
                    Ok(())
                }
            },
        }
    }

    /// Whether the user is told to prefer `--client-secret-stdin`: the secret
    /// was given, and not through the environment.
    pub fn warns_about_client_secret(args: &Arguments, in_environment: bool) -> (warns: bool)
        ensures
            warns == (args.client_secret is Some && !in_environment),
    {
        args.client_secret.is_some() && !in_environment
    }

    /// Puts the client secret that was typed on standard input in place, if the
    /// arguments ask for one to be read there.
    pub fn parse_client_secret(args: Arguments, typed: Option<String>) -> (parsed: Arguments)
        ensures
            parsed == if args.client_secret_stdin && typed is Some {
                Arguments { client_secret: typed, ..args }
            } else {
                args
            },
    {
        if args.client_secret_stdin && typed.is_some() {
            let mut parsed = args;
            parsed.client_secret = typed;
            parsed
        } else {
            args
        }
    }

    /// Whether the user is told to prefer `--password-stdin`: the password was
    /// given, and not through the environment.
    pub fn warns_about_password(args: &Arguments, in_environment: bool) -> (warns: bool)
        ensures
            warns == (args.password is Some && !in_environment),
    {
        args.password.is_some() && !in_environment
    }

    /// Puts the password that was typed on standard input in place, if the
    /// arguments ask for one to be read there.
    pub fn parse_password(args: Arguments, typed: Option<String>) -> (parsed: Arguments)
        ensures
            parsed == if args.password_stdin && typed is Some {
                Arguments { password: typed, ..args }
            } else {
                args
            },
    {
        if args.password_stdin && typed.is_some() {
            let mut parsed = args;
            parsed.password = typed;
            parsed
        } else {
            args
        }
    }

    /// What the arguments become once the secrets that were typed on standard
    /// input are in place.
    pub open spec fn with_secrets(
        args: Arguments,
        typed_client_secret: Option<String>,
        typed_password: Option<String>,
    ) -> Arguments {
        let first = if args.client_secret_stdin && typed_client_secret is Some {
            Arguments { client_secret: typed_client_secret, ..args }
        } else {
            args
        };
        if first.password_stdin && typed_password is Some {
            Arguments { password: typed_password, ..first }
        } else {
            first
        }
    }

    /// Checks arguments that were read and puts the typed secrets in place:
    /// the first broken rule of the grant is reported, and arguments that
    /// break none come back complete.
    pub fn parse(
        args: Arguments,
        typed_client_secret: Option<String>,
        typed_password: Option<String>,
    ) -> (parsed: Result<Arguments, ArgumentError>)
        ensures
            match parsed {
                Ok(complete) => grant_fault(args) is None && complete == Self::with_secrets(
                    args,
                    typed_client_secret,
                    typed_password,
                ),
                Err(error) => grant_fault(args) == Some((error.kind, error.message@)),
            },
    {
        match Self::assert_grant_specific_arguments(&args) {
            Ok(_) => {
                let args = Self::parse_client_secret(args, typed_client_secret);
                Ok(Self::parse_password(args, typed_password))
            },
            Err(error) => Err(error),
        }
    }
}

/// Whether one of the words on the command line asks for diagnostics.
pub open spec fn has_debug_flag(words: Seq<String>) -> bool {
    exists|i: int| 0 <= i < words.len() && is_debug_word(#[trigger] words[i])
}

/// Whether a word of the command line is the flag for diagnostics, long or
/// short.
pub open spec fn is_debug_word(word: String) -> bool {
    word@ == "--debug"@ || word@ == "-d"@
}

/// Decides whether diagnostics are switched on because the command line asks
/// for them: it does so only where the log level is not configured already.
pub fn enable_debug_via_args(words: &Vec<String>, log_level_set: bool) -> (enable: bool)
    ensures
        enable == (!log_level_set && has_debug_flag(words@)),
{
    if log_level_set {
        return false;
    }
    let mut at: usize = 0;
    while at < words.len()
        invariant
            at <= words.len(),
            !log_level_set,
            forall|i: int| 0 <= i < at ==> !is_debug_word(#[trigger] words@[i]),
        decreases words.len() - at,
    {
        if eq_literal(&words[at], "--debug") || eq_literal(&words[at], "-d") {
            assert(is_debug_word(words@[at as int]));
            return true;
        }
        at = at + 1;
    }
    false
}

} // verus!
