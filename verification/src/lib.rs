//! Callback interception and grant orchestration for OAuth 2.0 / OpenID Connect
//! token retrieval: the rules that decide which intercepted request completes a
//! flow, what is answered to each request, and how a flow ends.

pub mod args;
pub mod auth_browser;
pub mod auth_server;
pub mod callback;
pub mod oauth_client;
pub mod race;
pub mod retrievers;
pub mod text;
pub mod token_info;
pub mod validator;
pub mod wire;
