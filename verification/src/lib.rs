//! Resolve OAuth client configuration from sealed vault rows at host boot.
//!
//! Client secrets live in the vault under stable names, scope and kind. A
//! [`Resolver`] decides which rows to read, when to seed a missing row once
//! from the environment, and what configuration or error comes out; the host
//! performs the vault operations it asks for. The result,
//! [`ResolvedOAuthClientConfig`], renders without client secrets.

pub mod config;
pub mod env;
pub mod error;
pub mod laws;
pub mod resolve;

pub use config::{OAuthClientConfig, ResolvedOAuthClientConfig};
pub use env::{nonempty, truthy};
pub use error::ResolveOAuthConfigError;
pub use resolve::{
    latest_named_row, oauth_config, outcome_label, plaintext_utf8, ListedRow, OAuthEnv, Provider,
    PutSecretRequest, Resolver, Step, VaultReply, VaultRequest,
};

use vstd::prelude::*;

verus! {

/// Stable vault secret name for the Google OAuth client secret.
pub const OAUTH_GOOGLE_SECRET_NAME: &'static str = "oauth.google.client_secret";

/// Stable vault secret name for the GitHub OAuth client secret.
pub const OAUTH_GITHUB_SECRET_NAME: &'static str = "oauth.github.client_secret";

/// Scope path for OAuth client secrets.
pub const OAUTH_SECRET_SCOPE: &'static str = "/lepton/oauth";

/// Vault `kind` required for OAuth client secrets. Other kinds fail closed.
pub const OAUTH_SECRET_KIND: &'static str = "oauth_client_secret";

/// OAuth callback path written into every resolved configuration.
pub const OAUTH_REDIRECT_PATH: &'static str = "/auth/oauth/callback";

/// The view of an optional string.
pub open spec fn opt_view(o: Option<String>) -> Option<Seq<char>> {
    match o {
        Some(s) => Some(s@),
        None => None,
    }
}

} // verus!
