//! Typed failures of the OAuth configuration resolver.

use std::fmt::Write;

use vstd::prelude::*;

verus! {

/// `anyhow::Error`, declared so that store errors can be carried through the
/// resolver; its content is opaque here.
#[verifier::external_type_specification]
#[verifier::external_body]
pub struct ExAnyhowError(anyhow::Error);

/// Failure while resolving the OAuth client configuration from the vault.
///
/// Variants name the vault operation and the stable secret name where one
/// applies; none of them holds client-secret plaintext.
#[derive(Debug)]
pub enum ResolveOAuthConfigError {
    /// `put_or_reuse` failed while seeding a named secret from the environment.
    Seed {
        /// Stable vault secret name (never plaintext).
        name: &'static str,
        /// Underlying store error.
        source: anyhow::Error,
    },
    /// `get` failed for a named secret.
    Get {
        /// Stable vault secret name (never plaintext).
        name: &'static str,
        /// Underlying store error.
        source: anyhow::Error,
    },
    /// Listing the vault's secrets failed.
    List {
        /// Underlying store error.
        source: anyhow::Error,
    },
    /// The sealed secret bytes are not valid UTF-8.
    InvalidUtf8 {
        /// Stable vault secret name (never plaintext).
        name: &'static str,
    },
    /// The latest name+scope row has a kind other than the OAuth secret kind.
    WrongKind {
        /// Stable vault secret name (never plaintext).
        name: &'static str,
        /// Observed kind of the row.
        kind: String,
    },
}

/// The message of `e`, given the text `source_text` of its underlying error
/// (unused by the variants that have none).
pub open spec fn error_message(e: ResolveOAuthConfigError, source_text: Seq<char>) -> Seq<char> {
    match e {
        ResolveOAuthConfigError::Seed { name, .. } => "seed OAuth secret "@ + name@
            + " via Neutrino put_or_reuse: "@ + source_text,
        ResolveOAuthConfigError::Get { name, .. } => "get OAuth secret "@ + name@
            + " from Neutrino: "@ + source_text,
        ResolveOAuthConfigError::List { .. } => "list Neutrino secrets for OAuth resolve: "@
            + source_text,
        ResolveOAuthConfigError::InvalidUtf8 { name } => "OAuth secret "@ + name@
            + " plaintext is not valid UTF-8"@,
        ResolveOAuthConfigError::WrongKind { name, kind } => "OAuth secret "@ + name@
            + " has kind "@ + kind@ + ", expected "@ + crate::OAUTH_SECRET_KIND@,
    }
}

/// Whether `e` carries an underlying store error.
pub open spec fn has_source(e: ResolveOAuthConfigError) -> bool {
    e is Seed || e is Get || e is List
}

/// Formats an `anyhow::Error` with `Display` (`<anyhow::Error as
/// Display>::fmt`, which writes the outermost error's own `Display`) into a
/// `String` with `write!`. Nothing is stated of the text: the wrapped error's
/// `Display` is arbitrary code (an OS error's text follows the locale, for
/// one). `None` when that `Display` reports a formatting error.
#[verifier::external_body]
fn source_text(e: &anyhow::Error) -> Option<String> {
    let mut out = String::new();
    match write!(out, "{}", e) {
        Ok(()) => Some(out),
        Err(_) => None,
    }
}

impl ResolveOAuthConfigError {
    /// The error's message, given the text of its underlying store error
    /// (ignored by the variants that have none). It names the operation, the
    /// secret name and, for a wrong kind, the observed kind.
    pub fn message_with(&self, source_text: &str) -> (res: String)
        ensures
            res@ == error_message(*self, source_text@),
    {
        match self {
            ResolveOAuthConfigError::Seed { name, .. } => {
                let mut out = String::from_str("seed OAuth secret ");
                out.append(name);
                out.append(" via Neutrino put_or_reuse: ");
                out.append(source_text);
                out
            },
            ResolveOAuthConfigError::Get { name, .. } => {
                let mut out = String::from_str("get OAuth secret ");
                out.append(name);
                out.append(" from Neutrino: ");
                out.append(source_text);
                out
            },
            ResolveOAuthConfigError::List { .. } => {
                let mut out = String::from_str("list Neutrino secrets for OAuth resolve: ");
                out.append(source_text);
                out
            },
            ResolveOAuthConfigError::InvalidUtf8 { name } => {
                let mut out = String::from_str("OAuth secret ");
                out.append(name);
                out.append(" plaintext is not valid UTF-8");
                out
            },
            ResolveOAuthConfigError::WrongKind { name, kind } => {
                let mut out = String::from_str("OAuth secret ");
                out.append(name);
                out.append(" has kind ");
                out.append(kind.as_str());
                out.append(", expected ");
                out.append(crate::OAUTH_SECRET_KIND);
                out
            },
        }
    }

    /// The error's message: [`Self::message_with`] given the `{}` text of
    /// the underlying store error (empty if that text cannot be formatted).
    pub fn to_string(&self) -> (res: String)
        ensures
            exists|t: Seq<char>| res@ == error_message(*self, t),
            !has_source(*self) ==> res@ == error_message(*self, Seq::empty()),
    {
        let text = match self {
            ResolveOAuthConfigError::Seed { source, .. } => source_text(source),
            ResolveOAuthConfigError::Get { source, .. } => source_text(source),
            ResolveOAuthConfigError::List { source } => source_text(source),
            _ => None,
        };
        match text {
            Some(t) => {
                let res = self.message_with(t.as_str());
                proof {
                    if !has_source(*self) {
                        assert(error_message(*self, t@) == error_message(*self, Seq::empty()));
                    }
                }
                res
            },
            None => {
                let empty = String::new();
                self.message_with(empty.as_str())
            },
        }
    }

    /// The underlying store error, for the variants that have one.
    pub fn source(&self) -> (res: Option<&anyhow::Error>)
        ensures
            res is Some <==> has_source(*self),
            res matches Some(e) ==> match *self {
                ResolveOAuthConfigError::Seed { source, .. } => *e == source,
                ResolveOAuthConfigError::Get { source, .. } => *e == source,
                ResolveOAuthConfigError::List { source } => *e == source,
                _ => false,
            },
    {
        match self {
            ResolveOAuthConfigError::Seed { source, .. } => Some(source),
            ResolveOAuthConfigError::Get { source, .. } => Some(source),
            ResolveOAuthConfigError::List { source } => Some(source),
            ResolveOAuthConfigError::InvalidUtf8 { .. } => None,
            ResolveOAuthConfigError::WrongKind { .. } => None,
        }
    }
}

/// An error's message depends only on its variant, the stable secret name,
/// the observed kind and the store error's text: two errors that agree on
/// these render alike, whatever plaintext was involved.
pub proof fn message_depends_only_on_metadata(
    e1: ResolveOAuthConfigError,
    e2: ResolveOAuthConfigError,
    text: Seq<char>,
)
    requires
        match (e1, e2) {
            (
                ResolveOAuthConfigError::Seed { name: n1, .. },
                ResolveOAuthConfigError::Seed { name: n2, .. },
            ) => n1@ == n2@,
            (
                ResolveOAuthConfigError::Get { name: n1, .. },
                ResolveOAuthConfigError::Get { name: n2, .. },
            ) => n1@ == n2@,
            (ResolveOAuthConfigError::List { .. }, ResolveOAuthConfigError::List { .. }) => true,
            (
                ResolveOAuthConfigError::InvalidUtf8 { name: n1 },
                ResolveOAuthConfigError::InvalidUtf8 { name: n2 },
            ) => n1@ == n2@,
            (
                ResolveOAuthConfigError::WrongKind { name: n1, kind: k1 },
                ResolveOAuthConfigError::WrongKind { name: n2, kind: k2 },
            ) => n1@ == n2@ && k1@ == k2@,
            _ => false,
        },
    ensures
        error_message(e1, text) == error_message(e2, text),
{
}

} // verus!
