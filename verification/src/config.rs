//! The resolved OAuth client configuration, with a rendering that hides
//! client secrets.

use vstd::prelude::*;

use crate::opt_view;

verus! {

/// OAuth client settings in the shape the OAuth services builder takes.
#[derive(Clone)]
pub struct OAuthClientConfig {
    /// Public base URL of the host, used to assemble redirect URLs.
    pub public_base_url: String,
    /// Callback path for the OAuth redirect.
    pub redirect_path: String,
    /// Google client id (public).
    pub google_client_id: Option<String>,
    /// Google client secret (plaintext).
    pub google_client_secret: Option<String>,
    /// GitHub client id (public).
    pub github_client_id: Option<String>,
    /// GitHub client secret (plaintext).
    pub github_client_secret: Option<String>,
    /// Whether the mock provider is used.
    pub use_mock_provider: bool,
    /// Issuer URL of the mock OIDC provider.
    pub mock_oidc_issuer_url: Option<String>,
    /// Override of the Google token endpoint.
    pub google_token_url: Option<String>,
    /// Override of the Google userinfo endpoint.
    pub google_userinfo_url: Option<String>,
    /// Override of the GitHub token endpoint.
    pub github_token_url: Option<String>,
    /// Override of the GitHub user endpoint.
    pub github_user_url: Option<String>,
    /// Override of the GitHub emails endpoint.
    pub github_emails_url: Option<String>,
}

/// The content of an [`OAuthClientConfig`], as text.
pub struct OAuthClientConfigView {
    pub public_base_url: Seq<char>,
    pub redirect_path: Seq<char>,
    pub google_client_id: Option<Seq<char>>,
    pub google_client_secret: Option<Seq<char>>,
    pub github_client_id: Option<Seq<char>>,
    pub github_client_secret: Option<Seq<char>>,
    pub use_mock_provider: bool,
    pub mock_oidc_issuer_url: Option<Seq<char>>,
    pub google_token_url: Option<Seq<char>>,
    pub google_userinfo_url: Option<Seq<char>>,
    pub github_token_url: Option<Seq<char>>,
    pub github_user_url: Option<Seq<char>>,
    pub github_emails_url: Option<Seq<char>>,
}

impl View for OAuthClientConfig {
    type V = OAuthClientConfigView;

    open spec fn view(&self) -> OAuthClientConfigView {
        OAuthClientConfigView {
            public_base_url: self.public_base_url@,
            redirect_path: self.redirect_path@,
            google_client_id: opt_view(self.google_client_id),
            google_client_secret: opt_view(self.google_client_secret),
            github_client_id: opt_view(self.github_client_id),
            github_client_secret: opt_view(self.github_client_secret),
            use_mock_provider: self.use_mock_provider,
            mock_oidc_issuer_url: opt_view(self.mock_oidc_issuer_url),
            google_token_url: opt_view(self.google_token_url),
            google_userinfo_url: opt_view(self.google_userinfo_url),
            github_token_url: opt_view(self.github_token_url),
            github_user_url: opt_view(self.github_user_url),
            github_emails_url: opt_view(self.github_emails_url),
        }
    }
}

/// OAuth client configuration produced by the resolver. Its rendering
/// ([`ResolvedOAuthClientConfig::debug_string`]) never shows client secrets;
/// [`ResolvedOAuthClientConfig::into_lepton`] hands the plaintext on.
#[derive(Clone)]
pub struct ResolvedOAuthClientConfig {
    inner: OAuthClientConfig,
}

/// The text that `{:?}` gives for a string slice (quoted and escaped).
pub uninterp spec fn debug_str_text(s: Seq<char>) -> Seq<char>;

/// Printable ASCII other than the double quote, the backslash and `'`: characters that `{:?}`
/// writes unchanged.
pub open spec fn is_plain_char(c: char) -> bool {
    ' ' <= c && c <= '~' && c != '"' && c != '\\' && c != '\''
}

/// Text made of plain characters only.
pub open spec fn is_plain_text(s: Seq<char>) -> bool {
    forall|i: int| 0 <= i < s.len() ==> is_plain_char(#[trigger] s[i])
}

/// `s` in double quotes.
pub open spec fn quoted(s: Seq<char>) -> Seq<char> {
    "\""@ + s + "\""@
}

/// Plain text renders with `{:?}` as itself in quotes.
pub open spec fn quoted_if_plain(s: Seq<char>) -> bool {
    is_plain_text(s) ==> debug_str_text(s) == quoted(s)
}

/// [`quoted_if_plain`] for an optional string.
pub open spec fn opt_quoted_if_plain(o: Option<String>) -> bool {
    o matches Some(s) ==> quoted_if_plain(s@)
}

/// Formats a string slice with `Debug` (`<str as Debug>::fmt` through
/// `format!`). The contract names the result, a function of the characters
/// of `s`, and states what std does for plain text: it is written in double
/// quotes with nothing escaped.
#[verifier::external_body]
fn debug_str(s: &str) -> (res: String)
    ensures
        res@ == debug_str_text(s@),
        is_plain_text(s@) ==> res@ == quoted(s@),
{
    format!("{:?}", s)
}

/// `{:?}` text of an optional string.
pub open spec fn debug_opt_text(o: Option<String>) -> Seq<char> {
    match o {
        Some(s) => "Some("@ + debug_str_text(s@) + ")"@,
        None => "None"@,
    }
}

/// `{:?}` text of an optional secret: its presence only.
pub open spec fn redacted_opt_text(o: Option<String>) -> Seq<char> {
    match o {
        Some(_) => "Some(\"<redacted>\")"@,
        None => "None"@,
    }
}

/// `{:?}` text of a flag.
pub open spec fn debug_bool_text(b: bool) -> Seq<char> {
    if b {
        "true"@
    } else {
        "false"@
    }
}

/// The redacted rendering of a configuration: the public fields as `{:?}`
/// shows them, secrets only as present or absent, endpoint overrides left out.
pub open spec fn redacted_debug_text(c: OAuthClientConfig) -> Seq<char> {
    "ResolvedOAuthClientConfig { public_base_url: "@ + debug_str_text(c.public_base_url@)
        + ", redirect_path: "@ + debug_str_text(c.redirect_path@) + ", google_client_id: "@
        + debug_opt_text(c.google_client_id) + ", google_client_secret: "@ + redacted_opt_text(
        c.google_client_secret,
    ) + ", github_client_id: "@ + debug_opt_text(c.github_client_id)
        + ", github_client_secret: "@ + redacted_opt_text(c.github_client_secret)
        + ", use_mock_provider: "@ + debug_bool_text(c.use_mock_provider)
        + ", mock_oidc_issuer_url: "@ + debug_opt_text(c.mock_oidc_issuer_url) + ", .. }"@
}

/// `{:?}` text of an optional string, built.
fn debug_opt(o: &Option<String>) -> (res: String)
    ensures
        res@ == debug_opt_text(*o),
        opt_quoted_if_plain(*o),
{
    match o {
        Some(s) => {
            let mut out = String::from_str("Some(");
            out.append(debug_str(s.as_str()).as_str());
            out.append(")");
            out
        },
        None => String::from_str("None"),
    }
}

/// `{:?}` text of an optional secret, built.
fn redacted_opt(o: &Option<String>) -> (res: String)
    ensures
        res@ == redacted_opt_text(*o),
{
    match o {
        Some(_) => String::from_str("Some(\"<redacted>\")"),
        None => String::from_str("None"),
    }
}

impl ResolvedOAuthClientConfig {
    /// The configuration this value holds.
    pub closed spec fn config(&self) -> OAuthClientConfig {
        self.inner
    }

    /// Wraps a configuration.
    pub fn from_lepton(inner: OAuthClientConfig) -> (res: Self)
        ensures
            res.config() == inner,
    {
        Self { inner }
    }

    /// The configuration, secrets in plaintext, for the OAuth services builder.
    pub fn into_lepton(self) -> (res: OAuthClientConfig)
        ensures
            res == self.config(),
    {
        self.inner
    }

    /// The `{:?}` rendering of this value: client secrets appear only as
    /// `Some("<redacted>")` or `None`.
    pub fn debug_string(&self) -> (res: String)
        ensures
            res@ == redacted_debug_text(self.config()),
            quoted_if_plain(self.config().public_base_url@),
            quoted_if_plain(self.config().redirect_path@),
            opt_quoted_if_plain(self.config().google_client_id),
            opt_quoted_if_plain(self.config().github_client_id),
            opt_quoted_if_plain(self.config().mock_oidc_issuer_url),
    {
        let c = &self.inner;
        let mut out = String::from_str("ResolvedOAuthClientConfig { public_base_url: ");
        out.append(debug_str(c.public_base_url.as_str()).as_str());
        out.append(", redirect_path: ");
        out.append(debug_str(c.redirect_path.as_str()).as_str());
        out.append(", google_client_id: ");
        out.append(debug_opt(&c.google_client_id).as_str());
        out.append(", google_client_secret: ");
        out.append(redacted_opt(&c.google_client_secret).as_str());
        out.append(", github_client_id: ");
        out.append(debug_opt(&c.github_client_id).as_str());
        out.append(", github_client_secret: ");
        out.append(redacted_opt(&c.github_client_secret).as_str());
        out.append(", use_mock_provider: ");
        if c.use_mock_provider {
            out.append("true");
        } else {
            out.append("false");
        }
        out.append(", mock_oidc_issuer_url: ");
        out.append(debug_opt(&c.mock_oidc_issuer_url).as_str());
        out.append(", .. }");
        out
    }
}

/// Two configurations that differ at most in the values of their client
/// secrets (not in whether each is present) render the same: the rendering
/// does not depend on secret plaintext.
pub proof fn redaction_hides_secret_values(a: OAuthClientConfig, b: OAuthClientConfig)
    requires
        a.public_base_url@ == b.public_base_url@,
        a.redirect_path@ == b.redirect_path@,
        a.google_client_id == b.google_client_id,
        a.github_client_id == b.github_client_id,
        a.use_mock_provider == b.use_mock_provider,
        a.mock_oidc_issuer_url == b.mock_oidc_issuer_url,
        a.google_client_secret is Some <==> b.google_client_secret is Some,
        a.github_client_secret is Some <==> b.github_client_secret is Some,
    ensures
        redacted_debug_text(a) == redacted_debug_text(b),
{
}

/// The rendering shows the mock flag: two configurations that differ only in
/// it render differently, the one with the flag on (`true`) one character
/// shorter than the one with it off (`false`).
pub proof fn rendering_shows_mock_flag(a: OAuthClientConfig, b: OAuthClientConfig)
    requires
        a.public_base_url@ == b.public_base_url@,
        a.redirect_path@ == b.redirect_path@,
        a.google_client_id == b.google_client_id,
        a.github_client_id == b.github_client_id,
        a.mock_oidc_issuer_url == b.mock_oidc_issuer_url,
        a.google_client_secret is Some <==> b.google_client_secret is Some,
        a.github_client_secret is Some <==> b.github_client_secret is Some,
        a.use_mock_provider,
        !b.use_mock_provider,
    ensures
        redacted_debug_text(a).len() + 1 == redacted_debug_text(b).len(),
        redacted_debug_text(a) != redacted_debug_text(b),
{
    reveal_strlit("true");
    reveal_strlit("false");
    assert(redacted_debug_text(a).len() != redacted_debug_text(b).len());
}

} // verus!
