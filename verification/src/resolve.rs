//! The resolver: which vault rows to read, when to seed from the environment,
//! and what configuration (or error) comes out.
//!
//! The vault is reached by the host, which performs each [`VaultRequest`] a
//! [`Resolver`] asks for and hands the [`VaultReply`] back.

use vstd::prelude::*;
use vstd::utf8::*;

use crate::config::{OAuthClientConfig, OAuthClientConfigView, ResolvedOAuthClientConfig};
use crate::env::{nonempty, nonempty_value, truthy, truthy_value};
use crate::error::ResolveOAuthConfigError;
use crate::opt_view;
use crate::{
    OAUTH_GITHUB_SECRET_NAME, OAUTH_GOOGLE_SECRET_NAME, OAUTH_REDIRECT_PATH, OAUTH_SECRET_KIND,
    OAUTH_SECRET_SCOPE,
};

verus! {

broadcast use vstd::string::group_string_axioms;

/// Actor recorded as the owner of rows seeded from the environment.
pub const OWNER_ACTOR: &'static str = "system";

/// Metadata of one vault row, as a listing returns it (no plaintext).
pub struct ListedRow {
    /// Row id, as `get` takes it.
    pub id: String,
    /// Secret name.
    pub name: String,
    /// Scope path.
    pub scope_path: String,
    /// Secret kind.
    pub kind: String,
    /// Current version number.
    pub current_version: i64,
    /// Creation time: whole seconds since the Unix epoch.
    pub created_at_secs: i64,
    /// Creation time: nanoseconds within the second.
    pub created_at_nanos: u32,
}

/// The row has the given name and the OAuth secret scope.
pub open spec fn row_matches(r: ListedRow, name: Seq<char>) -> bool {
    r.name@ == name && r.scope_path@ == OAUTH_SECRET_SCOPE@
}

/// Row `a` sorts before row `b` by `(created_at, current_version)`.
pub open spec fn key_lt(a: ListedRow, b: ListedRow) -> bool {
    ||| a.created_at_secs < b.created_at_secs
    ||| (a.created_at_secs == b.created_at_secs && a.created_at_nanos < b.created_at_nanos)
    ||| (a.created_at_secs == b.created_at_secs && a.created_at_nanos == b.created_at_nanos
        && a.current_version < b.current_version)
}

/// Row `i` is the latest row named `name` in the OAuth scope: no matching
/// row sorts after it, and every later matching row sorts strictly before it
/// (among equal keys the last one wins).
pub open spec fn is_latest(rows: Seq<ListedRow>, name: Seq<char>, i: int) -> bool {
    &&& 0 <= i < rows.len()
    &&& row_matches(rows[i], name)
    &&& forall|j: int|
        0 <= j < rows.len() && #[trigger] row_matches(rows[j], name) ==> {
            &&& j <= i ==> !key_lt(rows[i], rows[j])
            &&& i < j ==> key_lt(rows[j], rows[i])
        }
}

/// Index of the latest matching row, if any row matches.
pub open spec fn latest_index(rows: Seq<ListedRow>, name: Seq<char>) -> Option<int> {
    if exists|i: int| is_latest(rows, name, i) {
        Some(choose|i: int| is_latest(rows, name, i))
    } else {
        None
    }
}

/// At most one row is the latest.
pub proof fn latest_is_unique(rows: Seq<ListedRow>, name: Seq<char>, i: int, k: int)
    requires
        is_latest(rows, name, i),
        is_latest(rows, name, k),
    ensures
        i == k,
{
    if i < k {
        assert(row_matches(rows[k], name));
        assert(row_matches(rows[i], name));
    } else if k < i {
        assert(row_matches(rows[k], name));
        assert(row_matches(rows[i], name));
    }
}

/// Text equality of a `String` and a `str`.
fn same_text(a: &String, b: &str) -> (res: bool)
    ensures
        res == (a@ == b@),
{
    let b2 = b.to_owned();
    *a == b2
}

/// `a` sorts before `b` by `(created_at, current_version)`.
fn row_key_lt(a: &ListedRow, b: &ListedRow) -> (res: bool)
    ensures
        res == key_lt(*a, *b),
{
    a.created_at_secs < b.created_at_secs || (a.created_at_secs == b.created_at_secs
        && a.created_at_nanos < b.created_at_nanos) || (a.created_at_secs == b.created_at_secs
        && a.created_at_nanos == b.created_at_nanos && a.current_version < b.current_version)
}

/// The latest row with this name in the OAuth secret scope, by
/// `(created_at, current_version)`; the last of equal ones.
pub fn latest_named_row<'a>(listed: &'a [ListedRow], name: &str) -> (res: Option<&'a ListedRow>)
    ensures
        res is Some <==> exists|j: int| 0 <= j < listed@.len() && row_matches(listed@[j], name@),
        res is Some <==> latest_index(listed@, name@) is Some,
        res matches Some(r) ==> *r == listed@[latest_index(listed@, name@)->0],
{
    let n = listed.len();
    let mut best: Option<usize> = None;
    for i in 0..n
        invariant
            n == listed@.len(),
            best is None <==> forall|j: int| 0 <= j < i ==> !#[trigger] row_matches(listed@[j], name@),
            best matches Some(b) ==> {
                &&& b < i
                &&& row_matches(listed@[b as int], name@)
                &&& forall|j: int|
                    0 <= j < i && #[trigger] row_matches(listed@[j], name@) ==> {
                        &&& j <= b ==> !key_lt(listed@[b as int], listed@[j])
                        &&& b < j ==> key_lt(listed@[j], listed@[b as int])
                    }
            },
    {
        let row = &listed[i];
        let m = same_text(&row.name, name) && same_text(&row.scope_path, OAUTH_SECRET_SCOPE);
        assert(m == row_matches(listed@[i as int], name@));
        if m {
            match best {
                None => {
                    best = Some(i);
                },
                Some(b) => {
                    if !row_key_lt(row, &listed[b]) {
                        best = Some(i);
                    }
                },
            }
        }
    }
    match best {
        None => {
            assert(!exists|i: int| is_latest(listed@, name@, i));
            None
        },
        Some(b) => {
            assert(is_latest(listed@, name@, b as int));
            proof {
                let k = choose|i: int| is_latest(listed@, name@, i);
                latest_is_unique(listed@, name@, b as int, k);
            }
            Some(&listed[b])
        },
    }
}

/// Converts bytes to a string slice (`std::str::from_utf8`, error dropped).
/// As documented: it succeeds exactly on valid UTF-8, and the slice it
/// returns has the same bytes.
#[verifier::external_body]
fn str_from_utf8(bytes: &[u8]) -> (res: Option<&str>)
    ensures
        res is Some <==> valid_utf8(bytes@),
        res matches Some(s) ==> encode_utf8(s@) == bytes@,
{
    std::str::from_utf8(bytes).ok()
}

/// Sealed secret bytes as text; `InvalidUtf8` (naming the secret, never
/// echoing the bytes) when they are not UTF-8.
pub fn plaintext_utf8(name: &'static str, plaintext: &[u8]) -> (res: Result<
    String,
    ResolveOAuthConfigError,
>)
    ensures
        res is Ok <==> valid_utf8(plaintext@),
        res matches Ok(s) ==> s@ == decode_utf8(plaintext@),
        res matches Err(e) ==> e == (ResolveOAuthConfigError::InvalidUtf8 { name }),
{
    match str_from_utf8(plaintext) {
        Some(s) => {
            proof {
                encode_utf8_decode_utf8(s@);
            }
            Ok(s.to_owned())
        },
        None => Err(ResolveOAuthConfigError::InvalidUtf8 { name }),
    }
}

/// The configuration the resolver returns, from its parts: the public base
/// URL, the fixed callback path, client ids and secrets, the mock flags, and
/// no endpoint overrides.
pub open spec fn config_view(
    public_base_url: Seq<char>,
    google_client_id: Option<Seq<char>>,
    google_client_secret: Option<Seq<char>>,
    github_client_id: Option<Seq<char>>,
    github_client_secret: Option<Seq<char>>,
    use_mock_provider: bool,
    mock_oidc_issuer_url: Option<Seq<char>>,
) -> OAuthClientConfigView {
    OAuthClientConfigView {
        public_base_url,
        redirect_path: OAUTH_REDIRECT_PATH@,
        google_client_id,
        google_client_secret,
        github_client_id,
        github_client_secret,
        use_mock_provider,
        mock_oidc_issuer_url,
        google_token_url: None,
        google_userinfo_url: None,
        github_token_url: None,
        github_user_url: None,
        github_emails_url: None,
    }
}

/// Builds the resolved configuration.
pub fn oauth_config(
    public_base_url: &str,
    google_client_id: Option<String>,
    google_client_secret: Option<String>,
    github_client_id: Option<String>,
    github_client_secret: Option<String>,
    use_mock_provider: bool,
    mock_oidc_issuer_url: Option<String>,
) -> (res: ResolvedOAuthClientConfig)
    ensures
        res.config()@ == config_view(
            public_base_url@,
            opt_view(google_client_id),
            opt_view(google_client_secret),
            opt_view(github_client_id),
            opt_view(github_client_secret),
            use_mock_provider,
            opt_view(mock_oidc_issuer_url),
        ),
{
    ResolvedOAuthClientConfig::from_lepton(
        OAuthClientConfig {
            public_base_url: public_base_url.to_owned(),
            redirect_path: OAUTH_REDIRECT_PATH.to_owned(),
            google_client_id,
            google_client_secret,
            github_client_id,
            github_client_secret,
            use_mock_provider,
            mock_oidc_issuer_url,
            google_token_url: None,
            google_userinfo_url: None,
            github_token_url: None,
            github_user_url: None,
            github_emails_url: None,
        },
    )
}

/// Raw values of the OAuth environment variables, as the host read them
/// (`None` when unset).
pub struct OAuthEnv {
    /// `UF_OAUTH_GOOGLE_CLIENT_ID`.
    pub google_client_id: Option<String>,
    /// `UF_OAUTH_GOOGLE_CLIENT_SECRET`.
    pub google_client_secret: Option<String>,
    /// `UF_OAUTH_GITHUB_CLIENT_ID`.
    pub github_client_id: Option<String>,
    /// `UF_OAUTH_GITHUB_CLIENT_SECRET`.
    pub github_client_secret: Option<String>,
    /// `UF_OAUTH_USE_MOCK`.
    pub use_mock: Option<String>,
    /// `UF_MOCK_OIDC_URL`.
    pub mock_oidc_url: Option<String>,
}

/// The content of an [`OAuthEnv`].
pub struct OAuthEnvView {
    pub google_client_id: Option<Seq<char>>,
    pub google_client_secret: Option<Seq<char>>,
    pub github_client_id: Option<Seq<char>>,
    pub github_client_secret: Option<Seq<char>>,
    pub use_mock: Option<Seq<char>>,
    pub mock_oidc_url: Option<Seq<char>>,
}

impl View for OAuthEnv {
    type V = OAuthEnvView;

    open spec fn view(&self) -> OAuthEnvView {
        OAuthEnvView {
            google_client_id: opt_view(self.google_client_id),
            google_client_secret: opt_view(self.google_client_secret),
            github_client_id: opt_view(self.github_client_id),
            github_client_secret: opt_view(self.github_client_secret),
            use_mock: opt_view(self.use_mock),
            mock_oidc_url: opt_view(self.mock_oidc_url),
        }
    }
}

/// An OAuth provider whose client secret is resolved.
#[derive(Clone, Copy, PartialEq, Eq, Structural)]
pub enum Provider {
    /// Google.
    Google,
    /// GitHub.
    Github,
}

/// The stable vault secret name of a provider's client secret.
pub open spec fn provider_secret_name(p: Provider) -> &'static str {
    match p {
        Provider::Google => OAUTH_GOOGLE_SECRET_NAME,
        Provider::Github => OAUTH_GITHUB_SECRET_NAME,
    }
}

fn secret_name(p: Provider) -> (res: &'static str)
    ensures
        res == provider_secret_name(p),
{
    match p {
        Provider::Google => OAUTH_GOOGLE_SECRET_NAME,
        Provider::Github => OAUTH_GITHUB_SECRET_NAME,
    }
}

/// Request to store a secret unless a row with its name and scope exists.
pub struct PutSecretRequest {
    /// Secret name.
    pub name: String,
    /// Scope path.
    pub scope_path: String,
    /// Secret kind.
    pub kind: String,
    /// Plaintext to seal.
    pub plaintext: Vec<u8>,
    /// Owning actor.
    pub owner_actor: String,
}

/// The content of a [`PutSecretRequest`].
pub struct PutSecretRequestView {
    pub name: Seq<char>,
    pub scope_path: Seq<char>,
    pub kind: Seq<char>,
    pub plaintext: Seq<u8>,
    pub owner_actor: Seq<char>,
}

impl View for PutSecretRequest {
    type V = PutSecretRequestView;

    open spec fn view(&self) -> PutSecretRequestView {
        PutSecretRequestView {
            name: self.name@,
            scope_path: self.scope_path@,
            kind: self.kind@,
            plaintext: self.plaintext@,
            owner_actor: self.owner_actor@,
        }
    }
}

/// The seed request for a secret name and plaintext: the OAuth scope and
/// kind, the plaintext's UTF-8 bytes, owned by the system actor.
pub open spec fn seed_request(name: Seq<char>, plaintext: Seq<char>) -> PutSecretRequestView {
    PutSecretRequestView {
        name,
        scope_path: OAUTH_SECRET_SCOPE@,
        kind: OAUTH_SECRET_KIND@,
        plaintext: encode_utf8(plaintext),
        owner_actor: OWNER_ACTOR@,
    }
}

fn make_seed_request(name: &'static str, plaintext: &String) -> (res: PutSecretRequest)
    ensures
        res@ == seed_request(name@, plaintext@),
{
    PutSecretRequest {
        name: name.to_owned(),
        scope_path: OAUTH_SECRET_SCOPE.to_owned(),
        kind: OAUTH_SECRET_KIND.to_owned(),
        plaintext: plaintext.as_str().as_bytes_vec(),
        owner_actor: OWNER_ACTOR.to_owned(),
    }
}

/// A vault operation the host performs for the resolver.
pub enum VaultRequest {
    /// List all secret rows (metadata only).
    List,
    /// Reveal the plaintext of the row with this id.
    Get {
        /// Row id.
        id: String,
    },
    /// Store a secret unless its name and scope already exist (`put_or_reuse`).
    PutOrReuse(PutSecretRequest),
}

/// The content of a [`VaultRequest`].
pub enum VaultRequestView {
    List,
    Get { id: Seq<char> },
    PutOrReuse(PutSecretRequestView),
}

impl View for VaultRequest {
    type V = VaultRequestView;

    open spec fn view(&self) -> VaultRequestView {
        match self {
            VaultRequest::List => VaultRequestView::List,
            VaultRequest::Get { id } => VaultRequestView::Get { id: id@ },
            VaultRequest::PutOrReuse(r) => VaultRequestView::PutOrReuse(r@),
        }
    }
}

/// The host's answer to a [`VaultRequest`].
pub enum VaultReply {
    /// The listing.
    Listed(Vec<ListedRow>),
    /// Listing failed.
    ListFailed(anyhow::Error),
    /// The revealed plaintext bytes.
    Revealed(Vec<u8>),
    /// `get` failed.
    GetFailed(anyhow::Error),
    /// The id of the stored (or reused) row.
    Stored(String),
    /// `put_or_reuse` failed.
    StoreFailed(anyhow::Error),
}

/// The content of a [`VaultReply`].
pub enum VaultReplyView {
    Listed(Seq<ListedRow>),
    ListFailed(anyhow::Error),
    Revealed(Seq<u8>),
    GetFailed(anyhow::Error),
    Stored(Seq<char>),
    StoreFailed(anyhow::Error),
}

impl View for VaultReply {
    type V = VaultReplyView;

    open spec fn view(&self) -> VaultReplyView {
        match self {
            VaultReply::Listed(rows) => VaultReplyView::Listed(rows@),
            VaultReply::ListFailed(e) => VaultReplyView::ListFailed(*e),
            VaultReply::Revealed(b) => VaultReplyView::Revealed(b@),
            VaultReply::GetFailed(e) => VaultReplyView::GetFailed(*e),
            VaultReply::Stored(id) => VaultReplyView::Stored(id@),
            VaultReply::StoreFailed(e) => VaultReplyView::StoreFailed(*e),
        }
    }
}

/// What the resolver does next: ask for a vault operation, or finish.
pub enum Step {
    /// Perform this operation and hand its reply to [`Resolver::step`].
    Call(VaultRequest),
    /// The resolve outcome: `Ok(None)` when OAuth is not configured.
    Done(Result<Option<ResolvedOAuthClientConfig>, ResolveOAuthConfigError>),
}

/// The content of a [`Step`].
pub enum StepView {
    Call(VaultRequestView),
    Done(Result<Option<OAuthClientConfigView>, ResolveOAuthConfigError>),
}

/// The content of a resolve outcome.
pub open spec fn outcome_view(
    o: Result<Option<ResolvedOAuthClientConfig>, ResolveOAuthConfigError>,
) -> Result<Option<OAuthClientConfigView>, ResolveOAuthConfigError> {
    match o {
        Ok(Some(c)) => Ok(Some(c.config()@)),
        Ok(None) => Ok(None),
        Err(e) => Err(e),
    }
}

impl View for Step {
    type V = StepView;

    open spec fn view(&self) -> StepView {
        match self {
            Step::Call(r) => StepView::Call(r@),
            Step::Done(o) => StepView::Done(outcome_view(*o)),
        }
    }
}

/// Where a resolver stands.
#[derive(Clone, Copy, PartialEq, Eq, Structural)]
pub enum Stage {
    /// Waiting for the listing.
    AwaitList,
    /// Waiting for the seed of this provider's secret to be stored.
    AwaitStore(Provider),
    /// Waiting for this provider's secret to be revealed.
    AwaitGet(Provider),
    /// The outcome was returned.
    Finished,
}

/// The state of a resolver, as text.
pub struct ResolverView {
    pub public_base_url: Seq<char>,
    pub google_client_id: Option<Seq<char>>,
    pub github_client_id: Option<Seq<char>>,
    pub use_mock: bool,
    pub mock_oidc_url: Option<Seq<char>>,
    pub google_seed: Option<Seq<char>>,
    pub github_seed: Option<Seq<char>>,
    pub listed: Seq<ListedRow>,
    pub google_secret: Option<Seq<char>>,
    pub github_secret: Option<Seq<char>>,
    pub stage: Stage,
}

/// One resolve of the OAuth configuration, driven by the host: it starts
/// from the environment, asks for vault operations one at a time, and ends
/// with the outcome.
pub struct Resolver {
    public_base_url: String,
    google_client_id: Option<String>,
    github_client_id: Option<String>,
    use_mock: bool,
    mock_oidc_url: Option<String>,
    google_seed: Option<String>,
    github_seed: Option<String>,
    listed: Vec<ListedRow>,
    google_secret: Option<String>,
    github_secret: Option<String>,
    stage: Stage,
}

impl View for Resolver {
    type V = ResolverView;

    closed spec fn view(&self) -> ResolverView {
        ResolverView {
            public_base_url: self.public_base_url@,
            google_client_id: opt_view(self.google_client_id),
            github_client_id: opt_view(self.github_client_id),
            use_mock: self.use_mock,
            mock_oidc_url: opt_view(self.mock_oidc_url),
            google_seed: opt_view(self.google_seed),
            github_seed: opt_view(self.github_seed),
            listed: self.listed@,
            google_secret: opt_view(self.google_secret),
            github_secret: opt_view(self.github_secret),
            stage: self.stage,
        }
    }
}

/// The state of a resolver that has returned its outcome.
pub open spec fn finished_view() -> ResolverView {
    ResolverView {
        public_base_url: Seq::empty(),
        google_client_id: None,
        github_client_id: None,
        use_mock: false,
        mock_oidc_url: None,
        google_seed: None,
        github_seed: None,
        listed: Seq::empty(),
        google_secret: None,
        github_secret: None,
        stage: Stage::Finished,
    }
}

/// The environment seed for a provider's secret.
pub open spec fn seed_of(r: ResolverView, p: Provider) -> Option<Seq<char>> {
    match p {
        Provider::Google => r.google_seed,
        Provider::Github => r.github_seed,
    }
}

/// The state with a provider's resolved secret recorded.
pub open spec fn with_secret(r: ResolverView, p: Provider, s: Option<Seq<char>>) -> ResolverView {
    match p {
        Provider::Google => ResolverView { google_secret: s, ..r },
        Provider::Github => ResolverView { github_secret: s, ..r },
    }
}

/// Where a provider's secret comes from, decided from the listing.
pub enum SecretSource {
    /// The latest row has another kind: fail closed.
    WrongKind(String),
    /// Reveal the latest row, which has this id.
    Load(Seq<char>),
    /// No row: seed this plaintext.
    Seed(Seq<char>),
    /// No row and nothing to seed.
    Absent,
}

/// The latest name+scope row decides; its kind must be the OAuth secret
/// kind. Only when there is no such row does the environment seed count.
pub open spec fn secret_source(
    listed: Seq<ListedRow>,
    name: Seq<char>,
    seed: Option<Seq<char>>,
) -> SecretSource {
    match latest_index(listed, name) {
        Some(i) => if listed[i].kind@ == OAUTH_SECRET_KIND@ {
            SecretSource::Load(listed[i].id@)
        } else {
            SecretSource::WrongKind(listed[i].kind)
        },
        None => match seed {
            Some(pt) => SecretSource::Seed(pt),
            None => SecretSource::Absent,
        },
    }
}

/// The resolve ends with an error.
pub open spec fn fail(e: ResolveOAuthConfigError) -> (ResolverView, StepView) {
    (finished_view(), StepView::Done(Err(e)))
}

/// A client id and a secret, both present and non-empty.
pub open spec fn ready(id: Option<Seq<char>>, secret: Option<Seq<char>>) -> bool {
    &&& id matches Some(i) && i.len() > 0
    &&& secret matches Some(s) && s.len() > 0
}

/// The outcome once both secrets are resolved: `Ok(None)` without the mock
/// flag when no provider is ready, else the configuration.
pub open spec fn finish_outcome(r: ResolverView) -> Result<
    Option<OAuthClientConfigView>,
    ResolveOAuthConfigError,
> {
    if !r.use_mock && !ready(r.google_client_id, r.google_secret) && !ready(
        r.github_client_id,
        r.github_secret,
    ) {
        Ok(None)
    } else {
        Ok(
            Some(
                config_view(
                    r.public_base_url,
                    r.google_client_id,
                    r.google_secret,
                    r.github_client_id,
                    r.github_secret,
                    r.use_mock,
                    r.mock_oidc_url,
                ),
            ),
        )
    }
}

/// Look up provider `p`'s secret; `absent` is what follows when there is
/// neither a row nor a seed.
pub open spec fn plan_step(r: ResolverView, p: Provider, absent: (ResolverView, StepView)) -> (
    ResolverView,
    StepView,
) {
    match secret_source(r.listed, provider_secret_name(p)@, seed_of(r, p)) {
        SecretSource::WrongKind(k) => fail(
            ResolveOAuthConfigError::WrongKind { name: provider_secret_name(p), kind: k },
        ),
        SecretSource::Load(id) => (
            ResolverView { stage: Stage::AwaitGet(p), ..r },
            StepView::Call(VaultRequestView::Get { id }),
        ),
        SecretSource::Seed(pt) => (
            ResolverView { stage: Stage::AwaitStore(p), ..r },
            StepView::Call(
                VaultRequestView::PutOrReuse(seed_request(provider_secret_name(p)@, pt)),
            ),
        ),
        SecretSource::Absent => absent,
    }
}

/// Resolve GitHub's secret, then finish.
pub open spec fn on_github(r: ResolverView) -> (ResolverView, StepView) {
    plan_step(
        r,
        Provider::Github,
        (finished_view(), StepView::Done(finish_outcome(with_secret(r, Provider::Github, None)))),
    )
}

/// Resolve Google's secret, then GitHub's.
pub open spec fn on_google(r: ResolverView) -> (ResolverView, StepView) {
    plan_step(r, Provider::Google, on_github(with_secret(r, Provider::Google, None)))
}

/// Record provider `p`'s secret and go on.
pub open spec fn after_secret(r: ResolverView, p: Provider, s: Option<Seq<char>>) -> (
    ResolverView,
    StepView,
) {
    match p {
        Provider::Google => on_github(with_secret(r, Provider::Google, s)),
        Provider::Github => (
            finished_view(),
            StepView::Done(finish_outcome(with_secret(r, Provider::Github, s))),
        ),
    }
}

/// The reply is one the resolver is waiting for.
pub open spec fn expects_reply(r: ResolverView, reply: VaultReplyView) -> bool {
    match r.stage {
        Stage::AwaitList => reply is Listed || reply is ListFailed,
        Stage::AwaitStore(_) => reply is Stored || reply is StoreFailed,
        Stage::AwaitGet(_) => reply is Revealed || reply is GetFailed,
        Stage::Finished => false,
    }
}

/// The next state and step after a reply.
pub open spec fn step_spec(r: ResolverView, reply: VaultReplyView) -> (ResolverView, StepView)
    recommends
        expects_reply(r, reply),
{
    match r.stage {
        Stage::AwaitList => match reply {
            VaultReplyView::Listed(rows) => on_google(ResolverView { listed: rows, ..r }),
            VaultReplyView::ListFailed(e) => fail(ResolveOAuthConfigError::List { source: e }),
            _ => (r, StepView::Call(VaultRequestView::List)),
        },
        Stage::AwaitStore(p) => match reply {
            VaultReplyView::Stored(id) => (
                ResolverView { stage: Stage::AwaitGet(p), ..r },
                StepView::Call(VaultRequestView::Get { id }),
            ),
            VaultReplyView::StoreFailed(e) => fail(
                ResolveOAuthConfigError::Seed { name: provider_secret_name(p), source: e },
            ),
            _ => (r, StepView::Call(VaultRequestView::List)),
        },
        Stage::AwaitGet(p) => match reply {
            VaultReplyView::Revealed(bytes) => if valid_utf8(bytes) {
                after_secret(r, p, Some(decode_utf8(bytes)))
            } else {
                fail(ResolveOAuthConfigError::InvalidUtf8 { name: provider_secret_name(p) })
            },
            VaultReplyView::GetFailed(e) => fail(
                ResolveOAuthConfigError::Get { name: provider_secret_name(p), source: e },
            ),
            _ => (r, StepView::Call(VaultRequestView::List)),
        },
        Stage::Finished => (r, StepView::Call(VaultRequestView::List)),
    }
}

/// How a resolve starts. Without the mock flag and without any client id,
/// OAuth is not configured: `Ok(None)` and no vault access. With the mock
/// flag and no client-secret variable: the mock configuration, no vault
/// access. Otherwise: list the vault, with the environment secrets as seeds
/// only when `seed_from_env`.
pub open spec fn start_spec(env: OAuthEnvView, public_base_url: Seq<char>, seed_from_env: bool) -> (
    ResolverView,
    StepView,
) {
    let google_id = nonempty_value(env.google_client_id);
    let github_id = nonempty_value(env.github_client_id);
    let use_mock = truthy_value(env.use_mock);
    let mock_oidc = nonempty_value(env.mock_oidc_url);
    let google_env_secret = nonempty_value(env.google_client_secret);
    let github_env_secret = nonempty_value(env.github_client_secret);
    if !use_mock && google_id is None && github_id is None {
        (finished_view(), StepView::Done(Ok(None)))
    } else if use_mock && google_env_secret is None && github_env_secret is None {
        (
            finished_view(),
            StepView::Done(
                Ok(Some(config_view(public_base_url, google_id, None, github_id, None, true, mock_oidc))),
            ),
        )
    } else {
        (
            ResolverView {
                public_base_url,
                google_client_id: google_id,
                github_client_id: github_id,
                use_mock,
                mock_oidc_url: mock_oidc,
                google_seed: if seed_from_env {
                    google_env_secret
                } else {
                    None
                },
                github_seed: if seed_from_env {
                    github_env_secret
                } else {
                    None
                },
                listed: Seq::empty(),
                google_secret: None,
                github_secret: None,
                stage: Stage::AwaitList,
            },
            StepView::Call(VaultRequestView::List),
        )
    }
}

/// Where a provider's secret comes from, as decided at run time.
enum SecretPlan {
    WrongKind(String),
    Load(String),
    Seed(String),
    Absent,
}

spec fn plan_view(p: SecretPlan) -> SecretSource {
    match p {
        SecretPlan::WrongKind(k) => SecretSource::WrongKind(k),
        SecretPlan::Load(id) => SecretSource::Load(id@),
        SecretPlan::Seed(pt) => SecretSource::Seed(pt@),
        SecretPlan::Absent => SecretSource::Absent,
    }
}

/// Decides where the secret named `name` comes from: the latest listed row
/// (which must have the OAuth kind), else the seed.
fn plan_secret(listed: &[ListedRow], name: &'static str, seed: &Option<String>) -> (res:
    SecretPlan)
    ensures
        plan_view(res) == secret_source(listed@, name@, opt_view(*seed)),
{
    match latest_named_row(listed, name) {
        Some(row) => {
            if same_text(&row.kind, OAUTH_SECRET_KIND) {
                SecretPlan::Load(row.id.clone())
            } else {
                SecretPlan::WrongKind(row.kind.clone())
            }
        },
        None => match seed {
            Some(pt) => SecretPlan::Seed(pt.clone()),
            None => SecretPlan::Absent,
        },
    }
}

/// A client id and a secret, both present and non-empty.
fn is_ready(id: &Option<String>, secret: &Option<String>) -> (res: bool)
    ensures
        res == ready(opt_view(*id), opt_view(*secret)),
{
    match (id, secret) {
        (Some(i), Some(s)) => !i.as_str().is_empty() && !s.as_str().is_empty(),
        _ => false,
    }
}

impl Resolver {
    fn finished() -> (res: Resolver)
        ensures
            res@ == finished_view(),
    {
        Resolver {
            public_base_url: String::new(),
            google_client_id: None,
            github_client_id: None,
            use_mock: false,
            mock_oidc_url: None,
            google_seed: None,
            github_seed: None,
            listed: Vec::new(),
            google_secret: None,
            github_secret: None,
            stage: Stage::Finished,
        }
    }

    fn fail(e: ResolveOAuthConfigError) -> (res: (Resolver, Step))
        ensures
            (res.0@, res.1@) == fail(e),
    {
        (Resolver::finished(), Step::Done(Err(e)))
    }

    /// Ends the resolve with the outcome for the secrets found.
    fn finish(self) -> (res: (Resolver, Step))
        ensures
            (res.0@, res.1@) == (finished_view(), StepView::Done(finish_outcome(self@))),
    {
        let ready_google = is_ready(&self.google_client_id, &self.google_secret);
        let ready_github = is_ready(&self.github_client_id, &self.github_secret);
        if !self.use_mock && !ready_google && !ready_github {
            (Resolver::finished(), Step::Done(Ok(None)))
        } else {
            let cfg = oauth_config(
                self.public_base_url.as_str(),
                self.google_client_id,
                self.google_secret,
                self.github_client_id,
                self.github_secret,
                self.use_mock,
                self.mock_oidc_url,
            );
            (Resolver::finished(), Step::Done(Ok(Some(cfg))))
        }
    }

    /// Looks up provider `p`'s secret; hands the resolver back when there
    /// is neither a row nor a seed.
    fn plan(self, p: Provider) -> (res: Result<(Resolver, Step), Resolver>)
        ensures
            res is Err <==> secret_source(self@.listed, provider_secret_name(p)@, seed_of(self@, p))
                is Absent,
            res matches Err(r) ==> r@ == self@,
            res matches Ok(x) ==> (x.0@, x.1@) == plan_step(
                self@,
                p,
                (finished_view(), StepView::Call(VaultRequestView::List)),
            ),
    {
        let name = secret_name(p);
        let seed = match p {
            Provider::Google => &self.google_seed,
            Provider::Github => &self.github_seed,
        };
        let plan = plan_secret(self.listed.as_slice(), name, seed);
        match plan {
            SecretPlan::WrongKind(kind) => Ok(
                Resolver::fail(ResolveOAuthConfigError::WrongKind { name, kind }),
            ),
            SecretPlan::Load(id) => {
                let mut r = self;
                r.stage = Stage::AwaitGet(p);
                Ok((r, Step::Call(VaultRequest::Get { id })))
            },
            SecretPlan::Seed(pt) => {
                let req = make_seed_request(name, &pt);
                let mut r = self;
                r.stage = Stage::AwaitStore(p);
                Ok((r, Step::Call(VaultRequest::PutOrReuse(req))))
            },
            SecretPlan::Absent => Err(self),
        }
    }

    fn on_github(self) -> (res: (Resolver, Step))
        ensures
            (res.0@, res.1@) == on_github(self@),
    {
        match self.plan(Provider::Github) {
            Ok(x) => x,
            Err(r) => {
                let mut r = r;
                r.github_secret = None;
                r.finish()
            },
        }
    }

    fn on_google(self) -> (res: (Resolver, Step))
        ensures
            (res.0@, res.1@) == on_google(self@),
    {
        match self.plan(Provider::Google) {
            Ok(x) => x,
            Err(r) => {
                let mut r = r;
                r.google_secret = None;
                r.on_github()
            },
        }
    }

    fn after_secret(self, p: Provider, secret: Option<String>) -> (res: (Resolver, Step))
        ensures
            (res.0@, res.1@) == after_secret(self@, p, opt_view(secret)),
    {
        let mut r = self;
        match p {
            Provider::Google => {
                r.google_secret = secret;
                r.on_github()
            },
            Provider::Github => {
                r.github_secret = secret;
                r.finish()
            },
        }
    }

    /// Starts a resolve from the raw OAuth environment. Either the outcome
    /// is known at once (OAuth unconfigured, or the mock configuration), or
    /// the first step lists the vault.
    pub fn start(env: OAuthEnv, public_base_url: &str, seed_from_env: bool) -> (res: (
        Resolver,
        Step,
    ))
        ensures
            (res.0@, res.1@) == start_spec(env@, public_base_url@, seed_from_env),
    {
        let google_client_id = nonempty(env.google_client_id);
        let github_client_id = nonempty(env.github_client_id);
        let use_mock = truthy(env.use_mock);
        let mock_oidc_url = nonempty(env.mock_oidc_url);
        let google_env_secret = nonempty(env.google_client_secret);
        let github_env_secret = nonempty(env.github_client_secret);
        if !use_mock && google_client_id.is_none() && github_client_id.is_none() {
            return (Resolver::finished(), Step::Done(Ok(None)));
        }
        if use_mock && google_env_secret.is_none() && github_env_secret.is_none() {
            let cfg = oauth_config(
                public_base_url,
                google_client_id,
                None,
                github_client_id,
                None,
                true,
                mock_oidc_url,
            );
            return (Resolver::finished(), Step::Done(Ok(Some(cfg))));
        }
        let r = Resolver {
            public_base_url: public_base_url.to_owned(),
            google_client_id,
            github_client_id,
            use_mock,
            mock_oidc_url,
            google_seed: if seed_from_env {
                google_env_secret
            } else {
                None
            },
            github_seed: if seed_from_env {
                github_env_secret
            } else {
                None
            },
            listed: Vec::new(),
            google_secret: None,
            github_secret: None,
            stage: Stage::AwaitList,
        };
        (r, Step::Call(VaultRequest::List))
    }

    /// Whether the resolver is waiting for this kind of reply.
    pub fn accepts(&self, reply: &VaultReply) -> (res: bool)
        ensures
            res == expects_reply(self@, reply@),
    {
        match self.stage {
            Stage::AwaitList => match reply {
                VaultReply::Listed(_) | VaultReply::ListFailed(_) => true,
                _ => false,
            },
            Stage::AwaitStore(_) => match reply {
                VaultReply::Stored(_) | VaultReply::StoreFailed(_) => true,
                _ => false,
            },
            Stage::AwaitGet(_) => match reply {
                VaultReply::Revealed(_) | VaultReply::GetFailed(_) => true,
                _ => false,
            },
            Stage::Finished => false,
        }
    }

    /// Takes the reply to the last requested vault operation and says what
    /// comes next.
    pub fn step(self, reply: VaultReply) -> (res: (Resolver, Step))
        requires
            expects_reply(self@, reply@),
        ensures
            (res.0@, res.1@) == step_spec(self@, reply@),
    {
        match self.stage {
            Stage::AwaitList => match reply {
                VaultReply::Listed(rows) => {
                    let mut r = self;
                    r.listed = rows;
                    r.on_google()
                },
                VaultReply::ListFailed(source) => Resolver::fail(
                    ResolveOAuthConfigError::List { source },
                ),
                _ => {
                    assert(false);
                    (self, Step::Call(VaultRequest::List))
                },
            },
            Stage::AwaitStore(p) => match reply {
                VaultReply::Stored(id) => {
                    let mut r = self;
                    r.stage = Stage::AwaitGet(p);
                    (r, Step::Call(VaultRequest::Get { id }))
                },
                VaultReply::StoreFailed(source) => Resolver::fail(
                    ResolveOAuthConfigError::Seed { name: secret_name(p), source },
                ),
                _ => {
                    assert(false);
                    (self, Step::Call(VaultRequest::List))
                },
            },
            Stage::AwaitGet(p) => match reply {
                VaultReply::Revealed(bytes) => {
                    match plaintext_utf8(secret_name(p), bytes.as_slice()) {
                        Ok(text) => self.after_secret(p, Some(text)),
                        Err(e) => Resolver::fail(e),
                    }
                },
                VaultReply::GetFailed(source) => Resolver::fail(
                    ResolveOAuthConfigError::Get { name: secret_name(p), source },
                ),
                _ => {
                    assert(false);
                    (self, Step::Call(VaultRequest::List))
                },
            },
            Stage::Finished => {
                assert(false);
                (self, Step::Call(VaultRequest::List))
            },
        }
    }
}

/// The outcome label recorded on the resolve's tracing span.
pub fn outcome_label(
    outcome: &Result<Option<ResolvedOAuthClientConfig>, ResolveOAuthConfigError>,
) -> (res: &'static str)
    ensures
        res == (match *outcome {
            Ok(Some(_)) => "ok_configured",
            Ok(None) => "ok_unconfigured",
            Err(_) => "error",
        }),
{
    match outcome {
        Ok(Some(_)) => "ok_configured",
        Ok(None) => "ok_unconfigured",
        Err(_) => "error",
    }
}

} // verus!
