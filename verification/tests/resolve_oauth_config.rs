//! Resolve scenarios, with the vault played by an in-memory store.

use uf_oauth_boot::{
    outcome_label, ListedRow, OAuthEnv, PutSecretRequest, ResolveOAuthConfigError,
    ResolvedOAuthClientConfig, Resolver, Step, VaultReply, VaultRequest,
    OAUTH_GITHUB_SECRET_NAME, OAUTH_GOOGLE_SECRET_NAME, OAUTH_REDIRECT_PATH, OAUTH_SECRET_KIND,
    OAUTH_SECRET_SCOPE,
};

type Outcome = Result<Option<ResolvedOAuthClientConfig>, ResolveOAuthConfigError>;

#[derive(Default)]
struct MemoryVault {
    rows: Vec<(ListedRow, Vec<u8>)>,
    clock: i64,
    /// Listing fails (no usable backend).
    list_fails: bool,
    /// Sealing and revealing fail (no master key).
    no_master_key: bool,
    calls: Vec<String>,
}

impl MemoryVault {
    fn put(&mut self, name: &str, kind: &str, plaintext: &[u8]) -> String {
        self.clock += 1;
        let id = format!("row-{}", self.rows.len() + 1);
        self.rows.push((
            ListedRow {
                id: id.clone(),
                name: name.to_string(),
                scope_path: OAUTH_SECRET_SCOPE.to_string(),
                kind: kind.to_string(),
                current_version: 1,
                created_at_secs: self.clock,
                created_at_nanos: 0,
            },
            plaintext.to_vec(),
        ));
        id
    }

    fn put_or_reuse(&mut self, req: &PutSecretRequest) -> Result<String, anyhow::Error> {
        if self.no_master_key {
            return Err(anyhow::Error::msg("master key missing"));
        }
        if let Some((row, _)) = self
            .rows
            .iter()
            .find(|(r, _)| r.name == req.name && r.scope_path == req.scope_path)
        {
            return Ok(row.id.clone());
        }
        let id = self.put(&req.name, &req.kind, &req.plaintext);
        Ok(id)
    }

    fn get(&self, id: &str) -> Result<Vec<u8>, anyhow::Error> {
        if self.no_master_key {
            return Err(anyhow::Error::msg("master key missing"));
        }
        self.rows
            .iter()
            .find(|(r, _)| r.id == id)
            .map(|(_, p)| p.clone())
            .ok_or_else(|| anyhow::Error::msg("no such secret"))
    }

    fn perform(&mut self, req: VaultRequest) -> VaultReply {
        match req {
            VaultRequest::List => {
                self.calls.push("list".to_string());
                if self.list_fails {
                    VaultReply::ListFailed(anyhow::Error::msg("backend unavailable"))
                } else {
                    VaultReply::Listed(self.rows.iter().map(|(r, _)| clone_row(r)).collect())
                }
            }
            VaultRequest::Get { id } => {
                self.calls.push(format!("get {id}"));
                match self.get(&id) {
                    Ok(bytes) => VaultReply::Revealed(bytes),
                    Err(e) => VaultReply::GetFailed(e),
                }
            }
            VaultRequest::PutOrReuse(req) => {
                self.calls.push(format!("put_or_reuse {}", req.name));
                match self.put_or_reuse(&req) {
                    Ok(id) => VaultReply::Stored(id),
                    Err(e) => VaultReply::StoreFailed(e),
                }
            }
        }
    }

    fn has_row(&self, name: &str) -> bool {
        self.rows
            .iter()
            .any(|(r, _)| r.name == name && r.scope_path == OAUTH_SECRET_SCOPE)
    }
}

fn clone_row(r: &ListedRow) -> ListedRow {
    ListedRow {
        id: r.id.clone(),
        name: r.name.clone(),
        scope_path: r.scope_path.clone(),
        kind: r.kind.clone(),
        current_version: r.current_version,
        created_at_secs: r.created_at_secs,
        created_at_nanos: r.created_at_nanos,
    }
}

trait ExpectFailure {
    fn expect_failure(self, msg: &str) -> ResolveOAuthConfigError;
}

impl ExpectFailure for Outcome {
    fn expect_failure(self, msg: &str) -> ResolveOAuthConfigError {
        match self {
            Err(e) => e,
            Ok(_) => panic!("{msg}"),
        }
    }
}

fn env() -> OAuthEnv {
    OAuthEnv {
        google_client_id: None,
        google_client_secret: None,
        github_client_id: None,
        github_client_secret: None,
        use_mock: None,
        mock_oidc_url: None,
    }
}

fn s(v: &str) -> Option<String> {
    Some(v.to_string())
}

fn resolve(vault: &mut MemoryVault, env: OAuthEnv, url: &str, seed_from_env: bool) -> Outcome {
    let (mut resolver, mut step) = Resolver::start(env, url, seed_from_env);
    loop {
        match step {
            Step::Done(outcome) => return outcome,
            Step::Call(req) => {
                let reply = vault.perform(req);
                assert!(resolver.accepts(&reply));
                let (next, next_step) = resolver.step(reply);
                resolver = next;
                step = next_step;
            }
        }
    }
}

fn google_env(secret: Option<&str>) -> OAuthEnv {
    let mut e = env();
    e.google_client_id = s("google-client-id");
    e.google_client_secret = secret.map(str::to_string);
    e
}

#[test]
fn returns_none_when_unconfigured() {
    let mut vault = MemoryVault::default();
    let out = resolve(&mut vault, env(), "http://127.0.0.1:3000", true).expect("resolve");
    assert!(out.is_none());
    assert!(vault.calls.is_empty());
}

#[test]
fn mock_without_secrets_skips_store() {
    let mut vault = MemoryVault {
        no_master_key: true,
        ..Default::default()
    };
    let mut e = env();
    e.use_mock = s("1");
    let cfg = resolve(&mut vault, e, "http://example.test", true)
        .expect("mock resolve must skip vault I/O even without master key")
        .expect("some config")
        .into_lepton();
    assert!(cfg.use_mock_provider);
    assert_eq!(cfg.public_base_url, "http://example.test");
    assert_eq!(cfg.redirect_path, OAUTH_REDIRECT_PATH);
    assert!(cfg.google_client_secret.is_none());
    assert!(cfg.github_client_secret.is_none());
    assert!(vault.calls.is_empty(), "mock short-circuit must not touch the vault");
    assert!(
        !vault.has_row(OAUTH_GOOGLE_SECRET_NAME) && !vault.has_row(OAUTH_GITHUB_SECRET_NAME),
        "mock short-circuit must not seed vault rows"
    );
}

#[test]
fn client_id_without_secret_returns_none() {
    let mut vault = MemoryVault::default();
    let out = resolve(&mut vault, google_env(None), "http://127.0.0.1:3000", false)
        .expect("resolve");
    assert!(out.is_none(), "id without sealed secret must skip OAuth");
    assert_eq!(OAUTH_GOOGLE_SECRET_NAME, "oauth.google.client_secret");
    assert_eq!(OAUTH_GITHUB_SECRET_NAME, "oauth.github.client_secret");
    assert_eq!(OAUTH_SECRET_SCOPE, "/lepton/oauth");
    assert_eq!(OAUTH_SECRET_KIND, "oauth_client_secret");
    assert_eq!(OAUTH_REDIRECT_PATH, "/auth/oauth/callback");
}

#[test]
fn store_failure_is_err_without_secret_leak() {
    let secret = "super-secret-must-not-leak";
    let mut vault = MemoryVault {
        no_master_key: true,
        ..Default::default()
    };
    let err = resolve(&mut vault, google_env(Some(secret)), "http://127.0.0.1:3000", true)
        .expect_failure("expected store failure");
    match &err {
        ResolveOAuthConfigError::Seed { name, .. } => {
            assert_eq!(*name, OAUTH_GOOGLE_SECRET_NAME);
        }
        other => panic!("expected Seed variant, got {}", other.to_string()),
    }
    let msg = err.to_string();
    assert!(!msg.contains(secret), "error must not echo client secret: {msg}");
}

#[test]
fn seeds_google_secret_from_env_and_returns_config_happy() {
    let secret = "google-seed-secret";
    let mut vault = MemoryVault::default();
    let cfg = resolve(&mut vault, google_env(Some(secret)), "http://127.0.0.1:3000", true)
        .expect("resolve")
        .expect("some config")
        .into_lepton();

    assert_eq!(cfg.public_base_url, "http://127.0.0.1:3000");
    assert_eq!(cfg.redirect_path, OAUTH_REDIRECT_PATH);
    assert_eq!(cfg.google_client_id.as_deref(), Some("google-client-id"));
    assert_eq!(cfg.google_client_secret.as_deref(), Some(secret));
    assert!(cfg.github_client_id.is_none());
    assert!(cfg.github_client_secret.is_none());
    assert!(!cfg.use_mock_provider);
    assert!(
        vault.rows.iter().any(|(r, _)| r.name == OAUTH_GOOGLE_SECRET_NAME
            && r.scope_path == OAUTH_SECRET_SCOPE
            && r.kind == OAUTH_SECRET_KIND),
        "seed must write stable Google name under {OAUTH_SECRET_SCOPE} with {OAUTH_SECRET_KIND}"
    );
}

#[test]
fn seeds_github_secret_from_env_and_returns_config_happy() {
    let secret = "github-seed-secret";
    let mut vault = MemoryVault::default();
    let mut e = env();
    e.github_client_id = s("github-client-id");
    e.github_client_secret = s(secret);
    let cfg = resolve(&mut vault, e, "https://app.example.test", true)
        .expect("resolve")
        .expect("some config")
        .into_lepton();

    assert_eq!(cfg.public_base_url, "https://app.example.test");
    assert_eq!(cfg.redirect_path, OAUTH_REDIRECT_PATH);
    assert_eq!(cfg.github_client_id.as_deref(), Some("github-client-id"));
    assert_eq!(cfg.github_client_secret.as_deref(), Some(secret));
    assert!(cfg.google_client_id.is_none());
    assert!(cfg.google_client_secret.is_none());
    assert!(
        vault.has_row(OAUTH_GITHUB_SECRET_NAME),
        "seed must write stable GitHub name under {OAUTH_SECRET_SCOPE}"
    );
}

#[test]
fn loads_existing_sealed_secret_without_env_seed_happy() {
    let mut vault = MemoryVault::default();
    vault.put(
        OAUTH_GOOGLE_SECRET_NAME,
        "oauth_client_secret",
        b"vault-held-google-secret",
    );
    let cfg = resolve(&mut vault, google_env(None), "http://127.0.0.1:3000", false)
        .expect("resolve")
        .expect("some config")
        .into_lepton();
    assert_eq!(
        cfg.google_client_secret.as_deref(),
        Some("vault-held-google-secret")
    );
    assert_eq!(cfg.redirect_path, OAUTH_REDIRECT_PATH);
    assert!(!cfg.use_mock_provider);
}

#[test]
fn seed_from_env_false_ignores_env_secret_returns_none_sad() {
    let mut vault = MemoryVault::default();
    let out = resolve(
        &mut vault,
        google_env(Some("must-not-be-seeded")),
        "http://127.0.0.1:3000",
        false,
    )
    .expect("resolve");
    assert!(
        out.is_none(),
        "seed_from_env=false must not pull env secret into config"
    );
    assert!(
        !vault.has_row(OAUTH_GOOGLE_SECRET_NAME),
        "vault must stay empty when seed_from_env is false"
    );
}

#[test]
fn mock_with_oidc_url_sets_issuer_happy() {
    let mut vault = MemoryVault::default();
    let mut e = env();
    e.use_mock = s("1");
    e.mock_oidc_url = s("http://127.0.0.1:9999/");
    let cfg = resolve(&mut vault, e, "http://example.test", false)
        .expect("resolve")
        .expect("some config")
        .into_lepton();
    assert!(cfg.use_mock_provider);
    assert_eq!(
        cfg.mock_oidc_issuer_url.as_deref(),
        Some("http://127.0.0.1:9999/")
    );
    assert!(cfg.google_client_secret.is_none());
}

#[test]
fn whitespace_client_id_treated_as_unconfigured_sad() {
    let mut vault = MemoryVault::default();
    let mut e = env();
    e.google_client_id = s("   ");
    let out = resolve(&mut vault, e, "http://127.0.0.1:3000", true).expect("resolve");
    assert!(out.is_none(), "whitespace-only client id must not enable OAuth");
}

#[test]
fn reseed_same_plaintext_returns_usable_config_happy() {
    let secret = "idempotent-google-secret";
    let mut vault = MemoryVault::default();
    let first = resolve(&mut vault, google_env(Some(secret)), "http://127.0.0.1:3000", true)
        .expect("first resolve")
        .expect("first config")
        .into_lepton();
    let second = resolve(&mut vault, google_env(Some(secret)), "http://127.0.0.1:3000", true)
        .expect("second resolve")
        .expect("second config")
        .into_lepton();
    assert_eq!(first.google_client_secret.as_deref(), Some(secret));
    assert_eq!(second.google_client_secret.as_deref(), Some(secret));
    assert_eq!(first.redirect_path, second.redirect_path);
}

#[test]
fn seed_from_env_does_not_rotate_existing_vault_secret_deny() {
    let vault_secret = "vault-canonical-google-secret";
    let env_attacker = "env-must-not-overwrite-vault";
    let mut vault = MemoryVault::default();
    vault.put(
        OAUTH_GOOGLE_SECRET_NAME,
        "oauth_client_secret",
        vault_secret.as_bytes(),
    );
    let cfg = resolve(
        &mut vault,
        google_env(Some(env_attacker)),
        "http://127.0.0.1:3000",
        true,
    )
    .expect("resolve")
    .expect("some config")
    .into_lepton();
    assert_eq!(
        cfg.google_client_secret.as_deref(),
        Some(vault_secret),
        "existing sealed row must win over seed_from_env plaintext"
    );
    assert!(
        !vault.calls.iter().any(|c| c.starts_with("put_or_reuse")),
        "an existing row must not be reseeded"
    );
    let (row, plaintext) = vault
        .rows
        .iter()
        .find(|(r, _)| r.name == OAUTH_GOOGLE_SECRET_NAME && r.scope_path == OAUTH_SECRET_SCOPE)
        .expect("google secret row");
    assert_eq!(row.id, "row-1");
    assert_eq!(
        plaintext.as_slice(),
        vault_secret.as_bytes(),
        "vault ciphertext must not rotate from mismatched env"
    );
    assert_ne!(
        cfg.google_client_secret.as_deref(),
        Some(env_attacker),
        "config must not carry env overwrite secret"
    );
}

#[test]
fn seed_from_env_fills_missing_vault_allow() {
    let secret = "first-boot-only-secret";
    let mut vault = MemoryVault::default();
    let cfg = resolve(&mut vault, google_env(Some(secret)), "http://127.0.0.1:3000", true)
        .expect("resolve")
        .expect("some config")
        .into_lepton();
    assert_eq!(cfg.google_client_secret.as_deref(), Some(secret));

    let again = resolve(&mut vault, google_env(None), "http://127.0.0.1:3000", false)
        .expect("vault resolve")
        .expect("vault config")
        .into_lepton();
    assert_eq!(again.google_client_secret.as_deref(), Some(secret));
}

#[test]
fn resolved_config_debug_hides_seeded_secret_sad() {
    let secret = "debug-must-not-print-this-secret";
    let mut vault = MemoryVault::default();
    let resolved = resolve(&mut vault, google_env(Some(secret)), "http://127.0.0.1:3000", true)
        .expect("resolve")
        .expect("some config");
    let dbg = resolved.debug_string();
    assert!(
        !dbg.contains(secret),
        "ResolvedOAuthClientConfig Debug must not include client secret: {dbg}"
    );
    assert!(
        dbg.contains("<redacted>"),
        "Debug should mark secrets redacted: {dbg}"
    );
    let cfg = resolved.into_lepton();
    assert_eq!(cfg.google_client_secret.as_deref(), Some(secret));
}

#[test]
fn wrong_kind_fails_closed_without_using_secret_sad() {
    let secret = "wrong-kind-plaintext-must-not-leak";
    let mut vault = MemoryVault::default();
    vault.put(OAUTH_GOOGLE_SECRET_NAME, "password", secret.as_bytes());
    let err = resolve(&mut vault, google_env(None), "http://127.0.0.1:3000", false)
        .expect_failure("wrong kind must fail closed");
    match &err {
        ResolveOAuthConfigError::WrongKind { name, kind } => {
            assert_eq!(*name, OAUTH_GOOGLE_SECRET_NAME);
            assert_eq!(kind, "password");
        }
        other => panic!("expected WrongKind, got {}", other.to_string()),
    }
    assert!(
        !vault.calls.iter().any(|c| c.starts_with("get")),
        "a wrong-kind row must not be revealed"
    );
    let msg = err.to_string();
    assert!(!msg.contains(secret), "WrongKind Display must not echo plaintext: {msg}");
    let dbg = format!("{err:?}");
    assert!(!dbg.contains(secret), "WrongKind Debug must not echo plaintext: {dbg}");
}

#[test]
fn invalid_utf8_sealed_secret_fails_closed_sad() {
    let mut vault = MemoryVault::default();
    let non_utf8 = vec![0xff, 0xfe, 0xfd];
    vault.put(OAUTH_GOOGLE_SECRET_NAME, OAUTH_SECRET_KIND, &non_utf8);
    let err = resolve(&mut vault, google_env(None), "http://127.0.0.1:3000", false)
        .expect_failure("non-utf8 sealed bytes must fail");
    match &err {
        ResolveOAuthConfigError::InvalidUtf8 { name } => {
            assert_eq!(*name, OAUTH_GOOGLE_SECRET_NAME);
        }
        other => panic!("expected InvalidUtf8, got {}", other.to_string()),
    }
    let msg = err.to_string();
    assert!(
        msg.contains(OAUTH_GOOGLE_SECRET_NAME) && msg.contains("UTF-8"),
        "InvalidUtf8 Display should name secret and UTF-8: {msg}"
    );
    assert!(
        !msg.as_bytes().windows(3).any(|w| w == non_utf8.as_slice()),
        "InvalidUtf8 Display must not echo raw bytes: {msg}"
    );
}

#[test]
fn get_failure_is_err_without_secret_leak_sad() {
    let secret = "get-fail-secret-must-not-leak";
    let mut vault = MemoryVault::default();
    vault.put(OAUTH_GOOGLE_SECRET_NAME, OAUTH_SECRET_KIND, secret.as_bytes());
    vault.no_master_key = true;
    let err = resolve(&mut vault, google_env(None), "http://127.0.0.1:3000", false)
        .expect_failure("get without master key must fail");
    match &err {
        ResolveOAuthConfigError::Get { name, .. } => {
            assert_eq!(*name, OAUTH_GOOGLE_SECRET_NAME);
        }
        other => panic!("expected Get variant, got {}", other.to_string()),
    }
    let msg = err.to_string();
    assert!(!msg.contains(secret), "Get Display must not echo client secret: {msg}");
}

#[test]
fn list_failure_is_err_without_secret_leak_sad() {
    let secret = "list-fail-secret-must-not-leak";
    let mut vault = MemoryVault {
        list_fails: true,
        ..Default::default()
    };
    let err = resolve(&mut vault, google_env(Some(secret)), "http://127.0.0.1:3000", true)
        .expect_failure("list against empty router must fail");
    match &err {
        ResolveOAuthConfigError::List { .. } => {}
        other => panic!("expected List variant, got {}", other.to_string()),
    }
    let msg = err.to_string();
    assert!(!msg.contains(secret), "List Display must not echo client secret: {msg}");
    assert!(
        msg.contains("list Neutrino secrets"),
        "List Display should name the operation: {msg}"
    );
}

#[test]
fn latest_duplicate_row_wins_integ_happy() {
    let mut vault = MemoryVault::default();
    vault.put(OAUTH_GOOGLE_SECRET_NAME, "password", b"older-wrong-kind");
    vault.put(
        OAUTH_GOOGLE_SECRET_NAME,
        OAUTH_SECRET_KIND,
        b"newer-canonical-secret",
    );
    let cfg = resolve(&mut vault, google_env(None), "http://127.0.0.1:3000", false)
        .expect("resolve")
        .expect("some config")
        .into_lepton();
    assert_eq!(
        cfg.google_client_secret.as_deref(),
        Some("newer-canonical-secret"),
        "latest created_at row must win over older wrong-kind duplicate"
    );
}

#[test]
fn tracing_outcome_ok_configured_and_unconfigured() {
    let mut vault = MemoryVault::default();
    let out = resolve(&mut vault, env(), "http://127.0.0.1:3000", false);
    assert_eq!(outcome_label(&out), "ok_unconfigured");
    let mut e = env();
    e.use_mock = s("1");
    let out = resolve(&mut vault, e, "http://127.0.0.1:3000", false);
    assert_eq!(outcome_label(&out), "ok_configured");
}

#[test]
fn tracing_outcome_error_on_wrong_kind() {
    let mut vault = MemoryVault::default();
    vault.put(OAUTH_GOOGLE_SECRET_NAME, "password", b"trace-error-secret");
    let out = resolve(&mut vault, google_env(None), "http://127.0.0.1:3000", false);
    assert_eq!(outcome_label(&out), "error");
}

#[test]
fn dual_provider_seed_happy() {
    let google_secret = "dual-google-secret";
    let github_secret = "dual-github-secret";
    let mut vault = MemoryVault::default();
    let mut e = google_env(Some(google_secret));
    e.github_client_id = s("github-client-id");
    e.github_client_secret = s(github_secret);
    let cfg = resolve(&mut vault, e, "http://127.0.0.1:3000", true)
        .expect("resolve")
        .expect("some config")
        .into_lepton();
    assert_eq!(cfg.google_client_secret.as_deref(), Some(google_secret));
    assert_eq!(cfg.github_client_secret.as_deref(), Some(github_secret));
    assert_eq!(cfg.google_client_id.as_deref(), Some("google-client-id"));
    assert_eq!(cfg.github_client_id.as_deref(), Some("github-client-id"));
    assert!(!cfg.use_mock_provider);
}

#[test]
fn mock_truthy_true_and_true_enable_mock() {
    for flag in ["true", "TRUE"] {
        let mut vault = MemoryVault::default();
        let mut e = env();
        e.use_mock = s(flag);
        let cfg = resolve(&mut vault, e, "http://example.test", false)
            .expect("resolve")
            .expect("mock config")
            .into_lepton();
        assert!(cfg.use_mock_provider, "UF_OAUTH_USE_MOCK={flag} must be truthy");
    }
}

#[test]
fn mock_with_client_secret_env_takes_vault_path_happy() {
    let secret = "mock-plus-secret-forces-vault";
    let mut vault = MemoryVault::default();
    let mut e = google_env(Some(secret));
    e.use_mock = s("1");
    let cfg = resolve(&mut vault, e, "http://example.test", true)
        .expect("resolve")
        .expect("some config")
        .into_lepton();
    assert!(cfg.use_mock_provider);
    assert_eq!(cfg.google_client_secret.as_deref(), Some(secret));
    assert!(
        vault.rows.iter().any(|(r, _)| r.name == OAUTH_GOOGLE_SECRET_NAME
            && r.scope_path == OAUTH_SECRET_SCOPE
            && r.kind == OAUTH_SECRET_KIND),
        "mock + secret env must enter vault seed path"
    );
}

#[test]
fn empty_sealed_plaintext_returns_none_sad() {
    let mut vault = MemoryVault::default();
    vault.put(OAUTH_GOOGLE_SECRET_NAME, OAUTH_SECRET_KIND, b"");
    let out = resolve(&mut vault, google_env(None), "http://127.0.0.1:3000", false)
        .expect("resolve");
    assert!(out.is_none(), "empty sealed secret must not enable OAuth (not ready)");
}

#[test]
fn seeded_row_is_read_back_by_its_id() {
    let mut vault = MemoryVault::default();
    let out = resolve(&mut vault, google_env(Some("abc")), "http://x", true).expect("resolve");
    assert!(out.is_some());
    assert_eq!(
        vault.calls,
        vec![
            "list".to_string(),
            format!("put_or_reuse {OAUTH_GOOGLE_SECRET_NAME}"),
            "get row-1".to_string(),
        ]
    );
}

#[test]
fn github_wrong_kind_fails_closed_after_google_loads() {
    let mut vault = MemoryVault::default();
    vault.put(OAUTH_GOOGLE_SECRET_NAME, OAUTH_SECRET_KIND, b"google-ok");
    vault.put(OAUTH_GITHUB_SECRET_NAME, "password", b"github-wrong-kind");
    let mut e = google_env(None);
    e.github_client_id = s("github-client-id");
    let err = resolve(&mut vault, e, "http://127.0.0.1:3000", false)
        .expect_failure("github wrong kind must fail closed");
    match &err {
        ResolveOAuthConfigError::WrongKind { name, kind } => {
            assert_eq!(*name, OAUTH_GITHUB_SECRET_NAME);
            assert_eq!(kind, "password");
        }
        other => panic!("expected WrongKind, got {}", other.to_string()),
    }
    assert_eq!(vault.calls, vec!["list".to_string(), "get row-1".to_string()]);
}

#[test]
fn later_boot_with_other_seed_keeps_first_github_secret() {
    let mut vault = MemoryVault::default();
    let mut first = env();
    first.github_client_id = s("github-client-id");
    first.github_client_secret = s("first-github-seed");
    let cfg = resolve(&mut vault, first, "http://x", true)
        .expect("first resolve")
        .expect("first config")
        .into_lepton();
    assert_eq!(cfg.github_client_secret.as_deref(), Some("first-github-seed"));

    let mut later = env();
    later.github_client_id = s("github-client-id");
    later.github_client_secret = s("other-github-seed");
    vault.calls.clear();
    let cfg = resolve(&mut vault, later, "http://x", true)
        .expect("later resolve")
        .expect("later config")
        .into_lepton();
    assert_eq!(cfg.github_client_secret.as_deref(), Some("first-github-seed"));
    assert!(!vault.calls.iter().any(|c| c.starts_with("put_or_reuse")));
}
