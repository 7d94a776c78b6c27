//! Properties of the resolver that hold across its steps.

use vstd::prelude::*;

use vstd::utf8::{decode_utf8, encode_utf8, valid_utf8};

use crate::config::OAuthClientConfigView;
use crate::env::{nonempty_value, truthy_value};
use crate::error::ResolveOAuthConfigError;
use crate::resolve::{
    config_view, expects_reply, finish_outcome, finished_view, is_latest, key_lt, latest_index,
    latest_is_unique, on_github, plan_step, with_secret,
    provider_secret_name, row_matches, secret_source, seed_of, seed_request, start_spec,
    step_spec, ListedRow, OAuthEnvView, Provider, ResolverView, SecretSource, Stage, StepView,
    VaultReplyView, VaultRequestView,
};
use crate::resolve::OWNER_ACTOR;
use crate::{OAUTH_GOOGLE_SECRET_NAME, OAUTH_REDIRECT_PATH, OAUTH_SECRET_KIND, OAUTH_SECRET_SCOPE};

verus! {

/// When a row with the secret's name and scope exists, the environment
/// seed plays no part: the latest row decides, and nothing is seeded.
pub proof fn existing_row_wins_over_seed(
    listed: Seq<ListedRow>,
    name: Seq<char>,
    seed1: Option<Seq<char>>,
    seed2: Option<Seq<char>>,
)
    requires
        exists|j: int| 0 <= j < listed.len() && row_matches(listed[j], name),
    ensures
        secret_source(listed, name, seed1) == secret_source(listed, name, seed2),
        !(secret_source(listed, name, seed1) is Seed),
        !(secret_source(listed, name, seed1) is Absent),
{
    let j = choose|j: int| 0 <= j < listed.len() && row_matches(listed[j], name);
    latest_exists(listed, name, j);
}

/// Some matching row makes some row the latest.
pub proof fn latest_exists(listed: Seq<ListedRow>, name: Seq<char>, j: int)
    requires
        0 <= j < listed.len(),
        row_matches(listed[j], name),
    ensures
        latest_index(listed, name) is Some,
        is_latest(listed, name, latest_index(listed, name)->0),
    decreases listed.len(),
{
    let n = listed.len();
    let prefix = listed.drop_last();
    if j == n - 1 && !(exists|k: int| 0 <= k < n - 1 && row_matches(listed[k], name)) {
        assert(is_latest(listed, name, j));
    } else {
        let k = if j < n - 1 {
            j
        } else {
            choose|k: int| 0 <= k < n - 1 && row_matches(listed[k], name)
        };
        assert(row_matches(prefix[k], name));
        latest_exists(prefix, name, k);
        let b = latest_index(prefix, name)->0;
        assert(is_latest(prefix, name, b));
        let last = listed[n - 1];
        if row_matches(last, name) && !key_lt(last, listed[b]) {
            assert forall|m: int|
                0 <= m < n && #[trigger] row_matches(listed[m], name) implies {
                &&& m <= n - 1 ==> !key_lt(listed[n - 1], listed[m])
                &&& n - 1 < m ==> key_lt(listed[m], listed[n - 1])
            } by {
                if m < n - 1 {
                    assert(row_matches(prefix[m], name));
                }
            }
            assert(is_latest(listed, name, n - 1));
        } else {
            assert forall|m: int|
                0 <= m < n && #[trigger] row_matches(listed[m], name) implies {
                &&& m <= b ==> !key_lt(listed[b], listed[m])
                &&& b < m ==> key_lt(listed[m], listed[b])
            } by {
                if m < n - 1 {
                    assert(row_matches(prefix[m], name));
                }
            }
            assert(is_latest(listed, name, b));
        }
    }
    let i = choose|i: int| is_latest(listed, name, i);
    assert(is_latest(listed, name, i));
}

/// The resolver holds no environment seeds.
pub open spec fn no_seeds(r: ResolverView) -> bool {
    r.google_seed is None && r.github_seed is None
}

/// The step asks to store a secret.
pub open spec fn is_store_request(s: StepView) -> bool {
    s matches StepView::Call(VaultRequestView::PutOrReuse(_))
}

/// Without `seed_from_env`, a resolve holds no seeds and its first step
/// stores nothing.
pub proof fn no_seeds_without_opt_in(env: OAuthEnvView, public_base_url: Seq<char>)
    ensures
        no_seeds(start_spec(env, public_base_url, false).0),
        !is_store_request(start_spec(env, public_base_url, false).1),
{
}

/// A resolver without seeds never asks to store a secret, and stays without
/// seeds: with `seed_from_env == false` the vault is only read.
pub proof fn no_seeds_no_store(r: ResolverView, reply: VaultReplyView)
    requires
        no_seeds(r),
        expects_reply(r, reply),
    ensures
        no_seeds(step_spec(r, reply).0),
        !is_store_request(step_spec(r, reply).1),
{
}

/// Every store request seeds a provider's own environment secret, under its
/// stable name, the OAuth scope and kind, and only when the listing has no
/// row with that name and scope.
pub proof fn seeds_only_missing_rows(r: ResolverView, reply: VaultReplyView)
    requires
        expects_reply(r, reply),
        is_store_request(step_spec(r, reply).1),
    ensures
        ({
            let (r2, s) = step_spec(r, reply);
            exists|p: Provider|
                {
                    &&& r2.stage == Stage::AwaitStore(p)
                    &&& seed_of(r2, p) is Some
                    &&& s == StepView::Call(
                        VaultRequestView::PutOrReuse(
                            seed_request(provider_secret_name(p)@, seed_of(r2, p)->0),
                        ),
                    )
                    &&& forall|j: int|
                        0 <= j < r2.listed.len() ==> !row_matches(
                            r2.listed[j],
                            provider_secret_name(p)@,
                        )
                    &&& s matches StepView::Call(VaultRequestView::PutOrReuse(req)) && {
                        &&& req.name == provider_secret_name(p)@
                        &&& req.scope_path == OAUTH_SECRET_SCOPE@
                        &&& req.kind == OAUTH_SECRET_KIND@
                        &&& req.owner_actor == OWNER_ACTOR@
                        &&& req.plaintext == encode_utf8(seed_of(r2, p)->0)
                    }
                }
        }),
{
    let (r2, s) = step_spec(r, reply);
    let p = match r2.stage {
        Stage::AwaitStore(p) => p,
        _ => Provider::Google,
    };
    assert(r2.stage == Stage::AwaitStore(p));
    assert(secret_source(r2.listed, provider_secret_name(p)@, seed_of(r2, p)) is Seed);
    assert(seed_of(r2, p) is Some);
    assert(s == StepView::Call(
        VaultRequestView::PutOrReuse(seed_request(provider_secret_name(p)@, seed_of(r2, p)->0)),
    ));
    assert forall|j: int| 0 <= j < r2.listed.len() implies !row_matches(
        r2.listed[j],
        provider_secret_name(p)@,
    ) by {
        if row_matches(r2.listed[j], provider_secret_name(p)@) {
            latest_exists(r2.listed, provider_secret_name(p)@, j);
        }
    }
}

/// Looking up either provider's secret: when its latest name+scope row has
/// the OAuth kind, that row is read by its id, whatever the environment
/// seed and whatever would follow an absent row. The sealed row wins over
/// the environment.
pub proof fn vault_row_is_read_not_seeded(
    r: ResolverView,
    p: Provider,
    i: int,
    absent: (ResolverView, StepView),
)
    requires
        is_latest(r.listed, provider_secret_name(p)@, i),
        r.listed[i].kind@ == OAUTH_SECRET_KIND@,
    ensures
        plan_step(r, p, absent) == (
            ResolverView { stage: Stage::AwaitGet(p), ..r },
            StepView::Call(VaultRequestView::Get { id: r.listed[i].id@ }),
        ),
{
    latest_exists(r.listed, provider_secret_name(p)@, i);
    latest_is_unique(
        r.listed,
        provider_secret_name(p)@,
        i,
        latest_index(r.listed, provider_secret_name(p)@)->0,
    );
}

/// Looking up either provider's secret: when its latest name+scope row has
/// another kind, the resolve ends with `WrongKind` (the stable name and the
/// observed kind) and nothing is revealed or seeded.
pub proof fn wrong_kind_fails_closed(
    r: ResolverView,
    p: Provider,
    i: int,
    absent: (ResolverView, StepView),
)
    requires
        is_latest(r.listed, provider_secret_name(p)@, i),
        r.listed[i].kind@ != OAUTH_SECRET_KIND@,
    ensures
        plan_step(r, p, absent) == (
            finished_view(),
            StepView::Done(
                Err(
                    ResolveOAuthConfigError::WrongKind {
                        name: provider_secret_name(p),
                        kind: r.listed[i].kind,
                    },
                ),
            ),
        ),
{
    latest_exists(r.listed, provider_secret_name(p)@, i);
    latest_is_unique(
        r.listed,
        provider_secret_name(p)@,
        i,
        latest_index(r.listed, provider_secret_name(p)@)->0,
    );
}

/// The listing step looks up Google's secret in the rows just listed.
pub proof fn listing_looks_up_google(r: ResolverView, rows: Seq<ListedRow>)
    requires
        r.stage == Stage::AwaitList,
    ensures
        ({
            let r1 = ResolverView { listed: rows, ..r };
            step_spec(r, VaultReplyView::Listed(rows)) == plan_step(
                r1,
                Provider::Google,
                on_github(with_secret(r1, Provider::Google, None)),
            )
        }),
{
}

/// GitHub's secret is looked up right after Google's: when Google has
/// neither a row nor a seed (on the listing step), and when Google's secret
/// has just been revealed as valid UTF-8.
pub proof fn github_looked_up_after_google(r: ResolverView, reply: VaultReplyView)
    requires
        expects_reply(r, reply),
    ensures
        (r.stage == Stage::AwaitList && reply is Listed && secret_source(
            reply->Listed_0,
            OAUTH_GOOGLE_SECRET_NAME@,
            r.google_seed,
        ) is Absent) ==> ({
            let r1 = with_secret(
                ResolverView { listed: reply->Listed_0, ..r },
                Provider::Google,
                None,
            );
            step_spec(r, reply) == plan_step(
                r1,
                Provider::Github,
                (finished_view(), StepView::Done(finish_outcome(with_secret(r1, Provider::Github, None)))),
            )
        }),
        (r.stage == Stage::AwaitGet(Provider::Google) && reply is Revealed
            && valid_utf8(reply->Revealed_0)) ==> ({
            let r1 = with_secret(r, Provider::Google, Some(decode_utf8(reply->Revealed_0)));
            step_spec(r, reply) == plan_step(
                r1,
                Provider::Github,
                (finished_view(), StepView::Done(finish_outcome(with_secret(r1, Provider::Github, None)))),
            )
        }),
{
}

/// A configuration as the resolver builds it: the base URL it was started
/// with, the fixed callback path, no endpoint overrides.
pub open spec fn well_shaped(c: OAuthClientConfigView, public_base_url: Seq<char>) -> bool {
    &&& c.public_base_url == public_base_url
    &&& c.redirect_path == OAUTH_REDIRECT_PATH@
    &&& c.google_token_url is None
    &&& c.google_userinfo_url is None
    &&& c.github_token_url is None
    &&& c.github_user_url is None
    &&& c.github_emails_url is None
}

/// The first step keeps the base URL, and a configuration it returns is
/// well shaped.
pub proof fn start_keeps_shape(env: OAuthEnvView, public_base_url: Seq<char>, seed_from_env: bool)
    ensures
        ({
            let (r, s) = start_spec(env, public_base_url, seed_from_env);
            &&& r.stage != Stage::Finished ==> r.public_base_url == public_base_url
            &&& s matches StepView::Done(Ok(Some(c))) ==> well_shaped(c, public_base_url)
        }),
{
}

/// Every step keeps the base URL, and a configuration it returns is well
/// shaped.
pub proof fn step_keeps_shape(r: ResolverView, reply: VaultReplyView)
    requires
        expects_reply(r, reply),
    ensures
        ({
            let (r2, s) = step_spec(r, reply);
            &&& r2.stage != Stage::Finished ==> r2.public_base_url == r.public_base_url
            &&& s matches StepView::Done(Ok(Some(c))) ==> well_shaped(c, r.public_base_url)
        }),
{
}

/// Without the mock flag and without a client id, OAuth is not configured:
/// `Ok(None)`, no vault access.
pub proof fn unconfigured_without_ids(env: OAuthEnvView, public_base_url: Seq<char>, seed_from_env: bool)
    requires
        !truthy_value(env.use_mock),
        nonempty_value(env.google_client_id) is None,
        nonempty_value(env.github_client_id) is None,
    ensures
        start_spec(env, public_base_url, seed_from_env).1 == StepView::Done(Ok(None)),
{
}

/// With the mock flag and no client-secret variables, the mock
/// configuration comes back without vault access.
pub proof fn mock_skips_vault(env: OAuthEnvView, public_base_url: Seq<char>, seed_from_env: bool)
    requires
        truthy_value(env.use_mock),
        nonempty_value(env.google_client_secret) is None,
        nonempty_value(env.github_client_secret) is None,
    ensures
        start_spec(env, public_base_url, seed_from_env).1 == StepView::Done(
            Ok(
                Some(
                    config_view(
                        public_base_url,
                        nonempty_value(env.google_client_id),
                        None,
                        nonempty_value(env.github_client_id),
                        None,
                        true,
                        nonempty_value(env.mock_oidc_url),
                    ),
                ),
            ),
        ),
{
}

/// Without the mock flag the outcome is `Ok(None)` exactly when neither
/// provider has both a client id and a non-empty secret.
pub proof fn unconfigured_iff_no_ready_provider(r: ResolverView)
    requires
        !r.use_mock,
    ensures
        finish_outcome(r) == Ok::<Option<OAuthClientConfigView>, ResolveOAuthConfigError>(None)
            <==> !(r.google_client_id is Some && r.google_client_id->0.len() > 0
            && r.google_secret is Some && r.google_secret->0.len() > 0) && !(
        r.github_client_id is Some && r.github_client_id->0.len() > 0 && r.github_secret is Some
            && r.github_secret->0.len() > 0),
        finish_outcome(r) is Ok,
{
}

/// The secret of a provider in a configuration.
pub open spec fn config_secret(c: OAuthClientConfigView, p: Provider) -> Option<Seq<char>> {
    match p {
        Provider::Google => c.google_client_secret,
        Provider::Github => c.github_client_secret,
    }
}

/// The secret of a provider in a resolver.
pub open spec fn resolver_secret(r: ResolverView, p: Provider) -> Option<Seq<char>> {
    match p {
        Provider::Google => r.google_secret,
        Provider::Github => r.github_secret,
    }
}

/// What the vault reveals for a provider is what the configuration carries:
/// the decoded plaintext is kept by the next state and, if the resolve
/// ends configured, is that provider's secret.
pub proof fn revealed_secret_reaches_config(r: ResolverView, p: Provider, bytes: Seq<u8>)
    requires
        r.stage == Stage::AwaitGet(p),
        valid_utf8(bytes),
    ensures
        ({
            let (r2, s) = step_spec(r, VaultReplyView::Revealed(bytes));
            &&& r2.stage != Stage::Finished ==> resolver_secret(r2, p) == Some(decode_utf8(bytes))
            &&& s matches StepView::Done(Ok(Some(c))) ==> config_secret(c, p) == Some(
                decode_utf8(bytes),
            )
        }),
{
}

/// A seeded secret is read back: once the store reports the row's id, the
/// next request reveals that row, for the same provider.
pub proof fn seeded_row_is_read_back(r: ResolverView, p: Provider, id: Seq<char>)
    requires
        r.stage == Stage::AwaitStore(p),
    ensures
        step_spec(r, VaultReplyView::Stored(id)).0.stage == Stage::AwaitGet(p),
        step_spec(r, VaultReplyView::Stored(id)).1 == StepView::Call(VaultRequestView::Get { id }),
{
}

/// With the mock flag on, the resolve skips the vault exactly when both
/// client-secret variables are blank; otherwise its first step lists the
/// vault (and, with `seed_from_env`, each non-blank variable is a seed).
pub proof fn mock_short_circuit_only_without_secret_vars(
    env: OAuthEnvView,
    public_base_url: Seq<char>,
    seed_from_env: bool,
)
    requires
        truthy_value(env.use_mock),
    ensures
        ({
            let (r, s) = start_spec(env, public_base_url, seed_from_env);
            let blank = nonempty_value(env.google_client_secret) is None && nonempty_value(
                env.github_client_secret,
            ) is None;
            &&& blank <==> s is Done
            &&& !blank ==> s == StepView::Call(VaultRequestView::List)
            &&& !blank && seed_from_env ==> r.google_seed == nonempty_value(env.google_client_secret)
                && r.github_seed == nonempty_value(env.github_client_secret)
        }),
{
}

/// The first step reads the settings from the environment: a resolver that
/// goes on holds the trimmed client ids and mock OIDC URL and the mock flag,
/// and a configuration returned at once carries them too.
pub proof fn start_reads_settings(env: OAuthEnvView, public_base_url: Seq<char>, seed_from_env: bool)
    ensures
        ({
            let (r, s) = start_spec(env, public_base_url, seed_from_env);
            &&& r.stage != Stage::Finished ==> {
                &&& r.google_client_id == nonempty_value(env.google_client_id)
                &&& r.github_client_id == nonempty_value(env.github_client_id)
                &&& r.use_mock == truthy_value(env.use_mock)
                &&& r.mock_oidc_url == nonempty_value(env.mock_oidc_url)
            }
            &&& s matches StepView::Done(Ok(Some(c))) ==> {
                &&& c.google_client_id == nonempty_value(env.google_client_id)
                &&& c.github_client_id == nonempty_value(env.github_client_id)
                &&& c.use_mock_provider == truthy_value(env.use_mock)
                &&& c.mock_oidc_issuer_url == nonempty_value(env.mock_oidc_url)
                &&& c.google_client_secret is None
                &&& c.github_client_secret is None
            }
        }),
{
}

/// Every step keeps the client ids, the mock flag and the mock OIDC URL,
/// and a configuration it returns carries exactly those.
pub proof fn step_keeps_settings(r: ResolverView, reply: VaultReplyView)
    requires
        expects_reply(r, reply),
    ensures
        ({
            let (r2, s) = step_spec(r, reply);
            &&& r2.stage != Stage::Finished ==> {
                &&& r2.google_client_id == r.google_client_id
                &&& r2.github_client_id == r.github_client_id
                &&& r2.use_mock == r.use_mock
                &&& r2.mock_oidc_url == r.mock_oidc_url
            }
            &&& s matches StepView::Done(Ok(Some(c))) ==> {
                &&& c.google_client_id == r.google_client_id
                &&& c.github_client_id == r.github_client_id
                &&& c.use_mock_provider == r.use_mock
                &&& c.mock_oidc_issuer_url == r.mock_oidc_url
            }
        }),
{
}

/// Row `a`'s `(created_at, current_version)` is lexicographically at most
/// row `b`'s.
pub open spec fn key_le(a: ListedRow, b: ListedRow) -> bool {
    ||| a.created_at_secs < b.created_at_secs
    ||| (a.created_at_secs == b.created_at_secs && a.created_at_nanos < b.created_at_nanos)
    ||| (a.created_at_secs == b.created_at_secs && a.created_at_nanos == b.created_at_nanos
        && a.current_version <= b.current_version)
}

/// The latest row has the greatest `(created_at, current_version)` among
/// the rows with its name and scope (a higher version wins at equal
/// creation time), and every later such row has a strictly smaller key.
pub proof fn latest_has_greatest_key(rows: Seq<ListedRow>, name: Seq<char>)
    requires
        latest_index(rows, name) is Some,
    ensures
        ({
            let i = latest_index(rows, name)->0;
            &&& 0 <= i < rows.len()
            &&& row_matches(rows[i], name)
            &&& forall|j: int|
                0 <= j < rows.len() && #[trigger] row_matches(rows[j], name) ==> key_le(
                    rows[j],
                    rows[i],
                )
            &&& forall|j: int|
                i < j < rows.len() && #[trigger] row_matches(rows[j], name) ==> !key_le(
                    rows[i],
                    rows[j],
                )
        }),
{
    let i = latest_index(rows, name)->0;
    assert(is_latest(rows, name, i));
    assert forall|j: int|
        0 <= j < rows.len() && #[trigger] row_matches(rows[j], name) implies key_le(
        rows[j],
        rows[i],
    ) by {
        if j <= i {
            assert(!key_lt(rows[i], rows[j]));
        } else {
            assert(key_lt(rows[j], rows[i]));
        }
    }
    assert forall|j: int|
        i < j < rows.len() && #[trigger] row_matches(rows[j], name) implies !key_le(
        rows[i],
        rows[j],
    ) by {
        assert(key_lt(rows[j], rows[i]));
    }
}

} // verus!
