# uf_oauth_boot

Resolves Google and GitHub OAuth client settings from sealed vault rows at
host boot, with an optional first-boot seed from the environment.

Layout:

- `src/` — the verified library.
  - `env.rs`: what raw environment values mean (trimmed non-empty settings,
    truthy flags).
  - `config.rs`: the configuration type and its secret-free rendering.
  - `error.rs`: typed resolve failures and their messages.
  - `resolve.rs`: the resolver as a state machine — from the environment and
    the vault's replies to the next vault request or the outcome; latest-row
    selection, kind check, seeding decision, UTF-8 decoding, readiness.
  - `laws.rs`: properties proved over the resolver's steps (sealed rows win
    over environment seeds, wrong kinds fail closed, no seeding without
    opt-in, seeds only fill missing rows, outcomes keep the callback path).
- `tests/` — scenario tests, including a full resolve against an in-memory
  vault.
- `app/` — host glue: reads the process environment, performs the Neutrino
  list/get/put_or_reuse calls the resolver asks for, records the tracing
  span, and converts to lepton-auth's `OAuthClientConfig`.
