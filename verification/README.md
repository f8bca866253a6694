# vault42-authority

The identity and permission authority for vault42: accounts and sessions, organizations,
teams, project groups, role checks, grants and scope-key wrap bookkeeping, configuration
variables, one-time codes, and contract issuance.

The library under `src/` is written in Verus. The decisions the authority takes (what a
request may do, what it answers, how rows read back fold into an answer) are verified
functions with contracts, and the properties the service promises are proof functions
beside them. The exceptions are the checks that need the vault42 core crates (signature
and sealed-envelope verification, contract signing), which `app/` makes. The library:

- `auth/` — password hashing, session tokens, the bearer guard, and the sign-in decisions.
- `rbac.rs` — organization, team and project roles.
- `validate.rs`, `text.rs` — the input rules and the character-level helpers they use.
- `otp.rs`, `mail.rs`, `throttle.rs` — one-time codes, the message that carries one, and
  rate limits.
- `contract.rs`, `pop.rs` — tenant claims and proof-of-possession shape checks.
- `store/` — what each database statement decides: precedence of variables, the strongest
  granted role, wrap worklists, the invite ledger, offboarding, migrations.
- `handlers/` — the checks and answers of each route.
- `config.rs` — the configuration an environment describes.

`app/` is the HTTP service around it: axum routes, SQLite through rusqlite, SMTP, GitHub,
and the contract signing key.
