# cred_broker

A credential broker: applications exercise authenticated capabilities
(signing with SSH, calling the GitHub API, producing a TOTP code) without
ever receiving the credential behind them. Every operation goes through
the policy engine, keyed by the identity of the calling process, before an
adapter carries it out.

Layout:

- `src/` — the verified library (Verus):
  - `policy.rs` — rules per executable and the Allow / Deny / AskUser decision;
  - `identity.rs` — the caller's identity and its policy key;
  - `manager.rs` — the `ProviderAdapter` contract and the credential manager that dispatches operations through the policy;
  - `adapters.rs` — the SSH, TOTP and GitHub adapters;
  - `storage.rs` — the secret store interface and an in-memory store;
  - `wire.rs` — request and response messages and their line framing;
  - `audit.rs` — audit entries and the standard-output sink;
  - `transport.rs`, `relay.rs` — the IPC listener and the HTTP relay;
  - `json.rs` — the JSON values carried through;
  - `keyed.rs` — sequences kept under distinct string keys, and the maps they stand for.
- `app/` — the daemon (and, run as `demo-client`, the test client): socket I/O through `interprocess`, JSON through
  `serde_json`, resolution of executables from PIDs, and the error types
  with their messages.
- `tests/` — tests of the library on concrete values.
