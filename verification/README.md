# quickstack

The decision logic of the QuickStack platform — its control-plane API and
its Docker node agent — as a Verus-verified library.

- `src/` holds the library. Each module takes the decisions of one area of
  the platform (projects and their members, apps, builds, billing and
  subscriptions, templates, IP address management, nodes, clusters, backups,
  the node agent, ...) as functions from plain values to plain values, with
  contracts that state what each decision gives; where an outside call's
  outcome depends on chance or the clock (password hashing, TOTP codes,
  random tokens), the contract states what holds of every outcome. Calls into outside crates
  (argon2, totp-rs, base64, sha2, serde_json, minijinja, rand, uuid) stand
  behind small trusted wrappers whose contracts name or bound what the call
  returns.
- `tests/` runs the library on concrete values.
- `app/` is the node agent binary: command line, HTTP server and Docker
  daemon calls around the library's agent module.
