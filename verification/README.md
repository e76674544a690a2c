# comebackhere

The verified core of the COMEBACKHERE invoice platform on Stellar/Soroban.

- `src/compliance.rs`: the compliance contract (allowlist with time-boxed
  grants, blocking, pausing, two-step admin hand-over, sweeping of expired
  grants) as a state machine over the contract's instance storage. Every
  operation records its storage writes and events so that the Soroban host can
  replay them. `src/compliance_laws.rs` proves its properties.
- `src/soroban.rs`: the RPC client's logic: error classification, retry
  policy, request building and reading of the node's answers.
- `src/idempotency.rs`: the idempotency cache behind `Idempotency-Key`.
- `src/routes/`: how each HTTP route answers each outcome.
- `src/backend_laws.rs`: properties of the cache and the retry policy.
- `app/`: the HTTP server (axum), the HTTP transport (reqwest) and the
  contract's Soroban entry points, which call into the library.
