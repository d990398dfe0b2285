# synapse_core

A verified model of an on-chain transaction registry for anchor deposit
callbacks: callback ingestion with idempotency keys, the transaction
lifecycle `Pending → Processing → Completed | Failed`, role-based access
control with a two-step admin transfer, relay liveness (heartbeats and
quarantine), an emergency pause, and guardian-quorum admin revocation.

Layout:

- `src/types.rs` — addresses, transaction records, payloads, scopes, errors.
- `src/env.rs` — the ledger environment: storage, events, demanded authorisations.
- `src/storage.rs`, `src/admin.rs`, `src/validation.rs`, `src/events.rs` — storage
  access, access-control checks, input guards, event emission.
- `src/model.rs` — each state-changing entry point as a step function.
- `src/contract.rs` — the entry points, each proved against its step.
- `src/laws.rs` — properties of the contract as a whole.
- `app/` — the Soroban contract that runs the library against host storage.
