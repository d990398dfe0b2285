//! An on-chain transaction registry for anchor deposit callbacks.
//!
//! The registry accepts callbacks forwarded by a trusted relay signer,
//! stores each as a `Pending` transaction, guards against duplicate
//! delivery with idempotency keys, drives every transaction through its
//! lifecycle `Pending → Processing → Completed | Failed`, and publishes an
//! event at every state change. Administration covers a two-step admin
//! transfer, relay rotation, role scopes, relay liveness (heartbeats and
//! quarantine), an emergency pause, and guardian-quorum admin revocation.
//!
//! The contract runs against an [`env::Env`]: the ledger information, the
//! contract's storage, and the record of published events and demanded
//! authorisations.

pub mod env;
pub mod events;
pub mod types;
pub mod storage;
pub mod admin;
pub mod validation;
pub mod model;
pub mod contract;
pub mod laws;
pub mod effects;
