//! The contract's entry points. Each state-changing entry point is stated
//! against its step in [`crate::model`]; read-only entry points are stated
//! directly over the environment.

use vstd::prelude::*;

use crate::admin::{quarantined, scopes_contain, scopes_index_of, AdminClient};
use crate::env::{Env, EnvView};
use crate::events::EventEmitter;
use crate::model::{
    accept_step, clear_quarantine_step, complete_step, distinct_approvers, fail_step,
    grant_step, guardian_pause_step, guardian_prefix, heartbeat_step, initialize_step,
    lemma_distinct_len, lemma_distinct_step, lemma_prefix_step, lemma_prefix_stops,
    propose_step, register_step, revoke_emergency_step, revoke_scope_step, set_guardians_step,
    set_relay_step, set_threshold_step, set_window_step, start_step, toggle_pause_step,
    upgrade_step,
};
use crate::storage::{admin_result, relay_result, schema_result, transaction_result, StorageClient};
use crate::types::{
    vec_contains_address, Address, CallbackPayload, ContractError, RoleScope, Transaction,
    TransactionStatus, TransactionView, SCHEMA_VERSION,
};
use crate::validation::Validator;

verus! {

/// Version of the contract package.
pub const CONTRACT_VERSION: &'static str = "0.1.0";

/// The transaction registry contract.
pub struct SynapseCoreContract;

impl SynapseCoreContract {
    // ── Initialisation ────────────────────────────────────────────────────────

    /// Initialises the contract; only the first call succeeds.
    ///
    /// * `admin`        — address that may call privileged methods.
    /// * `relay_signer` — the trusted relay that forwards anchor callbacks.
    pub fn initialize(env: &mut Env, admin: Address, relay_signer: Address) -> (r: Result<
        (),
        ContractError,
    >)
        ensures
            (final(env)@, r) == initialize_step(old(env)@, admin, relay_signer),
    {
        if StorageClient::is_initialised(env) {
            return Err(ContractError::AlreadyInitialised);
        }
        StorageClient::set_admin(env, &admin);
        StorageClient::set_relay_signer(env, &relay_signer);
        StorageClient::set_paused(env, false);
        StorageClient::set_schema_version(env, SCHEMA_VERSION);
        StorageClient::set_initialised(env);
        EventEmitter::initialised(env, &admin, &relay_signer);
        Ok(())
    }

    // ── Callback ingestion ────────────────────────────────────────────────────

    /// Registers an anchor callback as a `Pending` transaction and returns
    /// its id.
    ///
    /// Rejected while paused. Only the relay signer may call it, and not
    /// while quarantined. A replayed idempotency key (still live) returns the
    /// transaction id recorded with it, whatever id the new payload carries,
    /// without a second write; a reused transaction id whose key
    /// has expired is rejected with `DuplicateRequest` rather than
    /// overwriting the existing record.
    pub fn register_callback(env: &mut Env, payload: CallbackPayload) -> (r: Result<
        String,
        ContractError,
    >)
        ensures
            (final(env)@, r) == register_step(old(env)@, payload),
    {
        if StorageClient::is_paused(env) {
            return Err(ContractError::ContractPaused);
        }
        let relay = StorageClient::get_relay_signer(env)?;
        env.require_auth(&relay);
        AdminClient::assert_not_quarantined(env, &relay)?;
        Validator::validate_payload(env, &payload)?;
        if let Some(rec) = StorageClient::get_idempotency_key(env, &payload.idempotency_key) {
            return Ok(rec.tx_id);
        }
        if StorageClient::transaction_exists(env, &payload.transaction_id) {
            return Err(ContractError::DuplicateRequest);
        }
        let ledger = env.ledger_sequence;
        let tx = Transaction {
            id: payload.transaction_id.clone(),
            stellar_account: payload.stellar_account.clone(),
            amount: payload.amount,
            asset_code: payload.asset_code.clone(),
            asset_issuer: payload.asset_issuer.clone(),
            status: TransactionStatus::Pending,
            created_at_ledger: ledger,
            updated_at_ledger: ledger,
            anchor_transaction_id: payload.anchor_transaction_id.clone(),
            callback_type: payload.callback_type,
            callback_status: payload.callback_status.clone(),
            stellar_tx_hash: String::new(),
            failure_reason: String::new(),
        };
        StorageClient::save_transaction(env, &tx);
        StorageClient::set_idempotency_key(env, &payload.idempotency_key, &tx.id);
        EventEmitter::transaction_registered(env, &tx);
        Ok(tx.id)
    }

    // ── Status transitions ────────────────────────────────────────────────────

    /// Moves a `Pending` transaction to `Processing`.
    pub fn start_processing(env: &mut Env, tx_id: String, caller: Address) -> (r: Result<
        (),
        ContractError,
    >)
        ensures
            (final(env)@, r) == start_step(old(env)@, tx_id, caller),
    {
        AdminClient::require_scope(env, &caller, RoleScope::StartProcessing)?;
        let mut tx = StorageClient::get_transaction(env, &tx_id)?;
        if tx.status != TransactionStatus::Pending {
            return Err(ContractError::InvalidStatusTransition);
        }
        let old_status = tx.status;
        tx.status = TransactionStatus::Processing;
        tx.updated_at_ledger = env.ledger_sequence;
        StorageClient::save_transaction(env, &tx);
        EventEmitter::status_changed(env, &tx_id, old_status, TransactionStatus::Processing);
        Ok(())
    }

    /// Moves a `Processing` transaction to `Completed`, recording the
    /// settlement hash.
    pub fn complete_transaction(
        env: &mut Env,
        tx_id: String,
        stellar_tx_hash: String,
        caller: Address,
    ) -> (r: Result<(), ContractError>)
        ensures
            (final(env)@, r) == complete_step(old(env)@, tx_id, stellar_tx_hash, caller),
    {
        AdminClient::require_scope(env, &caller, RoleScope::CompleteTransaction)?;
        Validator::validate_stellar_tx_hash(&stellar_tx_hash)?;
        let mut tx = StorageClient::get_transaction(env, &tx_id)?;
        if tx.status != TransactionStatus::Processing {
            return Err(ContractError::InvalidStatusTransition);
        }
        let old_status = tx.status;
        tx.status = TransactionStatus::Completed;
        tx.stellar_tx_hash = stellar_tx_hash.clone();
        tx.updated_at_ledger = env.ledger_sequence;
        StorageClient::save_transaction(env, &tx);
        EventEmitter::status_changed(env, &tx_id, old_status, TransactionStatus::Completed);
        EventEmitter::transaction_completed(env, &tx_id, &stellar_tx_hash);
        Ok(())
    }

    /// Moves a `Pending` or `Processing` transaction to `Failed`, recording
    /// the reason.
    pub fn fail_transaction(env: &mut Env, tx_id: String, reason: String, caller: Address) -> (r:
        Result<(), ContractError>)
        ensures
            (final(env)@, r) == fail_step(old(env)@, tx_id, reason, caller),
    {
        AdminClient::require_scope(env, &caller, RoleScope::FailTransaction)?;
        Validator::validate_failure_reason(&reason)?;
        let mut tx = StorageClient::get_transaction(env, &tx_id)?;
        if tx.status != TransactionStatus::Pending && tx.status != TransactionStatus::Processing {
            return Err(ContractError::InvalidStatusTransition);
        }
        let old_status = tx.status;
        tx.status = TransactionStatus::Failed;
        tx.failure_reason = reason.clone();
        tx.updated_at_ledger = env.ledger_sequence;
        StorageClient::save_transaction(env, &tx);
        EventEmitter::status_changed(env, &tx_id, old_status, TransactionStatus::Failed);
        EventEmitter::transaction_failed(env, &tx_id, &reason);
        Ok(())
    }
    // ── Read-only queries (never gated by the pause) ───────────────────────────

    /// The record stored under `tx_id`, or `TransactionNotFound`. A record
    /// that is read is kept live for `TRANSACTION_MIN_TTL_LEDGERS` more ledgers.
    pub fn get_transaction(env: &mut Env, tx_id: String) -> (r: Result<
        Transaction,
        ContractError,
    >)
        ensures
            match r {
                Ok(tx) => transaction_result(old(env)@, tx_id@) == Ok::<
                    TransactionView,
                    ContractError,
                >(tx@),
                Err(e) => transaction_result(old(env)@, tx_id@) == Err::<
                    TransactionView,
                    ContractError,
                >(e),
            },
            final(env)@ == (if old(env)@.transactions.contains_key(tx_id@) {
                old(env)@.with_record_bumped(tx_id@)
            } else {
                old(env)@
            }),
    {
        StorageClient::get_transaction(env, &tx_id)
    }

    /// The status of the record stored under `tx_id`, or
    /// `TransactionNotFound`. A record that is read is kept live for
    /// `TRANSACTION_MIN_TTL_LEDGERS` more ledgers.
    pub fn get_status(env: &mut Env, tx_id: String) -> (r: Result<
        TransactionStatus,
        ContractError,
    >)
        ensures
            r == (match transaction_result(old(env)@, tx_id@) {
                Ok(t) => Ok::<TransactionStatus, ContractError>(t.status),
                Err(e) => Err(e),
            }),
            final(env)@ == (if old(env)@.transactions.contains_key(tx_id@) {
                old(env)@.with_record_bumped(tx_id@)
            } else {
                old(env)@
            }),
    {
        match StorageClient::get_transaction(env, &tx_id) {
            Ok(tx) => Ok(tx.status),
            Err(e) => Err(e),
        }
    }

    /// Whether `idempotency_key` was processed and is still live.
    pub fn is_duplicate(env: &Env, idempotency_key: String) -> (r: bool)
        ensures
            r == (env@.idempotency_lookup(idempotency_key@) is Some),
    {
        StorageClient::get_idempotency_key(env, &idempotency_key).is_some()
    }

    /// The admin; `AdminVacant` after a guardian revocation, else `NotInitialised`.
    pub fn admin(env: &Env) -> (r: Result<Address, ContractError>)
        ensures
            r == admin_result(env@),
    {
        StorageClient::get_admin(env)
    }

    /// The relay signer, or `NotInitialised`.
    pub fn relay_signer(env: &Env) -> (r: Result<Address, ContractError>)
        ensures
            r == relay_result(env@),
    {
        StorageClient::get_relay_signer(env)
    }

    /// The storage schema version, or `NotInitialised`; `upgrade` requires
    /// callers to pass this value.
    pub fn schema_version(env: &Env) -> (r: Result<u32, ContractError>)
        ensures
            r == schema_result(env@),
    {
        StorageClient::get_schema_version(env)
    }

    /// The nominee of an admin transfer in progress, if any.
    pub fn pending_admin(env: &Env) -> (r: Option<Address>)
        ensures
            r == env@.pending_admin,
    {
        StorageClient::get_pending_admin(env)
    }

    // ── Two-step admin transfer ───────────────────────────────────────────────

    /// Nominates `new_admin`; the transfer completes only when the nominee
    /// itself calls `accept_admin`. The contract's own address is refused.
    pub fn propose_admin(env: &mut Env, new_admin: Address) -> (r: Result<(), ContractError>)
        ensures
            (final(env)@, r) == propose_step(old(env)@, new_admin),
    {
        let current_admin = AdminClient::require_admin(env)?;
        Validator::validate_admin_nominee(env, &new_admin)?;
        StorageClient::set_pending_admin(env, &new_admin);
        EventEmitter::admin_transfer_proposed(env, &current_admin, &new_admin);
        Ok(())
    }

    /// Completes a pending transfer: `caller` must be the nominee and
    /// authorise the call.
    pub fn accept_admin(env: &mut Env, caller: Address) -> (r: Result<(), ContractError>)
        ensures
            (final(env)@, r) == accept_step(old(env)@, caller),
    {
        let pending = match StorageClient::get_pending_admin(env) {
            Some(p) => p,
            None => {
                return Err(ContractError::NoPendingAdminTransfer);
            },
        };
        if !caller.equals(&pending) {
            return Err(ContractError::Unauthorised);
        }
        env.require_auth(&caller);
        let old_admin = StorageClient::get_admin(env)?;
        StorageClient::set_admin(env, &caller);
        StorageClient::clear_pending_admin(env);
        EventEmitter::admin_transferred(env, &old_admin, &caller);
        Ok(())
    }

    /// Rotates the relay signer. Admin-gated.
    pub fn set_relay_signer(env: &mut Env, new_signer: Address) -> (r: Result<(), ContractError>)
        ensures
            (final(env)@, r) == set_relay_step(old(env)@, new_signer),
    {
        AdminClient::require_admin(env)?;
        let old_signer = StorageClient::get_relay_signer(env)?;
        StorageClient::set_relay_signer(env, &new_signer);
        EventEmitter::relay_signer_rotated(env, &old_signer, &new_signer);
        Ok(())
    }

    // ── Relay liveness ────────────────────────────────────────────────────────

    /// Records a liveness heartbeat for the relay signer `caller`.
    pub fn heartbeat(env: &mut Env, caller: Address) -> (r: Result<(), ContractError>)
        ensures
            (final(env)@, r) == heartbeat_step(old(env)@, caller),
    {
        AdminClient::require_relay_signer(env, &caller)?;
        let now = env.ledger_timestamp;
        StorageClient::set_last_heartbeat(env, &caller, now);
        EventEmitter::heartbeat(env, &caller);
        Ok(())
    }

    /// Sets the heartbeat staleness window in seconds (0 disables
    /// quarantine). Admin-gated.
    pub fn set_heartbeat_window(env: &mut Env, secs: u64) -> (r: Result<(), ContractError>)
        ensures
            (final(env)@, r) == set_window_step(old(env)@, secs),
    {
        AdminClient::require_admin(env)?;
        StorageClient::set_heartbeat_window(env, secs);
        Ok(())
    }

    /// Lifts a quarantine by resetting `signer`'s heartbeat to now. Admin-gated.
    pub fn clear_quarantine(env: &mut Env, signer: Address) -> (r: Result<(), ContractError>)
        ensures
            (final(env)@, r) == clear_quarantine_step(old(env)@, signer),
    {
        let admin = AdminClient::require_admin(env)?;
        let now = env.ledger_timestamp;
        StorageClient::set_last_heartbeat(env, &signer, now);
        EventEmitter::quarantine_cleared(env, &signer, &admin);
        Ok(())
    }

    /// Whether `signer` is currently quarantined.
    pub fn is_quarantined(env: &Env, signer: Address) -> (r: bool)
        ensures
            r == quarantined(env@, signer@),
    {
        AdminClient::assert_not_quarantined(env, &signer).is_err()
    }

    // ── Role scopes ───────────────────────────────────────────────────────────

    /// Grants `scope` to `who` (idempotent). Admin-gated.
    pub fn grant_scope(env: &mut Env, who: Address, scope: RoleScope) -> (r: Result<
        (),
        ContractError,
    >)
        ensures
            (final(env)@, r) == grant_step(old(env)@, who, scope),
    {
        AdminClient::require_admin(env)?;
        let mut scopes = StorageClient::get_scopes(env, &who);
        if !scopes_contain(&scopes, scope) {
            scopes.push(scope);
            StorageClient::set_scopes(env, &who, &scopes);
        }
        Ok(())
    }

    /// Revokes `scope` from `who` (idempotent). Admin-gated.
    pub fn revoke_scope(env: &mut Env, who: Address, scope: RoleScope) -> (r: Result<
        (),
        ContractError,
    >)
        ensures
            (final(env)@, r) == revoke_scope_step(old(env)@, who, scope),
    {
        AdminClient::require_admin(env)?;
        let mut scopes = StorageClient::get_scopes(env, &who);
        let ghost held = scopes@;
        proof {
            held.index_of_first_ensures(scope);
        }
        if let Some(i) = scopes_index_of(&scopes, scope) {
            scopes.remove(i);
            StorageClient::set_scopes(env, &who, &scopes);
        }
        Ok(())
    }

    /// Whether `who` was explicitly granted `scope`.
    pub fn has_scope(env: &Env, who: Address, scope: RoleScope) -> (r: bool)
        ensures
            r == env@.scopes_of(who@).contains(scope),
    {
        scopes_contain(&StorageClient::get_scopes(env, &who), scope)
    }

    // ── Upgrade ───────────────────────────────────────────────────────────────

    /// Replaces the contract code. Admin-gated; `expected_schema_version`
    /// must match the stored schema version.
    pub fn upgrade(env: &mut Env, new_wasm_hash: [u8; 32], expected_schema_version: u32) -> (r:
        Result<(), ContractError>)
        ensures
            (final(env)@, r) == upgrade_step(old(env)@, new_wasm_hash, expected_schema_version),
    {
        let admin = AdminClient::require_admin(env)?;
        let schema_version = StorageClient::get_schema_version(env)?;
        if schema_version != expected_schema_version {
            return Err(ContractError::SchemaVersionMismatch);
        }
        env.update_current_contract_wasm(new_wasm_hash);
        EventEmitter::contract_upgraded(env, &admin, &new_wasm_hash, schema_version);
        Ok(())
    }

    // ── Emergency pause, guardians ────────────────────────────────────────────

    /// Engages the pause (idempotent). Admin-gated. While paused,
    /// `register_callback` is refused; transitions and reads keep running.
    pub fn pause(env: &mut Env) -> (r: Result<(), ContractError>)
        ensures
            (final(env)@, r) == toggle_pause_step(old(env)@, true),
    {
        let admin = AdminClient::require_admin(env)?;
        StorageClient::set_paused(env, true);
        EventEmitter::pause_toggled(env, true, &admin);
        Ok(())
    }

    /// Replaces the guardian set. Admin-gated.
    pub fn set_guardians(env: &mut Env, guardians: Vec<Address>) -> (r: Result<(), ContractError>)
        ensures
            (final(env)@, r) == set_guardians_step(old(env)@, guardians@),
    {
        AdminClient::require_admin(env)?;
        StorageClient::set_guardians(env, &guardians);
        Ok(())
    }

    /// Sets the guardian quorum M; requires `1 <= m <= number of guardians`.
    /// Admin-gated.
    pub fn set_guardian_threshold(env: &mut Env, m: u32) -> (r: Result<(), ContractError>)
        ensures
            (final(env)@, r) == set_threshold_step(old(env)@, m),
    {
        AdminClient::require_admin(env)?;
        if m == 0 || (m as usize) > StorageClient::get_guardians(env).len() {
            return Err(ContractError::QuorumNotMet);
        }
        StorageClient::set_guardian_threshold(env, m);
        Ok(())
    }

    /// Revokes the admin with an M-of-N guardian quorum: `approvers` must
    /// all be guardians and hold at least M distinct addresses, each of which
    /// authorises the call. On success the admin role becomes vacant and the
    /// contract is paused.
    pub fn revoke_admin_emergency(env: &mut Env, approvers: Vec<Address>) -> (r: Result<
        (),
        ContractError,
    >)
        requires
            approvers@.len() <= u32::MAX,
        ensures
            (final(env)@, r) == revoke_emergency_step(old(env)@, approvers@),
    {
        let threshold = StorageClient::get_guardian_threshold(env);
        if threshold == 0 {
            return Err(ContractError::QuorumNotMet);
        }
        let guardians = StorageClient::get_guardians(env);
        let mut seen: Vec<Address> = Vec::new();
        let mut i: usize = 0;
        proof {
            assert(approvers@.take(0) =~= Seq::<Address>::empty());
            assert(old(env)@.auths + seen@ =~= old(env)@.auths);
            assert(env@ =~= (EnvView { auths: old(env)@.auths + seen@, ..old(env)@ }));
        }
        while i < approvers.len()
            invariant
                i <= approvers@.len(),
                approvers@.len() <= u32::MAX,
                guardians@ == old(env)@.guardian_list(),
                threshold == old(env)@.threshold(),
                threshold != 0,
                guardian_prefix(approvers@.take(i as int), guardians@) == i,
                seen@ == distinct_approvers(approvers@.take(i as int)),
                seen@.len() <= i,
                env@ == (EnvView { auths: old(env)@.auths + seen@, ..old(env)@ }),
            decreases approvers@.len() - i,
        {
            let a = &approvers[i];
            let is_guardian = vec_contains_address(&guardians, a);
            proof {
                lemma_prefix_step(approvers@, guardians@, i as int);
                lemma_distinct_step(approvers@, i as int);
            }
            if !is_guardian {
                proof {
                    lemma_prefix_stops(approvers@, guardians@, i + 1);
                }
                return Err(ContractError::NotGuardian);
            }
            if !vec_contains_address(&seen, a) {
                let ghost before = seen@;
                env.require_auth(a);
                seen.push(a.clone());
                proof {
                    assert((old(env)@.auths + before).push(*a) =~= old(env)@.auths + seen@);
                }
            }
            i = i + 1;
        }
        proof {
            assert(approvers@.take(approvers@.len() as int) =~= approvers@);
            lemma_distinct_len(approvers@);
        }
        if seen.len() < threshold as usize {
            return Err(ContractError::QuorumNotMet);
        }
        let admin = StorageClient::get_admin(env)?;
        StorageClient::vacate_admin(env);
        StorageClient::set_paused(env, true);
        EventEmitter::admin_revoked_emergency(env, &admin, seen.len() as u32);
        Ok(())
    }

    /// The configured guardian set.
    pub fn guardians(env: &Env) -> (r: Vec<Address>)
        ensures
            r@ == env@.guardian_list(),
    {
        StorageClient::get_guardians(env)
    }

    /// Engages the pause on guardian authority alone (idempotent); unpausing
    /// stays admin-only.
    pub fn guardian_pause(env: &mut Env, caller: Address) -> (r: Result<(), ContractError>)
        ensures
            (final(env)@, r) == guardian_pause_step(old(env)@, caller),
    {
        let guardians = StorageClient::get_guardians(env);
        if !vec_contains_address(&guardians, &caller) {
            return Err(ContractError::NotGuardian);
        }
        env.require_auth(&caller);
        StorageClient::set_paused(env, true);
        EventEmitter::guardian_paused(env, &caller);
        Ok(())
    }

    /// Releases the pause (idempotent). Admin-gated.
    pub fn unpause(env: &mut Env) -> (r: Result<(), ContractError>)
        ensures
            (final(env)@, r) == toggle_pause_step(old(env)@, false),
    {
        let admin = AdminClient::require_admin(env)?;
        StorageClient::set_paused(env, false);
        EventEmitter::pause_toggled(env, false, &admin);
        Ok(())
    }

    /// Whether the pause is engaged.
    pub fn is_paused(env: &Env) -> (r: bool)
        ensures
            r == env@.is_paused(),
    {
        StorageClient::is_paused(env)
    }

    /// Liveness probe: whether the contract is initialised.
    pub fn health(env: &Env) -> (r: bool)
        ensures
            r == env@.initialised,
    {
        StorageClient::is_initialised(env)
    }

    /// The contract package version.
    pub fn version(env: &Env) -> (r: String)
        ensures
            r@ == CONTRACT_VERSION@,
    {
        String::from_str(CONTRACT_VERSION)
    }
}

} // verus!
