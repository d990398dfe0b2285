//! The contract as a state machine: for each entry point that changes the
//! environment, the environment after the call and the call's result, as a
//! function of the environment before it and the arguments.
//!
//! Every step that fails does so before any write of a storage entry or any
//! event; the only traces a failed call leaves in this model are the
//! authorisations it demanded and the extended time-to-live of a record it
//! read. On the host a failed invocation is rolled back as a whole, so even
//! those traces do not survive there.

use vstd::prelude::*;

use crate::admin::{admin_gate, quarantined, relay_gate, scope_gate};
use crate::env::EnvView;
use crate::events::{
    ContractEvent, EventAdminRevokedEmergency, EventAdminTransferProposed, EventAdminTransferred,
    EventContractUpgraded, EventGuardianPaused, EventHeartbeat, EventInitialised, EventPauseToggled,
    EventQuarantineCleared, EventRelaySignerRotated, EventStatusChanged, EventTransactionCompleted,
    EventTransactionFailed, EventTransactionRegistered,
};
use crate::storage::{admin_result, relay_result, schema_result, transaction_result};
use crate::types::{
    contains_address, Address, CallbackPayload, ContractError, IdempotencyRecord, RoleScope,
    TransactionStatus, TransactionView, SCHEMA_VERSION,
};
use crate::validation::{failure_reason_check, payload_check, tx_hash_check};

verus! {

// ─── Initialisation ───────────────────────────────────────────────────────────

/// `initialize`: refused once initialised; otherwise stores the two roles,
/// an unpaused flag and the schema version.
pub open spec fn initialize_step(s: EnvView, admin: Address, relay_signer: Address) -> (
    EnvView,
    Result<(), ContractError>,
) {
    if s.initialised {
        (s, Err(ContractError::AlreadyInitialised))
    } else {
        (
            EnvView {
                admin: Some(admin),
                relay_signer: Some(relay_signer),
                paused: Some(false),
                schema_version: Some(SCHEMA_VERSION),
                initialised: true,
                ..s
            }.with_event(
                ContractEvent::Initialised(
                    EventInitialised { admin, relay_signer, ledger: s.ledger_sequence },
                ),
            ),
            Ok(()),
        )
    }
}

// ─── Callback ingestion ───────────────────────────────────────────────────────

/// The record written for a first delivery of `p` at ledger `ledger`.
pub open spec fn new_record(p: CallbackPayload, ledger: u32) -> TransactionView {
    TransactionView {
        id: p.transaction_id@,
        stellar_account: p.stellar_account@,
        amount: p.amount,
        asset_code: p.asset_code@,
        asset_issuer: p.asset_issuer@,
        status: TransactionStatus::Pending,
        created_at_ledger: ledger,
        updated_at_ledger: ledger,
        anchor_transaction_id: p.anchor_transaction_id@,
        callback_type: p.callback_type,
        callback_status: p.callback_status@,
        stellar_tx_hash: Seq::empty(),
        failure_reason: Seq::empty(),
    }
}

/// The event announcing the first write of `p` at ledger `ledger`.
pub open spec fn registration_event(p: CallbackPayload, ledger: u32) -> ContractEvent {
    ContractEvent::TransactionRegistered(
        EventTransactionRegistered {
            tx_id: p.transaction_id,
            stellar_account: p.stellar_account,
            amount: p.amount,
            asset_code: p.asset_code,
            anchor_transaction_id: p.anchor_transaction_id,
            ledger,
        },
    )
}

/// `register_callback`, in order: refused while paused; refused without a
/// relay signer; demands the relay's authorisation; refused while the relay
/// is quarantined or the payload is invalid; a live idempotency key returns
/// the transaction id recorded with it, without writing; an existing record
/// under the id is never overwritten; otherwise a `Pending` record is written
/// (and kept live) and the key is recorded as answering with its id.
pub open spec fn register_step(s: EnvView, p: CallbackPayload) -> (EnvView, Result<
    String,
    ContractError,
>) {
    if s.is_paused() {
        (s, Err(ContractError::ContractPaused))
    } else {
        match relay_result(s) {
            Err(e) => (s, Err(e)),
            Ok(relay) => {
                let s1 = s.with_auth(relay);
                if quarantined(s, relay@) {
                    (s1, Err(ContractError::SignerQuarantined))
                } else {
                    match payload_check(p) {
                        Err(e) => (s1, Err(e)),
                        Ok(_) => match s.idempotency_lookup(p.idempotency_key@) {
                            Some(rec) => (s1, Ok(rec.tx_id)),
                            None => if s.transactions.contains_key(p.transaction_id@) {
                                (s1, Err(ContractError::DuplicateRequest))
                            } else {
                                (
                                    EnvView {
                                        transactions: s.transactions.insert(
                                            p.transaction_id@,
                                            new_record(p, s.ledger_sequence),
                                        ),
                                        idempotency_keys: s.idempotency_keys.insert(
                                            p.idempotency_key@,
                                            IdempotencyRecord {
                                                ledger: s.ledger_sequence,
                                                tx_id: p.transaction_id,
                                            },
                                        ),
                                        ..s1
                                    }.with_record_bumped(p.transaction_id@).with_event(
                                        registration_event(p, s.ledger_sequence),
                                    ),
                                    Ok(p.transaction_id),
                                )
                            },
                        },
                    }
                }
            },
        }
    }
}

// ─── Status transitions ───────────────────────────────────────────────────────

/// `start_processing`: scope gate, then the record must be `Pending`; it
/// becomes `Processing`, stamped with the current ledger.
pub open spec fn start_step(s: EnvView, tx_id: String, caller: Address) -> (EnvView, Result<
    (),
    ContractError,
>) {
    let (s1, g) = scope_gate(s, caller, RoleScope::StartProcessing);
    match g {
        Err(e) => (s1, Err(e)),
        Ok(_) => match transaction_result(s1, tx_id@) {
            Err(e) => (s1, Err(e)),
            Ok(t) => if t.status != TransactionStatus::Pending {
                (s1.with_record_bumped(tx_id@), Err(ContractError::InvalidStatusTransition))
            } else {
                let s2 = s1.with_record_bumped(tx_id@);
                let t2 = TransactionView {
                    status: TransactionStatus::Processing,
                    updated_at_ledger: s.ledger_sequence,
                    ..t
                };
                (
                    EnvView {
                        transactions: s2.transactions.insert(t.id, t2),
                        ..s2
                    }.with_record_bumped(t.id).with_event(
                        ContractEvent::StatusChanged(
                            EventStatusChanged {
                                tx_id,
                                old_status: TransactionStatus::Pending,
                                new_status: TransactionStatus::Processing,
                                ledger: s.ledger_sequence,
                            },
                        ),
                    ),
                    Ok(()),
                )
            },
        },
    }
}

/// `complete_transaction`: scope gate, hash cap, then the record must be
/// `Processing`; it becomes `Completed` with the settlement hash.
pub open spec fn complete_step(
    s: EnvView,
    tx_id: String,
    stellar_tx_hash: String,
    caller: Address,
) -> (EnvView, Result<(), ContractError>) {
    let (s1, g) = scope_gate(s, caller, RoleScope::CompleteTransaction);
    match g {
        Err(e) => (s1, Err(e)),
        Ok(_) => match tx_hash_check(stellar_tx_hash@) {
            Err(e) => (s1, Err(e)),
            Ok(_) => match transaction_result(s1, tx_id@) {
                Err(e) => (s1, Err(e)),
                Ok(t) => if t.status != TransactionStatus::Processing {
                    (s1.with_record_bumped(tx_id@), Err(ContractError::InvalidStatusTransition))
                } else {
                    let s2 = s1.with_record_bumped(tx_id@);
                    let t2 = TransactionView {
                        status: TransactionStatus::Completed,
                        stellar_tx_hash: stellar_tx_hash@,
                        updated_at_ledger: s.ledger_sequence,
                        ..t
                    };
                    (
                        EnvView {
                            transactions: s2.transactions.insert(t.id, t2),
                            ..s2
                        }.with_record_bumped(t.id).with_event(
                            ContractEvent::StatusChanged(
                                EventStatusChanged {
                                    tx_id,
                                    old_status: TransactionStatus::Processing,
                                    new_status: TransactionStatus::Completed,
                                    ledger: s.ledger_sequence,
                                },
                            ),
                        ).with_event(
                            ContractEvent::TransactionCompleted(
                                EventTransactionCompleted {
                                    tx_id,
                                    stellar_tx_hash,
                                    ledger: s.ledger_sequence,
                                },
                            ),
                        ),
                        Ok(()),
                    )
                },
            },
        },
    }
}

/// `fail_transaction`: scope gate, reason cap, then the record must be
/// `Pending` or `Processing`; it becomes `Failed` with the reason.
pub open spec fn fail_step(s: EnvView, tx_id: String, reason: String, caller: Address) -> (
    EnvView,
    Result<(), ContractError>,
) {
    let (s1, g) = scope_gate(s, caller, RoleScope::FailTransaction);
    match g {
        Err(e) => (s1, Err(e)),
        Ok(_) => match failure_reason_check(reason@) {
            Err(e) => (s1, Err(e)),
            Ok(_) => match transaction_result(s1, tx_id@) {
                Err(e) => (s1, Err(e)),
                Ok(t) => if t.status != TransactionStatus::Pending && t.status
                    != TransactionStatus::Processing {
                    (s1.with_record_bumped(tx_id@), Err(ContractError::InvalidStatusTransition))
                } else {
                    let s2 = s1.with_record_bumped(tx_id@);
                    let t2 = TransactionView {
                        status: TransactionStatus::Failed,
                        failure_reason: reason@,
                        updated_at_ledger: s.ledger_sequence,
                        ..t
                    };
                    (
                        EnvView {
                            transactions: s2.transactions.insert(t.id, t2),
                            ..s2
                        }.with_record_bumped(t.id).with_event(
                            ContractEvent::StatusChanged(
                                EventStatusChanged {
                                    tx_id,
                                    old_status: t.status,
                                    new_status: TransactionStatus::Failed,
                                    ledger: s.ledger_sequence,
                                },
                            ),
                        ).with_event(
                            ContractEvent::TransactionFailed(
                                EventTransactionFailed { tx_id, reason, ledger: s.ledger_sequence },
                            ),
                        ),
                        Ok(()),
                    )
                },
            },
        },
    }
}

// ─── Admin transfer and relay rotation ────────────────────────────────────────

/// `propose_admin`: admin gate; the contract's own address is refused;
/// otherwise `new_admin` becomes the nominee. The admin is unchanged.
pub open spec fn propose_step(s: EnvView, new_admin: Address) -> (EnvView, Result<
    (),
    ContractError,
>) {
    let (s1, g) = admin_gate(s);
    match g {
        Err(e) => (s1, Err(e)),
        Ok(current) => if new_admin@ == s.contract_address@ {
            (s1, Err(ContractError::InvalidAdminNominee))
        } else {
            (
                EnvView { pending_admin: Some(new_admin), ..s1 }.with_event(
                    ContractEvent::AdminTransferProposed(
                        EventAdminTransferProposed {
                            current_admin: current,
                            proposed_admin: new_admin,
                            ledger: s.ledger_sequence,
                        },
                    ),
                ),
                Ok(()),
            )
        },
    }
}

/// `accept_admin`: only the nominee, under its own authorisation, completes
/// the transfer; the nominee becomes admin and the nomination is cleared.
pub open spec fn accept_step(s: EnvView, caller: Address) -> (EnvView, Result<(), ContractError>) {
    match s.pending_admin {
        None => (s, Err(ContractError::NoPendingAdminTransfer)),
        Some(pending) => if caller@ != pending@ {
            (s, Err(ContractError::Unauthorised))
        } else {
            let s1 = s.with_auth(caller);
            match admin_result(s1) {
                Err(e) => (s1, Err(e)),
                Ok(old_admin) => (
                    EnvView { admin: Some(caller), pending_admin: None, ..s1 }.with_event(
                        ContractEvent::AdminTransferred(
                            EventAdminTransferred {
                                old_admin,
                                new_admin: caller,
                                ledger: s.ledger_sequence,
                            },
                        ),
                    ),
                    Ok(()),
                ),
            }
        },
    }
}

/// `set_relay_signer`: admin gate, then the relay signer is replaced.
pub open spec fn set_relay_step(s: EnvView, new_signer: Address) -> (EnvView, Result<
    (),
    ContractError,
>) {
    let (s1, g) = admin_gate(s);
    match g {
        Err(e) => (s1, Err(e)),
        Ok(_) => match relay_result(s1) {
            Err(e) => (s1, Err(e)),
            Ok(old_signer) => (
                EnvView { relay_signer: Some(new_signer), ..s1 }.with_event(
                    ContractEvent::RelaySignerRotated(
                        EventRelaySignerRotated {
                            old_signer,
                            new_signer,
                            ledger: s.ledger_sequence,
                        },
                    ),
                ),
                Ok(()),
            ),
        },
    }
}

// ─── Relay liveness ───────────────────────────────────────────────────────────

/// `heartbeat`: only the relay signer; records the ledger time as its last
/// heartbeat.
pub open spec fn heartbeat_step(s: EnvView, caller: Address) -> (EnvView, Result<
    (),
    ContractError,
>) {
    let (s1, g) = relay_gate(s, caller);
    match g {
        Err(e) => (s1, Err(e)),
        Ok(_) => (
            EnvView {
                last_heartbeats: s1.last_heartbeats.insert(caller@, s.ledger_timestamp),
                ..s1
            }.with_event(
                ContractEvent::Heartbeat(
                    EventHeartbeat { signer: caller, timestamp: s.ledger_timestamp },
                ),
            ),
            Ok(()),
        ),
    }
}

/// `set_heartbeat_window`: admin gate, then the window is written.
pub open spec fn set_window_step(s: EnvView, secs: u64) -> (EnvView, Result<(), ContractError>) {
    let (s1, g) = admin_gate(s);
    match g {
        Err(e) => (s1, Err(e)),
        Ok(_) => (EnvView { heartbeat_window: Some(secs), ..s1 }, Ok(())),
    }
}

/// `clear_quarantine`: admin gate, then `signer`'s heartbeat is reset to now.
pub open spec fn clear_quarantine_step(s: EnvView, signer: Address) -> (EnvView, Result<
    (),
    ContractError,
>) {
    let (s1, g) = admin_gate(s);
    match g {
        Err(e) => (s1, Err(e)),
        Ok(admin) => (
            EnvView {
                last_heartbeats: s1.last_heartbeats.insert(signer@, s.ledger_timestamp),
                ..s1
            }.with_event(
                ContractEvent::QuarantineCleared(
                    EventQuarantineCleared { signer, admin, ledger: s.ledger_sequence },
                ),
            ),
            Ok(()),
        ),
    }
}

// ─── Role scopes ──────────────────────────────────────────────────────────────

/// `grant_scope`: admin gate; appends `scope` to `who`'s scopes unless it
/// is already there (then nothing is written).
pub open spec fn grant_step(s: EnvView, who: Address, scope: RoleScope) -> (EnvView, Result<
    (),
    ContractError,
>) {
    let (s1, g) = admin_gate(s);
    match g {
        Err(e) => (s1, Err(e)),
        Ok(_) => {
            let held = s.scopes_of(who@);
            if held.contains(scope) {
                (s1, Ok(()))
            } else {
                (EnvView { scopes: s1.scopes.insert(who@, held.push(scope)), ..s1 }, Ok(()))
            }
        },
    }
}

/// `revoke_scope`: admin gate; removes the first occurrence of `scope` from
/// `who`'s scopes, if there is one (otherwise nothing is written).
pub open spec fn revoke_scope_step(s: EnvView, who: Address, scope: RoleScope) -> (
    EnvView,
    Result<(), ContractError>,
) {
    let (s1, g) = admin_gate(s);
    match g {
        Err(e) => (s1, Err(e)),
        Ok(_) => {
            let held = s.scopes_of(who@);
            match held.index_of_first(scope) {
                None => (s1, Ok(())),
                Some(i) => (
                    EnvView { scopes: s1.scopes.insert(who@, held.remove(i)), ..s1 },
                    Ok(()),
                ),
            }
        },
    }
}

// ─── Upgrade ──────────────────────────────────────────────────────────────────

/// `upgrade`: admin gate; the caller's expected schema version must match
/// the stored one; then the contract code is replaced.
pub open spec fn upgrade_step(s: EnvView, new_wasm_hash: [u8; 32], expected: u32) -> (
    EnvView,
    Result<(), ContractError>,
) {
    let (s1, g) = admin_gate(s);
    match g {
        Err(e) => (s1, Err(e)),
        Ok(admin) => match schema_result(s1) {
            Err(e) => (s1, Err(e)),
            Ok(version) => if version != expected {
                (s1, Err(ContractError::SchemaVersionMismatch))
            } else {
                (
                    EnvView { current_wasm: new_wasm_hash, ..s1 }.with_event(
                        ContractEvent::ContractUpgraded(
                            EventContractUpgraded {
                                admin,
                                new_wasm_hash,
                                ledger: s.ledger_sequence,
                                schema_version: version,
                            },
                        ),
                    ),
                    Ok(()),
                )
            },
        },
    }
}

// ─── Pause, guardians ─────────────────────────────────────────────────────────

/// `pause` (`paused` true) and `unpause` (false): admin gate, then the flag
/// is written, whatever it was.
pub open spec fn toggle_pause_step(s: EnvView, paused: bool) -> (EnvView, Result<
    (),
    ContractError,
>) {
    let (s1, g) = admin_gate(s);
    match g {
        Err(e) => (s1, Err(e)),
        Ok(admin) => (
            EnvView { paused: Some(paused), ..s1 }.with_event(
                ContractEvent::PauseToggled(
                    EventPauseToggled { paused, admin, ledger: s.ledger_sequence },
                ),
            ),
            Ok(()),
        ),
    }
}

/// `set_guardians`: admin gate, then the guardian set is replaced.
pub open spec fn set_guardians_step(s: EnvView, guardians: Seq<Address>) -> (EnvView, Result<
    (),
    ContractError,
>) {
    let (s1, g) = admin_gate(s);
    match g {
        Err(e) => (s1, Err(e)),
        Ok(_) => (EnvView { guardians: Some(guardians), ..s1 }, Ok(())),
    }
}

/// `set_guardian_threshold`: admin gate; `m` must satisfy
/// `1 <= m <= number of guardians`.
pub open spec fn set_threshold_step(s: EnvView, m: u32) -> (EnvView, Result<
    (),
    ContractError,
>) {
    let (s1, g) = admin_gate(s);
    match g {
        Err(e) => (s1, Err(e)),
        Ok(_) => if m == 0 || m > s.guardian_list().len() {
            (s1, Err(ContractError::QuorumNotMet))
        } else {
            (EnvView { guardian_threshold: Some(m), ..s1 }, Ok(()))
        },
    }
}

/// `guardian_pause`: only a guardian, under its own authorisation; engages
/// the pause without admin rights.
pub open spec fn guardian_pause_step(s: EnvView, caller: Address) -> (EnvView, Result<
    (),
    ContractError,
>) {
    if !contains_address(s.guardian_list(), caller@) {
        (s, Err(ContractError::NotGuardian))
    } else {
        let s1 = s.with_auth(caller);
        (
            EnvView { paused: Some(true), ..s1 }.with_event(
                ContractEvent::GuardianPaused(
                    EventGuardianPaused { guardian: caller, ledger: s.ledger_sequence },
                ),
            ),
            Ok(()),
        )
    }
}

// ─── Emergency admin revocation ───────────────────────────────────────────────

/// The approvers with repeats dropped: each address at its first occurrence.
pub open spec fn distinct_approvers(approvers: Seq<Address>) -> Seq<Address>
    decreases approvers.len(),
{
    if approvers.len() == 0 {
        Seq::empty()
    } else {
        let d = distinct_approvers(approvers.drop_last());
        if contains_address(d, approvers.last()@) {
            d
        } else {
            d.push(approvers.last())
        }
    }
}

/// The length of the longest prefix of `approvers` made of guardians: the
/// position of the first non-guardian, or the whole length.
pub open spec fn guardian_prefix(approvers: Seq<Address>, guardians: Seq<Address>) -> nat
    decreases approvers.len(),
{
    if approvers.len() == 0 {
        0
    } else {
        let k = guardian_prefix(approvers.drop_last(), guardians);
        if k < approvers.len() - 1 {
            k
        } else if contains_address(guardians, approvers.last()@) {
            approvers.len()
        } else {
            k
        }
    }
}

/// `revoke_admin_emergency`: refused while no quorum is configured; the
/// approvers are scanned in order, each distinct one's authorisation being
/// demanded, and the first non-guardian stops the call with `NotGuardian`;
/// fewer distinct approvers than the quorum is refused; otherwise the admin
/// and any nominee are removed, the role is marked vacant, and the contract
/// is paused.
pub open spec fn revoke_emergency_step(s: EnvView, approvers: Seq<Address>) -> (
    EnvView,
    Result<(), ContractError>,
) {
    if s.threshold() == 0 {
        (s, Err(ContractError::QuorumNotMet))
    } else {
        let k = guardian_prefix(approvers, s.guardian_list());
        if k < approvers.len() {
            (
                EnvView { auths: s.auths + distinct_approvers(approvers.take(k as int)), ..s },
                Err(ContractError::NotGuardian),
            )
        } else {
            let d = distinct_approvers(approvers);
            let s1 = EnvView { auths: s.auths + d, ..s };
            if d.len() < s.threshold() {
                (s1, Err(ContractError::QuorumNotMet))
            } else {
                match admin_result(s1) {
                    Err(e) => (s1, Err(e)),
                    Ok(admin) => (
                        EnvView {
                            admin: None,
                            pending_admin: None,
                            admin_vacant: true,
                            paused: Some(true),
                            ..s1
                        }.with_event(
                            ContractEvent::AdminRevokedEmergency(
                                EventAdminRevokedEmergency {
                                    admin,
                                    approvals: d.len() as u32,
                                    ledger: s.ledger_sequence,
                                },
                            ),
                        ),
                        Ok(()),
                    ),
                }
            }
        }
    }
}


// ─── Lemmas on the approver scan ──────────────────────────────────────────────

/// One more approver extends the guardian prefix exactly when it is a guardian.
pub proof fn lemma_prefix_step(a: Seq<Address>, g: Seq<Address>, i: int)
    requires
        0 <= i < a.len(),
        guardian_prefix(a.take(i), g) == i,
    ensures
        guardian_prefix(a.take(i + 1), g) == (if contains_address(g, a[i]@) {
            i + 1
        } else {
            i
        }),
{
    assert(a.take(i + 1).drop_last() =~= a.take(i));
}

/// Once a prefix holds a non-guardian, longer prefixes have the same
/// guardian prefix.
pub proof fn lemma_prefix_stops(a: Seq<Address>, g: Seq<Address>, n: int)
    requires
        0 <= n <= a.len(),
        guardian_prefix(a.take(n), g) < n,
    ensures
        guardian_prefix(a, g) == guardian_prefix(a.take(n), g),
    decreases a.len() - n,
{
    if n < a.len() {
        assert(a.take(n + 1).drop_last() =~= a.take(n));
        lemma_prefix_stops(a, g, n + 1);
    } else {
        assert(a.take(n) =~= a);
    }
}

/// One more approver is kept exactly when it was not seen before.
pub proof fn lemma_distinct_step(a: Seq<Address>, i: int)
    requires
        0 <= i < a.len(),
    ensures
        distinct_approvers(a.take(i + 1)) == (if contains_address(
            distinct_approvers(a.take(i)),
            a[i]@,
        ) {
            distinct_approvers(a.take(i))
        } else {
            distinct_approvers(a.take(i)).push(a[i])
        }),
{
    assert(a.take(i + 1).drop_last() =~= a.take(i));
}

/// Dropping repeats never lengthens the list.
pub proof fn lemma_distinct_len(a: Seq<Address>)
    ensures
        distinct_approvers(a).len() <= a.len(),
    decreases a.len(),
{
    if a.len() > 0 {
        lemma_distinct_len(a.drop_last());
    }
}

} // verus!
