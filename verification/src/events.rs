//! Typed events announcing each state change, and the emitter that
//! publishes them into the environment.
//!
//! Each event is published under the topics `("synapse", <name>)`, where the
//! name is given by [`ContractEvent::topic_name`].

use vstd::prelude::*;

use crate::env::{Env, EnvView};
use crate::types::{Address, Transaction, TransactionStatus};

verus! {

// ─── Event payloads ───────────────────────────────────────────────────────────

/// Emitted by `guardian_pause`; distinct from [`EventPauseToggled`] so guardian pauses can be told apart.
#[derive(Debug, PartialEq, Eq)]
pub struct EventGuardianPaused {
    pub guardian: Address,
    pub ledger: u32,
}

/// Emitted by `heartbeat`.
#[derive(Debug, PartialEq, Eq)]
pub struct EventHeartbeat {
    pub signer: Address,
    pub timestamp: u64,
}

/// Emitted by `clear_quarantine`.
#[derive(Debug, PartialEq, Eq)]
pub struct EventQuarantineCleared {
    pub signer: Address,
    pub admin: Address,
    pub ledger: u32,
}

/// Emitted by `initialize`.
#[derive(Debug, PartialEq, Eq)]
pub struct EventInitialised {
    pub admin: Address,
    pub relay_signer: Address,
    pub ledger: u32,
}

/// Emitted by `register_callback` when a record is written for the first time.
#[derive(Debug, PartialEq, Eq)]
pub struct EventTransactionRegistered {
    pub tx_id: String,
    pub stellar_account: String,
    pub amount: i128,
    pub asset_code: String,
    pub anchor_transaction_id: String,
    pub ledger: u32,
}

/// Emitted on every status change.
#[derive(Debug, PartialEq, Eq)]
pub struct EventStatusChanged {
    pub tx_id: String,
    pub old_status: TransactionStatus,
    pub new_status: TransactionStatus,
    pub ledger: u32,
}

/// Emitted when a record reaches `Completed`, with its settlement hash.
#[derive(Debug, PartialEq, Eq)]
pub struct EventTransactionCompleted {
    pub tx_id: String,
    pub stellar_tx_hash: String,
    pub ledger: u32,
}

/// Emitted when a record reaches `Failed`.
#[derive(Debug, PartialEq, Eq)]
pub struct EventTransactionFailed {
    pub tx_id: String,
    pub reason: String,
    pub ledger: u32,
}

/// Emitted when a nominee accepts the admin role.
#[derive(Debug, PartialEq, Eq)]
pub struct EventAdminTransferred {
    pub old_admin: Address,
    pub new_admin: Address,
    pub ledger: u32,
}

/// Emitted when the admin nominates a successor; the transfer is not yet effective.
#[derive(Debug, PartialEq, Eq)]
pub struct EventAdminTransferProposed {
    pub current_admin: Address,
    pub proposed_admin: Address,
    pub ledger: u32,
}

/// Emitted when the relay signer is rotated.
#[derive(Debug, PartialEq, Eq)]
pub struct EventRelaySignerRotated {
    pub old_signer: Address,
    pub new_signer: Address,
    pub ledger: u32,
}

/// Emitted when the contract code is replaced.
#[derive(Debug, PartialEq, Eq)]
pub struct EventContractUpgraded {
    pub admin: Address,
    pub new_wasm_hash: [u8; 32],
    pub ledger: u32,
    pub schema_version: u32,
}

/// Emitted by `pause` and `unpause`.
#[derive(Debug, PartialEq, Eq)]
pub struct EventPauseToggled {
    pub paused: bool,
    pub admin: Address,
    pub ledger: u32,
}

/// Emitted when a guardian quorum revokes the admin.
#[derive(Debug, PartialEq, Eq)]
pub struct EventAdminRevokedEmergency {
    pub admin: Address,
    pub approvals: u32,
    pub ledger: u32,
}

/// An event of any kind.
#[derive(Debug, PartialEq, Eq)]
pub enum ContractEvent {
    GuardianPaused(EventGuardianPaused),
    Heartbeat(EventHeartbeat),
    QuarantineCleared(EventQuarantineCleared),
    Initialised(EventInitialised),
    TransactionRegistered(EventTransactionRegistered),
    StatusChanged(EventStatusChanged),
    TransactionCompleted(EventTransactionCompleted),
    TransactionFailed(EventTransactionFailed),
    AdminTransferred(EventAdminTransferred),
    AdminTransferProposed(EventAdminTransferProposed),
    RelaySignerRotated(EventRelaySignerRotated),
    ContractUpgraded(EventContractUpgraded),
    PauseToggled(EventPauseToggled),
    AdminRevokedEmergency(EventAdminRevokedEmergency),
}

/// The second topic under which an event is published.
pub open spec fn event_topic(e: ContractEvent) -> Seq<char> {
    match e {
        ContractEvent::GuardianPaused(_) => "gpause"@,
        ContractEvent::Heartbeat(_) => "hbeat"@,
        ContractEvent::QuarantineCleared(_) => "qclear"@,
        ContractEvent::Initialised(_) => "init"@,
        ContractEvent::TransactionRegistered(_) => "reg"@,
        ContractEvent::StatusChanged(_) => "status"@,
        ContractEvent::TransactionCompleted(_) => "done"@,
        ContractEvent::TransactionFailed(_) => "fail"@,
        ContractEvent::AdminTransferred(_) => "admin"@,
        ContractEvent::AdminTransferProposed(_) => "propose"@,
        ContractEvent::RelaySignerRotated(_) => "relay"@,
        ContractEvent::ContractUpgraded(_) => "upgrade"@,
        ContractEvent::PauseToggled(_) => "pause"@,
        ContractEvent::AdminRevokedEmergency(_) => "revoke"@,
    }
}

impl ContractEvent {
    /// The second topic under which this event is published.
    pub fn topic_name(&self) -> (r: &'static str)
        ensures
            r@ == event_topic(*self),
    {
        match self {
            ContractEvent::GuardianPaused(_) => "gpause",
            ContractEvent::Heartbeat(_) => "hbeat",
            ContractEvent::QuarantineCleared(_) => "qclear",
            ContractEvent::Initialised(_) => "init",
            ContractEvent::TransactionRegistered(_) => "reg",
            ContractEvent::StatusChanged(_) => "status",
            ContractEvent::TransactionCompleted(_) => "done",
            ContractEvent::TransactionFailed(_) => "fail",
            ContractEvent::AdminTransferred(_) => "admin",
            ContractEvent::AdminTransferProposed(_) => "propose",
            ContractEvent::RelaySignerRotated(_) => "relay",
            ContractEvent::ContractUpgraded(_) => "upgrade",
            ContractEvent::PauseToggled(_) => "pause",
            ContractEvent::AdminRevokedEmergency(_) => "revoke",
        }
    }
}

// ─── Emitter ─────────────────────────────────────────────────────────────────

/// Publishes the contract's events; each event carries the current ledger
/// sequence (the heartbeat event carries the ledger time instead).
pub struct EventEmitter;

impl EventEmitter {
    /// Publishes [`EventInitialised`].
    pub fn initialised(env: &mut Env, admin: &Address, relay_signer: &Address)
        ensures
            final(env)@ == old(env)@.with_event(
                ContractEvent::Initialised(
                    (EventInitialised {
                        admin: *admin,
                        relay_signer: *relay_signer,
                        ledger: old(env)@.ledger_sequence,
                    }),
                ),
            ),
    {
        let ledger = env.ledger_sequence;
        env.publish(
            ContractEvent::Initialised(
                EventInitialised { admin: admin.clone(), relay_signer: relay_signer.clone(), ledger },
            ),
        );
    }

    /// Publishes [`EventTransactionRegistered`] for `tx`.
    pub fn transaction_registered(env: &mut Env, tx: &Transaction)
        ensures
            final(env)@ == old(env)@.with_event(registered_event(*tx, old(env)@.ledger_sequence)),
    {
        let ledger = env.ledger_sequence;
        env.publish(
            ContractEvent::TransactionRegistered(
                EventTransactionRegistered {
                    tx_id: tx.id.clone(),
                    stellar_account: tx.stellar_account.clone(),
                    amount: tx.amount,
                    asset_code: tx.asset_code.clone(),
                    anchor_transaction_id: tx.anchor_transaction_id.clone(),
                    ledger,
                },
            ),
        );
    }

    /// Publishes [`EventContractUpgraded`].
    pub fn contract_upgraded(
        env: &mut Env,
        admin: &Address,
        new_wasm_hash: &[u8; 32],
        schema_version: u32,
    )
        ensures
            final(env)@ == old(env)@.with_event(
                ContractEvent::ContractUpgraded(
                    (EventContractUpgraded {
                        admin: *admin,
                        new_wasm_hash: *new_wasm_hash,
                        ledger: old(env)@.ledger_sequence,
                        schema_version,
                    }),
                ),
            ),
    {
        let ledger = env.ledger_sequence;
        env.publish(
            ContractEvent::ContractUpgraded(
                EventContractUpgraded {
                    admin: admin.clone(),
                    new_wasm_hash: *new_wasm_hash,
                    ledger,
                    schema_version,
                },
            ),
        );
    }

    /// Publishes [`EventAdminTransferProposed`].
    pub fn admin_transfer_proposed(env: &mut Env, current_admin: &Address, proposed_admin: &Address)
        ensures
            final(env)@ == old(env)@.with_event(
                ContractEvent::AdminTransferProposed(
                    (EventAdminTransferProposed {
                        current_admin: *current_admin,
                        proposed_admin: *proposed_admin,
                        ledger: old(env)@.ledger_sequence,
                    }),
                ),
            ),
    {
        let ledger = env.ledger_sequence;
        env.publish(
            ContractEvent::AdminTransferProposed(
                EventAdminTransferProposed {
                    current_admin: current_admin.clone(),
                    proposed_admin: proposed_admin.clone(),
                    ledger,
                },
            ),
        );
    }

    /// Publishes [`EventRelaySignerRotated`].
    pub fn relay_signer_rotated(env: &mut Env, old_signer: &Address, new_signer: &Address)
        ensures
            final(env)@ == old(env)@.with_event(
                ContractEvent::RelaySignerRotated(
                    (EventRelaySignerRotated {
                        old_signer: *old_signer,
                        new_signer: *new_signer,
                        ledger: old(env)@.ledger_sequence,
                    }),
                ),
            ),
    {
        let ledger = env.ledger_sequence;
        env.publish(
            ContractEvent::RelaySignerRotated(
                EventRelaySignerRotated {
                    old_signer: old_signer.clone(),
                    new_signer: new_signer.clone(),
                    ledger,
                },
            ),
        );
    }

    /// Publishes [`EventPauseToggled`].
    pub fn pause_toggled(env: &mut Env, paused: bool, admin: &Address)
        ensures
            final(env)@ == old(env)@.with_event(
                ContractEvent::PauseToggled(
                    (EventPauseToggled { paused, admin: *admin, ledger: old(env)@.ledger_sequence }),
                ),
            ),
    {
        let ledger = env.ledger_sequence;
        env.publish(
            ContractEvent::PauseToggled(EventPauseToggled { paused, admin: admin.clone(), ledger }),
        );
    }

    /// Publishes [`EventStatusChanged`].
    pub fn status_changed(
        env: &mut Env,
        tx_id: &String,
        old_status: TransactionStatus,
        new_status: TransactionStatus,
    )
        ensures
            final(env)@ == old(env)@.with_event(
                ContractEvent::StatusChanged(
                    (EventStatusChanged {
                        tx_id: *tx_id,
                        old_status,
                        new_status,
                        ledger: old(env)@.ledger_sequence,
                    }),
                ),
            ),
    {
        let ledger = env.ledger_sequence;
        env.publish(
            ContractEvent::StatusChanged(
                EventStatusChanged { tx_id: tx_id.clone(), old_status, new_status, ledger },
            ),
        );
    }

    /// Publishes [`EventTransactionCompleted`].
    pub fn transaction_completed(env: &mut Env, tx_id: &String, stellar_tx_hash: &String)
        ensures
            final(env)@ == old(env)@.with_event(
                ContractEvent::TransactionCompleted(
                    (EventTransactionCompleted {
                        tx_id: *tx_id,
                        stellar_tx_hash: *stellar_tx_hash,
                        ledger: old(env)@.ledger_sequence,
                    }),
                ),
            ),
    {
        let ledger = env.ledger_sequence;
        env.publish(
            ContractEvent::TransactionCompleted(
                EventTransactionCompleted {
                    tx_id: tx_id.clone(),
                    stellar_tx_hash: stellar_tx_hash.clone(),
                    ledger,
                },
            ),
        );
    }

    /// Publishes [`EventTransactionFailed`].
    pub fn transaction_failed(env: &mut Env, tx_id: &String, reason: &String)
        ensures
            final(env)@ == old(env)@.with_event(
                ContractEvent::TransactionFailed(
                    (EventTransactionFailed {
                        tx_id: *tx_id,
                        reason: *reason,
                        ledger: old(env)@.ledger_sequence,
                    }),
                ),
            ),
    {
        let ledger = env.ledger_sequence;
        env.publish(
            ContractEvent::TransactionFailed(
                EventTransactionFailed { tx_id: tx_id.clone(), reason: reason.clone(), ledger },
            ),
        );
    }

    /// Publishes [`EventAdminTransferred`].
    pub fn admin_transferred(env: &mut Env, old_admin: &Address, new_admin: &Address)
        ensures
            final(env)@ == old(env)@.with_event(
                ContractEvent::AdminTransferred(
                    (EventAdminTransferred {
                        old_admin: *old_admin,
                        new_admin: *new_admin,
                        ledger: old(env)@.ledger_sequence,
                    }),
                ),
            ),
    {
        let ledger = env.ledger_sequence;
        env.publish(
            ContractEvent::AdminTransferred(
                EventAdminTransferred {
                    old_admin: old_admin.clone(),
                    new_admin: new_admin.clone(),
                    ledger,
                },
            ),
        );
    }

    /// Publishes [`EventHeartbeat`], stamped with the ledger time.
    pub fn heartbeat(env: &mut Env, signer: &Address)
        ensures
            final(env)@ == old(env)@.with_event(
                ContractEvent::Heartbeat(
                    (EventHeartbeat { signer: *signer, timestamp: old(env)@.ledger_timestamp }),
                ),
            ),
    {
        let timestamp = env.ledger_timestamp;
        env.publish(ContractEvent::Heartbeat(EventHeartbeat { signer: signer.clone(), timestamp }));
    }

    /// Publishes [`EventQuarantineCleared`].
    pub fn quarantine_cleared(env: &mut Env, signer: &Address, admin: &Address)
        ensures
            final(env)@ == old(env)@.with_event(
                ContractEvent::QuarantineCleared(
                    (EventQuarantineCleared {
                        signer: *signer,
                        admin: *admin,
                        ledger: old(env)@.ledger_sequence,
                    }),
                ),
            ),
    {
        let ledger = env.ledger_sequence;
        env.publish(
            ContractEvent::QuarantineCleared(
                EventQuarantineCleared { signer: signer.clone(), admin: admin.clone(), ledger },
            ),
        );
    }

    /// Publishes [`EventGuardianPaused`].
    pub fn guardian_paused(env: &mut Env, guardian: &Address)
        ensures
            final(env)@ == old(env)@.with_event(
                ContractEvent::GuardianPaused(
                    (EventGuardianPaused { guardian: *guardian, ledger: old(env)@.ledger_sequence }),
                ),
            ),
    {
        let ledger = env.ledger_sequence;
        env.publish(
            ContractEvent::GuardianPaused(EventGuardianPaused { guardian: guardian.clone(), ledger }),
        );
    }

    /// Publishes [`EventAdminRevokedEmergency`].
    pub fn admin_revoked_emergency(env: &mut Env, admin: &Address, approvals: u32)
        ensures
            final(env)@ == old(env)@.with_event(
                ContractEvent::AdminRevokedEmergency(
                    (EventAdminRevokedEmergency {
                        admin: *admin,
                        approvals,
                        ledger: old(env)@.ledger_sequence,
                    }),
                ),
            ),
    {
        let ledger = env.ledger_sequence;
        env.publish(
            ContractEvent::AdminRevokedEmergency(
                EventAdminRevokedEmergency { admin: admin.clone(), approvals, ledger },
            ),
        );
    }
}

/// The event announcing the first write of `tx` at ledger `ledger`.
pub open spec fn registered_event(tx: Transaction, ledger: u32) -> ContractEvent {
    ContractEvent::TransactionRegistered(
        EventTransactionRegistered {
            tx_id: tx.id,
            stellar_account: tx.stellar_account,
            amount: tx.amount,
            asset_code: tx.asset_code,
            anchor_transaction_id: tx.anchor_transaction_id,
            ledger,
        },
    )
}

} // verus!
