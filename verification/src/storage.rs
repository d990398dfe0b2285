//! All reads and writes of the contract's storage entries.
//!
//! | Data                        | Tier         |
//! |-----------------------------|--------------|
//! | Init flag, pause flag       | instance     |
//! | Roles, transactions, config | persistent   |
//! | Idempotency keys            | temporary    |

use vstd::prelude::*;

use crate::env::{Env, EnvView};
use crate::types::{
    copy_addresses, Address, ContractError, IdempotencyRecord, RoleScope, Transaction,
    TransactionView,
};

verus! {

/// The stored admin, or why there is none: revoked by guardian quorum, or
/// never initialised.
pub open spec fn admin_result(s: EnvView) -> Result<Address, ContractError> {
    match s.admin {
        Some(a) => Ok(a),
        None => if s.admin_vacant {
            Err(ContractError::AdminVacant)
        } else {
            Err(ContractError::NotInitialised)
        },
    }
}

/// The stored relay signer, or `NotInitialised`.
pub open spec fn relay_result(s: EnvView) -> Result<Address, ContractError> {
    match s.relay_signer {
        Some(a) => Ok(a),
        None => Err(ContractError::NotInitialised),
    }
}

/// The stored schema version, or `NotInitialised`.
pub open spec fn schema_result(s: EnvView) -> Result<u32, ContractError> {
    match s.schema_version {
        Some(v) => Ok(v),
        None => Err(ContractError::NotInitialised),
    }
}

/// The record stored under `tx_id`, or `TransactionNotFound`.
pub open spec fn transaction_result(s: EnvView, tx_id: Seq<char>) -> Result<
    TransactionView,
    ContractError,
> {
    if s.transactions.contains_key(tx_id) {
        Ok(s.transactions[tx_id])
    } else {
        Err(ContractError::TransactionNotFound)
    }
}

/// Storage access of the contract.
pub struct StorageClient;

impl StorageClient {
    // ── Initialisation flag ───────────────────────────────────────────────────

    /// Whether `initialize` has run.
    pub fn is_initialised(env: &Env) -> (r: bool)
        ensures
            r == env@.initialised,
    {
        env.initialised
    }

    /// Records that `initialize` has run.
    pub fn set_initialised(env: &mut Env)
        ensures
            final(env)@ == (EnvView { initialised: true, ..old(env)@ }),
    {
        env.initialised = true;
    }

    // ── Pause ─────────────────────────────────────────────────────────────────

    /// Whether the emergency pause is engaged; false when never written.
    pub fn is_paused(env: &Env) -> (r: bool)
        ensures
            r == env@.is_paused(),
    {
        match env.paused {
            Some(b) => b,
            None => false,
        }
    }

    /// Writes the pause flag.
    pub fn set_paused(env: &mut Env, paused: bool)
        ensures
            final(env)@ == (EnvView { paused: Some(paused), ..old(env)@ }),
    {
        env.paused = Some(paused);
    }

    // ── Admin ─────────────────────────────────────────────────────────────────

    /// The admin; `AdminVacant` after a guardian revocation, else
    /// `NotInitialised` when none is stored.
    pub fn get_admin(env: &Env) -> (r: Result<Address, ContractError>)
        ensures
            r == admin_result(env@),
    {
        match &env.admin {
            Some(a) => Ok(a.clone()),
            None => if env.admin_vacant {
                Err(ContractError::AdminVacant)
            } else {
                Err(ContractError::NotInitialised)
            },
        }
    }

    /// Writes the admin.
    pub fn set_admin(env: &mut Env, admin: &Address)
        ensures
            final(env)@ == (EnvView { admin: Some(*admin), ..old(env)@ }),
    {
        env.admin = Some(admin.clone());
    }

    // ── Relay signer ──────────────────────────────────────────────────────────

    /// The relay signer, or `NotInitialised`.
    pub fn get_relay_signer(env: &Env) -> (r: Result<Address, ContractError>)
        ensures
            r == relay_result(env@),
    {
        match &env.relay_signer {
            Some(a) => Ok(a.clone()),
            None => Err(ContractError::NotInitialised),
        }
    }

    /// Writes the relay signer.
    pub fn set_relay_signer(env: &mut Env, signer: &Address)
        ensures
            final(env)@ == (EnvView { relay_signer: Some(*signer), ..old(env)@ }),
    {
        env.relay_signer = Some(signer.clone());
    }

    // ── Two-step admin transfer ───────────────────────────────────────────────

    /// The nominee of a transfer in progress, if any.
    pub fn get_pending_admin(env: &Env) -> (r: Option<Address>)
        ensures
            r == env@.pending_admin,
    {
        match &env.pending_admin {
            Some(a) => Some(a.clone()),
            None => None,
        }
    }

    /// Writes the nominee, replacing any earlier one.
    pub fn set_pending_admin(env: &mut Env, nominee: &Address)
        ensures
            final(env)@ == (EnvView { pending_admin: Some(*nominee), ..old(env)@ }),
    {
        env.pending_admin = Some(nominee.clone());
    }

    /// Removes the nominee.
    pub fn clear_pending_admin(env: &mut Env)
        ensures
            final(env)@ == (EnvView { pending_admin: None, ..old(env)@ }),
    {
        env.pending_admin = None;
    }

    // ── Schema version ────────────────────────────────────────────────────────

    /// The storage schema version, or `NotInitialised`.
    pub fn get_schema_version(env: &Env) -> (r: Result<u32, ContractError>)
        ensures
            r == schema_result(env@),
    {
        match env.schema_version {
            Some(v) => Ok(v),
            None => Err(ContractError::NotInitialised),
        }
    }

    /// Writes the storage schema version.
    pub fn set_schema_version(env: &mut Env, version: u32)
        ensures
            final(env)@ == (EnvView { schema_version: Some(version), ..old(env)@ }),
    {
        env.schema_version = Some(version);
    }

    // ── Transactions ──────────────────────────────────────────────────────────

    /// Whether a record is stored under `tx_id`.
    pub fn transaction_exists(env: &Env, tx_id: &String) -> (r: bool)
        ensures
            r == env@.transactions.contains_key(tx_id@),
    {
        env.transactions.contains_key(tx_id.as_str())
    }

    /// The record stored under `tx_id`, or `TransactionNotFound`. Reading a
    /// record keeps it live for `TRANSACTION_MIN_TTL_LEDGERS` more ledgers.
    pub fn get_transaction(env: &mut Env, tx_id: &String) -> (r: Result<
        Transaction,
        ContractError,
    >)
        ensures
            match r {
                Ok(tx) => transaction_result(old(env)@, tx_id@) == Ok::<
                    TransactionView,
                    ContractError,
                >(tx@),
                Err(e) => transaction_result(old(env)@, tx_id@) == Err::<
                    TransactionView,
                    ContractError,
                >(e),
            },
            final(env)@ == (if old(env)@.transactions.contains_key(tx_id@) {
                old(env)@.with_record_bumped(tx_id@)
            } else {
                old(env)@
            }),
    {
        let tx = match env.transactions.get(tx_id.as_str()) {
            Some(tx) => tx.clone(),
            None => {
                return Err(ContractError::TransactionNotFound);
            },
        };
        Self::extend_record_ttl(env, tx_id);
        Ok(tx)
    }

    /// Stores `tx` under its own id, replacing any record there, and keeps
    /// it live for `TRANSACTION_MIN_TTL_LEDGERS` more ledgers.
    pub fn save_transaction(env: &mut Env, tx: &Transaction)
        ensures
            final(env)@ == (EnvView {
                transactions: old(env)@.transactions.insert(tx.id@, tx@),
                ..old(env)@
            }).with_record_bumped(tx.id@),
    {
        let ghost before = env.transactions@;
        env.transactions.insert(tx.id.clone(), tx.clone());
        assert(env.transactions@.map_values(|t: Transaction| t@) =~= before.map_values(
            |t: Transaction| t@,
        ).insert(tx.id@, tx@));
        Self::extend_record_ttl(env, &tx.id);
    }

    /// Extends the time-to-live of the record under `tx_id` so that it stays
    /// live at least `TRANSACTION_MIN_TTL_LEDGERS` ledgers from now.
    fn extend_record_ttl(env: &mut Env, tx_id: &String)
        ensures
            final(env)@ == old(env)@.with_record_bumped(tx_id@),
    {
        let target = env.ledger_sequence as u64 + crate::env::TRANSACTION_MIN_TTL_LEDGERS as u64;
        let current = match env.record_live_until.get(tx_id.as_str()) {
            Some(l) => *l,
            None => 0,
        };
        let live_until = if current >= target {
            current
        } else {
            target
        };
        env.record_live_until.insert(tx_id.clone(), live_until);
    }

    // ── Idempotency keys ──────────────────────────────────────────────────────

    /// What `key` remembers (the ledger it was recorded at and the
    /// transaction id it answers with), or `None` if it is unknown or no
    /// longer live.
    pub fn get_idempotency_key(env: &Env, key: &String) -> (r: Option<IdempotencyRecord>)
        ensures
            r == env@.idempotency_lookup(key@),
    {
        match env.idempotency_keys.get(key.as_str()) {
            Some(rec) => {
                if (env.ledger_sequence as u64) <= (rec.ledger as u64)
                    + (crate::env::IDEMPOTENCY_TTL_LEDGERS as u64) {
                    Some(rec.clone())
                } else {
                    None
                }
            },
            None => None,
        }
    }

    /// Records `key` at the current ledger as answering with `tx_id`; it
    /// stays live for `IDEMPOTENCY_TTL_LEDGERS` ledgers.
    pub fn set_idempotency_key(env: &mut Env, key: &String, tx_id: &String)
        ensures
            final(env)@ == (EnvView {
                idempotency_keys: old(env)@.idempotency_keys.insert(
                    key@,
                    (IdempotencyRecord { ledger: old(env)@.ledger_sequence, tx_id: *tx_id }),
                ),
                ..old(env)@
            }),
    {
        let seq = env.ledger_sequence;
        env.idempotency_keys.insert(key.clone(), IdempotencyRecord { ledger: seq, tx_id: tx_id.clone() });
    }

    // ── Relay liveness ────────────────────────────────────────────────────────

    /// The last heartbeat time recorded for `signer`, if any.
    pub fn get_last_heartbeat(env: &Env, signer: &Address) -> (r: Option<u64>)
        ensures
            r == (if env@.last_heartbeats.contains_key(signer@) {
                Some(env@.last_heartbeats[signer@])
            } else {
                None
            }),
    {
        match env.last_heartbeats.get(signer.as_str()) {
            Some(ts) => Some(*ts),
            None => None,
        }
    }

    /// Records `ts` as `signer`'s last heartbeat.
    pub fn set_last_heartbeat(env: &mut Env, signer: &Address, ts: u64)
        ensures
            final(env)@ == (EnvView {
                last_heartbeats: old(env)@.last_heartbeats.insert(signer@, ts),
                ..old(env)@
            }),
    {
        env.last_heartbeats.insert(signer.to_strkey(), ts);
    }

    /// The staleness window in seconds; 0 (the default) disables quarantine.
    pub fn get_heartbeat_window(env: &Env) -> (r: u64)
        ensures
            r == env@.window(),
    {
        match env.heartbeat_window {
            Some(w) => w,
            None => 0,
        }
    }

    /// Writes the staleness window.
    pub fn set_heartbeat_window(env: &mut Env, secs: u64)
        ensures
            final(env)@ == (EnvView { heartbeat_window: Some(secs), ..old(env)@ }),
    {
        env.heartbeat_window = Some(secs);
    }

    // ── Role scopes ───────────────────────────────────────────────────────────

    /// The scopes granted to `who`, empty when none.
    pub fn get_scopes(env: &Env, who: &Address) -> (r: Vec<RoleScope>)
        ensures
            r@ == env@.scopes_of(who@),
    {
        match env.scopes.get(who.as_str()) {
            Some(v) => copy_scopes(v),
            None => Vec::new(),
        }
    }

    /// Writes the scopes granted to `who`.
    pub fn set_scopes(env: &mut Env, who: &Address, scopes: &Vec<RoleScope>)
        ensures
            final(env)@ == (EnvView {
                scopes: old(env)@.scopes.insert(who@, scopes@),
                ..old(env)@
            }),
    {
        let ghost before = env.scopes@;
        env.scopes.insert(who.to_strkey(), copy_scopes(scopes));
        assert(env.scopes@.map_values(|v: Vec<RoleScope>| v@) =~= before.map_values(
            |v: Vec<RoleScope>| v@,
        ).insert(who@, scopes@));
    }

    // ── Guardians ─────────────────────────────────────────────────────────────

    /// The guardian set, empty when none was configured.
    pub fn get_guardians(env: &Env) -> (r: Vec<Address>)
        ensures
            r@ == env@.guardian_list(),
    {
        match &env.guardians {
            Some(g) => copy_addresses(g),
            None => Vec::new(),
        }
    }

    /// Writes the guardian set.
    pub fn set_guardians(env: &mut Env, guardians: &Vec<Address>)
        ensures
            final(env)@ == (EnvView { guardians: Some(guardians@), ..old(env)@ }),
    {
        env.guardians = Some(copy_addresses(guardians));
    }

    /// The guardian quorum M, 0 when never set.
    pub fn get_guardian_threshold(env: &Env) -> (r: u32)
        ensures
            r == env@.threshold(),
    {
        match env.guardian_threshold {
            Some(m) => m,
            None => 0,
        }
    }

    /// Writes the guardian quorum.
    pub fn set_guardian_threshold(env: &mut Env, m: u32)
        ensures
            final(env)@ == (EnvView { guardian_threshold: Some(m), ..old(env)@ }),
    {
        env.guardian_threshold = Some(m);
    }

    // ── Emergency revocation ──────────────────────────────────────────────────

    /// Whether the admin was revoked by guardian quorum.
    pub fn is_admin_vacant(env: &Env) -> (r: bool)
        ensures
            r == env@.admin_vacant,
    {
        env.admin_vacant
    }

    /// Removes the admin and any nominee, and marks the role vacant.
    pub fn vacate_admin(env: &mut Env)
        ensures
            final(env)@ == (EnvView {
                admin: None,
                pending_admin: None,
                admin_vacant: true,
                ..old(env)@
            }),
    {
        env.admin = None;
        env.pending_admin = None;
        env.admin_vacant = true;
    }
}

/// An element-by-element copy of a list of scopes.
fn copy_scopes(list: &Vec<RoleScope>) -> (r: Vec<RoleScope>)
    ensures
        r@ == list@,
{
    let mut out: Vec<RoleScope> = Vec::new();
    let mut i: usize = 0;
    while i < list.len()
        invariant
            i <= list@.len(),
            out@ == list@.subrange(0, i as int),
        decreases list@.len() - i,
    {
        out.push(list[i]);
        i = i + 1;
    }
    assert(list@.subrange(0, list@.len() as int) =~= list@);
    out
}

} // verus!
