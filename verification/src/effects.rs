//! What each entry point does, stated directly over its inputs and the
//! stored values it reads and writes.

use vstd::prelude::*;

use crate::admin::scope_gate;
use crate::env::EnvView;
use crate::events::{
    ContractEvent, EventStatusChanged, EventTransactionCompleted, EventTransactionFailed,
    EventTransactionRegistered,
};
use crate::model::{
    accept_step, clear_quarantine_step, complete_step, fail_step, grant_step, guardian_pause_step,
    heartbeat_step, initialize_step, propose_step, register_step, revoke_emergency_step,
    revoke_scope_step, set_guardians_step, set_relay_step, set_threshold_step, set_window_step,
    start_step, toggle_pause_step, upgrade_step,
};
use crate::storage::{admin_result, relay_result};
use crate::types::{
    contains_address, same_identity, Address, CallbackPayload, ContractError, RoleScope,
    TransactionStatus, SCHEMA_VERSION,
};
use crate::admin::quarantined;
use crate::env::IDEMPOTENCY_TTL_LEDGERS;
use crate::validation::{payload_check, tx_hash_check};
use vstd::utf8::encode_utf8;

verus! {

// ─── Registration ─────────────────────────────────────────────────────────────

/// A first delivery stores, under the payload's transaction id, a `Pending`
/// record whose every descriptive field is the payload's field of the same
/// name, stamped with the current ledger and with an empty hash and reason;
/// it answers with the payload's id and leaves every other record alone.
pub proof fn law_register_stores_payload(s: EnvView, p: CallbackPayload)
    requires
        register_step(s, p).1 is Ok,
        s.idempotency_lookup(p.idempotency_key@) is None,
    ensures
        ({
            let (t, r) = register_step(s, p);
            let rec = t.transactions[p.transaction_id@];
            &&& r == Ok::<String, ContractError>(p.transaction_id)
            &&& !s.transactions.contains_key(p.transaction_id@)
            &&& t.transactions.contains_key(p.transaction_id@)
            &&& rec.id == p.transaction_id@
            &&& rec.stellar_account == p.stellar_account@
            &&& rec.amount == p.amount
            &&& rec.asset_code == p.asset_code@
            &&& rec.asset_issuer == p.asset_issuer@
            &&& rec.anchor_transaction_id == p.anchor_transaction_id@
            &&& rec.callback_type == p.callback_type
            &&& rec.callback_status == p.callback_status@
            &&& rec.status == TransactionStatus::Pending
            &&& rec.created_at_ledger == s.ledger_sequence
            &&& rec.updated_at_ledger == s.ledger_sequence
            &&& rec.stellar_tx_hash.len() == 0
            &&& rec.failure_reason.len() == 0
            &&& forall|k: Seq<char>|
                k != p.transaction_id@ ==> (#[trigger] t.transactions.contains_key(k)
                    == s.transactions.contains_key(k)) && (s.transactions.contains_key(k)
                    ==> t.transactions[k] == s.transactions[k])
        }),
{
}

// ─── Status transitions ───────────────────────────────────────────────────────

/// Records other than the one under `id` are the same in `s` and `t`.
pub open spec fn others_unchanged(s: EnvView, t: EnvView, id: Seq<char>) -> bool {
    forall|k: Seq<char>|
        k != id ==> (#[trigger] t.transactions.contains_key(k) == s.transactions.contains_key(k))
            && (s.transactions.contains_key(k) ==> t.transactions[k] == s.transactions[k])
}

/// A successful `start_processing` found a `Pending` record under `id` and
/// left it `Processing`, stamped with the current ledger, otherwise unchanged.
pub proof fn law_start_effect(s: EnvView, id: String, caller: Address)
    requires
        s.wf(),
        start_step(s, id, caller).1 is Ok,
    ensures
        ({
            let t = start_step(s, id, caller).0;
            let (a, b) = (s.transactions[id@], t.transactions[id@]);
            &&& s.transactions.contains_key(id@) && t.transactions.contains_key(id@)
            &&& a.status == TransactionStatus::Pending
            &&& b.status == TransactionStatus::Processing
            &&& b.updated_at_ledger == s.ledger_sequence
            &&& same_identity(a, b)
            &&& b.stellar_tx_hash == a.stellar_tx_hash
            &&& b.failure_reason == a.failure_reason
            &&& others_unchanged(s, t, id@)
        }),
{
}

/// A successful `complete_transaction` found a `Processing` record under `id`
/// and left it `Completed` with the given settlement hash, stamped with the
/// current ledger, otherwise unchanged.
pub proof fn law_complete_effect(s: EnvView, id: String, hash: String, caller: Address)
    requires
        s.wf(),
        complete_step(s, id, hash, caller).1 is Ok,
    ensures
        ({
            let t = complete_step(s, id, hash, caller).0;
            let (a, b) = (s.transactions[id@], t.transactions[id@]);
            &&& s.transactions.contains_key(id@) && t.transactions.contains_key(id@)
            &&& a.status == TransactionStatus::Processing
            &&& b.status == TransactionStatus::Completed
            &&& b.stellar_tx_hash == hash@
            &&& b.updated_at_ledger == s.ledger_sequence
            &&& same_identity(a, b)
            &&& b.failure_reason == a.failure_reason
            &&& others_unchanged(s, t, id@)
        }),
{
}

/// A successful `fail_transaction` found a `Pending` or `Processing` record
/// under `id` and left it `Failed` with the given reason, stamped with the
/// current ledger, otherwise unchanged.
pub proof fn law_fail_effect(s: EnvView, id: String, reason: String, caller: Address)
    requires
        s.wf(),
        fail_step(s, id, reason, caller).1 is Ok,
    ensures
        ({
            let t = fail_step(s, id, reason, caller).0;
            let (a, b) = (s.transactions[id@], t.transactions[id@]);
            &&& s.transactions.contains_key(id@) && t.transactions.contains_key(id@)
            &&& (a.status == TransactionStatus::Pending || a.status
                == TransactionStatus::Processing)
            &&& b.status == TransactionStatus::Failed
            &&& b.failure_reason == reason@
            &&& b.updated_at_ledger == s.ledger_sequence
            &&& same_identity(a, b)
            &&& b.stellar_tx_hash == a.stellar_tx_hash
            &&& others_unchanged(s, t, id@)
        }),
{
}

/// Who may drive a transition: with an admin and a relay signer stored, a
/// caller that is neither is refused with `Unauthorised` exactly when it
/// lacks the transition's own scope — `StartProcessing` for
/// `start_processing`, `CompleteTransaction` for `complete_transaction`,
/// `FailTransaction` for `fail_transaction` — and the admin and the relay
/// signer are never refused with `Unauthorised`.
pub proof fn law_transition_scopes(
    s: EnvView,
    id: String,
    text: String,
    caller: Address,
)
    requires
        admin_result(s) is Ok,
        relay_result(s) is Ok,
    ensures
        ({
            let admin = s.admin->0;
            let relay = s.relay_signer->0;
            let stranger = caller@ != admin@ && caller@ != relay@;
            let held = s.scopes_of(caller@);
            &&& (start_step(s, id, caller).1 == Err::<(), ContractError>(
                ContractError::Unauthorised,
            )) == (stranger && !held.contains(RoleScope::StartProcessing))
            &&& (complete_step(s, id, text, caller).1 == Err::<(), ContractError>(
                ContractError::Unauthorised,
            )) == (stranger && !held.contains(RoleScope::CompleteTransaction))
            &&& (fail_step(s, id, text, caller).1 == Err::<(), ContractError>(
                ContractError::Unauthorised,
            )) == (stranger && !held.contains(RoleScope::FailTransaction))
        }),
{
}

/// A holder of the `CompleteTransaction` scope completes a `Processing`
/// record: with an admin and a relay signer stored and a hash within its
/// cap, the call succeeds.
pub proof fn law_complete_by_scope_holder(s: EnvView, id: String, hash: String, caller: Address)
    requires
        admin_result(s) is Ok,
        relay_result(s) is Ok,
        s.scopes_of(caller@).contains(RoleScope::CompleteTransaction),
        tx_hash_check(hash@) is Ok,
        s.transactions.contains_key(id@),
        s.transactions[id@].status == TransactionStatus::Processing,
    ensures
        complete_step(s, id, hash, caller).1 is Ok,
{
}

// ─── Role scopes ──────────────────────────────────────────────────────────────

/// A successful grant adds `scope` to `who`'s scopes and keeps every scope
/// held before; nothing else is added, and no other grantee's scopes change.
pub proof fn law_grant_keeps_scopes(s: EnvView, who: Address, scope: RoleScope)
    requires
        grant_step(s, who, scope).1 is Ok,
    ensures
        ({
            let t = grant_step(s, who, scope).0;
            &&& t.scopes_of(who@).contains(scope)
            &&& forall|x: RoleScope|
                #![trigger t.scopes_of(who@).contains(x)]
                t.scopes_of(who@).contains(x) == (s.scopes_of(who@).contains(x) || x == scope)
            &&& forall|w: Seq<char>| w != who@ ==> #[trigger] t.scopes_of(w) == s.scopes_of(w)
        }),
{
    let held = s.scopes_of(who@);
    let t = grant_step(s, who, scope).0;
    if !held.contains(scope) {
        let n = held.push(scope);
        assert(n[held.len() as int] == scope);
        assert forall|x: RoleScope| n.contains(x) == (held.contains(x) || x == scope) by {
            if held.contains(x) {
                let i = choose|i: int| 0 <= i < held.len() && held[i] == x;
                assert(n[i] == x);
            }
        }
    }
}

/// A successful revocation, on well-formed storage, removes `scope` from
/// `who` and keeps every other scope `who` held; no other grantee's scopes
/// change.
pub proof fn law_revoke_keeps_other_scopes(s: EnvView, who: Address, scope: RoleScope)
    requires
        s.wf(),
        revoke_scope_step(s, who, scope).1 is Ok,
    ensures
        ({
            let t = revoke_scope_step(s, who, scope).0;
            &&& !t.scopes_of(who@).contains(scope)
            &&& forall|x: RoleScope|
                #![trigger t.scopes_of(who@).contains(x)]
                x != scope ==> t.scopes_of(who@).contains(x) == s.scopes_of(who@).contains(x)
            &&& forall|w: Seq<char>| w != who@ ==> #[trigger] t.scopes_of(w) == s.scopes_of(w)
        }),
{
    let held = s.scopes_of(who@);
    held.index_of_first_ensures(scope);
    match held.index_of_first(scope) {
        Some(i) => {
            let out = held.remove(i);
            assert(held.no_duplicates());
            assert forall|x: RoleScope| x != scope implies out.contains(x) == held.contains(x) by {
                if held.contains(x) {
                    let j = choose|j: int| 0 <= j < held.len() && held[j] == x;
                    let jo = if j < i {
                        j
                    } else {
                        j - 1
                    };
                    assert(out[jo] == x);
                }
                if out.contains(x) {
                    let j = choose|j: int| 0 <= j < out.len() && out[j] == x;
                    let js = if j < i {
                        j
                    } else {
                        j + 1
                    };
                    assert(held[js] == x);
                }
            }
            if out.contains(scope) {
                let x = choose|x: int| 0 <= x < out.len() && out[x] == scope;
                let xs = if x < i {
                    x
                } else {
                    x + 1
                };
                assert(held[xs] == held[i]);
            }
        },
        None => {},
    }
}

// ─── Guardians ────────────────────────────────────────────────────────────────

/// A successful `set_guardians(g)` leaves exactly `g` as the guardian set,
/// whatever it was before; it succeeds whenever an admin is stored.
pub proof fn law_set_guardians_replaces(s: EnvView, g: Seq<Address>)
    ensures
        set_guardians_step(s, g).1 is Ok <==> admin_result(s) is Ok,
        set_guardians_step(s, g).1 is Ok ==> set_guardians_step(s, g).0.guardian_list() == g,
{
}


// ─── Events of the lifecycle ──────────────────────────────────────────────────

/// A first delivery publishes exactly one event: the registration of the
/// payload's transaction, carrying the payload's fields and the ledger.
pub proof fn law_register_event(s: EnvView, p: CallbackPayload)
    requires
        register_step(s, p).1 is Ok,
        s.idempotency_lookup(p.idempotency_key@) is None,
    ensures
        register_step(s, p).0.events == s.events.push(
            ContractEvent::TransactionRegistered(
                EventTransactionRegistered {
                    tx_id: p.transaction_id,
                    stellar_account: p.stellar_account,
                    amount: p.amount,
                    asset_code: p.asset_code,
                    anchor_transaction_id: p.anchor_transaction_id,
                    ledger: s.ledger_sequence,
                },
            ),
        ),
{
}

/// Each successful transition announces the old and the new status of the
/// record it moved; completion and failure then announce the hash or the
/// reason.
pub proof fn law_transition_events(s: EnvView, id: String, text: String, caller: Address)
    ensures
        start_step(s, id, caller).1 is Ok ==> start_step(s, id, caller).0.events == s.events.push(
            ContractEvent::StatusChanged(
                EventStatusChanged {
                    tx_id: id,
                    old_status: TransactionStatus::Pending,
                    new_status: TransactionStatus::Processing,
                    ledger: s.ledger_sequence,
                },
            ),
        ),
        complete_step(s, id, text, caller).1 is Ok ==> complete_step(
            s,
            id,
            text,
            caller,
        ).0.events == s.events.push(
            ContractEvent::StatusChanged(
                EventStatusChanged {
                    tx_id: id,
                    old_status: TransactionStatus::Processing,
                    new_status: TransactionStatus::Completed,
                    ledger: s.ledger_sequence,
                },
            ),
        ).push(
            ContractEvent::TransactionCompleted(
                EventTransactionCompleted {
                    tx_id: id,
                    stellar_tx_hash: text,
                    ledger: s.ledger_sequence,
                },
            ),
        ),
        fail_step(s, id, text, caller).1 is Ok ==> fail_step(s, id, text, caller).0.events
            == s.events.push(
            ContractEvent::StatusChanged(
                EventStatusChanged {
                    tx_id: id,
                    old_status: s.transactions[id@].status,
                    new_status: TransactionStatus::Failed,
                    ledger: s.ledger_sequence,
                },
            ),
        ).push(
            ContractEvent::TransactionFailed(
                EventTransactionFailed { tx_id: id, reason: text, ledger: s.ledger_sequence },
            ),
        ),
{
}

// ─── Roles and configuration ──────────────────────────────────────────────────

/// `initialize` on a fresh contract stores the given admin and relay
/// signer, an unpaused flag and the current schema version.
pub proof fn law_initialize_stores_roles(s: EnvView, admin: Address, relay: Address)
    ensures
        initialize_step(s, admin, relay).1 is Ok <==> !s.initialised,
        !s.initialised ==> ({
            let t = initialize_step(s, admin, relay).0;
            &&& t.initialised
            &&& t.admin == Some(admin)
            &&& t.relay_signer == Some(relay)
            &&& !t.is_paused()
            &&& t.schema_version == Some(SCHEMA_VERSION)
            &&& t.transactions == s.transactions
        }),
{
}

/// Every admin-gated call fails with the admin lookup's error when no admin
/// is stored, and then changes nothing.
pub proof fn law_admin_gated_calls(
    s: EnvView,
    a: Address,
    w: u64,
    scope: RoleScope,
    hash: [u8; 32],
    v: u32,
    g: Seq<Address>,
    flag: bool,
)
    requires
        admin_result(s) is Err,
    ensures
        ({
            let e = Err::<(), ContractError>(admin_result(s)->Err_0);
            &&& propose_step(s, a) == (s, e)
            &&& set_relay_step(s, a) == (s, e)
            &&& set_window_step(s, w) == (s, e)
            &&& clear_quarantine_step(s, a) == (s, e)
            &&& grant_step(s, a, scope) == (s, e)
            &&& revoke_scope_step(s, a, scope) == (s, e)
            &&& upgrade_step(s, hash, v) == (s, e)
            &&& toggle_pause_step(s, flag) == (s, e)
            &&& set_guardians_step(s, g) == (s, e)
            &&& set_threshold_step(s, v) == (s, e)
        }),
{
}

/// The admin's configuration calls store exactly what they were given:
/// the relay signer, the heartbeat window, the pause flag and the quorum;
/// each succeeds whenever an admin is stored (the quorum only within
/// `1 ..= number of guardians`).
pub proof fn law_admin_settings(s: EnvView, a: Address, w: u64, flag: bool, m: u32)
    requires
        admin_result(s) is Ok,
    ensures
        relay_result(s) is Ok ==> set_relay_step(s, a).1 is Ok && set_relay_step(
            s,
            a,
        ).0.relay_signer == Some(a),
        set_window_step(s, w).1 is Ok && set_window_step(s, w).0.window() == w,
        toggle_pause_step(s, flag).1 is Ok && toggle_pause_step(s, flag).0.is_paused() == flag,
        (set_threshold_step(s, m).1 is Ok) == (1 <= m <= s.guardian_list().len()),
        set_threshold_step(s, m).1 is Ok ==> set_threshold_step(s, m).0.threshold() == m,
{
}

/// Admin transfer: a proposal of an address other than the contract's own
/// stores it as nominee and keeps the admin; the nominee's acceptance
/// installs it as admin and clears the nomination; anyone else is refused.
pub proof fn law_admin_transfer_effects(s: EnvView, nominee: Address, caller: Address)
    ensures
        admin_result(s) is Ok && nominee@ != s.contract_address@ ==> ({
            let t = propose_step(s, nominee).0;
            &&& propose_step(s, nominee).1 is Ok
            &&& t.pending_admin == Some(nominee)
            &&& t.admin == s.admin
        }),
        admin_result(s) is Ok && nominee@ == s.contract_address@ ==> propose_step(s, nominee).1
            == Err::<(), ContractError>(ContractError::InvalidAdminNominee),
        s.pending_admin is None ==> accept_step(s, caller).1 == Err::<(), ContractError>(
            ContractError::NoPendingAdminTransfer,
        ),
        s.pending_admin is Some && caller@ != s.pending_admin->0@ ==> accept_step(s, caller).1
            == Err::<(), ContractError>(ContractError::Unauthorised),
        accept_step(s, caller).1 is Ok ==> ({
            let t = accept_step(s, caller).0;
            &&& s.pending_admin is Some && s.pending_admin->0@ == caller@
            &&& t.admin == Some(caller)
            &&& t.pending_admin is None
        }),
{
}

/// Liveness: a heartbeat, accepted only from the relay signer, and a
/// quarantine clearance by the admin both record the current ledger time
/// for their signer and leave every other signer's heartbeat alone.
pub proof fn law_heartbeat_effects(s: EnvView, signer: Address)
    ensures
        (heartbeat_step(s, signer).1 is Ok) == (relay_result(s) is Ok && s.relay_signer->0@
            == signer@),
        heartbeat_step(s, signer).1 is Ok ==> heartbeat_step(s, signer).0.last_heartbeats
            == s.last_heartbeats.insert(signer@, s.ledger_timestamp),
        (clear_quarantine_step(s, signer).1 is Ok) == (admin_result(s) is Ok),
        clear_quarantine_step(s, signer).1 is Ok ==> clear_quarantine_step(
            s,
            signer,
        ).0.last_heartbeats == s.last_heartbeats.insert(signer@, s.ledger_timestamp),
{
}

/// An upgrade, by the admin with the stored schema version, installs the
/// given code; with another version it is refused.
pub proof fn law_upgrade_effects(s: EnvView, hash: [u8; 32], expected: u32)
    requires
        admin_result(s) is Ok,
        s.schema_version is Some,
    ensures
        (upgrade_step(s, hash, expected).1 is Ok) == (s.schema_version == Some(expected)),
        s.schema_version == Some(expected) ==> upgrade_step(s, hash, expected).0.current_wasm
            == hash,
        s.schema_version != Some(expected) ==> upgrade_step(s, hash, expected).1 == Err::<
            (),
            ContractError,
        >(ContractError::SchemaVersionMismatch),
{
}

/// Guardian pause: exactly the guardians may engage the pause, which they
/// do without admin rights.
pub proof fn law_guardian_pause_effects(s: EnvView, caller: Address)
    ensures
        (guardian_pause_step(s, caller).1 is Ok) == contains_address(s.guardian_list(), caller@),
        guardian_pause_step(s, caller).1 is Ok ==> guardian_pause_step(s, caller).0.is_paused(),
        guardian_pause_step(s, caller).1 is Ok ==> guardian_pause_step(s, caller).0.admin
            == s.admin,
{
}

/// A successful revocation removes the admin and any nominee, marks the role
/// vacant and engages the pause; the other roles and the records stay.
pub proof fn law_revocation_effects(s: EnvView, approvers: Seq<Address>)
    requires
        revoke_emergency_step(s, approvers).1 is Ok,
    ensures
        ({
            let t = revoke_emergency_step(s, approvers).0;
            &&& admin_result(s) is Ok
            &&& t.admin is None
            &&& t.pending_admin is None
            &&& t.admin_vacant
            &&& t.is_paused()
            &&& t.relay_signer == s.relay_signer
            &&& t.guardians == s.guardians
            &&& t.transactions == s.transactions
        }),
{
}


// ─── Guards ───────────────────────────────────────────────────────────────────

/// A payload is accepted exactly when its account and issuer are 56-byte
/// texts starting with `G`, its amount is positive, its asset code has 1 to
/// 12 bytes, its idempotency key is non-empty, and its transaction id,
/// idempotency key, anchor id and callback status have at most 128 bytes.
pub proof fn law_payload_rules(p: CallbackPayload)
    ensures
        (payload_check(p) is Ok) == ({
            &&& encode_utf8(p.stellar_account@).len() as usize == 56
            &&& p.stellar_account@.len() > 0 && p.stellar_account@[0] == 'G'
            &&& p.amount > 0
            &&& 1 <= encode_utf8(p.asset_code@).len() as usize <= 12
            &&& encode_utf8(p.asset_issuer@).len() as usize == 56
            &&& p.asset_issuer@.len() > 0 && p.asset_issuer@[0] == 'G'
            &&& encode_utf8(p.idempotency_key@).len() as usize != 0
            &&& encode_utf8(p.transaction_id@).len() as usize <= 128
            &&& encode_utf8(p.idempotency_key@).len() as usize <= 128
            &&& encode_utf8(p.anchor_transaction_id@).len() as usize <= 128
            &&& encode_utf8(p.callback_status@).len() as usize <= 128
        }),
        p.amount <= 0 && encode_utf8(p.stellar_account@).len() as usize == 56
            && p.stellar_account@.len() > 0 && p.stellar_account@[0] == 'G' ==> payload_check(p)
            == Err::<(), ContractError>(ContractError::InvalidAmount),
{
}

/// When registration is open (not paused, a relay signer stored and not
/// quarantined), an invalid payload is refused with its rule's error, and a
/// valid one under an id already stored, with no live key, is refused as a
/// duplicate; neither writes anything.
pub proof fn law_register_refusals(s: EnvView, p: CallbackPayload)
    requires
        !s.is_paused(),
        relay_result(s) is Ok,
        !quarantined(s, s.relay_signer->0@),
    ensures
        payload_check(p) is Err ==> register_step(s, p).1 == Err::<String, ContractError>(
            payload_check(p)->Err_0,
        ),
        payload_check(p) is Ok && s.idempotency_lookup(p.idempotency_key@) is None
            && s.transactions.contains_key(p.transaction_id@) ==> register_step(s, p).1 == Err::<
            String,
            ContractError,
        >(ContractError::DuplicateRequest),
        register_step(s, p).1 is Err ==> register_step(s, p).0.transactions == s.transactions
            && register_step(s, p).0.idempotency_keys == s.idempotency_keys,
{
}

/// Quarantine arithmetic: with a non-zero window, a signer that heartbeated
/// at `last` is quarantined once the ledger time is strictly more than the
/// window past `last`, and not before.
pub proof fn law_quarantine_window(s: EnvView, signer: Seq<char>)
    requires
        s.window() != 0,
        s.last_heartbeats.contains_key(signer),
    ensures
        quarantined(s, signer) == (s.ledger_timestamp > s.last_heartbeats[signer] + s.window()),
{
}

/// An idempotency key recorded at ledger `L` is live from `L` through
/// `L + IDEMPOTENCY_TTL_LEDGERS`, and not after.
pub proof fn law_idempotency_ttl(s: EnvView, key: Seq<char>)
    requires
        s.idempotency_keys.contains_key(key),
        s.idempotency_keys[key].ledger <= s.ledger_sequence,
    ensures
        (s.idempotency_lookup(key) is Some) == (s.ledger_sequence <= s.idempotency_keys[key].ledger
            + IDEMPOTENCY_TTL_LEDGERS),
        s.idempotency_lookup(key) is Some ==> s.idempotency_lookup(key)->0 == s.idempotency_keys[key],
{
}

} // verus!
