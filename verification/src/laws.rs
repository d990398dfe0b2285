//! Properties of the contract as a whole: what every operation keeps, and
//! what sequences of operations do.

use vstd::prelude::*;

use crate::admin::{admin_gate, quarantined, scope_gate};
use crate::env::{EnvView, TRANSACTION_MIN_TTL_LEDGERS};
use crate::model::{
    accept_step, clear_quarantine_step, complete_step, distinct_approvers, fail_step,
    grant_step, guardian_pause_step, guardian_prefix, heartbeat_step, initialize_step, new_record,
    propose_step, register_step, revoke_emergency_step, revoke_scope_step, set_guardians_step,
    set_relay_step, set_threshold_step, set_window_step, start_step, toggle_pause_step,
    upgrade_step,
};
use crate::storage::{admin_result, transaction_result};
use crate::validation::payload_check;
use crate::types::{
    contains_address, is_terminal, same_identity, status_reachable, status_step, Address,
    CallbackPayload,
    ContractError, IdempotencyRecord, RoleScope, TransactionStatus, TransactionView,
};

verus! {

/// A state-changing call of the contract, with its arguments.
pub enum Operation {
    Initialize(Address, Address),
    RegisterCallback(CallbackPayload),
    StartProcessing(String, Address),
    CompleteTransaction(String, String, Address),
    FailTransaction(String, String, Address),
    ProposeAdmin(Address),
    AcceptAdmin(Address),
    SetRelaySigner(Address),
    Heartbeat(Address),
    SetHeartbeatWindow(u64),
    ClearQuarantine(Address),
    GrantScope(Address, RoleScope),
    RevokeScope(Address, RoleScope),
    Upgrade([u8; 32], u32),
    Pause,
    Unpause,
    SetGuardians(Seq<Address>),
    SetGuardianThreshold(u32),
    RevokeAdminEmergency(Seq<Address>),
    GuardianPause(Address),
}

/// The error a result carries, if any.
pub open spec fn failure<T>(r: Result<T, ContractError>) -> Option<ContractError> {
    match r {
        Ok(_) => None,
        Err(e) => Some(e),
    }
}

/// The environment after `op`, and the error it failed with, if any.
pub open spec fn apply(s: EnvView, op: Operation) -> (EnvView, Option<ContractError>) {
    match op {
        Operation::Initialize(a, r) => {
            let (t, x) = initialize_step(s, a, r);
            (t, failure(x))
        },
        Operation::RegisterCallback(p) => {
            let (t, x) = register_step(s, p);
            (t, failure(x))
        },
        Operation::StartProcessing(id, c) => {
            let (t, x) = start_step(s, id, c);
            (t, failure(x))
        },
        Operation::CompleteTransaction(id, h, c) => {
            let (t, x) = complete_step(s, id, h, c);
            (t, failure(x))
        },
        Operation::FailTransaction(id, why, c) => {
            let (t, x) = fail_step(s, id, why, c);
            (t, failure(x))
        },
        Operation::ProposeAdmin(a) => {
            let (t, x) = propose_step(s, a);
            (t, failure(x))
        },
        Operation::AcceptAdmin(a) => {
            let (t, x) = accept_step(s, a);
            (t, failure(x))
        },
        Operation::SetRelaySigner(a) => {
            let (t, x) = set_relay_step(s, a);
            (t, failure(x))
        },
        Operation::Heartbeat(a) => {
            let (t, x) = heartbeat_step(s, a);
            (t, failure(x))
        },
        Operation::SetHeartbeatWindow(w) => {
            let (t, x) = set_window_step(s, w);
            (t, failure(x))
        },
        Operation::ClearQuarantine(a) => {
            let (t, x) = clear_quarantine_step(s, a);
            (t, failure(x))
        },
        Operation::GrantScope(a, sc) => {
            let (t, x) = grant_step(s, a, sc);
            (t, failure(x))
        },
        Operation::RevokeScope(a, sc) => {
            let (t, x) = revoke_scope_step(s, a, sc);
            (t, failure(x))
        },
        Operation::Upgrade(h, v) => {
            let (t, x) = upgrade_step(s, h, v);
            (t, failure(x))
        },
        Operation::Pause => {
            let (t, x) = toggle_pause_step(s, true);
            (t, failure(x))
        },
        Operation::Unpause => {
            let (t, x) = toggle_pause_step(s, false);
            (t, failure(x))
        },
        Operation::SetGuardians(g) => {
            let (t, x) = set_guardians_step(s, g);
            (t, failure(x))
        },
        Operation::SetGuardianThreshold(m) => {
            let (t, x) = set_threshold_step(s, m);
            (t, failure(x))
        },
        Operation::RevokeAdminEmergency(a) => {
            let (t, x) = revoke_emergency_step(s, a);
            (t, failure(x))
        },
        Operation::GuardianPause(a) => {
            let (t, x) = guardian_pause_step(s, a);
            (t, failure(x))
        },
    }
}

/// Every record of `s` is still in `t`, with the same identity, a status that
/// is the same or one lifecycle step later, and unchanged if its old status
/// was terminal.
pub open spec fn records_evolve(s: EnvView, t: EnvView) -> bool {
    forall|k: Seq<char>| #[trigger]
        s.transactions.contains_key(k) ==> {
            &&& t.transactions.contains_key(k)
            &&& same_identity(s.transactions[k], t.transactions[k])
            &&& (s.transactions[k].status == t.transactions[k].status || status_step(
                s.transactions[k].status,
                t.transactions[k].status,
            ))
            &&& is_terminal(s.transactions[k].status) ==> t.transactions[k] == s.transactions[k]
        }
}

/// Every record of `s` is still in `t`, with the same identity, a status on
/// or after its old one, and unchanged if its old status was terminal.
pub open spec fn records_reach(s: EnvView, t: EnvView) -> bool {
    forall|k: Seq<char>| #[trigger]
        s.transactions.contains_key(k) ==> {
            &&& t.transactions.contains_key(k)
            &&& same_identity(s.transactions[k], t.transactions[k])
            &&& status_reachable(s.transactions[k].status, t.transactions[k].status)
            &&& is_terminal(s.transactions[k].status) ==> t.transactions[k] == s.transactions[k]
        }
}

/// The environment after the operations `ops`, in order.
pub open spec fn run_ops(s: EnvView, ops: Seq<Operation>) -> EnvView
    decreases ops.len(),
{
    if ops.len() == 0 {
        s
    } else {
        apply(run_ops(s, ops.drop_last()), ops.last()).0
    }
}

/// Lifecycle: every operation keeps the storage well formed, never removes
/// a transaction record, never changes what a record describes, and only
/// moves its status by at most one step of
/// `Pending → Processing → Completed | Failed`;
/// a `Completed` or `Failed` record never changes again.
#[verifier::spinoff_prover]
#[verifier::rlimit(50)]
pub proof fn law_lifecycle(s: EnvView, op: Operation)
    requires
        s.wf(),
    ensures
        apply(s, op).0.wf(),
        records_evolve(s, apply(s, op).0),
{
    let t = apply(s, op).0;
    match op {
        Operation::RegisterCallback(p) => lemma_lifecycle_register(s, p),
        Operation::StartProcessing(id, c) => lemma_lifecycle_start(s, id, c),
        Operation::CompleteTransaction(id, h, c) => lemma_lifecycle_complete(s, id, h, c),
        Operation::FailTransaction(id, why, c) => lemma_lifecycle_fail(s, id, why, c),
        Operation::GrantScope(who, sc) => lemma_lifecycle_grant(s, who, sc),
        Operation::RevokeScope(who, sc) => lemma_lifecycle_revoke_scope(s, who, sc),
        _ => {
            assert(t.transactions == s.transactions && t.scopes == s.scopes);
        },
    }
}

proof fn lemma_lifecycle_register(s: EnvView, p: CallbackPayload)
    requires
        s.wf(),
    ensures
        register_step(s, p).0.wf(),
        records_evolve(s, register_step(s, p).0),
{
}

proof fn lemma_lifecycle_start(s: EnvView, id: String, c: Address)
    requires
        s.wf(),
    ensures
        start_step(s, id, c).0.wf(),
        records_evolve(s, start_step(s, id, c).0),
{
}

proof fn lemma_lifecycle_complete(s: EnvView, id: String, h: String, c: Address)
    requires
        s.wf(),
    ensures
        complete_step(s, id, h, c).0.wf(),
        records_evolve(s, complete_step(s, id, h, c).0),
{
}

proof fn lemma_lifecycle_fail(s: EnvView, id: String, why: String, c: Address)
    requires
        s.wf(),
    ensures
        fail_step(s, id, why, c).0.wf(),
        records_evolve(s, fail_step(s, id, why, c).0),
{
}

proof fn lemma_lifecycle_grant(s: EnvView, who: Address, sc: RoleScope)
    requires
        s.wf(),
    ensures
        grant_step(s, who, sc).0.wf(),
        records_evolve(s, grant_step(s, who, sc).0),
{
    let held = s.scopes_of(who@);
    if !held.contains(sc) {
        assert forall|i: int, j: int|
            0 <= i < held.push(sc).len() && 0 <= j < held.push(sc).len() && i != j implies held.push(
            sc,
        )[i] != held.push(sc)[j] by {
            if i == held.len() as int {
                assert(held.contains(held[j]));
            } else if j == held.len() as int {
                assert(held.contains(held[i]));
            }
        }
    }
}

proof fn lemma_lifecycle_revoke_scope(s: EnvView, who: Address, sc: RoleScope)
    requires
        s.wf(),
    ensures
        revoke_scope_step(s, who, sc).0.wf(),
        records_evolve(s, revoke_scope_step(s, who, sc).0),
{
    let held = s.scopes_of(who@);
    held.index_of_first_ensures(sc);
    match held.index_of_first(sc) {
        Some(i) => {
            let out = held.remove(i);
            assert forall|x: int, y: int|
                0 <= x < out.len() && 0 <= y < out.len() && x != y implies out[x] != out[y] by {
                let xs = if x < i {
                    x
                } else {
                    x + 1
                };
                let ys = if y < i {
                    y
                } else {
                    y + 1
                };
                assert(out[x] == held[xs]);
                assert(out[y] == held[ys]);
            }
        },
        None => {},
    }
}

/// Lifecycle over any run of calls: records are never removed, never change
/// what they describe, only move forward along the lifecycle, and a
/// `Completed` or `Failed` record never changes again.
pub proof fn law_lifecycle_runs(s: EnvView, ops: Seq<Operation>)
    requires
        s.wf(),
    ensures
        run_ops(s, ops).wf(),
        records_reach(s, run_ops(s, ops)),
    decreases ops.len(),
{
    if ops.len() > 0 {
        let mid = run_ops(s, ops.drop_last());
        law_lifecycle_runs(s, ops.drop_last());
        law_lifecycle(mid, ops.last());
        let t = run_ops(s, ops);
        assert forall|k: Seq<char>| #[trigger] s.transactions.contains_key(k) implies {
            &&& t.transactions.contains_key(k)
            &&& same_identity(s.transactions[k], t.transactions[k])
            &&& status_reachable(s.transactions[k].status, t.transactions[k].status)
            &&& is_terminal(s.transactions[k].status) ==> t.transactions[k] == s.transactions[k]
        } by {
            assert(mid.transactions.contains_key(k));
        }
    }
}

/// No call rewrites a live idempotency key: what a live key remembers is
/// what it remembers after any call.
pub proof fn law_live_key_kept(s: EnvView, op: Operation, key: Seq<char>)
    requires
        s.idempotency_lookup(key) is Some,
    ensures
        apply(s, op).0.idempotency_lookup(key) == s.idempotency_lookup(key),
{
    match op {
        Operation::RegisterCallback(p) => {},
        _ => {
            assert(apply(s, op).0.idempotency_keys == s.idempotency_keys);
            assert(apply(s, op).0.ledger_sequence == s.ledger_sequence);
        },
    }
}

/// No run of calls rewrites a live idempotency key.
pub proof fn law_live_key_kept_runs(s: EnvView, ops: Seq<Operation>, key: Seq<char>)
    requires
        s.idempotency_lookup(key) is Some,
    ensures
        run_ops(s, ops).idempotency_lookup(key) == s.idempotency_lookup(key),
    decreases ops.len(),
{
    if ops.len() > 0 {
        law_live_key_kept_runs(s, ops.drop_last(), key);
        law_live_key_kept(run_ops(s, ops.drop_last()), ops.last(), key);
    }
}

/// Replay after any calls: once a delivery succeeded, a valid delivery under
/// the same key, after any run of calls in between, gets the same answer,
/// writes nothing and publishes nothing, provided registration is open
/// (not paused, a relay signer stored and not quarantined).
pub proof fn law_replay_after_any_calls(
    s: EnvView,
    p1: CallbackPayload,
    ops: Seq<Operation>,
    p2: CallbackPayload,
)
    requires
        register_step(s, p1).1 is Ok,
        p2.idempotency_key@ == p1.idempotency_key@,
        payload_check(p2) is Ok,
        !run_ops(register_step(s, p1).0, ops).is_paused(),
        run_ops(register_step(s, p1).0, ops).relay_signer is Some,
        !quarantined(
            run_ops(register_step(s, p1).0, ops),
            run_ops(register_step(s, p1).0, ops).relay_signer->0@,
        ),
    ensures
        ({
            let u = run_ops(register_step(s, p1).0, ops);
            register_step(u, p2) == (u.with_auth(u.relay_signer->0), register_step(s, p1).1)
        }),
{
    let s2 = register_step(s, p1).0;
    assert(s2.idempotency_lookup(p1.idempotency_key@) is Some);
    assert(register_step(s, p1).1 == Ok::<String, ContractError>(
        s2.idempotency_lookup(p1.idempotency_key@)->0.tx_id,
    ));
    law_live_key_kept_runs(s2, ops, p1.idempotency_key@);
    law_replay_answers_recorded_id(run_ops(s2, ops), p2);
}

/// A failed call changes no storage entry and publishes no event; it may
/// only have demanded authorisations and extended the time-to-live of a
/// record it read.
#[verifier::spinoff_prover]
#[verifier::rlimit(50)]
pub proof fn law_failed_calls_write_nothing(s: EnvView, op: Operation)
    requires
        apply(s, op).1 is Some,
    ensures
        apply(s, op).0.same_storage(s),
        apply(s, op).0.events == s.events,
        apply(s, op).0.ledger_sequence == s.ledger_sequence,
        apply(s, op).0.ledger_timestamp == s.ledger_timestamp,
        apply(s, op).0.contract_address == s.contract_address,
{
    match op {
        Operation::RegisterCallback(p) => lemma_failed_register(s, p),
        Operation::StartProcessing(id, c) => lemma_failed_start(s, id, c),
        Operation::CompleteTransaction(id, h, c) => lemma_failed_complete(s, id, h, c),
        Operation::FailTransaction(id, why, c) => lemma_failed_fail(s, id, why, c),
        _ => {},
    }
}

proof fn lemma_failed_register(s: EnvView, p: CallbackPayload)
    requires
        register_step(s, p).1 is Err,
    ensures
        register_step(s, p).0.same_storage(s),
        register_step(s, p).0.events == s.events,
        register_step(s, p).0.ledger_sequence == s.ledger_sequence,
        register_step(s, p).0.ledger_timestamp == s.ledger_timestamp,
        register_step(s, p).0.contract_address == s.contract_address,
{
}

proof fn lemma_failed_start(s: EnvView, id: String, c: Address)
    requires
        start_step(s, id, c).1 is Err,
    ensures
        start_step(s, id, c).0.same_storage(s),
        start_step(s, id, c).0.events == s.events,
        start_step(s, id, c).0.ledger_sequence == s.ledger_sequence,
        start_step(s, id, c).0.ledger_timestamp == s.ledger_timestamp,
        start_step(s, id, c).0.contract_address == s.contract_address,
{
}

proof fn lemma_failed_complete(s: EnvView, id: String, h: String, c: Address)
    requires
        complete_step(s, id, h, c).1 is Err,
    ensures
        complete_step(s, id, h, c).0.same_storage(s),
        complete_step(s, id, h, c).0.events == s.events,
        complete_step(s, id, h, c).0.ledger_sequence == s.ledger_sequence,
        complete_step(s, id, h, c).0.ledger_timestamp == s.ledger_timestamp,
        complete_step(s, id, h, c).0.contract_address == s.contract_address,
{
}

proof fn lemma_failed_fail(s: EnvView, id: String, why: String, c: Address)
    requires
        fail_step(s, id, why, c).1 is Err,
    ensures
        fail_step(s, id, why, c).0.same_storage(s),
        fail_step(s, id, why, c).0.events == s.events,
        fail_step(s, id, why, c).0.ledger_sequence == s.ledger_sequence,
        fail_step(s, id, why, c).0.ledger_timestamp == s.ledger_timestamp,
        fail_step(s, id, why, c).0.contract_address == s.contract_address,
{
}

/// Idempotency: while a key is live, every valid delivery under it (whatever
/// transaction id it carries) is answered with the transaction id recorded
/// with the key, writes nothing and publishes nothing; only the relay's
/// authorisation is demanded.
pub proof fn law_replay_answers_recorded_id(s: EnvView, p: CallbackPayload)
    requires
        s.idempotency_lookup(p.idempotency_key@) is Some,
        !s.is_paused(),
        s.relay_signer is Some,
        !quarantined(s, s.relay_signer->0@),
        payload_check(p) is Ok,
    ensures
        register_step(s, p) == (
            s.with_auth(s.relay_signer->0),
            Ok::<String, ContractError>(s.idempotency_lookup(p.idempotency_key@)->0.tx_id),
        ),
{
}

/// Replay: after a successful delivery, any valid delivery under the same key
/// (at the same ledger) gets the same answer, writes nothing and publishes
/// nothing.
pub proof fn law_replay_returns_first_answer(s: EnvView, p1: CallbackPayload, p2: CallbackPayload)
    requires
        register_step(s, p1).1 is Ok,
        p2.idempotency_key@ == p1.idempotency_key@,
        payload_check(p2) is Ok,
    ensures
        ({
            let (s2, r1) = register_step(s, p1);
            let (s3, r2) = register_step(s2, p2);
            &&& r2 == r1
            &&& s3.same_storage(s2)
            &&& s3.record_live_until == s2.record_live_until
            &&& s3.events == s2.events
        }),
{
    let s2 = register_step(s, p1).0;
    let relay = s.relay_signer->0;
    assert(s2.last_heartbeats == s.last_heartbeats);
    assert(quarantined(s2, relay@) == quarantined(s, relay@));
    assert(s2.idempotency_lookup(p2.idempotency_key@) is Some);
}

/// Read-back: a first registration stores a `Pending` record built from the
/// payload and stamped with the current ledger, and records the payload's
/// idempotency key at that ledger as answering with the payload's id; the
/// record is kept live for at least `TRANSACTION_MIN_TTL_LEDGERS` ledgers.
pub proof fn law_registration_reads_back(s: EnvView, p: CallbackPayload)
    requires
        register_step(s, p).1 is Ok,
        s.idempotency_lookup(p.idempotency_key@) is None,
    ensures
        ({
            let s2 = register_step(s, p).0;
            &&& transaction_result(s2, p.transaction_id@) == Ok::<TransactionView, ContractError>(
                new_record(p, s.ledger_sequence),
            )
            &&& new_record(p, s.ledger_sequence).status == TransactionStatus::Pending
            &&& s2.idempotency_lookup(p.idempotency_key@) == Some(
                IdempotencyRecord { ledger: s.ledger_sequence, tx_id: p.transaction_id },
            )
            &&& s2.record_live_until[p.transaction_id@] >= s.ledger_sequence
                + TRANSACTION_MIN_TTL_LEDGERS
        }),
{
}

/// Time-to-live is never shortened: every record with a known time-to-live
/// keeps at least that much after any operation.
pub proof fn law_ttl_never_shrinks(s: EnvView, op: Operation)
    ensures
        forall|k: Seq<char>| #[trigger]
            s.record_live_until.contains_key(k) ==> apply(s, op).0.record_live_until.contains_key(
                k,
            ) && apply(s, op).0.record_live_until[k] >= s.record_live_until[k],
{
    lemma_ttl_op(s, op);
}

/// A record a status transition reads or writes stays live for at least
/// `TRANSACTION_MIN_TTL_LEDGERS` more ledgers, whether or not the
/// transition succeeds once the record was found.
pub proof fn law_touched_record_stays_live(
    s: EnvView,
    tx_id: String,
    text: String,
    caller: Address,
)
    requires
        s.wf(),
    ensures
        start_step(s, tx_id, caller).1 is Ok ==> start_step(s, tx_id, caller).0.record_live_until[tx_id@]
            >= s.ledger_sequence + TRANSACTION_MIN_TTL_LEDGERS,
        complete_step(s, tx_id, text, caller).1 is Ok ==> complete_step(
            s,
            tx_id,
            text,
            caller,
        ).0.record_live_until[tx_id@] >= s.ledger_sequence + TRANSACTION_MIN_TTL_LEDGERS,
        fail_step(s, tx_id, text, caller).1 is Ok ==> fail_step(
            s,
            tx_id,
            text,
            caller,
        ).0.record_live_until[tx_id@] >= s.ledger_sequence + TRANSACTION_MIN_TTL_LEDGERS,
{
}

/// A `Completed` or `Failed` record refuses every further transition.
pub proof fn law_terminal_refuses(s: EnvView, tx_id: String, text: String, caller: Address)
    requires
        s.transactions.contains_key(tx_id@),
        is_terminal(s.transactions[tx_id@].status),
    ensures
        start_step(s, tx_id, caller).1 is Err,
        complete_step(s, tx_id, text, caller).1 is Err,
        fail_step(s, tx_id, text, caller).1 is Err,
{
}

/// A registration never overwrites an existing record: whatever was stored
/// under the payload's transaction id is still stored there afterwards.
pub proof fn law_register_never_overwrites(s: EnvView, p: CallbackPayload)
    requires
        s.transactions.contains_key(p.transaction_id@),
    ensures
        register_step(s, p).0.transactions[p.transaction_id@] == s.transactions[p.transaction_id@],
        register_step(s, p).1 is Ok ==> s.idempotency_lookup(p.idempotency_key@) is Some,
{
}

/// Circuit breaker: while paused, every registration is refused with
/// `ContractPaused` and changes nothing.
pub proof fn law_pause_blocks_registration(s: EnvView, p: CallbackPayload)
    requires
        s.is_paused(),
    ensures
        register_step(s, p) == (s, Err::<String, ContractError>(ContractError::ContractPaused)),
{
}

/// The pause never blocks draining: each status transition gives the same
/// result and the same storage whether or not the pause is engaged.
pub proof fn law_transitions_ignore_pause(
    s: EnvView,
    paused: bool,
    tx_id: String,
    text: String,
    caller: Address,
)
    ensures
        ({
            let p = EnvView { paused: Some(paused), ..s };
            &&& start_step(p, tx_id, caller).1 == start_step(s, tx_id, caller).1
            &&& start_step(p, tx_id, caller).0.transactions == start_step(
                s,
                tx_id,
                caller,
            ).0.transactions
            &&& complete_step(p, tx_id, text, caller).1 == complete_step(s, tx_id, text, caller).1
            &&& complete_step(p, tx_id, text, caller).0.transactions == complete_step(
                s,
                tx_id,
                text,
                caller,
            ).0.transactions
            &&& fail_step(p, tx_id, text, caller).1 == fail_step(s, tx_id, text, caller).1
            &&& fail_step(p, tx_id, text, caller).0.transactions == fail_step(
                s,
                tx_id,
                text,
                caller,
            ).0.transactions
        }),
{
}

/// Pausing and unpausing are idempotent: repeating a successful call
/// succeeds again and leaves the flag as it was.
pub proof fn law_pause_idempotent(s: EnvView, paused: bool)
    requires
        toggle_pause_step(s, paused).1 is Ok,
    ensures
        ({
            let s1 = toggle_pause_step(s, paused).0;
            let s2 = toggle_pause_step(s1, paused).0;
            &&& toggle_pause_step(s1, paused).1 is Ok
            &&& s1.is_paused() == paused
            &&& s2.paused == s1.paused
            &&& s2.same_storage(s1)
        }),
{
}

/// `initialize` succeeds at most once.
pub proof fn law_initialize_once(s: EnvView, a1: Address, r1: Address, a2: Address, r2: Address)
    requires
        initialize_step(s, a1, r1).1 is Ok,
    ensures
        initialize_step(initialize_step(s, a1, r1).0, a2, r2).1 == Err::<(), ContractError>(
            ContractError::AlreadyInitialised,
        ),
{
}

/// Two-step transfer: a proposal leaves the admin in place; only the
/// nominee can accept, and accepting makes it the admin and clears the
/// nomination.
pub proof fn law_two_step_transfer(s: EnvView, nominee: Address, other: Address)
    requires
        propose_step(s, nominee).1 is Ok,
        other@ != nominee@,
    ensures
        ({
            let s1 = propose_step(s, nominee).0;
            &&& s1.admin == s.admin
            &&& accept_step(s1, other) == (s1, Err::<(), ContractError>(
                ContractError::Unauthorised,
            ))
            &&& accept_step(s1, nominee).1 is Ok
            &&& accept_step(s1, nominee).0.admin == Some(nominee)
            &&& accept_step(s1, nominee).0.pending_admin is None
        }),
{
}

/// Quorum: a successful revocation was approved by guardians only, with at
/// least M distinct addresses (M the configured quorum, at least 1), each
/// of whose authorisation was demanded once.
pub proof fn law_revocation_needs_quorum(s: EnvView, approvers: Seq<Address>)
    requires
        revoke_emergency_step(s, approvers).1 is Ok,
    ensures
        s.threshold() >= 1,
        forall|i: int| 0 <= i < approvers.len() ==> contains_address(s.guardian_list(), #[trigger] approvers[i]@),
        distinct_approvers(approvers).len() >= s.threshold(),
        forall|i: int, j: int|
            0 <= i < j < distinct_approvers(approvers).len() ==> #[trigger] distinct_approvers(
                approvers,
            )[i]@ != #[trigger] distinct_approvers(approvers)[j]@,
        revoke_emergency_step(s, approvers).0.auths == s.auths + distinct_approvers(approvers),
{
    lemma_all_guardians(approvers, s.guardian_list());
    lemma_distinct_unique(approvers);
}

/// One short of the quorum is refused: guardians-only approvals with fewer
/// than M distinct addresses fail with `QuorumNotMet` and write nothing.
pub proof fn law_short_quorum_refused(s: EnvView, approvers: Seq<Address>)
    requires
        s.threshold() >= 1,
        forall|i: int| 0 <= i < approvers.len() ==> contains_address(s.guardian_list(), #[trigger] approvers[i]@),
        distinct_approvers(approvers).len() < s.threshold(),
    ensures
        revoke_emergency_step(s, approvers).1 == Err::<(), ContractError>(
            ContractError::QuorumNotMet,
        ),
        revoke_emergency_step(s, approvers).0.same_storage(s),
{
    lemma_guardians_prefix_full(approvers, s.guardian_list());
}

/// Admin vacant: after a successful revocation the contract is paused, no
/// admin-gated call and no status transition gets past its gate (both fail
/// with `AdminVacant`), registration is refused, and no transfer can be
/// accepted.
pub proof fn law_vacant_fails_closed(
    s: EnvView,
    approvers: Seq<Address>,
    caller: Address,
    scope: RoleScope,
    p: CallbackPayload,
)
    requires
        revoke_emergency_step(s, approvers).1 is Ok,
    ensures
        ({
            let v = revoke_emergency_step(s, approvers).0;
            &&& v.is_paused()
            &&& admin_gate(v) == (v, Err::<Address, ContractError>(ContractError::AdminVacant))
            &&& scope_gate(v, caller, scope) == (v, Err::<(), ContractError>(
                ContractError::AdminVacant,
            ))
            &&& register_step(v, p).1 == Err::<String, ContractError>(
                ContractError::ContractPaused,
            )
            &&& accept_step(v, caller).1 == Err::<(), ContractError>(
                ContractError::NoPendingAdminTransfer,
            )
        }),
{
}

/// Scopes: after a grant, the grantee holds the scope, and granting again
/// changes nothing; after a revocation (on well-formed storage) the grantee
/// no longer holds it.
pub proof fn law_scope_grant_revoke(s: EnvView, who: Address, scope: RoleScope)
    requires
        s.wf(),
        admin_result(s) is Ok,
    ensures
        grant_step(s, who, scope).0.scopes_of(who@).contains(scope),
        grant_step(grant_step(s, who, scope).0, who, scope).0.scopes == grant_step(
            s,
            who,
            scope,
        ).0.scopes,
        !revoke_scope_step(s, who, scope).0.scopes_of(who@).contains(scope),
{
    let held = s.scopes_of(who@);
    assert(held.push(scope)[held.len() as int] == scope);
    held.index_of_first_ensures(scope);
    match held.index_of_first(scope) {
        Some(i) => {
            let out = held.remove(i);
            if out.contains(scope) {
                let x = choose|x: int| 0 <= x < out.len() && out[x] == scope;
                let xs = if x < i { x } else { x + 1 };
                assert(held[xs] == held[i]);
            }
        },
        None => {},
    }
}

/// Quarantine: a signer is never quarantined with the window at 0 or before
/// its first heartbeat, and is not quarantined right after a heartbeat or
/// after the admin cleared it.
pub proof fn law_quarantine(s: EnvView, signer: Address)
    ensures
        s.window() == 0 ==> !quarantined(s, signer@),
        !s.last_heartbeats.contains_key(signer@) ==> !quarantined(s, signer@),
        heartbeat_step(s, signer).1 is Ok ==> !quarantined(heartbeat_step(s, signer).0, signer@),
        clear_quarantine_step(s, signer).1 is Ok ==> !quarantined(
            clear_quarantine_step(s, signer).0,
            signer@,
        ),
{
}

/// A stored quorum always lies between 1 and the number of guardians.
pub proof fn law_threshold_bounds(s: EnvView, m: u32)
    requires
        set_threshold_step(s, m).1 is Ok,
    ensures
        1 <= set_threshold_step(s, m).0.threshold() <= s.guardian_list().len(),
{
}

/// The code is only replaced when the caller named the stored schema version.
pub proof fn law_upgrade_checks_schema(s: EnvView, hash: [u8; 32], expected: u32)
    requires
        upgrade_step(s, hash, expected).1 is Ok,
    ensures
        s.schema_version == Some(expected),
        upgrade_step(s, hash, expected).0.current_wasm == hash,
{
}

// ─── Lemmas ───────────────────────────────────────────────────────────────────

proof fn lemma_all_guardians(a: Seq<Address>, g: Seq<Address>)
    requires
        guardian_prefix(a, g) >= a.len(),
    ensures
        forall|i: int| 0 <= i < a.len() ==> contains_address(g, #[trigger] a[i]@),
    decreases a.len(),
{
    if a.len() > 0 {
        lemma_prefix_le(a.drop_last(), g);
        lemma_all_guardians(a.drop_last(), g);
        assert forall|i: int| 0 <= i < a.len() implies contains_address(g, #[trigger] a[i]@) by {
            if i < a.len() - 1 {
                assert(a[i] == a.drop_last()[i]);
            }
        }
    }
}

proof fn lemma_prefix_le(a: Seq<Address>, g: Seq<Address>)
    ensures
        guardian_prefix(a, g) <= a.len(),
    decreases a.len(),
{
    if a.len() > 0 {
        lemma_prefix_le(a.drop_last(), g);
    }
}

proof fn lemma_guardians_prefix_full(a: Seq<Address>, g: Seq<Address>)
    requires
        forall|i: int| 0 <= i < a.len() ==> contains_address(g, #[trigger] a[i]@),
    ensures
        guardian_prefix(a, g) == a.len(),
    decreases a.len(),
{
    if a.len() > 0 {
        assert forall|i: int| 0 <= i < a.drop_last().len() implies contains_address(
            g,
            #[trigger] a.drop_last()[i]@,
        ) by {
            assert(a.drop_last()[i] == a[i]);
        }
        lemma_guardians_prefix_full(a.drop_last(), g);
        assert(contains_address(g, a[a.len() - 1]@));
    }
}

proof fn lemma_distinct_unique(a: Seq<Address>)
    ensures
        forall|i: int, j: int|
            0 <= i < j < distinct_approvers(a).len() ==> #[trigger] distinct_approvers(a)[i]@
                != #[trigger] distinct_approvers(a)[j]@,
    decreases a.len(),
{
    if a.len() > 0 {
        lemma_distinct_unique(a.drop_last());
        let d = distinct_approvers(a.drop_last());
        if !contains_address(d, a.last()@) {
            let e = d.push(a.last());
            assert forall|i: int, j: int| 0 <= i < j < e.len() implies #[trigger] e[i]@
                != #[trigger] e[j]@ by {
                if j == d.len() {
                    assert(e[i] == d[i]);
                } else {
                    assert(e[i] == d[i]);
                    assert(e[j] == d[j]);
                }
            }
        }
    }
}


#[verifier::spinoff_prover]
#[verifier::rlimit(50)]
proof fn lemma_ttl_op(s: EnvView, op: Operation)
    ensures
        forall|k: Seq<char>| #[trigger]
            s.record_live_until.contains_key(k) ==> apply(s, op).0.record_live_until.contains_key(
                k,
            ) && apply(s, op).0.record_live_until[k] >= s.record_live_until[k],
{
    match op {
        Operation::RegisterCallback(p) => lemma_ttl_register(s, p),
        Operation::StartProcessing(id, c) => lemma_ttl_start(s, id, c),
        Operation::CompleteTransaction(id, h, c) => lemma_ttl_complete(s, id, h, c),
        Operation::FailTransaction(id, why, c) => lemma_ttl_fail(s, id, why, c),
        _ => {
            assert(apply(s, op).0.record_live_until == s.record_live_until);
        },
    }
}

proof fn lemma_ttl_register(s: EnvView, p: CallbackPayload)
    ensures
        forall|k: Seq<char>| #[trigger]
            s.record_live_until.contains_key(k) ==> register_step(
                s,
                p,
            ).0.record_live_until.contains_key(k) && register_step(s, p).0.record_live_until[k]
                >= s.record_live_until[k],
{
}

proof fn lemma_ttl_start(s: EnvView, id: String, c: Address)
    ensures
        forall|k: Seq<char>| #[trigger]
            s.record_live_until.contains_key(k) ==> start_step(
                s,
                id,
                c,
            ).0.record_live_until.contains_key(k) && start_step(s, id, c).0.record_live_until[k]
                >= s.record_live_until[k],
{
}

proof fn lemma_ttl_complete(s: EnvView, id: String, h: String, c: Address)
    ensures
        forall|k: Seq<char>| #[trigger]
            s.record_live_until.contains_key(k) ==> complete_step(
                s,
                id,
                h,
                c,
            ).0.record_live_until.contains_key(k) && complete_step(s, id, h, c).0.record_live_until[k]
                >= s.record_live_until[k],
{
}

proof fn lemma_ttl_fail(s: EnvView, id: String, why: String, c: Address)
    ensures
        forall|k: Seq<char>| #[trigger]
            s.record_live_until.contains_key(k) ==> fail_step(
                s,
                id,
                why,
                c,
            ).0.record_live_until.contains_key(k) && fail_step(s, id, why, c).0.record_live_until[k]
                >= s.record_live_until[k],
{
}

} // verus!
