use synapse_core::contract::SynapseCoreContract;
use synapse_core::env::{Env, IDEMPOTENCY_TTL_LEDGERS, TRANSACTION_MIN_TTL_LEDGERS};
use synapse_core::events::{
    ContractEvent, EventAdminRevokedEmergency, EventPauseToggled, EventStatusChanged,
    EventTransactionRegistered,
};
use synapse_core::types::{
    Address, CallbackPayload, CallbackType, ContractError, RoleScope, TransactionStatus,
    SCHEMA_VERSION,
};

fn account(c: char) -> String {
    let mut s = String::from("G");
    for _ in 0..55 {
        s.push(c);
    }
    s
}

fn addr(c: char) -> Address {
    Address::from_strkey(account(c))
}

fn contract_addr() -> Address {
    let mut s = String::from("C");
    for _ in 0..55 {
        s.push('Z');
    }
    Address::from_strkey(s)
}

fn admin() -> Address {
    addr('A')
}

fn relay() -> Address {
    addr('R')
}

fn fresh_env() -> Env {
    Env::new(contract_addr(), [7u8; 32], 100, 1_000)
}

fn ready_env() -> Env {
    let mut env = fresh_env();
    SynapseCoreContract::initialize(&mut env, admin(), relay()).unwrap();
    env
}

fn payload(id: &str, key: &str) -> CallbackPayload {
    CallbackPayload {
        transaction_id: id.to_string(),
        stellar_account: account('D'),
        amount: 10_000_000,
        asset_code: "USDC".to_string(),
        asset_issuer: account('I'),
        idempotency_key: key.to_string(),
        anchor_transaction_id: "anchor-1".to_string(),
        callback_type: CallbackType::Deposit,
        callback_status: "pending_external".to_string(),
    }
}

fn register(env: &mut Env, id: &str, key: &str) -> Result<String, ContractError> {
    SynapseCoreContract::register_callback(env, payload(id, key))
}

// ── Initialisation ──────────────────────────────────────────────────────────

#[test]
fn initialize_sets_roles_and_schema() {
    let env = ready_env();
    assert_eq!(SynapseCoreContract::admin(&env), Ok(admin()));
    assert_eq!(SynapseCoreContract::relay_signer(&env), Ok(relay()));
    assert_eq!(SynapseCoreContract::schema_version(&env), Ok(SCHEMA_VERSION));
    assert!(SynapseCoreContract::health(&env));
    assert!(!SynapseCoreContract::is_paused(&env));
    assert_eq!(env.events.len(), 1);
    assert_eq!(env.events[0].topic_name(), "init");
    assert!(env.auths.is_empty());
}

#[test]
fn initialize_only_once() {
    let mut env = ready_env();
    assert_eq!(
        SynapseCoreContract::initialize(&mut env, addr('X'), addr('Y')),
        Err(ContractError::AlreadyInitialised)
    );
    assert_eq!(SynapseCoreContract::admin(&env), Ok(admin()));
}

#[test]
fn queries_before_initialize() {
    let env = fresh_env();
    assert!(!SynapseCoreContract::health(&env));
    assert_eq!(SynapseCoreContract::admin(&env), Err(ContractError::NotInitialised));
    assert_eq!(SynapseCoreContract::relay_signer(&env), Err(ContractError::NotInitialised));
    assert_eq!(SynapseCoreContract::schema_version(&env), Err(ContractError::NotInitialised));
    assert_eq!(SynapseCoreContract::pending_admin(&env), None);
}

#[test]
fn register_before_initialize_fails() {
    let mut env = fresh_env();
    assert_eq!(register(&mut env, "tx-1", "k-1"), Err(ContractError::NotInitialised));
    assert!(env.auths.is_empty());
}

#[test]
fn version_is_package_version() {
    let env = fresh_env();
    assert_eq!(SynapseCoreContract::version(&env), "0.1.0".to_string());
}

// ── Registration ────────────────────────────────────────────────────────────

#[test]
fn register_stores_pending_record() {
    let mut env = ready_env();
    assert_eq!(register(&mut env, "tx-1", "k-1"), Ok("tx-1".to_string()));
    let tx = SynapseCoreContract::get_transaction(&mut env, "tx-1".to_string()).unwrap();
    assert_eq!(tx.status, TransactionStatus::Pending);
    assert_eq!(tx.amount, 10_000_000);
    assert_eq!(tx.created_at_ledger, 100);
    assert_eq!(tx.updated_at_ledger, 100);
    assert_eq!(tx.stellar_tx_hash, "");
    assert_eq!(tx.failure_reason, "");
    assert_eq!(tx.asset_code, "USDC");
    assert!(SynapseCoreContract::is_duplicate(&env, "k-1".to_string()));
    assert_eq!(env.auths, vec![relay()]);
    assert_eq!(
        env.events[1],
        ContractEvent::TransactionRegistered(EventTransactionRegistered {
            tx_id: "tx-1".to_string(),
            stellar_account: account('D'),
            amount: 10_000_000,
            asset_code: "USDC".to_string(),
            anchor_transaction_id: "anchor-1".to_string(),
            ledger: 100,
        })
    );
}

#[test]
fn replayed_key_returns_original_id_without_write() {
    let mut env = ready_env();
    register(&mut env, "tx-1", "k-1").unwrap();
    let events_before = env.events.len();
    let mut replay = payload("tx-1", "k-1");
    replay.amount = 1;
    assert_eq!(SynapseCoreContract::register_callback(&mut env, replay), Ok("tx-1".to_string()));
    assert_eq!(env.events.len(), events_before);
    let tx = SynapseCoreContract::get_transaction(&mut env, "tx-1".to_string()).unwrap();
    assert_eq!(tx.amount, 10_000_000);
}

#[test]
fn replayed_key_with_new_tx_id_returns_recorded_id() {
    let mut env = ready_env();
    register(&mut env, "tx-1", "k-1").unwrap();
    let events_before = env.events.len();
    assert_eq!(register(&mut env, "tx-2", "k-1"), Ok("tx-1".to_string()));
    assert_eq!(env.events.len(), events_before);
    assert_eq!(
        SynapseCoreContract::get_transaction(&mut env, "tx-2".to_string()),
        Err(ContractError::TransactionNotFound)
    );
    let rec = env.idempotency_keys.get("k-1").unwrap();
    assert_eq!(rec.tx_id, "tx-1");
    assert_eq!(rec.ledger, 100);
}

#[test]
fn replay_after_other_calls_gets_first_answer() {
    let mut env = ready_env();
    register(&mut env, "tx-1", "k-1").unwrap();
    register(&mut env, "tx-2", "k-2").unwrap();
    SynapseCoreContract::start_processing(&mut env, "tx-1".to_string(), relay()).unwrap();
    SynapseCoreContract::pause(&mut env).unwrap();
    SynapseCoreContract::unpause(&mut env).unwrap();
    SynapseCoreContract::heartbeat(&mut env, relay()).unwrap();
    assert_eq!(register(&mut env, "tx-9", "k-1"), Ok("tx-1".to_string()));
    assert_eq!(register(&mut env, "tx-1", "k-2"), Ok("tx-2".to_string()));
    assert_eq!(
        SynapseCoreContract::get_status(&mut env, "tx-1".to_string()),
        Ok(TransactionStatus::Processing)
    );
}

#[test]
fn record_reads_and_writes_keep_it_live() {
    let mut env = ready_env();
    register(&mut env, "tx-1", "k-1").unwrap();
    assert_eq!(env.record_live_until.get("tx-1"), Some(&(100u64 + TRANSACTION_MIN_TTL_LEDGERS as u64)));
    env.ledger_sequence = 5_000;
    SynapseCoreContract::get_status(&mut env, "tx-1".to_string()).unwrap();
    assert_eq!(env.record_live_until.get("tx-1"), Some(&(5_000u64 + TRANSACTION_MIN_TTL_LEDGERS as u64)));
    env.ledger_sequence = 4_000;
    SynapseCoreContract::get_transaction(&mut env, "tx-1".to_string()).unwrap();
    assert_eq!(env.record_live_until.get("tx-1"), Some(&(5_000u64 + TRANSACTION_MIN_TTL_LEDGERS as u64)));
    SynapseCoreContract::get_status(&mut env, "ghost".to_string()).unwrap_err();
    assert_eq!(env.record_live_until.get("ghost"), None);
}

#[test]
fn lengths_count_bytes() {
    let mut env = ready_env();
    let mut p = payload("tx-1", "k-1");
    p.asset_code = "\u{20ac}\u{20ac}\u{20ac}\u{20ac}".to_string();
    assert_eq!(SynapseCoreContract::register_callback(&mut env, p), Ok("tx-1".to_string()));
    let mut p = payload("tx-2", "k-2");
    p.asset_code = "\u{20ac}\u{20ac}\u{20ac}\u{20ac}\u{20ac}".to_string();
    assert_eq!(
        SynapseCoreContract::register_callback(&mut env, p),
        Err(ContractError::InvalidAssetCode)
    );
}

#[test]
fn reused_tx_id_with_fresh_key_is_rejected() {
    let mut env = ready_env();
    register(&mut env, "tx-1", "k-1").unwrap();
    assert_eq!(register(&mut env, "tx-1", "k-2"), Err(ContractError::DuplicateRequest));
}

#[test]
fn expired_key_does_not_allow_overwrite() {
    let mut env = ready_env();
    register(&mut env, "tx-1", "k-1").unwrap();
    SynapseCoreContract::start_processing(&mut env, "tx-1".to_string(), relay()).unwrap();
    env.ledger_sequence = 100 + IDEMPOTENCY_TTL_LEDGERS;
    assert!(SynapseCoreContract::is_duplicate(&env, "k-1".to_string()));
    env.ledger_sequence = 101 + IDEMPOTENCY_TTL_LEDGERS;
    assert!(!SynapseCoreContract::is_duplicate(&env, "k-1".to_string()));
    assert_eq!(register(&mut env, "tx-1", "k-1"), Err(ContractError::DuplicateRequest));
    assert_eq!(
        SynapseCoreContract::get_status(&mut env, "tx-1".to_string()),
        Ok(TransactionStatus::Processing)
    );
}

#[test]
fn unknown_transaction_is_not_found() {
    let mut env = ready_env();
    assert_eq!(
        SynapseCoreContract::get_status(&mut env, "nope".to_string()),
        Err(ContractError::TransactionNotFound)
    );
    assert!(!SynapseCoreContract::is_duplicate(&env, "nope".to_string()));
}

// ── Payload validation ──────────────────────────────────────────────────────

#[test]
fn invalid_account_rejected() {
    let mut env = ready_env();
    let mut p = payload("tx-1", "k-1");
    p.stellar_account = "GSHORT".to_string();
    assert_eq!(
        SynapseCoreContract::register_callback(&mut env, p),
        Err(ContractError::InvalidStellarAccount)
    );
    let mut p = payload("tx-1", "k-1");
    let mut s = account('D');
    s.replace_range(0..1, "X");
    p.stellar_account = s;
    assert_eq!(
        SynapseCoreContract::register_callback(&mut env, p),
        Err(ContractError::InvalidStellarAccount)
    );
    assert!(!SynapseCoreContract::is_duplicate(&env, "k-1".to_string()));
}

#[test]
fn non_positive_amount_rejected() {
    let mut env = ready_env();
    for amount in [0i128, -5] {
        let mut p = payload("tx-1", "k-1");
        p.amount = amount;
        assert_eq!(
            SynapseCoreContract::register_callback(&mut env, p),
            Err(ContractError::InvalidAmount)
        );
    }
}

#[test]
fn asset_code_bounds() {
    let mut env = ready_env();
    let mut p = payload("tx-1", "k-1");
    p.asset_code = String::new();
    assert_eq!(
        SynapseCoreContract::register_callback(&mut env, p),
        Err(ContractError::InvalidAssetCode)
    );
    let mut p = payload("tx-1", "k-1");
    p.asset_code = "ABCDEFGHIJKLM".to_string();
    assert_eq!(
        SynapseCoreContract::register_callback(&mut env, p),
        Err(ContractError::InvalidAssetCode)
    );
    let mut p = payload("tx-1", "k-1");
    p.asset_code = "ABCDEFGHIJKL".to_string();
    assert_eq!(SynapseCoreContract::register_callback(&mut env, p), Ok("tx-1".to_string()));
}

#[test]
fn invalid_issuer_rejected() {
    let mut env = ready_env();
    let mut p = payload("tx-1", "k-1");
    p.asset_issuer = String::new();
    assert_eq!(
        SynapseCoreContract::register_callback(&mut env, p),
        Err(ContractError::InvalidAssetIssuer)
    );
}

#[test]
fn empty_idempotency_key_rejected() {
    let mut env = ready_env();
    assert_eq!(register(&mut env, "tx-1", ""), Err(ContractError::MissingIdempotencyKey));
}

#[test]
fn overlong_field_rejected() {
    let mut env = ready_env();
    let mut p = payload("tx-1", "k-1");
    p.anchor_transaction_id = "a".repeat(129);
    assert_eq!(
        SynapseCoreContract::register_callback(&mut env, p),
        Err(ContractError::StringTooLong)
    );
    let mut p = payload("tx-1", "k-1");
    p.anchor_transaction_id = "a".repeat(128);
    assert_eq!(SynapseCoreContract::register_callback(&mut env, p), Ok("tx-1".to_string()));
}

// ── Lifecycle ───────────────────────────────────────────────────────────────

#[test]
fn full_lifecycle_to_completed() {
    let mut env = ready_env();
    register(&mut env, "tx-1", "k-1").unwrap();
    env.ledger_sequence = 120;
    SynapseCoreContract::start_processing(&mut env, "tx-1".to_string(), relay()).unwrap();
    assert_eq!(
        env.events.last(),
        Some(&ContractEvent::StatusChanged(EventStatusChanged {
            tx_id: "tx-1".to_string(),
            old_status: TransactionStatus::Pending,
            new_status: TransactionStatus::Processing,
            ledger: 120,
        }))
    );
    env.ledger_sequence = 130;
    SynapseCoreContract::complete_transaction(
        &mut env,
        "tx-1".to_string(),
        "ab".repeat(32),
        admin(),
    )
    .unwrap();
    let tx = SynapseCoreContract::get_transaction(&mut env, "tx-1".to_string()).unwrap();
    assert_eq!(tx.status, TransactionStatus::Completed);
    assert_eq!(tx.stellar_tx_hash, "ab".repeat(32));
    assert_eq!(tx.updated_at_ledger, 130);
    assert_eq!(tx.created_at_ledger, 100);
    assert_eq!(env.events.last().unwrap().topic_name(), "done");
}

#[test]
fn completed_is_terminal() {
    let mut env = ready_env();
    register(&mut env, "tx-1", "k-1").unwrap();
    SynapseCoreContract::start_processing(&mut env, "tx-1".to_string(), relay()).unwrap();
    SynapseCoreContract::complete_transaction(&mut env, "tx-1".to_string(), "h".to_string(), relay())
        .unwrap();
    assert_eq!(
        SynapseCoreContract::fail_transaction(&mut env, "tx-1".to_string(), "late".to_string(), relay()),
        Err(ContractError::InvalidStatusTransition)
    );
    assert_eq!(
        SynapseCoreContract::start_processing(&mut env, "tx-1".to_string(), relay()),
        Err(ContractError::InvalidStatusTransition)
    );
}

#[test]
fn complete_requires_processing() {
    let mut env = ready_env();
    register(&mut env, "tx-1", "k-1").unwrap();
    assert_eq!(
        SynapseCoreContract::complete_transaction(&mut env, "tx-1".to_string(), "h".to_string(), relay()),
        Err(ContractError::InvalidStatusTransition)
    );
}

#[test]
fn fail_from_pending_and_processing() {
    let mut env = ready_env();
    register(&mut env, "tx-1", "k-1").unwrap();
    register(&mut env, "tx-2", "k-2").unwrap();
    SynapseCoreContract::fail_transaction(&mut env, "tx-1".to_string(), "horizon_timeout".to_string(), relay())
        .unwrap();
    SynapseCoreContract::start_processing(&mut env, "tx-2".to_string(), relay()).unwrap();
    SynapseCoreContract::fail_transaction(&mut env, "tx-2".to_string(), "circuit_open".to_string(), relay())
        .unwrap();
    let tx1 = SynapseCoreContract::get_transaction(&mut env, "tx-1".to_string()).unwrap();
    assert_eq!(tx1.status, TransactionStatus::Failed);
    assert_eq!(tx1.failure_reason, "horizon_timeout");
    assert_eq!(
        SynapseCoreContract::get_status(&mut env, "tx-2".to_string()),
        Ok(TransactionStatus::Failed)
    );
    assert_eq!(
        SynapseCoreContract::fail_transaction(&mut env, "tx-2".to_string(), "again".to_string(), relay()),
        Err(ContractError::InvalidStatusTransition)
    );
}

#[test]
fn overlong_hash_and_reason_rejected() {
    let mut env = ready_env();
    register(&mut env, "tx-1", "k-1").unwrap();
    SynapseCoreContract::start_processing(&mut env, "tx-1".to_string(), relay()).unwrap();
    assert_eq!(
        SynapseCoreContract::complete_transaction(&mut env, "tx-1".to_string(), "h".repeat(65), relay()),
        Err(ContractError::StringTooLong)
    );
    assert_eq!(
        SynapseCoreContract::fail_transaction(&mut env, "tx-1".to_string(), "r".repeat(129), relay()),
        Err(ContractError::StringTooLong)
    );
}

#[test]
fn transition_of_unknown_tx() {
    let mut env = ready_env();
    assert_eq!(
        SynapseCoreContract::start_processing(&mut env, "ghost".to_string(), relay()),
        Err(ContractError::TransactionNotFound)
    );
}

// ── Scopes ──────────────────────────────────────────────────────────────────

#[test]
fn scopes_gate_transitions() {
    let mut env = ready_env();
    let worker = addr('W');
    register(&mut env, "tx-1", "k-1").unwrap();
    assert_eq!(
        SynapseCoreContract::start_processing(&mut env, "tx-1".to_string(), worker.clone()),
        Err(ContractError::Unauthorised)
    );
    SynapseCoreContract::grant_scope(&mut env, worker.clone(), RoleScope::StartProcessing).unwrap();
    SynapseCoreContract::grant_scope(&mut env, worker.clone(), RoleScope::StartProcessing).unwrap();
    assert!(SynapseCoreContract::has_scope(&env, worker.clone(), RoleScope::StartProcessing));
    assert!(!SynapseCoreContract::has_scope(&env, worker.clone(), RoleScope::FailTransaction));
    assert_eq!(env.scopes.get(worker.as_str()).unwrap().len(), 1);
    SynapseCoreContract::start_processing(&mut env, "tx-1".to_string(), worker.clone()).unwrap();
    assert_eq!(env.auths.last(), Some(&worker));
    SynapseCoreContract::revoke_scope(&mut env, worker.clone(), RoleScope::StartProcessing).unwrap();
    SynapseCoreContract::revoke_scope(&mut env, worker.clone(), RoleScope::StartProcessing).unwrap();
    assert!(!SynapseCoreContract::has_scope(&env, worker.clone(), RoleScope::StartProcessing));
    assert_eq!(
        SynapseCoreContract::complete_transaction(&mut env, "tx-1".to_string(), "h".to_string(), worker),
        Err(ContractError::Unauthorised)
    );
}

// ── Admin transfer ──────────────────────────────────────────────────────────

#[test]
fn two_step_admin_transfer() {
    let mut env = ready_env();
    let nominee = addr('N');
    SynapseCoreContract::propose_admin(&mut env, nominee.clone()).unwrap();
    assert_eq!(SynapseCoreContract::admin(&env), Ok(admin()));
    assert_eq!(SynapseCoreContract::pending_admin(&env), Some(nominee.clone()));
    assert_eq!(
        SynapseCoreContract::accept_admin(&mut env, addr('X')),
        Err(ContractError::Unauthorised)
    );
    SynapseCoreContract::accept_admin(&mut env, nominee.clone()).unwrap();
    assert_eq!(SynapseCoreContract::admin(&env), Ok(nominee.clone()));
    assert_eq!(SynapseCoreContract::pending_admin(&env), None);
    assert_eq!(env.auths.last(), Some(&nominee));
    assert_eq!(
        SynapseCoreContract::accept_admin(&mut env, nominee),
        Err(ContractError::NoPendingAdminTransfer)
    );
}

#[test]
fn self_nomination_rejected() {
    let mut env = ready_env();
    assert_eq!(
        SynapseCoreContract::propose_admin(&mut env, contract_addr()),
        Err(ContractError::InvalidAdminNominee)
    );
    assert_eq!(SynapseCoreContract::pending_admin(&env), None);
}

#[test]
fn relay_rotation() {
    let mut env = ready_env();
    SynapseCoreContract::set_relay_signer(&mut env, addr('S')).unwrap();
    assert_eq!(SynapseCoreContract::relay_signer(&env), Ok(addr('S')));
    assert_eq!(env.events.last().unwrap().topic_name(), "relay");
}

// ── Liveness ────────────────────────────────────────────────────────────────

#[test]
fn heartbeat_only_by_relay() {
    let mut env = ready_env();
    assert_eq!(
        SynapseCoreContract::heartbeat(&mut env, admin()),
        Err(ContractError::NotRelaySigner)
    );
    SynapseCoreContract::heartbeat(&mut env, relay()).unwrap();
    assert_eq!(env.last_heartbeats.get(relay().as_str()), Some(&1_000u64));
}

#[test]
fn stale_relay_is_quarantined() {
    let mut env = ready_env();
    SynapseCoreContract::heartbeat(&mut env, relay()).unwrap();
    assert!(!SynapseCoreContract::is_quarantined(&env, relay()));
    SynapseCoreContract::set_heartbeat_window(&mut env, 60).unwrap();
    env.ledger_timestamp = 1_060;
    assert!(!SynapseCoreContract::is_quarantined(&env, relay()));
    env.ledger_timestamp = 1_061;
    assert!(SynapseCoreContract::is_quarantined(&env, relay()));
    assert!(!SynapseCoreContract::is_quarantined(&env, addr('Q')));
    assert_eq!(register(&mut env, "tx-1", "k-1"), Err(ContractError::SignerQuarantined));
    SynapseCoreContract::clear_quarantine(&mut env, relay()).unwrap();
    assert!(!SynapseCoreContract::is_quarantined(&env, relay()));
    assert_eq!(register(&mut env, "tx-1", "k-1"), Ok("tx-1".to_string()));
}

#[test]
fn zero_window_never_quarantines() {
    let mut env = ready_env();
    SynapseCoreContract::heartbeat(&mut env, relay()).unwrap();
    env.ledger_timestamp = u64::MAX;
    assert!(!SynapseCoreContract::is_quarantined(&env, relay()));
}

// ── Upgrade ─────────────────────────────────────────────────────────────────

#[test]
fn upgrade_checks_schema_version() {
    let mut env = ready_env();
    assert_eq!(
        SynapseCoreContract::upgrade(&mut env, [9u8; 32], SCHEMA_VERSION + 1),
        Err(ContractError::SchemaVersionMismatch)
    );
    assert_eq!(env.current_wasm, [7u8; 32]);
    SynapseCoreContract::upgrade(&mut env, [9u8; 32], SCHEMA_VERSION).unwrap();
    assert_eq!(env.current_wasm, [9u8; 32]);
    assert_eq!(env.events.last().unwrap().topic_name(), "upgrade");
}

// ── Pause and guardians ─────────────────────────────────────────────────────

#[test]
fn pause_blocks_ingestion_but_not_transitions() {
    let mut env = ready_env();
    register(&mut env, "tx-1", "k-1").unwrap();
    SynapseCoreContract::pause(&mut env).unwrap();
    SynapseCoreContract::pause(&mut env).unwrap();
    assert!(SynapseCoreContract::is_paused(&env));
    assert_eq!(
        env.events.last(),
        Some(&ContractEvent::PauseToggled(EventPauseToggled { paused: true, admin: admin(), ledger: 100 }))
    );
    let auths = env.auths.len();
    assert_eq!(register(&mut env, "tx-2", "k-2"), Err(ContractError::ContractPaused));
    assert_eq!(env.auths.len(), auths);
    SynapseCoreContract::start_processing(&mut env, "tx-1".to_string(), relay()).unwrap();
    SynapseCoreContract::unpause(&mut env).unwrap();
    assert!(!SynapseCoreContract::is_paused(&env));
    assert_eq!(register(&mut env, "tx-2", "k-2"), Ok("tx-2".to_string()));
}

#[test]
fn guardian_threshold_bounds() {
    let mut env = ready_env();
    SynapseCoreContract::set_guardians(&mut env, vec![addr('1'), addr('2')]).unwrap();
    assert_eq!(SynapseCoreContract::guardians(&env), vec![addr('1'), addr('2')]);
    assert_eq!(
        SynapseCoreContract::set_guardian_threshold(&mut env, 0),
        Err(ContractError::QuorumNotMet)
    );
    assert_eq!(
        SynapseCoreContract::set_guardian_threshold(&mut env, 3),
        Err(ContractError::QuorumNotMet)
    );
    SynapseCoreContract::set_guardian_threshold(&mut env, 2).unwrap();
    assert_eq!(env.guardian_threshold, Some(2));
}

#[test]
fn guardian_pause() {
    let mut env = ready_env();
    SynapseCoreContract::set_guardians(&mut env, vec![addr('1')]).unwrap();
    assert_eq!(
        SynapseCoreContract::guardian_pause(&mut env, addr('2')),
        Err(ContractError::NotGuardian)
    );
    SynapseCoreContract::guardian_pause(&mut env, addr('1')).unwrap();
    assert!(SynapseCoreContract::is_paused(&env));
    assert_eq!(env.events.last().unwrap().topic_name(), "gpause");
}

#[test]
fn revocation_without_quorum_configured() {
    let mut env = ready_env();
    assert_eq!(
        SynapseCoreContract::revoke_admin_emergency(&mut env, vec![addr('1')]),
        Err(ContractError::QuorumNotMet)
    );
}

#[test]
fn revocation_rejects_non_guardian() {
    let mut env = ready_env();
    SynapseCoreContract::set_guardians(&mut env, vec![addr('1'), addr('2')]).unwrap();
    SynapseCoreContract::set_guardian_threshold(&mut env, 2).unwrap();
    let auths = env.auths.len();
    assert_eq!(
        SynapseCoreContract::revoke_admin_emergency(&mut env, vec![addr('1'), addr('9'), addr('2')]),
        Err(ContractError::NotGuardian)
    );
    assert_eq!(env.auths.len(), auths + 1);
    assert_eq!(SynapseCoreContract::admin(&env), Ok(admin()));
}

#[test]
fn revocation_one_short_of_quorum() {
    let mut env = ready_env();
    SynapseCoreContract::set_guardians(&mut env, vec![addr('1'), addr('2'), addr('3')]).unwrap();
    SynapseCoreContract::set_guardian_threshold(&mut env, 2).unwrap();
    assert_eq!(
        SynapseCoreContract::revoke_admin_emergency(&mut env, vec![addr('1'), addr('1')]),
        Err(ContractError::QuorumNotMet)
    );
    assert_eq!(SynapseCoreContract::admin(&env), Ok(admin()));
    assert!(!SynapseCoreContract::is_paused(&env));
}

#[test]
fn revocation_vacates_admin_and_fails_closed() {
    let mut env = ready_env();
    register(&mut env, "tx-1", "k-1").unwrap();
    SynapseCoreContract::propose_admin(&mut env, addr('N')).unwrap();
    SynapseCoreContract::set_guardians(&mut env, vec![addr('1'), addr('2'), addr('3')]).unwrap();
    SynapseCoreContract::set_guardian_threshold(&mut env, 2).unwrap();
    let auths = env.auths.len();
    SynapseCoreContract::revoke_admin_emergency(&mut env, vec![addr('2'), addr('1'), addr('2')])
        .unwrap();
    assert_eq!(env.auths.len(), auths + 2);
    assert_eq!(
        env.events.last(),
        Some(&ContractEvent::AdminRevokedEmergency(EventAdminRevokedEmergency {
            admin: admin(),
            approvals: 2,
            ledger: 100,
        }))
    );
    assert!(SynapseCoreContract::is_paused(&env));
    assert_eq!(SynapseCoreContract::admin(&env), Err(ContractError::AdminVacant));
    assert_eq!(SynapseCoreContract::pending_admin(&env), None);
    assert_eq!(SynapseCoreContract::unpause(&mut env), Err(ContractError::AdminVacant));
    assert_eq!(SynapseCoreContract::pause(&mut env), Err(ContractError::AdminVacant));
    assert_eq!(
        SynapseCoreContract::start_processing(&mut env, "tx-1".to_string(), relay()),
        Err(ContractError::AdminVacant)
    );
    assert_eq!(
        SynapseCoreContract::accept_admin(&mut env, addr('N')),
        Err(ContractError::NoPendingAdminTransfer)
    );
    assert_eq!(register(&mut env, "tx-2", "k-2"), Err(ContractError::ContractPaused));
    SynapseCoreContract::heartbeat(&mut env, relay()).unwrap();
    SynapseCoreContract::guardian_pause(&mut env, addr('3')).unwrap();
    assert_eq!(
        SynapseCoreContract::get_status(&mut env, "tx-1".to_string()),
        Ok(TransactionStatus::Pending)
    );
}

// ── Wire format ─────────────────────────────────────────────────────────────

#[test]
fn error_codes() {
    assert_eq!(ContractError::AlreadyInitialised.code(), 1);
    assert_eq!(ContractError::NotInitialised.code(), 2);
    assert_eq!(ContractError::Unauthorised.code(), 10);
    assert_eq!(ContractError::NotRelaySigner.code(), 11);
    assert_eq!(ContractError::ContractPaused.code(), 12);
    assert_eq!(ContractError::NoPendingAdminTransfer.code(), 13);
    assert_eq!(ContractError::InvalidAdminNominee.code(), 14);
    assert_eq!(ContractError::InvalidStellarAccount.code(), 20);
    assert_eq!(ContractError::InvalidAmount.code(), 21);
    assert_eq!(ContractError::InvalidAssetCode.code(), 22);
    assert_eq!(ContractError::InvalidAssetIssuer.code(), 23);
    assert_eq!(ContractError::MissingIdempotencyKey.code(), 24);
    assert_eq!(ContractError::StringTooLong.code(), 25);
    assert_eq!(ContractError::TransactionNotFound.code(), 30);
    assert_eq!(ContractError::InvalidStatusTransition.code(), 31);
    assert_eq!(ContractError::DuplicateRequest.code(), 40);
    assert_eq!(ContractError::StorageError.code(), 50);
    assert_eq!(ContractError::SchemaVersionMismatch.code(), 60);
    assert_eq!(ContractError::SignerQuarantined.code(), 300);
    assert_eq!(ContractError::NotGuardian.code(), 301);
    assert_eq!(ContractError::QuorumNotMet.code(), 302);
    assert_eq!(ContractError::AdminVacant.code(), 303);
}

#[test]
fn address_equality_is_by_strkey() {
    let a = Address::from_strkey(account('A'));
    let b = Address::from_strkey(account('A'));
    assert!(a.equals(&b));
    assert!(!a.equals(&addr('B')));
    assert_eq!(a.to_strkey(), account('A'));
}
