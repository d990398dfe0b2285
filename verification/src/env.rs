//! The ledger environment a contract invocation runs against: the ledger's
//! sequence and time, the contract's storage (instance, persistent and
//! temporary entries), the events published so far, and the addresses whose
//! authorisation the invocation has demanded.
//!
//! An invocation is valid only if every address in `auths` authorised it;
//! the host aborts the whole invocation otherwise, so none of its writes or
//! events survive.

use vstd::prelude::*;
use vstd::hash_map::StringHashMap;

use crate::events::ContractEvent;
use crate::types::{Address, IdempotencyRecord, RoleScope, Transaction, TransactionView};

verus! {

/// Number of ledgers an idempotency key stays live after it was recorded
/// (about 24 hours at 5 s per ledger, rounded up).
pub const IDEMPOTENCY_TTL_LEDGERS: u32 = 18_000;

/// Number of ledgers a transaction record is kept live for each time it is
/// read or written (about a week).
pub const TRANSACTION_MIN_TTL_LEDGERS: u32 = 100_000;

/// The contract's environment and storage.
pub struct Env {
    /// Address of the running contract.
    pub contract_address: Address,
    /// Current ledger sequence number.
    pub ledger_sequence: u32,
    /// Current ledger close time, in seconds.
    pub ledger_timestamp: u64,
    /// Hash of the code the contract currently runs.
    pub current_wasm: [u8; 32],
    // ── instance storage ──
    /// Set once `initialize` has run.
    pub initialised: bool,
    /// Emergency pause flag; absent means not paused.
    pub paused: Option<bool>,
    // ── persistent storage ──
    pub admin: Option<Address>,
    pub relay_signer: Option<Address>,
    pub pending_admin: Option<Address>,
    pub schema_version: Option<u32>,
    /// Transaction records, keyed by transaction id.
    pub transactions: StringHashMap<Transaction>,
    /// Last ledger up to which each transaction record is kept live (its
    /// time-to-live), keyed by transaction id; absent when not known.
    pub record_live_until: StringHashMap<u64>,
    /// Last heartbeat time of each signer, keyed by the signer's strkey.
    pub last_heartbeats: StringHashMap<u64>,
    /// Heartbeat staleness window in seconds; absent or 0 disables quarantine.
    pub heartbeat_window: Option<u64>,
    /// Granted role scopes, keyed by the grantee's strkey.
    pub scopes: StringHashMap<Vec<RoleScope>>,
    pub guardians: Option<Vec<Address>>,
    pub guardian_threshold: Option<u32>,
    /// Set once the admin was revoked by guardian quorum.
    pub admin_vacant: bool,
    // ── temporary storage ──
    /// Idempotency keys, each with the ledger at which it was recorded and
    /// the transaction id it answers with.
    pub idempotency_keys: StringHashMap<IdempotencyRecord>,
    // ── invocation record ──
    /// Events published, in order.
    pub events: Vec<ContractEvent>,
    /// Addresses whose authorisation was demanded, in order.
    pub auths: Vec<Address>,
}

/// The abstract value of an [`Env`].
#[verifier::ext_equal]
pub struct EnvView {
    pub contract_address: Address,
    pub ledger_sequence: u32,
    pub ledger_timestamp: u64,
    pub current_wasm: [u8; 32],
    pub initialised: bool,
    pub paused: Option<bool>,
    pub admin: Option<Address>,
    pub relay_signer: Option<Address>,
    pub pending_admin: Option<Address>,
    pub schema_version: Option<u32>,
    pub transactions: Map<Seq<char>, TransactionView>,
    pub record_live_until: Map<Seq<char>, u64>,
    pub last_heartbeats: Map<Seq<char>, u64>,
    pub heartbeat_window: Option<u64>,
    pub scopes: Map<Seq<char>, Seq<RoleScope>>,
    pub guardians: Option<Seq<Address>>,
    pub guardian_threshold: Option<u32>,
    pub admin_vacant: bool,
    pub idempotency_keys: Map<Seq<char>, IdempotencyRecord>,
    pub events: Seq<ContractEvent>,
    pub auths: Seq<Address>,
}

impl View for Env {
    type V = EnvView;

    open spec fn view(&self) -> EnvView {
        EnvView {
            contract_address: self.contract_address,
            ledger_sequence: self.ledger_sequence,
            ledger_timestamp: self.ledger_timestamp,
            current_wasm: self.current_wasm,
            initialised: self.initialised,
            paused: self.paused,
            admin: self.admin,
            relay_signer: self.relay_signer,
            pending_admin: self.pending_admin,
            schema_version: self.schema_version,
            transactions: self.transactions@.map_values(|t: Transaction| t@),
            record_live_until: self.record_live_until@,
            last_heartbeats: self.last_heartbeats@,
            heartbeat_window: self.heartbeat_window,
            scopes: self.scopes@.map_values(|v: Vec<RoleScope>| v@),
            guardians: match self.guardians {
                Some(g) => Some(g@),
                None => None,
            },
            guardian_threshold: self.guardian_threshold,
            admin_vacant: self.admin_vacant,
            idempotency_keys: self.idempotency_keys@,
            events: self.events@,
            auths: self.auths@,
        }
    }
}

impl EnvView {
    /// Well-formed storage: every record is stored under its own id, and no
    /// grantee holds a scope twice.
    pub open spec fn wf(self) -> bool {
        &&& forall|k: Seq<char>| #[trigger]
            self.transactions.contains_key(k) ==> self.transactions[k].id == k
        &&& forall|k: Seq<char>| #[trigger]
            self.scopes.contains_key(k) ==> self.scopes[k].no_duplicates()
    }

    /// The storage entries of two environments agree: everything but the
    /// ledger information, the records' time-to-live, and the invocation record.
    pub open spec fn same_storage(self, other: EnvView) -> bool {
        &&& self.current_wasm == other.current_wasm
        &&& self.initialised == other.initialised
        &&& self.paused == other.paused
        &&& self.admin == other.admin
        &&& self.relay_signer == other.relay_signer
        &&& self.pending_admin == other.pending_admin
        &&& self.schema_version == other.schema_version
        &&& self.transactions == other.transactions
        &&& self.last_heartbeats == other.last_heartbeats
        &&& self.heartbeat_window == other.heartbeat_window
        &&& self.scopes == other.scopes
        &&& self.guardians == other.guardians
        &&& self.guardian_threshold == other.guardian_threshold
        &&& self.admin_vacant == other.admin_vacant
        &&& self.idempotency_keys == other.idempotency_keys
    }

    /// The pause flag, false when never written.
    pub open spec fn is_paused(self) -> bool {
        match self.paused {
            Some(b) => b,
            None => false,
        }
    }

    /// The heartbeat window, 0 when never written.
    pub open spec fn window(self) -> u64 {
        match self.heartbeat_window {
            Some(w) => w,
            None => 0,
        }
    }

    /// The guardian quorum, 0 when never written.
    pub open spec fn threshold(self) -> u32 {
        match self.guardian_threshold {
            Some(m) => m,
            None => 0,
        }
    }

    /// The guardian set, empty when never written.
    pub open spec fn guardian_list(self) -> Seq<Address> {
        match self.guardians {
            Some(g) => g,
            None => Seq::empty(),
        }
    }

    /// The scopes granted to `who`, empty when none.
    pub open spec fn scopes_of(self, who: Seq<char>) -> Seq<RoleScope> {
        if self.scopes.contains_key(who) {
            self.scopes[who]
        } else {
            Seq::empty()
        }
    }

    /// An idempotency key recorded at `stored` is live at ledger `now`.
    pub open spec fn key_live(now: u32, stored: u32) -> bool {
        now <= stored + IDEMPOTENCY_TTL_LEDGERS
    }

    /// What `key` remembers, if it is still live.
    pub open spec fn idempotency_lookup(self, key: Seq<char>) -> Option<IdempotencyRecord> {
        if self.idempotency_keys.contains_key(key) && EnvView::key_live(
            self.ledger_sequence,
            self.idempotency_keys[key].ledger,
        ) {
            Some(self.idempotency_keys[key])
        } else {
            None
        }
    }

    /// The last ledger up to which the record under `k` is kept live after
    /// it was read or written now: at least `TRANSACTION_MIN_TTL_LEDGERS`
    /// ledgers ahead, never shortened.
    pub open spec fn bumped_live_until(self, k: Seq<char>) -> u64 {
        let target = self.ledger_sequence + TRANSACTION_MIN_TTL_LEDGERS;
        if self.record_live_until.contains_key(k) && self.record_live_until[k] >= target {
            self.record_live_until[k]
        } else {
            target as u64
        }
    }

    /// The environment after the record under `k` was read or written.
    pub open spec fn with_record_bumped(self, k: Seq<char>) -> EnvView {
        EnvView {
            record_live_until: self.record_live_until.insert(k, self.bumped_live_until(k)),
            ..self
        }
    }

    /// The environment after `a`'s authorisation was demanded.
    pub open spec fn with_auth(self, a: Address) -> EnvView {
        EnvView { auths: self.auths.push(a), ..self }
    }

    /// The environment after `e` was published.
    pub open spec fn with_event(self, e: ContractEvent) -> EnvView {
        EnvView { events: self.events.push(e), ..self }
    }
}

impl Env {
    /// A freshly deployed contract at `contract_address`, running the code
    /// `wasm_hash`, with empty storage, at the given ledger.
    pub fn new(
        contract_address: Address,
        wasm_hash: [u8; 32],
        ledger_sequence: u32,
        ledger_timestamp: u64,
    ) -> (r: Env)
        ensures
            r@.contract_address == contract_address,
            r@.current_wasm == wasm_hash,
            r@.ledger_sequence == ledger_sequence,
            r@.ledger_timestamp == ledger_timestamp,
            !r@.initialised,
            r@.paused is None,
            r@.admin is None,
            r@.relay_signer is None,
            r@.pending_admin is None,
            r@.schema_version is None,
            r@.transactions == Map::<Seq<char>, TransactionView>::empty(),
            r@.last_heartbeats == Map::<Seq<char>, u64>::empty(),
            r@.heartbeat_window is None,
            r@.scopes == Map::<Seq<char>, Seq<RoleScope>>::empty(),
            r@.guardians is None,
            r@.guardian_threshold is None,
            !r@.admin_vacant,
            r@.idempotency_keys == Map::<Seq<char>, IdempotencyRecord>::empty(),
            r@.record_live_until == Map::<Seq<char>, u64>::empty(),
            r@.events == Seq::<ContractEvent>::empty(),
            r@.auths == Seq::<Address>::empty(),
            r@.wf(),
    {
        let r = Env {
            contract_address,
            ledger_sequence,
            ledger_timestamp,
            current_wasm: wasm_hash,
            initialised: false,
            paused: None,
            admin: None,
            relay_signer: None,
            pending_admin: None,
            schema_version: None,
            transactions: StringHashMap::new(),
            record_live_until: StringHashMap::new(),
            last_heartbeats: StringHashMap::new(),
            heartbeat_window: None,
            scopes: StringHashMap::new(),
            guardians: None,
            guardian_threshold: None,
            admin_vacant: false,
            idempotency_keys: StringHashMap::new(),
            events: Vec::new(),
            auths: Vec::new(),
        };
        assert(r@.scopes =~= Map::<Seq<char>, Seq<RoleScope>>::empty());
        assert(r@.transactions =~= Map::<Seq<char>, TransactionView>::empty());
        r
    }

    /// Demands `address`'s authorisation for this invocation.
    pub fn require_auth(&mut self, address: &Address)
        ensures
            final(self)@ == old(self)@.with_auth(*address),
    {
        self.auths.push(address.clone());
    }

    /// Replaces the code the contract runs.
    pub fn update_current_contract_wasm(&mut self, wasm_hash: [u8; 32])
        ensures
            final(self)@ == (EnvView { current_wasm: wasm_hash, ..old(self)@ }),
    {
        self.current_wasm = wasm_hash;
    }

    /// Records `event` as published by this invocation.
    pub fn publish(&mut self, event: ContractEvent)
        ensures
            final(self)@ == old(self)@.with_event(event),
    {
        self.events.push(event);
    }
}

} // verus!
