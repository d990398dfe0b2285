//! Domain types of the transaction registry: the transaction record, its
//! lifecycle status, the callback payload forwarded by the relay, role
//! scopes, account addresses and the contract's error codes.

use vstd::prelude::*;

verus! {

/// Current on-chain storage schema version.
///
/// `initialize` stores it; `upgrade` requires callers to pass the value that is
/// currently stored before it replaces the contract code.
pub const SCHEMA_VERSION: u32 = 1;

// ─── Addresses ────────────────────────────────────────────────────────────────

/// An account or contract address, held as its strkey text
/// (`G…` for accounts, `C…` for contracts).
///
/// Two addresses denote the same account exactly when their strkeys are
/// equal, so the abstract value of an address is its strkey.
#[derive(Debug, PartialEq, Eq)]
pub struct Address {
    strkey: String,
}

impl View for Address {
    type V = Seq<char>;

    closed spec fn view(&self) -> Seq<char> {
        self.strkey@
    }
}

impl Clone for Address {
    fn clone(&self) -> (r: Self)
        ensures
            r == *self,
    {
        Address { strkey: self.strkey.clone() }
    }
}

impl Address {
    /// Builds the address whose strkey is `strkey`.
    pub fn from_strkey(strkey: String) -> (r: Address)
        ensures
            r@ == strkey@,
    {
        Address { strkey }
    }

    /// The strkey text of this address.
    pub fn as_str(&self) -> (r: &str)
        ensures
            r@ == self@,
    {
        self.strkey.as_str()
    }

    /// A fresh copy of the strkey text of this address.
    pub fn to_strkey(&self) -> (r: String)
        ensures
            r@ == self@,
    {
        self.strkey.clone()
    }

    /// Whether `self` and `other` denote the same address.
    pub fn equals(&self, other: &Address) -> (r: bool)
        ensures
            r == (self@ == other@),
    {
        self.strkey == other.strkey
    }
}

/// Whether `list` holds an address equal to `a`.
pub open spec fn contains_address(list: Seq<Address>, a: Seq<char>) -> bool {
    exists|i: int| 0 <= i < list.len() && #[trigger] list[i]@ == a
}

/// Whether `list` holds an address equal to `a` (linear scan).
pub fn vec_contains_address(list: &Vec<Address>, a: &Address) -> (r: bool)
    ensures
        r == contains_address(list@, a@),
{
    let mut i: usize = 0;
    while i < list.len()
        invariant
            i <= list@.len(),
            forall|j: int| 0 <= j < i ==> list@[j]@ != a@,
        decreases list@.len() - i,
    {
        if list[i].equals(a) {
            return true;
        }
        i = i + 1;
    }
    false
}

/// An element-by-element copy of a list of addresses.
pub fn copy_addresses(list: &Vec<Address>) -> (r: Vec<Address>)
    ensures
        r@ == list@,
{
    let mut out: Vec<Address> = Vec::new();
    let mut i: usize = 0;
    while i < list.len()
        invariant
            i <= list@.len(),
            out@ == list@.subrange(0, i as int),
        decreases list@.len() - i,
    {
        out.push(list[i].clone());
        i = i + 1;
    }
    assert(list@.subrange(0, list@.len() as int) =~= list@);
    out
}

// ─── Transaction status ───────────────────────────────────────────────────────

/// Lifecycle status of a transaction.
///
/// ```text
/// Pending ──► Processing ──► Completed
///         └──────────────► Failed
/// ```
#[derive(Clone, Copy, PartialEq, Eq, Structural, Debug)]
pub enum TransactionStatus {
    /// Callback received, not yet picked up by the processor.
    Pending,
    /// The off-chain processor has claimed the job.
    Processing,
    /// Settlement confirmed.
    Completed,
    /// Terminal failure; the reason is stored with the record.
    Failed,
}

/// The single steps of the lifecycle: `Pending → Processing`,
/// `Processing → Completed`, and `Pending | Processing → Failed`.
pub open spec fn status_step(from: TransactionStatus, to: TransactionStatus) -> bool {
    ||| from == TransactionStatus::Pending && to == TransactionStatus::Processing
    ||| from == TransactionStatus::Processing && to == TransactionStatus::Completed
    ||| (from == TransactionStatus::Pending || from == TransactionStatus::Processing) && to
        == TransactionStatus::Failed
}

/// `to` is `from` or lies after it on the lifecycle.
pub open spec fn status_reachable(from: TransactionStatus, to: TransactionStatus) -> bool {
    ||| from == to
    ||| status_step(from, to)
    ||| from == TransactionStatus::Pending && to == TransactionStatus::Completed
}

/// `Completed` and `Failed` admit no further step.
pub open spec fn is_terminal(s: TransactionStatus) -> bool {
    s == TransactionStatus::Completed || s == TransactionStatus::Failed
}

// ─── Callback type ────────────────────────────────────────────────────────────

/// The `callback_type` field of an anchor webhook.
#[derive(Clone, Copy, PartialEq, Eq, Structural, Debug)]
pub enum CallbackType {
    Deposit,
    Withdrawal,
}

// ─── Transaction record ───────────────────────────────────────────────────────

/// The stored record of one registered callback.
#[derive(Debug, PartialEq, Eq)]
pub struct Transaction {
    /// Unique identifier generated off-chain; the record is stored under it.
    pub id: String,
    /// Account of the depositor.
    pub stellar_account: String,
    /// Amount in stroops.
    pub amount: i128,
    /// Asset code, e.g. "USDC".
    pub asset_code: String,
    /// Issuer of the asset.
    pub asset_issuer: String,
    /// Current lifecycle status.
    pub status: TransactionStatus,
    /// Ledger sequence at registration.
    pub created_at_ledger: u32,
    /// Ledger sequence of the last status update.
    pub updated_at_ledger: u32,
    /// Identifier assigned by the anchor platform.
    pub anchor_transaction_id: String,
    /// Deposit or withdrawal.
    pub callback_type: CallbackType,
    /// Raw status string received from the anchor platform.
    pub callback_status: String,
    /// Settlement hash; empty until the record is `Completed`.
    pub stellar_tx_hash: String,
    /// Failure code; empty unless the record is `Failed`.
    pub failure_reason: String,
}

impl Clone for Transaction {
    fn clone(&self) -> (r: Self)
        ensures
            r == *self,
    {
        Transaction {
            id: self.id.clone(),
            stellar_account: self.stellar_account.clone(),
            amount: self.amount,
            asset_code: self.asset_code.clone(),
            asset_issuer: self.asset_issuer.clone(),
            status: self.status,
            created_at_ledger: self.created_at_ledger,
            updated_at_ledger: self.updated_at_ledger,
            anchor_transaction_id: self.anchor_transaction_id.clone(),
            callback_type: self.callback_type,
            callback_status: self.callback_status.clone(),
            stellar_tx_hash: self.stellar_tx_hash.clone(),
            failure_reason: self.failure_reason.clone(),
        }
    }
}

/// The abstract value of a [`Transaction`]: its text fields as character
/// sequences.
pub struct TransactionView {
    pub id: Seq<char>,
    pub stellar_account: Seq<char>,
    pub amount: i128,
    pub asset_code: Seq<char>,
    pub asset_issuer: Seq<char>,
    pub status: TransactionStatus,
    pub created_at_ledger: u32,
    pub updated_at_ledger: u32,
    pub anchor_transaction_id: Seq<char>,
    pub callback_type: CallbackType,
    pub callback_status: Seq<char>,
    pub stellar_tx_hash: Seq<char>,
    pub failure_reason: Seq<char>,
}

impl View for Transaction {
    type V = TransactionView;

    open spec fn view(&self) -> TransactionView {
        TransactionView {
            id: self.id@,
            stellar_account: self.stellar_account@,
            amount: self.amount,
            asset_code: self.asset_code@,
            asset_issuer: self.asset_issuer@,
            status: self.status,
            created_at_ledger: self.created_at_ledger,
            updated_at_ledger: self.updated_at_ledger,
            anchor_transaction_id: self.anchor_transaction_id@,
            callback_type: self.callback_type,
            callback_status: self.callback_status@,
            stellar_tx_hash: self.stellar_tx_hash@,
            failure_reason: self.failure_reason@,
        }
    }
}

/// The fields of a record that no status transition may change: everything
/// but the status, the update ledger, the settlement hash and the failure reason.
pub open spec fn same_identity(a: TransactionView, b: TransactionView) -> bool {
    &&& a.id == b.id
    &&& a.stellar_account == b.stellar_account
    &&& a.amount == b.amount
    &&& a.asset_code == b.asset_code
    &&& a.asset_issuer == b.asset_issuer
    &&& a.created_at_ledger == b.created_at_ledger
    &&& a.anchor_transaction_id == b.anchor_transaction_id
    &&& a.callback_type == b.callback_type
    &&& a.callback_status == b.callback_status
}

// ─── Incoming payload ─────────────────────────────────────────────────────────

/// The callback forwarded by the trusted relay signer to `register_callback`.
#[derive(Debug, PartialEq, Eq)]
pub struct CallbackPayload {
    pub transaction_id: String,
    pub stellar_account: String,
    pub amount: i128,
    pub asset_code: String,
    pub asset_issuer: String,
    /// Deduplication key of the webhook delivery.
    pub idempotency_key: String,
    pub anchor_transaction_id: String,
    pub callback_type: CallbackType,
    pub callback_status: String,
}

impl Clone for CallbackPayload {
    fn clone(&self) -> (r: Self)
        ensures
            r == *self,
    {
        CallbackPayload {
            transaction_id: self.transaction_id.clone(),
            stellar_account: self.stellar_account.clone(),
            amount: self.amount,
            asset_code: self.asset_code.clone(),
            asset_issuer: self.asset_issuer.clone(),
            idempotency_key: self.idempotency_key.clone(),
            anchor_transaction_id: self.anchor_transaction_id.clone(),
            callback_type: self.callback_type,
            callback_status: self.callback_status.clone(),
        }
    }
}

// ─── Idempotency records ──────────────────────────────────────────────────────

/// What an idempotency key remembers: the ledger at which it was recorded,
/// and the id of the transaction its first delivery answered with.
#[derive(Debug, PartialEq, Eq)]
pub struct IdempotencyRecord {
    pub ledger: u32,
    pub tx_id: String,
}

impl Clone for IdempotencyRecord {
    fn clone(&self) -> (r: Self)
        ensures
            r == *self,
    {
        IdempotencyRecord { ledger: self.ledger, tx_id: self.tx_id.clone() }
    }
}

// ─── Role scopes ──────────────────────────────────────────────────────────────

/// Narrow lifecycle permissions that the admin can grant to other addresses.
/// The relay signer and the admin implicitly hold every scope.
#[derive(Clone, Copy, PartialEq, Eq, Structural, Debug)]
pub enum RoleScope {
    /// May call `start_processing`.
    StartProcessing,
    /// May call `complete_transaction`.
    CompleteTransaction,
    /// May call `fail_transaction`.
    FailTransaction,
}

// ─── Errors ───────────────────────────────────────────────────────────────────

/// Every error the contract returns; `code` gives the number under which
/// clients decode it.
#[derive(Clone, Copy, PartialEq, Eq, Structural, Debug)]
pub enum ContractError {
    AlreadyInitialised,
    NotInitialised,
    Unauthorised,
    NotRelaySigner,
    ContractPaused,
    NoPendingAdminTransfer,
    InvalidAdminNominee,
    InvalidStellarAccount,
    InvalidAmount,
    InvalidAssetCode,
    InvalidAssetIssuer,
    MissingIdempotencyKey,
    StringTooLong,
    TransactionNotFound,
    InvalidStatusTransition,
    DuplicateRequest,
    StorageError,
    SchemaVersionMismatch,
    QuorumNotMet,
    AdminVacant,
    NotGuardian,
    SignerQuarantined,
}

/// The wire code of each error.
pub open spec fn error_code(e: ContractError) -> u32 {
    match e {
        ContractError::AlreadyInitialised => 1,
        ContractError::NotInitialised => 2,
        ContractError::Unauthorised => 10,
        ContractError::NotRelaySigner => 11,
        ContractError::ContractPaused => 12,
        ContractError::NoPendingAdminTransfer => 13,
        ContractError::InvalidAdminNominee => 14,
        ContractError::InvalidStellarAccount => 20,
        ContractError::InvalidAmount => 21,
        ContractError::InvalidAssetCode => 22,
        ContractError::InvalidAssetIssuer => 23,
        ContractError::MissingIdempotencyKey => 24,
        ContractError::StringTooLong => 25,
        ContractError::TransactionNotFound => 30,
        ContractError::InvalidStatusTransition => 31,
        ContractError::DuplicateRequest => 40,
        ContractError::StorageError => 50,
        ContractError::SchemaVersionMismatch => 60,
        ContractError::SignerQuarantined => 300,
        ContractError::NotGuardian => 301,
        ContractError::QuorumNotMet => 302,
        ContractError::AdminVacant => 303,
    }
}

impl ContractError {
    /// The wire code of this error.
    pub fn code(self) -> (r: u32)
        ensures
            r == error_code(self),
    {
        match self {
            ContractError::AlreadyInitialised => 1,
            ContractError::NotInitialised => 2,
            ContractError::Unauthorised => 10,
            ContractError::NotRelaySigner => 11,
            ContractError::ContractPaused => 12,
            ContractError::NoPendingAdminTransfer => 13,
            ContractError::InvalidAdminNominee => 14,
            ContractError::InvalidStellarAccount => 20,
            ContractError::InvalidAmount => 21,
            ContractError::InvalidAssetCode => 22,
            ContractError::InvalidAssetIssuer => 23,
            ContractError::MissingIdempotencyKey => 24,
            ContractError::StringTooLong => 25,
            ContractError::TransactionNotFound => 30,
            ContractError::InvalidStatusTransition => 31,
            ContractError::DuplicateRequest => 40,
            ContractError::StorageError => 50,
            ContractError::SchemaVersionMismatch => 60,
            ContractError::SignerQuarantined => 300,
            ContractError::NotGuardian => 301,
            ContractError::QuorumNotMet => 302,
            ContractError::AdminVacant => 303,
        }
    }
}

} // verus!
