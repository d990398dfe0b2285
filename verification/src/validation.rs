//! Input guards: account format, amount and asset-code bounds, mandatory
//! idempotency key, length caps on free-text fields, and the admin-nominee
//! guard.
//!
//! Lengths are counted in bytes of the UTF-8 encoding, which is how the host
//! measures a stored string, so a cap bounds the ledger space an entry takes.

use vstd::prelude::*;
use vstd::utf8::encode_utf8;

use crate::env::Env;
use crate::types::{Address, CallbackPayload, ContractError};

verus! {

/// Length of an account strkey: a base32 text of 56 ASCII characters.
pub const STRKEY_LEN: usize = 56;

/// Longest accepted asset code (alphanumeric-12 assets).
pub const MAX_ASSET_CODE_LEN: usize = 12;

/// Cost-control cap on the free-text fields of a payload (transaction id,
/// idempotency key, anchor id, callback status) and on failure reasons: a
/// UUID, an anchor identifier or a short status code fits well within it,
/// and every stored byte is paid for in ledger rent.
pub const MAX_FIELD_LEN: usize = 128;

/// Cap on a settlement hash: a transaction hash is 32 bytes, written as 64
/// hexadecimal digits.
pub const MAX_TX_HASH_LEN: usize = 64;

/// Length in bytes of the UTF-8 encoding of `s`, as `str::len` reports it.
pub open spec fn byte_len(s: Seq<char>) -> usize {
    encode_utf8(s).len() as usize
}

/// An account strkey: 56 bytes beginning with `G`.
pub open spec fn is_account_strkey(s: Seq<char>) -> bool {
    byte_len(s) == STRKEY_LEN && s.len() > 0 && s[0] == 'G'
}

/// The verdict on a payload: the first rule it breaks, in this order:
/// account, amount (must be positive), asset code (1 to 12 bytes),
/// issuer, idempotency key (non-empty), and the cap on the transaction id,
/// idempotency key, anchor id and callback status.
pub open spec fn payload_check(p: CallbackPayload) -> Result<(), ContractError> {
    if !is_account_strkey(p.stellar_account@) {
        Err(ContractError::InvalidStellarAccount)
    } else if p.amount <= 0 {
        Err(ContractError::InvalidAmount)
    } else if byte_len(p.asset_code@) == 0 || byte_len(p.asset_code@) > MAX_ASSET_CODE_LEN {
        Err(ContractError::InvalidAssetCode)
    } else if !is_account_strkey(p.asset_issuer@) {
        Err(ContractError::InvalidAssetIssuer)
    } else if byte_len(p.idempotency_key@) == 0 {
        Err(ContractError::MissingIdempotencyKey)
    } else if byte_len(p.transaction_id@) > MAX_FIELD_LEN || byte_len(p.idempotency_key@)
        > MAX_FIELD_LEN || byte_len(p.anchor_transaction_id@) > MAX_FIELD_LEN || byte_len(
        p.callback_status@,
    ) > MAX_FIELD_LEN {
        Err(ContractError::StringTooLong)
    } else {
        Ok(())
    }
}

/// The verdict on a settlement hash.
pub open spec fn tx_hash_check(hash: Seq<char>) -> Result<(), ContractError> {
    if byte_len(hash) > MAX_TX_HASH_LEN {
        Err(ContractError::StringTooLong)
    } else {
        Ok(())
    }
}

/// The verdict on a failure reason.
pub open spec fn failure_reason_check(reason: Seq<char>) -> Result<(), ContractError> {
    if byte_len(reason) > MAX_FIELD_LEN {
        Err(ContractError::StringTooLong)
    } else {
        Ok(())
    }
}

/// Whether `s` is an account strkey.
fn check_account_strkey(s: &String) -> (r: bool)
    ensures
        r == is_account_strkey(s@),
{
    let t = s.as_str();
    if t.len() != STRKEY_LEN || t.is_empty() {
        return false;
    }
    t.get_char(0) == 'G'
}

/// Input validation of the contract.
pub struct Validator;

impl Validator {
    /// Checks a callback payload; the error names the first rule broken.
    pub fn validate_payload(env: &Env, payload: &CallbackPayload) -> (r: Result<(), ContractError>)
        ensures
            r == payload_check(*payload),
    {
        if !check_account_strkey(&payload.stellar_account) {
            return Err(ContractError::InvalidStellarAccount);
        }
        if payload.amount <= 0 {
            return Err(ContractError::InvalidAmount);
        }
        let code_len = payload.asset_code.as_str().len();
        if code_len == 0 || code_len > MAX_ASSET_CODE_LEN {
            return Err(ContractError::InvalidAssetCode);
        }
        if !check_account_strkey(&payload.asset_issuer) {
            return Err(ContractError::InvalidAssetIssuer);
        }
        let key_len = payload.idempotency_key.as_str().len();
        if key_len == 0 {
            return Err(ContractError::MissingIdempotencyKey);
        }
        if payload.transaction_id.as_str().len() > MAX_FIELD_LEN || key_len > MAX_FIELD_LEN
            || payload.anchor_transaction_id.as_str().len() > MAX_FIELD_LEN
            || payload.callback_status.as_str().len() > MAX_FIELD_LEN {
            return Err(ContractError::StringTooLong);
        }
        Ok(())
    }

    /// Checks a settlement hash against its cap.
    pub fn validate_stellar_tx_hash(hash: &String) -> (r: Result<(), ContractError>)
        ensures
            r == tx_hash_check(hash@),
    {
        if hash.as_str().len() > MAX_TX_HASH_LEN {
            Err(ContractError::StringTooLong)
        } else {
            Ok(())
        }
    }

    /// Checks a failure reason against its cap.
    pub fn validate_failure_reason(reason: &String) -> (r: Result<(), ContractError>)
        ensures
            r == failure_reason_check(reason@),
    {
        if reason.as_str().len() > MAX_FIELD_LEN {
            Err(ContractError::StringTooLong)
        } else {
            Ok(())
        }
    }

    /// Rejects the contract's own address as admin nominee: it could never
    /// call `accept_admin` back.
    pub fn validate_admin_nominee(env: &Env, nominee: &Address) -> (r: Result<(), ContractError>)
        ensures
            r == (if nominee@ == env@.contract_address@ {
                Err(ContractError::InvalidAdminNominee)
            } else {
                Ok(())
            }),
    {
        if nominee.equals(&env.contract_address) {
            Err(ContractError::InvalidAdminNominee)
        } else {
            Ok(())
        }
    }
}

} // verus!
