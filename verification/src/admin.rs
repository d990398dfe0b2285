//! Role-based access control.
//!
//! | Role           | Capabilities                                                  |
//! |----------------|---------------------------------------------------------------|
//! | admin          | transfer, relay rotation, pause, upgrade, scopes, guardians; may drive status transitions |
//! | relay signer   | register callbacks, heartbeat; may drive status transitions    |
//! | scope grantee  | drive the status transitions it was granted                   |
//!
//! Each check is specified by a function from the environment to the
//! resulting environment and result; a check that lets a caller through
//! demands that caller's authorisation.

use vstd::prelude::*;

use crate::env::{Env, EnvView};
use crate::storage::{admin_result, relay_result, StorageClient};
use crate::types::{Address, ContractError, RoleScope};

verus! {

/// Admin gate: the stored admin, whose authorisation is demanded.
pub open spec fn admin_gate(s: EnvView) -> (EnvView, Result<Address, ContractError>) {
    match admin_result(s) {
        Ok(a) => (s.with_auth(a), Ok(a)),
        Err(e) => (s, Err(e)),
    }
}

/// Gate admitting the admin or the relay signer.
pub open spec fn relay_or_admin_gate(s: EnvView, caller: Address) -> (EnvView, Result<
    (),
    ContractError,
>) {
    match admin_result(s) {
        Err(e) => (s, Err(e)),
        Ok(admin) => match relay_result(s) {
            Err(e) => (s, Err(e)),
            Ok(relay) => if caller@ != admin@ && caller@ != relay@ {
                (s, Err(ContractError::Unauthorised))
            } else {
                (s.with_auth(caller), Ok(()))
            },
        },
    }
}

/// Gate admitting the relay signer alone.
pub open spec fn relay_gate(s: EnvView, caller: Address) -> (EnvView, Result<(), ContractError>) {
    match relay_result(s) {
        Err(e) => (s, Err(e)),
        Ok(relay) => if caller@ != relay@ {
            (s, Err(ContractError::NotRelaySigner))
        } else {
            (s.with_auth(caller), Ok(()))
        },
    }
}

/// Gate admitting the admin, the relay signer, or a grantee of `scope`.
/// It fails closed: with no admin (never initialised, or revoked) nobody passes.
pub open spec fn scope_gate(s: EnvView, caller: Address, scope: RoleScope) -> (EnvView, Result<
    (),
    ContractError,
>) {
    match admin_result(s) {
        Err(e) => (s, Err(e)),
        Ok(admin) => match relay_result(s) {
            Err(e) => (s, Err(e)),
            Ok(relay) => if caller@ != admin@ && caller@ != relay@ && !s.scopes_of(
                caller@,
            ).contains(scope) {
                (s, Err(ContractError::Unauthorised))
            } else {
                (s.with_auth(caller), Ok(()))
            },
        },
    }
}

/// A signer is quarantined when a non-zero window is configured, it has
/// heartbeated at least once, and strictly more than the window has passed
/// since its last heartbeat.
pub open spec fn quarantined(s: EnvView, signer: Seq<char>) -> bool {
    &&& s.window() != 0
    &&& s.last_heartbeats.contains_key(signer)
    &&& s.ledger_timestamp.saturating_sub(s.last_heartbeats[signer]) > s.window()
}

/// Access-control checks of the contract.
pub struct AdminClient;

impl AdminClient {
    /// Demands the admin's authorisation and returns the admin. A missing
    /// authorisation is not an error result: the host aborts the whole
    /// invocation, as it does for every demanded authorisation.
    pub fn require_admin(env: &mut Env) -> (r: Result<Address, ContractError>)
        ensures
            (final(env)@, r) == admin_gate(old(env)@),
    {
        let admin = StorageClient::get_admin(env)?;
        env.require_auth(&admin);
        Ok(admin)
    }

    /// Admits `caller` if it is the admin or the relay signer, demanding its
    /// authorisation; `Unauthorised` otherwise.
    pub fn assert_is_relay_or_admin(env: &mut Env, caller: &Address) -> (r: Result<
        (),
        ContractError,
    >)
        ensures
            (final(env)@, r) == relay_or_admin_gate(old(env)@, *caller),
    {
        let admin = StorageClient::get_admin(env)?;
        let relay = StorageClient::get_relay_signer(env)?;
        if !caller.equals(&admin) && !caller.equals(&relay) {
            return Err(ContractError::Unauthorised);
        }
        env.require_auth(caller);
        Ok(())
    }

    /// Admits `caller` only if it is the relay signer, demanding its
    /// authorisation; `NotRelaySigner` otherwise.
    pub fn require_relay_signer(env: &mut Env, caller: &Address) -> (r: Result<
        (),
        ContractError,
    >)
        ensures
            (final(env)@, r) == relay_gate(old(env)@, *caller),
    {
        let relay = StorageClient::get_relay_signer(env)?;
        if !caller.equals(&relay) {
            return Err(ContractError::NotRelaySigner);
        }
        env.require_auth(caller);
        Ok(())
    }

    /// Admits `caller` if it is the admin, the relay signer, or holds
    /// `scope`, demanding its authorisation; `Unauthorised` otherwise.
    pub fn require_scope(env: &mut Env, caller: &Address, scope: RoleScope) -> (r: Result<
        (),
        ContractError,
    >)
        ensures
            (final(env)@, r) == scope_gate(old(env)@, *caller, scope),
    {
        let admin = StorageClient::get_admin(env)?;
        let relay = StorageClient::get_relay_signer(env)?;
        if !caller.equals(&admin) && !caller.equals(&relay) {
            let scopes = StorageClient::get_scopes(env, caller);
            if !scopes_contain(&scopes, scope) {
                return Err(ContractError::Unauthorised);
            }
        }
        env.require_auth(caller);
        Ok(())
    }

    /// Rejects `signer` with `SignerQuarantined` when its last heartbeat is
    /// older than the configured window. A signer that never heartbeated, or
    /// a window of 0, is never quarantined; staleness is strict.
    pub fn assert_not_quarantined(env: &Env, signer: &Address) -> (r: Result<(), ContractError>)
        ensures
            r == (if quarantined(env@, signer@) {
                Err(ContractError::SignerQuarantined)
            } else {
                Ok(())
            }),
    {
        let window = StorageClient::get_heartbeat_window(env);
        if window == 0 {
            return Ok(());
        }
        if let Some(last) = StorageClient::get_last_heartbeat(env, signer) {
            if env.ledger_timestamp.saturating_sub(last) > window {
                return Err(ContractError::SignerQuarantined);
            }
        }
        Ok(())
    }
}

/// Whether `scopes` holds `scope`.
pub fn scopes_contain(scopes: &Vec<RoleScope>, scope: RoleScope) -> (r: bool)
    ensures
        r == scopes@.contains(scope),
{
    match scopes_index_of(scopes, scope) {
        Some(_) => true,
        None => false,
    }
}

/// The first position of `scope` in `scopes`, if any.
pub fn scopes_index_of(scopes: &Vec<RoleScope>, scope: RoleScope) -> (r: Option<usize>)
    ensures
        match r {
            Some(i) => i < scopes@.len() && scopes@[i as int] == scope && forall|j: int|
                0 <= j < i ==> scopes@[j] != scope,
            None => !scopes@.contains(scope),
        },
{
    let mut i: usize = 0;
    while i < scopes.len()
        invariant
            i <= scopes@.len(),
            forall|j: int| 0 <= j < i ==> scopes@[j] != scope,
        decreases scopes@.len() - i,
    {
        if scopes[i] == scope {
            return Some(i);
        }
        i = i + 1;
    }
    None
}

} // verus!
