//! The smart account: owner record, replay nonce, session key registry, and
//! the gated entry points over them.
//!
//! The host performs the outside effects — it resolves and checks identities,
//! persists state between invocations, and dispatches delegated calls — and
//! hands their outcomes in as plain values (`AuthDecision`,
//! `DispatchOutcome`). Each entry point here is verified to return and to
//! change the state exactly as the transitions in `state` say.

use vstd::prelude::*;
use crate::errors::ContractError;
use crate::errors::ExecuteError;
use crate::host::AuthDecision;
use crate::host::DispatchOutcome;
use crate::host::DispatchRequest;
use crate::host::Identity;
use crate::session::PUBLIC_KEY_LEN;
use crate::session::SessionKey;
use crate::session::SessionKeyRegistry;
use crate::session::SessionKeyView;
use crate::state::AccountView;
use crate::state::spec_add_session_key;
use crate::state::spec_check_execute;
use crate::state::spec_execute;
use crate::state::spec_gate;
use crate::state::spec_get_owner;
use crate::state::spec_get_nonce;
use crate::state::spec_get_session_key;
use crate::state::spec_initialize;
use crate::state::spec_revoke_session_key;

verus! {

/// A deployed smart account.
pub struct AncoreAccount {
    owner: Option<Identity>,
    nonce: u64,
    registry: SessionKeyRegistry,
}

impl View for AncoreAccount {
    type V = AccountView;

    closed spec fn view(&self) -> AccountView {
        AccountView { owner: self.owner, nonce: self.nonce, keys: self.registry@ }
    }
}

impl AncoreAccount {
    /// Internal invariant of the account's data.
    pub closed spec fn wf(&self) -> bool {
        self.registry.wf()
    }

    /// A fresh, uninitialized account with no owner, nonce zero and an empty
    /// registry.
    pub fn new() -> (r: Self)
        ensures
            r.wf(),
            r@ == (AccountView { owner: None, nonce: 0, keys: Map::empty() }),
    {
        AncoreAccount { owner: None, nonce: 0, registry: SessionKeyRegistry::new() }
    }

    /// An account rebuilt from persisted parts; the host uses this to restore
    /// the state it committed after an earlier invocation.
    pub fn from_parts(owner: Option<Identity>, nonce: u64, registry: SessionKeyRegistry) -> (r:
        Self)
        requires
            registry.wf(),
        ensures
            r.wf(),
            r@ == (AccountView { owner, nonce, keys: registry@ }),
    {
        AncoreAccount { owner, nonce, registry }
    }

    /// Stores `owner` and resets the nonce; single-shot, a second call always
    /// fails with `AlreadyInitialized` whatever its argument.
    pub fn initialize(&mut self, owner: Identity) -> (r: Result<(), ContractError>)
        requires
            old(self).wf(),
        ensures
            final(self).wf(),
            (final(self)@, r) == spec_initialize(old(self)@, owner),
    {
        match self.owner {
            Some(_) => Err(ContractError::AlreadyInitialized),
            None => {
                self.owner = Some(owner);
                self.nonce = 0;
                Ok(())
            },
        }
    }

    /// The stored owner, or `NotInitialized` if none was ever stored.
    pub fn get_owner(&self) -> (r: Result<Identity, ContractError>)
        ensures
            r == spec_get_owner(self@),
    {
        match self.owner {
            Some(owner) => Ok(owner),
            None => Err(ContractError::NotInitialized),
        }
    }

    /// The stored nonce; readable before initialization, where it is zero.
    pub fn get_nonce(&self) -> (r: Result<u64, ContractError>)
        ensures
            r == Ok::<u64, ContractError>(spec_get_nonce(self@)),
    {
        Ok(self.nonce)
    }

    /// The authorization check: passes exactly when an owner is stored and
    /// `auth` authorizes the invocation as that owner.
    pub fn check_authorization(&self, auth: &AuthDecision) -> (r: Result<(), ContractError>)
        ensures
            match r {
                Ok(_) => spec_gate(self@, *auth) is None,
                Err(e) => spec_gate(self@, *auth) == Some(e),
            },
    {
        match self.owner {
            None => Err(ContractError::NotInitialized),
            Some(owner) => {
                if auth.granted && auth.identity == owner {
                    Ok(())
                } else {
                    Err(ContractError::Unauthorized)
                }
            },
        }
    }

    /// The checks of `execute` ahead of the delegated call: the authorization check, then
    /// the replay guard. On success it reserves nothing yet — the nonce moves
    /// only when the dispatched call is known to have completed — and returns
    /// the delegated call for the host to perform.
    pub fn prepare_execute(
        &self,
        to: Identity,
        function: String,
        args: Vec<u64>,
        expected_nonce: u64,
        auth: &AuthDecision,
    ) -> (r: Result<DispatchRequest, ContractError>)
        ensures
            match r {
                Ok(request) => spec_check_execute(self@, *auth, expected_nonce) is None
                    && request.to == to && request.function@ == function@ && request.args@ == args@,
                Err(e) => spec_check_execute(self@, *auth, expected_nonce) == Some(e),
            },
    {
        match self.check_authorization(auth) {
            Err(e) => Err(e),
            Ok(_) => {
                if expected_nonce != self.nonce {
                    Err(ContractError::InvalidNonce)
                } else {
                    Ok(DispatchRequest { to, function, args })
                }
            },
        }
    }

    /// Executes a transaction: authorization, replay guard, delegated call, then the
    /// deferred nonce increment. The nonce advances exactly when every check
    /// passed and the dispatched call completed; any failure returns the
    /// state untouched, so the same `expected_nonce` can be retried.
    pub fn execute(
        &mut self,
        to: Identity,
        function: String,
        args: Vec<u64>,
        expected_nonce: u64,
        auth: &AuthDecision,
        dispatch: &DispatchOutcome,
    ) -> (r: Result<u64, ExecuteError>)
        requires
            old(self).wf(),
            old(self)@.nonce < u64::MAX,
        ensures
            final(self).wf(),
            (final(self)@, r) == spec_execute(old(self)@, *auth, expected_nonce, *dispatch),
    {
        match self.prepare_execute(to, function, args, expected_nonce, auth) {
            Err(e) => Err(ExecuteError::Contract(e)),
            Ok(_request) => match dispatch {
                DispatchOutcome::Aborted => Err(ExecuteError::DispatchFailed),
                DispatchOutcome::Completed(value) => {
                    self.nonce = self.nonce + 1;
                    Ok(*value)
                },
            },
        }
    }

    /// Stores (or overwrites) the session key record under `public_key`;
    /// gated on the owner. Expiry and permissions are stored verbatim.
    pub fn add_session_key(
        &mut self,
        public_key: Vec<u8>,
        expires_at: u64,
        permissions: Vec<u32>,
        auth: &AuthDecision,
    ) -> (r: Result<(), ContractError>)
        requires
            old(self).wf(),
            public_key@.len() == PUBLIC_KEY_LEN,
        ensures
            final(self).wf(),
            (final(self)@, r) == spec_add_session_key(
                old(self)@,
                *auth,
                (SessionKeyView {
                    public_key: public_key@,
                    expires_at,
                    permissions: permissions@,
                }),
            ),
    {
        match self.check_authorization(auth) {
            Err(e) => Err(e),
            Ok(_) => {
                let record = SessionKey { public_key, expires_at, permissions };
                self.registry.insert(record);
                Ok(())
            },
        }
    }

    /// Removes the session key record under `public_key`; gated on the
    /// owner. Removing an absent key succeeds and changes nothing.
    pub fn revoke_session_key(&mut self, public_key: Vec<u8>, auth: &AuthDecision) -> (r: Result<
        (),
        ContractError,
    >)
        requires
            old(self).wf(),
        ensures
            final(self).wf(),
            (final(self)@, r) == spec_revoke_session_key(old(self)@, *auth, public_key@),
    {
        match self.check_authorization(auth) {
            Err(e) => Err(e),
            Ok(_) => {
                self.registry.remove(&public_key);
                Ok(())
            },
        }
    }

    /// Pure lookup of a session key record: no authorization, no
    /// initialization needed, empty if nothing is stored.
    pub fn get_session_key(&self, public_key: Vec<u8>) -> (r: Option<SessionKey>)
        requires
            self.wf(),
        ensures
            match r {
                Some(record) => spec_get_session_key(self@, public_key@) == Some(record@),
                None => spec_get_session_key(self@, public_key@) is None,
            },
    {
        self.registry.lookup(&public_key)
    }
}

} // verus!
