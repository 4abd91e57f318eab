//! Mathematical model of the account and the transition of each entry point.
//!
//! Every entry point of the account is specified here as a pure function from
//! the pre-state view and the host-supplied outcomes to the post-state view
//! and the returned value. The executable methods promise exactly these
//! transitions, and the laws in `laws` are proved over them.

use vstd::prelude::*;
use crate::errors::ContractError;
use crate::errors::ExecuteError;
use crate::host::AuthDecision;
use crate::host::DispatchOutcome;
use crate::host::Identity;
use crate::session::SessionKeyView;

verus! {

/// The account's state: the owner (present exactly when initialized), the
/// replay nonce, and the session key registry.
#[verifier::ext_equal]
pub ghost struct AccountView {
    pub owner: Option<Identity>,
    pub nonce: u64,
    pub keys: Map<Seq<u8>, SessionKeyView>,
}

/// `initialize(owner)`: single-shot. Fails if an owner is already stored;
/// otherwise stores the owner and resets the nonce to zero.
pub open spec fn spec_initialize(pre: AccountView, owner: Identity) -> (AccountView, Result<
    (),
    ContractError,
>) {
    if pre.owner is Some {
        (pre, Err(ContractError::AlreadyInitialized))
    } else {
        (AccountView { owner: Some(owner), nonce: 0, keys: pre.keys }, Ok(()))
    }
}

/// `get_owner()`: the stored owner, or `NotInitialized`.
pub open spec fn spec_get_owner(v: AccountView) -> Result<Identity, ContractError> {
    match v.owner {
        Some(owner) => Ok(owner),
        None => Err(ContractError::NotInitialized),
    }
}

/// `get_nonce()`: the stored nonce; zero before initialization, never a
/// failure.
pub open spec fn spec_get_nonce(v: AccountView) -> u64 {
    v.nonce
}

/// The authorization rule: an owner-protected operation needs a stored owner
/// and a host verdict that authorizes the invocation as that owner.
pub open spec fn spec_gate(v: AccountView, auth: AuthDecision) -> Option<ContractError> {
    match v.owner {
        None => Some(ContractError::NotInitialized),
        Some(owner) => if !auth.authorizes(owner) {
            Some(ContractError::Unauthorized)
        } else {
            None
        },
    }
}

/// The checks of `execute` before the delegated call: the authorization check, then the
/// replay guard comparing the expected nonce against the stored one.
pub open spec fn spec_check_execute(v: AccountView, auth: AuthDecision, expected_nonce: u64)
    -> Option<ContractError> {
    match spec_gate(v, auth) {
        Some(e) => Some(e),
        None => if expected_nonce != v.nonce {
            Some(ContractError::InvalidNonce)
        } else {
            None
        },
    }
}

/// `execute(..)`: authorization, replay guard, then the delegated call's outcome. The
/// nonce advances by exactly one if and only if every check passed and the
/// delegated call completed; any failure leaves the state untouched.
pub open spec fn spec_execute(
    pre: AccountView,
    auth: AuthDecision,
    expected_nonce: u64,
    dispatch: DispatchOutcome,
) -> (AccountView, Result<u64, ExecuteError>) {
    match spec_check_execute(pre, auth, expected_nonce) {
        Some(e) => (pre, Err(ExecuteError::Contract(e))),
        None => match dispatch {
            DispatchOutcome::Aborted => (pre, Err(ExecuteError::DispatchFailed)),
            DispatchOutcome::Completed(value) => (
                AccountView { owner: pre.owner, nonce: (pre.nonce + 1) as u64, keys: pre.keys },
                Ok(value),
            ),
        },
    }
}

/// `add_session_key(..)`: gated on the owner; stores or overwrites the record
/// under its public key. Expiry and permission contents are stored verbatim.
pub open spec fn spec_add_session_key(
    pre: AccountView,
    auth: AuthDecision,
    record: SessionKeyView,
) -> (AccountView, Result<(), ContractError>) {
    match spec_gate(pre, auth) {
        Some(e) => (pre, Err(e)),
        None => (
            AccountView {
                owner: pre.owner,
                nonce: pre.nonce,
                keys: pre.keys.insert(record.public_key, record),
            },
            Ok(()),
        ),
    }
}

/// `revoke_session_key(..)`: gated on the owner; removes the record if
/// present, and is a no-op on an absent key.
pub open spec fn spec_revoke_session_key(
    pre: AccountView,
    auth: AuthDecision,
    public_key: Seq<u8>,
) -> (AccountView, Result<(), ContractError>) {
    match spec_gate(pre, auth) {
        Some(e) => (pre, Err(e)),
        None => (
            AccountView {
                owner: pre.owner,
                nonce: pre.nonce,
                keys: pre.keys.remove(public_key),
            },
            Ok(()),
        ),
    }
}

/// `get_session_key(..)`: pure lookup, no authorization, empty if absent.
pub open spec fn spec_get_session_key(v: AccountView, public_key: Seq<u8>) -> Option<
    SessionKeyView,
> {
    if v.keys.contains_key(public_key) {
        Some(v.keys[public_key])
    } else {
        None
    }
}

} // verus!
