//! Structured failures of the account's entry points.

use vstd::prelude::*;

verus! {

/// Failure kinds raised by the account's own rules. Every failure aborts the
/// whole invocation; the host discards all pending writes, so a caller only
/// ever observes the state left by fully successful invocations.
#[derive(Clone, Copy, Debug, PartialEq, Eq, Structural)]
pub enum ContractError {
    /// The account already has an owner; `initialize` is single-shot.
    AlreadyInitialized,
    /// The account has no owner yet.
    NotInitialized,
    /// The invocation does not carry a valid authorization for the owner.
    Unauthorized,
    /// The expected nonce does not match the stored nonce.
    InvalidNonce,
    /// No session key record exists for the given public key.
    SessionKeyNotFound,
    /// The session key record exists but its expiry has passed.
    SessionKeyExpired,
    /// The session key record lacks the capability the action needs.
    InsufficientPermission,
}

/// Failure of the `execute` entry point as a whole: either one of the
/// account's own rules rejected the invocation, or the delegated downstream
/// call aborted, in which case the nonce must not advance.
#[derive(Clone, Copy, Debug, PartialEq, Eq, Structural)]
pub enum ExecuteError {
    /// One of the account's own checks failed before the delegated call.
    Contract(ContractError),
    /// The delegated downstream call itself failed.
    DispatchFailed,
}

} // verus!
