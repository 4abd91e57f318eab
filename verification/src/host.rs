//! Plain-value interface to the host: the identities it resolves, the
//! authorization verdicts it issues, and the outcomes of the delegated
//! cross-contract calls it performs on the core's behalf.

use vstd::prelude::*;

verus! {

/// An opaque identity reference resolved by the host (an account or contract
/// address). The core never looks inside an identity; it only stores one as
/// the owner and compares identities for equality.
#[derive(Clone, Copy, Debug, PartialEq, Eq, Structural)]
pub struct Identity {
    pub id: u64,
}

/// The host's answer to "is the current invocation authorized as identity
/// X?". The account consumes this pass/fail outcome; it never
/// performs the cryptographic check itself.
#[derive(Clone, Copy, Debug, PartialEq, Eq, Structural)]
pub struct AuthDecision {
    /// The identity the host checked the invocation against.
    pub identity: Identity,
    /// Whether the invocation carries valid authorization for that identity.
    pub granted: bool,
}

impl AuthDecision {
    /// Whether this verdict authorizes the invocation as `owner`.
    pub open spec fn authorizes(self, owner: Identity) -> bool {
        self.granted && self.identity == owner
    }
}

/// A delegated call for the host to perform: target contract, function
/// selector, and argument words. Produced by the account once its checks have
/// passed; the host dispatches it and reports a `DispatchOutcome` back.
#[derive(Clone, Debug)]
pub struct DispatchRequest {
    /// The target contract to invoke.
    pub to: Identity,
    /// The function selector on the target.
    pub function: String,
    /// The argument list, each argument an opaque host word.
    pub args: Vec<u64>,
}

/// The host's report on a delegated call: either the opaque word the callee
/// returned, or the fact that the call aborted.
#[derive(Clone, Copy, Debug, PartialEq, Eq, Structural)]
pub enum DispatchOutcome {
    /// The callee returned normally with this opaque value.
    Completed(u64),
    /// The callee failed; the whole invocation must leave no trace.
    Aborted,
}

} // verus!
