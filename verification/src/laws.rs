//! Account-wide laws, proved over the transitions in `state`.
//!
//! Each law is stated over the same spec functions that the entry points'
//! own contracts use, so it holds of every execution of the verified code.

use vstd::prelude::*;
use crate::errors::ContractError;
use crate::errors::ExecuteError;
use crate::host::AuthDecision;
use crate::host::DispatchOutcome;
use crate::host::Identity;
use crate::session::SessionKeyView;
use crate::state::AccountView;
use crate::state::spec_add_session_key;
use crate::state::spec_execute;
use crate::state::spec_get_nonce;
use crate::state::spec_get_owner;
use crate::state::spec_get_session_key;
use crate::state::spec_initialize;
use crate::state::spec_revoke_session_key;

verus! {

/// Initialization is single-shot: on an uninitialized account the first
/// `initialize` succeeds, and a second one — with any argument, equal or not
/// — fails with `AlreadyInitialized`, changes nothing, and the stored owner
/// stays the first one.
pub proof fn lemma_initialize_single_shot(pre: AccountView, owner: Identity, second: Identity)
    requires
        pre.owner is None,
    ensures
        ({
            let (s1, r1) = spec_initialize(pre, owner);
            let (s2, r2) = spec_initialize(s1, second);
            &&& r1 == Ok::<(), ContractError>(())
            &&& r2 == Err::<(), ContractError>(ContractError::AlreadyInitialized)
            &&& s2 == s1
            &&& spec_get_owner(s2) == Ok::<Identity, ContractError>(owner)
        }),
{
}

/// One `execute` step moves the nonce by exactly one on success and not at
/// all on failure: the nonce never decreases and never skips, and a success
/// consumes exactly the stored nonce.
pub proof fn lemma_execute_nonce_step(
    pre: AccountView,
    auth: AuthDecision,
    expected_nonce: u64,
    dispatch: DispatchOutcome,
)
    requires
        pre.nonce < u64::MAX,
    ensures
        ({
            let (post, r) = spec_execute(pre, auth, expected_nonce, dispatch);
            &&& post.nonce >= pre.nonce
            &&& (r is Ok <==> post.nonce == pre.nonce + 1)
            &&& (r is Err ==> post == pre)
            &&& (r is Ok ==> expected_nonce == pre.nonce)
        }),
{
}

/// One step of a sequence of `execute` invocations.
pub ghost struct ExecuteEvent {
    /// The host's authorization verdict for the invocation.
    pub auth: AuthDecision,
    /// The nonce the caller expects.
    pub expected_nonce: u64,
    /// The host's report on the delegated call.
    pub dispatch: DispatchOutcome,
}

/// The state after a sequence of `execute` invocations.
pub open spec fn run_executes(pre: AccountView, events: Seq<ExecuteEvent>) -> AccountView
    decreases events.len(),
{
    if events.len() == 0 {
        pre
    } else {
        let head = events[0];
        let next = spec_execute(pre, head.auth, head.expected_nonce, head.dispatch).0;
        run_executes(next, events.drop_first())
    }
}

/// How many invocations of the sequence succeed.
pub open spec fn count_successes(pre: AccountView, events: Seq<ExecuteEvent>) -> nat
    decreases events.len(),
{
    if events.len() == 0 {
        0
    } else {
        let head = events[0];
        let step = spec_execute(pre, head.auth, head.expected_nonce, head.dispatch);
        (if step.1 is Ok {
            1nat
        } else {
            0nat
        }) + count_successes(step.0, events.drop_first())
    }
}

/// Nonce monotonicity over whole sequences: after any sequence of `execute`
/// invocations the nonce has grown by exactly the number of successes.
pub proof fn lemma_nonce_counts_successes(pre: AccountView, events: Seq<ExecuteEvent>)
    requires
        pre.nonce + events.len() <= u64::MAX,
    ensures
        run_executes(pre, events).nonce == pre.nonce + count_successes(pre, events),
    decreases events.len(),
{
    if events.len() > 0 {
        let head = events[0];
        let step = spec_execute(pre, head.auth, head.expected_nonce, head.dispatch);
        lemma_nonce_counts_successes(step.0, events.drop_first());
    }
}

/// Nonce monotonicity from a fresh account: initialize, run any sequence of
/// `execute` invocations, and the nonce reads exactly the number of
/// successes so far.
pub proof fn lemma_nonce_counts_successes_from_init(
    pre: AccountView,
    owner: Identity,
    events: Seq<ExecuteEvent>,
)
    requires
        pre.owner is None,
        events.len() <= u64::MAX,
    ensures
        ({
            let s0 = spec_initialize(pre, owner).0;
            spec_get_nonce(run_executes(s0, events)) == count_successes(s0, events)
        }),
{
    let s0 = spec_initialize(pre, owner).0;
    lemma_nonce_counts_successes(s0, events);
}

/// The state after the first `i` invocations of a sequence.
pub open spec fn state_at(pre: AccountView, events: Seq<ExecuteEvent>, i: int) -> AccountView {
    run_executes(pre, events.take(i))
}

/// Whether the `i`-th invocation of the sequence succeeds.
pub open spec fn step_succeeds(pre: AccountView, events: Seq<ExecuteEvent>, i: int) -> bool {
    spec_execute(
        state_at(pre, events, i),
        events[i].auth,
        events[i].expected_nonce,
        events[i].dispatch,
    ).1 is Ok
}

/// Running one more invocation at the end of a sequence steps the final
/// state once.
proof fn lemma_run_push(pre: AccountView, events: Seq<ExecuteEvent>, e: ExecuteEvent)
    ensures
        run_executes(pre, events.push(e)) == spec_execute(
            run_executes(pre, events),
            e.auth,
            e.expected_nonce,
            e.dispatch,
        ).0,
    decreases events.len(),
{
    if events.len() == 0 {
        let one = events.push(e);
        let next = spec_execute(pre, e.auth, e.expected_nonce, e.dispatch).0;
        assert(one[0] == e);
        assert(one.drop_first() =~= Seq::<ExecuteEvent>::empty());
        assert(run_executes(next, one.drop_first()) == next);
        assert(run_executes(pre, one) == run_executes(next, one.drop_first()));
    } else {
        let head = events[0];
        let next = spec_execute(pre, head.auth, head.expected_nonce, head.dispatch).0;
        assert(events.push(e)[0] == head);
        assert(events.push(e).drop_first() =~= events.drop_first().push(e));
        lemma_run_push(next, events.drop_first(), e);
    }
}

/// The state after `i + 1` invocations is one step beyond the state after
/// `i` of them.
proof fn lemma_state_at_succ(pre: AccountView, events: Seq<ExecuteEvent>, i: int)
    requires
        0 <= i < events.len(),
    ensures
        state_at(pre, events, i + 1) == spec_execute(
            state_at(pre, events, i),
            events[i].auth,
            events[i].expected_nonce,
            events[i].dispatch,
        ).0,
{
    assert(events.take(i + 1) =~= events.take(i).push(events[i]));
    lemma_run_push(pre, events.take(i), events[i]);
}

/// Along a run, the nonce grows by at most one per invocation.
proof fn lemma_state_nonce_bound(pre: AccountView, events: Seq<ExecuteEvent>, i: int)
    requires
        0 <= i <= events.len(),
    ensures
        state_at(pre, events, i).nonce <= pre.nonce + i,
    decreases i,
{
    if i == 0 {
        assert(events.take(0) =~= Seq::<ExecuteEvent>::empty());
    } else {
        lemma_state_nonce_bound(pre, events, i - 1);
        lemma_state_at_succ(pre, events, i - 1);
    }
}

/// As long as the counter cannot saturate, the nonce never decreases along a
/// run.
proof fn lemma_state_nonce_monotonic(pre: AccountView, events: Seq<ExecuteEvent>, i: int, j: int)
    requires
        pre.nonce + events.len() <= u64::MAX,
        0 <= i <= j <= events.len(),
    ensures
        state_at(pre, events, i).nonce <= state_at(pre, events, j).nonce,
    decreases j - i,
{
    if i < j {
        lemma_state_nonce_monotonic(pre, events, i, j - 1);
        lemma_state_nonce_bound(pre, events, j - 1);
        lemma_state_at_succ(pre, events, j - 1);
    }
}

/// A given expected nonce is consumed at most once, ever, and only in
/// strictly increasing order: along any sequence of invocations, two distinct
/// successful `execute` calls consumed strictly increasing expected nonces —
/// so replaying an already consumed value can never succeed again.
pub proof fn lemma_expected_nonce_strictly_increases(
    pre: AccountView,
    events: Seq<ExecuteEvent>,
    i: int,
    j: int,
)
    requires
        pre.nonce + events.len() <= u64::MAX,
        0 <= i < j < events.len(),
        step_succeeds(pre, events, i),
        step_succeeds(pre, events, j),
    ensures
        events[i].expected_nonce < events[j].expected_nonce,
{
    lemma_state_nonce_bound(pre, events, i);
    lemma_state_at_succ(pre, events, i);
    lemma_state_nonce_monotonic(pre, events, i + 1, j);
}

/// Replay rejection is pure: with authorization passing but a wrong expected
/// nonce, `execute` fails with `InvalidNonce` and leaves the state — the
/// nonce in particular — untouched, whatever the dispatch outcome would have
/// been.
pub proof fn lemma_replay_rejected(
    pre: AccountView,
    owner: Identity,
    auth: AuthDecision,
    expected_nonce: u64,
    dispatch: DispatchOutcome,
)
    requires
        pre.owner == Some(owner),
        auth.authorizes(owner),
        expected_nonce != pre.nonce,
    ensures
        spec_execute(pre, auth, expected_nonce, dispatch) == (
            pre,
            Err::<u64, ExecuteError>(ExecuteError::Contract(ContractError::InvalidNonce)),
        ),
{
}

/// A failed delegated call never advances the nonce: whenever the dispatch
/// aborted, `execute` fails and the whole state is exactly the pre-state.
pub proof fn lemma_failed_dispatch_preserves_state(
    pre: AccountView,
    auth: AuthDecision,
    expected_nonce: u64,
)
    ensures
        spec_execute(pre, auth, expected_nonce, DispatchOutcome::Aborted).0 == pre,
        spec_execute(pre, auth, expected_nonce, DispatchOutcome::Aborted).1 is Err,
{
}

/// Session key round trip: with authorization passing, adding a record then
/// looking its key up returns exactly that record, and revoking it then
/// looking it up returns nothing.
pub proof fn lemma_session_key_round_trip(
    pre: AccountView,
    owner: Identity,
    auth: AuthDecision,
    record: SessionKeyView,
)
    requires
        pre.owner == Some(owner),
        auth.authorizes(owner),
    ensures
        ({
            let (s1, r1) = spec_add_session_key(pre, auth, record);
            let (s2, r2) = spec_revoke_session_key(s1, auth, record.public_key);
            &&& r1 == Ok::<(), ContractError>(())
            &&& spec_get_session_key(s1, record.public_key) == Some(record)
            &&& r2 == Ok::<(), ContractError>(())
            &&& spec_get_session_key(s2, record.public_key) is None
        }),
{
}

/// Authorization enforcement: on an initialized account, an invocation whose
/// verdict does not authorize it as the owner fails every protected entry
/// point with `Unauthorized` and mutates nothing.
pub proof fn lemma_unauthorized_rejected(
    pre: AccountView,
    owner: Identity,
    auth: AuthDecision,
    expected_nonce: u64,
    dispatch: DispatchOutcome,
    record: SessionKeyView,
    public_key: Seq<u8>,
)
    requires
        pre.owner == Some(owner),
        !auth.authorizes(owner),
    ensures
        spec_execute(pre, auth, expected_nonce, dispatch) == (
            pre,
            Err::<u64, ExecuteError>(ExecuteError::Contract(ContractError::Unauthorized)),
        ),
        spec_add_session_key(pre, auth, record) == (
            pre,
            Err::<(), ContractError>(ContractError::Unauthorized),
        ),
        spec_revoke_session_key(pre, auth, public_key) == (
            pre,
            Err::<(), ContractError>(ContractError::Unauthorized),
        ),
{
}

} // verus!
