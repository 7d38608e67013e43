//! The per-attempt flow state machine.
//!
//! One login attempt moves through
//! `AwaitingCallback → Exchanging → FetchingProfile → Syncing → Completed`,
//! or short-circuits to `Failed`. The application drives the machine: it
//! performs the awaited work (the callback race, each network round trip)
//! and feeds the outcome back as a [`FlowEvent`]; [`flow_step`] answers with
//! the next state, the action to perform, and whether the attempt's pending
//! store entry must be removed. Every decision of the original orchestration
//! loop lives here, so the ordering laws of the pipeline are proved once,
//! over all event traces.

use vstd::prelude::*;
use crate::errors::AuthError;
use crate::pipeline::GithubUserProfile;
use crate::store::spec_expire;

verus! {

/// Where a login attempt stands.
#[derive(Debug, Clone, Copy, PartialEq, Eq, Structural)]
pub enum FlowState {
    /// Waiting for a delivery channel to resolve the correlation token.
    AwaitingCallback,
    /// Exchanging the delivered code for an access token.
    Exchanging,
    /// Fetching the user profile with the access token.
    FetchingProfile,
    /// Pushing the profile to the backend.
    Syncing,
    /// The success event has been emitted.
    Completed,
    /// A failure event has been emitted.
    Failed,
}

/// What the application observed since the last step.
#[derive(Debug)]
pub enum FlowEvent {
    /// The callback race ended with a code for this attempt.
    CodeDelivered(String),
    /// The delivery channel was dropped without a value.
    ChannelClosed,
    /// The timeout window elapsed before any delivery.
    TimedOut,
    /// The token endpoint answered with an access token.
    ExchangeSucceeded(String),
    /// The profile endpoint answered with the user's record.
    ProfileFetched(GithubUserProfile),
    /// The backend acknowledged the sync of this profile.
    SyncSucceeded(GithubUserProfile),
    /// The pipeline step that was running reported this error.
    StepFailed(AuthError),
}

/// What the application must do next.
#[derive(Debug)]
pub enum FlowAction {
    /// Nothing: the attempt is over or the event did not belong to this state.
    NoAction,
    /// Exchange this authorization code for an access token.
    ExchangeCode(String),
    /// Fetch the user profile with this access token.
    FetchProfile(String),
    /// Push this profile to the backend.
    SyncProfile(GithubUserProfile),
    /// Emit the success event carrying this profile.
    EmitSuccess(GithubUserProfile),
    /// Emit the failure event carrying this cause.
    EmitError(AuthError),
}

/// One transition: the state entered, the action owed, and whether the
/// attempt's pending entry must be removed from the correlation store.
pub struct FlowStep {
    pub next: FlowState,
    pub action: FlowAction,
    pub cleanup: bool,
}

/// The state after `ev` arrives in state `st`. An event that does not
/// belong to the state leaves it unchanged.
pub open spec fn flow_next(st: FlowState, ev: FlowEvent) -> FlowState {
    match (st, ev) {
        (FlowState::AwaitingCallback, FlowEvent::CodeDelivered(_)) => FlowState::Exchanging,
        (FlowState::AwaitingCallback, FlowEvent::ChannelClosed) => FlowState::Failed,
        (FlowState::AwaitingCallback, FlowEvent::TimedOut) => FlowState::Failed,
        (FlowState::Exchanging, FlowEvent::ExchangeSucceeded(_)) => FlowState::FetchingProfile,
        (FlowState::Exchanging, FlowEvent::StepFailed(_)) => FlowState::Failed,
        (FlowState::FetchingProfile, FlowEvent::ProfileFetched(_)) => FlowState::Syncing,
        (FlowState::FetchingProfile, FlowEvent::StepFailed(_)) => FlowState::Failed,
        (FlowState::Syncing, FlowEvent::SyncSucceeded(_)) => FlowState::Completed,
        (FlowState::Syncing, FlowEvent::StepFailed(_)) => FlowState::Failed,
        (s, _) => s,
    }
}

/// The action owed after `ev` arrives in state `st`.
pub open spec fn flow_action(st: FlowState, ev: FlowEvent) -> FlowAction {
    match (st, ev) {
        (FlowState::AwaitingCallback, FlowEvent::CodeDelivered(code)) => FlowAction::ExchangeCode(
            code,
        ),
        (FlowState::AwaitingCallback, FlowEvent::ChannelClosed) => FlowAction::EmitError(
            AuthError::Cancelled,
        ),
        (FlowState::AwaitingCallback, FlowEvent::TimedOut) => FlowAction::EmitError(
            AuthError::CallbackTimeout,
        ),
        (FlowState::Exchanging, FlowEvent::ExchangeSucceeded(token)) => FlowAction::FetchProfile(
            token,
        ),
        (FlowState::Exchanging, FlowEvent::StepFailed(e)) => FlowAction::EmitError(e),
        (FlowState::FetchingProfile, FlowEvent::ProfileFetched(p)) => FlowAction::SyncProfile(p),
        (FlowState::FetchingProfile, FlowEvent::StepFailed(e)) => FlowAction::EmitError(e),
        (FlowState::Syncing, FlowEvent::SyncSucceeded(p)) => FlowAction::EmitSuccess(p),
        (FlowState::Syncing, FlowEvent::StepFailed(e)) => FlowAction::EmitError(e),
        (_, _) => FlowAction::NoAction,
    }
}

/// Whether the transition must remove the attempt's pending store entry.
/// The timeout expires the entry itself; a pipeline-step error removes a
/// possibly still-pending entry; a closed channel means the entry was
/// already consumed elsewhere, so nothing is removed.
pub open spec fn flow_cleanup(st: FlowState, ev: FlowEvent) -> bool {
    match (st, ev) {
        (FlowState::AwaitingCallback, FlowEvent::TimedOut) => true,
        (FlowState::Exchanging, FlowEvent::StepFailed(_)) => true,
        (FlowState::FetchingProfile, FlowEvent::StepFailed(_)) => true,
        (FlowState::Syncing, FlowEvent::StepFailed(_)) => true,
        (_, _) => false,
    }
}

/// Performs one transition of the flow state machine.
pub fn flow_step(st: FlowState, ev: FlowEvent) -> (r: FlowStep)
    ensures
        r.next == flow_next(st, ev),
        r.action == flow_action(st, ev),
        r.cleanup == flow_cleanup(st, ev),
{
    match (st, ev) {
        (FlowState::AwaitingCallback, FlowEvent::CodeDelivered(code)) => FlowStep {
            next: FlowState::Exchanging,
            action: FlowAction::ExchangeCode(code),
            cleanup: false,
        },
        (FlowState::AwaitingCallback, FlowEvent::ChannelClosed) => FlowStep {
            next: FlowState::Failed,
            action: FlowAction::EmitError(AuthError::Cancelled),
            cleanup: false,
        },
        (FlowState::AwaitingCallback, FlowEvent::TimedOut) => FlowStep {
            next: FlowState::Failed,
            action: FlowAction::EmitError(AuthError::CallbackTimeout),
            cleanup: true,
        },
        (FlowState::Exchanging, FlowEvent::ExchangeSucceeded(token)) => FlowStep {
            next: FlowState::FetchingProfile,
            action: FlowAction::FetchProfile(token),
            cleanup: false,
        },
        (FlowState::Exchanging, FlowEvent::StepFailed(e)) => FlowStep {
            next: FlowState::Failed,
            action: FlowAction::EmitError(e),
            cleanup: true,
        },
        (FlowState::FetchingProfile, FlowEvent::ProfileFetched(p)) => FlowStep {
            next: FlowState::Syncing,
            action: FlowAction::SyncProfile(p),
            cleanup: false,
        },
        (FlowState::FetchingProfile, FlowEvent::StepFailed(e)) => FlowStep {
            next: FlowState::Failed,
            action: FlowAction::EmitError(e),
            cleanup: true,
        },
        (FlowState::Syncing, FlowEvent::SyncSucceeded(p)) => FlowStep {
            next: FlowState::Completed,
            action: FlowAction::EmitSuccess(p),
            cleanup: false,
        },
        (FlowState::Syncing, FlowEvent::StepFailed(e)) => FlowStep {
            next: FlowState::Failed,
            action: FlowAction::EmitError(e),
            cleanup: true,
        },
        (s, _) => FlowStep { next: s, action: FlowAction::NoAction, cleanup: false },
    }
}

/// The state reached from `st` after the whole event trace.
pub open spec fn flow_final(st: FlowState, events: Seq<FlowEvent>) -> FlowState
    decreases events.len(),
{
    if events.len() == 0 {
        st
    } else {
        flow_final(flow_next(st, events[0]), events.drop_first())
    }
}

/// The actions owed along the whole event trace, in order.
pub open spec fn flow_actions(st: FlowState, events: Seq<FlowEvent>) -> Seq<FlowAction>
    decreases events.len(),
{
    if events.len() == 0 {
        Seq::empty()
    } else {
        seq![flow_action(st, events[0])] + flow_actions(flow_next(st, events[0]), events.drop_first())
    }
}

/// A failed attempt is over: from `Failed` no event changes the state and no
/// further action is ever owed.
pub proof fn lemma_failed_is_terminal(events: Seq<FlowEvent>)
    ensures
        flow_final(FlowState::Failed, events) == FlowState::Failed,
        forall|i: int|
            0 <= i < flow_actions(FlowState::Failed, events).len() ==> #[trigger] flow_actions(
                FlowState::Failed,
                events,
            )[i] is NoAction,
    decreases events.len(),
{
    if events.len() > 0 {
        lemma_failed_is_terminal(events.drop_first());
    }
}

/// The ordering discipline of the pipeline, stated from an arbitrary start
/// state: a profile fetch is only ever ordered from `Exchanging` or after a
/// code exchange was ordered, and so on down the pipeline.
proof fn lemma_pipeline_order_from(st: FlowState, events: Seq<FlowEvent>)
    ensures
        ({
            let acts = flow_actions(st, events);
            &&& forall|i: int|
                0 <= i < acts.len() && (#[trigger] acts[i]) is FetchProfile ==> st is Exchanging
                    || exists|j: int| 0 <= j < i && (#[trigger] acts[j]) is ExchangeCode
            &&& forall|i: int|
                0 <= i < acts.len() && (#[trigger] acts[i]) is SyncProfile ==> st is FetchingProfile
                    || exists|j: int| 0 <= j < i && (#[trigger] acts[j]) is FetchProfile
            &&& forall|i: int|
                0 <= i < acts.len() && (#[trigger] acts[i]) is EmitSuccess ==> st is Syncing
                    || exists|j: int| 0 <= j < i && (#[trigger] acts[j]) is SyncProfile
        }),
    decreases events.len(),
{
    let acts = flow_actions(st, events);
    if events.len() > 0 {
        let e0 = events[0];
        let st1 = flow_next(st, e0);
        let rest = events.drop_first();
        let acts1 = flow_actions(st1, rest);
        lemma_pipeline_order_from(st1, rest);
        assert forall|i: int|
            0 <= i < acts.len() && (#[trigger] acts[i]) is FetchProfile implies st is Exchanging
                || exists|j: int| 0 <= j < i && (#[trigger] acts[j]) is ExchangeCode by {
            if i > 0 {
                assert(acts[i] == acts1[i - 1]);
                if st1 is Exchanging && !(st is Exchanging) {
                    assert(acts[0] is ExchangeCode);
                } else if !(st1 is Exchanging) {
                    let j = choose|j: int| 0 <= j < i - 1 && (#[trigger] acts1[j]) is ExchangeCode;
                    assert(acts[j + 1] == acts1[j]);
                }
            }
        }
        assert forall|i: int|
            0 <= i < acts.len() && (#[trigger] acts[i]) is SyncProfile implies st is FetchingProfile
                || exists|j: int| 0 <= j < i && (#[trigger] acts[j]) is FetchProfile by {
            if i > 0 {
                assert(acts[i] == acts1[i - 1]);
                if st1 is FetchingProfile && !(st is FetchingProfile) {
                    assert(acts[0] is FetchProfile);
                } else if !(st1 is FetchingProfile) {
                    let j = choose|j: int| 0 <= j < i - 1 && (#[trigger] acts1[j]) is FetchProfile;
                    assert(acts[j + 1] == acts1[j]);
                }
            }
        }
        assert forall|i: int|
            0 <= i < acts.len() && (#[trigger] acts[i]) is EmitSuccess implies st is Syncing
                || exists|j: int| 0 <= j < i && (#[trigger] acts[j]) is SyncProfile by {
            if i > 0 {
                assert(acts[i] == acts1[i - 1]);
                if st1 is Syncing && !(st is Syncing) {
                    assert(acts[0] is SyncProfile);
                } else if !(st1 is Syncing) {
                    let j = choose|j: int| 0 <= j < i - 1 && (#[trigger] acts1[j]) is SyncProfile;
                    assert(acts[j + 1] == acts1[j]);
                }
            }
        }
    }
}

/// After a failure nothing more happens: once an `EmitError` action is
/// ordered, every later action of the trace is `NoAction`.
proof fn lemma_failure_halts_from(st: FlowState, events: Seq<FlowEvent>)
    ensures
        ({
            let acts = flow_actions(st, events);
            forall|i: int, j: int|
                0 <= i < j < acts.len() && (#[trigger] acts[i]) is EmitError
                    ==> (#[trigger] acts[j]) is NoAction
        }),
    decreases events.len(),
{
    let acts = flow_actions(st, events);
    if events.len() > 0 {
        let e0 = events[0];
        let st1 = flow_next(st, e0);
        let rest = events.drop_first();
        let acts1 = flow_actions(st1, rest);
        lemma_failure_halts_from(st1, rest);
        lemma_failed_is_terminal(rest);
        assert forall|i: int, j: int|
            0 <= i < j < acts.len() && (#[trigger] acts[i]) is EmitError implies (
        #[trigger] acts[j]) is NoAction by {
            if i == 0 {
                assert(st1 is Failed);
                assert(acts[j] == acts1[j - 1]);
            } else {
                assert(acts[i] == acts1[i - 1] && acts[j] == acts1[j - 1]);
            }
        }
    }
}

/// The pipeline runs in order, and a failure at any step prevents every
/// later step. Over any event trace of one attempt: a profile fetch is
/// ordered only after a code exchange was, a backend sync only after a
/// profile fetch, the success event only after a backend sync, and after a
/// failure event every remaining action is `NoAction`.
pub proof fn lemma_pipeline_order(events: Seq<FlowEvent>)
    ensures
        ({
            let acts = flow_actions(FlowState::AwaitingCallback, events);
            &&& forall|i: int|
                0 <= i < acts.len() && (#[trigger] acts[i]) is FetchProfile ==> exists|j: int|
                    0 <= j < i && (#[trigger] acts[j]) is ExchangeCode
            &&& forall|i: int|
                0 <= i < acts.len() && (#[trigger] acts[i]) is SyncProfile ==> exists|j: int|
                    0 <= j < i && (#[trigger] acts[j]) is FetchProfile
            &&& forall|i: int|
                0 <= i < acts.len() && (#[trigger] acts[i]) is EmitSuccess ==> exists|j: int|
                    0 <= j < i && (#[trigger] acts[j]) is SyncProfile
            &&& forall|i: int, j: int|
                0 <= i < j < acts.len() && (#[trigger] acts[i]) is EmitError
                    ==> (#[trigger] acts[j]) is NoAction
        }),
{
    lemma_pipeline_order_from(FlowState::AwaitingCallback, events);
    lemma_failure_halts_from(FlowState::AwaitingCallback, events);
}

/// An attempt whose channel receives no value within the timeout window
/// fails with the timeout cause, its transition orders the entry's removal,
/// and the expired store holds no entry for its token.
pub proof fn lemma_timeout_failure<V>(m: Map<Seq<char>, V>, t: Seq<char>)
    ensures
        flow_next(FlowState::AwaitingCallback, FlowEvent::TimedOut) == FlowState::Failed,
        flow_action(FlowState::AwaitingCallback, FlowEvent::TimedOut) == FlowAction::EmitError(
            AuthError::CallbackTimeout,
        ),
        flow_cleanup(FlowState::AwaitingCallback, FlowEvent::TimedOut),
        !spec_expire(m, t).1.contains_key(t),
{
}

} // verus!
