//! The observing connect device task: the decisions of its start-up, of its
//! event loop and of its handling of a new connection id.
use vstd::prelude::*;

use crate::error::{Error, ErrorCause, ErrorKind};
use crate::protocol::{Cluster, ClusterUpdate};
use crate::spirc::SpircError;

verus! {

/// Where the device stands in a cluster once it has announced itself.
#[derive(Clone, Copy, Debug, PartialEq, Eq, Structural)]
pub enum ClusterStanding {
    /// Another device is active, or another session plays: leave it be.
    ActiveElsewhere,
    /// No device is active, but there is no playback state to take over.
    NothingToTransfer,
    /// No device is active and the session's state could be taken over.
    CanTakeOver,
}

/// Whether the cluster's playback session is ours or unset.
pub open spec fn same_session(cluster: Cluster, own_session_id: Seq<char>) -> bool {
    cluster.player_state.session_id@ == own_session_id || cluster.player_state.session_id@.len() == 0
}

/// Where a device whose session is `own_session_id` stands in `cluster`.
pub open spec fn standing_in(cluster: Cluster, own_session_id: Seq<char>) -> ClusterStanding {
    if cluster.active_device_id@.len() != 0 || !same_session(cluster, own_session_id) {
        ClusterStanding::ActiveElsewhere
    } else if cluster.transfer_data@.len() == 0 {
        ClusterStanding::NothingToTransfer
    } else {
        ClusterStanding::CanTakeOver
    }
}

/// Where a device whose session is `own_session_id` stands in `cluster`.
pub fn cluster_standing(cluster: &Cluster, own_session_id: &str) -> (s: ClusterStanding)
    ensures
        s == standing_in(*cluster, own_session_id@),
{
    let own = own_session_id.to_owned();
    let same = cluster.player_state.session_id == own
        || cluster.player_state.session_id.as_str().is_empty();
    if !cluster.active_device_id.as_str().is_empty() || !same {
        ClusterStanding::ActiveElsewhere
    } else if cluster.transfer_data.len() == 0 {
        ClusterStanding::NothingToTransfer
    } else {
        ClusterStanding::CanTakeOver
    }
}

/// The outcome of a connection id update, once the device's state was put.
///
/// `put_state` is the cluster that the connect-state service answered with,
/// or `None` when putting the state failed or its answer did not parse: that
/// is an `Aborted` [`SpircError::FailedDealerSetup`].
pub fn handle_connection_id_update(put_state: Option<Cluster>, own_session_id: &str) -> (r: Result<
    ClusterStanding,
    Error,
>)
    ensures
        put_state is None <==> r is Err,
        put_state matches Some(c) ==> r == Ok::<ClusterStanding, Error>(
            standing_in(c, own_session_id@),
        ),
        r matches Err(e) ==> e == (Error {
            kind: ErrorKind::Aborted,
            cause: ErrorCause::Spirc(SpircError::FailedDealerSetup),
        }),
{
    match put_state {
        Some(cluster) => Ok(cluster_standing(&cluster, own_session_id)),
        None => Err(Error::from(SpircError::FailedDealerSetup)),
    }
}


/// Where the task's event loop stands.
#[derive(Clone, Copy, Debug, PartialEq, Eq, Structural)]
pub enum RunPhase {
    /// The dealer is being started.
    StartingDealer,
    /// Waiting for the next connection id or cluster update.
    Listening,
    /// A new connection id is being handled.
    HandlingConnectionId,
    /// A cluster update is being passed on to the observer.
    DispatchingCluster,
    /// The loop has ended and the dealer is being closed.
    ClosingDealer,
    /// The task has ended.
    Finished,
}

/// What happened since the task's last action.
#[derive(Debug, PartialEq)]
pub enum RunEvent {
    /// The dealer started.
    DealerStarted,
    /// Starting the dealer failed.
    DealerStartFailed,
    /// The session turned out to be invalid before waiting for an update.
    SessionInvalid,
    /// The dealer announced a new connection id.
    ConnectionIdReceived(String),
    /// A connection id message could not be read.
    ConnectionIdUnparsable,
    /// The stream of connection ids ended.
    ConnectionIdsEnded,
    /// The dealer pushed a cluster update.
    ClusterUpdateReceived(ClusterUpdate),
    /// A cluster update message could not be read.
    ClusterUpdateUnparsable,
    /// The stream of cluster updates ended.
    ClusterUpdatesEnded,
    /// The connection id was handled.
    ConnectionIdHandled,
    /// Handling the connection id failed.
    ConnectionIdFailed,
    /// The cluster update reached the observer.
    ClusterDispatched,
    /// The cluster update could not be passed on.
    ClusterDispatchFailed,
    /// The dealer is closed.
    DealerClosed,
}

/// What the task does next.
#[derive(Debug, PartialEq)]
pub enum RunAction {
    /// Start the dealer.
    StartDealer,
    /// If the session is invalid report so, else wait for the next
    /// connection id or cluster update.
    AwaitUpdate,
    /// Handle the new connection id.
    HandleConnectionId(String),
    /// Pass the cluster update on to the observer.
    DispatchCluster(ClusterUpdate),
    /// Close the dealer.
    CloseDealer,
    /// End the task.
    Stop,
    /// The event was not one the phase waits for: nothing to do.
    Ignore,
}

/// The phase a task starts in, with its first action.
pub open spec fn run_start() -> (RunPhase, RunAction) {
    (RunPhase::StartingDealer, RunAction::StartDealer)
}

/// The task's next phase and action, given its phase and what happened.
pub open spec fn run_step(phase: RunPhase, event: RunEvent) -> (RunPhase, RunAction) {
    match phase {
        RunPhase::StartingDealer => match event {
            RunEvent::DealerStarted => (RunPhase::Listening, RunAction::AwaitUpdate),
            RunEvent::DealerStartFailed => (RunPhase::Finished, RunAction::Stop),
            _ => (phase, RunAction::Ignore),
        },
        RunPhase::Listening => match event {
            RunEvent::SessionInvalid => (RunPhase::ClosingDealer, RunAction::CloseDealer),
            RunEvent::ConnectionIdReceived(id) => (
                RunPhase::HandlingConnectionId,
                RunAction::HandleConnectionId(id),
            ),
            RunEvent::ConnectionIdUnparsable => (RunPhase::Listening, RunAction::AwaitUpdate),
            RunEvent::ConnectionIdsEnded => (RunPhase::ClosingDealer, RunAction::CloseDealer),
            RunEvent::ClusterUpdateReceived(update) => (
                RunPhase::DispatchingCluster,
                RunAction::DispatchCluster(update),
            ),
            RunEvent::ClusterUpdateUnparsable => (RunPhase::Listening, RunAction::AwaitUpdate),
            RunEvent::ClusterUpdatesEnded => (RunPhase::ClosingDealer, RunAction::CloseDealer),
            _ => (phase, RunAction::Ignore),
        },
        RunPhase::HandlingConnectionId => match event {
            RunEvent::ConnectionIdHandled => (RunPhase::Listening, RunAction::AwaitUpdate),
            RunEvent::ConnectionIdFailed => (RunPhase::ClosingDealer, RunAction::CloseDealer),
            _ => (phase, RunAction::Ignore),
        },
        RunPhase::DispatchingCluster => match event {
            RunEvent::ClusterDispatched => (RunPhase::Listening, RunAction::AwaitUpdate),
            RunEvent::ClusterDispatchFailed => (RunPhase::Listening, RunAction::AwaitUpdate),
            _ => (phase, RunAction::Ignore),
        },
        RunPhase::ClosingDealer => match event {
            RunEvent::DealerClosed => (RunPhase::Finished, RunAction::Stop),
            _ => (phase, RunAction::Ignore),
        },
        RunPhase::Finished => (phase, RunAction::Ignore),
    }
}

/// Law: where a device stands. Another device is active, or another
/// (non-empty) session plays, exactly when it stands `ActiveElsewhere`,
/// whatever the transfer data; otherwise it can take over exactly when there
/// is transfer data, and has nothing to transfer exactly when there is none.
pub proof fn lemma_standing_conditions(cluster: Cluster, own_session_id: Seq<char>)
    ensures
        (standing_in(cluster, own_session_id) == ClusterStanding::ActiveElsewhere) <==> (
        cluster.active_device_id@.len() > 0 || (cluster.player_state.session_id@.len() > 0
            && cluster.player_state.session_id@ != own_session_id)),
        (standing_in(cluster, own_session_id) == ClusterStanding::CanTakeOver) <==> (
        cluster.active_device_id@.len() == 0 && (cluster.player_state.session_id@.len() == 0
            || cluster.player_state.session_id@ == own_session_id) && cluster.transfer_data@.len()
            > 0),
        (standing_in(cluster, own_session_id) == ClusterStanding::NothingToTransfer) <==> (
        cluster.active_device_id@.len() == 0 && (cluster.player_state.session_id@.len() == 0
            || cluster.player_state.session_id@ == own_session_id) && cluster.transfer_data@.len()
            == 0),
{
}

/// The phase a task starts in, with its first action: start the dealer.
pub fn run_begin() -> (r: (RunPhase, RunAction))
    ensures
        r == run_start(),
{
    (RunPhase::StartingDealer, RunAction::StartDealer)
}

/// The task's next phase and action, given its phase and what happened.
///
/// A failed dealer start ends the task at once; the loop ends, and the
/// dealer is closed, when the session is invalid, when either stream ends
/// or when handling a connection id fails. Unreadable messages and failed
/// dispatches are skipped.
pub fn run_next(phase: RunPhase, event: RunEvent) -> (r: (RunPhase, RunAction))
    ensures
        r == run_step(phase, event),
{
    match phase {
        RunPhase::StartingDealer => match event {
            RunEvent::DealerStarted => (RunPhase::Listening, RunAction::AwaitUpdate),
            RunEvent::DealerStartFailed => (RunPhase::Finished, RunAction::Stop),
            _ => (phase, RunAction::Ignore),
        },
        RunPhase::Listening => match event {
            RunEvent::SessionInvalid => (RunPhase::ClosingDealer, RunAction::CloseDealer),
            RunEvent::ConnectionIdReceived(id) => (
                RunPhase::HandlingConnectionId,
                RunAction::HandleConnectionId(id),
            ),
            RunEvent::ConnectionIdUnparsable => (RunPhase::Listening, RunAction::AwaitUpdate),
            RunEvent::ConnectionIdsEnded => (RunPhase::ClosingDealer, RunAction::CloseDealer),
            RunEvent::ClusterUpdateReceived(update) => (
                RunPhase::DispatchingCluster,
                RunAction::DispatchCluster(update),
            ),
            RunEvent::ClusterUpdateUnparsable => (RunPhase::Listening, RunAction::AwaitUpdate),
            RunEvent::ClusterUpdatesEnded => (RunPhase::ClosingDealer, RunAction::CloseDealer),
            _ => (phase, RunAction::Ignore),
        },
        RunPhase::HandlingConnectionId => match event {
            RunEvent::ConnectionIdHandled => (RunPhase::Listening, RunAction::AwaitUpdate),
            RunEvent::ConnectionIdFailed => (RunPhase::ClosingDealer, RunAction::CloseDealer),
            _ => (phase, RunAction::Ignore),
        },
        RunPhase::DispatchingCluster => match event {
            RunEvent::ClusterDispatched => (RunPhase::Listening, RunAction::AwaitUpdate),
            RunEvent::ClusterDispatchFailed => (RunPhase::Listening, RunAction::AwaitUpdate),
            _ => (phase, RunAction::Ignore),
        },
        RunPhase::ClosingDealer => match event {
            RunEvent::DealerClosed => (RunPhase::Finished, RunAction::Stop),
            _ => (phase, RunAction::Ignore),
        },
        RunPhase::Finished => (phase, RunAction::Ignore),
    }
}


/// The phase reached and the actions taken when `events` happen in turn to a
/// task in `phase`.
pub open spec fn run_trace(phase: RunPhase, events: Seq<RunEvent>) -> (RunPhase, Seq<RunAction>)
    decreases events.len(),
{
    if events.len() == 0 {
        (phase, Seq::empty())
    } else {
        let (next, action) = run_step(phase, events[0]);
        let (last, rest) = run_trace(next, events.drop_first());
        (last, seq![action] + rest)
    }
}

/// How many of `actions` close the dealer.
pub open spec fn count_closes(actions: Seq<RunAction>) -> nat
    decreases actions.len(),
{
    if actions.len() == 0 {
        0
    } else {
        (if actions[0] is CloseDealer { 1nat } else { 0nat }) + count_closes(actions.drop_first())
    }
}

/// Whether the task is inside its event loop.
pub open spec fn in_loop(phase: RunPhase) -> bool {
    phase is Listening || phase is HandlingConnectionId || phase is DispatchingCluster
}

/// A trace takes one action per event.
pub proof fn lemma_run_trace_len(phase: RunPhase, events: Seq<RunEvent>)
    ensures
        run_trace(phase, events).1.len() == events.len(),
    decreases events.len(),
{
    if events.len() > 0 {
        let (next, action) = run_step(phase, events[0]);
        lemma_run_trace_len(next, events.drop_first());
    }
}

proof fn lemma_closes_bounded(phase: RunPhase, events: Seq<RunEvent>)
    ensures
        count_closes(run_trace(phase, events).1) <= (if in_loop(phase) || phase is StartingDealer {
            1nat
        } else {
            0nat
        }),
    decreases events.len(),
{
    if events.len() > 0 {
        let (next, action) = run_step(phase, events[0]);
        let (last, rest) = run_trace(next, events.drop_first());
        lemma_closes_bounded(next, events.drop_first());
        let acts = seq![action] + rest;
        assert(acts.drop_first() =~= rest);
        assert(acts[0] == action);
    }
}

/// Law: a task closes the dealer at most once, whatever happens to it.
pub proof fn lemma_dealer_closed_at_most_once(events: Seq<RunEvent>)
    ensures
        count_closes(run_trace(run_start().0, events).1) <= 1,
{
    lemma_closes_bounded(run_start().0, events);
}

/// Law: once a task has ended, nothing that happens makes it act again.
pub proof fn lemma_finished_is_final(events: Seq<RunEvent>)
    ensures
        run_trace(RunPhase::Finished, events).0 == RunPhase::Finished,
        forall|k: int|
            0 <= k < events.len() ==> run_trace(RunPhase::Finished, events).1[k] == RunAction::Ignore,
    decreases events.len(),
{
    lemma_run_trace_len(RunPhase::Finished, events);
    if events.len() > 0 {
        let rest = run_trace(RunPhase::Finished, events.drop_first()).1;
        lemma_finished_is_final(events.drop_first());
        let acts = seq![RunAction::Ignore] + rest;
        assert forall|k: int| 0 <= k < events.len() implies acts[k] == RunAction::Ignore by {
            if k > 0 {
                assert(acts[k] == rest[k - 1]);
            }
        }
    }
}

proof fn lemma_idle_without_start(phase: RunPhase, events: Seq<RunEvent>)
    requires
        phase is StartingDealer || phase is Finished,
        forall|i: int| 0 <= i < events.len() ==> !(events[i] is DealerStarted),
    ensures
        forall|k: int|
            0 <= k < events.len() ==> (run_trace(phase, events).1[k] is Stop || run_trace(
                phase,
                events,
            ).1[k] is Ignore),
    decreases events.len(),
{
    lemma_run_trace_len(phase, events);
    if events.len() > 0 {
        let (next, action) = run_step(phase, events[0]);
        let tail = events.drop_first();
        assert forall|i: int| 0 <= i < tail.len() implies !(tail[i] is DealerStarted) by {
            assert(tail[i] == events[i + 1]);
        }
        lemma_idle_without_start(next, tail);
        let rest = run_trace(next, tail).1;
        let acts = seq![action] + rest;
        assert forall|k: int| 0 <= k < events.len() implies (acts[k] is Stop || acts[k] is Ignore) by {
            if k > 0 {
                assert(acts[k] == rest[k - 1]);
            }
        }
    }
}

/// Law: unless the dealer starts, a task handles no update and closes
/// nothing: all it does is stop.
pub proof fn lemma_no_work_without_dealer(events: Seq<RunEvent>)
    requires
        forall|i: int| 0 <= i < events.len() ==> !(events[i] is DealerStarted),
    ensures
        forall|k: int|
            0 <= k < events.len() ==> (run_trace(run_start().0, events).1[k] is Stop || run_trace(
                run_start().0,
                events,
            ).1[k] is Ignore),
{
    lemma_idle_without_start(run_start().0, events);
}

/// Law: a task whose loop has begun ends only after closing the dealer.
pub proof fn lemma_loop_exit_closes_dealer(phase: RunPhase, events: Seq<RunEvent>)
    requires
        in_loop(phase) || phase is ClosingDealer,
        run_trace(phase, events).0 == RunPhase::Finished,
    ensures
        phase is ClosingDealer || exists|k: int|
            0 <= k < events.len() && run_trace(phase, events).1[k] == RunAction::CloseDealer,
    decreases events.len(),
{
    lemma_run_trace_len(phase, events);
    if events.len() > 0 {
        let (next, action) = run_step(phase, events[0]);
        let tail = events.drop_first();
        let rest = run_trace(next, tail).1;
        let acts = seq![action] + rest;
        assert(acts[0] == action);
        if in_loop(phase) {
            if action == RunAction::CloseDealer {
                assert(acts[0] == RunAction::CloseDealer);
            } else {
                lemma_loop_exit_closes_dealer(next, tail);
                let k = choose|k: int| 0 <= k < tail.len() && rest[k] == RunAction::CloseDealer;
                assert(acts[k + 1] == rest[k]);
            }
        }
    }
}

/// The cluster updates that `actions` pass on to the observer, in order.
pub open spec fn dispatched_updates(actions: Seq<RunAction>) -> Seq<ClusterUpdate>
    decreases actions.len(),
{
    if actions.len() == 0 {
        Seq::empty()
    } else {
        let rest = dispatched_updates(actions.drop_first());
        match actions[0] {
            RunAction::DispatchCluster(update) => seq![update] + rest,
            _ => rest,
        }
    }
}

/// The readable cluster updates among `events`, in order.
pub open spec fn received_updates(events: Seq<RunEvent>) -> Seq<ClusterUpdate>
    decreases events.len(),
{
    if events.len() == 0 {
        Seq::empty()
    } else {
        let rest = received_updates(events.drop_first());
        match events[0] {
            RunEvent::ClusterUpdateReceived(update) => seq![update] + rest,
            _ => rest,
        }
    }
}

/// Whether each of `events` is one that the task, starting in `phase`,
/// waits for when it comes: the events of a run that follows the actions.
pub open spec fn follows_actions(phase: RunPhase, events: Seq<RunEvent>) -> bool
    decreases events.len(),
{
    events.len() == 0 || {
        let (next, action) = run_step(phase, events[0]);
        !(action is Ignore) && follows_actions(next, events.drop_first())
    }
}

/// Law: over a whole run, the updates passed on to the observer are exactly
/// the readable cluster updates received, each once, unchanged and in the
/// order they came; unreadable updates and connection ids are never passed on.
pub proof fn lemma_updates_forwarded_in_order(phase: RunPhase, events: Seq<RunEvent>)
    requires
        follows_actions(phase, events),
    ensures
        dispatched_updates(run_trace(phase, events).1) == received_updates(events),
    decreases events.len(),
{
    if events.len() > 0 {
        let (next, action) = run_step(phase, events[0]);
        let tail = events.drop_first();
        lemma_updates_forwarded_in_order(next, tail);
        let rest = run_trace(next, tail).1;
        let acts = seq![action] + rest;
        assert(acts.drop_first() =~= rest);
        assert(acts[0] == action);
    }
}

/// Law: how a task ends. It stops exactly when it enters `Finished`, and it
/// enters `Finished` only after a failed dealer start or once the dealer is
/// closed; every other accepted event keeps it running.
pub proof fn lemma_stop_only_at_the_end(phase: RunPhase, event: RunEvent)
    ensures
        (run_step(phase, event).1 is Stop) <==> (run_step(phase, event).0 is Finished
            && !(phase is Finished)),
        (run_step(phase, event).0 is Finished && !(phase is Finished)) <==> ((phase is StartingDealer
            && event is DealerStartFailed) || (phase is ClosingDealer && event is DealerClosed)),
{
}

/// Law: the loop goes on after every update it handles. Once a cluster
/// update has been passed on, whether or not that worked, and once a
/// connection id has been handled, the task waits for the next update.
pub proof fn lemma_loop_continues_after_handling(event: RunEvent)
    ensures
        (event is ClusterDispatched || event is ClusterDispatchFailed) ==> run_step(
            RunPhase::DispatchingCluster,
            event,
        ) == (RunPhase::Listening, RunAction::AwaitUpdate),
        event is ConnectionIdHandled ==> run_step(RunPhase::HandlingConnectionId, event) == (
            RunPhase::Listening,
            RunAction::AwaitUpdate,
        ),
{
}

/// Law: what ends the loop and what does not. A failed connection id update
/// or an invalid session closes the dealer; a failed dispatch or an
/// unreadable message is skipped and the loop goes on.
pub proof fn lemma_loop_policy()
    ensures
        run_step(RunPhase::HandlingConnectionId, RunEvent::ConnectionIdFailed) == (
            RunPhase::ClosingDealer,
            RunAction::CloseDealer,
        ),
        run_step(RunPhase::Listening, RunEvent::SessionInvalid) == (
            RunPhase::ClosingDealer,
            RunAction::CloseDealer,
        ),
        run_step(RunPhase::DispatchingCluster, RunEvent::ClusterDispatchFailed) == (
            RunPhase::Listening,
            RunAction::AwaitUpdate,
        ),
        run_step(RunPhase::Listening, RunEvent::ConnectionIdUnparsable) == (
            RunPhase::Listening,
            RunAction::AwaitUpdate,
        ),
        run_step(RunPhase::Listening, RunEvent::ClusterUpdateUnparsable) == (
            RunPhase::Listening,
            RunAction::AwaitUpdate,
        ),
{
}

} // verus!
