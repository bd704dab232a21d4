//! The start-up sequence of a connect device: which step comes next, and
//! when start-up fails.
use vstd::prelude::*;

use crate::error::Error;

verus! {

/// A step of a device's start-up.
#[derive(Clone, Copy, Debug, PartialEq, Eq, Structural)]
pub enum SetupStep {
    /// Create the connect state of the device.
    CreateConnectState,
    /// Register the listener for connection id messages.
    ListenConnectionIds,
    /// Register the listener for cluster updates.
    ListenClusterUpdates,
    /// Acquire the client token ahead of time.
    AcquireClientToken,
    /// Connect the session with the credentials.
    Connect,
    /// Acquire the access token, which needs an authenticated session.
    AcquireAuthToken,
}

/// The two devices differ only in when they create their connect state.
#[derive(Clone, Copy, Debug, PartialEq, Eq, Structural)]
pub enum SetupOrder {
    /// The stand-alone observer: it listens for connection ids first.
    Observer,
    /// The observer task: it creates its connect state first.
    Task,
}

/// What start-up does next.
#[derive(Debug, PartialEq)]
pub enum SetupAction {
    /// Perform this step.
    Perform(SetupStep),
    /// Start-up failed with this error.
    Fail(Error),
    /// All steps succeeded: hand out the device and its task.
    Complete,
}

/// The steps of a start-up, in the order they are performed.
pub open spec fn setup_steps(order: SetupOrder) -> Seq<SetupStep> {
    match order {
        SetupOrder::Observer => seq![
            SetupStep::ListenConnectionIds,
            SetupStep::CreateConnectState,
            SetupStep::ListenClusterUpdates,
            SetupStep::AcquireClientToken,
            SetupStep::Connect,
            SetupStep::AcquireAuthToken,
        ],
        SetupOrder::Task => seq![
            SetupStep::CreateConnectState,
            SetupStep::ListenConnectionIds,
            SetupStep::ListenClusterUpdates,
            SetupStep::AcquireClientToken,
            SetupStep::Connect,
            SetupStep::AcquireAuthToken,
        ],
    }
}

/// The first thing start-up does: perform its first step.
pub fn first_setup_action(order: SetupOrder) -> (a: SetupAction)
    ensures
        a == SetupAction::Perform(setup_steps(order)[0]),
{
    match order {
        SetupOrder::Observer => SetupAction::Perform(SetupStep::ListenConnectionIds),
        SetupOrder::Task => SetupAction::Perform(SetupStep::CreateConnectState),
    }
}

/// What start-up does once step `done` has given `outcome`.
///
/// An error ends start-up with that error; a success leads to the step that
/// follows `done`, or completes start-up after the last one.
pub fn next_setup_action(order: SetupOrder, done: SetupStep, outcome: Result<(), Error>) -> (a:
    SetupAction)
    ensures
        outcome matches Err(e) ==> a == SetupAction::Fail(e),
        outcome is Ok ==> forall|i: int|
            0 <= i < setup_steps(order).len() && #[trigger] setup_steps(order)[i] == done ==> a == (if i + 1
                == setup_steps(order).len() {
                SetupAction::Complete
            } else {
                SetupAction::Perform(setup_steps(order)[i + 1])
            }),
{
    match outcome {
        Err(e) => SetupAction::Fail(e),
        Ok(()) => {
            let next = match (order, done) {
                (SetupOrder::Observer, SetupStep::ListenConnectionIds) => Some(
                    SetupStep::CreateConnectState,
                ),
                (SetupOrder::Observer, SetupStep::CreateConnectState) => Some(
                    SetupStep::ListenClusterUpdates,
                ),
                (SetupOrder::Task, SetupStep::CreateConnectState) => Some(
                    SetupStep::ListenConnectionIds,
                ),
                (SetupOrder::Task, SetupStep::ListenConnectionIds) => Some(
                    SetupStep::ListenClusterUpdates,
                ),
                (_, SetupStep::ListenClusterUpdates) => Some(SetupStep::AcquireClientToken),
                (_, SetupStep::AcquireClientToken) => Some(SetupStep::Connect),
                (_, SetupStep::Connect) => Some(SetupStep::AcquireAuthToken),
                (_, SetupStep::AcquireAuthToken) => None,
            };
            match next {
                Some(step) => SetupAction::Perform(step),
                None => SetupAction::Complete,
            }
        },
    }
}

/// The position of `step` in the start-up order.
pub open spec fn setup_position(order: SetupOrder, step: SetupStep) -> int {
    choose|i: int| 0 <= i < setup_steps(order).len() && setup_steps(order)[i] == step
}

/// Law: every start-up performs each step exactly once, connects only after
/// both message listeners are registered and the client token is acquired,
/// and acquires the access token only after connecting.
pub proof fn lemma_connect_after_listeners(order: SetupOrder)
    ensures
        setup_steps(order).len() == 6,
        forall|i: int, j: int|
            0 <= i < j < setup_steps(order).len() ==> setup_steps(order)[i] != setup_steps(order)[j],
        forall|s: SetupStep| #[trigger]
            setup_steps(order).contains(s),
        setup_position(order, SetupStep::ListenConnectionIds) < setup_position(
            order,
            SetupStep::Connect,
        ),
        setup_position(order, SetupStep::ListenClusterUpdates) < setup_position(
            order,
            SetupStep::Connect,
        ),
        setup_position(order, SetupStep::AcquireClientToken) < setup_position(
            order,
            SetupStep::Connect,
        ),
        setup_position(order, SetupStep::Connect) < setup_position(
            order,
            SetupStep::AcquireAuthToken,
        ),
{
    let s = setup_steps(order);
    assert forall|x: SetupStep| #[trigger] s.contains(x) by {
        match x {
            SetupStep::CreateConnectState => {
                assert(s[if order is Observer { 1int } else { 0int }] == x);
            },
            SetupStep::ListenConnectionIds => {
                assert(s[if order is Observer { 0int } else { 1int }] == x);
            },
            SetupStep::ListenClusterUpdates => {
                assert(s[2] == x);
            },
            SetupStep::AcquireClientToken => {
                assert(s[3] == x);
            },
            SetupStep::Connect => {
                assert(s[4] == x);
            },
            SetupStep::AcquireAuthToken => {
                assert(s[5] == x);
            },
        }
    }
    assert(s.contains(SetupStep::ListenConnectionIds));
    assert(s.contains(SetupStep::ListenClusterUpdates));
    assert(s.contains(SetupStep::AcquireClientToken));
    assert(s.contains(SetupStep::Connect));
    assert(s.contains(SetupStep::AcquireAuthToken));
}

} // verus!
