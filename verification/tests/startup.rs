use librespot_connect::error::Error;
use librespot_connect::startup::{
    first_setup_action, next_setup_action, SetupAction, SetupOrder, SetupStep,
};

fn run_all(order: SetupOrder) -> Vec<SetupStep> {
    let mut steps = vec![];
    let mut action = first_setup_action(order);
    loop {
        match action {
            SetupAction::Perform(step) => {
                steps.push(step);
                action = next_setup_action(order, step, Ok(()));
            }
            SetupAction::Complete => return steps,
            SetupAction::Fail(_) => panic!("no step failed"),
        }
    }
}

#[test]
fn observer_listens_before_creating_its_state() {
    assert_eq!(
        run_all(SetupOrder::Observer),
        vec![
            SetupStep::ListenConnectionIds,
            SetupStep::CreateConnectState,
            SetupStep::ListenClusterUpdates,
            SetupStep::AcquireClientToken,
            SetupStep::Connect,
            SetupStep::AcquireAuthToken,
        ]
    );
}

#[test]
fn task_creates_its_state_first() {
    assert_eq!(
        run_all(SetupOrder::Task),
        vec![
            SetupStep::CreateConnectState,
            SetupStep::ListenConnectionIds,
            SetupStep::ListenClusterUpdates,
            SetupStep::AcquireClientToken,
            SetupStep::Connect,
            SetupStep::AcquireAuthToken,
        ]
    );
}

#[test]
fn a_failed_step_ends_start_up_with_its_error() {
    let err = Error::channel_closed();
    assert_eq!(
        next_setup_action(SetupOrder::Task, SetupStep::Connect, Err(err)),
        SetupAction::Fail(Error::channel_closed())
    );
}
