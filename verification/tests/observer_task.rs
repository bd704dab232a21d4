use librespot_connect::error::{Error, ErrorCause, ErrorKind};
use librespot_connect::observer;
use librespot_connect::observer::ObserverError;
use librespot_connect::protocol::{Cluster, ClusterUpdate, PlayerState};
use librespot_connect::spirc::task::observer::{
    cluster_standing, handle_connection_id_update, run_begin, run_next, ClusterStanding, RunAction,
    RunEvent, RunPhase,
};
use librespot_connect::spirc::SpircError;

fn cluster(active: &str, session: &str, transfer: &[u8]) -> Cluster {
    Cluster {
        active_device_id: active.to_string(),
        player_state: PlayerState { session_id: session.to_string() },
        transfer_data: transfer.to_vec(),
    }
}

fn update(active: &str) -> ClusterUpdate {
    ClusterUpdate {
        cluster: cluster(active, "", &[]),
        update_reason: 2,
        ack_id: "ack".to_string(),
        devices_that_changed: vec!["dev".to_string()],
    }
}

#[test]
fn another_active_device_is_left_alone() {
    assert_eq!(cluster_standing(&cluster("phone", "s1", &[1]), "s1"), ClusterStanding::ActiveElsewhere);
}

#[test]
fn another_session_is_left_alone() {
    assert_eq!(cluster_standing(&cluster("", "s2", &[1]), "s1"), ClusterStanding::ActiveElsewhere);
}

#[test]
fn empty_transfer_data_gives_nothing_to_take_over() {
    assert_eq!(cluster_standing(&cluster("", "s1", &[]), "s1"), ClusterStanding::NothingToTransfer);
    assert_eq!(cluster_standing(&cluster("", "", &[]), "s1"), ClusterStanding::NothingToTransfer);
}

#[test]
fn idle_cluster_with_transfer_data_can_be_taken_over() {
    assert_eq!(cluster_standing(&cluster("", "s1", &[7, 8]), "s1"), ClusterStanding::CanTakeOver);
    assert_eq!(cluster_standing(&cluster("", "", &[7]), "s1"), ClusterStanding::CanTakeOver);
}

#[test]
fn failed_put_is_a_failed_dealer_setup() {
    assert_eq!(
        handle_connection_id_update(None, "s1"),
        Err(Error {
            kind: ErrorKind::Aborted,
            cause: ErrorCause::Spirc(SpircError::FailedDealerSetup),
        })
    );
    assert_eq!(
        observer::handle_connection_id_update(None, "s1"),
        Err(Error {
            kind: ErrorKind::Aborted,
            cause: ErrorCause::Observer(ObserverError::FailedDealerSetup),
        })
    );
}

#[test]
fn successful_put_gives_the_standing() {
    assert_eq!(
        handle_connection_id_update(Some(cluster("", "s1", &[1])), "s1"),
        Ok(ClusterStanding::CanTakeOver)
    );
    assert_eq!(
        observer::handle_connection_id_update(Some(cluster("tv", "s1", &[1])), "s1"),
        Ok(ClusterStanding::ActiveElsewhere)
    );
}

#[test]
fn task_starts_by_starting_the_dealer() {
    assert_eq!(run_begin(), (RunPhase::StartingDealer, RunAction::StartDealer));
}

#[test]
fn failed_dealer_start_stops_without_closing() {
    assert_eq!(
        run_next(RunPhase::StartingDealer, RunEvent::DealerStartFailed),
        (RunPhase::Finished, RunAction::Stop)
    );
}

#[test]
fn a_full_run_closes_the_dealer_once() {
    let events = vec![
        RunEvent::DealerStarted,
        RunEvent::ConnectionIdReceived("c1".to_string()),
        RunEvent::ConnectionIdHandled,
        RunEvent::ClusterUpdateReceived(update("phone")),
        RunEvent::ClusterDispatchFailed,
        RunEvent::ClusterUpdateUnparsable,
        RunEvent::ConnectionIdUnparsable,
        RunEvent::ClusterUpdatesEnded,
        RunEvent::DealerClosed,
        RunEvent::DealerStarted,
    ];
    let (mut phase, _) = run_begin();
    let mut actions = vec![];
    for e in events {
        let (p, a) = run_next(phase, e);
        phase = p;
        actions.push(a);
    }
    assert_eq!(
        actions,
        vec![
            RunAction::AwaitUpdate,
            RunAction::HandleConnectionId("c1".to_string()),
            RunAction::AwaitUpdate,
            RunAction::DispatchCluster(update("phone")),
            RunAction::AwaitUpdate,
            RunAction::AwaitUpdate,
            RunAction::AwaitUpdate,
            RunAction::CloseDealer,
            RunAction::Stop,
            RunAction::Ignore,
        ]
    );
    assert_eq!(phase, RunPhase::Finished);
    assert_eq!(actions.iter().filter(|a| **a == RunAction::CloseDealer).count(), 1);
}

#[test]
fn failed_connection_id_update_ends_the_loop() {
    assert_eq!(
        run_next(RunPhase::HandlingConnectionId, RunEvent::ConnectionIdFailed),
        (RunPhase::ClosingDealer, RunAction::CloseDealer)
    );
}

#[test]
fn invalid_session_or_ended_stream_ends_the_loop() {
    for e in [RunEvent::SessionInvalid, RunEvent::ConnectionIdsEnded, RunEvent::ClusterUpdatesEnded] {
        assert_eq!(
            run_next(RunPhase::Listening, e),
            (RunPhase::ClosingDealer, RunAction::CloseDealer)
        );
    }
}

#[test]
fn unexpected_events_are_ignored() {
    assert_eq!(
        run_next(RunPhase::ClosingDealer, RunEvent::ConnectionIdReceived("x".to_string())),
        (RunPhase::ClosingDealer, RunAction::Ignore)
    );
    assert_eq!(
        run_next(RunPhase::Finished, RunEvent::DealerClosed),
        (RunPhase::Finished, RunAction::Ignore)
    );
    assert_eq!(
        run_next(RunPhase::Listening, RunEvent::DealerStarted),
        (RunPhase::Listening, RunAction::Ignore)
    );
}

#[test]
fn readable_updates_are_forwarded_in_order() {
    let events = vec![
        RunEvent::DealerStarted,
        RunEvent::ClusterUpdateReceived(update("a")),
        RunEvent::ClusterDispatched,
        RunEvent::ClusterUpdateUnparsable,
        RunEvent::ConnectionIdReceived("c".to_string()),
        RunEvent::ConnectionIdHandled,
        RunEvent::ClusterUpdateReceived(update("b")),
        RunEvent::ClusterDispatchFailed,
        RunEvent::ClusterUpdateReceived(update("c")),
        RunEvent::ClusterDispatched,
        RunEvent::SessionInvalid,
        RunEvent::DealerClosed,
    ];
    let (mut phase, _) = run_begin();
    let mut forwarded = vec![];
    for e in events {
        let (p, a) = run_next(phase, e);
        assert_ne!(a, RunAction::Ignore);
        phase = p;
        if let RunAction::DispatchCluster(u) = a {
            forwarded.push(u);
        }
    }
    assert_eq!(forwarded, vec![update("a"), update("b"), update("c")]);
}
