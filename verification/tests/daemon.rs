use librespot_connect::daemon::{
    reconnect_exceeds_rate_limit, ExitReason, LoopAction, LoopEvent, MainLoop,
    RECONNECT_RATE_LIMIT, RECONNECT_RATE_LIMIT_WINDOW,
};

const SECOND: u64 = 1_000_000_000;

fn connected(has_discovery: bool) -> MainLoop {
    let mut l = MainLoop::start(has_discovery, true, true).unwrap();
    assert_eq!(l.step(LoopEvent::ConnectDue), LoopAction::Connect);
    assert_eq!(l.step(LoopEvent::SpircStarted { spirc: true, task: true }), LoopAction::Nothing);
    l
}

#[test]
fn no_discovery_and_no_credentials_cannot_start() {
    assert_eq!(MainLoop::start(false, false, false).err(), Some(ExitReason::NoAuthentication));
    assert!(MainLoop::start(true, false, false).is_ok());
    assert!(MainLoop::start(false, true, true).is_ok());
}

#[test]
fn old_reconnects_are_forgotten() {
    let mut times = vec![0, 10, RECONNECT_RATE_LIMIT_WINDOW];
    let exceeded = reconnect_exceeds_rate_limit(&mut times, RECONNECT_RATE_LIMIT_WINDOW + 10);
    assert!(!exceeded);
    assert_eq!(times, vec![RECONNECT_RATE_LIMIT_WINDOW]);
}

#[test]
fn reconnects_later_than_now_still_count() {
    let mut times = vec![50, 5];
    assert!(!reconnect_exceeds_rate_limit(&mut times, 20));
    assert_eq!(times, vec![50, 5]);
}

#[test]
fn more_than_the_limit_is_exceeded() {
    let mut times = vec![1, 2, 3, 4, 5];
    assert!(!reconnect_exceeds_rate_limit(&mut times, 6));
    let mut times = vec![1, 2, 3, 4, 5, 6];
    assert!(reconnect_exceeds_rate_limit(&mut times, 7));
    assert_eq!(times.len(), RECONNECT_RATE_LIMIT + 1);
}

#[test]
fn spirc_reconnects_until_it_fails_too_often() {
    let mut l = connected(false);
    let mut reconnects = 0;
    let mut now = 100 * SECOND;
    loop {
        assert!(l.watches_spirc_task());
        let action = l.step(LoopEvent::SpircTaskEnded { now });
        if action == LoopAction::Reconnect {
            reconnects += 1;
            assert!(l.connect_due());
            assert_eq!(l.step(LoopEvent::ConnectDue), LoopAction::Connect);
            l.step(LoopEvent::SpircStarted { spirc: true, task: true });
            now += SECOND;
        } else {
            assert_eq!(action, LoopAction::Exit(ExitReason::SpircFailedTooOften));
            break;
        }
    }
    assert_eq!(reconnects, RECONNECT_RATE_LIMIT + 1);
}

#[test]
fn reconnects_spread_over_time_go_on() {
    let mut l = connected(false);
    let mut now = 0;
    for _ in 0..20 {
        now += 200 * SECOND;
        assert_eq!(l.step(LoopEvent::SpircTaskEnded { now }), LoopAction::Reconnect);
        assert_eq!(l.step(LoopEvent::ConnectDue), LoopAction::Connect);
        l.step(LoopEvent::SpircStarted { spirc: true, task: true });
        assert!(l.auto_connect_times.len() <= 3);
    }
}

#[test]
fn new_credentials_reset_the_history() {
    let mut l = connected(true);
    assert_eq!(l.step(LoopEvent::SpircTaskEnded { now: 5 }), LoopAction::Reconnect);
    assert_eq!(l.auto_connect_times, vec![5]);
    assert_eq!(
        l.step(LoopEvent::CredentialsDiscovered),
        LoopAction::Restart { stop_spirc: true, background_spirc_task: false }
    );
    assert!(l.auto_connect_times.is_empty());
    assert!(l.connect_due());
    assert!(!l.watches_spirc_task());
}

#[test]
fn new_credentials_stop_a_running_device() {
    let mut l = connected(true);
    assert_eq!(
        l.step(LoopEvent::CredentialsDiscovered),
        LoopAction::Restart { stop_spirc: true, background_spirc_task: true }
    );
    assert!(!l.has_spirc && !l.has_spirc_task);
}

#[test]
fn discovery_end_and_player_failure_exit() {
    let mut l = connected(true);
    assert_eq!(l.step(LoopEvent::DiscoveryEnded), LoopAction::Exit(ExitReason::DiscoveryStopped));
    assert_eq!(l.step(LoopEvent::PlayerInvalid), LoopAction::Exit(ExitReason::PlayerStopped));
    let mut l = connected(false);
    assert!(!l.listens_for_discovery());
    assert_eq!(l.step(LoopEvent::DiscoveryEnded), LoopAction::Nothing);
}

#[test]
fn ended_task_without_credentials_gives_up() {
    let mut l = MainLoop::start(true, false, false).unwrap();
    assert_eq!(l.step(LoopEvent::ConnectDue), LoopAction::Nothing);
    l.has_spirc_task = true;
    assert_eq!(
        l.step(LoopEvent::SpircTaskEnded { now: 1 }),
        LoopAction::Exit(ExitReason::SpircFailedTooOften)
    );
}

#[test]
fn interrupt_shuts_down_what_runs() {
    let mut l = connected(false);
    assert_eq!(
        l.step(LoopEvent::Interrupted),
        LoopAction::Shutdown { stop_spirc: true, join_spirc_task: true }
    );
    let mut l = MainLoop::start(true, false, false).unwrap();
    assert_eq!(
        l.step(LoopEvent::Interrupted),
        LoopAction::Shutdown { stop_spirc: false, join_spirc_task: false }
    );
}

#[test]
fn ended_task_leaves_the_handle() {
    let mut l = connected(false);
    assert_eq!(l.step(LoopEvent::SpircTaskEnded { now: 1 }), LoopAction::Reconnect);
    assert!(l.has_spirc);
    assert!(!l.has_spirc_task);
    assert_eq!(
        l.step(LoopEvent::Interrupted),
        LoopAction::Shutdown { stop_spirc: true, join_spirc_task: false }
    );
}

#[test]
fn no_connect_while_a_device_task_runs() {
    let mut l = connected(false);
    assert!(l.watches_spirc_task());
    assert!(!l.connect_due());
    assert_eq!(l.step(LoopEvent::ConnectDue), LoopAction::Nothing);
    assert_eq!(l.step(LoopEvent::SpircStarted { spirc: true, task: true }), LoopAction::Nothing);
    assert!(l.watches_spirc_task());
}

#[test]
fn reconnects_outside_the_window_do_not_count() {
    let mut l = connected(false);
    let mut now = 0;
    for _ in 0..(RECONNECT_RATE_LIMIT + 1) {
        assert_eq!(l.step(LoopEvent::SpircTaskEnded { now }), LoopAction::Reconnect);
        l.step(LoopEvent::ConnectDue);
        l.step(LoopEvent::SpircStarted { spirc: true, task: true });
        now += 1;
    }
    assert_eq!(
        l.step(LoopEvent::SpircTaskEnded { now: RECONNECT_RATE_LIMIT_WINDOW }),
        LoopAction::Reconnect
    );
    assert_eq!(l.auto_connect_times, vec![1, 2, 3, 4, 5, RECONNECT_RATE_LIMIT_WINDOW]);
}
