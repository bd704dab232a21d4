//! The decisions of the connect daemon's main loop: when to (re)connect a
//! connect device, when to give up, and what to shut down at the end.
//!
//! Times are nanoseconds on a monotonic clock.
use vstd::prelude::*;

verus! {

/// Width of the window in which automatic reconnects are counted (ten
/// minutes), in nanoseconds.
pub const RECONNECT_RATE_LIMIT_WINDOW: u64 = 600_000_000_000u64;

/// How many automatic reconnects inside the window are still allowed
/// before the next one is refused.
pub const RECONNECT_RATE_LIMIT: usize = 5usize;

/// The time elapsed from `then` until `now`; zero if `then` is later.
pub open spec fn elapsed(now: u64, then: u64) -> int {
    if then <= now {
        now - then
    } else {
        0
    }
}

/// Whether a reconnect at `then` still counts at `now`.
pub open spec fn within_window(now: u64) -> spec_fn(u64) -> bool {
    |then: u64| elapsed(now, then) < RECONNECT_RATE_LIMIT_WINDOW
}

/// Forgets the reconnects that no longer count at `now`, and tells whether
/// more than [`RECONNECT_RATE_LIMIT`] still count.
pub fn reconnect_exceeds_rate_limit(times: &mut Vec<u64>, now: u64) -> (r: bool)
    ensures
        final(times)@ == old(times)@.filter(within_window(now)),
        r == (final(times)@.len() > RECONNECT_RATE_LIMIT),
{
    let ghost before = old(times)@;
    let mut kept: Vec<u64> = Vec::new();
    let n = times.len();
    let mut i: usize = 0;
    while i < n
        invariant
            n == before.len(),
            times@ == before,
            i <= n,
            kept@ == before.take(i as int).filter(within_window(now)),
        decreases n - i,
    {
        let then = times[i];
        let age: u64 = if then <= now {
            now - then
        } else {
            0
        };
        proof {
            assert(before.take(i + 1) =~= before.take(i as int).push(then));
            before.take(i as int).lemma_filter_push(then, within_window(now));
        }
        if age < RECONNECT_RATE_LIMIT_WINDOW {
            kept.push(then);
        }
        i = i + 1;
    }
    assert(before.take(n as int) =~= before);
    *times = kept;
    times.len() > RECONNECT_RATE_LIMIT
}

/// Why the daemon gives up.
#[derive(Clone, Copy, Debug, PartialEq, Eq, Structural)]
pub enum ExitReason {
    /// Neither discovery nor credentials: no way to authenticate.
    NoAuthentication,
    /// Discovery stopped unexpectedly.
    DiscoveryStopped,
    /// The connect device shut down too often.
    SpircFailedTooOften,
    /// The player shut down unexpectedly.
    PlayerStopped,
}

/// What happened in the daemon's main loop.
#[derive(Clone, Copy, Debug, PartialEq, Eq, Structural)]
pub enum LoopEvent {
    /// Discovery handed over new credentials.
    CredentialsDiscovered,
    /// The discovery stream ended.
    DiscoveryEnded,
    /// A connect is pending and its turn has come.
    ConnectDue,
    /// A connect finished: whether it gave a device handle and a device task.
    SpircStarted { spirc: bool, task: bool },
    /// The device task ended, at time `now`.
    SpircTaskEnded { now: u64 },
    /// The player shut down.
    PlayerInvalid,
    /// The user asked to stop.
    Interrupted,
}

/// What the daemon does next.
#[derive(Clone, Copy, Debug, PartialEq, Eq, Structural)]
pub enum LoopAction {
    /// Nothing.
    Nothing,
    /// Keep the new credentials; send the old device a shutdown if there is
    /// one, let its task finish in the background if there is one, and shut
    /// the session down if it is valid. A connect follows.
    Restart { stop_spirc: bool, background_spirc_task: bool },
    /// Renew the session if it is invalid, start a connect device with the
    /// last credentials and report [`LoopEvent::SpircStarted`].
    Connect,
    /// Shut the session down if it is valid. A connect follows.
    Reconnect,
    /// Log the reason and exit with status 1.
    Exit(ExitReason),
    /// Leave the loop: send the device a shutdown if there is one (and then
    /// wait for its task, if there is one), and shut discovery down.
    Shutdown { stop_spirc: bool, join_spirc_task: bool },
}

/// The daemon's main loop as its decisions see it.
pub struct MainLoop {
    /// Whether discovery runs.
    pub has_discovery: bool,
    /// Whether credentials are known.
    pub has_credentials: bool,
    /// Whether a connect is pending.
    pub connecting: bool,
    /// Whether there is a connect device handle.
    pub has_spirc: bool,
    /// Whether the connect device's task is still to be awaited.
    pub has_spirc_task: bool,
    /// When the automatic reconnects that still count happened.
    pub auto_connect_times: Vec<u64>,
}

/// The abstract state of [`MainLoop`].
pub struct LoopState {
    pub has_discovery: bool,
    pub has_credentials: bool,
    pub connecting: bool,
    pub has_spirc: bool,
    pub has_spirc_task: bool,
    pub auto_connect_times: Seq<u64>,
}

impl View for MainLoop {
    type V = LoopState;

    open spec fn view(&self) -> LoopState {
        LoopState {
            has_discovery: self.has_discovery,
            has_credentials: self.has_credentials,
            connecting: self.connecting,
            has_spirc: self.has_spirc,
            has_spirc_task: self.has_spirc_task,
            auto_connect_times: self.auto_connect_times@,
        }
    }
}

impl LoopState {
    /// The loop's invariant: the reconnect history stays bounded, and no
    /// device task runs while a connect is pending.
    pub open spec fn wf(self) -> bool {
        &&& self.auto_connect_times.len() <= RECONNECT_RATE_LIMIT + 1
        &&& self.connecting ==> !self.has_spirc_task
    }

    /// Whether the loop waits for the device task to end.
    pub open spec fn watches_spirc_task(self) -> bool {
        self.has_spirc_task && !self.connecting
    }
}

/// The loop's next state and action, given its state and what happened.
///
/// An event whose branch of the loop is not enabled changes nothing.
pub open spec fn loop_step(s: LoopState, e: LoopEvent) -> (LoopState, LoopAction) {
    match e {
        LoopEvent::CredentialsDiscovered => if s.has_discovery {
            (
                LoopState {
                    has_credentials: true,
                    connecting: true,
                    has_spirc: false,
                    has_spirc_task: false,
                    auto_connect_times: Seq::empty(),
                    ..s
                },
                LoopAction::Restart {
                    stop_spirc: s.has_spirc,
                    background_spirc_task: s.has_spirc_task,
                },
            )
        } else {
            (s, LoopAction::Nothing)
        },
        LoopEvent::DiscoveryEnded => if s.has_discovery {
            (s, LoopAction::Exit(ExitReason::DiscoveryStopped))
        } else {
            (s, LoopAction::Nothing)
        },
        LoopEvent::ConnectDue => if s.connecting && s.has_credentials {
            (s, LoopAction::Connect)
        } else {
            (s, LoopAction::Nothing)
        },
        LoopEvent::SpircStarted { spirc, task } => if s.connecting && s.has_credentials {
            (
                LoopState { has_spirc: spirc, has_spirc_task: task, connecting: false, ..s },
                LoopAction::Nothing,
            )
        } else {
            (s, LoopAction::Nothing)
        },
        LoopEvent::SpircTaskEnded { now } => if !s.watches_spirc_task() {
            (s, LoopAction::Nothing)
        } else if !s.has_credentials {
            (
                LoopState { has_spirc_task: false, ..s },
                LoopAction::Exit(ExitReason::SpircFailedTooOften),
            )
        } else {
            let kept = s.auto_connect_times.filter(within_window(now));
            if kept.len() > RECONNECT_RATE_LIMIT {
                (
                    LoopState { has_spirc_task: false, auto_connect_times: kept, ..s },
                    LoopAction::Exit(ExitReason::SpircFailedTooOften),
                )
            } else {
                (
                    LoopState {
                        has_spirc_task: false,
                        connecting: true,
                        auto_connect_times: kept.push(now),
                        ..s
                    },
                    LoopAction::Reconnect,
                )
            }
        },
        LoopEvent::PlayerInvalid => (s, LoopAction::Exit(ExitReason::PlayerStopped)),
        LoopEvent::Interrupted => (
            s,
            LoopAction::Shutdown {
                stop_spirc: s.has_spirc,
                join_spirc_task: s.has_spirc && s.has_spirc_task,
            },
        ),
    }
}

impl MainLoop {
    /// The loop before its first event, or the reason it cannot run:
    /// without discovery and without credentials nobody can authenticate.
    pub fn start(has_discovery: bool, has_credentials: bool, connecting: bool) -> (r: Result<
        MainLoop,
        ExitReason,
    >)
        ensures
            r is Err <==> (!has_discovery && !has_credentials),
            r matches Err(reason) ==> reason == ExitReason::NoAuthentication,
            r matches Ok(l) ==> l@ == (LoopState {
                has_discovery,
                has_credentials,
                connecting,
                has_spirc: false,
                has_spirc_task: false,
                auto_connect_times: Seq::empty(),
            }),
            r matches Ok(l) ==> l@.wf(),
    {
        if !has_discovery && !has_credentials {
            return Err(ExitReason::NoAuthentication);
        }
        Ok(
            MainLoop {
                has_discovery,
                has_credentials,
                connecting,
                has_spirc: false,
                has_spirc_task: false,
                auto_connect_times: Vec::new(),
            },
        )
    }

    /// Whether the loop listens to discovery.
    pub fn listens_for_discovery(&self) -> (r: bool)
        ensures
            r == self.has_discovery,
    {
        self.has_discovery
    }

    /// Whether a connect is pending.
    pub fn connect_due(&self) -> (r: bool)
        ensures
            r == self.connecting,
    {
        self.connecting
    }

    /// Whether the loop waits for the device task to end.
    pub fn watches_spirc_task(&self) -> (r: bool)
        ensures
            r == self@.watches_spirc_task(),
    {
        self.has_spirc_task && !self.connecting
    }

    /// Applies `event` to the loop and says what to do next.
    pub fn step(&mut self, event: LoopEvent) -> (a: LoopAction)
        ensures
            (final(self)@, a) == loop_step(old(self)@, event),
    {
        match event {
            LoopEvent::CredentialsDiscovered => {
                if !self.has_discovery {
                    return LoopAction::Nothing;
                }
                let action = LoopAction::Restart {
                    stop_spirc: self.has_spirc,
                    background_spirc_task: self.has_spirc_task,
                };
                self.has_credentials = true;
                self.connecting = true;
                self.has_spirc = false;
                self.has_spirc_task = false;
                self.auto_connect_times = Vec::new();
                action
            },
            LoopEvent::DiscoveryEnded => {
                if self.has_discovery {
                    LoopAction::Exit(ExitReason::DiscoveryStopped)
                } else {
                    LoopAction::Nothing
                }
            },
            LoopEvent::ConnectDue => {
                if self.connecting && self.has_credentials {
                    LoopAction::Connect
                } else {
                    LoopAction::Nothing
                }
            },
            LoopEvent::SpircStarted { spirc, task } => {
                if self.connecting && self.has_credentials {
                    self.has_spirc = spirc;
                    self.has_spirc_task = task;
                    self.connecting = false;
                }
                LoopAction::Nothing
            },
            LoopEvent::SpircTaskEnded { now } => {
                if !(self.has_spirc_task && !self.connecting) {
                    return LoopAction::Nothing;
                }
                self.has_spirc_task = false;
                if !self.has_credentials {
                    return LoopAction::Exit(ExitReason::SpircFailedTooOften);
                }
                if reconnect_exceeds_rate_limit(&mut self.auto_connect_times, now) {
                    LoopAction::Exit(ExitReason::SpircFailedTooOften)
                } else {
                    self.auto_connect_times.push(now);
                    self.connecting = true;
                    LoopAction::Reconnect
                }
            },
            LoopEvent::PlayerInvalid => LoopAction::Exit(ExitReason::PlayerStopped),
            LoopEvent::Interrupted => LoopAction::Shutdown {
                stop_spirc: self.has_spirc,
                join_spirc_task: self.has_spirc && self.has_spirc_task,
            },
        }
    }
}

/// Law: every step keeps the loop's invariant: at most
/// `RECONNECT_RATE_LIMIT + 1` reconnects are remembered, and no device task
/// runs while a connect is pending.
pub proof fn lemma_step_keeps_wf(s: LoopState, e: LoopEvent)
    requires
        s.wf(),
    ensures
        loop_step(s, e).0.wf(),
{
    if let LoopEvent::SpircTaskEnded { now } = e {
        s.auto_connect_times.lemma_filter_len(within_window(now));
    }
}

/// Law: the loop listens to discovery for its whole life: no event, new
/// credentials included, turns discovery on or off.
pub proof fn lemma_discovery_kept(s: LoopState, e: LoopEvent)
    ensures
        loop_step(s, e).0.has_discovery == s.has_discovery,
{
}

/// Law: the window. A reconnect that happened at `then`, not later than
/// `now`, still counts exactly when less than ten minutes (600 seconds) have
/// passed since; a reconnect stamped later than `now` counts.
pub proof fn lemma_window_is_ten_minutes(now: u64, then: u64)
    ensures
        then <= now ==> (within_window(now)(then) <==> now - then < 600_000_000_000),
        then > now ==> within_window(now)(then),
{
}

/// Law: what the rate limiter keeps. After a call at `now`, a time is
/// remembered exactly when it was remembered before and is either later than
/// `now` or less than ten minutes old; the limit is exceeded exactly when more
/// than five such times remain.
pub proof fn lemma_rate_limiter_keeps_recent(before: Seq<u64>, now: u64, t: u64)
    ensures
        before.filter(within_window(now)).contains(t) <==> (before.contains(t) && (t > now || now
            - t < 600_000_000_000)),
        before.filter(within_window(now)).len() <= before.len(),
        RECONNECT_RATE_LIMIT == 5,
{
    before.lemma_filter_len(within_window(now));
    if before.contains(t) && (t > now || now - t < 600_000_000_000) {
        let i = choose|i: int| 0 <= i < before.len() && before[i] == t;
        before.filter_lemma(within_window(now));
    }
    if before.filter(within_window(now)).contains(t) {
        let f = before.filter(within_window(now));
        let k = choose|k: int| 0 <= k < f.len() && f[k] == t;
        before.filter_lemma(within_window(now));
        assert(within_window(now)(f[k]));
        before.lemma_filter_contains_rev(within_window(now), t);
    }
}

/// Law: when the device task ends while credentials are known, the daemon
/// reconnects exactly when at most [`RECONNECT_RATE_LIMIT`] earlier
/// reconnects happened less than a window ago, and records the new one;
/// otherwise it gives up. Without credentials it gives up at once.
pub proof fn lemma_reconnect_rule(s: LoopState, now: u64)
    requires
        s.watches_spirc_task(),
    ensures
        s.has_credentials ==> (loop_step(s, LoopEvent::SpircTaskEnded { now }).1
            == LoopAction::Reconnect <==> s.auto_connect_times.filter(within_window(now)).len()
            <= RECONNECT_RATE_LIMIT),
        loop_step(s, LoopEvent::SpircTaskEnded { now }).1 == LoopAction::Reconnect ==> loop_step(
            s,
            LoopEvent::SpircTaskEnded { now },
        ).0.auto_connect_times == s.auto_connect_times.filter(within_window(now)).push(now),
        loop_step(s, LoopEvent::SpircTaskEnded { now }).1 != LoopAction::Reconnect ==> loop_step(
            s,
            LoopEvent::SpircTaskEnded { now },
        ).1 == LoopAction::Exit(ExitReason::SpircFailedTooOften),
        !s.has_credentials ==> loop_step(s, LoopEvent::SpircTaskEnded { now }).1
            == LoopAction::Exit(ExitReason::SpircFailedTooOften),
{
}

/// Law: new credentials from discovery forget the reconnect history and
/// always lead to a connect, with the old device stopped.
pub proof fn lemma_new_credentials_restart(s: LoopState)
    requires
        s.has_discovery,
    ensures
        loop_step(s, LoopEvent::CredentialsDiscovered).0.auto_connect_times.len() == 0,
        loop_step(s, LoopEvent::CredentialsDiscovered).0.connecting,
        loop_step(s, LoopEvent::CredentialsDiscovered).0.has_credentials,
        !loop_step(s, LoopEvent::CredentialsDiscovered).0.has_spirc_task,
        loop_step(s, LoopEvent::CredentialsDiscovered).1 == (LoopAction::Restart {
            stop_spirc: s.has_spirc,
            background_spirc_task: s.has_spirc_task,
        }),
{
}

/// Law: a connect device is started only when no device task runs, so at
/// most one device task is ever awaited.
pub proof fn lemma_connect_only_without_task(s: LoopState, e: LoopEvent)
    requires
        s.wf(),
        loop_step(s, e).1 == LoopAction::Connect,
    ensures
        !s.has_spirc_task,
        s.has_credentials,
{
}


/// The loop's state and actions after `events` happen in turn from `s`.
pub open spec fn loop_trace(s: LoopState, events: Seq<LoopEvent>) -> (LoopState, Seq<LoopAction>)
    decreases events.len(),
{
    if events.len() == 0 {
        (s, Seq::empty())
    } else {
        let (next, action) = loop_step(s, events[0]);
        let (last, rest) = loop_trace(next, events.drop_first());
        (last, seq![action] + rest)
    }
}

/// How many of `actions` are automatic reconnects.
pub open spec fn count_reconnects(actions: Seq<LoopAction>) -> nat
    decreases actions.len(),
{
    if actions.len() == 0 {
        0
    } else {
        (if actions[0] == LoopAction::Reconnect { 1nat } else { 0nat }) + count_reconnects(
            actions.drop_first(),
        )
    }
}

/// Whether a time is not earlier than `start`.
pub open spec fn not_before(start: u64) -> spec_fn(u64) -> bool {
    |t: u64| t >= start
}

/// Whether every device task in `events` ended inside the window that opens
/// at `start`, and no new credentials came.
pub open spec fn within_one_window(events: Seq<LoopEvent>, start: u64) -> bool {
    forall|i: int|
        0 <= i < events.len() ==> match #[trigger] events[i] {
            LoopEvent::CredentialsDiscovered => false,
            LoopEvent::SpircTaskEnded { now } => start <= now && now - start
                < RECONNECT_RATE_LIMIT_WINDOW,
            _ => true,
        }
}

/// Filtering by a weaker predicate first changes nothing.
proof fn lemma_filter_absorbs(s: Seq<u64>, weak: spec_fn(u64) -> bool, strong: spec_fn(u64) -> bool)
    requires
        forall|t: u64| #[trigger] strong(t) ==> weak(t),
    ensures
        s.filter(weak).filter(strong) == s.filter(strong),
    decreases s.len(),
{
    reveal(Seq::filter);
    if s.len() > 0 {
        lemma_filter_absorbs(s.drop_last(), weak, strong);
        let last = s.last();
        if weak(last) {
            s.drop_last().filter(weak).lemma_filter_push(last, strong);
        }
    }
}

proof fn lemma_reconnects_bounded(s: LoopState, events: Seq<LoopEvent>, start: u64)
    requires
        s.auto_connect_times.filter(not_before(start)).len() <= RECONNECT_RATE_LIMIT + 1,
        within_one_window(events, start),
    ensures
        count_reconnects(loop_trace(s, events).1) + s.auto_connect_times.filter(
            not_before(start),
        ).len() <= RECONNECT_RATE_LIMIT + 1,
    decreases events.len(),
{
    if events.len() > 0 {
        let e = events[0];
        let tail = events.drop_first();
        let (next, action) = loop_step(s, e);
        assert forall|i: int| 0 <= i < tail.len() implies match #[trigger] tail[i] {
            LoopEvent::CredentialsDiscovered => false,
            LoopEvent::SpircTaskEnded { now } => start <= now && now - start
                < RECONNECT_RATE_LIMIT_WINDOW,
            _ => true,
        } by {
            assert(tail[i] == events[i + 1]);
        }
        let c = s.auto_connect_times.filter(not_before(start)).len();
        let c_next = next.auto_connect_times.filter(not_before(start)).len();
        if let LoopEvent::SpircTaskEnded { now } = e {
            if s.watches_spirc_task() && s.has_credentials {
                let kept = s.auto_connect_times.filter(within_window(now));
                assert forall|t: u64| #[trigger] not_before(start)(t) implies within_window(now)(t) by {
                }
                lemma_filter_absorbs(s.auto_connect_times, within_window(now), not_before(start));
                assert(kept.filter(not_before(start)).len() == c);
                kept.lemma_filter_len(not_before(start));
                if kept.len() <= RECONNECT_RATE_LIMIT {
                    kept.lemma_filter_push(now, not_before(start));
                    assert(c_next == c + 1);
                } else {
                    assert(c_next == c);
                }
            } else {
                assert(c_next == c);
            }
        } else {
            assert(e != LoopEvent::CredentialsDiscovered);
            assert(c_next == c);
        }
        lemma_reconnects_bounded(next, tail, start);
        let (last, rest) = loop_trace(next, tail);
        let acts = seq![action] + rest;
        assert(acts.drop_first() =~= rest);
        assert(acts[0] == action);
    }
}

/// Law: the rate limit. However the device tasks end, as long as no new
/// credentials arrive, at most `RECONNECT_RATE_LIMIT + 1` automatic
/// reconnects happen within one window of time.
pub proof fn lemma_reconnects_per_window(s: LoopState, events: Seq<LoopEvent>, start: u64)
    requires
        s.wf(),
        within_one_window(events, start),
    ensures
        count_reconnects(loop_trace(s, events).1) <= RECONNECT_RATE_LIMIT + 1,
{
    s.auto_connect_times.lemma_filter_len(not_before(start));
    lemma_reconnects_bounded(s, events, start);
}

} // verus!
