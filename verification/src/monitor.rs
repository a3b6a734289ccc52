//! The monitor's decisions: when to connect to Discord, when to publish the
//! presence, when to clear it. The I/O itself (process list, Discord IPC,
//! clocks, waiting) is performed by the caller, which feeds back what happened.

use vstd::prelude::*;
use crate::config::AppConfig;
use vstd::arithmetic::div_mod::lemma_add_mod_noop;

verus! {

/// How long the monitor waits between rounds, in milliseconds.
pub const POLL_INTERVAL_MS: u64 = 2000;

/// How long a published presence stays fresh, in milliseconds.
pub const REFRESH_INTERVAL_MS: u64 = 15000;

/// The settings shared with the monitor, with a revision that changes at
/// every update.
#[derive(Clone)]
pub struct VersionedConfig {
    pub revision: u64,
    pub value: AppConfig,
}

/// The revision that follows `r` (wrapping around at `u64::MAX`).
pub open spec fn next_revision(r: u64) -> u64 {
    if r == u64::MAX {
        0
    } else {
        (r + 1) as u64
    }
}

impl VersionedConfig {
    /// The first revision of `value`.
    pub fn new(value: AppConfig) -> (r: Self)
        ensures
            r.revision == 0,
            r.value == value,
    {
        VersionedConfig { revision: 0, value }
    }

    /// Replaces the settings and moves to the next revision.
    pub fn update(&mut self, value: AppConfig)
        ensures
            final(self).value == value,
            final(self).revision == next_revision(old(self).revision),
            *final(self) == after_updates(*old(self), seq![value]),
    {
        proof {
            assert(seq![value].drop_last() =~= Seq::<AppConfig>::empty());
            assert(after_updates(*old(self), Seq::<AppConfig>::empty()) == *old(self));
        }
        self.value = value;
        self.revision = self.revision.wrapping_add(1);
    }
}

/// A publication that was decided on and not yet carried out.
#[derive(Clone, Copy, Debug, PartialEq, Eq)]
pub struct PendingPublish {
    pub revision: u64,
    pub started_at_ms: i64,
}

/// What the monitor remembers between its steps.
#[derive(Clone, Copy, Debug, PartialEq, Eq)]
pub struct MonitorState {
    /// A Discord connection is open.
    pub connected: bool,
    /// When the game was first seen running (Unix milliseconds).
    pub started_at_ms: Option<i64>,
    /// The settings revision last published.
    pub published_revision: Option<u64>,
    /// When that publication happened (monotonic milliseconds).
    pub last_publish_ms: Option<u64>,
    /// The publication decided on in the current round.
    pub pending: Option<PendingPublish>,
}

/// What happened since the monitor's last step.
#[derive(Clone, Copy, Debug, PartialEq, Eq)]
pub enum MonitorEvent {
    /// A new round: whether the game runs, the current settings revision,
    /// the monotonic clock and the wall clock.
    Tick { game_running: bool, revision: u64, now_ms: u64, unix_ms: i64 },
    /// The outcome of a connection attempt.
    ConnectFinished { ok: bool },
    /// The outcome of a publication, and when it finished.
    PublishFinished { ok: bool, now_ms: u64 },
    /// The monitor is asked to stop.
    ShutdownRequested,
}

/// What the monitor asks its caller to do next.
#[derive(Clone, Copy, Debug, PartialEq, Eq)]
pub enum MonitorAction {
    /// Wait for the next round (or for a shutdown request).
    Sleep,
    /// Try to open a Discord connection.
    Connect,
    /// Publish the presence for the current settings, with this start time.
    Publish { started_at_ms: i64 },
    /// Clear the presence and close the connection, then wait.
    Disconnect,
    /// Stop; clear the presence and close the connection first if asked.
    Exit { disconnect: bool },
}

/// The state with no connection, no game seen and nothing published.
pub open spec fn idle_state() -> MonitorState {
    MonitorState {
        connected: false,
        started_at_ms: None,
        published_revision: None,
        last_publish_ms: None,
        pending: None,
    }
}

/// The presence must be (re)published: the revision changed, or nothing was
/// published yet, or the last publication is at least the refresh interval old.
pub open spec fn needs_publish(s: MonitorState, revision: u64, now_ms: u64) -> bool {
    ||| s.published_revision != Some(revision)
    ||| match s.last_publish_ms {
        None => true,
        Some(last) => now_ms >= last && now_ms - last >= REFRESH_INTERVAL_MS,
    }
}

/// The monitor's transition: the next state and the action for an event.
pub open spec fn monitor_next(s: MonitorState, e: MonitorEvent) -> (MonitorState, MonitorAction) {
    match e {
        MonitorEvent::Tick { game_running, revision, now_ms, unix_ms } => {
            if !game_running {
                (idle_state(), if s.connected { MonitorAction::Disconnect } else { MonitorAction::Sleep })
            } else {
                let start = match s.started_at_ms {
                    Some(t) => t,
                    None => unix_ms,
                };
                let pending = if needs_publish(s, revision, now_ms) {
                    Some(PendingPublish { revision, started_at_ms: start })
                } else {
                    None
                };
                let next = MonitorState { started_at_ms: Some(start), pending, ..s };
                let action = if !s.connected {
                    MonitorAction::Connect
                } else if pending is Some {
                    MonitorAction::Publish { started_at_ms: start }
                } else {
                    MonitorAction::Sleep
                };
                (next, action)
            }
        },
        MonitorEvent::ConnectFinished { ok } => {
            let connected = s.connected || ok;
            match s.pending {
                Some(p) => if connected {
                    (MonitorState { connected, ..s }, MonitorAction::Publish { started_at_ms: p.started_at_ms })
                } else {
                    (MonitorState { connected, pending: None, ..s }, MonitorAction::Sleep)
                },
                None => (MonitorState { connected, ..s }, MonitorAction::Sleep),
            }
        },
        MonitorEvent::PublishFinished { ok, now_ms } => {
            match s.pending {
                Some(p) => if ok {
                    (
                        MonitorState {
                            published_revision: Some(p.revision),
                            last_publish_ms: Some(now_ms),
                            pending: None,
                            ..s
                        },
                        MonitorAction::Sleep,
                    )
                } else {
                    (
                        MonitorState {
                            connected: false,
                            published_revision: None,
                            last_publish_ms: None,
                            pending: None,
                            ..s
                        },
                        MonitorAction::Sleep,
                    )
                },
                None => (s, MonitorAction::Sleep),
            }
        },
        MonitorEvent::ShutdownRequested => {
            (MonitorState { connected: false, pending: None, ..s }, MonitorAction::Exit { disconnect: s.connected })
        },
    }
}

impl MonitorState {
    /// The state before the first round.
    pub fn new() -> (r: Self)
        ensures
            r == idle_state(),
    {
        MonitorState {
            connected: false,
            started_at_ms: None,
            published_revision: None,
            last_publish_ms: None,
            pending: None,
        }
    }

    /// Takes in one event; returns what to do next.
    pub fn step(&mut self, event: MonitorEvent) -> (action: MonitorAction)
        ensures
            (*final(self), action) == monitor_next(*old(self), event),
    {
        match event {
            MonitorEvent::Tick { game_running, revision, now_ms, unix_ms } => {
                if !game_running {
                    let was_connected = self.connected;
                    *self = MonitorState::new();
                    if was_connected { MonitorAction::Disconnect } else { MonitorAction::Sleep }
                } else {
                    let start = match self.started_at_ms {
                        Some(t) => t,
                        None => unix_ms,
                    };
                    let stale = match self.last_publish_ms {
                        None => true,
                        Some(last) => now_ms >= last && now_ms - last >= REFRESH_INTERVAL_MS,
                    };
                    let changed = match self.published_revision {
                        Some(r) => r != revision,
                        None => true,
                    };
                    let needed = changed || stale;
                    self.started_at_ms = Some(start);
                    self.pending = if needed {
                        Some(PendingPublish { revision, started_at_ms: start })
                    } else {
                        None
                    };
                    if !self.connected {
                        MonitorAction::Connect
                    } else if needed {
                        MonitorAction::Publish { started_at_ms: start }
                    } else {
                        MonitorAction::Sleep
                    }
                }
            },
            MonitorEvent::ConnectFinished { ok } => {
                self.connected = self.connected || ok;
                match self.pending {
                    Some(p) => if self.connected {
                        MonitorAction::Publish { started_at_ms: p.started_at_ms }
                    } else {
                        self.pending = None;
                        MonitorAction::Sleep
                    },
                    None => MonitorAction::Sleep,
                }
            },
            MonitorEvent::PublishFinished { ok, now_ms } => {
                match self.pending {
                    Some(p) => {
                        if ok {
                            self.published_revision = Some(p.revision);
                            self.last_publish_ms = Some(now_ms);
                        } else {
                            self.connected = false;
                            self.published_revision = None;
                            self.last_publish_ms = None;
                        }
                        self.pending = None;
                    },
                    None => {},
                }
                MonitorAction::Sleep
            },
            MonitorEvent::ShutdownRequested => {
                let was_connected = self.connected;
                self.connected = false;
                self.pending = None;
                MonitorAction::Exit { disconnect: was_connected }
            },
        }
    }
}


/// What every state reached from the initial one satisfies: a publication is
/// remembered together with its time, and a decided publication carries the
/// start time the monitor holds.
pub open spec fn monitor_wf(s: MonitorState) -> bool {
    &&& (s.published_revision is Some <==> s.last_publish_ms is Some)
    &&& (s.pending matches Some(p) ==> s.started_at_ms == Some(p.started_at_ms))
}

/// The initial state is well formed, and every step keeps a state well formed.
pub proof fn lemma_monitor_wf(s: MonitorState, e: MonitorEvent)
    requires
        monitor_wf(s),
    ensures
        monitor_wf(idle_state()),
        monitor_wf(monitor_next(s, e).0),
{
}

/// When the game is not running, everything is forgotten, and the
/// presence is cleared exactly when a connection was open.
pub proof fn lemma_stopped_game_resets(s: MonitorState, revision: u64, now_ms: u64, unix_ms: i64)
    ensures
        ({
            let (next, action) = monitor_next(
                s,
                MonitorEvent::Tick { game_running: false, revision, now_ms, unix_ms },
            );
            &&& next == idle_state()
            &&& action == (if s.connected { MonitorAction::Disconnect } else { MonitorAction::Sleep })
        }),
{
}

/// While the game runs, the start time is the wall-clock time of the first
/// round that saw it, and stays so.
pub proof fn lemma_start_time_kept(s: MonitorState, revision: u64, now_ms: u64, unix_ms: i64)
    ensures
        monitor_next(s, MonitorEvent::Tick { game_running: true, revision, now_ms, unix_ms }).0.started_at_ms
            == Some(
            match s.started_at_ms {
                Some(t) => t,
                None => unix_ms,
            },
        ),
{
}

/// A round publishes only when the presence needs it, and does so at once
/// when connected.
pub proof fn lemma_publish_when_needed(s: MonitorState, revision: u64, now_ms: u64, unix_ms: i64)
    ensures
        ({
            let action = monitor_next(
                s,
                MonitorEvent::Tick { game_running: true, revision, now_ms, unix_ms },
            ).1;
            &&& action is Publish ==> needs_publish(s, revision, now_ms)
            &&& s.connected && needs_publish(s, revision, now_ms) ==> action is Publish
            &&& !s.connected ==> action == MonitorAction::Connect
        }),
{
}

/// After a successful publication, the same revision is not published again
/// before the refresh interval has passed, while a new revision is.
pub proof fn lemma_no_republish_within_interval(
    s: MonitorState,
    published_at: u64,
    revision: u64,
    now_ms: u64,
    unix_ms: i64,
)
    requires
        s.connected,
        s.pending is Some,
        published_at <= now_ms < published_at + REFRESH_INTERVAL_MS,
    ensures
        ({
            let after = monitor_next(s, MonitorEvent::PublishFinished { ok: true, now_ms: published_at }).0;
            let action = monitor_next(
                after,
                MonitorEvent::Tick { game_running: true, revision, now_ms, unix_ms },
            ).1;
            &&& after.published_revision == Some(s.pending->0.revision)
            &&& (revision == s.pending->0.revision ==> action == MonitorAction::Sleep)
            &&& (revision != s.pending->0.revision ==> action is Publish)
        }),
{
}

/// A round that decides a publication decides it for the revision that round
/// carries: once that publication succeeds, the monitor holds that revision
/// as published, and a later round with the same revision, before the
/// refresh interval has passed, publishes nothing.
pub proof fn lemma_publication_is_for_round_revision(
    s: MonitorState,
    revision: u64,
    now_ms: u64,
    unix_ms: i64,
    published_at: u64,
    later_ms: u64,
    later_unix_ms: i64,
)
    requires
        monitor_next(s, MonitorEvent::Tick { game_running: true, revision, now_ms, unix_ms }).1 is Publish,
        published_at <= later_ms < published_at + REFRESH_INTERVAL_MS,
    ensures
        ({
            let round = monitor_next(s, MonitorEvent::Tick { game_running: true, revision, now_ms, unix_ms });
            let done = monitor_next(round.0, MonitorEvent::PublishFinished { ok: true, now_ms: published_at }).0;
            let again = monitor_next(
                done,
                MonitorEvent::Tick { game_running: true, revision, now_ms: later_ms, unix_ms: later_unix_ms },
            );
            &&& round.0.pending matches Some(p) && p.revision == revision
            &&& done.published_revision == Some(revision)
            &&& done.last_publish_ms == Some(published_at)
            &&& again.1 == MonitorAction::Sleep
            &&& again.0.pending is None
        }),
{
}

/// A connected monitor whose last publication was of revision `r`, less
/// than the refresh interval ago, does nothing in a round with revision `r`.
pub proof fn lemma_fresh_publication_sleeps(
    s: MonitorState,
    r: u64,
    last: u64,
    now_ms: u64,
    unix_ms: i64,
)
    requires
        s.connected,
        s.published_revision == Some(r),
        s.last_publish_ms == Some(last),
        last <= now_ms < last + REFRESH_INTERVAL_MS,
    ensures
        monitor_next(s, MonitorEvent::Tick { game_running: true, revision: r, now_ms, unix_ms }).1
            == MonitorAction::Sleep,
{
}

/// Once the refresh interval has passed, a connected monitor publishes again.
pub proof fn lemma_refresh_after_interval(
    s: MonitorState,
    last: u64,
    revision: u64,
    now_ms: u64,
    unix_ms: i64,
)
    requires
        s.connected,
        s.last_publish_ms == Some(last),
        now_ms >= last + REFRESH_INTERVAL_MS,
    ensures
        monitor_next(s, MonitorEvent::Tick { game_running: true, revision, now_ms, unix_ms }).1 is Publish,
{
}

/// A failed publication drops the connection and forgets what was
/// published, so the next round reconnects and publishes anew.
pub proof fn lemma_failed_publish_forgets(
    s: MonitorState,
    failed_at: u64,
    revision: u64,
    now_ms: u64,
    unix_ms: i64,
)
    requires
        s.pending is Some,
    ensures
        ({
            let after = monitor_next(s, MonitorEvent::PublishFinished { ok: false, now_ms: failed_at }).0;
            let (next, action) = monitor_next(
                after,
                MonitorEvent::Tick { game_running: true, revision, now_ms, unix_ms },
            );
            &&& !after.connected
            &&& after.published_revision is None
            &&& after.last_publish_ms is None
            &&& action == MonitorAction::Connect
            &&& next.pending is Some
        }),
{
}

/// A shutdown request stops the monitor, clearing the presence exactly when
/// a connection is open.
pub proof fn lemma_shutdown(s: MonitorState)
    ensures
        monitor_next(s, MonitorEvent::ShutdownRequested).1 == (MonitorAction::Exit { disconnect: s.connected }),
{
}


/// Every settings update is published in the next round of a connected
/// monitor, since the update always changes the revision.
pub proof fn lemma_update_is_published(s: MonitorState, r: u64, now_ms: u64, unix_ms: i64)
    requires
        s.connected,
        s.published_revision == Some(r),
    ensures
        next_revision(r) != r,
        monitor_next(
            s,
            MonitorEvent::Tick { game_running: true, revision: next_revision(r), now_ms, unix_ms },
        ).1 is Publish,
{
}


/// The shared settings after `values` were applied one by one with
/// `VersionedConfig::update`.
pub open spec fn after_updates(v: VersionedConfig, values: Seq<AppConfig>) -> VersionedConfig
    decreases values.len(),
{
    if values.len() == 0 {
        v
    } else {
        let before = after_updates(v, values.drop_last());
        VersionedConfig { revision: next_revision(before.revision), value: values.last() }
    }
}

/// Over any run of updates the last one wins, and the revision has moved on
/// by the number of updates, modulo 2^64; so each of fewer than 2^64 updates
/// is seen under a revision of its own.
pub proof fn lemma_updates_last_wins(v: VersionedConfig, values: Seq<AppConfig>)
    ensures
        after_updates(v, values).revision as int == (v.revision + values.len()) % 0x1_0000_0000_0000_0000,
        values.len() == 0 ==> after_updates(v, values) == v,
        values.len() > 0 ==> after_updates(v, values).value == values.last(),
    decreases values.len(),
{
    let m: int = 0x1_0000_0000_0000_0000;
    if values.len() == 0 {
        assert((v.revision + 0) % m == v.revision as int);
    } else {
        lemma_updates_last_wins(v, values.drop_last());
        let k: int = values.len() - 1;
        let before = after_updates(v, values.drop_last());
        assert(before.revision as int == (v.revision + k) % m);
        lemma_add_mod_noop(v.revision + k, 1, m);
        assert(((v.revision + k) % m + 1int % m) % m == (v.revision + k + 1) % m);
        assert(1int % m == 1);
        if before.revision == u64::MAX {
            assert((before.revision + 1) % m == 0);
        } else {
            assert((before.revision + 1) % m == before.revision + 1);
        }
    }
}

/// The state after the monitor took in `events`, one by one, from `s`.
pub open spec fn run_from(s: MonitorState, events: Seq<MonitorEvent>) -> MonitorState
    decreases events.len(),
{
    if events.len() == 0 {
        s
    } else {
        monitor_next(run_from(s, events.drop_last()), events.last()).0
    }
}

/// The action the monitor asks for on the `i`-th of `events`, starting idle.
pub open spec fn action_at(events: Seq<MonitorEvent>, i: int) -> MonitorAction {
    monitor_next(run_from(idle_state(), events.take(i)), events[i]).1
}

/// The last round among `events` saw the game running.
pub open spec fn last_round_saw_game(events: Seq<MonitorEvent>) -> bool
    decreases events.len(),
{
    if events.len() == 0 {
        false
    } else {
        match events.last() {
            MonitorEvent::Tick { game_running, .. } => game_running,
            _ => last_round_saw_game(events.drop_last()),
        }
    }
}

/// The wall-clock time of the first round of the current run of rounds that
/// saw the game; `None` where the last round did not see it.
pub open spec fn current_run_start(events: Seq<MonitorEvent>) -> Option<i64>
    decreases events.len(),
{
    if events.len() == 0 {
        None
    } else {
        match events.last() {
            MonitorEvent::Tick { game_running, unix_ms, .. } => if !game_running {
                None
            } else {
                match current_run_start(events.drop_last()) {
                    Some(t) => Some(t),
                    None => Some(unix_ms),
                }
            },
            _ => current_run_start(events.drop_last()),
        }
    }
}

proof fn lemma_run_invariant(events: Seq<MonitorEvent>)
    ensures
        ({
            let s = run_from(idle_state(), events);
            &&& s.started_at_ms == current_run_start(events)
            &&& (current_run_start(events) is Some <==> last_round_saw_game(events))
            &&& (s.pending matches Some(p) ==> s.started_at_ms == Some(p.started_at_ms))
        }),
    decreases events.len(),
{
    if events.len() > 0 {
        lemma_run_invariant(events.drop_last());
    }
}

proof fn lemma_prefix_step(events: Seq<MonitorEvent>, i: int)
    requires
        0 <= i < events.len(),
    ensures
        events.take(i + 1).drop_last() == events.take(i),
        events.take(i + 1).last() == events[i],
        run_from(idle_state(), events.take(i + 1)) == monitor_next(
            run_from(idle_state(), events.take(i)),
            events[i],
        ).0,
{
    assert(events.take(i + 1).drop_last() =~= events.take(i));
}

/// Across any run of events, the presence is published only while the last
/// round saw the game, and always with the wall-clock time of the first
/// round of the current run of rounds that saw it.
pub proof fn lemma_publish_within_game_run(events: Seq<MonitorEvent>, i: int)
    requires
        0 <= i < events.len(),
        action_at(events, i) is Publish,
    ensures
        last_round_saw_game(events.take(i + 1)),
        current_run_start(events.take(i + 1)) == Some(action_at(events, i)->started_at_ms),
{
    lemma_prefix_step(events, i);
    lemma_run_invariant(events.take(i));
    lemma_run_invariant(events.take(i + 1));
}

} // verus!
