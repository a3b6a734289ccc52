use bluepresence::config::AppConfig;
use bluepresence::monitor::{
    MonitorAction, MonitorEvent, MonitorState, PendingPublish, VersionedConfig,
    POLL_INTERVAL_MS, REFRESH_INTERVAL_MS,
};

fn tick(game_running: bool, revision: u64, now_ms: u64, unix_ms: i64) -> MonitorEvent {
    MonitorEvent::Tick { game_running, revision, now_ms, unix_ms }
}

#[test]
fn revision_wraps() {
    let mut v = VersionedConfig::new(AppConfig::default());
    assert_eq!(v.revision, 0);
    v.update(AppConfig { player_name: "a".into(), friend_code: String::new() });
    assert_eq!(v.revision, 1);
    assert_eq!(v.value.player_name, "a");
    v.revision = u64::MAX;
    v.update(AppConfig::default());
    assert_eq!(v.revision, 0);
}

#[test]
fn first_round_connects_then_publishes() {
    let mut s = MonitorState::new();
    assert_eq!(s.step(tick(true, 0, 0, 1000)), MonitorAction::Connect);
    assert_eq!(s.started_at_ms, Some(1000));
    assert_eq!(s.pending, Some(PendingPublish { revision: 0, started_at_ms: 1000 }));
    assert_eq!(s.step(MonitorEvent::ConnectFinished { ok: true }), MonitorAction::Publish { started_at_ms: 1000 });
    assert_eq!(s.step(MonitorEvent::PublishFinished { ok: true, now_ms: 10 }), MonitorAction::Sleep);
    assert!(s.connected);
    assert_eq!(s.published_revision, Some(0));
    assert_eq!(s.last_publish_ms, Some(10));
    assert_eq!(s.pending, None);
}

#[test]
fn published_presence_is_refreshed_only_after_interval() {
    let mut s = MonitorState::new();
    s.step(tick(true, 7, 0, 50));
    s.step(MonitorEvent::ConnectFinished { ok: true });
    s.step(MonitorEvent::PublishFinished { ok: true, now_ms: 100 });
    assert_eq!(s.step(tick(true, 7, 2100, 99)), MonitorAction::Sleep);
    assert_eq!(s.started_at_ms, Some(50));
    assert_eq!(s.step(tick(true, 7, 100 + REFRESH_INTERVAL_MS - 1, 99)), MonitorAction::Sleep);
    assert_eq!(s.step(tick(true, 7, 100 + REFRESH_INTERVAL_MS, 99)), MonitorAction::Publish { started_at_ms: 50 });
    s.step(MonitorEvent::PublishFinished { ok: true, now_ms: 100 + REFRESH_INTERVAL_MS });
    assert_eq!(s.step(tick(true, 8, 100 + REFRESH_INTERVAL_MS + 1, 99)), MonitorAction::Publish { started_at_ms: 50 });
}

#[test]
fn failed_connection_is_retried_next_round() {
    let mut s = MonitorState::new();
    s.step(tick(true, 0, 0, 5));
    assert_eq!(s.step(MonitorEvent::ConnectFinished { ok: false }), MonitorAction::Sleep);
    assert!(!s.connected);
    assert_eq!(s.pending, None);
    assert_eq!(s.step(tick(true, 0, 2000, 9)), MonitorAction::Connect);
    assert_eq!(s.started_at_ms, Some(5));
}

#[test]
fn failed_publish_drops_connection() {
    let mut s = MonitorState::new();
    s.step(tick(true, 3, 0, 5));
    s.step(MonitorEvent::ConnectFinished { ok: true });
    s.step(MonitorEvent::PublishFinished { ok: true, now_ms: 1 });
    s.step(tick(true, 4, 2, 5));
    assert_eq!(s.step(MonitorEvent::PublishFinished { ok: false, now_ms: 3 }), MonitorAction::Sleep);
    assert!(!s.connected);
    assert_eq!(s.published_revision, None);
    assert_eq!(s.last_publish_ms, None);
    assert_eq!(s.step(tick(true, 4, 4, 5)), MonitorAction::Connect);
}

#[test]
fn game_exit_clears_presence() {
    let mut s = MonitorState::new();
    s.step(tick(true, 0, 0, 5));
    s.step(MonitorEvent::ConnectFinished { ok: true });
    s.step(MonitorEvent::PublishFinished { ok: true, now_ms: 1 });
    assert_eq!(s.step(tick(false, 0, 2, 6)), MonitorAction::Disconnect);
    assert_eq!(s, MonitorState::new());
    assert_eq!(s.step(tick(false, 0, 3, 7)), MonitorAction::Sleep);
    assert_eq!(s.step(tick(true, 0, 4, 8)), MonitorAction::Connect);
    assert_eq!(s.started_at_ms, Some(8));
}

#[test]
fn connected_but_fresh_round_sleeps_after_connect() {
    let mut s = MonitorState::new();
    s.step(tick(true, 1, 0, 5));
    s.step(MonitorEvent::ConnectFinished { ok: true });
    s.step(MonitorEvent::PublishFinished { ok: true, now_ms: 0 });
    assert_eq!(s.step(tick(true, 1, 10, 5)), MonitorAction::Sleep);
    assert_eq!(s.step(MonitorEvent::ConnectFinished { ok: true }), MonitorAction::Sleep);
}

#[test]
fn shutdown_exits() {
    let mut s = MonitorState::new();
    assert_eq!(s.step(MonitorEvent::ShutdownRequested), MonitorAction::Exit { disconnect: false });
    s.step(tick(true, 0, 0, 5));
    s.step(MonitorEvent::ConnectFinished { ok: true });
    assert_eq!(s.step(MonitorEvent::ShutdownRequested), MonitorAction::Exit { disconnect: true });
}

#[test]
fn last_update_wins() {
    let mut v = VersionedConfig::new(AppConfig::default());
    for name in ["a", "b", "c"] {
        v.update(AppConfig { player_name: name.into(), friend_code: String::new() });
    }
    assert_eq!(v.revision, 3);
    assert_eq!(v.value.player_name, "c");
    assert_eq!(POLL_INTERVAL_MS, 2000);
}

#[test]
fn start_time_holds_over_a_run_and_resets_after() {
    let mut s = MonitorState::new();
    s.step(tick(true, 0, 0, 100));
    s.step(MonitorEvent::ConnectFinished { ok: true });
    s.step(MonitorEvent::PublishFinished { ok: true, now_ms: 0 });
    assert_eq!(s.step(tick(true, 1, 2000, 300)), MonitorAction::Publish { started_at_ms: 100 });
    s.step(MonitorEvent::PublishFinished { ok: true, now_ms: 2000 });
    s.step(tick(false, 1, 4000, 500));
    assert_eq!(s.step(tick(true, 1, 6000, 700)), MonitorAction::Connect);
    assert_eq!(s.step(MonitorEvent::ConnectFinished { ok: true }), MonitorAction::Publish { started_at_ms: 700 });
}
