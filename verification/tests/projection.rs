use michi_api::playback::PlaybackRepeatMode;
use michi_api::projection::{
    apply_event, apply_snapshot, epoch_after_restart, is_finished, is_flowing, lamport_after_restart,
    same_projection, CommandOrigin, EngineEvent, EngineSnapshot, PlaybackLifecycle,
    PlaybackProjectionCoordinator, ProjectionFailureKind, SessionProjection, ShutdownAction,
    ShutdownFlush, TrackedEngineEvent,
};

fn snap(lifecycle: PlaybackLifecycle) -> EngineSnapshot {
    EngineSnapshot {
        lifecycle,
        track_id: Some(7),
        position_ms: 1234,
        volume: 55,
        shuffle: true,
        repeat: PlaybackRepeatMode::All,
        updated_at_ms: 0,
        timeline_origin: CommandOrigin::Local,
    }
}

fn session() -> SessionProjection {
    SessionProjection {
        current_track_id: None,
        current_index: 0,
        position_ms: 0,
        playing: false,
        volume_percent: 80,
        shuffle: false,
        repeat_mode: "off".into(),
    }
}

#[test]
fn lifecycles() {
    assert!(is_flowing(PlaybackLifecycle::Playing) && is_flowing(PlaybackLifecycle::AudioFlowing));
    assert!(!is_flowing(PlaybackLifecycle::Paused));
    assert!(is_finished(PlaybackLifecycle::Ended) && is_finished(PlaybackLifecycle::Stopped));
    assert!(!is_finished(PlaybackLifecycle::Failed));
}

#[test]
fn restart_counters() {
    assert_eq!(epoch_after_restart(None, 100), 100);
    assert_eq!(epoch_after_restart(Some("500"), 100), 501);
    assert_eq!(epoch_after_restart(Some("5"), 100), 100);
    assert_eq!(epoch_after_restart(Some("junk"), 100), 100);
    assert_eq!(epoch_after_restart(Some("18446744073709551615"), 0), u64::MAX);
    assert_eq!(lamport_after_restart(None), 10_000);
    assert_eq!(lamport_after_restart(Some("42")), 10_042);
    assert_eq!(lamport_after_restart(Some("18446744073709551615")), u64::MAX);
}

#[test]
fn events_shape_the_session() {
    let mut s = session();
    apply_event(&EngineEvent::LifecycleChanged { lifecycle: PlaybackLifecycle::AudioFlowing, track_id: None }, &snap(PlaybackLifecycle::AudioFlowing), &mut s);
    assert_eq!((s.current_track_id, s.position_ms, s.playing, s.volume_percent, s.shuffle), (Some(7), 1234, true, 55, true));
    assert_eq!(s.repeat_mode, "all");
    apply_event(&EngineEvent::Paused { track_id: Some(8), position_ms: 99 }, &snap(PlaybackLifecycle::Paused), &mut s);
    assert_eq!((s.current_track_id, s.position_ms, s.playing), (Some(8), 99, false));
    apply_event(&EngineEvent::Stopped, &snap(PlaybackLifecycle::Stopped), &mut s);
    assert_eq!((s.position_ms, s.playing), (0, false));
    apply_event(&EngineEvent::TrackChanged { track_id: Some(9), index: 3 }, &snap(PlaybackLifecycle::Playing), &mut s);
    assert_eq!((s.current_track_id, s.current_index, s.position_ms), (Some(9), 3, 1234));
    apply_event(&EngineEvent::RepeatChanged { repeat: PlaybackRepeatMode::One }, &snap(PlaybackLifecycle::Playing), &mut s);
    assert_eq!(s.repeat_mode, "one");
    let before = s.clone();
    apply_event(&EngineEvent::QueueChanged { length: 4 }, &snap(PlaybackLifecycle::Playing), &mut s);
    assert!(same_projection(&before, &s));
    let mut t = session();
    apply_snapshot(&snap(PlaybackLifecycle::Ended), &mut t);
    assert_eq!((t.current_track_id, t.position_ms, t.playing), (Some(7), 0, false));
}

#[test]
fn coordinator_clocks_and_peers() {
    let mut c = PlaybackProjectionCoordinator::new_with_epoch_boot_and_lamport("srv".into(), 5, 77, 10);
    assert_eq!((c.server_epoch(), c.boot_id(), c.current_lamport()), (5, 77, 10));
    assert_eq!(c.next_local_sequence(), 1);
    assert_eq!(c.next_lamport(), 11);
    assert_eq!(c.observe_lamport(100), 101);
    assert_eq!(c.observe_lamport(3), 102);
    assert_eq!(c.observe_lamport(u64::MAX - 100_000), 102);
    assert!(!c.is_stale_peer_state("p", Some(1), Some(9), 4));
    c.record_peer_state("p", Some(1), Some(9), 4);
    assert!(c.is_stale_peer_state("p", Some(1), Some(9), 4));
    assert!(c.is_stale_peer_state("p", Some(1), Some(9), 3));
    assert!(!c.is_stale_peer_state("p", Some(1), Some(9), 5));
    assert!(!c.is_stale_peer_state("p", Some(2), Some(9), 0));
    assert!(c.is_stale_peer_state("p", Some(0), Some(9), 100));
    assert!(!c.is_stale_peer_state("p", Some(1), Some(8), 1), "a new boot of the peer starts afresh");
    assert!(!c.is_stale_peer_state("q", Some(1), Some(9), 4));
    assert!(!c.is_event_processed(5));
    c.record_processed_event(5);
    assert!(c.is_event_processed(5));
}

#[test]
fn coordinator_handles_events() {
    let mut c = PlaybackProjectionCoordinator::new_with_epoch_boot_and_lamport("srv".into(), 5, 77, 10);
    let ev = TrackedEngineEvent {
        origin: CommandOrigin::Local,
        event: EngineEvent::LifecycleChanged { lifecycle: PlaybackLifecycle::Playing, track_id: Some(7) },
    };
    let out = c.handle_event(&ev, &snap(PlaybackLifecycle::Playing), 1000, Ok(session()));
    assert!(out.broadcast);
    assert!(out.state.playing);
    assert_eq!(out.state.provenance.sequence, Some(1));
    assert_eq!(out.state.provenance.lamport, Some(11));
    assert_eq!(out.state.provenance.device_id.as_deref(), Some("srv"));
    let written = out.write.expect("first projection is written");
    assert!(c.should_persist(&written));
    c.persist_succeeded(&written, 1001);
    assert!(!c.should_persist(&written));
    let remote = TrackedEngineEvent {
        origin: CommandOrigin::Remote {
            origin_device_id: "phone".into(),
            event_id: 42,
            sequence: Some(3),
            epoch: Some(1),
            boot_id: None,
            lamport: Some(500),
        },
        event: EngineEvent::VolumeChanged { volume: 55 },
    };
    let out = c.handle_event(&remote, &snap(PlaybackLifecycle::Playing), 1002, Err("db locked".into()));
    assert!(!out.broadcast);
    assert!(out.write.is_none());
    assert_eq!(out.state.provenance.event_id, Some(42));
    let h = c.health();
    assert!(!h.healthy);
    assert_eq!(h.last_error_kind, Some(ProjectionFailureKind::SessionLoad));
    assert_eq!(h.last_error.as_deref(), Some("get_or_create_latest_playback_session failed: db locked"));
    c.record_success(1003);
    assert!(c.health().healthy);
}

#[test]
fn processed_event_memory_is_cleared_past_its_bound() {
    let mut c = PlaybackProjectionCoordinator::new_with_epoch_boot_and_lamport("srv".into(), 5, 77, 10);
    for id in 0..=10_000u128 {
        c.record_processed_event(id);
    }
    assert!(c.is_event_processed(0));
    assert!(c.is_event_processed(10_000));
    c.record_processed_event(99_999);
    assert!(c.is_event_processed(99_999));
    assert!(!c.is_event_processed(0), "the 10001 remembered ids were cleared first");
    assert!(!c.is_event_processed(10_000));
}

fn expect_lamport(a: ShutdownAction, want: &str) {
    match a {
        ShutdownAction::StoreLamport { key, value } => {
            assert_eq!(key, "sync_server_lamport");
            assert_eq!(value, want);
        }
        other => panic!("unexpected {:?}", other),
    }
}

#[test]
fn shutdown_flush_writes_session_then_lamport() {
    let mut c = PlaybackProjectionCoordinator::new_with_epoch_boot_and_lamport("srv".into(), 5, 77, 42);
    assert!(matches!(
        c.shutdown_flush_step(ShutdownFlush::Snapshot(Ok(snap(PlaybackLifecycle::Playing))), 10),
        ShutdownAction::LoadSession
    ));
    let w = match c.shutdown_flush_step(
        ShutdownFlush::Loaded { snapshot: snap(PlaybackLifecycle::Playing), session: Ok(session()) },
        10,
    ) {
        ShutdownAction::WriteSession(w) => w,
        other => panic!("unexpected {:?}", other),
    };
    assert_eq!((w.current_track_id, w.position_ms, w.playing, w.volume_percent, w.shuffle), (Some(7), 1234, false, 55, true));
    assert_eq!(w.repeat_mode, "all");
    expect_lamport(c.shutdown_flush_step(ShutdownFlush::Written(Ok(())), 11), "42");
    assert!(c.health().healthy);
    assert_eq!(c.health().last_success_at, Some(11));
}

#[test]
fn shutdown_flush_stores_lamport_after_failures() {
    let mut c = PlaybackProjectionCoordinator::new_with_epoch_boot_and_lamport("srv".into(), 5, 77, 7);
    expect_lamport(c.shutdown_flush_step(ShutdownFlush::Snapshot(Err("engine gone".into())), 1), "7");
    assert!(!c.health().healthy);
    assert_eq!(c.health().last_error_kind, Some(ProjectionFailureKind::ShutdownFlush));
    assert_eq!(c.health().last_error.as_deref(), Some("flush_shutdown engine snapshot failed: engine gone"));
    expect_lamport(
        c.shutdown_flush_step(
            ShutdownFlush::Loaded { snapshot: snap(PlaybackLifecycle::Paused), session: Err("db locked".into()) },
            2,
        ),
        "7",
    );
    assert_eq!(
        c.health().last_error.as_deref(),
        Some("flush_shutdown get_or_create_latest_playback_session failed: db locked")
    );
    expect_lamport(c.shutdown_flush_step(ShutdownFlush::Written(Err("disk full".into())), 3), "7");
    assert_eq!(c.health().last_error.as_deref(), Some("flush_shutdown session update failed: disk full"));
}
