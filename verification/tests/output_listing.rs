use michi_api::listing::{ integrity_run_due, job_outcome, job_slots, job_start, supervisor_idle, watcher_step, JobOutcome, WatcherAction, };
use michi_api::listing::{
    backup_job_result, check_job, clamp_rating, health_info, history_entries, job_kind, jobs_window,
    list_window, playback_state_name, receivers_online, scan_job_result, HistoryRow, JobError, JobKind,
    ListJobsQuery, RatingBody,
};
use michi_api::output::{
    resolve_chain, resolve_receiver, resolve_room_group, ChainLinkRecord, OutputError, PrepareAction,
    ReceiverSink, RoomGroupRecord, SinkError, SinkState,
};

#[test]
fn outputs() {
    let p = resolve_receiver("r1", Some(("Kitchen".into(), true))).unwrap();
    assert_eq!((p.sinks.len(), p.sinks[0].volume, p.description.kind.as_str(), p.description.target_name.as_str()), (1, 80, "receiver", "Kitchen"));
    assert!(matches!(resolve_receiver("r1", Some(("K".into(), false))), Err(OutputError::ReceiverNotPaired(x)) if x == "r1"));
    assert!(matches!(resolve_receiver("r1", None), Err(OutputError::ReceiverNotPaired(_))));
    let g = RoomGroupRecord {
        name: "Den".into(),
        receiver_ids: vec!["a".into(), "b".into(), "c".into()],
        volumes: vec![("c".into(), 33)],
    };
    let p = resolve_room_group(1, Some(g), &vec![true, false, true]).unwrap();
    let ids: Vec<(&str, u8)> = p.sinks.iter().map(|s| (s.receiver_id.as_str(), s.volume)).collect();
    assert_eq!(ids, vec![("a", 80), ("c", 33)]);
    assert_eq!((p.description.kind.as_str(), p.description.receiver_count), ("room_group", 2));
    let g = RoomGroupRecord { name: "E".into(), receiver_ids: vec![], volumes: vec![] };
    assert!(matches!(resolve_room_group(1, Some(g), &vec![]), Err(OutputError::OutputUnavailable(m)) if m == "room group has no configured receivers"));
    let g = RoomGroupRecord { name: "E".into(), receiver_ids: vec!["a".into()], volumes: vec![] };
    assert!(matches!(resolve_room_group(1, Some(g), &vec![false]), Err(OutputError::OutputUnavailable(m)) if m == "none of the receivers in the room group are paired or available"));
    assert!(matches!(resolve_room_group(1, None, &vec![]), Err(OutputError::OutputNotFound(x)) if x == "00000000-0000-0000-0000-000000000001"));
    let links = vec![
        ChainLinkRecord { receiver_id: "a".into(), volume: 150, muted: false },
        ChainLinkRecord { receiver_id: "b".into(), volume: -4, muted: true },
    ];
    let p = resolve_chain(2, Some(("Chain".into(), links)), &vec![true, true]).unwrap();
    let s: Vec<(u8, bool)> = p.sinks.iter().map(|s| (s.volume, s.muted)).collect();
    assert_eq!(s, vec![(100, false), (0, true)]);
    assert!(matches!(resolve_chain(2, Some(("C".into(), vec![])), &vec![]), Err(OutputError::OutputUnavailable(m)) if m == "playback chain has no links configured"));
}

#[test]
fn receiver_sink_lifecycle() {
    let mut s = ReceiverSink::new("r1".into());
    assert_eq!((s.state, s.volume, s.muted), (SinkState::Preparing, 80, false));
    assert!(matches!(s.prepare(None, false), Err(SinkError::ReceiverNotPaired(_))));
    assert_eq!(s.state, SinkState::Preparing);
    assert_eq!(s.prepare(Some(true), false).unwrap(), PrepareAction::StartSession { volume: 80 });
    match s.session_started(Err("refused".into())) {
        Err(SinkError::PlaybackFailed(m)) => assert_eq!(m, "failed to start receiver session for r1: refused"),
        other => panic!("unexpected {:?}", other),
    }
    assert_eq!(s.state, SinkState::Failed);
    assert_eq!(s.last_error, Some("refused".to_string()));
    s.session_started(Ok(())).unwrap();
    assert_eq!(s.state, SinkState::Ready);
    assert!(s.begin_write(100));
    assert_eq!(s.finish_write(Ok(100)).unwrap(), 100);
    assert_eq!((s.state, s.bytes_received, s.bytes_sent_to_transport), (SinkState::AudioFlowing, 100, 100));
    s.pause();
    assert_eq!(s.state, SinkState::Paused);
    s.resume();
    assert_eq!(s.state, SinkState::AudioFlowing);
    assert_eq!(s.set_volume(30), 30);
    assert!(s.finish_write(Err("broken pipe".into())).is_err());
    assert_eq!(s.state, SinkState::Failed);
    assert!(s.stopped(Ok(())).is_ok());
    assert_eq!(s.state, SinkState::Stopped);
    assert!(s.health(Some(true)).is_ok());
    assert!(s.health(Some(false)).is_err());

    let mut muted = ReceiverSink::new_with_config("r2".into(), 50, true);
    assert_eq!(muted.prepare(Some(true), true).unwrap(), PrepareAction::Ready);
    assert!(!muted.begin_write(10));
    assert_eq!((muted.bytes_received, muted.bytes_sent_to_transport), (10, 0));
    let mut unpaired = ReceiverSink::new("r3".into());
    assert!(unpaired.prepare(Some(false), false).is_err());
    assert_eq!(unpaired.state, SinkState::Failed);
}

#[test]
fn listing_windows_and_jobs() {
    assert_eq!(clamp_rating(&RatingBody { rating: 9 }), 5);
    assert_eq!(list_window(None, None), (50, 0));
    assert_eq!(jobs_window(&ListJobsQuery { kind: None, state: None, limit: Some(500), offset: Some(3) }), (200, 3));
    assert_eq!(jobs_window(&ListJobsQuery { kind: None, state: None, limit: None, offset: None }), (50, 0));
    assert_eq!(check_job("scan", None, None), Ok(0));
    assert_eq!(check_job("backup", Some(4096), Some(7)), Ok(7));
    assert_eq!(check_job("backup", Some(4097), Some(7)), Err(JobError::PayloadTooLarge));
    assert_eq!(check_job("dance", None, None), Err(JobError::InvalidKind));
    assert_eq!(JobError::InvalidKind.text(), ("INVALID_JOB_KIND", "job kind must be scan, sync, backup, or cleanup"));
    assert_eq!(job_kind("cleanup"), Ok(JobKind::Cleanup));
    assert_eq!(job_kind("sync"), Ok(JobKind::Sync));
    assert_eq!(job_kind("dance"), Err("unknown job kind: dance".to_string()));
    assert_eq!(scan_job_result(12), "scanned 12 tracks");
    assert_eq!(backup_job_result(3, 1), "backup complete: 3 tracks, 1 playlists");
}

#[test]
fn history_and_dashboard() {
    let rows = vec![
        HistoryRow { track_id: uuid::Uuid::from_u128(5).to_string(), played_at: "t1".into(), title: "A".into(), artist: None, album: None },
        HistoryRow { track_id: "bad".into(), played_at: "t2".into(), title: "B".into(), artist: None, album: None },
    ];
    let e = history_entries(rows);
    assert_eq!(e.len(), 1);
    assert_eq!((e[0].track_id, e[0].played_at.as_str(), e[0].title.as_str()), (5, "t1", "A"));
    assert_eq!(playback_state_name(true), "playing");
    assert_eq!(playback_state_name(false), "paused");
    assert_eq!(receivers_online(&vec![true, false, true]), 2);
    assert!(health_info(100, 0, 9, 4, 2).is_healthy);
    assert!(!health_info(100, 0, 10, 4, 2).is_healthy);
    assert!(!health_info(100, 1, 0, 0, 0).is_healthy);
    assert!(health_info(0, 0, 0, 0, 0).is_healthy);
    assert!(!health_info(5, 0, 1, 0, 0).is_healthy);
    assert_eq!(health_info(5, 0, 1, 2, 3).tracks_without_cover, 3);
}

#[test]
fn background_work_decisions() {
    assert_eq!(job_start(true, "scan"), Err("cancelled".to_string()));
    assert_eq!(job_start(false, "scan"), Ok(JobKind::Scan));
    assert_eq!(job_start(false, "defrag"), Err("unknown job kind: defrag".to_string()));
    assert_eq!(job_outcome(true, Ok("done".into())), JobOutcome::Cancelled);
    assert_eq!(job_outcome(false, Ok("done".into())), JobOutcome::Completed("done".into()));
    assert_eq!(job_outcome(false, Err("boom".into())), JobOutcome::Failed("boom".into()));
    assert_eq!(job_slots(0), 1);
    assert_eq!(job_slots(4), 4);
    assert!(supervisor_idle(true, true));
    assert!(!supervisor_idle(true, false));
    assert!(integrity_run_due(false, false));
    assert!(!integrity_run_due(true, false));
    assert!(!integrity_run_due(false, true));
    assert_eq!(watcher_step(false, true, false, false), (WatcherAction::Stop, false));
    assert_eq!(watcher_step(false, false, true, false), (WatcherAction::Wait, true));
    assert_eq!(watcher_step(true, false, false, false), (WatcherAction::ReconcileThenWatch, false));
    assert_eq!(watcher_step(false, false, false, false), (WatcherAction::Watch, false));
}

#[test]
fn job_result_texts() {
    assert_eq!(michi_api::listing::sync_job_result(), "sync triggered");
    assert_eq!(michi_api::listing::cleanup_job_result(), "cleanup complete");
    assert_eq!(scan_job_result(12), "scanned 12 tracks");
    assert_eq!(backup_job_result(3, 1), "backup complete: 3 tracks, 1 playlists");
}
