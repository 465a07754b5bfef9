use michi_api::import::rollback_positions;
use michi_api::import::{
    check_destinations, check_session_request, commit_mapping, commit_statuses, compute_sha256,
    duration_conflict, get_session_dir, get_staging_dir, is_allowed_extension, plan_upload, preflight,
    record_upload, sanitize_filename, CommitStatus, ImportError, ImportFile, ImportSessionRequest,
    ImportSessionState, ImportSessions, ImportUploadBody, LibraryTrack, MatchKind, PreflightStatus,
    PreflightTrack, UploadPlan, MAX_FILE_SIZE, MAX_IMPORT_SESSIONS, MAX_SESSION_SIZE,
};

fn session(id: u128) -> ImportSessionState {
    ImportSessionState {
        session_id: id,
        total_tracks: 2,
        total_playlists: 0,
        imported_tracks: 0,
        total_size_bytes: 0,
        device_id: 9,
        seen_hashes: vec![],
        files: vec![],
    }
}

#[test]
fn session_requests() {
    let e = check_session_request(&ImportSessionRequest { total_tracks: 0, total_playlists: 0 }).unwrap_err();
    assert_eq!((e.code(), e.status()), ("INVALID_REQUEST", 400));
    assert_eq!(e.message(), "total_tracks or total_playlists must be > 0");
    let e = check_session_request(&ImportSessionRequest { total_tracks: 10_001, total_playlists: 0 }).unwrap_err();
    assert_eq!(e.message(), "max 10000 tracks per session");
    assert!(check_session_request(&ImportSessionRequest { total_tracks: 10_000, total_playlists: 0 }).is_ok());
    assert!(check_session_request(&ImportSessionRequest { total_tracks: 0, total_playlists: 1 }).is_ok());
    assert_eq!((MAX_FILE_SIZE, MAX_SESSION_SIZE, MAX_IMPORT_SESSIONS), (104_857_600, 1_073_741_824, 100));
}

#[test]
fn file_names() {
    assert_eq!(sanitize_filename("../../etc/My Song (1).mp3"), "My_Song__1_.mp3");
    assert_eq!(sanitize_filename("Café.flac"), "Café.flac");
    assert_eq!(sanitize_filename(""), "unknown");
    assert!(is_allowed_extension("a.FLAC"));
    assert!(is_allowed_extension("x.m4a"));
    assert!(!is_allowed_extension("x.exe"));
    assert!(!is_allowed_extension("noext"));
    assert_eq!(get_staging_dir(&vec![], "/cache"), "/cache/import_staging");
    assert_eq!(
        get_session_dir(&vec![], "/cache", 1),
        "/cache/import_staging/00000000-0000-0000-0000-000000000001"
    );
    assert_eq!(compute_sha256(b"abc"), "ba7816bf8f01cfea414140de5dae2223b00361a396177a9cb410ff61f20015ad");
}

fn upload(name: &str, data: &str, hash: Option<&str>) -> ImportUploadBody {
    ImportUploadBody { filename: name.to_string(), hash: hash.map(|h| h.to_string()), data: data.to_string() }
}

#[test]
fn uploads_are_checked_in_order() {
    let s = session(1);
    assert!(matches!(plan_upload(&s, &upload("a.exe", "YWJj", None), None), Err(ImportError::InvalidExtension)));
    assert!(matches!(plan_upload(&s, &upload("a.mp3", "***", None), None), Err(ImportError::InvalidData)));
    assert!(matches!(
        plan_upload(&s, &upload("a.mp3", "YWJj", Some("00")), None),
        Err(ImportError::HashMismatch)
    ));
    let abc = "ba7816bf8f01cfea414140de5dae2223b00361a396177a9cb410ff61f20015ad";
    assert!(matches!(
        plan_upload(&s, &upload("a.mp3", "YWJj", Some("00")), Some(abc)),
        Ok(UploadPlan::Store { .. })
    ));
    let mut full = session(1);
    full.total_size_bytes = MAX_SESSION_SIZE - 2;
    assert!(matches!(
        plan_upload(&full, &upload("a.mp3", "YWJj", None), None),
        Err(ImportError::SessionSizeExceeded)
    ));
    match plan_upload(&s, &upload("dir/My Song.MP3", "YWJj", Some(abc)), None).unwrap() {
        UploadPlan::Store { data, checksum, ext, staging_filename, safe_name } => {
            assert_eq!(data, b"abc".to_vec());
            assert_eq!(checksum, abc);
            assert_eq!(ext, "mp3");
            assert_eq!(staging_filename, format!("{abc}.mp3"));
            assert_eq!(safe_name, "My_Song.MP3");
        }
        other => panic!("unexpected {:?}", other),
    }
}

#[test]
fn uploads_are_recorded_and_deduplicated() {
    let abc = "ba7816bf8f01cfea414140de5dae2223b00361a396177a9cb410ff61f20015ad";
    let mut s = session(1);
    let body = upload("song.mp3", "YWJj", None);
    record_upload(&mut s, &body, Some(5), abc, "song.mp3", "x.mp3", 3, Some(77));
    assert_eq!((s.imported_tracks, s.total_size_bytes), (1, 3));
    assert_eq!(s.seen_hashes, vec![abc.to_string()]);
    assert_eq!(s.files.len(), 1);
    assert_eq!(s.files[0].remote_track_id, 77);
    match plan_upload(&s, &body, None).unwrap() {
        UploadPlan::Duplicate { checksum } => assert_eq!(checksum, abc),
        other => panic!("unexpected {:?}", other),
    }
    match plan_upload(&s, &upload("song.mp3", "YWJk", None), None).unwrap() {
        UploadPlan::Store { safe_name, checksum, .. } => {
            assert_eq!(safe_name, format!("song_{}.mp3", &checksum[..8]));
        }
        other => panic!("unexpected {:?}", other),
    }
    record_upload(&mut s, &body, None, "ff", "other.mp3", "ff.mp3", 1, None);
    assert_eq!((s.imported_tracks, s.files.len()), (2, 1));
}

#[test]
fn session_table() {
    let mut t = ImportSessions::new();
    assert_eq!(t.len(), 0);
    t.open(session(1)).unwrap();
    t.open(session(2)).unwrap();
    assert!(t.contains(1) && t.contains(2));
    assert_eq!(t.get(2).unwrap().session_id, 2);
    assert!(t.get(3).is_none());
    let abc = "ba7816bf8f01cfea414140de5dae2223b00361a396177a9cb410ff61f20015ad";
    assert!(matches!(t.plan(3, &upload("a.mp3", "YWJj", None), None), Err(ImportError::SessionNotFound)));
    assert!(t.record(1, &upload("a.mp3", "YWJj", None), None, abc, "a.mp3", "s.mp3", 3, Some(4)));
    assert!(!t.record(3, &upload("a.mp3", "YWJj", None), None, abc, "a.mp3", "s.mp3", 3, Some(4)));
    assert_eq!(t.get(1).unwrap().imported_tracks, 1);
    assert_eq!(t.close(1).unwrap().session_id, 1);
    assert!(t.close(1).is_none());
    assert_eq!(t.len(), 1);
    for i in 10..(10 + MAX_IMPORT_SESSIONS as u128 - 1) {
        t.open(session(i)).unwrap();
    }
    let e = t.open(session(999)).unwrap_err();
    assert_eq!((e.code(), e.status()), ("TOO_MANY_SESSIONS", 429));
}

fn file(safe: &str, sum: &str, local: Option<u128>, remote: u128) -> ImportFile {
    ImportFile {
        local_track_id: local,
        filename: safe.to_string(),
        safe_name: safe.to_string(),
        staging_filename: format!("{sum}.mp3"),
        checksum: sum.to_string(),
        size_bytes: 1,
        remote_track_id: remote,
    }
}

#[test]
fn commits() {
    let files = vec![file("a.mp3", "aa", Some(1), 11), file("b.mp3", "bb", None, 12)];
    assert!(check_destinations(&files, &vec![None, Some("bb".to_string())]).is_ok());
    let e = check_destinations(&files, &vec![Some("aa".into()), Some("xx".to_string())]).unwrap_err();
    assert_eq!(e.message(), "Destination file b.mp3 already exists with different checksum. Commit aborted.");
    assert_eq!(e.status(), 409);
    let st = commit_statuses(&vec![false, true]);
    assert_eq!(st, vec![CommitStatus::Inserted, CommitStatus::AlreadyPresent]);
    assert_eq!(st[1].as_str(), "already_present");
    let m = commit_mapping(&files, &st);
    assert_eq!((m[0].local_track_id, m[0].remote_track_id, m[0].status), (1, 11, CommitStatus::Inserted));
    assert_eq!((m[1].local_track_id, m[1].checksum.as_str()), (12, "bb"));
    assert!(duration_conflict(1, Some(10_000), &vec![(2, Some(12_001))]));
    assert!(!duration_conflict(1, Some(10_000), &vec![(2, Some(12_000)), (1, Some(99_999)), (3, None)]));
    assert!(duration_conflict(1, None, &vec![(2, Some(2_001))]));
}

fn lib() -> Vec<LibraryTrack> {
    vec![
        LibraryTrack { id: 1, title: Some("So What".into()), duration_ms: Some(545_000), content_hash: Some("abcdef".into()) },
        LibraryTrack { id: 2, title: Some("Blue".into()), duration_ms: Some(300_000), content_hash: Some("123456".into()) },
    ]
}

fn track(quick: Option<&str>, prefix: Option<&str>, title: Option<&str>, d: Option<u64>) -> PreflightTrack {
    PreflightTrack {
        local_track_id: Some(42),
        content_hash: None,
        quick_hash: quick.map(|s| s.to_string()),
        sha256_prefix: prefix.map(|s| s.to_string()),
        duration_ms: d,
        title: title.map(|s| s.to_string()),
    }
}

#[test]
fn preflight_matching_order() {
    let r = preflight(&track(Some("abc"), None, None, None), Some(9), &lib());
    assert_eq!((r.status, r.remote_track_id, r.match_kind), (PreflightStatus::AlreadyPresent, Some(9), MatchKind::ExactHash));
    let r = preflight(&track(Some("123"), Some("abc"), None, None), None, &lib());
    assert_eq!((r.remote_track_id, r.match_kind), (Some(2), MatchKind::QuickHash));
    let r = preflight(&track(Some("zzz"), Some("abc"), None, None), None, &lib());
    assert_eq!((r.remote_track_id, r.match_kind), (Some(1), MatchKind::Sha256Prefix));
    let r = preflight(&track(None, None, Some("Blue"), Some(301_999)), None, &lib());
    assert_eq!((r.status, r.match_kind), (PreflightStatus::AlreadyPresent, MatchKind::MetadataDuration));
    let r = preflight(&track(None, None, Some("Blue"), Some(302_000)), None, &lib());
    assert_eq!((r.status, r.remote_track_id), (PreflightStatus::Conflict, Some(2)));
    let r = preflight(&track(None, None, Some("Green"), Some(1)), None, &lib());
    assert_eq!((r.status, r.remote_track_id, r.match_kind), (PreflightStatus::NeedsUpload, None, MatchKind::Nothing));
    assert_eq!(r.local_track_id, Some(42));
}

#[test]
fn rollback_removes_only_copied_files() {
    let st = vec![
        CommitStatus::Inserted,
        CommitStatus::AlreadyPresent,
        CommitStatus::Inserted,
        CommitStatus::Inserted,
    ];
    assert_eq!(rollback_positions(&st, 0), Vec::<usize>::new());
    assert_eq!(rollback_positions(&st, 2), vec![0]);
    assert_eq!(rollback_positions(&st, 4), vec![0, 2, 3]);
}

#[test]
fn hashed_upload_is_decided_by_its_checksum() {
    let mut s = session(1);
    let sum = "ab".repeat(32);
    let plan = michi_api::import::plan_hashed_upload(&s, &upload("a.mp3", "", None), None, "mp3".into(), vec![1, 2], sum.clone()).unwrap();
    match plan {
        UploadPlan::Store { checksum, staging_filename, safe_name, .. } => {
            assert_eq!(checksum, sum);
            assert_eq!(staging_filename, format!("{sum}.mp3"));
            assert_eq!(safe_name, "a.mp3");
        }
        other => panic!("unexpected {:?}", other),
    }
    assert!(matches!(
        michi_api::import::plan_hashed_upload(&s, &upload("a.mp3", "", Some("00")), None, "mp3".into(), vec![1], sum.clone()),
        Err(ImportError::HashMismatch)
    ));
    record_upload(&mut s, &upload("a.mp3", "", None), None, &sum, "a.mp3", "x.mp3", 2, None);
    assert!(matches!(
        michi_api::import::plan_hashed_upload(&s, &upload("a.mp3", "", None), None, "mp3".into(), vec![1, 2], sum.clone()),
        Ok(UploadPlan::Duplicate { .. })
    ));
}

#[test]
fn ascii_names_are_sanitised_by_class() {
    assert_eq!(sanitize_filename("My Song!.mp3"), "My_Song_.mp3");
    assert!(is_allowed_extension("song.MP3"));
    assert!(!is_allowed_extension("song.txt"));
}

#[test]
fn commit_plan_checks_every_destination_first() {
    let files = vec![file("a.mp3", "aa", None, 1), file("b.mp3", "bb", None, 2)];
    match michi_api::import::plan_commit(&files, &vec![None, Some("zz".to_string())]) {
        Err(ImportError::DestinationConflict(n)) => assert_eq!(n, "b.mp3"),
        other => panic!("unexpected {:?}", other),
    }
    let plan = michi_api::import::plan_commit(&files, &vec![None, Some("bb".to_string())]).unwrap();
    assert_eq!(plan, vec![CommitStatus::Inserted, CommitStatus::AlreadyPresent]);
}

#[test]
fn planning_through_the_session_table_uses_the_open_session() {
    let mut t = ImportSessions::new();
    t.open(session(5)).unwrap();
    assert!(matches!(t.plan(6, &upload("a.mp3", "AQI=", None), None), Err(ImportError::SessionNotFound)));
    assert!(matches!(t.plan(5, &upload("a.txt", "AQI=", None), None), Err(ImportError::InvalidExtension)));
    assert!(matches!(t.plan(5, &upload("a.mp3", "AQI=", None), Some("00")), Err(ImportError::HashMismatch)));
    assert!(matches!(t.plan(5, &upload("a.mp3", "AQI=", None), None), Ok(UploadPlan::Store { .. })));
}
