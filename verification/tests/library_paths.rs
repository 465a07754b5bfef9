use michi_api::assets::{asset_version, build_commit, processed_html, sw_js_content};
use michi_api::library::{
    artwork_candidates, artwork_mime, check_music_paths, database_error, import_description,
    page_bounds, playlist_name, scan_done_event, search_term, MusicPath, SearchParams, TracksQuery,
};
use michi_api::paths::{extension_chars, file_name_chars, join_path, last_dot_index, stem_chars};
use michi_api::players::{new_player, new_queue, player_from_row, queue_item_from_row, CreatePlayerRequest, CreateQueueRequest};
use michi_api::text::{
    contains_str, decimal_string, find_str, hex_string, parse_u64, substring, trim_chars,
    trimmed,
};
use michi_api::watchdog::{may_be_hung, WorkerState, HEARTBEAT_TIMEOUT_MS};
use std::path::Path;

fn chars(s: &str) -> Vec<char> {
    s.chars().collect()
}

fn text(v: Option<Vec<char>>) -> Option<String> {
    v.map(|c| c.into_iter().collect())
}

#[test]
fn paths_read_like_std() {
    for p in ["/a/b.flac", "a/b/", "a/b/.", "/", "..", "a/..", "x.tar.gz", ".bashrc", "noext", "a/.", "dir/file."] {
        let std_name = Path::new(p).file_name().map(|n| n.to_str().unwrap().to_string());
        assert_eq!(text(file_name_chars(&chars(p))), std_name, "file name of {p}");
        let std_ext = Path::new(p).extension().map(|n| n.to_str().unwrap().to_string());
        assert_eq!(text(extension_chars(&chars(p))), std_ext, "extension of {p}");
        let std_stem = Path::new(p).file_stem().map(|n| n.to_str().unwrap().to_string());
        assert_eq!(text(stem_chars(&chars(p))), std_stem, "stem of {p}");
    }
    assert_eq!(last_dot_index(&chars("a.b.c")), Some(3));
    assert_eq!(last_dot_index(&chars("abc")), None);
    assert_eq!(join_path("/music", "a/b.mp3"), "/music/a/b.mp3");
    assert_eq!(join_path("/music/", "b.mp3"), "/music/b.mp3");
    assert_eq!(join_path("", "b.mp3"), "b.mp3");
}

#[test]
fn text_helpers() {
    assert_eq!(parse_u64(&chars("18446744073709551615")), Some(u64::MAX));
    assert_eq!(parse_u64(&chars("18446744073709551616")), None);
    assert_eq!(parse_u64(&chars("")), None);
    assert_eq!(parse_u64(&chars("12a")), None);
    assert_eq!(decimal_string(0), "0");
    assert_eq!(decimal_string(1234), "1234");
    assert_eq!(hex_string(&[0x00, 0xab, 0x10]), "00ab10");
    assert_eq!(trim_chars(&chars("\u{a0} x y \t\n")), chars("x y"));
    assert_eq!(trimmed("  a "), "a");
    assert!(contains_str("audio/mpeg", "mpeg"));
    assert!(contains_str("abc", ""));
    assert!(!contains_str("ab", "abc"));
    assert_eq!(find_str("a||||b", "|||"), Some(1));
    assert_eq!(find_str("abc", "d"), None);
    assert_eq!(substring("héllo", 1, 3), "él");
}

#[test]
fn library_answers() {
    assert_eq!(database_error("locked").message, "database error: locked");
    assert_eq!(database_error("locked").status, "error");
    let e = check_music_paths(&vec![]).unwrap_err();
    assert_eq!((e.0, e.1.message.as_str()), (400, "no music paths configured"));
    let paths = vec![
        MusicPath { display: "/m1".into(), exists: true, is_dir: true },
        MusicPath { display: "/m2".into(), exists: true, is_dir: false },
        MusicPath { display: "/m3".into(), exists: false, is_dir: false },
    ];
    let e = check_music_paths(&paths).unwrap_err();
    assert_eq!((e.0, e.1.message.as_str()), (400, "music path is not a directory: /m2"));
    let e = check_music_paths(&paths[2..].iter().map(|p| MusicPath { display: p.display.clone(), exists: p.exists, is_dir: p.is_dir }).collect()).unwrap_err();
    assert_eq!((e.0, e.1.message.as_str()), (404, "music path not found: /m3"));
    assert!(check_music_paths(&vec![MusicPath { display: "/m".into(), exists: true, is_dir: true }]).is_ok());
    assert_eq!(scan_done_event(3, 2), "{\"type\":\"scan_done\",\"scanned\":3,\"saved\":2}");
    assert_eq!(page_bounds(&TracksQuery { limit: None, offset: Some(5) }), None);
    assert_eq!(page_bounds(&TracksQuery { limit: Some(0), offset: Some(-3) }), Some((1, 0)));
    assert_eq!(page_bounds(&TracksQuery { limit: Some(900), offset: Some(10) }), Some((500, 10)));
    assert_eq!(search_term(&SearchParams { q: " x ".into() }), Some("x".to_string()));
    assert_eq!(search_term(&SearchParams { q: " ".into() }), None);
    assert_eq!(playlist_name(" Mix ").unwrap(), "Mix");
    assert_eq!(playlist_name("").unwrap_err().message, "playlist name is required");
    assert_eq!(import_description(3, 5), "Imported from M3U (3 of 5 tracks matched)");
}

#[test]
fn artwork() {
    assert_eq!(artwork_candidates("/abs/a.flac", &vec!["/m".into()]), vec!["/abs/a.flac".to_string()]);
    assert_eq!(
        artwork_candidates("rel/a.flac", &vec!["/m1".into(), "/m2/".into()]),
        vec!["/m1/rel/a.flac".to_string(), "/m2/rel/a.flac".to_string()]
    );
    assert_eq!(artwork_mime(&[0x89, b'P', b'N', b'G', 0x0D, 0x0A, 0x1A, 0x0A, 0, 0, 0, 0]), "image/png");
    assert_eq!(artwork_mime(b"plain text"), "image/jpeg");
}

#[test]
fn players_and_queues() {
    let p = new_player(1, CreatePlayerRequest { name: "Kitchen".into(), kind: None });
    assert_eq!((p.id.as_str(), p.kind.as_str(), p.state.as_str(), p.volume), ("00000000-0000-0000-0000-000000000001", "webui", "idle", 80));
    let p = player_from_row("i".into(), "n".into(), "k".into(), "playing".into(), 55, 1, None, 10, None);
    assert_eq!((p.volume, p.muted, p.position_ms), (55, true, 10));
    let q = new_queue(2, &CreateQueueRequest { name: "Q".into(), track_ids: vec!["t1".into(), "t2".into()] }, &vec![10, 11]);
    assert_eq!((q.current_index, q.repeat_mode.as_str(), q.shuffle), (0, "none", false));
    assert_eq!(q.items[1].track_id, "t2");
    assert_eq!(q.items[1].position, 1);
    assert_eq!(q.items[0].id, "00000000-0000-0000-0000-00000000000a");
    assert_eq!(queue_item_from_row("a".into(), "b".into(), 4).position, 4);
}

#[test]
fn assets() {
    let v = asset_version("0.2.0", b"body{}", b"", b"main()");
    assert!(v.starts_with("0.2.0-"));
    assert_eq!(v.len(), "0.2.0-".len() + 12);
    assert_ne!(v, asset_version("0.2.0", b"body{ }", b"", b"main()"));
    assert!(sw_js_content("0.2.0-abc").contains("0.2.0-abc"));
    assert_eq!(processed_html("<a href=\"x?v=__MICHI_ASSET_HASH__\">__MICHI_ASSET_HASH__", "V"), "<a href=\"x?v=V\">V");
    assert_eq!(build_commit(Some("  "), Some(" abc ")), Some("abc".to_string()));
    assert_eq!(build_commit(Some("r"), Some("c")), Some("r".to_string()));
    assert_eq!(build_commit(None, None), None);
}

#[test]
fn watchdog() {
    assert_eq!(HEARTBEAT_TIMEOUT_MS, 15_000);
    assert!(may_be_hung(WorkerState::Running, 0, 15_001));
    assert!(!may_be_hung(WorkerState::Running, 0, 15_000));
    assert!(!may_be_hung(WorkerState::Idle, 0, 99_999));
    assert!(!may_be_hung(WorkerState::Running, 10, 5));
}
