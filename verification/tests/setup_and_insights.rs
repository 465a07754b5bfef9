use michi_api::events::{
    auth_required_message, first_message_step, sync_peer_url, token_decision, FirstMessage,
    SubscribeStep,
};
use michi_api::insights::{active_years, album_issues, album_key, artist_name};
use michi_api::setup::{check_fix_perms, components, is_within, FixPermsBody};
use michi_api::shares::{create_share, share_grant, share_password_hash, CreateShareBody};
use michi_api::auth::{hash_token, verify_password};

#[test]
fn fix_perms_needs_a_path() {
    let e = FixPermsBody { path: None }.target().unwrap_err();
    assert_eq!((e.status, e.code.as_str(), e.message.as_str()), (400, "VALIDATION_ERROR", "path parameter is required"));
    assert!(FixPermsBody { path: Some("  ".into()) }.target().is_err());
    assert_eq!(FixPermsBody { path: Some(" /data/config ".into()) }.target().unwrap(), "/data/config");
}

#[test]
fn path_components_follow_std() {
    let c: Vec<String> = components("/a//b/./c/").into_iter().map(|v| v.into_iter().collect()).collect();
    assert_eq!(c, vec!["/", "a", "b", "c"]);
    let c: Vec<String> = components("./a/./b").into_iter().map(|v| v.into_iter().collect()).collect();
    assert_eq!(c, vec![".", "a", "b"]);
    for (p, base) in [("/a/b/c", "/a/b"), ("/a/b", "/a/b/"), ("/a/b", "/a/b"), ("/a/b", "/"), ("a/b", "a")] {
        assert_eq!(is_within(p, base), std::path::Path::new(p).starts_with(base), "{p} within {base}");
        assert!(is_within(p, base));
    }
    for (p, base) in [("/a/bc", "/a/b"), ("/a", "/a/b"), ("a/b", "/a"), ("/a/b", "a")] {
        assert_eq!(is_within(p, base), std::path::Path::new(p).starts_with(base), "{p} within {base}");
        assert!(!is_within(p, base));
    }
}

#[test]
fn fix_perms_only_in_own_directories() {
    let music = vec!["/srv/music".to_string()];
    let config = Some("/data/config".to_string());
    let cache = Some("/data/cache".to_string());
    assert!(check_fix_perms("/data/config/db", "/data/config/db", &music, &config, &cache).is_ok());
    assert!(check_fix_perms("/data/cache", "/data/cache", &music, &config, &cache).is_ok());
    let e = check_fix_perms("/music", "/music", &music, &config, &cache).unwrap_err();
    assert_eq!((e.status, e.code.as_str()), (403, "UNSAFE_TARGET"));
    assert_eq!(e.message, "permission fix is strictly forbidden on music library paths");
    let e = check_fix_perms("/music/x", "/data/config/x", &music, &config, &cache).unwrap_err();
    assert_eq!(e.message, "permission fix is strictly forbidden on music library paths");
    let e = check_fix_perms("/link", "/srv/music/a", &music, &config, &cache).unwrap_err();
    assert_eq!(e.message, "permission fix is strictly forbidden on music library paths");
    let e = check_fix_perms("/etc", "/etc", &music, &config, &cache).unwrap_err();
    assert_eq!(e.message, "permission fix is only allowed on application config and cache directories");
    let e = check_fix_perms("/data/configs", "/data/configs", &music, &config, &None).unwrap_err();
    assert_eq!(e.status, 403);
    assert!(check_fix_perms("/data/config", "/data/config", &music, &None, &None).is_err());
}

#[test]
fn insight_paths() {
    assert_eq!(artist_name("Miles%20Davis").unwrap(), "Miles Davis");
    assert_eq!(artist_name("AC+DC").unwrap(), "AC+DC");
    let e = artist_name("%FF").unwrap_err();
    assert_eq!((e.status, e.code.as_str(), e.message.as_str()), (400, "INVALID_ARTIST_NAME", "url decode failed"));
    assert_eq!(
        album_key("Miles%20Davis|||Kind%20of%20Blue").unwrap(),
        ("Miles Davis".to_string(), "Kind of Blue".to_string())
    );
    assert_eq!(album_key("a||||b").unwrap(), ("a".to_string(), "|b".to_string()));
    assert_eq!(album_key("a|||b|||c").unwrap(), ("a".to_string(), "b|||c".to_string()));
    let e = album_key("no separator").unwrap_err();
    assert_eq!((e.code.as_str(), e.message.as_str()), ("INVALID_FORMAT", "use artist|||album format"));
    assert_eq!(album_key("%FF").unwrap_err().code, "INVALID_ALBUM_KEY");
}

#[test]
fn active_years_and_album_health() {
    assert_eq!(active_years(Some(1959), Some(1991)), "1959–1991");
    assert_eq!(active_years(Some(1959), Some(1959)), "1959");
    assert_eq!(active_years(Some(1959), None), "1959");
    assert_eq!(active_years(None, Some(1991)), "Unknown");
    assert_eq!(active_years(Some(-5), Some(3)), "-5–3");
    let a = album_issues(0, 0);
    assert!(a.issues.is_empty());
    assert_eq!(a.health_score, 100);
    let a = album_issues(3, 0);
    assert_eq!(a.issues, vec!["3 tracks missing cover art".to_string()]);
    assert_eq!(a.health_score, (100.0f64 - (1.0 / 3.0 * 100.0)).round() as i64);
    let a = album_issues(2, 11);
    assert_eq!(a.issues, vec!["2 tracks missing cover art".to_string(), "11 tracks missing year".to_string()]);
    assert_eq!(a.health_score, (100.0f64 - (2.0 / 3.0 * 100.0)).round() as i64);
}

fn share_body(password: Option<&str>) -> CreateShareBody {
    CreateShareBody {
        track_id: 77,
        password: password.map(|p| p.to_string()),
        expires_in_hours: Some(24),
        max_plays: Some(3),
        allow_stream: None,
        allow_download: None,
    }
}

#[test]
fn share_grants_store_only_digests() {
    let g = share_grant(&share_body(None), 1);
    assert_eq!(g.token, "00000000-0000-0000-0000-000000000001");
    assert_eq!(g.token_hash, hash_token("00000000-0000-0000-0000-000000000001"));
    assert!(g.password_hash.is_none());
    assert!(g.allow_stream && !g.allow_download);
    assert_eq!((g.track_id, g.max_plays), (77, Some(3)));
    let g = create_share(&share_body(Some("pw")));
    assert_eq!(g.token_hash, hash_token(&g.token));
    let h = g.password_hash.unwrap();
    assert!(verify_password("pw", &h).unwrap());
    let h = share_password_hash("hunter2");
    assert!(verify_password("hunter2", &h).unwrap());
    let mut b = share_body(None);
    b.allow_stream = Some(false);
    b.allow_download = Some(true);
    let g = share_grant(&b, 2);
    assert!(!g.allow_stream && g.allow_download);
}

#[test]
fn event_subscribers() {
    match first_message_step(FirstMessage::Text("{\"token\":\"abc\"}".into()), true) {
        SubscribeStep::CheckToken(t) => assert_eq!(t, "abc"),
        other => panic!("unexpected {:?}", other),
    }
    assert!(matches!(first_message_step(FirstMessage::Text("{\"token\":5}".into()), true), SubscribeStep::Decided(false)));
    assert!(matches!(first_message_step(FirstMessage::Text("not json".into()), false), SubscribeStep::Decided(true)));
    assert!(matches!(first_message_step(FirstMessage::NotText, true), SubscribeStep::Decided(false)));
    assert!(matches!(first_message_step(FirstMessage::Nothing, false), SubscribeStep::Decided(true)));
    assert!(token_decision(true, true, false));
    assert!(token_decision(true, false, true));
    assert!(!token_decision(true, false, false));
    assert!(token_decision(false, false, true));
    let v: serde_json::Value = serde_json::from_str(auth_required_message()).unwrap();
    assert_eq!(v["type"], "error");
    assert_eq!(v["code"], "AUTH_REQUIRED");
    assert_eq!(v["message"], "send {\"token\":\"...\"} as first message");
    assert_eq!(v.to_string(), auth_required_message());
    assert_eq!(sync_peer_url("10.0.0.5:8080"), "ws://10.0.0.5:8080/api/sync");
}

#[test]
fn token_field_decides_the_step() {
    match michi_api::events::token_field_step(Some(Some("t0k".into())), true) {
        SubscribeStep::CheckToken(t) => assert_eq!(t, "t0k"),
        other => panic!("unexpected {:?}", other),
    }
    assert!(matches!(michi_api::events::token_field_step(Some(None), true), SubscribeStep::Decided(false)));
    assert!(matches!(michi_api::events::token_field_step(None, false), SubscribeStep::Decided(true)));
}
