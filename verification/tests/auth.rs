use base64::Engine;
use michi_api::auth::{
    admin_credentials, admin_gate, admin_setup, check_attempt, extract_token, hash_password,
    hash_token, is_admin_route, session_gate, login_attempt_limit, make_session_cookie,
    password_long_enough, stored_session_live, token_gate, v1_gate, verify_password, AdminSetup,
    AttemptWindow, SessionGate, SessionCache, SessionData, V1Gate, REGISTER_ATTEMPTS_PER_MINUTE,
};
use michi_api::client_ip::{IpValue, ProxyPolicy};
use michi_api::auth::is_secure_request;

#[test]
fn session_cookie_text() {
    assert_eq!(
        make_session_cookie("abc", 3600, true),
        "michi_web_session=abc; HttpOnly; SameSite=Strict; Path=/; Max-Age=3600; Secure"
    );
    assert_eq!(
        make_session_cookie("abc", 0, false),
        "michi_web_session=; HttpOnly; SameSite=Strict; Path=/; Max-Age=0; Expires=Thu, 01 Jan 1970 00:00:00 GMT"
    );
}

#[test]
fn token_from_bearer_then_cookie() {
    assert_eq!(extract_token(Some("Bearer  tok1 "), None), Some("tok1".to_string()));
    assert_eq!(
        extract_token(Some("Basic xyz"), Some("a=1; michi_web_session=tok2; b=2")),
        Some("tok2".to_string())
    );
    assert_eq!(extract_token(Some("Bearer   "), Some("michi_web_session=")), None);
    assert_eq!(extract_token(None, None), None);
}

#[test]
fn secure_only_through_trusted_proxy() {
    let p = ProxyPolicy { trust_proxy: true, trusted_proxies: vec![IpValue::V4(10, 0, 0, 1)] };
    assert!(is_secure_request(Some(IpValue::V4(10, 0, 0, 1)), Some("HTTPS"), &p));
    assert!(!is_secure_request(Some(IpValue::V4(10, 0, 0, 2)), Some("https"), &p));
    assert!(!is_secure_request(Some(IpValue::V4(10, 0, 0, 1)), Some("http"), &p));
    assert!(!is_secure_request(Some(IpValue::V4(10, 0, 0, 1)), None, &p));
}

#[test]
fn admin_routes() {
    assert!(is_admin_route("/api/v1/settings"));
    assert!(is_admin_route("/api/v1/backup/restore"));
    assert!(is_admin_route("/api/v1/pair/qr/generate"));
    assert!(!is_admin_route("/api/v1/pair/qr/abc/claim"));
    assert!(!is_admin_route("/api/v1/pair/qr/abc/svg"));
    assert!(!is_admin_route("/api/v1/library/tracks"));
}

#[test]
fn rate_limit_window() {
    let limit = 2;
    let (ok, w) = check_attempt(None, 1_000, limit);
    assert!(ok);
    assert_eq!(w, AttemptWindow { count: 1, started_ms: 1_000 });
    let (ok, w) = check_attempt(Some(w), 2_000, limit);
    assert!(ok);
    assert_eq!(w.count, 2);
    let (ok, w2) = check_attempt(Some(w), 3_000, limit);
    assert!(!ok);
    assert_eq!(w2, w);
    let (ok, w3) = check_attempt(Some(w), 61_999, limit);
    assert!(!ok, "60 whole seconds are still the same window");
    assert_eq!(w3, w);
    let (ok, w4) = check_attempt(Some(w), 62_000, limit);
    assert!(ok);
    assert_eq!(w4, AttemptWindow { count: 1, started_ms: 62_000 });
    assert_eq!(login_attempt_limit(0), 1);
    assert_eq!(login_attempt_limit(7), 7);
    assert_eq!(REGISTER_ATTEMPTS_PER_MINUTE, 5);
}

#[test]
fn session_cache_lookup_after_insert_and_invalidate() {
    let mut c = SessionCache::new();
    c.insert("t1", SessionData { expiry_ms: 100, user_id: 7 });
    c.insert("t2", SessionData { expiry_ms: 50, user_id: 8 });
    assert_eq!(c.lookup("t1", 99), Some(7));
    assert_eq!(c.lookup("t1", 100), None);
    c.insert("t1", SessionData { expiry_ms: 500, user_id: 9 });
    assert_eq!(c.lookup("t1", 200), Some(9));
    c.invalidate("t1");
    assert_eq!(c.lookup("t1", 0), None);
    assert_eq!(c.lookup("t2", 0), Some(8));
    c.cleanup(60);
    assert_eq!(c.lookup("t2", 0), None);
    c.insert("t3", SessionData { expiry_ms: 500, user_id: 8 });
    c.insert("t4", SessionData { expiry_ms: 500, user_id: 4 });
    c.invalidate_user(8);
    assert_eq!(c.lookup("t3", 0), None);
    assert_eq!(c.lookup("t4", 0), Some(4));
}

#[test]
fn token_hash_is_sha256_hex() {
    assert_eq!(
        hash_token("abc"),
        "ba7816bf8f01cfea414140de5dae2223b00361a396177a9cb410ff61f20015ad"
    );
}

#[test]
fn passwords() {
    assert!(password_long_enough("  12345678  "));
    assert!(!password_long_enough(" 1234567 "));
    assert!(password_long_enough("ääää"));
    let h = hash_password("correct horse").unwrap();
    assert!(h.starts_with("$argon2"));
    assert_eq!(verify_password("correct horse", &h).unwrap(), true);
    assert_eq!(verify_password("wrong horse", &h).unwrap(), false);
    assert!(verify_password("x", "not a hash").is_err());
}

#[test]
fn v1_gate_steps() {
    match v1_gate(None, "/api/v1/library") {
        V1Gate::Refuse(r) => {
            assert_eq!(r.status, 401);
            assert_eq!(r.message, "missing authorization header");
        }
        _ => panic!("request without token let on"),
    }
    assert!(matches!(v1_gate(Some("t".into()), "/api/v1/settings"), V1Gate::CheckAdmin(t) if t == "t"));
    assert!(matches!(v1_gate(Some("t".into()), "/api/v1/library"), V1Gate::CheckToken(t) if t == "t"));
    let r = admin_gate(None, None).unwrap();
    assert_eq!((r.status, r.message.as_str()), (401, "administrator session required"));
    let r = admin_gate(Some(1), Some(false)).unwrap();
    assert_eq!((r.status, r.message.as_str()), (403, "administrator privileges required"));
    let r = admin_gate(Some(1), None).unwrap();
    assert_eq!(r.status, 403);
    assert!(admin_gate(Some(1), Some(true)).is_none());
    assert!(token_gate(false, true).is_none());
    assert!(token_gate(true, false).is_none());
    let r = token_gate(false, false).unwrap();
    assert_eq!((r.status, r.message.as_str()), (401, "invalid or expired token"));
}

#[test]
fn session_gate_steps() {
    assert!(matches!(session_gate(false, None), SessionGate::Pass));
    assert!(matches!(session_gate(true, None), SessionGate::Refuse(r) if r.status == 401));
    assert!(matches!(session_gate(true, Some("x".into())), SessionGate::CheckSession(t) if t == "x"));
}

#[test]
fn stored_sessions_expire() {
    let now = (1_700_000_000i64, 0u32);
    assert!(stored_session_live("2099-01-01T00:00:00Z", now));
    assert!(!stored_session_live("2001-01-01T00:00:00+02:00", now));
    assert!(!stored_session_live("not a date", now));
    assert!(!stored_session_live("2023-11-14T22:13:20Z", now));
    assert!(stored_session_live("2023-11-14T22:13:20.5Z", now));
}

#[test]
fn configured_admin() {
    let u = Some("  admin ".to_string());
    let p = Some(" secret123 ".to_string());
    assert_eq!(admin_credentials(true, &u, &p), Some(("admin".to_string(), "secret123".to_string())));
    assert_eq!(admin_credentials(false, &u, &p), None);
    assert_eq!(admin_credentials(true, &Some("   ".into()), &p), None);
    assert_eq!(admin_credentials(true, &u, &Some("short".into())), None);
    assert_eq!(admin_credentials(true, &u, &None), None);
    assert_eq!(admin_setup(Some(true)), AdminSetup::Keep);
    assert_eq!(admin_setup(Some(false)), AdminSetup::Promote);
    assert_eq!(admin_setup(None), AdminSetup::Create);
}

#[test]
fn created_sessions_have_fresh_tokens() {
    let mut c = SessionCache::new();
    let t1 = c.create_session(7, 1_000);
    let t2 = c.create_session(8, 1_000);
    assert_ne!(t1, t2);
    assert_eq!(t1.len(), 43);
    let raw = base64::engine::general_purpose::URL_SAFE_NO_PAD.decode(&t1).expect("url-safe base64");
    assert_eq!(raw.len(), 32);
    assert_eq!(c.lookup(&t1, 1_000), Some(7));
    assert_eq!(c.lookup(&t2, 86_400_999), Some(8));
    assert_eq!(c.lookup(&t2, 86_401_000), None);
}

#[test]
fn unversioned_routes_pass_only_live_sessions() {
    assert!(michi_api::auth::session_outcome(true).is_none());
    let r = michi_api::auth::session_outcome(false).unwrap();
    assert_eq!((r.status, r.message.as_str()), (401, "invalid or expired token"));
    assert!(michi_api::auth::session_access(false, None, false).is_none());
    let r = michi_api::auth::session_access(true, None, true).unwrap();
    assert_eq!((r.status, r.message.as_str()), (401, "missing authorization header"));
    let r = michi_api::auth::session_access(true, Some("t".into()), false).unwrap();
    assert_eq!(r.message, "invalid or expired token");
    assert!(michi_api::auth::session_access(true, Some("t".into()), true).is_none());
}
