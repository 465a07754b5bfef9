use michi_api::backup::{
    all_mounts_online, availability, bundle_checksums, check_restore, check_webhook_configured,
    history_entry, integrity_ok, restore_summary, webhook_test_outcome, webhook_url, RestoreError,
    SetWebhookBody, TrackFile, WebhookError,
};
use michi_api::pairing::{
    check_pairing_attempt, check_qr_usable, check_refresh, device_online, pairing_error,
    qr_claimed_device, qr_server_url, qr_state, qr_svg_url, LinkErrorCode, PairingFailure,
    QrClaimBody, QrExpiryUnreadable, QrState, QrUseError, RefreshError,
    PAIR_CONFIRM_ATTEMPTS_PER_MINUTE,
};
use michi_api::auth::AttemptWindow;

#[test]
fn restores() {
    assert_eq!(check_restore(5, false, 3, 0), Err(RestoreError::RequiresForce));
    assert_eq!(check_restore(5, true, 0, 0), Err(RestoreError::EmptyRestore));
    assert_eq!(check_restore(5, true, 0, 1), Ok(true));
    assert_eq!(check_restore(0, false, 0, 0), Ok(false));
    assert_eq!(RestoreError::RequiresForce.code(), "RESTORE_REQUIRES_FORCE");
    assert_eq!(
        RestoreError::EmptyRestore.message(),
        "force=true but no tracks or starred_tracks provided to restore"
    );
    assert_eq!(restore_summary(3, 2, 1, &vec![true, false, true]), (3, 2, 1, 2));
    let h = history_entry("t".into(), "2024-01-01T00:00:00Z".into());
    assert_eq!(h.timestamp, "2024-01-01T00:00:00Z");
}

#[test]
fn webhooks() {
    assert_eq!(webhook_url(&SetWebhookBody { url: " https://hook ".into() }).unwrap(), "https://hook");
    let e = webhook_url(&SetWebhookBody { url: " ".into() }).unwrap_err();
    assert_eq!((e.code(), e.message()), ("VALIDATION_ERROR", "webhook URL is required".to_string()));
    let e = check_webhook_configured("").unwrap_err();
    assert_eq!((e.code(), e.message()), ("NO_WEBHOOK_CONFIGURED", "set a webhook URL first".to_string()));
    assert_eq!(webhook_test_outcome(Ok(204), 12).unwrap(), (204, 12));
    let e = webhook_test_outcome(Ok(500), 12).unwrap_err();
    assert!(matches!(e, WebhookError::RemoteError { status: 500, elapsed_ms: 12 }));
    assert_eq!(e.message(), "Webhook target responded with HTTP 500");
    let e = webhook_test_outcome(Err("refused".into()), 3).unwrap_err();
    assert_eq!((e.code(), e.message()), ("WEBHOOK_FAILED", "Webhook connection failed: refused".to_string()));
}

#[test]
fn library_checks() {
    let files = vec![
        TrackFile { title: Some("A".into()), file_path: "/m/a.flac".into(), exists: true },
        TrackFile { title: None, file_path: "/m/b.flac".into(), exists: false },
    ];
    let (ok, missing) = availability(&files);
    assert_eq!(ok, 1);
    assert_eq!(missing, vec!["missing: ? (/m/b.flac)".to_string()]);
    assert!(integrity_ok("ok", 0));
    assert!(!integrity_ok("ok", 1));
    assert!(!integrity_ok("corrupt", 0));
    assert!(all_mounts_online(&vec!["online".into(), "online".into()]));
    assert!(!all_mounts_online(&vec!["online".into(), "unavailable".into()]));
    let sums = bundle_checksums(&vec![("db.sqlite".to_string(), b"abc".to_vec())]);
    assert_eq!(sums[0].0, "db.sqlite");
    assert_eq!(sums[0].1, "6437b3ac38465133ffb63b75273a8db548c558465d79db03fd359c6cd5bd9d85");
}

#[test]
fn pairing_errors() {
    let a = pairing_error(&PairingFailure::PairingExpired);
    assert_eq!((a.status, a.code, a.message.as_str()), (410, LinkErrorCode::PairingExpired, "pairing session expired"));
    assert_eq!(a.code.as_str(), "PAIRING_EXPIRED");
    let a = pairing_error(&PairingFailure::Other("bad pin format".into()));
    assert_eq!((a.status, a.code), (400, LinkErrorCode::InvalidRequest));
    assert_eq!(a.message, "bad pin format");
    let (r, w) = check_pairing_attempt(Some(AttemptWindow { count: 5, started_ms: 0 }), 1_000, PAIR_CONFIRM_ATTEMPTS_PER_MINUTE);
    let a = r.unwrap_err();
    assert_eq!((a.status, a.message.as_str()), (429, "Too many pairing attempts. Please wait 60 seconds."));
    assert_eq!(w.count, 5);
    let (r, _) = check_pairing_attempt(None, 1_000, 5);
    assert!(r.is_ok());
}

#[test]
fn token_refresh() {
    assert_eq!(check_refresh(None, None, None), Err(RefreshError::InvalidToken));
    assert_eq!(check_refresh(Some(4), None, None), Ok(4));
    assert_eq!(check_refresh(Some(4), Some(5), None), Err(RefreshError::DeviceMismatch));
    let four = uuid::Uuid::from_u128(4).to_string();
    assert_eq!(check_refresh(Some(4), None, Some(&four)), Ok(4));
    assert_eq!(check_refresh(Some(4), None, Some("junk")), Ok(4));
    assert_eq!(RefreshError::DeviceMismatch.text(), ("DEVICE_MISMATCH", "device id does not match token"));
}

#[test]
fn devices_and_qr_codes() {
    let now: i128 = 1_700_000_000 * 1_000_000_000;
    assert!(device_online(Some("2023-11-14T22:12:00Z"), now));
    assert!(!device_online(Some("2023-11-14T22:10:00Z"), now));
    assert!(!device_online(None, now));
    assert_eq!(qr_server_url(Some(" https://michi.local/// "), None, None, None, 8080), "https://michi.local");
    assert_eq!(qr_server_url(None, Some(Some("proxy.example")), Some(Some("h")), Some(Some("https")), 1), "https://proxy.example");
    assert_eq!(qr_server_url(Some(""), None, Some(Some("h:9")), None, 1), "http://h:9");
    assert_eq!(qr_server_url(None, None, None, None, 8080), "http://localhost:8080");
    assert_eq!(qr_svg_url(1), "/api/v1/pair/qr/00000000-0000-0000-0000-000000000001/svg");
    assert_eq!(qr_state(true, "x", now), Ok(QrState::Claimed));
    assert_eq!(qr_state(false, "2000-01-01T00:00:00Z", now), Ok(QrState::Expired));
    assert_eq!(qr_state(false, "2099-01-01T00:00:00Z", now), Ok(QrState::Waiting));
    assert_eq!(qr_state(false, "soon", now), Err(QrExpiryUnreadable));
    assert_eq!(check_qr_usable(Ok(QrState::Waiting)), Ok(()));
    assert_eq!(check_qr_usable(Ok(QrState::Claimed)), Err(QrUseError::AlreadyUsed));
    assert_eq!(check_qr_usable(Err(QrExpiryUnreadable)), Err(QrUseError::InvalidExpiry));
    let (name, kind, perms) = qr_claimed_device(&QrClaimBody { device_name: None, device_type: Some("tablet".into()) });
    assert_eq!((name.as_str(), kind.as_str()), ("QR-Paired Device", "tablet"));
    assert_eq!(perms, "{\"playback\":true,\"queue\":true,\"library_read\":true,\"settings\":false}");
}
