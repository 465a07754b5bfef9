use michi_api::sources::{HopCheck, HopFetch, ProxyLoop};
use michi_api::sources::{
    blocked_hop, feed_status, next_proxy_action, redirect_step, tally_episodes, AddSourceBody, FeedRead, HopResponse,
    ProxyAction, UpdateEpisodeBody, MAX_PROXY_HOPS,
};
use michi_api::streaming::{
    check_announcement, content_disposition, has_name, stream_error_code, stream_filename,
    streaming_disabled, StreamErrorCode, V1AuthInfo, V1Features,
};

#[test]
fn new_sources_need_a_url() {
    let e = AddSourceBody { url: "  ".into() }.check().unwrap_err();
    assert_eq!((e.status, e.code.as_str(), e.message.as_str()), (400, "VALIDATION", "url is required"));
    assert!(AddSourceBody { url: "http://feed".into() }.check().is_ok());
}

#[test]
fn feed_statuses() {
    assert_eq!(feed_status(FeedRead::NotPodcast), "not_applicable");
    assert_eq!(feed_status(FeedRead::FetchFailed), "fetch_failed");
    assert_eq!(feed_status(FeedRead::ReadFailed), "read_failed");
    assert_eq!(feed_status(FeedRead::Parsed(0)), "empty_feed");
    assert_eq!(feed_status(FeedRead::Parsed(3)), "success");
}

#[test]
fn episode_tally_counts_each_write_once() {
    assert_eq!(tally_episodes(&vec![true, false, true, true]), (3, 1));
    assert_eq!(tally_episodes(&vec![]), (0, 0));
    let b = UpdateEpisodeBody { position_ms: None, played: Some(true) };
    assert_eq!(b.progress(), (0, true));
    let b = UpdateEpisodeBody { position_ms: Some(42), played: None };
    assert_eq!(b.progress(), (42, false));
}

#[test]
fn proxy_follows_redirects_up_to_the_limit() {
    assert_eq!(MAX_PROXY_HOPS, 5);
    match next_proxy_action(0, HopResponse::Redirect { location: Some("/next".into()) }) {
        ProxyAction::Resolve { location } => assert_eq!(location, "/next"),
        other => panic!("unexpected {:?}", other),
    }
    match next_proxy_action(4, HopResponse::Redirect { location: Some("/next".into()) }) {
        ProxyAction::Resolve { location } => assert_eq!(location, "/next"),
        other => panic!("unexpected {:?}", other),
    }
    match redirect_step(0, Ok("http://a.example/next".into())) {
        ProxyAction::Follow { url } => assert_eq!(url, "http://a.example/next"),
        other => panic!("unexpected {:?}", other),
    }
    match redirect_step(4, Ok("http://a.example/next".into())) {
        ProxyAction::Fail(e) => {
            assert_eq!((e.status, e.code.as_str()), (502, "TOO_MANY_REDIRECTS"));
            assert_eq!(e.message, "exceeded 5 redirect hops");
        }
        other => panic!("unexpected {:?}", other),
    }
    for hop in [0, 4] {
        match redirect_step(hop, Err("relative URL without a base".into())) {
            ProxyAction::Fail(e) => {
                assert_eq!((e.status, e.code.as_str()), (502, "REDIRECT_ERROR"));
                assert_eq!(e.message, "invalid Location: relative URL without a base");
            }
            other => panic!("unexpected {:?}", other),
        }
    }
    match next_proxy_action(1, HopResponse::Redirect { location: None }) {
        ProxyAction::Fail(e) => assert_eq!(e.code, "REDIRECT_ERROR"),
        other => panic!("unexpected {:?}", other),
    }
}

#[test]
fn proxy_streams_audio_but_never_pages() {
    match next_proxy_action(0, HopResponse::Success { content_type: "audio/mpeg".into() }) {
        ProxyAction::Stream { content_type } => assert_eq!(content_type, Some("audio/mpeg".to_string())),
        other => panic!("unexpected {:?}", other),
    }
    match next_proxy_action(0, HopResponse::Success { content_type: String::new() }) {
        ProxyAction::Stream { content_type } => assert_eq!(content_type, None),
        other => panic!("unexpected {:?}", other),
    }
    for ct in ["text/html; charset=utf-8", "application/xhtml+xml"] {
        match next_proxy_action(2, HopResponse::Success { content_type: ct.into() }) {
            ProxyAction::Fail(e) => {
                assert_eq!((e.status, e.code.as_str()), (502, "PROXY_BLOCKED"));
                assert_eq!(e.message, "stream returned HTML, possible SSRF redirect");
            }
            other => panic!("unexpected {:?}", other),
        }
    }
    match next_proxy_action(3, HopResponse::Other { status: 404, reason: Some("Not Found".into()) }) {
        ProxyAction::Fail(e) => {
            assert_eq!((e.status, e.code.as_str()), (502, "PROXY_ERROR"));
            assert_eq!(e.message, "upstream returned status 404 Not Found at hop 3");
        }
        other => panic!("unexpected {:?}", other),
    }
    match next_proxy_action(1, HopResponse::Other { status: 599, reason: None }) {
        ProxyAction::Fail(e) => {
            assert_eq!(e.message, "upstream returned status 599 <unknown status code> at hop 1");
        }
        other => panic!("unexpected {:?}", other),
    }
    let e = blocked_hop(2, "private address");
    assert_eq!((e.status, e.code.as_str(), e.message.as_str()), (400, "SSRF_BLOCKED", "hop 2: private address"));
}

#[test]
fn stream_errors_are_classified_by_prefix() {
    assert_eq!(stream_error_code("TRANSCODING_DISABLED: off"), StreamErrorCode::TranscodingDisabled);
    assert_eq!(
        stream_error_code("TRANSCODING_FORBIDDEN_BY_POLICY x"),
        StreamErrorCode::TranscodingForbiddenByPolicy
    );
    assert_eq!(stream_error_code("INVALID_STREAM_PROFILE"), StreamErrorCode::InvalidStreamProfile);
    assert_eq!(stream_error_code("UNSUPPORTED_TRANSCODE_PLAN"), StreamErrorCode::UnsupportedTranscodePlan);
    assert_eq!(stream_error_code("something else"), StreamErrorCode::StreamResolutionError);
    assert_eq!(StreamErrorCode::StreamResolutionError.as_str(), "STREAM_RESOLUTION_ERROR");
}

#[test]
fn download_headers() {
    let name = stream_filename(1, "flac");
    assert_eq!(name, "00000000-0000-0000-0000-000000000001.flac");
    assert_eq!(
        content_disposition("attachment", &name),
        "attachment; filename=\"00000000-0000-0000-0000-000000000001.flac\""
    );
}

#[test]
fn disabled_streaming_and_features() {
    let names = vec!["stream".to_string(), "sync".to_string(), "library".to_string()];
    assert!(streaming_disabled(&names));
    assert!(!streaming_disabled(&vec!["streams".to_string()]));
    assert!(has_name(&names, "sync"));
    let f = V1Features::from_enabled(&names);
    assert!(f.streaming && f.sync_manifest && f.library);
    assert!(!f.search && !f.download && !f.token_refresh);
    let a = V1AuthInfo::server_code();
    assert!(a.required && a.token_refresh);
    assert_eq!(a.strategy, "SERVER_CODE");
}

#[test]
fn announcements() {
    let a = check_announcement("https://tts.example/a.mp3", None).unwrap();
    assert_eq!(a.mode, "pause");
    assert!(a.pause);
    let a = check_announcement("http://x", Some("duck".into())).unwrap();
    assert_eq!(a.mode, "duck");
    assert!(!a.pause);
    let e = check_announcement("  ", None).unwrap_err();
    assert_eq!(e.message, "url is required");
    let e = check_announcement("file:///etc/passwd", None).unwrap_err();
    assert_eq!((e.status, e.code.as_str(), e.message.as_str()), (400, "VALIDATION", "url must be http/https"));
}

#[test]
fn proxy_loop_checks_each_hop_and_stops_after_five() {
    let (mut p, a) = ProxyLoop::start("http://a.example/s".into());
    assert!(matches!(a, ProxyAction::Check { ref url } if url == "http://a.example/s"));
    match p.checked(HopCheck::Refused("private address".into())) {
        ProxyAction::Fail(e) => assert_eq!((e.status, e.message.as_str()), (400, "hop 0: private address")),
        other => panic!("unexpected {:?}", other),
    }
    match p.checked(HopCheck::NoHost) {
        ProxyAction::Fail(e) => assert_eq!(e.message, "URL has no host"),
        other => panic!("unexpected {:?}", other),
    }
    assert!(matches!(p.checked(HopCheck::Ready), ProxyAction::Fetch { .. }));
    match p.fetched(HopFetch::SendError("timeout".into())) {
        ProxyAction::Fail(e) => assert_eq!((e.status, e.code.as_str(), e.message.as_str()), (502, "PROXY_ERROR", "hop 0: timeout")),
        other => panic!("unexpected {:?}", other),
    }
    for hop in 1..5 {
        match p.fetched(HopFetch::Answered(HopResponse::Redirect { location: Some("/n".into()) })) {
            ProxyAction::Resolve { location } => assert_eq!(location, "/n"),
            other => panic!("unexpected {:?}", other),
        }
        match p.resolved(Ok(format!("http://a.example/{hop}"))) {
            ProxyAction::Check { url } => assert_eq!(url, format!("http://a.example/{hop}")),
            other => panic!("unexpected {:?}", other),
        }
        assert_eq!(p.hop, hop);
    }
    match p.resolved(Ok("http://a.example/6".into())) {
        ProxyAction::Fail(e) => assert_eq!(e.code, "TOO_MANY_REDIRECTS"),
        other => panic!("unexpected {:?}", other),
    }
    assert_eq!(p.hop, 4);
}
