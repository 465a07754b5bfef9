use michi_api::playback::{
    parse_command, playback_control, playback_control_with_offset, ControlContext, ControlError,
    ControlReply, EngineCommand, PlaybackCommand, PlaybackControlBody, PlaybackControlValue,
    PlaybackRepeatMode, PlayerState,
};
use michi_api::playback::{
    handoff_origin, handoff_state, plan_playback_session, reported_playback,
    restore_session_state, EngineView, PlaybackSessionRequest,
};

fn id_text(id: u128) -> String {
    uuid::Uuid::from_u128(id).to_string()
}

fn body(command: &str) -> PlaybackControlBody {
    PlaybackControlBody {
        command: command.to_string(),
        track_id: None,
        position_ms: None,
        volume: None,
        value: None,
    }
}

fn state() -> PlayerState {
    PlayerState {
        track_id: Some(2),
        position_ms: 1000,
        playing: true,
        volume_percent: 50,
        shuffle: false,
        repeat: "off".to_string(),
        updated_at_ms: 0,
    }
}

fn ctx(queue: &[u128], engine_playing: bool) -> ControlContext {
    ControlContext {
        engine_track_id: Some(2),
        engine_playing,
        queue_track_ids: queue.iter().map(|&q| id_text(q)).collect(),
    }
}

#[test]
fn command_names_are_read() {
    assert_eq!(parse_command("play"), Some(PlaybackCommand::Play));
    assert_eq!(parse_command("set_volume"), Some(PlaybackCommand::SetVolume));
    assert_eq!(parse_command("repeat"), Some(PlaybackCommand::Repeat));
    assert_eq!(parse_command("Play"), None);
    assert_eq!(PlaybackRepeatMode::All.as_str(), "all");
}

#[test]
fn play_names_track_and_position() {
    let mut st = state();
    let mut b = body("play");
    b.track_id = Some(7);
    b.value = Some(PlaybackControlValue::Integer(12345));
    let r = playback_control(&b, &ctx(&[1, 2, 3], false), &mut st, 99).unwrap();
    assert_eq!(r.0, EngineCommand::Play { track_id: Some(7), position_ms: 12345 });
    assert_eq!(r.1, ControlReply::Playing { track_id: Some(7) });
    assert_eq!(st.track_id, Some(7));
    assert_eq!(st.position_ms, 12345);
    assert!(st.playing);
    assert_eq!(st.updated_at_ms, 99);
}

#[test]
fn play_without_track_uses_engine_track() {
    let mut st = state();
    st.track_id = None;
    let r = playback_control(&body("play"), &ctx(&[], false), &mut st, 5).unwrap();
    assert_eq!(r.0, EngineCommand::Play { track_id: Some(2), position_ms: 0 });
}

#[test]
fn pause_toggle_and_stop() {
    let mut st = state();
    let r = playback_control(&body("pause"), &ctx(&[], true), &mut st, 7).unwrap();
    assert_eq!(r, (EngineCommand::Pause, ControlReply::Paused));
    assert!(!st.playing);
    let r = playback_control(&body("toggle"), &ctx(&[], false), &mut st, 8).unwrap();
    assert_eq!(r, (EngineCommand::Resume, ControlReply::Accepted));
    assert!(st.playing);
    let r = playback_control(&body("toggle"), &ctx(&[], true), &mut st, 8).unwrap();
    assert_eq!(r, (EngineCommand::Pause, ControlReply::Accepted));
    let r = playback_control(&body("stop"), &ctx(&[], true), &mut st, 9).unwrap();
    assert_eq!(r, (EngineCommand::Stop, ControlReply::Stopped));
    assert_eq!(st.position_ms, 0);
    assert!(!st.playing);
}

#[test]
fn seek_prefers_position_field() {
    let mut st = state();
    let mut b = body("seek");
    b.position_ms = Some(500);
    b.value = Some(PlaybackControlValue::Integer(9));
    let r = playback_control(&b, &ctx(&[], true), &mut st, 1).unwrap();
    assert_eq!(r, (EngineCommand::Seek { position_ms: 500 }, ControlReply::Seeked { position_ms: 500 }));
    assert_eq!(st.position_ms, 500);
}

#[test]
fn next_moves_along_the_queue() {
    let mut st = state();
    let r = playback_control(&body("next"), &ctx(&[1, 2, 3], true), &mut st, 1).unwrap();
    assert_eq!(r, (EngineCommand::Next, ControlReply::Accepted));
    assert_eq!(st.track_id, Some(3));
    assert_eq!(st.position_ms, 0);
}

#[test]
fn next_at_the_end_stops_unless_repeating() {
    let mut st = state();
    st.track_id = Some(3);
    playback_control(&body("next"), &ctx(&[1, 2, 3], true), &mut st, 1).unwrap();
    assert!(!st.playing);
    assert_eq!(st.track_id, Some(3));

    let mut st = state();
    st.track_id = Some(3);
    st.repeat = "all".to_string();
    playback_control(&body("next"), &ctx(&[1, 2, 3], true), &mut st, 1).unwrap();
    assert_eq!(st.track_id, Some(1));
    assert!(st.playing);
}

#[test]
fn next_with_repeat_one_restarts() {
    let mut st = state();
    st.repeat = "one".to_string();
    playback_control(&body("next"), &ctx(&[1, 2, 3], true), &mut st, 1).unwrap();
    assert_eq!(st.track_id, Some(2));
    assert_eq!(st.position_ms, 0);
}

#[test]
fn next_in_shuffle_takes_the_given_step() {
    let mut st = state();
    st.shuffle = true;
    playback_control_with_offset(&body("next"), &ctx(&[1, 2, 3], true), &mut st, 1, 2).unwrap();
    assert_eq!(st.track_id, Some(1));
}

#[test]
fn next_on_empty_queue_clears_the_track() {
    let mut st = state();
    playback_control(&body("next"), &ctx(&[], true), &mut st, 1).unwrap();
    assert_eq!(st.track_id, None);
    assert!(!st.playing);
}

#[test]
fn previous_restarts_after_three_seconds() {
    let mut st = state();
    st.position_ms = 3001;
    playback_control(&body("previous"), &ctx(&[1, 2, 3], true), &mut st, 1).unwrap();
    assert_eq!(st.track_id, Some(2));
    assert_eq!(st.position_ms, 0);

    let mut st = state();
    st.position_ms = 3000;
    playback_control(&body("previous"), &ctx(&[1, 2, 3], true), &mut st, 1).unwrap();
    assert_eq!(st.track_id, Some(1));
}

#[test]
fn volume_commands() {
    let mut st = state();
    let mut b = body("set_volume");
    b.volume = Some(101);
    match playback_control(&b, &ctx(&[], true), &mut st, 1) {
        Err(e) => {
            assert!(matches!(e, ControlError::VolumeOutOfRange));
            assert_eq!(e.message(), "volume must be between 0 and 100");
        }
        Ok(_) => panic!("volume 101 accepted"),
    }
    assert_eq!(st.volume_percent, 50);
    b.volume = Some(100);
    let r = playback_control(&b, &ctx(&[], true), &mut st, 1).unwrap();
    assert_eq!(r.1, ControlReply::Volume { volume: 100 });
    let r = playback_control(&body("set_volume"), &ctx(&[], true), &mut st, 1).unwrap();
    assert_eq!(r.1, ControlReply::Volume { volume: 80 });
    let r = playback_control(&body("mute"), &ctx(&[], true), &mut st, 1).unwrap();
    assert_eq!(r.0, EngineCommand::SetVolume { volume: 0 });
    assert_eq!(st.volume_percent, 0);
    playback_control(&body("unmute"), &ctx(&[], true), &mut st, 1).unwrap();
    assert_eq!(st.volume_percent, 80);
}

#[test]
fn shuffle_and_repeat_values() {
    let mut st = state();
    let mut b = body("shuffle");
    b.value = Some(PlaybackControlValue::Boolean(false));
    let r = playback_control(&b, &ctx(&[], true), &mut st, 1).unwrap();
    assert_eq!(r.1, ControlReply::Shuffle { shuffle: false });
    let r = playback_control(&body("shuffle"), &ctx(&[], true), &mut st, 1).unwrap();
    assert_eq!(r.1, ControlReply::Shuffle { shuffle: true });
    assert!(st.shuffle);

    let mut b = body("repeat");
    b.value = Some(PlaybackControlValue::Repeat(PlaybackRepeatMode::All));
    let r = playback_control(&b, &ctx(&[], true), &mut st, 1).unwrap();
    assert_eq!(r.0, EngineCommand::SetRepeat { repeat: PlaybackRepeatMode::All });
    assert_eq!(st.repeat, "all");
    let r = playback_control(&body("repeat"), &ctx(&[], true), &mut st, 1).unwrap();
    assert_eq!(r.1, ControlReply::Repeat { repeat: PlaybackRepeatMode::Off });
    assert_eq!(st.repeat, "off");
}

#[test]
fn unknown_command_is_refused() {
    let mut st = state();
    match playback_control(&body("dance"), &ctx(&[], true), &mut st, 1) {
        Err(e) => assert_eq!(e.message(), "unknown playback command 'dance'"),
        Ok(_) => panic!("unknown command accepted"),
    }
    assert_eq!(st.volume_percent, 50);
}

fn engine(track: Option<u128>, playing: bool) -> EngineView {
    EngineView {
        track_id: track,
        position_ms: 4000,
        playing,
        volume: 55,
        shuffle: true,
        repeat: PlaybackRepeatMode::All,
    }
}

#[test]
fn reported_playback_follows_the_engine_track() {
    let mut st = state();
    st.track_id = Some(9);
    st.playing = true;
    let r = reported_playback(&engine(Some(3), false), &st);
    assert_eq!(r.track_id, Some(3));
    assert_eq!(r.position_ms, 4000);
    assert!(!r.playing);
    assert_eq!(r.state, "paused");
    assert_eq!(r.volume, 55);
    assert!(r.shuffle);
    assert_eq!(r.repeat, "all");
}

#[test]
fn reported_playback_falls_back_to_shared_state() {
    let mut st = state();
    st.track_id = Some(9);
    st.position_ms = 1234;
    st.playing = true;
    st.volume_percent = 30;
    st.repeat = "one".to_string();
    let r = reported_playback(&engine(None, false), &st);
    assert_eq!(r.track_id, Some(9));
    assert_eq!(r.position_ms, 1234);
    assert!(r.playing);
    assert_eq!(r.state, "playing");
    assert_eq!(r.volume, 30);
    assert_eq!(r.shuffle, st.shuffle);
    assert_eq!(r.repeat, "one");
}

fn session_request() -> PlaybackSessionRequest {
    PlaybackSessionRequest {
        queue: vec![21, 22],
        current_track_id: None,
        position_ms: 10,
        playing: false,
        source: None,
        resume_policy: None,
        device_id: None,
        repeat_mode: None,
        shuffle: None,
    }
}

#[test]
fn session_defaults_are_filled_in() {
    let p = plan_playback_session(session_request());
    assert_eq!(p.device_id, 0);
    assert_eq!(p.track_id, Some(21));
    assert_eq!(p.position_ms, 10);
    assert!(!p.playing);
    assert_eq!(p.repeat_mode, "off");
    assert!(!p.shuffle);
    assert_eq!(p.source, "player");
    assert_eq!(p.resume_policy, "manual");
    assert_eq!(p.lifecycle, "paused");
}

#[test]
fn session_request_values_are_kept() {
    let mut req = session_request();
    req.current_track_id = Some(7);
    req.playing = true;
    req.source = Some("car".to_string());
    req.resume_policy = Some("auto".to_string());
    req.device_id = Some(id_text(0xabc));
    req.repeat_mode = Some("all".to_string());
    req.shuffle = Some(true);
    let p = plan_playback_session(req);
    assert_eq!(p.device_id, 0xabc);
    assert_eq!(p.track_id, Some(7));
    assert_eq!(p.repeat_mode, "all");
    assert!(p.shuffle);
    assert_eq!(p.source, "car");
    assert_eq!(p.resume_policy, "auto");
    assert_eq!(p.lifecycle, "preparing");
}

#[test]
fn session_with_bad_device_and_empty_queue() {
    let mut req = session_request();
    req.queue = vec![];
    req.device_id = Some("not-a-uuid".to_string());
    let p = plan_playback_session(req);
    assert_eq!(p.device_id, 0);
    assert_eq!(p.track_id, None);
}

#[test]
fn handoff_installs_the_handed_track() {
    let st = handoff_state(5, 777, true, 80, 1000);
    assert_eq!(st.track_id, Some(5));
    assert_eq!(st.position_ms, 777);
    assert!(st.playing);
    assert_eq!(st.volume_percent, 80);
    assert!(!st.shuffle);
    assert_eq!(st.repeat, "off");
    assert_eq!(st.updated_at_ms, 1000);
    assert_eq!(handoff_origin(None), "unknown");
    assert_eq!(handoff_origin(Some("phone".to_string())), "phone");
}

#[test]
fn startup_restore_does_not_play() {
    let mut st = state();
    restore_session_state(&mut st, Some(4), 900, true, 60, false, 50);
    assert_eq!(st.track_id, Some(4));
    assert_eq!(st.position_ms, 900);
    assert!(!st.playing);
    assert_eq!(st.volume_percent, 60);
    assert_eq!(st.updated_at_ms, 50);
    let mut st2 = state();
    restore_session_state(&mut st2, Some(4), 900, true, 60, true, 50);
    assert!(st2.playing);
}
