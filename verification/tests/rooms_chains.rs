use michi_api::chains::{
    chain_link_step, chain_play_outcome, chain_step_error, chain_stop_outcome, chain_volume,
    chain_volume_status, link_volume_status, ChainLinkStep, ChainPlayError, LinkReceiver,
    LinkVolumeStatus,
};
use michi_api::rooms::{
    activation_outcome, activation_step, any_active, apply_room_group_update, check_create_room,
    check_create_room_group, deactivation_status, find_room, initiator, required_name, required_pin,
    reset_volumes, snapcast_status, uniform_volumes, ActivationStep, CreateGroupBody, CreateRoomBody,
    CreateRoomGroupBody, ReceiverInfo, RoomError, RoomMode, SnapcastFailure, SpeakerGroups,
    StoredRoomGroup, UpdateRoomGroupBody,
};

#[test]
fn room_modes() {
    assert_eq!(RoomMode::from_config_str("party"), RoomMode::Party);
    assert_eq!(RoomMode::from_config_str("relax"), RoomMode::Relax);
    assert_eq!(RoomMode::from_config_str("Party"), RoomMode::Custom);
    assert_eq!(RoomMode::Relax.default_volume(), 40);
    assert_eq!(RoomMode::Custom.default_volume(), 60);
    for m in [RoomMode::Party, RoomMode::Relax, RoomMode::Custom] {
        assert_eq!(RoomMode::from_config_str(m.as_str()), m);
    }
    assert_eq!(uniform_volumes(&vec!["a".into(), "b".into()], 7), vec![("a".to_string(), 7), ("b".to_string(), 7)]);
}

#[test]
fn creating_rooms() {
    let body = CreateRoomBody { name: " Den ".into(), receiver_ids: vec!["r1".into(), "r2".into(), "r3".into()] };
    let (name, vols) = check_create_room(&body, &vec![true, true, true]).unwrap();
    assert_eq!(name, "Den");
    assert!(vols.iter().all(|(_, v)| *v == 60));
    let e = check_create_room(&body, &vec![true, false, false]).unwrap_err();
    let (code, msg) = e.text();
    assert_eq!(code, "UNKNOWN_RECEIVERS");
    assert_eq!(msg, "receivers not found: [\"r2\", \"r3\"]");
    let e = check_create_room(&CreateRoomBody { name: "  ".into(), receiver_ids: vec![] }, &vec![]).unwrap_err();
    assert_eq!(e.text(), ("VALIDATION_ERROR", "name is required".to_string()));
    let (n, m, v) = check_create_room_group(&CreateRoomGroupBody { name: "G".into(), mode: None, receiver_ids: vec!["x".into()] }).unwrap();
    assert_eq!((n.as_str(), m, v[0].1), ("G", RoomMode::Party, 80));
    let (_, m, v) = check_create_room_group(&CreateRoomGroupBody { name: "G".into(), mode: Some("relax".into()), receiver_ids: vec!["x".into()] }).unwrap();
    assert_eq!((m, v[0].1), (RoomMode::Relax, 40));
    assert!(matches!(required_name("", "m"), Err(RoomError::Validation(x)) if x == "m"));
}

#[test]
fn updating_room_groups() {
    let mut g = StoredRoomGroup {
        name: "G".into(),
        mode: "party".into(),
        receiver_ids: vec!["a".into()],
        volumes: vec![("a".into(), 55)],
    };
    apply_room_group_update(&mut g, UpdateRoomGroupBody { name: Some("H".into()), mode: None, receiver_ids: None });
    assert_eq!((g.name.as_str(), g.volumes[0].1), ("H", 55));
    apply_room_group_update(&mut g, UpdateRoomGroupBody { name: None, mode: Some("relax".into()), receiver_ids: Some(vec!["b".into(), "c".into()]) });
    assert_eq!(g.mode, "relax");
    assert_eq!(g.receiver_ids, vec!["b".to_string(), "c".to_string()]);
    assert_eq!(g.volumes, vec![("b".to_string(), 40), ("c".to_string(), 40)]);
    let mut v = vec![("a".to_string(), 3u32), ("b".to_string(), 90)];
    reset_volumes(&mut v, RoomMode::Custom);
    assert_eq!(v, vec![("a".to_string(), 60), ("b".to_string(), 60)]);
}

#[test]
fn activating_rooms() {
    let vols = vec![("a".to_string(), 95u32)];
    let info = |paired, has_session, max| Some(ReceiverInfo { paired, has_session, maximum_safe_volume: max });
    assert_eq!(activation_step(&None, &vols, "a", RoomMode::Party), ActivationStep::NotFound);
    assert_eq!(activation_step(&info(false, false, None), &vols, "a", RoomMode::Party), ActivationStep::NotPaired);
    assert_eq!(activation_step(&info(true, false, Some(70)), &vols, "a", RoomMode::Party), ActivationStep::StartSession { volume: 70 });
    assert_eq!(activation_step(&info(true, true, None), &vols, "a", RoomMode::Party), ActivationStep::SetVolume { volume: 95 });
    assert_eq!(activation_step(&info(true, true, None), &vols, "b", RoomMode::Relax), ActivationStep::SetVolume { volume: 40 });
    assert_eq!(activation_outcome(2, 2).unwrap(), "active");
    assert_eq!(activation_outcome(1, 2).unwrap(), "partial");
    assert_eq!(activation_outcome(0, 2).unwrap_err().text().0, "ROOM_ACTIVATION_FAILED");
    assert_eq!(activation_outcome(0, 0).unwrap_err().text(), ("INVALID_ROOM", "cannot activate an empty room group with 0 receivers".to_string()));
    assert_eq!(deactivation_status(2, 0), "deactivated");
    assert_eq!(deactivation_status(1, 1), "partial");
    assert_eq!(deactivation_status(0, 1), "failed");
    assert!(any_active(&vec![false, true]));
    assert!(!any_active(&vec![]));
}

#[test]
fn finding_rooms_and_groups() {
    let groups = vec![(1u128, "Den".to_string()), (2u128, "Kitchen".to_string())];
    assert_eq!(find_room(&groups, "Kitchen"), Some(1));
    assert_eq!(find_room(&groups, "00000000-0000-0000-0000-000000000001"), Some(0));
    assert_eq!(find_room(&groups, "Attic"), None);
    let mut sg = SpeakerGroups { groups: vec![] };
    assert_eq!(sg.create("g1".into(), CreateGroupBody { name: "Up".into(), receiver_ids: vec![] }, "now".into()).unwrap(), 0);
    let e = sg.create("g2".into(), CreateGroupBody { name: " ".into(), receiver_ids: vec![] }, "now".into()).unwrap_err();
    assert_eq!(e.text(), ("VALIDATION_ERROR", "group name is required".to_string()));
    assert_eq!(sg.find("g1").unwrap(), 0);
    assert_eq!(sg.find("g9").unwrap_err().text(), ("GROUP_NOT_FOUND", "group g9 not found".to_string()));
}

#[test]
fn receiver_requests() {
    assert_eq!(snapcast_status(&SnapcastFailure::Timeout), 503);
    assert_eq!(snapcast_status(&SnapcastFailure::HttpStatus(404)), 404);
    assert_eq!(snapcast_status(&SnapcastFailure::HttpStatus(42)), 502);
    assert_eq!(snapcast_status(&SnapcastFailure::Other("x".into())), 502);
    assert_eq!(initiator(None), "michi-micro-server");
    assert_eq!(initiator(Some("me".into())), "me");
    assert_eq!(required_pin(Some("1234"), "pin is required").unwrap(), "1234");
    assert_eq!(required_pin(Some(" "), "pin is required").unwrap_err(), "pin is required");
    assert_eq!(required_pin(None, "pin is required").unwrap_err(), "pin is required");
}

#[test]
fn chains() {
    let paired = Some(LinkReceiver { paired: true, has_session: false });
    assert_eq!(chain_link_step(paired, 70, true), ChainLinkStep::Start { session_volume: 70, volume: 0 });
    assert_eq!(chain_link_step(Some(LinkReceiver { paired: true, has_session: true }), 70, false), ChainLinkStep::Continue { volume: 70 });
    assert_eq!(chain_link_step(None, 70, false), ChainLinkStep::NotFound);
    assert_eq!(chain_step_error(ChainLinkStep::NotPaired), Some("receiver not paired"));
    assert_eq!(chain_step_error(ChainLinkStep::NotFound), Some("receiver not found in registry"));
    assert_eq!(chain_step_error(ChainLinkStep::Continue { volume: 1 }), None);
    assert_eq!(chain_play_outcome(2, 3).unwrap(), ("partial", 1));
    assert_eq!(chain_play_outcome(3, 3).unwrap(), ("playing", 0));
    assert_eq!(chain_play_outcome(0, 0).unwrap_err(), ChainPlayError::NoOutputs);
    let e = chain_play_outcome(0, 4).unwrap_err();
    assert_eq!(e.text(), ("PLAYBACK_FAILED", "failed to start audio output on any of 4 configured links".to_string()));
    assert_eq!(chain_stop_outcome(0, 2), ("failed", false));
    assert_eq!(chain_stop_outcome(1, 1), ("partial", true));
    assert_eq!(chain_volume(Some(100)), Ok(100));
    assert_eq!(chain_volume(Some(101)), Err("volume must be an integer between 0 and 100"));
    assert_eq!(chain_volume(None), Err("volume must be an integer between 0 and 100"));
    assert!(matches!(link_volume_status(Ok(true), Ok(())), LinkVolumeStatus::Updated));
    assert!(matches!(link_volume_status(Ok(true), Err("busy".into())), LinkVolumeStatus::HardwareFailed(m) if m == "busy"));
    assert!(matches!(link_volume_status(Err("db".into()), Ok(())), LinkVolumeStatus::DbFailed(m) if m == "db"));
    assert!(matches!(link_volume_status(Ok(false), Ok(())), LinkVolumeStatus::LinkNotFound));
    assert_eq!(chain_volume_status(0, 0, 0), "no_links");
    assert_eq!(chain_volume_status(2, 1, 1), "partial");
    assert_eq!(chain_volume_status(2, 0, 2), "failed");
    assert_eq!(chain_volume_status(2, 2, 0), "success");
}
