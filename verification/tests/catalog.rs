use michi_api::catalog::{
    apply_radio_update, check_create_playlist, create_radio_station, find_station, new_radio_station,
    newest_tracks, parse_smart_rule, random_tracks, ranked_track_ids, reachability, select_tracks,
    smart_description, smart_limit, CreatePlaylistBody, CreateRadioBody, RadioStation, SearchQuery,
    SmartRule, TrackFacts, TrackFilter, TrackStamp, UpdateRadioBody, DEFAULT_SMART_YEAR,
};

#[test]
fn playlist_names_are_trimmed_and_required() {
    let p = check_create_playlist(CreatePlaylistBody { name: "  Road trip ".into(), description: Some("d".into()) })
        .unwrap();
    assert_eq!(p.name, "Road trip");
    assert_eq!(p.description, Some("d".to_string()));
    let e = check_create_playlist(CreatePlaylistBody { name: " \t ".into(), description: None }).unwrap_err();
    assert_eq!((e.status, e.code.as_str(), e.message.as_str()), (400, "VALIDATION_ERROR", "playlist name is required"));
}

#[test]
fn smart_rules() {
    assert_eq!(parse_smart_rule("most_played").unwrap(), SmartRule::MostPlayed);
    assert_eq!(parse_smart_rule("by_year").unwrap(), SmartRule::ByYear);
    assert_eq!(SmartRule::RecentlyPlayed.as_str(), "recently_played");
    let e = parse_smart_rule("loudest").unwrap_err();
    assert_eq!(e.code, "INVALID_RULE");
    assert_eq!(
        e.message,
        "unknown rule: loudest. Supported: most_played, favorites, newest, recently_played, unplayed, by_genre, by_year, random"
    );
    assert_eq!(smart_limit(None), 50);
    assert_eq!(smart_limit(Some(7)), 7);
    assert_eq!(smart_limit(Some(500)), 200);
    assert_eq!(smart_description("newest"), "Smart playlist: newest");
    assert_eq!(DEFAULT_SMART_YEAR, 2020);
}

fn facts() -> Vec<TrackFacts> {
    vec![
        TrackFacts { id: 1, genre: Some("Jazz".into()), year: Some(1959) },
        TrackFacts { id: 2, genre: Some("Rock".into()), year: Some(2020) },
        TrackFacts { id: 3, genre: None, year: None },
        TrackFacts { id: 4, genre: Some("Jazz".into()), year: Some(2020) },
        TrackFacts { id: 5, genre: Some("jazz".into()), year: Some(2020) },
    ]
}

#[test]
fn filtering_rules_keep_library_order_up_to_the_limit() {
    let t = facts();
    assert_eq!(select_tracks(&t, &TrackFilter::Genre("Jazz".into()), 10), vec![1, 4]);
    assert_eq!(select_tracks(&t, &TrackFilter::Year(2020), 10), vec![2, 4, 5]);
    assert_eq!(select_tracks(&t, &TrackFilter::Year(2020), 2), vec![2, 4]);
    assert_eq!(select_tracks(&t, &TrackFilter::NotIn(vec![2, 4]), 10), vec![1, 3, 5]);
    assert_eq!(select_tracks(&t, &TrackFilter::NotIn(vec![]), 0), Vec::<u128>::new());
}

#[test]
fn newest_rule_sorts_stably_newest_first() {
    let t = vec![
        TrackStamp { id: 1, created_at: 10 },
        TrackStamp { id: 2, created_at: 30 },
        TrackStamp { id: 3, created_at: 20 },
        TrackStamp { id: 4, created_at: 30 },
        TrackStamp { id: 5, created_at: 5 },
    ];
    assert_eq!(newest_tracks(&t, 10), vec![2, 4, 3, 1, 5]);
    assert_eq!(newest_tracks(&t, 3), vec![2, 4, 3]);
    assert_eq!(newest_tracks(&vec![], 3), Vec::<u128>::new());
}

#[test]
fn random_rule_picks_distinct_tracks() {
    let ids: Vec<u128> = (1..=10).collect();
    let picked = random_tracks(&ids, 4);
    assert_eq!(picked.len(), 4);
    let mut sorted = picked.clone();
    sorted.sort();
    sorted.dedup();
    assert_eq!(sorted.len(), 4);
    assert!(picked.iter().all(|p| ids.contains(p)));
    assert_eq!(random_tracks(&ids, 50).len(), 10);
}

#[test]
fn ranked_rows_keep_only_uuids() {
    let rows = vec![
        uuid::Uuid::from_u128(9).to_string(),
        "garbage".to_string(),
        uuid::Uuid::from_u128(3).to_string(),
    ];
    assert_eq!(ranked_track_ids(&rows), vec![9, 3]);
}

fn radio_body(name: &str, url: &str) -> CreateRadioBody {
    CreateRadioBody {
        name: name.into(),
        stream_url: url.into(),
        homepage: Some(" https://radio.example ".into()),
        icon: None,
        codec: Some("mp3 ".into()),
        bitrate: Some(128),
    }
}

#[test]
fn new_radio_stations_are_checked_and_trimmed() {
    let st = new_radio_station(42, &radio_body(" FIP ", " https://icecast.example/fip ")).unwrap_err();
    assert_eq!(st.message, "stream_url must start with http:// or https://");
    let st = new_radio_station(42, &radio_body(" FIP ", "https://icecast.example/fip ")).unwrap();
    assert_eq!(st.id, 42);
    assert_eq!(st.name, "FIP");
    assert_eq!(st.stream_url, "https://icecast.example/fip");
    assert_eq!(st.homepage, Some("https://radio.example".to_string()));
    assert_eq!(st.codec, Some("mp3".to_string()));
    assert_eq!(st.bitrate, Some(128));
    assert!(st.enabled && !st.favorite && st.last_checked.is_none());
    let e = new_radio_station(1, &radio_body("", "http://x")).unwrap_err();
    assert_eq!((e.status, e.code.as_str(), e.message.as_str()), (400, "VALIDATION_ERROR", "name and stream_url are required"));
    let e = create_radio_station(&radio_body("A", "ftp://x")).unwrap_err();
    assert_eq!(e.message, "stream_url must start with http:// or https://");
    let a = create_radio_station(&radio_body("A", "http://x")).unwrap();
    let b = create_radio_station(&radio_body("A", "http://x")).unwrap();
    assert_ne!(a.id, b.id);
}

fn station() -> RadioStation {
    RadioStation {
        id: 5,
        name: "Old".into(),
        stream_url: "http://old".into(),
        homepage: None,
        icon: Some("i".into()),
        codec: None,
        bitrate: Some(64),
        last_checked: Some("2024-01-01".into()),
        enabled: true,
        favorite: false,
    }
}

fn empty_update() -> UpdateRadioBody {
    UpdateRadioBody {
        name: None,
        stream_url: None,
        homepage: None,
        icon: None,
        codec: None,
        bitrate: None,
        enabled: None,
        favorite: None,
    }
}

#[test]
fn radio_updates_replace_only_given_fields() {
    let mut u = empty_update();
    u.name = Some("New".into());
    u.favorite = Some(true);
    u.bitrate = Some(320);
    let s = apply_radio_update(station(), u);
    assert_eq!(s.name, "New");
    assert_eq!(s.stream_url, "http://old");
    assert_eq!(s.icon, Some("i".to_string()));
    assert_eq!(s.bitrate, Some(320));
    assert!(s.favorite && s.enabled);
    assert_eq!(s.last_checked, Some("2024-01-01".to_string()));
    let mut twice_body = empty_update();
    twice_body.codec = Some("aac".into());
    let once = apply_radio_update(station(), twice_body);
    let mut again_body = empty_update();
    again_body.codec = Some("aac".into());
    let twice = apply_radio_update(once, again_body);
    assert_eq!(twice.codec, Some("aac".to_string()));
    assert_eq!(twice.name, "Old");
    let same = apply_radio_update(station(), empty_update());
    assert_eq!(same.name, "Old");
    assert_eq!(same.bitrate, Some(64));
    assert!(!same.favorite);
}

#[test]
fn stations_are_found_by_id() {
    let mut other = station();
    other.id = 9;
    let list = vec![station(), other];
    assert_eq!(find_station(&list, 9), Some(1));
    assert_eq!(find_station(&list, 1), None);
    assert_eq!(reachability(204), "reachable");
    assert_eq!(reachability(301), "unreachable");
    assert_eq!(reachability(199), "unreachable");
}

#[test]
fn search_terms_are_trimmed() {
    assert_eq!(SearchQuery { q: "  miles ".into() }.term(), Some("miles".to_string()));
    assert_eq!(SearchQuery { q: "   ".into() }.term(), None);
}

#[test]
fn smart_playlist_request_checks_name_before_rule() {
    let e = michi_api::catalog::smart_playlist_request("   ", "bogus", None).unwrap_err();
    assert_eq!((e.status, e.code.as_str(), e.message.as_str()), (400, "VALIDATION_ERROR", "playlist name is required"));
    let e = michi_api::catalog::smart_playlist_request("Mix", "bogus", None).unwrap_err();
    assert_eq!((e.status, e.code.as_str()), (400, "INVALID_RULE"));
    let (rule, n) = michi_api::catalog::smart_playlist_request("Mix", "newest", Some(500)).unwrap();
    assert_eq!((rule, n), (SmartRule::Newest, 200));
    let (_, n) = michi_api::catalog::smart_playlist_request("Mix", "random", None).unwrap();
    assert_eq!(n, 50);
}
