use michi_api::modules::{
    EtagStore, builtin_modules, etag_matches, is_lan_ip, lan_policy, remote_policy, ModuleError, ModuleRegistry,
    ModuleWorker, ToggleEffect, ToggleModuleBody, ToggleModulePathBody,
};

#[test]
fn builtin_modules_start_enabled() {
    let m = builtin_modules();
    let names: Vec<&str> = m.iter().map(|d| d.name.as_str()).collect();
    assert_eq!(names, vec!["scan", "sync", "stream", "playback", "backup", "webhook", "homeassistant"]);
    assert!(m.iter().all(|d| d.enabled && d.generation == 1 && d.health == "healthy"));
}

#[test]
fn toggling_modules() {
    let mut r = ModuleRegistry::new();
    assert!(!r.is_disabled("sync"));
    assert_eq!(r.toggle("sync", true, false).unwrap(), ToggleEffect::Unchanged);
    assert_eq!(r.toggle("sync", false, false).unwrap(), ToggleEffect::Disabled { stop_playback: false });
    assert!(r.is_disabled("sync"));
    assert_eq!(r.toggle("sync", false, false).unwrap(), ToggleEffect::Unchanged);
    let rep = r.report("sync", false);
    assert_eq!((rep.actual_state.as_str(), rep.health.as_str(), rep.generation), ("disabled", "disabled", 1));
    assert_eq!(
        r.toggle("sync", true, false).unwrap(),
        ToggleEffect::Enabled { worker: Some(ModuleWorker::SyncPeers) }
    );
    let rep = r.report("sync", true);
    assert_eq!((rep.actual_state.as_str(), rep.generation), ("active", 2));
    assert_eq!(rep.desired_state, "enabled");
    assert_eq!(r.toggle("playback", false, false).unwrap(), ToggleEffect::Disabled { stop_playback: true });
    match r.toggle("jukebox", false, false) {
        Err(e) => {
            assert!(matches!(&e, ModuleError::UnknownModule(n) if n == "jukebox"));
            assert_eq!(e.message(), "unknown module: jukebox");
        }
        Ok(_) => panic!("unknown module toggled"),
    }
}

#[test]
fn home_assistant_needs_an_mqtt_host() {
    let mut r = ModuleRegistry::new();
    r.toggle("homeassistant", false, false).unwrap();
    assert_eq!(r.toggle("homeassistant", true, false).unwrap(), ToggleEffect::Enabled { worker: None });
    let rep = r.report("homeassistant", true);
    assert_eq!(rep.actual_state, "idle");
    assert_eq!(rep.last_error, Some("MICHI_MQTT_HOST not set".to_string()));
    r.toggle("homeassistant", false, true).unwrap();
    assert_eq!(
        r.toggle("homeassistant", true, true).unwrap(),
        ToggleEffect::Enabled { worker: Some(ModuleWorker::HomeAssistant) }
    );
    assert_eq!(r.report("homeassistant", true).generation, 3);
}

#[test]
fn listing_follows_the_registry() {
    let mut r = ModuleRegistry::new();
    r.toggle("backup", false, false).unwrap();
    r.record_playback_stop_failure("engine busy".to_string());
    let l = r.list();
    let b = l.iter().find(|d| d.name == "backup").unwrap();
    assert!(!b.enabled);
    assert_eq!(b.desired_state, "disabled");
    assert!(l.iter().find(|d| d.name == "scan").unwrap().enabled);
}

#[test]
fn toggle_from_path() {
    let b = ToggleModulePathBody { name: Some("ignored".into()), enabled: false }.for_module("scan".into());
    let ToggleModuleBody { name, enabled } = b;
    assert_eq!(name, "scan");
    assert!(!enabled);
}

#[test]
fn lan_and_policy() {
    assert!(is_lan_ip("192.168.1.2"));
    assert!(is_lan_ip("172.31.0.1"));
    assert!(!is_lan_ip("172.32.0.1"));
    assert!(is_lan_ip("::1"));
    assert!(is_lan_ip("fd00::1"));
    assert!(!is_lan_ip("8.8.8.8"));
    let p = lan_policy("10.0.0.3", 0, false, true, true);
    assert_eq!(p.profile, "lan");
    assert_eq!(p.max_bitrate, None);
    assert!(p.allow_sync && p.allow_stream);
    let p = lan_policy("8.8.8.8", 0, false, true, true);
    assert_eq!(p.profile, "remote");
    assert_eq!(p.max_bitrate, Some(128_000));
    assert!(!p.allow_sync);
    let p = remote_policy(320_000, true, true, false);
    assert_eq!(p.max_bitrate, Some(320_000));
    assert!(p.allow_sync && !p.allow_stream);
}

#[test]
fn etags() {
    assert!(etag_matches(Some("\"v1\""), "\"v1\""));
    assert!(etag_matches(Some("\"v1\""), "*"));
    assert!(!etag_matches(Some("\"v1\""), "\"v2\""));
    assert!(!etag_matches(None, "*"));
}

#[test]
fn resource_tags() {
    let mut store = EtagStore::new();
    assert_eq!(store.get("queue"), None);
    assert!(!store.check("queue", "*"));
    let t1 = store.set("queue");
    assert!(t1.starts_with('"') && t1.ends_with('"') && t1.len() == 38);
    assert!(uuid::Uuid::parse_str(&t1[1..37]).is_ok());
    assert_eq!(store.get("queue"), Some(t1.clone()));
    assert!(store.check("queue", &t1));
    assert!(store.check("queue", "*"));
    let t2 = store.set("playlists");
    let t3 = store.set("queue");
    assert_ne!(t1, t3);
    assert!(!store.check("queue", &t1));
    assert!(store.check("queue", &t3));
    assert_eq!(store.get("playlists"), Some(t2));
}
