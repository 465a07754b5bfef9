use michi_api::settings::opensubsonic_may_start;
use michi_api::settings::{
    apply_update, effective_sources, pending_restart_fields, restart_required, validate_update,
    SettingSource, SettingsValues, UpdateSettingsBody,
};

fn values() -> SettingsValues {
    SettingsValues {
        resource_profile: "balanced".into(),
        stream_profile: "auto".into(),
        format_policy: "original".into(),
        auto_backup_enabled: false,
        backup_max_keep: 7,
        job_max_concurrent: 3,
        reconnect_delay_max: 300,
        max_remote_bitrate: 320_000,
        remote_sync: false,
        scrobble_enabled: false,
        dev_mode: false,
        sync_name: "home".into(),
        sync_peers: vec![],
        language: "en".into(),
        theme: "dark".into(),
        sidebar_collapsed: false,
        cover_art_enabled: true,
    }
}

fn empty() -> UpdateSettingsBody {
    UpdateSettingsBody {
        resource_profile: None,
        stream_profile: None,
        format_policy: None,
        language: None,
        theme: None,
        sidebar_collapsed: None,
        cover_art_enabled: None,
        auto_backup_enabled: None,
        backup_max_keep: None,
        job_max_concurrent: None,
        reconnect_delay_max: None,
        max_remote_bitrate: None,
        remote_sync: None,
        scrobble_enabled: None,
        dev_mode: None,
        sync_name: None,
        sync_peers: None,
    }
}

#[test]
fn pending_restart_lists_changed_settings_not_overridden() {
    let active = values();
    let mut saved = values();
    saved.backup_max_keep = 9;
    saved.sync_peers = vec!["peer:1".into()];
    saved.dev_mode = true;
    assert_eq!(
        pending_restart_fields(&active, Some(&saved), &vec!["dev_mode".to_string()]),
        vec!["backup_max_keep".to_string(), "sync_peers".to_string()]
    );
    assert!(pending_restart_fields(&active, None, &vec![]).is_empty());
    assert!(pending_restart_fields(&active, Some(&values()), &vec![]).is_empty());
}

#[test]
fn sources_of_settings() {
    let s = effective_sources(&vec!["stream_profile".to_string()], true);
    assert_eq!(s.len(), 13);
    assert_eq!(s[0], ("resource_profile".to_string(), SettingSource::File));
    assert_eq!(s[1], ("stream_profile".to_string(), SettingSource::Environment));
    assert_eq!(s[12].0, "sync_peers");
    let s = effective_sources(&vec![], false);
    assert_eq!(s[5].1, SettingSource::Default);
    assert_eq!(SettingSource::Environment.as_str(), "environment");
}

#[test]
fn validation_order_and_ranges() {
    let mut b = empty();
    b.job_max_concurrent = Some(33);
    b.backup_max_keep = Some(0);
    let e = validate_update(&b, None, Some("bad stream profile"), None).unwrap_err();
    assert_eq!((e.message.as_str(), e.field.as_str()), ("bad stream profile", "stream_profile"));
    let e = validate_update(&b, None, None, None).unwrap_err();
    assert_eq!((e.message.as_str(), e.field.as_str()), ("job_max_concurrent must be between 1 and 32", "job_max_concurrent"));
    b.job_max_concurrent = Some(32);
    let e = validate_update(&b, None, None, None).unwrap_err();
    assert_eq!(e.message, "backup_max_keep must be between 1 and 100");
    b.backup_max_keep = Some(100);
    b.reconnect_delay_max = Some(4);
    assert_eq!(validate_update(&b, None, None, None).unwrap_err().message, "reconnect_delay_max must be between 5 and 3600 seconds");
    b.reconnect_delay_max = Some(3600);
    b.max_remote_bitrate = Some(20_000_001);
    assert_eq!(validate_update(&b, None, None, None).unwrap_err().message, "max_remote_bitrate must be between 32000 and 20000000 bps");
    b.max_remote_bitrate = Some(32_000);
    assert!(validate_update(&b, None, None, None).is_ok());
}

#[test]
fn restart_and_apply() {
    let mut b = empty();
    b.theme = Some("light".into());
    b.language = Some("de".into());
    assert!(!restart_required(&b));
    let mut cfg = values();
    apply_update(&mut cfg, &b);
    assert_eq!((cfg.theme.as_str(), cfg.language.as_str()), ("light", "de"));
    assert_eq!(cfg.backup_max_keep, 7);
    b.sync_peers = Some(vec!["a:1".into(), "b:2".into()]);
    b.dev_mode = Some(true);
    assert!(restart_required(&b));
    apply_update(&mut cfg, &b);
    assert_eq!(cfg.sync_peers, vec!["a:1".to_string(), "b:2".to_string()]);
    assert!(cfg.dev_mode);
    assert_eq!(cfg.sync_name, "home");
}

#[test]
fn opensubsonic_needs_authentication() {
    assert!(opensubsonic_may_start(false, false, None));
    assert!(opensubsonic_may_start(true, true, None));
    assert!(!opensubsonic_may_start(true, false, None));
    assert!(!opensubsonic_may_start(true, false, Some("yes")));
    assert!(opensubsonic_may_start(true, false, Some("1")));
    assert!(opensubsonic_may_start(true, false, Some("TRUE")));
    assert!(opensubsonic_may_start(true, false, Some("True")));
}
