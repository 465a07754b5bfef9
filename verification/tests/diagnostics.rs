use michi_api::diagnostics::diagnostics_health;
use michi_api::diagnostics::{
    self_test, CheckedDir,
    diagnostic_warnings, events_status, free_bytes, memory_from_status, process_ticks, receiver_status,
    storage_level, storage_overall, token_store_status, total_ticks, PlayerCompatibility, StorageLevel,
};

#[test]
fn memory_from_proc_status() {
    let status = "Name:\tmichi\nVmSize:\t  204800 kB\nVmRSS:\t   51200 kB\nThreads: 9\n";
    assert_eq!(memory_from_status(status), (50, 200));
    assert_eq!(memory_from_status("nothing here"), (0, 0));
}

#[test]
fn cpu_ticks() {
    let stat = "1234 (michi) S 1 2 3 4 5 6 7 8 9 10 250 30 0 0 20 0";
    assert_eq!(process_ticks(stat), 280);
    assert_eq!(process_ticks("1 (x) S"), 0);
    let proc_stat = "intr 5 6\ncpu  10 20 30 40\ncpu0 1 2 3 4\n";
    assert_eq!(total_ticks(proc_stat), 100);
    assert_eq!(total_ticks("cpu0 1 2\n"), 0);
}

#[test]
fn storage_levels() {
    assert_eq!(free_bytes(Some((4096, 1000))), Some(4_096_000));
    assert_eq!(free_bytes(None), None);
    assert_eq!(storage_level(None), StorageLevel::Critical);
    assert_eq!(storage_level(Some(99_999_999)), StorageLevel::Critical);
    assert_eq!(storage_level(Some(100_000_000)), StorageLevel::Warning);
    assert_eq!(storage_level(Some(999_999_999)), StorageLevel::Warning);
    assert_eq!(storage_level(Some(1_000_000_000)), StorageLevel::Fine);
    assert_eq!(StorageLevel::Warning.as_str(), "warning");
    assert!(storage_overall(StorageLevel::Fine, StorageLevel::Fine));
    assert!(!storage_overall(StorageLevel::Fine, StorageLevel::Warning));
}

#[test]
fn status_sections() {
    assert_eq!(token_store_status(3).active_tokens, 3);
    assert_eq!(token_store_status(-1).active_tokens, 0);
    let r = receiver_status(0);
    assert!(!r.client_available);
    let e = events_status(true);
    assert!(e.websocket && e.recommended_polling && e.auth_enabled);
    let p = PlayerCompatibility::new(true, false, true, true);
    assert!(p.supports_queue_transfer && p.supports_import_preflight);
}

#[test]
fn warnings() {
    assert!(diagnostic_warnings(true, false, false, 0, None, None).is_empty());
    assert_eq!(
        diagnostic_warnings(false, true, false, 2_500_000_000, Some(500_000_000), Some("locked")),
        vec![
            "library_stats failed: locked".to_string(),
            "no music paths exist on disk".to_string(),
            "auth enabled but no username configured".to_string(),
            ".import staging is large (2500 MB). Commits pending?".to_string(),
            "low disk space on music path: 500 MB free".to_string(),
        ]
    );
}

#[test]
fn self_test_checks() {
    let dir = |d: &str, e: bool, is_dir: bool| CheckedDir { display: d.to_string(), exists: e, is_dir };
    let (checks, ok) = self_test(true, &dir("/config", true, true), &dir("/cache", true, true), &vec![dir("/music", true, true)], false);
    assert!(ok);
    let names: Vec<&str> = checks.iter().map(|c| c.name.as_str()).collect();
    assert_eq!(names, vec!["database", "config_path", "cache_path", "music_path"]);
    let (checks, ok) = self_test(false, &dir("/config", false, false), &dir("/cache", true, true), &vec![dir("/m1", true, false), dir("/m2", true, true)], true);
    assert!(!ok);
    let statuses: Vec<&str> = checks.iter().map(|c| c.status.as_str()).collect();
    assert_eq!(statuses, vec!["failed", "warning", "passed", "warning", "passed", "passed"]);
    assert_eq!(checks[5].name, "admin_token_configured");
    assert_eq!(checks[5].info.as_deref(), Some("authentication is enabled"));
    assert_eq!(checks[3].info.as_deref(), Some("/m1"));
    assert_eq!(checks[0].info, None);
}

#[test]
fn diagnostics_health_verdicts() {
    let h = diagnostics_health(vec![], 2, false, 1, 0);
    assert!(h.healthy);
    assert!(h.has_queue);
    assert!(h.receiver.client_available);
    assert_eq!(h.player_compatibility.contract_status, "CONTRACT_PARTIAL");
    assert!(!h.player_compatibility.supports_import_preflight);
    let h = diagnostics_health(vec!["no music paths exist on disk".into()], 0, false, 0, 3);
    assert!(!h.healthy);
    assert_eq!(h.warnings.len(), 1);
    assert!(!h.has_queue);
    assert_eq!(h.player_compatibility.contract_status, "CONTRACT_OK");
    assert!(h.player_compatibility.supports_commit_mapping);
}
