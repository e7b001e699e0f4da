use peri_tui::snapshot::{apply_slow_scans, scan_entry_step, MemoryEntry, ScanStep, MAX_SCAN_FILES};
use peri_tui::config::{AppConfig, PeriConfig, ProviderConfig, ProviderModels};
use peri_tui::profiles::derive_provider_and_model;
use peri_tui::snapshot::{
    collect_memory_entries, cron_counts, derive_mcp_status, derive_providers, due_scans,
    filter_threads, is_ignored_name, isolated_refresh, provider_env_key, push_rel_path,
    record_thread_scan, reset_snapshot_atoms, title_loaded, title_step, write_if_changed,
    ClientStatus, CronTask, Handle, McpInitPhase, MemoryCandidate, SlowSnapshotRefresh,
    SnapshotAtoms, ThreadBrowserScope, ThreadMeta, ThreadSummary, TitleAction,
};

#[test]
fn test_derive_provider_and_model_default() {
    let cfg = PeriConfig::default();
    let (provider, alias, model_name, effort) = derive_provider_and_model(&cfg);
    assert!(provider.is_empty());
    assert!(alias.is_empty());
    assert!(model_name.is_empty());
    assert_eq!(effort, "xhigh");
}

#[test]
fn test_derive_provider_and_model_set() {
    let mut cfg = PeriConfig::default();
    cfg.config.active_alias = "sonnet".into();
    cfg.config.profiles.sonnet.provider = "p1".into();
    cfg.config.profiles.sonnet.effort = "high".into();
    cfg.config.providers = vec![ProviderConfig {
        id: "p1".into(),
        provider_type: "anthropic".into(),
        models: ProviderModels {
            opus: "vendor-opus-4-20250514".into(),
            sonnet: "vendor-sonnet-4-20250514".into(),
            ..Default::default()
        },
        ..Default::default()
    }];
    let (provider, alias, model_name, effort) = derive_provider_and_model(&cfg);
    assert_eq!(provider, "anthropic");
    assert_eq!(alias, "sonnet");
    assert_eq!(model_name, "vendor-sonnet-4-20250514");
    assert_eq!(effort, "high");
}

#[test]
fn test_derive_provider_and_model_set_empty_model() {
    let mut cfg = PeriConfig::default();
    cfg.config.active_alias = "haiku".into();
    cfg.config.profiles.haiku.provider = "p1".into();
    cfg.config.providers = vec![ProviderConfig {
        id: "p1".into(),
        provider_type: "anthropic".into(),
        models: ProviderModels { haiku: "".into(), ..Default::default() },
        ..Default::default()
    }];
    let (provider, alias, model_name, effort) = derive_provider_and_model(&cfg);
    assert_eq!(provider, "anthropic");
    assert_eq!(alias, "haiku");
    assert_eq!(model_name, "haiku");
    assert_eq!(effort, "xhigh");
}

#[test]
fn test_derive_provider_and_model_no_models_fallback() {
    let mut cfg = PeriConfig { config: AppConfig::default() };
    cfg.config.active_alias = "haiku".into();
    cfg.config.profiles.haiku.provider = "p1".into();
    cfg.config.providers = vec![ProviderConfig {
        id: "p1".into(),
        provider_type: "anthropic".into(),
        ..Default::default()
    }];
    let (provider, alias, model_name, effort) = derive_provider_and_model(&cfg);
    assert_eq!(provider, "anthropic");
    assert_eq!(alias, "haiku");
    assert_eq!(model_name, "haiku");
    assert_eq!(effort, "xhigh");
}

#[test]
fn derive_falls_back_to_first_provider_and_profile_model() {
    let mut cfg = PeriConfig::default();
    cfg.config.active_alias = "opus".into();
    cfg.config.profiles.opus.model = Some("custom-model".into());
    cfg.config.providers = vec![ProviderConfig { id: "a".into(), provider_type: "openai".into(), ..Default::default() }];
    let (provider, _, model_name, _) = derive_provider_and_model(&cfg);
    assert_eq!(provider, "openai");
    assert_eq!(model_name, "custom-model");
}

#[test]
fn write_if_changed_writes_only_changes() {
    let mut h = Handle { value: 3u32 };
    assert!(!write_if_changed(&mut h, 3));
    assert!(write_if_changed(&mut h, 4));
    assert_eq!(h.value, 4);
}

#[test]
fn push_rel_path_makes_relative_posix_paths() {
    let mut out: Vec<String> = Vec::new();
    push_rel_path(&mut out, "/work/src/mod.rs", "/work");
    push_rel_path(&mut out, "/work", "/work");
    push_rel_path(&mut out, "/elsewhere/a.txt", "/work");
    push_rel_path(&mut out, "/work/a\\b.txt", "/work");
    assert_eq!(out, vec!["src/mod.rs", "a/b.txt"]);
}

#[test]
fn scan_ignores_build_and_vcs_dirs() {
    assert!(is_ignored_name("node_modules"));
    assert!(is_ignored_name(".git"));
    assert!(is_ignored_name(".kube"));
    assert!(!is_ignored_name("src"));
}

#[test]
fn isolated_refresh_defers_memory_scan() {
    let slow = isolated_refresh(1000);
    let plan = due_scans(&slow, 1000);
    assert!(plan.threads && plan.files && !plan.memory);
    assert_eq!(slow.next_memory_scan, 3_601_000);
    let later = due_scans(&slow, 3_601_000);
    assert!(later.memory);
}

#[test]
fn thread_scan_reschedules() {
    let mut slow = SlowSnapshotRefresh::starting_at(0);
    record_thread_scan(&mut slow, 5, vec![]);
    assert_eq!(slow.next_thread_scan, 30_005);
    assert!(!due_scans(&slow, 30_004).threads);
    assert!(due_scans(&slow, 30_005).threads);
}

#[test]
fn title_refresh_steps() {
    let mut slow = SlowSnapshotRefresh::starting_at(0);
    assert_eq!(title_step(&mut slow, "s1", 0), TitleAction::Query);
    title_loaded(&mut slow, "s1", Some(Some("Title".into())), 0);
    assert_eq!(slow.current_title, "Title");
    assert_eq!(title_step(&mut slow, "s1", 5_000), TitleAction::Keep);
    assert_eq!(title_step(&mut slow, "s1", 10_000), TitleAction::Query);
    title_loaded(&mut slow, "s1", None, 10_000);
    assert_eq!(slow.current_title, "Title");
    assert_eq!(title_step(&mut slow, "", 10_001), TitleAction::Cleared);
    assert_eq!(slow.current_title, "");
    assert_eq!(slow.current_title_session_id, "");
}

#[test]
fn reset_atoms_restores_defaults() {
    let mut atoms = SnapshotAtoms {
        active_execution_cwd: Some("/x".into()),
        active_session_id: "sid".into(),
        thread_browser_scope: ThreadBrowserScope::All,
        thread_list_page_count: 4,
        thread_list_error: Some("boom".into()),
        thread_list: vec![ThreadSummary { id: "t".into(), title: None, cwd: ".".into(), message_count: 1, updated_at: None }],
    };
    reset_snapshot_atoms(&mut atoms);
    assert_eq!(atoms.active_execution_cwd, None);
    assert_eq!(atoms.active_session_id, "");
    assert_eq!(atoms.thread_browser_scope, ThreadBrowserScope::Project);
    assert_eq!(atoms.thread_list_page_count, 1);
    assert_eq!(atoms.thread_list_error, None);
    assert!(atoms.thread_list.is_empty());
}

fn meta(id: &str, cwd: &str, count: usize, hidden: bool) -> ThreadMeta {
    ThreadMeta { id: id.into(), title: Some(id.into()), cwd: cwd.into(), message_count: count, hidden, updated_at: 7 }
}

#[test]
fn thread_list_keeps_visible_threads_of_cwd() {
    let metas = vec![meta("a", "/w", 3, false), meta("b", "/w", 0, false), meta("c", "/w", 2, true), meta("d", "/x", 2, false), meta("e", "/w", 1, false)];
    let r = filter_threads(&metas, "/w");
    let ids: Vec<&str> = r.iter().map(|t| t.id.as_str()).collect();
    assert_eq!(ids, vec!["a", "e"]);
    assert_eq!(r[0].updated_at, Some(7));
}

#[test]
fn memory_entries_keep_markdown_files_up_to_cap() {
    let mut cands: Vec<MemoryCandidate> = Vec::new();
    cands.push(MemoryCandidate { is_file: true, extension: Some("txt".into()), rel: "a.txt".into(), size_bytes: 1, modified: None });
    cands.push(MemoryCandidate { is_file: false, extension: Some("md".into()), rel: "dir.md".into(), size_bytes: 1, modified: None });
    for i in 0..250 {
        cands.push(MemoryCandidate { is_file: true, extension: Some("md".into()), rel: format!("n{i}.md"), size_bytes: i, modified: Some((5, 0)) });
    }
    let r = collect_memory_entries(&cands);
    assert_eq!(r.len(), 200);
    assert_eq!(r[0].path, "n0.md");
    assert_eq!(r[199].size_bytes, 199);
}

#[test]
fn cron_and_mcp_counts() {
    let tasks = vec![
        CronTask { id: "1".into(), expression: "*/5 * * * *".into(), prompt: "test prompt 1".into(), enabled: true, next_fire: None },
        CronTask { id: "2".into(), expression: "*/10 * * * *".into(), prompt: "test prompt 2".into(), enabled: false, next_fire: None },
    ];
    assert_eq!(cron_counts(&tasks), (2, 1));
    let servers = vec![ClientStatus::Connected, ClientStatus::Failed, ClientStatus::Connected];
    let s = derive_mcp_status(Some(McpInitPhase::Ready), Some(&servers));
    assert_eq!((s.total, s.connected, s.init_phase), (3, 2, McpInitPhase::Ready));
    let none = derive_mcp_status(None, None);
    assert_eq!((none.total, none.connected, none.init_phase), (0, 0, McpInitPhase::Pending));
}

#[test]
fn provider_list_marks_active_and_keys() {
    let mut cfg = PeriConfig::default();
    cfg.config.active_alias = "opus".into();
    cfg.config.profiles.opus.provider = "p2".into();
    cfg.config.providers = vec![
        ProviderConfig { id: "p1".into(), provider_type: "openai".into(), api_key: "k".into(), ..Default::default() },
        ProviderConfig { id: "p2".into(), provider_type: "anthropic".into(), base_url: "https://x".into(), ..Default::default() },
    ];
    let r = derive_providers(&cfg, &vec![false, true]);
    assert!(!r[0].is_active && r[0].has_api_key && r[0].base_url.is_none());
    assert!(r[1].is_active && r[1].has_api_key);
    assert_eq!(r[1].base_url.as_deref(), Some("https://x"));
    assert_eq!(provider_env_key("openai"), "OPENAI_API_KEY");
}

#[test]
fn scan_entry_steps() {
    assert_eq!(scan_entry_step(MAX_SCAN_FILES, Some("a.rs"), false, true, true), ScanStep::Stop);
    assert_eq!(scan_entry_step(0, None, false, true, true), ScanStep::Skip);
    assert_eq!(scan_entry_step(0, Some("node_modules"), true, false, true), ScanStep::Skip);
    assert_eq!(scan_entry_step(0, Some("src"), true, false, true), ScanStep::QueueDir);
    assert_eq!(scan_entry_step(0, Some("a.rs"), false, true, true), ScanStep::Record);
    assert_eq!(scan_entry_step(0, Some("deep"), true, false, false), ScanStep::Skip);
    assert_eq!(scan_entry_step(0, Some("b.rs"), false, true, false), ScanStep::Record);
}

#[test]
fn snapshot_tick_records_due_scans_only() {
    let mut slow = SlowSnapshotRefresh::starting_at(1_000);
    slow.next_memory_scan = 50_000;
    let plan = due_scans(&slow, 1_000);
    assert!(plan.threads && plan.files && !plan.memory);
    let metas = vec![
        ThreadMeta { id: "a".into(), title: Some("A".into()), cwd: "/w".into(), message_count: 3, hidden: false, updated_at: 7 },
        ThreadMeta { id: "b".into(), title: None, cwd: "/w".into(), message_count: 0, hidden: false, updated_at: 8 },
        ThreadMeta { id: "c".into(), title: None, cwd: "/other".into(), message_count: 2, hidden: false, updated_at: 9 },
    ];
    apply_slow_scans(&mut slow, 1_000, "/w", Some(Some(metas)), Some(None), None);
    assert_eq!(slow.threads.len(), 1);
    assert_eq!(slow.threads[0].id, "a");
    assert_eq!(slow.threads[0].updated_at, Some(7));
    assert!(slow.files.is_empty());
    assert_eq!(slow.next_thread_scan, 31_000);
    assert_eq!(slow.next_file_scan, 31_000);
    assert_eq!(slow.next_memory_scan, 50_000);

    // Before anything is due again nothing changes.
    let plan = due_scans(&slow, 20_000);
    assert!(!plan.threads && !plan.files && !plan.memory);
    apply_slow_scans(&mut slow, 20_000, "/w", None, None, None);
    assert_eq!(slow.threads.len(), 1);
    // Later all are due; a failed thread scan empties the list.
    let plan = due_scans(&slow, 50_000);
    assert!(plan.threads && plan.files && plan.memory);
    let entry = MemoryEntry { path: "notes.md".into(), size_bytes: 10, modified: None };
    apply_slow_scans(&mut slow, 50_000, "/w", Some(None), Some(Some(vec!["x.rs".to_string()])), Some(Some(vec![entry])));
    assert_eq!(slow.memory_entries.len(), 1);
    assert_eq!(slow.files, vec!["x.rs".to_string()]);
    assert!(slow.threads.is_empty());
    assert_eq!(slow.next_memory_scan, 80_000);
}
