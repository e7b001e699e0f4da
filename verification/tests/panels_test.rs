use peri_tui::browse::{
    agent_panel_on_key, cron_panel_on_key, hooks_panel_on_key, mcp_panel_on_key,
    memory_panel_on_key, task_row, tasks_panel_on_key, theme_panel_on_key, thread_browser_on_click, thread_browser_on_key,
    ListDeleteState, ListPanelAction, TaskSection, ThemeKeyOutcome, ThreadBrowserAction,
};
use peri_tui::keys::{KeyCode, KeyPress};
use peri_tui::labels::{
    agent_status_color, derive_status_style, event_description, phase_status_color,
    running_indicator, status_emoji_for_agent, status_emoji_for_phase, status_emoji_for_run,
    ServerStatusClass, StatusTone,
};
use peri_tui::popups::{
    close_popup, confirm_popup_on_key, hitl_popup_on_key, is_popup_active, oauth_popup_on_key,
    oauth_url_display, open_popup, payload_slots, ConfirmAction, HitlResponse, OAuthKeyOutcome,
    PayloadSlot, PopupKeyOutcome, PopupKind, PopupLayer,
};
use peri_tui::steer::{
    admission_error, failure_notice_key, generation_to_send, is_rejected, needs_session,
    plan_failure, rebind_before_reject, should_refresh, use_cached_generation, SteerKind,
    SteerStage, RECEIPT_TIMEOUT_CODE,
};
use peri_tui::workflow::{abbreviate_small_count, clamp_selection, workflow_on_key, WorkflowKeyOutcome, WorkflowNav};

fn key(code: KeyCode) -> KeyPress {
    KeyPress::plain(code)
}

#[test]
fn panel_run_and_phase_markers() {
    assert_eq!(status_emoji_for_run("running"), "\u{25cf}");
    assert_eq!(status_emoji_for_run("completed"), "\u{2713}");
    assert_eq!(status_emoji_for_run("failed"), "\u{2717}");
    assert_eq!(status_emoji_for_run("killed"), "\u{2717}");
    assert_eq!(status_emoji_for_run("queued"), "\u{25cb}");
    assert_eq!(status_emoji_for_phase("active"), "\u{25cf}");
    assert_eq!(status_emoji_for_phase("done"), "\u{2713}");
    assert_eq!(status_emoji_for_phase("failed"), "\u{25cb}");
    assert_eq!(status_emoji_for_agent("running"), "\u{25cf}");
    assert_eq!(status_emoji_for_agent("skipped"), "\u{2717}");
    assert_eq!(status_emoji_for_agent("dead"), "\u{2717}");
    assert_eq!(status_emoji_for_agent("pending"), "\u{25cb}");
}

#[test]
fn panel_status_tones() {
    assert_eq!(phase_status_color("active"), StatusTone::Running);
    assert_eq!(phase_status_color("done"), StatusTone::Success);
    assert_eq!(phase_status_color("failed"), StatusTone::Error);
    assert_eq!(phase_status_color("pending"), StatusTone::Muted);
    assert_eq!(agent_status_color("dead"), StatusTone::Error);
    assert_eq!(agent_status_color("done"), StatusTone::Success);
    assert_eq!(agent_status_color("waiting"), StatusTone::Muted);
}

#[test]
fn panel_running_indicator_frames() {
    assert_eq!(running_indicator(0), '✳');
    assert_eq!(running_indicator(99), '✳');
    assert_eq!(running_indicator(100), '✴');
    assert_eq!(running_indicator(1000), '❃');
    assert_eq!(running_indicator(1500), '✸');
    assert_eq!(running_indicator(1600), '✳');
}

#[test]
fn panel_event_descriptions() {
    assert_eq!(event_description("pretooluse"), "Before tool execution");
    assert_eq!(event_description("notification"), "When agent needs user input");
    assert_eq!(event_description("PreToolUse"), "");
}

#[test]
fn panel_server_status_classes() {
    assert_eq!(derive_status_style("connected"), ServerStatusClass::Connected);
    assert_eq!(derive_status_style("error: timeout"), ServerStatusClass::Error);
    assert_eq!(derive_status_style("failed to start"), ServerStatusClass::Error);
    assert_eq!(derive_status_style("starting"), ServerStatusClass::Unknown);
}

#[test]
fn panel_steer_failures() {
    assert!(is_rejected(SteerKind::Enqueue, false, 0));
    assert!(!is_rejected(SteerKind::Enqueue, true, 0));
    assert!(is_rejected(SteerKind::Dispatch, true, -32601));
    assert!(!is_rejected(SteerKind::Dispatch, true, -32603));
    assert_eq!(failure_notice_key(SteerStage::Prepare, true), "steer-session-unavailable");
    assert_eq!(failure_notice_key(SteerStage::Admit, true), "steer-input-rejected");
    assert_eq!(failure_notice_key(SteerStage::Prepare, false), "steer-input-uncertain");
    let p = plan_failure(SteerKind::Enqueue, false, false, 3, 3);
    assert!(p.notify && p.retry);
    let p = plan_failure(SteerKind::Refresh, false, false, 3, 4);
    assert!(!p.notify && !p.retry);
    let p = plan_failure(SteerKind::TakeBack, true, true, 1, 1);
    assert!(!p.notify && !p.retry);
}

#[test]
fn panel_popup_layer_open_close() {
    let mut layer = PopupLayer { kind: None };
    assert!(!is_popup_active(&layer));
    open_popup(&mut layer, PopupKind::Hitl);
    open_popup(&mut layer, PopupKind::Rewind);
    assert!(is_popup_active(&layer));
    let (prev, slots) = close_popup(&mut layer);
    assert_eq!(prev, Some(PopupKind::Rewind));
    assert_eq!(
        slots,
        vec![
            PayloadSlot::RewindBudgetState,
            PayloadSlot::RewindTargetText,
            PayloadSlot::RewindQueryError
        ]
    );
    assert!(!is_popup_active(&layer));
    let (prev, slots) = close_popup(&mut layer);
    assert_eq!(prev, None);
    assert!(slots.is_empty());
    assert!(payload_slots(PopupKind::ModelQuickSwitch).is_empty());
    assert_eq!(payload_slots(PopupKind::OAuth), vec![PayloadSlot::OAuthInfo]);
}

#[test]
fn panel_confirm_popup_keys() {
    let pending = Some(ConfirmAction::ThreadSwitch("t1".to_string()));
    match confirm_popup_on_key(key(KeyCode::Enter), pending) {
        PopupKeyOutcome::Close(Some(ConfirmAction::ThreadSwitch(id))) => assert_eq!(id, "t1"),
        other => panic!("unexpected {:?}", other),
    }
    assert!(matches!(
        confirm_popup_on_key(key(KeyCode::Esc), Some(ConfirmAction::RejectAskUser)),
        PopupKeyOutcome::Close(None)
    ));
    assert!(matches!(
        confirm_popup_on_key(KeyPress::with_ctrl(KeyCode::Enter), Some(ConfirmAction::RejectAskUser)),
        PopupKeyOutcome::Ignored
    ));
    assert!(matches!(
        confirm_popup_on_key(key(KeyCode::Char('y')), None),
        PopupKeyOutcome::Ignored
    ));
}

#[test]
fn panel_hitl_popup_keys() {
    match hitl_popup_on_key(key(KeyCode::Enter), Some("r7".to_string())) {
        PopupKeyOutcome::Close(Some(HitlResponse::Approve { request_id_str })) => {
            assert_eq!(request_id_str, "r7")
        }
        other => panic!("unexpected {:?}", other),
    }
    match hitl_popup_on_key(key(KeyCode::Esc), Some("r8".to_string())) {
        PopupKeyOutcome::Close(Some(HitlResponse::Reject { request_id_str })) => {
            assert_eq!(request_id_str, "r8")
        }
        other => panic!("unexpected {:?}", other),
    }
    assert!(matches!(
        hitl_popup_on_key(key(KeyCode::Enter), None),
        PopupKeyOutcome::Close(None)
    ));
    assert!(matches!(
        hitl_popup_on_key(key(KeyCode::Tab), Some("r9".to_string())),
        PopupKeyOutcome::Ignored
    ));
}

#[test]
fn panel_thread_browser_delete_flow() {
    let ids = vec!["a".to_string(), "b".to_string()];
    let mut st = ListDeleteState { cursor: 0, confirm_delete: false };
    assert_eq!(thread_browser_on_key(&mut st, &ids, key(KeyCode::Down)), ThreadBrowserAction::Consumed);
    assert_eq!(st.cursor, 1);
    assert_eq!(thread_browser_on_key(&mut st, &ids, key(KeyCode::Down)), ThreadBrowserAction::Consumed);
    assert_eq!(st.cursor, 1);
    assert_eq!(
        thread_browser_on_key(&mut st, &ids, key(KeyCode::Enter)),
        ThreadBrowserAction::Load("b".to_string())
    );
    thread_browser_on_key(&mut st, &ids, key(KeyCode::Char('d')));
    assert!(st.confirm_delete);
    assert_eq!(
        thread_browser_on_key(&mut st, &ids, key(KeyCode::Enter)),
        ThreadBrowserAction::Delete("b".to_string())
    );
    assert!(!st.confirm_delete);
    thread_browser_on_key(&mut st, &ids, key(KeyCode::Delete));
    assert_eq!(thread_browser_on_key(&mut st, &ids, key(KeyCode::Esc)), ThreadBrowserAction::Consumed);
    assert!(!st.confirm_delete);
    let empty: Vec<String> = Vec::new();
    let mut st = ListDeleteState { cursor: 0, confirm_delete: false };
    thread_browser_on_key(&mut st, &empty, key(KeyCode::Char('d')));
    assert!(!st.confirm_delete);
}

#[test]
fn panel_cron_keys() {
    let mut st = ListDeleteState { cursor: 0, confirm_delete: false };
    cron_panel_on_key(&mut st, 3, key(KeyCode::Char('j')));
    cron_panel_on_key(&mut st, 3, key(KeyCode::Down));
    cron_panel_on_key(&mut st, 3, key(KeyCode::Down));
    assert_eq!(st.cursor, 2);
    cron_panel_on_key(&mut st, 3, key(KeyCode::Char('k')));
    assert_eq!(st.cursor, 1);
    cron_panel_on_key(&mut st, 3, key(KeyCode::Char('d')));
    assert!(st.confirm_delete);
    cron_panel_on_key(&mut st, 3, KeyPress::with_ctrl(KeyCode::Char('c')));
    assert!(st.confirm_delete);
    cron_panel_on_key(&mut st, 3, key(KeyCode::Char('x')));
    assert!(!st.confirm_delete);
    assert_eq!(st.cursor, 1);
}

#[test]
fn panel_tasks_keys_and_rows() {
    let mut sel = 0usize;
    assert_eq!(tasks_panel_on_key(&mut sel, 2, 1, 1, key(KeyCode::Enter)), ListPanelAction::CancelTaskAndClose(0));
    for _ in 0..5 {
        tasks_panel_on_key(&mut sel, 2, 1, 1, key(KeyCode::Down));
    }
    assert_eq!(sel, 3);
    assert_eq!(tasks_panel_on_key(&mut sel, 2, 1, 1, key(KeyCode::Enter)), ListPanelAction::Close);
    assert_eq!(tasks_panel_on_key(&mut sel, 2, 1, 1, key(KeyCode::Esc)), ListPanelAction::Close);
    assert_eq!(task_row(0, 2, 1, 1), Some(TaskSection::Background(0)));
    assert_eq!(task_row(2, 2, 1, 1), Some(TaskSection::Scheduled(0)));
    assert_eq!(task_row(3, 2, 1, 1), Some(TaskSection::SubAgent(0)));
    assert_eq!(task_row(4, 2, 1, 1), None);
}

#[test]
fn panel_mcp_hooks_agent_memory_keys() {
    let needs_auth = vec![false, true];
    let mut sel = 0usize;
    assert_eq!(mcp_panel_on_key(&mut sel, &needs_auth, key(KeyCode::Enter)), ListPanelAction::Close);
    mcp_panel_on_key(&mut sel, &needs_auth, key(KeyCode::Down));
    assert_eq!(mcp_panel_on_key(&mut sel, &needs_auth, key(KeyCode::Enter)), ListPanelAction::Authorize(1));

    let mut sel = 0usize;
    assert_eq!(hooks_panel_on_key(&mut sel, 3, KeyPress::with_ctrl(KeyCode::Char('c'))), ListPanelAction::Ignored);
    assert_eq!(hooks_panel_on_key(&mut sel, 3, key(KeyCode::Enter)), ListPanelAction::Close);

    let mut cur = 0usize;
    for _ in 0..20 {
        agent_panel_on_key(&mut cur, 0, key(KeyCode::Down));
    }
    assert_eq!(cur, 8);
    agent_panel_on_key(&mut cur, 0, key(KeyCode::Up));
    assert_eq!(cur, 7);

    let mut sel = 1usize;
    assert_eq!(memory_panel_on_key(&mut sel, 2, key(KeyCode::Enter)), ListPanelAction::Open(1));
    assert_eq!(memory_panel_on_key(&mut sel, 0, key(KeyCode::Enter)), ListPanelAction::Consumed);
}

#[test]
fn panel_theme_keys() {
    let mut sel = 0usize;
    assert_eq!(theme_panel_on_key(&mut sel, 3, key(KeyCode::Char('j'))), ThemeKeyOutcome::Preview(1));
    assert_eq!(theme_panel_on_key(&mut sel, 3, key(KeyCode::Up)), ThemeKeyOutcome::Preview(0));
    assert_eq!(theme_panel_on_key(&mut sel, 3, key(KeyCode::Up)), ThemeKeyOutcome::Preview(0));
    assert_eq!(theme_panel_on_key(&mut sel, 3, key(KeyCode::Enter)), ThemeKeyOutcome::Persist(0));
    assert_eq!(theme_panel_on_key(&mut sel, 3, key(KeyCode::Esc)), ThemeKeyOutcome::Restore);
    assert_eq!(theme_panel_on_key(&mut sel, 3, key(KeyCode::Tab)), ThemeKeyOutcome::Ignored);
    assert_eq!(theme_panel_on_key(&mut sel, 0, key(KeyCode::Enter)), ThemeKeyOutcome::Consumed);
}

#[test]
fn panel_workflow_navigation() {
    let mut nav = WorkflowNav { active_run: 0, focus_left: true, phase_sel: 2, agent_sel: 1 };
    assert_eq!(workflow_on_key(&mut nav, 3, key(KeyCode::BackTab)), WorkflowKeyOutcome::Consumed);
    assert_eq!(nav.active_run, 2);
    assert_eq!((nav.phase_sel, nav.agent_sel), (0, 0));
    workflow_on_key(&mut nav, 3, key(KeyCode::Tab));
    assert_eq!(nav.active_run, 0);
    workflow_on_key(&mut nav, 3, key(KeyCode::Down));
    workflow_on_key(&mut nav, 3, key(KeyCode::Down));
    assert_eq!(nav.phase_sel, 2);
    workflow_on_key(&mut nav, 3, key(KeyCode::Right));
    assert!(!nav.focus_left);
    workflow_on_key(&mut nav, 3, key(KeyCode::Up));
    assert_eq!(nav.agent_sel, 0);
    assert_eq!(workflow_on_key(&mut nav, 3, key(KeyCode::Esc)), WorkflowKeyOutcome::Close);
    assert_eq!(workflow_on_key(&mut nav, 3, key(KeyCode::Char('x'))), WorkflowKeyOutcome::Ignored);

    let titles = vec!["plan".to_string(), "build".to_string()];
    let agents = vec![Some("plan".to_string()), Some("build".to_string()), Some("build".to_string()), None];
    let mut nav = WorkflowNav { active_run: 0, focus_left: true, phase_sel: 9, agent_sel: 9 };
    clamp_selection(&mut nav, &titles, &agents);
    assert_eq!(nav.phase_sel, 1);
    assert_eq!(nav.agent_sel, 1);
    let untitled = vec![String::new()];
    let mut nav = WorkflowNav { active_run: 0, focus_left: true, phase_sel: 0, agent_sel: 9 };
    clamp_selection(&mut nav, &untitled, &agents);
    assert_eq!(nav.agent_sel, 3);
}

#[test]
fn panel_steer_execute_decisions() {
    assert!(needs_session(SteerKind::Enqueue, ""));
    assert!(!needs_session(SteerKind::Dispatch, ""));
    assert!(!needs_session(SteerKind::Enqueue, "s1"));
    assert!(rebind_before_reject(SteerKind::Enqueue, false, ""));
    assert!(!rebind_before_reject(SteerKind::Enqueue, true, ""));
    assert_eq!(admission_error("s1", 2, "s1", 2, true), None);
    assert_eq!(admission_error("s1", 2, "s0", 2, true), Some(-32603));
    assert_eq!(admission_error("s1", 3, "s1", 2, false), Some(-32602));
    assert!(use_cached_generation(SteerKind::Enqueue, true));
    assert!(!use_cached_generation(SteerKind::Refresh, true));
    assert!(!use_cached_generation(SteerKind::TakeBack, false));
    let current = "g2".to_string();
    assert_eq!(generation_to_send(&None, &current), Some("g2".to_string()));
    assert_eq!(generation_to_send(&Some("g2".to_string()), &current), Some("g2".to_string()));
    assert_eq!(generation_to_send(&Some("g1".to_string()), &current), None);
    assert!(should_refresh("s1", true));
    assert!(!should_refresh("", true));
    assert!(!should_refresh("s1", false));
    assert_eq!(RECEIPT_TIMEOUT_CODE, -32603);
}

#[test]
fn panel_oauth_popup_keys_and_url() {
    assert_eq!(oauth_popup_on_key(KeyPress::with_ctrl(KeyCode::Char('o')), true), OAuthKeyOutcome::OpenUrl);
    assert_eq!(oauth_popup_on_key(KeyPress::with_ctrl(KeyCode::Char('O')), false), OAuthKeyOutcome::Consumed);
    assert_eq!(oauth_popup_on_key(key(KeyCode::Enter), true), OAuthKeyOutcome::Close);
    assert_eq!(oauth_popup_on_key(key(KeyCode::Backspace), true), OAuthKeyOutcome::Consumed);
    assert_eq!(oauth_popup_on_key(key(KeyCode::Char('x')), true), OAuthKeyOutcome::Consumed);
    assert_eq!(oauth_popup_on_key(KeyPress { code: KeyCode::Char('X'), ctrl: false, shift: true }, true), OAuthKeyOutcome::Consumed);
    assert_eq!(oauth_popup_on_key(key(KeyCode::Esc), true), OAuthKeyOutcome::Ignored);
    assert_eq!(oauth_popup_on_key(KeyPress::with_ctrl(KeyCode::Char('c')), true), OAuthKeyOutcome::Ignored);
    assert_eq!(oauth_url_display("https://a.b/c"), "https://a.b/c");
    let long = "https://auth.example.com/authorize?client_id=abcdefghij";
    assert_eq!(oauth_url_display(long), format!("{}...", &long[..44]));
    let exact: String = "x".repeat(44);
    assert_eq!(oauth_url_display(&exact), exact);
}

#[test]
fn workflow_count_abbreviation_below_a_million() {
    assert_eq!(abbreviate_small_count(0).as_deref(), Some("0"));
    assert_eq!(abbreviate_small_count(999).as_deref(), Some("999"));
    assert_eq!(abbreviate_small_count(1000).as_deref(), Some("1k"));
    assert_eq!(abbreviate_small_count(12_345).as_deref(), Some("12k"));
    assert_eq!(abbreviate_small_count(999_999).as_deref(), Some("999k"));
    assert_eq!(abbreviate_small_count(1_000_000), None);
}

#[test]
fn history_click_selects_and_loads() {
    let ids = vec!["t1".to_string(), "t2".to_string()];
    let mut st = ListDeleteState { cursor: 0, confirm_delete: false };
    assert_eq!(thread_browser_on_click(&mut st, &ids, Some(1), true), Some(ThreadBrowserAction::Load("t2".into())));
    assert_eq!(st.cursor, 1);
    // A left click that hits no row is still taken; other mouse events are not.
    assert_eq!(thread_browser_on_click(&mut st, &ids, None, true), Some(ThreadBrowserAction::Consumed));
    assert_eq!(thread_browser_on_click(&mut st, &ids, None, false), None);
    assert_eq!(st.cursor, 1);
    // While asking to delete, a click loads nothing.
    st.confirm_delete = true;
    assert_eq!(thread_browser_on_click(&mut st, &ids, Some(0), true), Some(ThreadBrowserAction::Consumed));
    assert_eq!(st.cursor, 1);
    assert!(st.confirm_delete);
}
