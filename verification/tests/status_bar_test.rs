use peri_tui::status::{
    bg_task_summary, cwd_basename, highlight_active, memory_color, model_display,
    model_segment_parts, notification_visible, permission_mode_color, permission_mode_display_key,
    segment_emphasis, show_model_segment, status_hint, Emphasis, ModeTone, ResourceLevel,
    StatusHint,
};

#[test]
fn test_model_segment_parts_full() {
    assert_eq!(
        model_segment_parts("opus", "vendor-opus-4-20250514", "high"),
        vec!["opus", "vendor-opus-4-20250514", "high"]
    );
}

#[test]
fn test_model_segment_parts_no_effort() {
    assert_eq!(
        model_segment_parts("opus", "vendor-opus-4-20250514", ""),
        vec!["opus", "vendor-opus-4-20250514"]
    );
}

#[test]
fn test_model_segment_parts_model_has_effort_suffix() {
    assert_eq!(
        model_segment_parts("opus", "gpt-5.6-luna high", "high"),
        vec!["opus", "gpt-5.6-luna high"]
    );
}

#[test]
fn test_model_segment_parts_alias_equals_model() {
    assert_eq!(model_segment_parts("haiku", "haiku", "medium"), vec!["haiku", "medium"]);
    assert_eq!(model_segment_parts("haiku", "", "medium"), vec!["haiku", "medium"]);
}

#[test]
fn test_model_segment_parts_empty_all() {
    assert!(model_segment_parts("", "", "").is_empty());
}

#[test]
fn test_permission_mode_color() {
    assert_eq!(permission_mode_color("accept-edit"), ModeTone::AcceptEdit);
    assert_eq!(permission_mode_color("auto-mode"), ModeTone::Auto);
    assert_eq!(permission_mode_color("bypass"), ModeTone::Bypass);
    assert_eq!(permission_mode_color("default"), ModeTone::Plain);
}

#[test]
fn permission_mode_display_keys() {
    assert_eq!(permission_mode_display_key("default"), "statusbar-permission-dont-ask");
    assert_eq!(permission_mode_display_key("accept-edit"), "statusbar-permission-accept-edit");
    assert_eq!(permission_mode_display_key("auto-mode"), "statusbar-permission-auto");
    assert_eq!(permission_mode_display_key("bypass"), "statusbar-permission-bypass");
    assert_eq!(permission_mode_display_key("unknown"), "statusbar-permission-dont-ask");
}

#[test]
fn test_cwd_basename_simple() {
    assert_eq!(cwd_basename("/Users/foo/project"), "project");
    assert_eq!(cwd_basename("/tmp"), "tmp");
    assert_eq!(cwd_basename("/"), "/");
}

#[test]
fn test_cwd_basename_empty() {
    assert_eq!(cwd_basename(""), "");
}

#[test]
fn test_memory_color_thresholds() {
    assert_eq!(memory_color(100), ResourceLevel::Good);
    assert_eq!(memory_color(512), ResourceLevel::Good);
    assert_eq!(memory_color(513), ResourceLevel::Warn);
    assert_eq!(memory_color(1024), ResourceLevel::Warn);
    assert_eq!(memory_color(1025), ResourceLevel::Bad);
}

#[test]
fn status_model_segment_choices() {
    assert_eq!(model_display("big-model", "sonnet"), "big-model");
    assert_eq!(model_display("", "sonnet"), "sonnet");
    assert!(show_model_segment("anthropic", "", "sonnet"));
    assert!(!show_model_segment("", "big-model", "sonnet"));
    assert!(!show_model_segment("anthropic", "", ""));
    assert_eq!(segment_emphasis(true, true), Emphasis::BoldBlink);
    assert_eq!(segment_emphasis(true, false), Emphasis::Bold);
    assert_eq!(segment_emphasis(false, true), Emphasis::BoldBlink);
    assert_eq!(segment_emphasis(false, false), Emphasis::Plain);
    assert!(highlight_active(Some(10), 5));
    assert!(!highlight_active(Some(5), 5));
    assert!(!highlight_active(None, 5));
}

#[test]
fn status_background_task_summary() {
    let kinds: Vec<String> = vec!["shell".into(), "agent".into(), "shell".into(), "other".into()];
    assert_eq!(bg_task_summary(&kinds), "2 shell 1 agent");
    let wf: Vec<String> = vec!["workflow".into()];
    assert_eq!(bg_task_summary(&wf), "1 workflow");
    assert_eq!(bg_task_summary(&vec![]), "");
}

#[test]
fn status_hint_priorities() {
    assert_eq!(status_hint(100, Some(200), 7, Some(100), true, true, false), StatusHint::Copied(7));
    assert_eq!(status_hint(100, Some(50), 7, Some(99), true, false, false), StatusHint::QuitPending);
    assert_eq!(status_hint(2000, None, 0, Some(500), true, false, false), StatusHint::Popup);
    assert_eq!(status_hint(2000, None, 0, None, false, false, true), StatusHint::Menu);
    assert_eq!(status_hint(2000, None, 0, None, false, false, false), StatusHint::Main);
    assert!(notification_visible("saved", 10, 5));
    assert!(!notification_visible("", 10, 5));
    assert!(!notification_visible("saved", 5, 5));
}
