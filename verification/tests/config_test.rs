use peri_tui::config::{persisted_theme_name, set_theme, PeriConfig, PermissionMode};
use peri_tui::config_panel::{
    activate_row, apply_cycle_row, apply_toggle_row, config_panel_on_key, parse_permission_mode,
    permission_mode_label, read_cycle_idx, read_toggle, ConfigKeyOutcome, RowEffect,
    ROW_1M_CONTEXT, ROW_ACTIVE_ALIAS, ROW_CACHE_WARN, ROW_LANGUAGE, ROW_PERMISSION_MODE,
    ROW_SHOW_DIFF, ROW_STREAMING,
};
use peri_tui::keys::{KeyCode, KeyPress};

const PERMISSION_OPTS: [&str; 4] = ["default", "accept-edit", "auto-mode", "bypass"];

#[test]
fn test_apply_toggle_row_show_diff_flips() {
    let mut cfg = PeriConfig::default();
    assert!(!cfg.config.diff_enabled);
    let new = apply_toggle_row(&mut cfg, ROW_SHOW_DIFF);
    assert_eq!(new, Some(true));
    assert!(cfg.config.diff_enabled);
    let new = apply_toggle_row(&mut cfg, ROW_SHOW_DIFF);
    assert_eq!(new, Some(false));
    assert!(!cfg.config.diff_enabled);
}

#[test]
fn test_apply_toggle_row_cache_warn_flips() {
    let mut cfg = PeriConfig::default();
    let initial = cfg.config.show_cache_warning;
    let new = apply_toggle_row(&mut cfg, ROW_CACHE_WARN);
    assert_eq!(new, Some(!initial));
    assert_eq!(cfg.config.show_cache_warning, !initial);
}

#[test]
fn test_apply_toggle_row_1m_context_handles_none_initial() {
    let mut cfg = PeriConfig::default();
    assert_eq!(cfg.config.context_1m, None);
    let new = apply_toggle_row(&mut cfg, ROW_1M_CONTEXT);
    assert_eq!(new, Some(true));
    assert_eq!(cfg.config.context_1m, Some(true));
    let new = apply_toggle_row(&mut cfg, ROW_1M_CONTEXT);
    assert_eq!(new, Some(false));
    assert_eq!(cfg.config.context_1m, Some(false));
}

#[test]
fn test_apply_toggle_row_invalid_returns_none() {
    let mut cfg = PeriConfig::default();
    assert_eq!(apply_toggle_row(&mut cfg, ROW_STREAMING), None);
    assert_eq!(apply_toggle_row(&mut cfg, 99), None);
}

#[test]
fn test_apply_cycle_row_streaming_forward_wraps() {
    let mut cfg = PeriConfig::default();
    cfg.config.streaming_mode = Some("none".into());
    let next = apply_cycle_row(&mut cfg, ROW_STREAMING, true);
    assert_eq!(next, Some(0));
    assert_eq!(cfg.config.streaming_mode.as_deref(), Some("streaming"));
}

#[test]
fn test_apply_cycle_row_alias_backward() {
    let mut cfg = PeriConfig::default();
    cfg.config.active_alias = "opus".into();
    let prev = apply_cycle_row(&mut cfg, ROW_ACTIVE_ALIAS, false);
    assert_eq!(prev, Some(2));
    assert_eq!(cfg.config.active_alias, "haiku");
}

#[test]
fn test_apply_cycle_row_language_forward_from_unknown_resets() {
    let mut cfg = PeriConfig::default();
    cfg.config.language = Some("fr".into());
    let next = apply_cycle_row(&mut cfg, ROW_LANGUAGE, true);
    assert_eq!(next, Some(1));
    assert_eq!(cfg.config.language.as_deref(), Some("zh"));
}

#[test]
fn test_apply_cycle_row_invalid_returns_none() {
    let mut cfg = PeriConfig::default();
    assert_eq!(apply_cycle_row(&mut cfg, ROW_SHOW_DIFF, true), None);
    assert_eq!(apply_cycle_row(&mut cfg, 99, true), None);
}

#[test]
fn test_parse_permission_mode_roundtrip() {
    for opt in PERMISSION_OPTS {
        let mode = parse_permission_mode(opt);
        assert!(mode.is_some(), "{} should parse", opt);
        let label = permission_mode_label(mode.unwrap());
        assert_eq!(label, opt, "label should equal the original text");
    }
}

#[test]
fn test_parse_permission_mode_invalid() {
    assert!(parse_permission_mode("invalid").is_none());
    assert!(parse_permission_mode("").is_none());
}

#[test]
fn cycle_forward_then_back_restores_streaming() {
    let mut cfg = PeriConfig::default();
    cfg.config.streaming_mode = Some("block".into());
    apply_cycle_row(&mut cfg, ROW_STREAMING, true);
    assert_eq!(cfg.config.streaming_mode.as_deref(), Some("none"));
    apply_cycle_row(&mut cfg, ROW_STREAMING, false);
    assert_eq!(cfg.config.streaming_mode.as_deref(), Some("block"));
}

#[test]
fn permission_row_does_not_touch_settings() {
    let mut cfg = PeriConfig::default();
    assert_eq!(apply_cycle_row(&mut cfg, ROW_PERMISSION_MODE, true), Some(1));
    assert_eq!(cfg.config.streaming_mode, None);
    assert_eq!(cfg.config.active_alias, "");
}

#[test]
fn shown_values_and_defaults() {
    let cfg = PeriConfig::default();
    assert!(!read_toggle(Some(&cfg), ROW_SHOW_DIFF));
    assert!(!read_toggle(None, ROW_SHOW_DIFF));
    assert_eq!(read_cycle_idx(Some(&cfg), None, ROW_STREAMING), 0);
    assert_eq!(read_cycle_idx(Some(&cfg), None, ROW_LANGUAGE), 0);
    assert_eq!(read_cycle_idx(Some(&cfg), None, ROW_ACTIVE_ALIAS), 1);
    assert_eq!(read_cycle_idx(Some(&cfg), Some(PermissionMode::Bypass), ROW_PERMISSION_MODE), 3);
}

#[test]
fn activate_permission_row_changes_mode_only() {
    let mut cfg = PeriConfig::default();
    let mut mode = PermissionMode::AutoMode;
    assert_eq!(activate_row(&mut cfg, &mut mode, ROW_PERMISSION_MODE, true), RowEffect::ModeChanged);
    assert_eq!(mode, PermissionMode::Bypass);
    assert_eq!(activate_row(&mut cfg, &mut mode, ROW_ACTIVE_ALIAS, true), RowEffect::SaveSettings);
    assert_eq!(cfg.config.active_alias, "haiku");
    assert_eq!(activate_row(&mut cfg, &mut mode, 42, true), RowEffect::Nothing);
}

#[test]
fn config_keys_move_and_activate() {
    let mut cfg = PeriConfig::default();
    let mut mode = PermissionMode::Default;
    let mut cursor = 0usize;
    assert_eq!(
        config_panel_on_key(&mut cursor, &mut cfg, &mut mode, KeyPress::plain(KeyCode::Enter)),
        ConfigKeyOutcome::Applied(RowEffect::SaveSettings)
    );
    assert!(cfg.config.diff_enabled);
    config_panel_on_key(&mut cursor, &mut cfg, &mut mode, KeyPress::plain(KeyCode::Up));
    assert_eq!(cursor, 0);
    for _ in 0..10 {
        config_panel_on_key(&mut cursor, &mut cfg, &mut mode, KeyPress::plain(KeyCode::Down));
    }
    assert_eq!(cursor, 6);
    assert_eq!(
        config_panel_on_key(&mut cursor, &mut cfg, &mut mode, KeyPress::plain(KeyCode::Esc)),
        ConfigKeyOutcome::Close
    );
}

#[test]
fn config_theme_default_and_choice() {
    let mut cfg = PeriConfig::default();
    assert_eq!(persisted_theme_name(&cfg), "peri-dark");
    set_theme(&mut cfg, "solarized");
    assert_eq!(persisted_theme_name(&cfg), "solarized");
}
