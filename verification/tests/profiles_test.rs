use peri_tui::config::{AppConfig, ProviderConfig, ProviderModels};
use peri_tui::keys::KeyCode;
use peri_tui::profiles::{
    edit_field, model_panel_on_key, resolve_model_name_for_alias, switch_active_alias,
    ModelKeyOutcome, ModelPanelState, FIELD_CONTEXT_1M, FIELD_EFFORT, FIELD_MAX_TOKENS,
    FIELD_MODEL, FIELD_PROVIDER,
};

fn cfg_two_providers() -> AppConfig {
    let mut c = AppConfig::default();
    c.active_alias = "opus".into();
    c.providers = vec![
        ProviderConfig {
            id: "a".into(),
            provider_type: "anthropic".into(),
            models: ProviderModels { opus: "a-opus".into(), sonnet: "a-sonnet".into(), ..Default::default() },
            ..Default::default()
        },
        ProviderConfig {
            id: "b".into(),
            provider_type: "openai".into(),
            models: ProviderModels { opus: "b-opus".into(), haiku: "b-opus".into(), fable: "b-fable".into(), ..Default::default() },
            ..Default::default()
        },
    ];
    c
}

#[test]
fn resolve_model_prefers_profile_then_mapping_then_alias() {
    let mut c = cfg_two_providers();
    assert_eq!(resolve_model_name_for_alias(&c, "opus"), "a-opus");
    assert_eq!(resolve_model_name_for_alias(&c, "haiku"), "haiku");
    assert_eq!(resolve_model_name_for_alias(&c, "fable"), "a-opus");
    c.profiles.opus.model = Some("mine".into());
    assert_eq!(resolve_model_name_for_alias(&c, "opus"), "mine");
    assert_eq!(resolve_model_name_for_alias(&c, "unknown"), "unknown");
}

#[test]
fn edit_provider_field_takes_mapping() {
    let mut c = cfg_two_providers();
    assert!(edit_field(&mut c, "opus", FIELD_PROVIDER, true));
    assert_eq!(c.profiles.opus.provider, "b");
    assert_eq!(c.profiles.opus.model.as_deref(), Some("b-opus"));
    assert!(edit_field(&mut c, "opus", FIELD_PROVIDER, true));
    assert_eq!(c.profiles.opus.provider, "a");
}

#[test]
fn edit_model_field_cycles_unique_models() {
    let mut c = cfg_two_providers();
    c.profiles.opus.provider = "b".into();
    assert!(edit_field(&mut c, "opus", FIELD_MODEL, true));
    assert_eq!(c.profiles.opus.model.as_deref(), Some("b-fable"));
    assert!(edit_field(&mut c, "opus", FIELD_MODEL, true));
    assert_eq!(c.profiles.opus.model.as_deref(), Some("b-opus"));
    c.profiles.opus.provider = "missing".into();
    assert!(!edit_field(&mut c, "opus", FIELD_MODEL, true));
}

#[test]
fn edit_effort_tokens_and_window() {
    let mut c = cfg_two_providers();
    assert!(edit_field(&mut c, "sonnet", FIELD_EFFORT, true));
    assert_eq!(c.profiles.sonnet.effort, "medium");
    assert!(edit_field(&mut c, "sonnet", FIELD_EFFORT, false));
    assert_eq!(c.profiles.sonnet.effort, "low");
    assert!(edit_field(&mut c, "sonnet", FIELD_MAX_TOKENS, true));
    assert_eq!(c.profiles.sonnet.max_tokens, 64000);
    assert!(edit_field(&mut c, "sonnet", FIELD_MAX_TOKENS, true));
    assert_eq!(c.profiles.sonnet.max_tokens, 4096);
    assert!(edit_field(&mut c, "sonnet", FIELD_CONTEXT_1M, true));
    assert!(c.profiles.sonnet.context_1m);
    assert!(!edit_field(&mut c, "sonnet", 9, true));
}

#[test]
fn model_panel_keys_switch_profiles() {
    let mut c = cfg_two_providers();
    let mut st = ModelPanelState { cursor: 0, right_cursor: 0, right_focus: false };
    assert_eq!(model_panel_on_key(&mut st, &mut c, "opus", KeyCode::Down), ModelKeyOutcome::Save);
    assert_eq!(c.active_alias, "opus");
    assert_eq!(model_panel_on_key(&mut st, &mut c, "opus", KeyCode::Down), ModelKeyOutcome::Save);
    assert_eq!(c.active_alias, "sonnet");
    assert_eq!(model_panel_on_key(&mut st, &mut c, "opus", KeyCode::Esc), ModelKeyOutcome::Ignored);
    model_panel_on_key(&mut st, &mut c, "sonnet", KeyCode::Right);
    assert!(st.right_focus);
    assert!(switch_active_alias(&mut c, 0));
    assert_eq!(c.active_alias, "fable");
    assert!(!switch_active_alias(&mut c, 4));
}
