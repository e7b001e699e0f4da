use peri_tui::config::{ApiProtocol, PeriConfig, ProviderConfig};
use peri_tui::keys::{KeyCode, KeyPress};
use peri_tui::login::{
    activate_listed_provider, activate_provider, activated_model_name, apply_login_edit, delete_provider,
    commit_login_save, login_panel_handle_key, prepare_login_save,
    login_panel_on_key, login_panel_on_paste, openai_provider_config, LoginAction,
    LoginEditField, LoginEditState, LoginPanelMode, LoginPanelState,
};
use peri_tui::snapshot::ProviderSummary;

#[test]
fn login_edit_state_reads_api_protocol_from_config() {
    let state = LoginEditState::from_provider_config(&openai_provider_config(Some(ApiProtocol::Responses)));
    assert_eq!(state.api, ApiProtocol::Responses);
    assert_eq!(state.effective_api(), Some(ApiProtocol::Responses));

    let state = LoginEditState::from_provider_config(&openai_provider_config(None));
    assert_eq!(state.api, ApiProtocol::ChatCompletions);
    assert_eq!(state.effective_api(), Some(ApiProtocol::ChatCompletions));
}

#[test]
fn login_api_cycle_only_applies_to_openai() {
    let mut state = LoginEditState::from_provider_config(&openai_provider_config(None));
    state.cycle_api_protocol();
    assert_eq!(state.api, ApiProtocol::Responses);
    state.cycle_api_protocol();
    assert_eq!(state.api, ApiProtocol::ChatCompletions);

    let mut anthropic = LoginEditState::from_provider_config(&ProviderConfig {
        provider_type: "anthropic".into(),
        ..openai_provider_config(None)
    });
    anthropic.cycle_api_protocol();
    assert_eq!(anthropic.api, ApiProtocol::ChatCompletions, "anthropic keeps chat completions");
}

#[test]
fn login_edit_clears_api_when_switching_to_anthropic() {
    let mut state = LoginEditState::from_provider_config(&openai_provider_config(Some(ApiProtocol::Responses)));
    state.toggle_provider_type();
    assert_eq!(state.provider_type, "anthropic");
    assert_eq!(state.api, ApiProtocol::ChatCompletions);
    assert_eq!(state.effective_api(), None);

    state.api = ApiProtocol::Responses;
    let mut cfg = PeriConfig::default();
    cfg.config.providers.push(openai_provider_config(Some(ApiProtocol::Responses)));
    assert!(apply_login_edit(&mut cfg, &state));
    assert_eq!(cfg.config.providers[0].api, None, "anthropic provider carries no api");
}

#[test]
fn login_edit_preserves_other_providers_protocol() {
    let mut cfg = PeriConfig::default();
    cfg.config.active_alias = "opus".into();
    cfg.config.providers.push(openai_provider_config(Some(ApiProtocol::Responses)));
    cfg.config.providers.push(ProviderConfig {
        id: "p2".into(),
        provider_type: "openai".into(),
        api_key: "sk-test-2".into(),
        base_url: "https://api.example.com/v1".into(),
        api: Some(ApiProtocol::ChatCompletions),
        ..Default::default()
    });

    let mut state = LoginEditState::from_provider_config(&openai_provider_config(Some(ApiProtocol::Responses)));
    state.api = ApiProtocol::ChatCompletions;
    assert!(apply_login_edit(&mut cfg, &state));
    assert_eq!(cfg.config.providers[0].api, Some(ApiProtocol::ChatCompletions));
    assert_eq!(cfg.config.providers[1].api, Some(ApiProtocol::ChatCompletions), "other provider unchanged");
}

#[test]
fn login_new_provider_is_appended_and_activated() {
    let mut cfg = PeriConfig::default();
    cfg.config.active_alias = "opus".into();
    let mut state = LoginEditState::default_empty();
    state.provider_type = "openai".into();
    state.provider_id = "p1".into();
    state.opus_model = "gpt-5.6".into();
    state.api = ApiProtocol::Responses;
    assert!(apply_login_edit(&mut cfg, &state));
    assert_eq!(cfg.config.providers.len(), 1);
    assert_eq!(cfg.config.providers[0].api, Some(ApiProtocol::Responses));
    assert_eq!(cfg.config.providers[0].models.opus, "gpt-5.6");
    assert_eq!(cfg.config.profiles.opus.provider, "p1");
    let reopened = LoginEditState::from_provider_config(&cfg.config.providers[0]);
    assert_eq!(reopened.api, ApiProtocol::Responses);
    assert_eq!(reopened.effective_api(), Some(ApiProtocol::Responses));
}

#[test]
fn login_new_provider_with_blank_id_is_refused() {
    let mut cfg = PeriConfig::default();
    let mut state = LoginEditState::default_empty();
    state.provider_id = "   ".into();
    assert!(!apply_login_edit(&mut cfg, &state));
    assert!(cfg.config.providers.is_empty());
}

#[test]
fn login_renaming_active_provider_follows() {
    let mut cfg = PeriConfig::default();
    cfg.config.active_alias = "sonnet".into();
    cfg.config.profiles.sonnet.provider = "p1".into();
    cfg.config.providers.push(openai_provider_config(None));
    let mut state = LoginEditState::from_provider_config(&cfg.config.providers[0]);
    state.provider_id = "renamed".into();
    assert!(apply_login_edit(&mut cfg, &state));
    assert_eq!(cfg.config.providers[0].id, "renamed");
    assert_eq!(cfg.config.profiles.sonnet.provider, "renamed");
}

#[test]
fn login_delete_and_activate() {
    let mut cfg = PeriConfig::default();
    cfg.config.active_alias = "haiku".into();
    cfg.config.profiles.haiku.model = Some("m".into());
    cfg.config.providers.push(openai_provider_config(None));
    cfg.config.providers.push(ProviderConfig { id: "p2".into(), ..Default::default() });
    cfg.config.providers[1].models.haiku = "small".into();
    activate_provider(&mut cfg, "p2");
    assert_eq!(cfg.config.profiles.haiku.provider, "p2");
    assert_eq!(cfg.config.profiles.haiku.model, None);
    assert_eq!(activated_model_name(&cfg.config, "p2"), "small");
    assert_eq!(activated_model_name(&cfg.config, "p1"), "haiku");
    assert!(delete_provider(&mut cfg, "p1"));
    assert!(!delete_provider(&mut cfg, "p1"));
    assert_eq!(cfg.config.providers.len(), 1);
}

#[test]
fn login_field_order_wraps() {
    let mut f = LoginEditField::ProviderType;
    for _ in 0..7 {
        f = f.next();
    }
    assert_eq!(f, LoginEditField::ProviderType);
    assert_eq!(LoginEditField::ProviderType.prev(), LoginEditField::HaikuModel);
    assert_eq!(LoginEditField::ApiKey.i18n_key(), "login-field-api-key");
}

fn summary(id: &str) -> ProviderSummary {
    ProviderSummary { id: id.into(), provider_type: "openai".into(), is_active: false, has_api_key: true, base_url: None }
}

#[test]
fn login_panel_edit_flow() {
    let mut cfg = PeriConfig::default();
    cfg.config.providers.push(openai_provider_config(None));
    let providers = vec![summary("p1")];
    let mut st = LoginPanelState {
        mode: LoginPanelMode::Browse,
        cursor: 0,
        edit_state: None,
        edit_focus: LoginEditField::ProviderType,
        edit_cursor: 0,
    };
    login_panel_on_key(&mut st, &cfg, &providers, KeyPress::plain(KeyCode::Char('e')));
    assert_eq!(st.mode, LoginPanelMode::Edit);
    login_panel_on_key(&mut st, &cfg, &providers, KeyPress::plain(KeyCode::Down));
    assert_eq!(st.edit_focus, LoginEditField::ProviderId);
    assert_eq!(st.edit_cursor, 2);
    login_panel_on_key(&mut st, &cfg, &providers, KeyPress::plain(KeyCode::Char('x')));
    login_panel_on_paste(&mut st, "y\r\nz");
    assert_eq!(st.edit_state.as_ref().unwrap().provider_id, "p1xy\nz");
    match login_panel_on_key(&mut st, &cfg, &providers, KeyPress::with_ctrl(KeyCode::Char('s'))) {
        LoginAction::Save(es) => assert_eq!(es.provider_id, "p1xy\nz"),
        other => panic!("expected Save, got {:?}", other),
    }
    assert_eq!(st.mode, LoginPanelMode::Browse);
    assert!(st.edit_state.is_none());
    login_panel_on_key(&mut st, &cfg, &providers, KeyPress::with_ctrl(KeyCode::Char('d')));
    assert_eq!(st.mode, LoginPanelMode::ConfirmDelete);
    assert!(matches!(login_panel_on_key(&mut st, &cfg, &providers, KeyPress::plain(KeyCode::Enter)), LoginAction::Delete(0)));
    assert!(matches!(login_panel_on_key(&mut st, &cfg, &providers, KeyPress::plain(KeyCode::Enter)), LoginAction::Activate(0)));
}

#[test]
fn login_provider_type_label_keys() {
    assert_eq!(peri_tui::login::provider_type_label("anthropic"), "setup-provider-anthropic");
    assert_eq!(peri_tui::login::provider_type_label("openai"), "setup-provider-openai");
    assert_eq!(peri_tui::login::provider_type_label("other"), "setup-provider-openai");
}

#[test]
fn login_enter_activates_listed_provider() {
    let mut cfg = PeriConfig::default();
    cfg.config.active_alias = "haiku".into();
    cfg.config.profiles.haiku.provider = "p1".into();
    cfg.config.profiles.haiku.model = Some("m".into());
    cfg.config.providers.push(openai_provider_config(None));
    cfg.config.providers.push(ProviderConfig { id: "p2".into(), provider_type: "anthropic".into(), ..Default::default() });
    cfg.config.providers[1].models.haiku = "small".into();
    let mut providers = vec![summary("p1"), summary("p2")];
    providers[0].is_active = true;
    providers[1].provider_type = "anthropic".into();
    let mut st = LoginPanelState {
        mode: LoginPanelMode::Browse,
        cursor: 1,
        edit_state: None,
        edit_focus: LoginEditField::ProviderType,
        edit_cursor: 0,
    };
    let (action, snap) = login_panel_handle_key(&mut st, &mut cfg, &mut providers, KeyPress::plain(KeyCode::Enter));
    assert!(matches!(action, LoginAction::Close));
    let snap = snap.expect("a provider was activated");
    assert_eq!(snap.provider_name, "anthropic");
    assert_eq!(snap.model_name, "small");
    assert_eq!(cfg.config.profiles.haiku.provider, "p2");
    assert_eq!(cfg.config.profiles.haiku.model, None);
    assert!(!providers[0].is_active);
    assert!(providers[1].is_active);
    assert_eq!(providers[0].id, "p1");
    assert!(providers[1].has_api_key);

    // Past the end of the list the panel only closes.
    st.cursor = 5;
    let (action, snap) = login_panel_handle_key(&mut st, &mut cfg, &mut providers, KeyPress::plain(KeyCode::Enter));
    assert!(matches!(action, LoginAction::Close));
    assert!(snap.is_none());
    assert_eq!(cfg.config.profiles.haiku.provider, "p2");

    // Other keys pass through untouched.
    let (action, snap) = login_panel_handle_key(&mut st, &mut cfg, &mut providers, KeyPress::plain(KeyCode::Up));
    assert!(matches!(action, LoginAction::Consumed));
    assert!(snap.is_none());
    assert_eq!(st.cursor, 4);
}

#[test]
fn login_activation_falls_back_to_alias() {
    let mut cfg = PeriConfig::default();
    cfg.config.active_alias = "opus".into();
    cfg.config.providers.push(openai_provider_config(None));
    let mut providers = vec![summary("p1")];
    let snap = activate_listed_provider(&mut cfg, &mut providers, 0).unwrap();
    assert_eq!(snap.model_name, "opus");
    assert_eq!(snap.provider_name, "openai");
    assert!(providers[0].is_active);
    assert!(activate_listed_provider(&mut cfg, &mut providers, 1).is_none());
}

#[test]
fn login_save_publishes_only_after_persist() {
    let mut cfg = PeriConfig::default();
    cfg.config.active_alias = "sonnet".into();
    cfg.config.providers.push(openai_provider_config(None));
    let mut form = LoginEditState::default_empty();
    form.provider_id = "fresh".into();
    let snap = prepare_login_save(&cfg, &form).expect("a named provider can be saved");
    // The settings themselves are untouched until the save is committed.
    assert_eq!(cfg.config.providers.len(), 1);
    assert_eq!(snap.config.providers.len(), 2);
    assert_eq!(snap.config.providers[1].id, "fresh");
    assert_eq!(snap.config.profiles.sonnet.provider, "fresh");

    // A failed write leaves everything as it was.
    assert!(!commit_login_save(&mut cfg, snap.clone_config(), false));
    assert_eq!(cfg.config.providers.len(), 1);
    assert_ne!(cfg.config.profiles.sonnet.provider, "fresh");

    assert!(commit_login_save(&mut cfg, snap, true));
    assert_eq!(cfg.config.providers.len(), 2);
    assert_eq!(cfg.config.profiles.sonnet.provider, "fresh");

    // A new provider without a name is refused.
    let mut blank = LoginEditState::default_empty();
    blank.provider_id = "   ".into();
    assert!(prepare_login_save(&cfg, &blank).is_none());
}
