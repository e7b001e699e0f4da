use peri_tui::keys::{KeyCode, KeyPress};
use peri_tui::wizard::{
    after_migration, browse_on_key, choose_on_key, done_on_key, edit_on_key, language_on_key,
    raw_field_value, wizard_on_key, wizard_on_paste, FormField, FormMode, ProviderKind,
    SetupStep, WizardAction, WizardError, WizardProvider, WizardState,
};

fn key(code: KeyCode) -> KeyPress {
    KeyPress::plain(code)
}

fn provider(id: &str, api_key: &str) -> WizardProvider {
    WizardProvider {
        kind: ProviderKind::Anthropic,
        provider_id: id.to_string(),
        base_url: "https://api.example.com".to_string(),
        api_key: api_key.to_string(),
        opus_model: "opus-x".to_string(),
        sonnet_model: "sonnet-x".to_string(),
        haiku_model: "haiku-x".to_string(),
        selected: false,
    }
}

fn state() -> WizardState {
    WizardState {
        step: SetupStep::Language,
        language_cursor: 0,
        choose_cursor: 0,
        source: 0,
        providers: Vec::new(),
        active_provider: 0,
        browse_cursor: 0,
        form_mode: FormMode::Browse,
        form_focus: FormField::ProviderType,
        edit_cursor_pos: 0,
        submit_error: None,
        connectivity_result: None,
    }
}

#[test]
fn wizard_language_step_wraps_and_picks() {
    let mut st = state();
    assert_eq!(language_on_key(&mut st, key(KeyCode::Up), 3), WizardAction::Nothing);
    assert_eq!(st.language_cursor, 2);
    language_on_key(&mut st, key(KeyCode::Down), 3);
    assert_eq!(st.language_cursor, 0);
    language_on_key(&mut st, key(KeyCode::Down), 3);
    assert_eq!(language_on_key(&mut st, key(KeyCode::Char(' ')), 3), WizardAction::SwitchLanguage(1));
    assert_eq!(st.step, SetupStep::Choose);
    let mut st = state();
    assert_eq!(language_on_key(&mut st, key(KeyCode::Esc), 3), WizardAction::Close);
    assert_eq!(st.step, SetupStep::Language);
}

#[test]
fn wizard_choose_step_fresh_provider_and_migration() {
    let mut st = state();
    st.step = SetupStep::Choose;
    choose_on_key(&mut st, key(KeyCode::Down), 2, 1, provider("", ""));
    assert_eq!((st.choose_cursor, st.source), (1, 1));
    assert_eq!(choose_on_key(&mut st, key(KeyCode::Enter), 2, 1, provider("", "")), WizardAction::Migrate);
    assert_eq!(st.step, SetupStep::Choose);
    after_migration(&mut st, false, 0);
    assert_eq!(st.submit_error, Some(WizardError::MigrationFailed));
    assert_eq!((st.source, st.choose_cursor), (0, 0));
    assert_eq!(choose_on_key(&mut st, key(KeyCode::Enter), 2, 1, provider("fresh", "")), WizardAction::Nothing);
    assert_eq!(st.step, SetupStep::Form);
    assert_eq!(st.form_mode, FormMode::Browse);
    assert_eq!(st.providers.len(), 1);
    assert_eq!(st.providers[0].provider_id, "fresh");
    assert_eq!(st.submit_error, None);

    let mut st = state();
    st.step = SetupStep::Choose;
    st.source = 1;
    choose_on_key(&mut st, key(KeyCode::Char(' ')), 2, 1, provider("", ""));
    after_migration(&mut st, true, 0);
    assert_eq!(st.step, SetupStep::Form);
    assert_eq!(st.form_focus, FormField::ProviderType);
}

#[test]
fn wizard_browse_submit_needs_ready_selection() {
    let mut st = state();
    st.step = SetupStep::Form;
    st.providers = vec![provider("a", "k1"), provider("b", "  ")];
    browse_on_key(&mut st, key(KeyCode::Down));
    browse_on_key(&mut st, key(KeyCode::Char(' ')));
    assert!(st.providers[1].selected);
    browse_on_key(&mut st, key(KeyCode::Down));
    browse_on_key(&mut st, key(KeyCode::Down));
    assert_eq!(st.browse_cursor, 2);
    browse_on_key(&mut st, key(KeyCode::Enter));
    assert_eq!(st.submit_error, Some(WizardError::NoCompleteProvider));
    assert_eq!(st.step, SetupStep::Form);
    browse_on_key(&mut st, key(KeyCode::Up));
    assert_eq!(st.submit_error, None);
    browse_on_key(&mut st, key(KeyCode::Up));
    browse_on_key(&mut st, key(KeyCode::Char(' ')));
    browse_on_key(&mut st, key(KeyCode::Down));
    browse_on_key(&mut st, key(KeyCode::Down));
    browse_on_key(&mut st, key(KeyCode::Enter));
    assert_eq!(st.step, SetupStep::Done);
    assert_eq!(done_on_key(&mut st, key(KeyCode::Esc)), WizardAction::Nothing);
    assert_eq!((st.step, st.form_mode), (SetupStep::Form, FormMode::Browse));
    st.step = SetupStep::Done;
    assert_eq!(done_on_key(&mut st, key(KeyCode::Enter)), WizardAction::SaveAndClose);
}

#[test]
fn wizard_edit_form_text_and_rows() {
    let mut st = state();
    st.step = SetupStep::Form;
    st.providers = vec![provider("ab", "")];
    st.browse_cursor = 0;
    browse_on_key(&mut st, key(KeyCode::Enter));
    assert_eq!(st.form_mode, FormMode::Edit);
    assert_eq!(st.form_focus, FormField::ProviderType);
    edit_on_key(&mut st, key(KeyCode::Right));
    assert_eq!(st.providers[0].kind, ProviderKind::OpenAi);
    edit_on_key(&mut st, key(KeyCode::Char(' ')));
    assert_eq!(st.providers[0].kind, ProviderKind::Anthropic);
    edit_on_key(&mut st, key(KeyCode::Down));
    assert_eq!(st.form_focus, FormField::ProviderId);
    assert_eq!(st.edit_cursor_pos, 2);
    edit_on_key(&mut st, key(KeyCode::Char('c')));
    assert_eq!(st.providers[0].provider_id, "abc");
    edit_on_key(&mut st, key(KeyCode::Home));
    edit_on_key(&mut st, key(KeyCode::Delete));
    assert_eq!(raw_field_value(&st), "bc");
    edit_on_key(&mut st, key(KeyCode::Up));
    edit_on_key(&mut st, key(KeyCode::Up));
    assert_eq!(st.form_focus, FormField::Confirm);
    edit_on_key(&mut st, key(KeyCode::Enter));
    assert_eq!(st.form_mode, FormMode::Edit);
    for _ in 0..4 {
        edit_on_key(&mut st, key(KeyCode::Down));
    }
    assert_eq!(st.form_focus, FormField::TestConnectivity);
    assert_eq!(edit_on_key(&mut st, key(KeyCode::Enter)), WizardAction::TestConnectivity);
    edit_on_key(&mut st, key(KeyCode::Down));
    assert!(wizard_on_paste(&mut st, "sk-\r\n1"));
    assert_eq!(st.providers[0].api_key, "sk-\n1");
    for _ in 0..4 {
        edit_on_key(&mut st, key(KeyCode::Down));
    }
    assert_eq!(st.form_focus, FormField::Confirm);
    assert_eq!(wizard_on_key(&mut st, key(KeyCode::Enter), 2, 2, 1, provider("", "")), WizardAction::Nothing);
    assert_eq!(st.form_mode, FormMode::Browse);
    assert!(!wizard_on_paste(&mut st, "x"));
}
