use peri_tui::keys::{KeyCode, KeyPress};
use peri_tui::marketplace::{MsEntry, MsStatus};
use peri_tui::plugin::{DiscoverItem, PluginSearchState, PluginViewTab, SearchState};
use peri_tui::plugin_panel::{plugin_list_on_click, plugin_panel_on_click, 
    plugin_id_of, plugin_panel_on_key, InstallScope, PluginCommand, PluginPanelState, PluginSummary,
};
use peri_tui::textarea::TextAreaState;

fn key(code: KeyCode) -> KeyPress {
    KeyPress::plain(code)
}

fn panel(tab: PluginViewTab) -> PluginPanelState {
    PluginPanelState {
        selected: 0,
        action_index: 0,
        marketplace_refreshing: false,
        search: PluginSearchState {
            active_tab: tab,
            search_text: TextAreaState::new(),
            search_focus: false,
            search_state: SearchState::Idle,
            discover_cursor: 0,
            discover_filtered: Vec::new(),
            discover_detail_idx: None,
            discover_detail_action: 0,
            detail_plugin_idx: None,
            marketplace_detail: None,
            marketplace_detail_action: 0,
            confirm_action: None,
            operation_loading: None,
            add_marketplace_input: TextAreaState::new(),
            add_marketplace_active: false,
        },
    }
}

fn installed() -> Vec<PluginSummary> {
    vec![
        PluginSummary { name: "fmt".into(), marketplace: "tools".into(), enabled: true, install_scope: "user".into() },
        PluginSummary { name: "local".into(), marketplace: "".into(), enabled: false, install_scope: "project".into() },
    ]
}

fn discover() -> Vec<DiscoverItem> {
    vec![DiscoverItem {
        name: "lint".into(),
        version: "1".into(),
        marketplace: "tools".into(),
        description: String::new(),
        author: None,
    }]
}

fn markets() -> Vec<MsEntry> {
    vec![MsEntry {
        name: "tools".into(),
        source_label: "github:org/tools".into(),
        plugin_count: 3,
        installed_count: 1,
        status: MsStatus::Cached,
        last_updated: None,
        auto_update: false,
    }]
}

#[test]
fn plugin_panel_ids() {
    let ps = installed();
    assert_eq!(plugin_id_of(&ps[0]), "fmt@tools");
    assert_eq!(plugin_id_of(&ps[1]), "local");
}

#[test]
fn plugin_panel_tabs_and_lists() {
    let (ins, dis, ms) = (installed(), discover(), markets());
    let mut st = panel(PluginViewTab::Installed);
    plugin_panel_on_key(&mut st, &ins, &dis, &ms, key(KeyCode::Down));
    plugin_panel_on_key(&mut st, &ins, &dis, &ms, key(KeyCode::Down));
    assert_eq!(st.selected, 1);
    plugin_panel_on_key(&mut st, &ins, &dis, &ms, key(KeyCode::Right));
    assert_eq!(st.search.active_tab, PluginViewTab::Discover);
    assert_eq!(st.selected, 0);
    plugin_panel_on_key(&mut st, &ins, &dis, &ms, key(KeyCode::Down));
    assert_eq!(st.search.discover_cursor, 0);
    plugin_panel_on_key(&mut st, &ins, &dis, &ms, key(KeyCode::Tab));
    assert_eq!(st.search.active_tab, PluginViewTab::Marketplaces);
    plugin_panel_on_key(&mut st, &ins, &dis, &ms, key(KeyCode::Down));
    plugin_panel_on_key(&mut st, &ins, &dis, &ms, key(KeyCode::Down));
    assert_eq!(st.selected, 1);
    plugin_panel_on_key(&mut st, &ins, &dis, &ms, key(KeyCode::BackTab));
    assert_eq!(st.search.active_tab, PluginViewTab::Discover);
    plugin_panel_on_key(&mut st, &ins, &dis, &ms, key(KeyCode::Left));
    plugin_panel_on_key(&mut st, &ins, &dis, &ms, key(KeyCode::Left));
    assert_eq!(st.search.active_tab, PluginViewTab::Errors);
    plugin_panel_on_key(&mut st, &ins, &dis, &ms, key(KeyCode::Enter));
    assert_eq!(st.search.active_tab, PluginViewTab::Installed);
}

#[test]
fn plugin_panel_installed_actions() {
    let (ins, dis, ms) = (installed(), discover(), markets());
    let mut st = panel(PluginViewTab::Installed);
    assert!(plugin_panel_on_key(&mut st, &ins, &dis, &ms, key(KeyCode::Enter)).is_none());
    assert_eq!(st.search.detail_plugin_idx, Some(0));
    match plugin_panel_on_key(&mut st, &ins, &dis, &ms, key(KeyCode::Enter)) {
        Some(PluginCommand::Toggle { plugin_id, enable, scope }) => {
            assert_eq!(plugin_id, "fmt@tools");
            assert!(!enable);
            assert_eq!(scope, "user");
        }
        other => panic!("unexpected {:?}", other),
    }
    assert_eq!(st.search.operation_loading.as_deref(), Some("disable"));
    assert_eq!(st.search.detail_plugin_idx, None);
    assert!(matches!(
        plugin_panel_on_key(&mut st, &ins, &dis, &ms, key(KeyCode::Char('x'))),
        Some(PluginCommand::RefreshDiscoverCache)
    ));
    assert_eq!(st.search.operation_loading, None);
    st.selected = 1;
    plugin_panel_on_key(&mut st, &ins, &dis, &ms, key(KeyCode::Enter));
    plugin_panel_on_key(&mut st, &ins, &dis, &ms, key(KeyCode::Up));
    assert_eq!(st.action_index, 3);
    plugin_panel_on_key(&mut st, &ins, &dis, &ms, key(KeyCode::Down));
    assert_eq!(st.action_index, 0);
    plugin_panel_on_key(&mut st, &ins, &dis, &ms, key(KeyCode::Down));
    plugin_panel_on_key(&mut st, &ins, &dis, &ms, key(KeyCode::Enter));
    assert_eq!(st.search.confirm_action.as_deref(), Some("uninstall"));
    match plugin_panel_on_key(&mut st, &ins, &dis, &ms, key(KeyCode::Enter)) {
        Some(PluginCommand::Uninstall { plugin_id }) => assert_eq!(plugin_id, "local"),
        other => panic!("unexpected {:?}", other),
    }
    assert_eq!(st.search.confirm_action, None);
    assert_eq!(st.search.detail_plugin_idx, None);
    st.search.detail_plugin_idx = Some(0);
    st.action_index = 2;
    match plugin_panel_on_key(&mut st, &ins, &dis, &ms, key(KeyCode::Enter)) {
        Some(PluginCommand::Update { plugin_id }) => assert_eq!(plugin_id, "fmt@tools"),
        other => panic!("unexpected {:?}", other),
    }
    st.search.operation_loading = None;
    st.search.detail_plugin_idx = Some(0);
    st.action_index = 1;
    plugin_panel_on_key(&mut st, &ins, &dis, &ms, key(KeyCode::Enter));
    assert!(plugin_panel_on_key(&mut st, &ins, &dis, &ms, key(KeyCode::Esc)).is_none());
    assert_eq!(st.search.confirm_action, None);
    assert_eq!(st.search.detail_plugin_idx, Some(0));
    st.action_index = 3;
    plugin_panel_on_key(&mut st, &ins, &dis, &ms, key(KeyCode::Enter));
    assert_eq!(st.search.detail_plugin_idx, None);
}

#[test]
fn plugin_panel_discover_detail_installs() {
    let (ins, dis, ms) = (installed(), discover(), markets());
    let mut st = panel(PluginViewTab::Discover);
    st.search.discover_detail_idx = Some(0);
    plugin_panel_on_key(&mut st, &ins, &dis, &ms, key(KeyCode::Down));
    plugin_panel_on_key(&mut st, &ins, &dis, &ms, key(KeyCode::Down));
    plugin_panel_on_key(&mut st, &ins, &dis, &ms, key(KeyCode::Down));
    assert_eq!(st.search.discover_detail_action, 2);
    plugin_panel_on_key(&mut st, &ins, &dis, &ms, key(KeyCode::Up));
    match plugin_panel_on_key(&mut st, &ins, &dis, &ms, key(KeyCode::Enter)) {
        Some(PluginCommand::Install { name, marketplace, scope }) => {
            assert_eq!(name, "lint");
            assert_eq!(marketplace, "tools");
            assert_eq!(scope, InstallScope::Project);
        }
        other => panic!("unexpected {:?}", other),
    }
    assert_eq!(st.search.discover_detail_idx, None);
    assert_eq!(st.search.operation_loading.as_deref(), Some("install"));
    st.search.operation_loading = None;
    st.search.discover_detail_idx = Some(0);
    st.selected = 4;
    plugin_panel_on_key(&mut st, &ins, &dis, &ms, key(KeyCode::Tab));
    assert_eq!(st.search.discover_detail_idx, None);
    assert_eq!(st.search.active_tab, PluginViewTab::Marketplaces);
    assert_eq!(st.selected, 0);
}

#[test]
fn plugin_panel_marketplace_detail_and_add() {
    let (ins, dis, ms) = (installed(), discover(), markets());
    let mut st = panel(PluginViewTab::Marketplaces);
    plugin_panel_on_key(&mut st, &ins, &dis, &ms, key(KeyCode::Enter));
    assert!(st.search.add_marketplace_active);
    st.search.add_marketplace_active = false;
    st.selected = 1;
    plugin_panel_on_key(&mut st, &ins, &dis, &ms, key(KeyCode::Enter));
    assert_eq!(st.search.marketplace_detail, Some(1));
    match plugin_panel_on_key(&mut st, &ins, &dis, &ms, key(KeyCode::Enter)) {
        Some(PluginCommand::RefreshMarketplace { source }) => assert_eq!(source, "github:org/tools"),
        other => panic!("unexpected {:?}", other),
    }
    assert!(st.marketplace_refreshing);
    assert_eq!(st.search.marketplace_detail, None);
    plugin_panel_on_key(&mut st, &ins, &dis, &ms, key(KeyCode::Enter));
    plugin_panel_on_key(&mut st, &ins, &dis, &ms, key(KeyCode::Down));
    assert!(plugin_panel_on_key(&mut st, &ins, &dis, &ms, key(KeyCode::Enter)).is_none());
    assert_eq!(st.search.confirm_action.as_deref(), Some("delete_marketplace"));
    assert_eq!(st.search.operation_loading.as_deref(), Some("tools"));
    match plugin_panel_on_key(&mut st, &ins, &dis, &ms, key(KeyCode::Enter)) {
        Some(PluginCommand::DeleteMarketplace { name }) => assert_eq!(name, "tools"),
        other => panic!("unexpected {:?}", other),
    }
    assert_eq!(st.search.confirm_action, None);
    assert_eq!(st.search.operation_loading, None);
}

#[test]
fn plugin_list_click_opens_rows() {
    let mut st = panel(PluginViewTab::Installed);
    assert!(plugin_list_on_click(&mut st, 3, 0, false, Some(2)));
    assert_eq!(st.selected, 2);
    assert_eq!(st.search.detail_plugin_idx, Some(2));
    assert_eq!(st.action_index, 0);
    let mut st = panel(PluginViewTab::Installed);
    assert!(!plugin_list_on_click(&mut st, 3, 0, false, Some(3)));
    assert_eq!(st.search.detail_plugin_idx, None);

    let mut st = panel(PluginViewTab::Marketplaces);
    st.search.add_marketplace_input.insert_char('x');
    assert!(plugin_list_on_click(&mut st, 0, 2, true, None));
    assert!(st.search.add_marketplace_active);
    assert_eq!(st.search.add_marketplace_input.text, "");
    let mut st = panel(PluginViewTab::Marketplaces);
    assert!(plugin_list_on_click(&mut st, 0, 2, false, Some(1)));
    assert_eq!(st.selected, 2);
    assert_eq!(st.search.marketplace_detail, Some(2));
    let mut st = panel(PluginViewTab::Discover);
    assert!(!plugin_list_on_click(&mut st, 3, 2, true, Some(0)));
}

#[test]
fn plugin_click_acts_like_enter_on_the_hit_row() {
    let ps = installed();
    let ds = discover();
    let ms = markets();
    // A row of the installed list opens its details; an action row runs it.
    let mut st = panel(PluginViewTab::Installed);
    let (used, cmd) = plugin_panel_on_click(&mut st, &ps, &ds, &ms, true, true, None, false, Some(0));
    assert!(used && cmd.is_none());
    assert_eq!(st.search.detail_plugin_idx, Some(0));
    let (used, cmd) = plugin_panel_on_click(&mut st, &ps, &ds, &ms, true, true, Some(0), false, None);
    assert!(used);
    match cmd {
        Some(PluginCommand::Toggle { plugin_id, enable, scope }) => {
            assert_eq!(plugin_id, "fmt@tools");
            assert!(!enable);
            assert_eq!(scope, "user");
        },
        other => panic!("expected a toggle, got {:?}", other),
    }
    assert_eq!(st.search.detail_plugin_idx, None);
    assert_eq!(st.search.operation_loading.as_deref(), Some("disable"));

    // Uninstall asks first; a left click confirms.
    let mut st = panel(PluginViewTab::Installed);
    st.search.detail_plugin_idx = Some(1);
    let (_, cmd) = plugin_panel_on_click(&mut st, &ps, &ds, &ms, true, true, Some(1), false, None);
    assert!(cmd.is_none());
    assert_eq!(st.search.confirm_action.as_deref(), Some("uninstall"));
    let (used, cmd) = plugin_panel_on_click(&mut st, &ps, &ds, &ms, true, true, None, false, None);
    assert!(used);
    match cmd {
        Some(PluginCommand::Uninstall { plugin_id }) => assert_eq!(plugin_id, "local"),
        other => panic!("expected an uninstall, got {:?}", other),
    }
    assert_eq!(st.search.confirm_action, None);

    // A discover detail's first action installs for the user.
    let mut st = panel(PluginViewTab::Discover);
    st.search.discover_detail_idx = Some(0);
    let (_, cmd) = plugin_panel_on_click(&mut st, &ps, &ds, &ms, true, true, Some(0), false, None);
    assert!(matches!(cmd, Some(PluginCommand::Install { scope: InstallScope::User, .. })));
    assert_eq!(st.search.discover_detail_idx, None);

    // A marketplace entry opens; its first action refreshes it.
    let mut st = panel(PluginViewTab::Marketplaces);
    plugin_panel_on_click(&mut st, &ps, &ds, &ms, true, true, None, false, Some(0));
    assert_eq!(st.search.marketplace_detail, Some(1));
    let (_, cmd) = plugin_panel_on_click(&mut st, &ps, &ds, &ms, true, true, Some(0), false, None);
    match cmd {
        Some(PluginCommand::RefreshMarketplace { source }) => assert_eq!(source, "github:org/tools"),
        other => panic!("expected a refresh, got {:?}", other),
    }
    assert!(st.marketplace_refreshing);

    // Outside the panel, or on nothing, only a left press is taken.
    let mut st = panel(PluginViewTab::Errors);
    assert_eq!(plugin_panel_on_click(&mut st, &ps, &ds, &ms, false, true, None, false, None).0, true);
    assert_eq!(plugin_panel_on_click(&mut st, &ps, &ds, &ms, true, false, None, false, None).0, false);
}
