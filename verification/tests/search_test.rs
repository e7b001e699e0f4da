use peri_tui::keys::{KeyCode, KeyPress};
use peri_tui::plugin::{
    action_label_key, action_list, cycle_backward, cycle_forward, filter_discover,
    handle_search_key, lowercase_of, plugin_search_on_click, search_box_escape, DiscoverItem, PluginSearchState,
    PluginViewTab, SearchOutcome, SearchState,
};
use peri_tui::slash::{
    clamp_selection, filter_slash_items, max_label_width, slash_scroll_start, SlashActionKind,
    SlashCompletionItem,
};
use peri_tui::textarea::TextAreaState;

fn slash_item(label: &str) -> SlashCompletionItem {
    SlashCompletionItem {
        label: label.to_string(),
        insert_text: format!("/{}", label),
        description: String::new(),
        kind: SlashActionKind::Command,
        label_lowercase: label.to_lowercase(),
    }
}

fn discover(name: &str, description: &str, marketplace: &str) -> DiscoverItem {
    DiscoverItem {
        name: name.to_string(),
        version: "1.0".to_string(),
        marketplace: marketplace.to_string(),
        description: description.to_string(),
        author: None,
    }
}

fn search_state() -> PluginSearchState {
    PluginSearchState {
        active_tab: PluginViewTab::Discover,
        search_text: TextAreaState::new(),
        search_focus: false,
        search_state: SearchState::Idle,
        discover_cursor: 3,
        discover_filtered: vec![0, 1, 2],
        discover_detail_idx: None,
        discover_detail_action: 0,
        detail_plugin_idx: None,
        marketplace_detail: None,
        marketplace_detail_action: 0,
        confirm_action: None,
        operation_loading: None,
        add_marketplace_input: TextAreaState::new(),
        add_marketplace_active: false,
    }
}

#[test]
fn search_slash_prefix_filter_ignores_case() {
    let items = vec![slash_item("Compact"), slash_item("config"), slash_item("clear"), slash_item("model")];
    assert_eq!(filter_slash_items(&items, ""), vec![0, 1, 2, 3]);
    assert_eq!(filter_slash_items(&items, "CO"), vec![0, 1]);
    assert_eq!(filter_slash_items(&items, "cl"), vec![2]);
    assert_eq!(filter_slash_items(&items, "zz"), Vec::<usize>::new());
}

#[test]
fn search_slash_window_and_widths() {
    assert_eq!(clamp_selection(5, 3), 2);
    assert_eq!(clamp_selection(1, 3), 1);
    assert_eq!(clamp_selection(4, 0), 0);
    assert_eq!(slash_scroll_start(5, 8, 4), 0);
    assert_eq!(slash_scroll_start(20, 9, 10), 7);
    assert_eq!(slash_scroll_start(20, 9, 19), 11);
    assert_eq!(slash_scroll_start(20, 9, 1), 0);
    let items = vec![slash_item("ab"), slash_item("model"), slash_item("x")];
    assert_eq!(max_label_width(&items), 6);
    assert_eq!(max_label_width(&Vec::new()), 0);
}

#[test]
fn search_plugin_tabs_and_actions() {
    assert_eq!(cycle_forward(PluginViewTab::Errors), PluginViewTab::Installed);
    assert_eq!(cycle_backward(PluginViewTab::Installed), PluginViewTab::Errors);
    assert_eq!(cycle_backward(cycle_forward(PluginViewTab::Discover)), PluginViewTab::Discover);
    assert_eq!(action_list(true), vec!["disable", "uninstall", "update", "back"]);
    assert_eq!(action_list(false)[0], "enable");
    assert_eq!(action_label_key("update"), Some("panel-plugin-action-update"));
    assert_eq!(action_label_key("other"), None);
}

#[test]
fn search_lowercase_wrapper() {
    assert_eq!(lowercase_of("HeLLo"), "hello");
    assert_eq!(lowercase_of("ÄB"), "äb");
}

#[test]
fn search_discover_filter_matches_name_description_marketplace() {
    let items = vec![
        discover("GitTools", "helpers", "main"),
        discover("fmt", "Formats GIT diffs", "main"),
        discover("lint", "checks", "Git-Market"),
        discover("other", "none", "main"),
    ];
    let q: Vec<char> = "git".chars().collect();
    assert_eq!(filter_discover(&items, &q), vec![0, 1, 2]);
    let q: Vec<char> = "zzz".chars().collect();
    assert!(filter_discover(&items, &q).is_empty());
}

#[test]
fn search_typing_filters_discover_list() {
    let items = vec![discover("alpha", "", "m"), discover("beta", "", "m"), discover("alps", "", "m")];
    let mut st = search_state();
    assert!(matches!(handle_search_key(&mut st, &items, KeyPress::plain(KeyCode::Char('A'))), SearchOutcome::Consumed));
    assert_eq!(st.discover_filtered, vec![0, 1, 2]);
    assert_eq!(st.discover_cursor, 0);
    handle_search_key(&mut st, &items, KeyPress::plain(KeyCode::Char('l')));
    assert_eq!(st.discover_filtered, vec![0, 2]);
    handle_search_key(&mut st, &items, KeyPress::plain(KeyCode::Char('p')));
    handle_search_key(&mut st, &items, KeyPress::plain(KeyCode::Char('s')));
    assert_eq!(st.discover_filtered, vec![2]);
    handle_search_key(&mut st, &items, KeyPress::plain(KeyCode::Enter));
    assert_eq!(st.discover_detail_idx, Some(2));
    assert!(matches!(handle_search_key(&mut st, &items, KeyPress::plain(KeyCode::Char('x'))), SearchOutcome::Ignored));
    for _ in 0..4 {
        st.discover_detail_idx = None;
        handle_search_key(&mut st, &items, KeyPress::plain(KeyCode::Backspace));
    }
    assert_eq!(st.discover_filtered, vec![0, 1, 2]);
}

#[test]
fn search_box_enter_starts_remote_search() {
    let items: Vec<DiscoverItem> = Vec::new();
    let mut st = search_state();
    st.search_focus = true;
    assert!(matches!(handle_search_key(&mut st, &items, KeyPress::plain(KeyCode::Enter)), SearchOutcome::Consumed));
    handle_search_key(&mut st, &items, KeyPress::plain(KeyCode::Char('g')));
    handle_search_key(&mut st, &items, KeyPress::plain(KeyCode::Char('o')));
    match handle_search_key(&mut st, &items, KeyPress::plain(KeyCode::Enter)) {
        SearchOutcome::StartSearch(q) => assert_eq!(q, "go"),
        other => panic!("unexpected {:?}", other),
    }
    assert_eq!(st.search_state, SearchState::Loading);
    search_box_escape(&mut st);
    assert_eq!(st.search_text.text, "");
    assert!(st.search_focus);
    search_box_escape(&mut st);
    assert!(!st.search_focus);
}

#[test]
fn search_escape_layers_and_marketplace_input() {
    let items: Vec<DiscoverItem> = Vec::new();
    let mut st = search_state();
    st.detail_plugin_idx = Some(0);
    st.confirm_action = Some("uninstall".to_string());
    assert!(matches!(handle_search_key(&mut st, &items, KeyPress::plain(KeyCode::Esc)), SearchOutcome::Consumed));
    assert_eq!(st.detail_plugin_idx, None);
    assert!(matches!(handle_search_key(&mut st, &items, KeyPress::plain(KeyCode::Esc)), SearchOutcome::Consumed));
    assert_eq!(st.confirm_action, None);
    assert!(matches!(handle_search_key(&mut st, &items, KeyPress::plain(KeyCode::Esc)), SearchOutcome::Ignored));
    st.active_tab = PluginViewTab::Installed;
    assert!(matches!(handle_search_key(&mut st, &items, KeyPress::plain(KeyCode::Esc)), SearchOutcome::ClosePanel));

    st.add_marketplace_active = true;
    handle_search_key(&mut st, &items, KeyPress::plain(KeyCode::Char('u')));
    handle_search_key(&mut st, &items, KeyPress::plain(KeyCode::Char('r')));
    handle_search_key(&mut st, &items, KeyPress::plain(KeyCode::Backspace));
    match handle_search_key(&mut st, &items, KeyPress::plain(KeyCode::Enter)) {
        SearchOutcome::AddMarketplace(u) => assert_eq!(u, "u"),
        other => panic!("unexpected {:?}", other),
    }
    assert!(!st.add_marketplace_active);
}

#[test]
fn search_textarea_type_then_backspace_restores() {
    let mut t = TextAreaState::new();
    t.insert_str("añb");
    t.cursor = 3;
    t.insert_char('€');
    assert_eq!(t.text, "añ€b");
    assert_eq!(t.cursor, 6);
    t.backspace();
    assert_eq!(t.text, "añb");
    assert_eq!(t.cursor, 3);
    t.cursor = 2;
    t.insert_char('x');
    t.backspace();
    assert_eq!(t.text, "añb");
    assert_eq!(t.cursor, 1);
}

#[test]
fn plugin_discover_click_opens_details() {
    let mut st = search_state();
    let shown = vec![4, 7];
    assert!(matches!(plugin_search_on_click(&mut st, &shown, true, false, Some(1), true), SearchOutcome::Consumed));
    assert_eq!(st.discover_cursor, 1);
    assert_eq!(st.discover_detail_idx, Some(7));
    assert_eq!(st.discover_detail_action, 0);
    // With a detail open the click is for the other layer.
    assert!(matches!(plugin_search_on_click(&mut st, &shown, true, false, Some(0), true), SearchOutcome::Ignored));
    assert_eq!(st.discover_cursor, 1);

    let mut st = search_state();
    assert!(matches!(plugin_search_on_click(&mut st, &shown, true, false, None, true), SearchOutcome::Consumed));
    assert!(matches!(plugin_search_on_click(&mut st, &shown, true, false, None, false), SearchOutcome::Ignored));
    assert!(matches!(plugin_search_on_click(&mut st, &shown, false, false, Some(0), true), SearchOutcome::Ignored));
    assert_eq!(st.discover_detail_idx, None);
}

#[test]
fn plugin_search_box_click_starts_search() {
    let mut st = search_state();
    st.search_focus = true;
    // An empty query only takes the click.
    assert!(matches!(plugin_search_on_click(&mut st, &vec![], true, true, None, true), SearchOutcome::Consumed));
    st.search_text.insert_char('g');
    st.search_text.insert_char('o');
    match plugin_search_on_click(&mut st, &vec![], true, true, None, true) {
        SearchOutcome::StartSearch(q) => assert_eq!(q, "go"),
        other => panic!("expected a search, got {:?}", other),
    }
    assert!(matches!(st.search_state, SearchState::Loading));
    // While loading another click searches nothing.
    assert!(matches!(plugin_search_on_click(&mut st, &vec![], true, true, None, true), SearchOutcome::Consumed));
}
