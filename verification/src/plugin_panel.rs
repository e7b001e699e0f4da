//! The plugin panel's list/detail key state machine: four tabs (installed,
//! discover, marketplaces, errors), each a list with a detail view, the
//! action menu of an installed plugin and the confirmation of destructive
//! actions. The search layer (`plugin::handle_search_key`) sees every key
//! first; the keys it leaves go here. Requests to the agent are handed to
//! the host as a `PluginCommand`.
use vstd::prelude::*;
use crate::keys::{KeyCode, KeyPress};
use crate::list_nav::{next_sel, next_selection, prev_sel, previous_selection};
use crate::marketplace::MsEntry;
use crate::plugin::{cycle_backward, cycle_forward, tab_backward, tab_forward, DiscoverItem, PluginSearchState, PluginViewTab};
use crate::profiles::clone_string;
use crate::text::{append_str, str_eq};
use crate::textarea::TextAreaState;

verus! {

/// An installed plugin, as far as the panel's keys read it.
#[derive(Debug, Clone)]
pub struct PluginSummary {
    pub name: String,
    /// Marketplace the plugin came from; empty for a local plugin.
    pub marketplace: String,
    pub enabled: bool,
    /// Where it is installed ("user" or "project").
    pub install_scope: String,
}

/// Where a plugin is installed.
#[derive(Debug, Clone, Copy, PartialEq, Eq, Structural)]
pub enum InstallScope {
    User,
    Project,
}

/// A request the panel asks the host to send to the agent.
#[derive(Debug)]
pub enum PluginCommand {
    /// Install plugin `name` of `marketplace`.
    Install { name: String, marketplace: String, scope: InstallScope },
    /// Uninstall the plugin with this id.
    Uninstall { plugin_id: String },
    /// Enable or disable the plugin with this id (and record the choice).
    Toggle { plugin_id: String, enable: bool, scope: String },
    /// Update the plugin with this id.
    Update { plugin_id: String },
    /// Refresh the marketplace with this source, then the cached lists.
    RefreshMarketplace { source: String },
    /// Forget the marketplace with this name, then refresh the cached lists.
    DeleteMarketplace { name: String },
    /// Reload the cached discover list.
    RefreshDiscoverCache,
}

/// Mathematical form of a command.
pub enum CommandView {
    Install(Seq<char>, Seq<char>, InstallScope),
    Uninstall(Seq<char>),
    Toggle(Seq<char>, bool, Seq<char>),
    Update(Seq<char>),
    RefreshMarketplace(Seq<char>),
    DeleteMarketplace(Seq<char>),
    RefreshDiscoverCache,
}

pub open spec fn command_view(c: Option<PluginCommand>) -> Option<CommandView> {
    match c {
        None => None,
        Some(PluginCommand::Install { name, marketplace, scope }) => Some(CommandView::Install(name@, marketplace@, scope)),
        Some(PluginCommand::Uninstall { plugin_id }) => Some(CommandView::Uninstall(plugin_id@)),
        Some(PluginCommand::Toggle { plugin_id, enable, scope }) => Some(CommandView::Toggle(plugin_id@, enable, scope@)),
        Some(PluginCommand::Update { plugin_id }) => Some(CommandView::Update(plugin_id@)),
        Some(PluginCommand::RefreshMarketplace { source }) => Some(CommandView::RefreshMarketplace(source@)),
        Some(PluginCommand::DeleteMarketplace { name }) => Some(CommandView::DeleteMarketplace(name@)),
        Some(PluginCommand::RefreshDiscoverCache) => Some(CommandView::RefreshDiscoverCache),
    }
}

/// State of the plugin panel.
#[derive(Debug)]
pub struct PluginPanelState {
    /// Highlighted row of the installed or marketplace list (row 0 of the
    /// marketplace list is "add a marketplace").
    pub selected: usize,
    /// Highlighted entry of an installed plugin's action menu.
    pub action_index: usize,
    /// Whether a marketplace refresh was asked for.
    pub marketplace_refreshing: bool,
    /// The tab, detail views, confirmation and search state.
    pub search: PluginSearchState,
}

pub open spec fn opt_text(o: Option<String>) -> Option<Seq<char>> {
    match o {
        Some(s) => Some(s@),
        None => None,
    }
}

/// The id of an installed plugin: `name@marketplace`, or the name alone for
/// a local plugin.
pub open spec fn installed_plugin_id(p: PluginSummary) -> Seq<char> {
    if p.marketplace@.len() == 0 { p.name@ } else { p.name@ + "@"@ + p.marketplace@ }
}

/// The action menu of an installed plugin (as `plugin::action_list` gives it).
pub open spec fn menu(enabled: bool) -> Seq<Seq<char>> {
    seq![if enabled { "disable"@ } else { "enable"@ }, "uninstall"@, "update"@, "back"@]
}

/// Entries of the discover detail menu: install for the user, install for
/// the project, back to the list.
pub open spec fn discover_scope(a: int) -> Option<InstallScope> {
    if a == 0 { Some(InstallScope::User) } else if a == 1 { Some(InstallScope::Project) } else { None }
}

/// What a key does in a discover plugin's details.
pub open spec fn discover_detail_key(s: PluginPanelState, t: PluginPanelState, discover: Seq<DiscoverItem>, key: KeyPress,
    r: Option<CommandView>) -> bool {
    let q = s.search;
    let idx = q.discover_detail_idx.unwrap() as int;
    let a = q.discover_detail_action;
    let closed = PluginPanelState { search: PluginSearchState { discover_detail_idx: None, discover_detail_action: 0, ..q }, ..s };
    match key.code {
        KeyCode::Up => r is None && t == (PluginPanelState {
            search: PluginSearchState { discover_detail_action: if a > 0 { (a - 1) as usize } else { 0 }, ..q }, ..s }),
        KeyCode::Down => r is None && t == (PluginPanelState {
            search: PluginSearchState { discover_detail_action: if a < 2 { (a + 1) as usize } else { a }, ..q }, ..s }),
        KeyCode::Enter => if a == 2 {
            r is None && t == closed
        } else if a > 2 {
            r is None && t == s
        } else if idx < discover.len() {
            &&& opt_text(t.search.operation_loading) == Some("install"@)
            &&& t == (PluginPanelState { search: PluginSearchState { operation_loading: t.search.operation_loading,
                discover_detail_idx: None, discover_detail_action: 0, ..q }, ..s })
            &&& r == Some(CommandView::Install(discover[idx].name@, discover[idx].marketplace@, discover_scope(a as int).unwrap()))
        } else {
            r is None && t == closed
        },
        KeyCode::Esc => r is None && t == closed,
        KeyCode::Tab => r is None && t == (PluginPanelState { selected: 0, search: PluginSearchState {
            discover_detail_idx: None, discover_detail_action: 0, active_tab: tab_forward(q.active_tab), ..q }, ..s }),
        _ => r is None && t == s,
    }
}

/// What a key does in a marketplace's details.
pub open spec fn marketplace_detail_key(s: PluginPanelState, t: PluginPanelState, mps: Seq<MsEntry>, key: KeyPress,
    r: Option<CommandView>) -> bool {
    let q = s.search;
    let m = q.marketplace_detail.unwrap();
    let a = q.marketplace_detail_action;
    let closed = PluginSearchState { marketplace_detail: None, marketplace_detail_action: 0, ..q };
    match key.code {
        KeyCode::Up => r is None && t == (PluginPanelState {
            search: PluginSearchState { marketplace_detail_action: if a > 0 { (a - 1) as usize } else { 0 }, ..q }, ..s }),
        KeyCode::Down => r is None && t == (PluginPanelState {
            search: PluginSearchState { marketplace_detail_action: if a < 1 { (a + 1) as usize } else { a }, ..q }, ..s }),
        KeyCode::Enter => {
            let e = if m > 0 { m - 1 } else { 0int };
            if e < mps.len() && a == 0 {
                t == (PluginPanelState { marketplace_refreshing: true, search: closed, ..s })
                    && r == Some(CommandView::RefreshMarketplace(mps[e].source_label@))
            } else if e < mps.len() {
                &&& opt_text(t.search.confirm_action) == Some("delete_marketplace"@)
                &&& opt_text(t.search.operation_loading) == Some(mps[e].name@)
                &&& t == (PluginPanelState { search: PluginSearchState { confirm_action: t.search.confirm_action,
                    operation_loading: t.search.operation_loading, ..closed }, ..s })
                &&& r is None
            } else {
                r is None && t == (PluginPanelState { search: closed, ..s })
            }
        },
        KeyCode::Esc => r is None && t == (PluginPanelState { search: closed, ..s }),
        _ => r is None && t == s,
    }
}

/// What a key does while a confirmation is asked.
pub open spec fn confirm_key(s: PluginPanelState, t: PluginPanelState, installed: Seq<PluginSummary>, key: KeyPress,
    r: Option<CommandView>) -> bool {
    let q = s.search;
    let cleared = PluginSearchState { confirm_action: None, operation_loading: None, ..q };
    let act = q.confirm_action.unwrap()@;
    if key.code == KeyCode::Enter && act == "uninstall"@ {
        let idx = match q.detail_plugin_idx { Some(i) => i as int, None => 0int };
        t == (PluginPanelState { search: PluginSearchState { detail_plugin_idx: None, ..cleared }, ..s })
            && r == (if idx < installed.len() { Some(CommandView::Uninstall(installed_plugin_id(installed[idx]))) } else { None })
    } else if key.code == KeyCode::Enter && act == "delete_marketplace"@ {
        t == (PluginPanelState { search: cleared, ..s })
            && r == Some(CommandView::DeleteMarketplace(match opt_text(q.operation_loading) { Some(n) => n, None => Seq::empty() }))
    } else {
        t == (PluginPanelState { search: cleared, ..s }) && r is None
    }
}

/// What a key does in an installed plugin's details.
pub open spec fn installed_detail_key(s: PluginPanelState, t: PluginPanelState, installed: Seq<PluginSummary>, key: KeyPress,
    r: Option<CommandView>) -> bool {
    let q = s.search;
    let idx = q.detail_plugin_idx.unwrap() as int;
    let ai = s.action_index;
    match key.code {
        KeyCode::Enter => if idx < installed.len() && ai < 4 {
            let p = installed[idx];
            let act = menu(p.enabled)[ai as int];
            if act == "uninstall"@ {
                opt_text(t.search.confirm_action) == Some("uninstall"@) && r is None
                    && t == (PluginPanelState { search: PluginSearchState { confirm_action: t.search.confirm_action, ..q }, ..s })
            } else if act == "back"@ {
                r is None && t == (PluginPanelState { search: PluginSearchState { detail_plugin_idx: None, ..q }, ..s })
            } else {
                &&& opt_text(t.search.operation_loading) == Some(act)
                &&& t == (PluginPanelState { search: PluginSearchState { operation_loading: t.search.operation_loading,
                    detail_plugin_idx: None, ..q }, ..s })
                &&& r == if act == "update"@ {
                    Some(CommandView::Update(installed_plugin_id(p)))
                } else {
                    Some(CommandView::Toggle(installed_plugin_id(p), act == "enable"@, p.install_scope@))
                }
            }
        } else {
            r is None && t == s
        },
        KeyCode::Up => r is None && t == (if idx < installed.len() {
            PluginPanelState { action_index: if ai == 0 { 3 } else { (ai - 1) as usize }, ..s }
        } else {
            s
        }),
        KeyCode::Down => r is None && t == (if idx < installed.len() {
            PluginPanelState { action_index: if ai >= 3 { 0 } else { (ai + 1) as usize }, ..s }
        } else {
            s
        }),
        _ => r is None && t == s,
    }
}

/// What a key does to the plugin panel, as a relation between the state
/// before and after and the command handed to the host.
pub open spec fn plugin_panel_step(s: PluginPanelState, t: PluginPanelState, installed: Seq<PluginSummary>,
    discover: Seq<DiscoverItem>, mps: Seq<MsEntry>, key: KeyPress, r: Option<CommandView>) -> bool {
    let q = s.search;
    if q.operation_loading is Some && q.confirm_action is None {
        // any key dismisses the finished operation's notice
        t == (PluginPanelState { search: PluginSearchState { operation_loading: None, ..q }, ..s })
            && r == Some(CommandView::RefreshDiscoverCache)
    } else if q.discover_detail_idx is Some {
        discover_detail_key(s, t, discover, key, r)
    } else if q.marketplace_detail is Some {
        marketplace_detail_key(s, t, mps, key, r)
    } else if q.confirm_action is Some {
        confirm_key(s, t, installed, key, r)
    } else if q.detail_plugin_idx is Some {
        installed_detail_key(s, t, installed, key, r)
    } else {
        &&& r is None
        &&& match key.code {
            KeyCode::Tab | KeyCode::Right => t == (PluginPanelState { selected: 0, search: PluginSearchState {
                active_tab: tab_forward(q.active_tab), discover_cursor: 0, ..q }, ..s }),
            KeyCode::BackTab | KeyCode::Left => t == (PluginPanelState { selected: 0, search: PluginSearchState {
                active_tab: tab_backward(q.active_tab), discover_cursor: 0, ..q }, ..s }),
            KeyCode::Enter => match q.active_tab {
                PluginViewTab::Installed => t == (if installed.len() > 0 {
                    PluginPanelState { action_index: 0, search: PluginSearchState { detail_plugin_idx: Some(s.selected), ..q }, ..s }
                } else {
                    s
                }),
                PluginViewTab::Discover => t == s,
                PluginViewTab::Marketplaces => if s.selected == 0 {
                    &&& t == (PluginPanelState { search: PluginSearchState { add_marketplace_active: true,
                        add_marketplace_input: t.search.add_marketplace_input, ..q }, ..s })
                    &&& t.search.add_marketplace_input.text@.len() == 0 && t.search.add_marketplace_input.cursor == 0
                } else if s.selected - 1 < mps.len() {
                    t == (PluginPanelState { search: PluginSearchState { marketplace_detail: Some(s.selected),
                        marketplace_detail_action: 0, ..q }, ..s })
                } else {
                    t == s
                },
                PluginViewTab::Errors => t == (PluginPanelState { selected: 0,
                    search: PluginSearchState { active_tab: PluginViewTab::Installed, ..q }, ..s }),
            },
            KeyCode::Up => t == (match q.active_tab {
                PluginViewTab::Installed | PluginViewTab::Marketplaces =>
                    PluginPanelState { selected: prev_sel(s.selected as int) as usize, ..s },
                PluginViewTab::Discover =>
                    PluginPanelState { search: PluginSearchState { discover_cursor: prev_sel(q.discover_cursor as int) as usize, ..q }, ..s },
                PluginViewTab::Errors => s,
            }),
            KeyCode::Down => t == (match q.active_tab {
                PluginViewTab::Installed => if installed.len() > 0 {
                    PluginPanelState { selected: next_sel(s.selected as int, installed.len() as int) as usize, ..s }
                } else {
                    s
                },
                PluginViewTab::Discover => {
                    let count = if q.search_text.text@.len() == 0 { discover.len() } else { q.discover_filtered@.len() };
                    if count > 0 {
                        PluginPanelState { search: PluginSearchState {
                            discover_cursor: next_sel(q.discover_cursor as int, count as int) as usize, ..q }, ..s }
                    } else {
                        s
                    }
                },
                PluginViewTab::Marketplaces =>
                    PluginPanelState { selected: next_sel(s.selected as int, mps.len() as int + 1) as usize, ..s },
                PluginViewTab::Errors => s,
            }),
            _ => t == s,
        }
    }
}

/// The list part of a click on the plugin panel, reached when the click hit
/// no action row of an open view. The host says whether it hit the "add a
/// marketplace" row and which list row it hit (a row past the list is no
/// hit). On the installed tab a row opens that plugin's details; on the
/// marketplace tab the add row starts typing a marketplace and an entry opens
/// its details (row `i` is entry `i`, selected as `i + 1`). Returns whether
/// the click was used; other clicks are left to the caller.
pub fn plugin_list_on_click(st: &mut PluginPanelState, installed_len: usize, marketplaces_len: usize,
    hit_add_row: bool, hit_row: Option<usize>) -> (used: bool)
    ensures
        ({
            let s = *old(st);
            let q = s.search;
            let t = *final(st);
            let i = match hit_row { Some(k) => k, None => 0 };
            match q.active_tab {
                PluginViewTab::Installed => if hit_row is Some && i < installed_len {
                    used && t == (PluginPanelState { selected: i, action_index: 0,
                        search: PluginSearchState { detail_plugin_idx: Some(i), ..q }, ..s })
                } else {
                    !used && t == s
                },
                PluginViewTab::Marketplaces => if hit_add_row {
                    &&& used
                    &&& t == (PluginPanelState { selected: 0, search: PluginSearchState { add_marketplace_active: true,
                        add_marketplace_input: t.search.add_marketplace_input, ..q }, ..s })
                    &&& t.search.add_marketplace_input.text@.len() == 0 && t.search.add_marketplace_input.cursor == 0
                } else if hit_row is Some && i < marketplaces_len {
                    used && t == (PluginPanelState { selected: (i + 1) as usize, search: PluginSearchState {
                        marketplace_detail: Some((i + 1) as usize), marketplace_detail_action: 0, ..q }, ..s })
                } else {
                    !used && t == s
                },
                _ => !used && t == s,
            }
        }),
{
    match st.search.active_tab {
        PluginViewTab::Installed => {
            if let Some(i) = hit_row {
                if i < installed_len {
                    st.selected = i;
                    st.search.detail_plugin_idx = Some(i);
                    st.action_index = 0;
                    return true;
                }
            }
            false
        },
        PluginViewTab::Marketplaces => {
            if hit_add_row {
                st.selected = 0;
                st.search.add_marketplace_active = true;
                st.search.add_marketplace_input = TextAreaState::new();
                return true;
            }
            if let Some(i) = hit_row {
                if i < marketplaces_len {
                    st.selected = i + 1;
                    st.search.marketplace_detail = Some(i + 1);
                    st.search.marketplace_detail_action = 0;
                    return true;
                }
            }
            false
        },
        _ => false,
    }
}

/// Enter, as a click on an action row or a confirmation acts.
pub open spec fn enter_press() -> KeyPress {
    KeyPress { code: KeyCode::Enter, ctrl: false, shift: false }
}

/// What a click does to the plugin panel (see `plugin_panel_on_click`):
/// whether it is used, and the request to send.
pub open spec fn plugin_click_step(s: PluginPanelState, t: PluginPanelState, installed: Seq<PluginSummary>,
    discover: Seq<DiscoverItem>, mps: Seq<MsEntry>, in_area: bool, left_down: bool, hit_action: Option<usize>,
    hit_add_row: bool, hit_row: Option<usize>, used: bool, r: Option<CommandView>) -> bool {
    let q = s.search;
    let a = match hit_action { Some(k) => k, None => 0 };
    let d = match q.detail_plugin_idx { Some(k) => k, None => 0 };
    if !in_area {
        t == s && r is None && used == left_down
    } else if q.confirm_action is Some && left_down {
        used && confirm_key(s, t, installed, enter_press(), r)
    } else if q.discover_detail_idx is Some && hit_action is Some {
        used && discover_detail_key(PluginPanelState { search: PluginSearchState { discover_detail_action: a, ..q }, ..s },
            t, discover, enter_press(), r)
    } else if q.marketplace_detail is Some && hit_action is Some {
        used && marketplace_detail_key(PluginPanelState {
            search: PluginSearchState { marketplace_detail_action: a, ..q }, ..s }, t, mps, enter_press(), r)
    } else if q.detail_plugin_idx is Some && d < installed.len() && hit_action is Some {
        used && installed_detail_key(PluginPanelState { action_index: a, ..s }, t, installed, enter_press(), r)
    } else {
        &&& r is None
        &&& {
            let i = match hit_row { Some(k) => k, None => 0 };
            match q.active_tab {
                PluginViewTab::Installed => if hit_row is Some && i < installed.len() {
                    used && t == (PluginPanelState { selected: i, action_index: 0,
                        search: PluginSearchState { detail_plugin_idx: Some(i), ..q }, ..s })
                } else {
                    used == left_down && t == s
                },
                PluginViewTab::Marketplaces => if hit_add_row {
                    &&& used
                    &&& t == (PluginPanelState { selected: 0, search: PluginSearchState { add_marketplace_active: true,
                        add_marketplace_input: t.search.add_marketplace_input, ..q }, ..s })
                    &&& t.search.add_marketplace_input.text@.len() == 0 && t.search.add_marketplace_input.cursor == 0
                } else if hit_row is Some && i < mps.len() {
                    used && t == (PluginPanelState { selected: (i + 1) as usize, search: PluginSearchState {
                        marketplace_detail: Some((i + 1) as usize), marketplace_detail_action: 0, ..q }, ..s })
                } else {
                    used == left_down && t == s
                },
                _ => used == left_down && t == s,
            }
        }
    }
}

/// Handles a click on the plugin panel: a click acts as choosing the row it
/// hit and pressing Enter there. The host says whether the click fell inside
/// the panel (off the scroll bar), whether it was a left press, which action
/// row of the open details it hit (in the layout of the first open view:
/// discover, marketplace, then installed details), whether it hit the "add a
/// marketplace" row and which list row it hit. A left click confirms an open
/// question; a hit action row runs that action; otherwise the list part
/// applies (see `plugin_list_on_click`). A left click that hits nothing is
/// still used, so that it does not reach the messages below. Returns whether
/// the click was used and the request to send, if any.
pub fn plugin_panel_on_click(st: &mut PluginPanelState, installed: &Vec<PluginSummary>, discover: &Vec<DiscoverItem>,
    marketplaces: &Vec<MsEntry>, in_area: bool, left_down: bool, hit_action: Option<usize>, hit_add_row: bool,
    hit_row: Option<usize>) -> (r: (bool, Option<PluginCommand>))
    ensures
        plugin_click_step(*old(st), *final(st), installed@, discover@, marketplaces@, in_area, left_down, hit_action,
            hit_add_row, hit_row, r.0, command_view(r.1)),
{
    if !in_area {
        return (left_down, None);
    }
    let enter = KeyPress::plain(KeyCode::Enter);
    if st.search.confirm_action.is_some() && left_down {
        return (true, confirm_on_key(st, installed, enter));
    }
    if let Some(a) = hit_action {
        if st.search.discover_detail_idx.is_some() {
            st.search.discover_detail_action = a;
            return (true, discover_detail_on_key(st, discover, enter));
        }
        if st.search.marketplace_detail.is_some() {
            st.search.marketplace_detail_action = a;
            return (true, marketplace_detail_on_key(st, marketplaces, enter));
        }
        if let Some(d) = st.search.detail_plugin_idx {
            if d < installed.len() {
                st.action_index = a;
                return (true, installed_detail_on_key(st, installed, enter));
            }
        }
    }
    let used = plugin_list_on_click(st, installed.len(), marketplaces.len(), hit_add_row, hit_row);
    (used || left_down, None)
}

/// The id of an installed plugin.
pub fn plugin_id_of(p: &PluginSummary) -> (r: String)
    ensures
        r@ == installed_plugin_id(*p),
{
    let mut id = clone_string(&p.name);
    if !p.marketplace.as_str().is_empty() {
        append_str(&mut id, "@");
        append_str(&mut id, p.marketplace.as_str());
    }
    id
}

/// Handles a key in a discover plugin's details.
fn discover_detail_on_key(st: &mut PluginPanelState, discover: &Vec<DiscoverItem>, key: KeyPress) -> (r: Option<PluginCommand>)
    requires
        old(st).search.discover_detail_idx is Some,
    ensures
        discover_detail_key(*old(st), *final(st), discover@, key, command_view(r)),
{
    let idx = match st.search.discover_detail_idx {
        Some(v) => v,
        None => return None,
    };
    let a = st.search.discover_detail_action;
    match key.code {
        KeyCode::Up => {
            st.search.discover_detail_action = if a > 0 { a - 1 } else { 0 };
        },
        KeyCode::Down => {
            if a < 2 {
                st.search.discover_detail_action = a + 1;
            }
        },
        KeyCode::Enter => {
            if a < 2 {
                if idx < discover.len() {
                    let scope = if a == 0 { InstallScope::User } else { InstallScope::Project };
                    let item = &discover[idx];
                    st.search.operation_loading = Some("install".to_string());
                    st.search.discover_detail_idx = None;
                    st.search.discover_detail_action = 0;
                    return Some(PluginCommand::Install {
                        name: clone_string(&item.name),
                        marketplace: clone_string(&item.marketplace),
                        scope,
                    });
                }
                st.search.discover_detail_idx = None;
                st.search.discover_detail_action = 0;
            } else if a == 2 {
                st.search.discover_detail_idx = None;
                st.search.discover_detail_action = 0;
            }
        },
        KeyCode::Esc => {
            st.search.discover_detail_idx = None;
            st.search.discover_detail_action = 0;
        },
        KeyCode::Tab => {
            st.search.discover_detail_idx = None;
            st.search.discover_detail_action = 0;
            st.search.active_tab = cycle_forward(st.search.active_tab);
            st.selected = 0;
        },
        _ => {},
    }
    None
}

/// Handles a key in a marketplace's details.
fn marketplace_detail_on_key(st: &mut PluginPanelState, marketplaces: &Vec<MsEntry>, key: KeyPress) -> (r: Option<PluginCommand>)
    requires
        old(st).search.marketplace_detail is Some,
    ensures
        marketplace_detail_key(*old(st), *final(st), marketplaces@, key, command_view(r)),
{
    let m = match st.search.marketplace_detail {
        Some(v) => v,
        None => return None,
    };
    let a = st.search.marketplace_detail_action;
    match key.code {
        KeyCode::Up => {
            st.search.marketplace_detail_action = if a > 0 { a - 1 } else { 0 };
        },
        KeyCode::Down => {
            if a < 1 {
                st.search.marketplace_detail_action = a + 1;
            }
        },
        KeyCode::Enter => {
            let e = if m > 0 { m - 1 } else { 0 };
            st.search.marketplace_detail = None;
            st.search.marketplace_detail_action = 0;
            if e < marketplaces.len() {
                if a == 0 {
                    st.marketplace_refreshing = true;
                    return Some(PluginCommand::RefreshMarketplace { source: clone_string(&marketplaces[e].source_label) });
                } else {
                    st.search.confirm_action = Some("delete_marketplace".to_string());
                    st.search.operation_loading = Some(clone_string(&marketplaces[e].name));
                }
            }
        },
        KeyCode::Esc => {
            st.search.marketplace_detail = None;
            st.search.marketplace_detail_action = 0;
        },
        _ => {},
    }
    None
}

/// Handles a key while a confirmation is asked.
fn confirm_on_key(st: &mut PluginPanelState, installed: &Vec<PluginSummary>, key: KeyPress) -> (r: Option<PluginCommand>)
    requires
        old(st).search.confirm_action is Some,
    ensures
        confirm_key(*old(st), *final(st), installed@, key, command_view(r)),
{
    let is_enter = key.code == KeyCode::Enter;
    let mut cmd: Option<PluginCommand> = None;
    if is_enter {
        let act = match &st.search.confirm_action {
            Some(a) => clone_string(a),
            None => String::new(),
        };
        if str_eq(act.as_str(), "uninstall") {
            let idx = match st.search.detail_plugin_idx { Some(i) => i, None => 0 };
            if idx < installed.len() {
                cmd = Some(PluginCommand::Uninstall { plugin_id: plugin_id_of(&installed[idx]) });
            }
            st.search.detail_plugin_idx = None;
        } else if str_eq(act.as_str(), "delete_marketplace") {
            let name = match &st.search.operation_loading {
                Some(n) => clone_string(n),
                None => String::new(),
            };
            cmd = Some(PluginCommand::DeleteMarketplace { name });
        }
    }
    st.search.confirm_action = None;
    st.search.operation_loading = None;
    cmd
}

/// Handles a key in an installed plugin's details.
fn installed_detail_on_key(st: &mut PluginPanelState, installed: &Vec<PluginSummary>, key: KeyPress) -> (r: Option<PluginCommand>)
    requires
        old(st).search.detail_plugin_idx is Some,
    ensures
        installed_detail_key(*old(st), *final(st), installed@, key, command_view(r)),
{
    let idx = match st.search.detail_plugin_idx {
        Some(v) => v,
        None => return None,
    };
    let ai = st.action_index;
    match key.code {
        KeyCode::Enter => {
            if idx < installed.len() && ai < 4 {
                let p = &installed[idx];
                let actions = crate::plugin::action_list(p.enabled);
                let act: &str = actions[ai];
                proof {
                    assert(act@ == menu(p.enabled)[ai as int]);
                }
                if str_eq(act, "uninstall") {
                    st.search.confirm_action = Some("uninstall".to_string());
                } else if str_eq(act, "back") {
                    st.search.detail_plugin_idx = None;
                } else if str_eq(act, "update") {
                    st.search.operation_loading = Some("update".to_string());
                    st.search.detail_plugin_idx = None;
                    return Some(PluginCommand::Update { plugin_id: plugin_id_of(p) });
                } else {
                    st.search.operation_loading = Some(act.to_string());
                    st.search.detail_plugin_idx = None;
                    return Some(PluginCommand::Toggle {
                        plugin_id: plugin_id_of(p),
                        enable: str_eq(act, "enable"),
                        scope: clone_string(&p.install_scope),
                    });
                }
            }
        },
        KeyCode::Up => {
            if idx < installed.len() {
                st.action_index = if ai == 0 { 3 } else { ai - 1 };
            }
        },
        KeyCode::Down => {
            if idx < installed.len() {
                st.action_index = if ai >= 3 { 0 } else { ai + 1 };
            }
        },
        _ => {},
    }
    None
}

/// Handles a key that the search layer left: detail menus, confirmations,
/// tab switching and list movement. The key is always used; the result is
/// the request to send, if any.
pub fn plugin_panel_on_key(st: &mut PluginPanelState, installed: &Vec<PluginSummary>, discover: &Vec<DiscoverItem>,
    marketplaces: &Vec<MsEntry>, key: KeyPress) -> (r: Option<PluginCommand>)
    requires
        marketplaces@.len() < usize::MAX,
    ensures
        plugin_panel_step(*old(st), *final(st), installed@, discover@, marketplaces@, key, command_view(r)),
{
    if st.search.operation_loading.is_some() && st.search.confirm_action.is_none() {
        st.search.operation_loading = None;
        return Some(PluginCommand::RefreshDiscoverCache);
    }
    if st.search.discover_detail_idx.is_some() {
        return discover_detail_on_key(st, discover, key);
    }
    if st.search.marketplace_detail.is_some() {
        return marketplace_detail_on_key(st, marketplaces, key);
    }
    if st.search.confirm_action.is_some() {
        return confirm_on_key(st, installed, key);
    }
    if st.search.detail_plugin_idx.is_some() {
        return installed_detail_on_key(st, installed, key);
    }
    match key.code {
        KeyCode::Tab | KeyCode::Right => {
            st.search.active_tab = cycle_forward(st.search.active_tab);
            st.selected = 0;
            st.search.discover_cursor = 0;
        },
        KeyCode::BackTab | KeyCode::Left => {
            st.search.active_tab = cycle_backward(st.search.active_tab);
            st.selected = 0;
            st.search.discover_cursor = 0;
        },
        KeyCode::Enter => {
            match st.search.active_tab {
                PluginViewTab::Installed => {
                    if installed.len() > 0 {
                        st.search.detail_plugin_idx = Some(st.selected);
                        st.action_index = 0;
                    }
                },
                PluginViewTab::Discover => {},
                PluginViewTab::Marketplaces => {
                    if st.selected == 0 {
                        st.search.add_marketplace_active = true;
                        st.search.add_marketplace_input = TextAreaState::new();
                    } else if st.selected - 1 < marketplaces.len() {
                        st.search.marketplace_detail = Some(st.selected);
                        st.search.marketplace_detail_action = 0;
                    }
                },
                PluginViewTab::Errors => {
                    st.search.active_tab = PluginViewTab::Installed;
                    st.selected = 0;
                },
            }
        },
        KeyCode::Up => {
            match st.search.active_tab {
                PluginViewTab::Installed | PluginViewTab::Marketplaces => {
                    st.selected = previous_selection(st.selected);
                },
                PluginViewTab::Discover => {
                    st.search.discover_cursor = previous_selection(st.search.discover_cursor);
                },
                PluginViewTab::Errors => {},
            }
        },
        KeyCode::Down => {
            match st.search.active_tab {
                PluginViewTab::Installed => {
                    if installed.len() > 0 {
                        st.selected = next_selection(st.selected, installed.len());
                    }
                },
                PluginViewTab::Discover => {
                    let count = if st.search.search_text.text.as_str().is_empty() {
                        discover.len()
                    } else {
                        st.search.discover_filtered.len()
                    };
                    if count > 0 {
                        st.search.discover_cursor = next_selection(st.search.discover_cursor, count);
                    }
                },
                PluginViewTab::Marketplaces => {
                    st.selected = next_selection(st.selected, marketplaces.len() + 1);
                },
                PluginViewTab::Errors => {},
            }
        },
        _ => {},
    }
    None
}

} // verus!
