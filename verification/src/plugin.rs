//! The plugin panel: its tabs, the action menu of an installed plugin, and
//! the search and filter keys of the discover tab.
use vstd::prelude::*;
use crate::keys::{KeyCode, KeyPress};
use crate::textarea::{char_deleted_back, char_inserted, fits, TextAreaState};

verus! {

/// Tabs of the plugin panel, in order.
#[derive(Debug, Clone, Copy, PartialEq, Eq, Structural)]
pub enum PluginViewTab {
    Installed,
    Discover,
    Marketplaces,
    Errors,
}

pub open spec fn tab_forward(t: PluginViewTab) -> PluginViewTab {
    match t {
        PluginViewTab::Installed => PluginViewTab::Discover,
        PluginViewTab::Discover => PluginViewTab::Marketplaces,
        PluginViewTab::Marketplaces => PluginViewTab::Errors,
        PluginViewTab::Errors => PluginViewTab::Installed,
    }
}

pub open spec fn tab_backward(t: PluginViewTab) -> PluginViewTab {
    match t {
        PluginViewTab::Installed => PluginViewTab::Errors,
        PluginViewTab::Errors => PluginViewTab::Marketplaces,
        PluginViewTab::Marketplaces => PluginViewTab::Discover,
        PluginViewTab::Discover => PluginViewTab::Installed,
    }
}

/// The next tab (wrapping).
pub fn cycle_forward(t: PluginViewTab) -> (r: PluginViewTab)
    ensures
        r == tab_forward(t),
{
    match t {
        PluginViewTab::Installed => PluginViewTab::Discover,
        PluginViewTab::Discover => PluginViewTab::Marketplaces,
        PluginViewTab::Marketplaces => PluginViewTab::Errors,
        PluginViewTab::Errors => PluginViewTab::Installed,
    }
}

/// The previous tab (wrapping).
pub fn cycle_backward(t: PluginViewTab) -> (r: PluginViewTab)
    ensures
        r == tab_backward(t),
{
    match t {
        PluginViewTab::Installed => PluginViewTab::Errors,
        PluginViewTab::Errors => PluginViewTab::Marketplaces,
        PluginViewTab::Marketplaces => PluginViewTab::Discover,
        PluginViewTab::Discover => PluginViewTab::Installed,
    }
}

/// Moving a tab forward and back (or back and forward) returns to it, and
/// four moves go round.
pub proof fn law_tab_cycle(t: PluginViewTab)
    ensures
        tab_backward(tab_forward(t)) == t,
        tab_forward(tab_backward(t)) == t,
        tab_forward(tab_forward(tab_forward(tab_forward(t)))) == t,
{
}

/// The actions offered for an installed plugin: enable or disable (whichever
/// applies), uninstall, update, back.
pub fn action_list(enabled: bool) -> (r: Vec<&'static str>)
    ensures
        r@.len() == 4,
        r@[0]@ == if enabled { "disable"@ } else { "enable"@ },
        r@[1]@ == "uninstall"@,
        r@[2]@ == "update"@,
        r@[3]@ == "back"@,
{
    let mut actions: Vec<&'static str> = Vec::new();
    if enabled {
        actions.push("disable");
    } else {
        actions.push("enable");
    }
    actions.push("uninstall");
    actions.push("update");
    actions.push("back");
    actions
}

/// Message key of an action's label (unknown actions have none).
pub fn action_label_key(action: &str) -> (r: Option<&'static str>)
    ensures
        r == if action@ == "disable"@ { Some("panel-plugin-action-disable") }
            else if action@ == "enable"@ { Some("panel-plugin-action-enable") }
            else if action@ == "uninstall"@ { Some("panel-plugin-action-uninstall") }
            else if action@ == "update"@ { Some("panel-plugin-action-update") }
            else if action@ == "back"@ { Some("panel-plugin-action-back") }
            else { None::<&'static str> },
{
    if crate::text::str_eq(action, "disable") {
        Some("panel-plugin-action-disable")
    } else if crate::text::str_eq(action, "enable") {
        Some("panel-plugin-action-enable")
    } else if crate::text::str_eq(action, "uninstall") {
        Some("panel-plugin-action-uninstall")
    } else if crate::text::str_eq(action, "update") {
        Some("panel-plugin-action-update")
    } else if crate::text::str_eq(action, "back") {
        Some("panel-plugin-action-back")
    } else {
        None
    }
}

/// State of a remote plugin search.
#[derive(Debug, Clone, PartialEq, Eq)]
pub enum SearchState {
    Idle,
    Loading,
    Error(String),
}

/// A plugin of the discover list.
#[derive(Debug, Clone)]
pub struct DiscoverItem {
    pub name: String,
    pub version: String,
    pub marketplace: String,
    pub description: String,
    pub author: Option<String>,
}

/// The lowercase form of a text, as `str::to_lowercase` gives it.
pub uninterp spec fn lowercase(s: Seq<char>) -> Seq<char>;

/// `str::to_lowercase` from std.
#[verifier::external_body]
fn to_lowercase(s: &str) -> (r: String)
    ensures
        r@ == lowercase(s@),
{
    s.to_lowercase()
}

/// The lowercase form of a text.
pub fn lowercase_of(s: &str) -> (r: String)
    ensures
        r@ == lowercase(s@),
{
    to_lowercase(s)
}

/// Whether `needle` occurs in `hay`.
pub open spec fn has_sub(hay: Seq<char>, needle: Seq<char>) -> bool {
    exists|i: int| 0 <= i && i + needle.len() <= hay.len() && #[trigger] hay.subrange(i, i + needle.len()) == needle
}

fn contains_sub(hay: &Vec<char>, needle: &Vec<char>) -> (r: bool)
    ensures
        r == has_sub(hay@, needle@),
{
    if needle.len() > hay.len() {
        return false;
    }
    let last = hay.len() - needle.len();
    let mut i: usize = 0;
    while i <= last
        invariant
            last + needle@.len() == hay@.len(),
            hay@.len() <= usize::MAX,
            i <= last + 1,
            forall|k: int| 0 <= k < i ==> #[trigger] hay@.subrange(k, k + needle@.len()) != needle@,
        decreases last + 1 - i,
    {
        let mut j: usize = 0;
        let mut same = true;
        while j < needle.len()
            invariant
                i <= last,
                last + needle@.len() == hay@.len(),
                hay@.len() <= usize::MAX,
                j <= needle@.len(),
                same == forall|m: int| 0 <= m < j ==> hay@[i + m] == needle@[m],
            decreases needle@.len() - j,
        {
            if hay[i + j] != needle[j] {
                same = false;
            }
            j = j + 1;
        }
        if same {
            assert(hay@.subrange(i as int, i + needle@.len()) =~= needle@);
            return true;
        }
        assert(hay@.subrange(i as int, i + needle@.len()) != needle@) by {
            let m = choose|m: int| 0 <= m < needle@.len() && hay@[i + m] != needle@[m];
            assert(hay@.subrange(i as int, i + needle@.len())[m] == hay@[i + m]);
        }
        if i == last {
            assert forall|k: int| 0 <= k && k + needle@.len() <= hay@.len() implies
                #[trigger] hay@.subrange(k, k + needle@.len()) != needle@ by {
                assert(k < i + 1);
            }
            return false;
        }
        i = i + 1;
    }
    false
}

/// Whether `needle` occurs in the characters `hay`.
pub fn contains_str(hay: &Vec<char>, needle: &str) -> (r: bool)
    ensures
        r == has_sub(hay@, needle@),
{
    let n = crate::text::chars_of(needle);
    contains_sub(hay, &n)
}

/// Whether a discover item matches a lowercase query: in its name,
/// description or marketplace, ignoring case.
pub open spec fn item_matches(item: DiscoverItem, query: Seq<char>) -> bool {
    has_sub(lowercase(item.name@), query) || has_sub(lowercase(item.description@), query)
        || has_sub(lowercase(item.marketplace@), query)
}

fn item_matches_exec(item: &DiscoverItem, query: &Vec<char>) -> (r: bool)
    ensures
        r == item_matches(*item, query@),
{
    let n = crate::text::chars_of(to_lowercase(item.name.as_str()).as_str());
    if contains_sub(&n, query) {
        return true;
    }
    let d = crate::text::chars_of(to_lowercase(item.description.as_str()).as_str());
    if contains_sub(&d, query) {
        return true;
    }
    let m = crate::text::chars_of(to_lowercase(item.marketplace.as_str()).as_str());
    contains_sub(&m, query)
}

/// Positions of the items that match, in order.
pub open spec fn matching_indices(items: Seq<DiscoverItem>, query: Seq<char>, n: int) -> Seq<usize>
    decreases n,
{
    if n <= 0 {
        Seq::empty()
    } else {
        let prev = matching_indices(items, query, n - 1);
        if item_matches(items[n - 1], query) { prev.push((n - 1) as usize) } else { prev }
    }
}

proof fn lemma_matching_indices_exact(items: Seq<DiscoverItem>, query: Seq<char>, n: int)
    requires
        0 <= n <= items.len(),
        items.len() <= usize::MAX,
    ensures
        ({
            let m = matching_indices(items, query, n);
            &&& forall|j: int| 0 <= j < m.len() ==> {
                let k = #[trigger] m[j] as int;
                &&& 0 <= k < n
                &&& ({
                    let it = items[k];
                    ||| exists|i: int| 0 <= i && i + query.len() <= lowercase(it.name@).len()
                        && #[trigger] lowercase(it.name@).subrange(i, i + query.len()) == query
                    ||| exists|i: int| 0 <= i && i + query.len() <= lowercase(it.description@).len()
                        && #[trigger] lowercase(it.description@).subrange(i, i + query.len()) == query
                    ||| exists|i: int| 0 <= i && i + query.len() <= lowercase(it.marketplace@).len()
                        && #[trigger] lowercase(it.marketplace@).subrange(i, i + query.len()) == query
                })
            }
            &&& forall|k: int, i: int| #![trigger items[k], lowercase(items[k].name@).subrange(i, i + query.len())]
                0 <= k < n && 0 <= i && i + query.len() <= lowercase(items[k].name@).len()
                && lowercase(items[k].name@).subrange(i, i + query.len()) == query
                ==> exists|j: int| 0 <= j < m.len() && #[trigger] m[j] as int == k
            &&& forall|k: int, i: int| #![trigger items[k], lowercase(items[k].description@).subrange(i, i + query.len())]
                0 <= k < n && 0 <= i && i + query.len() <= lowercase(items[k].description@).len()
                && lowercase(items[k].description@).subrange(i, i + query.len()) == query
                ==> exists|j: int| 0 <= j < m.len() && #[trigger] m[j] as int == k
            &&& forall|k: int, i: int| #![trigger items[k], lowercase(items[k].marketplace@).subrange(i, i + query.len())]
                0 <= k < n && 0 <= i && i + query.len() <= lowercase(items[k].marketplace@).len()
                && lowercase(items[k].marketplace@).subrange(i, i + query.len()) == query
                ==> exists|j: int| 0 <= j < m.len() && #[trigger] m[j] as int == k
            &&& forall|i: int, j: int| 0 <= i < j < m.len() ==> m[i] < m[j]
        }),
    decreases n,
{
    if n > 0 {
        lemma_matching_indices_exact(items, query, n - 1);
        let prev = matching_indices(items, query, n - 1);
        let m = matching_indices(items, query, n);
        if item_matches(items[n - 1], query) {
            assert(m == prev.push((n - 1) as usize));
            assert(m[prev.len() as int] as int == n - 1);
            assert forall|j: int| 0 <= j < prev.len() implies m[j] == #[trigger] prev[j] by {}
        } else {
            assert forall|k: int, i: int| 0 <= k < n && 0 <= i && (
                (i + query.len() <= lowercase(items[k].name@).len()
                    && #[trigger] lowercase(items[k].name@).subrange(i, i + query.len()) == query)
                || (i + query.len() <= lowercase(items[k].description@).len()
                    && #[trigger] lowercase(items[k].description@).subrange(i, i + query.len()) == query)
                || (i + query.len() <= lowercase(items[k].marketplace@).len()
                    && #[trigger] lowercase(items[k].marketplace@).subrange(i, i + query.len()) == query))
                implies k < n - 1 by {
                if k == n - 1 {
                    assert(item_matches(items[k], query));
                }
            }
        }
    }
}

/// A query lists exactly the discover items in whose lowercased name,
/// description or marketplace the whole query occurs, each once and in list
/// order.
pub proof fn law_discover_lists_exactly_matching(items: Seq<DiscoverItem>, query: Seq<char>)
    requires
        items.len() <= usize::MAX,
    ensures
        ({
            let m = matching_indices(items, query, items.len() as int);
            &&& forall|j: int| 0 <= j < m.len() ==> {
                let k = #[trigger] m[j] as int;
                &&& 0 <= k < items.len()
                &&& ({
                    let it = items[k];
                    ||| exists|i: int| 0 <= i && i + query.len() <= lowercase(it.name@).len()
                        && #[trigger] lowercase(it.name@).subrange(i, i + query.len()) == query
                    ||| exists|i: int| 0 <= i && i + query.len() <= lowercase(it.description@).len()
                        && #[trigger] lowercase(it.description@).subrange(i, i + query.len()) == query
                    ||| exists|i: int| 0 <= i && i + query.len() <= lowercase(it.marketplace@).len()
                        && #[trigger] lowercase(it.marketplace@).subrange(i, i + query.len()) == query
                })
            }
            &&& forall|k: int, i: int| #![trigger items[k], lowercase(items[k].name@).subrange(i, i + query.len())]
                0 <= k < items.len() && 0 <= i && i + query.len() <= lowercase(items[k].name@).len()
                && lowercase(items[k].name@).subrange(i, i + query.len()) == query
                ==> exists|j: int| 0 <= j < m.len() && #[trigger] m[j] as int == k
            &&& forall|k: int, i: int| #![trigger items[k], lowercase(items[k].description@).subrange(i, i + query.len())]
                0 <= k < items.len() && 0 <= i && i + query.len() <= lowercase(items[k].description@).len()
                && lowercase(items[k].description@).subrange(i, i + query.len()) == query
                ==> exists|j: int| 0 <= j < m.len() && #[trigger] m[j] as int == k
            &&& forall|k: int, i: int| #![trigger items[k], lowercase(items[k].marketplace@).subrange(i, i + query.len())]
                0 <= k < items.len() && 0 <= i && i + query.len() <= lowercase(items[k].marketplace@).len()
                && lowercase(items[k].marketplace@).subrange(i, i + query.len()) == query
                ==> exists|j: int| 0 <= j < m.len() && #[trigger] m[j] as int == k
            &&& forall|i: int, j: int| 0 <= i < j < m.len() ==> m[i] < m[j]
        }),
{
    lemma_matching_indices_exact(items, query, items.len() as int);
}

/// Positions of the discover items that match a lowercase query.
pub fn filter_discover(items: &Vec<DiscoverItem>, query: &Vec<char>) -> (r: Vec<usize>)
    ensures
        r@ == matching_indices(items@, query@, items@.len() as int),
{
    let count: usize = items.len();
    proof { law_discover_lists_exactly_matching(items@, query@); }
    let mut out: Vec<usize> = Vec::new();
    let mut i: usize = 0;
    while i < items.len()
        invariant
            i <= items@.len(),
            out@ == matching_indices(items@, query@, i as int),
        decreases items@.len() - i,
    {
        if item_matches_exec(&items[i], query) {
            out.push(i);
        }
        i = i + 1;
    }
    out
}

/// All positions of a list of `n` items.
pub fn all_indices(n: usize) -> (r: Vec<usize>)
    ensures
        r@.len() == n,
        forall|i: int| 0 <= i < n ==> r@[i] == i,
{
    let mut out: Vec<usize> = Vec::new();
    let mut i: usize = 0;
    while i < n
        invariant
            i <= n,
            out@.len() == i,
            forall|k: int| 0 <= k < i ==> out@[k] == k,
        decreases n - i,
    {
        out.push(i);
        i = i + 1;
    }
    out
}

/// State of the plugin panel that the search and filter keys read and change.
#[derive(Debug)]
pub struct PluginSearchState {
    pub active_tab: PluginViewTab,
    pub search_text: TextAreaState,
    pub search_focus: bool,
    pub search_state: SearchState,
    pub discover_cursor: usize,
    pub discover_filtered: Vec<usize>,
    pub discover_detail_idx: Option<usize>,
    pub discover_detail_action: usize,
    pub detail_plugin_idx: Option<usize>,
    pub marketplace_detail: Option<usize>,
    pub marketplace_detail_action: usize,
    pub confirm_action: Option<String>,
    pub operation_loading: Option<String>,
    pub add_marketplace_input: TextAreaState,
    pub add_marketplace_active: bool,
}

/// What a key on the plugin panel's search layer asks of the host.
#[derive(Debug)]
pub enum SearchOutcome {
    /// Let the panel's other key handler have the key.
    Ignored,
    /// The key was used.
    Consumed,
    /// Close the panel.
    ClosePanel,
    /// Clear the remote results and search for this query (the search state
    /// is already loading).
    StartSearch(String),
    /// Register the marketplace the user typed.
    AddMarketplace(String),
}

/// What a click does to the plugin panel's search layer (see
/// `plugin_search_on_click`).
pub open spec fn search_click_step(s: PluginSearchState, t: PluginSearchState, shown: Seq<usize>, in_area: bool,
    hit_search_box: bool, hit_row: Option<usize>, left_down: bool, r: SearchOutcome) -> bool {
    let taken = if left_down { r is Consumed } else { r is Ignored };
    if s.detail_plugin_idx is Some || s.discover_detail_idx is Some || s.marketplace_detail is Some
        || s.confirm_action is Some || !in_area {
        t == s && r is Ignored
    } else if s.add_marketplace_active {
        t == s && taken
    } else if s.active_tab != PluginViewTab::Discover {
        t == s && r is Ignored
    } else if s.search_focus {
        if s.search_state is Idle && hit_search_box && s.search_text.text@.len() > 0 {
            t == (PluginSearchState { search_state: SearchState::Loading, ..s })
                && (r matches SearchOutcome::StartSearch(q) && q@ == s.search_text.text@)
        } else {
            t == s && taken
        }
    } else if !(s.search_state is Idle) || hit_row is None {
        t == s && taken
    } else {
        let idx = hit_row.unwrap();
        &&& r is Consumed
        &&& if idx < shown.len() {
            t == (PluginSearchState { discover_cursor: idx, discover_detail_idx: Some(shown[idx as int]),
                discover_detail_action: 0, ..s })
        } else {
            t == (PluginSearchState { discover_cursor: idx, ..s })
        }
    }
}

/// Handles a click on the plugin panel's search layer. The host says whether
/// it fell inside the panel (off the scroll bar), whether it hit the search
/// box and which discover row it hit; `shown[i]` is the cache position of
/// the plugin on row `i`. With a detail or a question open the click is not
/// for this layer. While typing a marketplace, a left click is only taken.
/// On the discover tab a click on the focused search box searches for the
/// text (when idle and not empty), and a click on a row selects it and opens
/// its plugin's details. Other left clicks are taken so that they do not
/// reach the messages below.
pub fn plugin_search_on_click(st: &mut PluginSearchState, shown: &Vec<usize>, in_area: bool, hit_search_box: bool,
    hit_row: Option<usize>, left_down: bool) -> (r: SearchOutcome)
    ensures
        search_click_step(*old(st), *final(st), shown@, in_area, hit_search_box, hit_row, left_down, r),
{
    let taken = if left_down { SearchOutcome::Consumed } else { SearchOutcome::Ignored };
    if st.detail_plugin_idx.is_some() || st.discover_detail_idx.is_some() || st.marketplace_detail.is_some()
        || st.confirm_action.is_some() || !in_area {
        return SearchOutcome::Ignored;
    }
    if st.add_marketplace_active {
        return taken;
    }
    if st.active_tab != PluginViewTab::Discover {
        return SearchOutcome::Ignored;
    }
    let idle = match st.search_state {
        SearchState::Idle => true,
        _ => false,
    };
    if st.search_focus {
        if idle && hit_search_box && !st.search_text.text.as_str().is_empty() {
            st.search_state = SearchState::Loading;
            return SearchOutcome::StartSearch(st.search_text.text.clone());
        }
        return taken;
    }
    if !idle {
        return taken;
    }
    match hit_row {
        Some(idx) => {
            st.discover_cursor = idx;
            if idx < shown.len() {
                st.discover_detail_idx = Some(shown[idx]);
                st.discover_detail_action = 0;
            }
            SearchOutcome::Consumed
        },
        None => taken,
    }
}

/// The lowercase search text.
fn search_query(st: &PluginSearchState) -> (r: Vec<char>)
    ensures
        r@ == lowercase(st.search_text.text@),
{
    crate::text::chars_of(to_lowercase(st.search_text.text.as_str()).as_str())
}

/// What a key does to the plugin panel's search layer (see
/// `handle_search_key`), as a relation between the state before and after.
pub open spec fn search_key_step(s: PluginSearchState, t: PluginSearchState, items: Seq<DiscoverItem>, key: KeyPress, r: SearchOutcome) -> bool {
    let layered = s.detail_plugin_idx is Some || s.discover_detail_idx is Some || s.marketplace_detail is Some || s.confirm_action is Some;
    if key.code == KeyCode::Esc {
        if s.detail_plugin_idx is Some {
            t == (PluginSearchState { detail_plugin_idx: None, ..s }) && r is Consumed
        } else if s.marketplace_detail is Some {
            t == (PluginSearchState { marketplace_detail: None, marketplace_detail_action: 0, ..s }) && r is Consumed
        } else if s.confirm_action is Some {
            t == (PluginSearchState { confirm_action: None, operation_loading: None, ..s }) && r is Consumed
        } else if s.discover_detail_idx is Some || s.active_tab == PluginViewTab::Discover {
            t == s && r is Ignored
        } else {
            t == s && r is ClosePanel
        }
    } else if layered {
        t == s && r is Ignored
    } else if s.add_marketplace_active {
        match key.code {
            KeyCode::Enter => {
                &&& t == (PluginSearchState { add_marketplace_input: t.add_marketplace_input, add_marketplace_active: false, ..s })
                &&& t.add_marketplace_input.text@.len() == 0 && t.add_marketplace_input.cursor == 0
                &&& if s.add_marketplace_input.text@.len() > 0 {
                    r matches SearchOutcome::AddMarketplace(u) && u@ == s.add_marketplace_input.text@
                } else {
                    r is Consumed
                }
            },
            KeyCode::Char(c) => t == (PluginSearchState { add_marketplace_input: t.add_marketplace_input, ..s })
                && char_inserted(s.add_marketplace_input, t.add_marketplace_input, c) && r is Consumed,
            KeyCode::Backspace => t == (PluginSearchState { add_marketplace_input: t.add_marketplace_input, ..s })
                && char_deleted_back(s.add_marketplace_input, t.add_marketplace_input) && r is Consumed,
            _ => t == s && r is Ignored,
        }
    } else if s.active_tab != PluginViewTab::Discover {
        t == s && r is Ignored
    } else if s.search_focus {
        match key.code {
            KeyCode::Char(c) => t == (PluginSearchState { search_text: t.search_text, ..s })
                && char_inserted(s.search_text, t.search_text, c) && r is Consumed,
            KeyCode::Backspace => t == (PluginSearchState { search_text: t.search_text, ..s })
                && char_deleted_back(s.search_text, t.search_text) && r is Consumed,
            KeyCode::Enter => if s.search_text.text@.len() > 0 {
                t == (PluginSearchState { search_state: SearchState::Loading, ..s })
                    && (r matches SearchOutcome::StartSearch(q) && q@ == s.search_text.text@)
            } else {
                t == s && r is Consumed
            },
            _ => t == s && r is Ignored,
        }
    } else {
        match key.code {
            KeyCode::Char(c) => {
                &&& t == (PluginSearchState { search_text: t.search_text, discover_filtered: t.discover_filtered, discover_cursor: 0, ..s })
                &&& char_inserted(s.search_text, t.search_text, c)
                &&& t.discover_filtered@ == matching_indices(items, lowercase(t.search_text.text@), items.len() as int)
                &&& r is Consumed
            },
            KeyCode::Backspace => {
                &&& t == (PluginSearchState { search_text: t.search_text, discover_filtered: t.discover_filtered, discover_cursor: 0, ..s })
                &&& char_deleted_back(s.search_text, t.search_text)
                &&& t.discover_filtered@ == if lowercase(t.search_text.text@).len() == 0 {
                    Seq::new(items.len(), |i: int| i as usize)
                } else {
                    matching_indices(items, lowercase(t.search_text.text@), items.len() as int)
                }
                &&& r is Consumed
            },
            KeyCode::Enter => {
                let cur = s.discover_cursor as int;
                &&& r is Consumed
                &&& if cur < s.discover_filtered@.len() && s.discover_filtered@[cur] < items.len() {
                    t == (PluginSearchState { discover_detail_idx: Some(s.discover_filtered@[cur]), discover_detail_action: 0, ..s })
                } else {
                    t == s
                }
            },
            _ => t == s && r is Ignored,
        }
    }
}

/// Handles a key on the plugin panel's search layer: Esc leaves a detail
/// view or a confirmation (or closes the panel outside the discover tab);
/// the marketplace input takes text, Enter and Esc; on the discover tab the
/// focused search box takes text, Enter starts a remote search and Esc clears
/// it (or leaves it when empty), while typing outside the box filters the
/// list and Enter opens the highlighted plugin.
pub fn handle_search_key(st: &mut PluginSearchState, items: &Vec<DiscoverItem>, key: KeyPress) -> (r: SearchOutcome)
    requires
        fits(old(st).search_text.text@),
        fits(old(st).add_marketplace_input.text@),
    ensures
        search_key_step(*old(st), *final(st), items@, key, r),
{
    if key.code == KeyCode::Esc {
        if st.detail_plugin_idx.is_some() {
            st.detail_plugin_idx = None;
            return SearchOutcome::Consumed;
        }
        if st.marketplace_detail.is_some() {
            st.marketplace_detail = None;
            st.marketplace_detail_action = 0;
            return SearchOutcome::Consumed;
        }
        if st.confirm_action.is_some() {
            st.confirm_action = None;
            st.operation_loading = None;
            return SearchOutcome::Consumed;
        }
        if st.discover_detail_idx.is_some() {
            return SearchOutcome::Ignored;
        }
        if st.active_tab == PluginViewTab::Discover {
            return SearchOutcome::Ignored;
        }
        return SearchOutcome::ClosePanel;
    }
    if st.detail_plugin_idx.is_some() || st.discover_detail_idx.is_some() || st.marketplace_detail.is_some()
        || st.confirm_action.is_some() {
        return SearchOutcome::Ignored;
    }
    if st.add_marketplace_active {
        return match key.code {
            KeyCode::Enter => {
                let url = st.add_marketplace_input.all_text();
                st.add_marketplace_input = TextAreaState::default();
                st.add_marketplace_active = false;
                if !url.as_str().is_empty() { SearchOutcome::AddMarketplace(url) } else { SearchOutcome::Consumed }
            },
            KeyCode::Char(c) => {
                st.add_marketplace_input.insert_char(c);
                SearchOutcome::Consumed
            },
            KeyCode::Backspace => {
                st.add_marketplace_input.backspace();
                SearchOutcome::Consumed
            },
            _ => SearchOutcome::Ignored,
        };
    }
    if st.active_tab != PluginViewTab::Discover {
        return SearchOutcome::Ignored;
    }
    if st.search_focus {
        return match key.code {
            KeyCode::Char(c) => {
                st.search_text.insert_char(c);
                SearchOutcome::Consumed
            },
            KeyCode::Backspace => {
                st.search_text.backspace();
                SearchOutcome::Consumed
            },
            KeyCode::Enter => {
                let q = st.search_text.all_text();
                if !q.as_str().is_empty() {
                    st.search_state = SearchState::Loading;
                    SearchOutcome::StartSearch(q)
                } else {
                    SearchOutcome::Consumed
                }
            },
            _ => SearchOutcome::Ignored,
        };
    }
    match key.code {
        KeyCode::Char(c) => {
            st.search_text.insert_char(c);
            let q = search_query(st);
            st.discover_filtered = filter_discover(items, &q);
            st.discover_cursor = 0;
            SearchOutcome::Consumed
        },
        KeyCode::Backspace => {
            st.search_text.backspace();
            let q = search_query(st);
            if q.len() == 0 {
                st.discover_filtered = all_indices(items.len());
                assert(st.discover_filtered@ =~= Seq::new(items@.len(), |i: int| i as usize));
            } else {
                st.discover_filtered = filter_discover(items, &q);
            }
            st.discover_cursor = 0;
            SearchOutcome::Consumed
        },
        KeyCode::Enter => {
            let cur = st.discover_cursor;
            if cur < st.discover_filtered.len() && st.discover_filtered[cur] < items.len() {
                st.discover_detail_idx = Some(st.discover_filtered[cur]);
                st.discover_detail_action = 0;
            }
            SearchOutcome::Consumed
        },
        _ => SearchOutcome::Ignored,
    }
}

/// Esc in the focused search box: a non-empty query is cleared, an empty
/// one gives the focus back to the list.
pub fn search_box_escape(st: &mut PluginSearchState)
    ensures
        old(st).search_text.text@.len() == 0 ==> !final(st).search_focus && final(st).search_text == old(st).search_text,
        old(st).search_text.text@.len() > 0 ==> final(st).search_text.text@.len() == 0
            && final(st).search_text.cursor == 0 && final(st).search_focus == old(st).search_focus,
{
    if st.search_text.text.as_str().is_empty() {
        st.search_focus = false;
    } else {
        st.search_text.clear();
    }
}

} // verus!
