//! Rows of the settings panel: switches that flip and choices that cycle.
use vstd::prelude::*;
use crate::config::{AppConfig, PeriConfig, PermissionMode};
use crate::keys::{KeyCode, KeyPress};
use crate::list_nav::{next_selection, previous_selection};
use crate::text::str_eq;

verus! {

pub const ROW_SHOW_DIFF: usize = 0;
pub const ROW_CACHE_WARN: usize = 1;
pub const ROW_STREAMING: usize = 2;
pub const ROW_1M_CONTEXT: usize = 3;
pub const ROW_LANGUAGE: usize = 4;
pub const ROW_ACTIVE_ALIAS: usize = 5;
pub const ROW_PERMISSION_MODE: usize = 6;
/// Number of rows of the panel.
pub const CONFIG_ROW_COUNT: usize = 7;

/// The choices of a cycling row, in display order (none for other rows).
pub open spec fn row_options(row: int) -> Seq<Seq<char>> {
    if row == ROW_STREAMING {
        seq!["streaming"@, "block"@, "none"@]
    } else if row == ROW_LANGUAGE {
        seq!["en"@, "zh"@]
    } else if row == ROW_ACTIVE_ALIAS {
        seq!["opus"@, "sonnet"@, "haiku"@]
    } else if row == ROW_PERMISSION_MODE {
        seq!["default"@, "accept-edit"@, "auto-mode"@, "bypass"@]
    } else {
        Seq::empty()
    }
}

/// Whether a row cycles through choices.
pub open spec fn is_cycle_row(row: int) -> bool {
    row == ROW_STREAMING || row == ROW_LANGUAGE || row == ROW_ACTIVE_ALIAS || row == ROW_PERMISSION_MODE
}

/// Whether a row is an on/off switch.
pub open spec fn is_toggle_row(row: int) -> bool {
    row == ROW_SHOW_DIFF || row == ROW_CACHE_WARN || row == ROW_1M_CONTEXT
}

fn row_option_count(row: usize) -> (r: usize)
    ensures
        r == row_options(row as int).len(),
{
    if row == ROW_STREAMING { 3 } else if row == ROW_LANGUAGE { 2 } else if row == ROW_ACTIVE_ALIAS { 3 }
    else if row == ROW_PERMISSION_MODE { 4 } else { 0 }
}

/// The `i`-th choice of a cycling row.
fn row_option(row: usize, i: usize) -> (r: &'static str)
    requires
        i < row_options(row as int).len(),
    ensures
        r@ == row_options(row as int)[i as int],
{
    if row == ROW_STREAMING {
        if i == 0 { "streaming" } else if i == 1 { "block" } else { "none" }
    } else if row == ROW_LANGUAGE {
        if i == 0 { "en" } else { "zh" }
    } else if row == ROW_ACTIVE_ALIAS {
        if i == 0 { "opus" } else if i == 1 { "sonnet" } else { "haiku" }
    } else {
        if i == 0 { "default" } else if i == 1 { "accept-edit" } else if i == 2 { "auto-mode" } else { "bypass" }
    }
}

/// First position of `v` in `opts`, or -1.
pub open spec fn first_index(opts: Seq<Seq<char>>, v: Seq<char>) -> int
    decreases opts.len(),
{
    if opts.len() == 0 {
        -1
    } else {
        let j = first_index(opts.drop_last(), v);
        if j >= 0 { j } else if opts.last() == v { opts.len() - 1 } else { -1 }
    }
}

pub proof fn lemma_first_index(opts: Seq<Seq<char>>, v: Seq<char>)
    ensures
        -1 <= first_index(opts, v) < opts.len(),
        first_index(opts, v) == -1 <==> (forall|j: int| 0 <= j < opts.len() ==> opts[j] != v),
        first_index(opts, v) >= 0 ==> opts[first_index(opts, v)] == v
            && (forall|j: int| 0 <= j < first_index(opts, v) ==> opts[j] != v),
    decreases opts.len(),
{
    if opts.len() > 0 {
        lemma_first_index(opts.drop_last(), v);
        assert forall|j: int| 0 <= j < opts.len() - 1 implies opts.drop_last()[j] == opts[j] by {}
    }
}

/// Index of the current value among the choices, or `dflt` when it is missing
/// or not one of them.
pub open spec fn index_or(opts: Seq<Seq<char>>, v: Option<Seq<char>>, dflt: int) -> int {
    match v {
        Some(s) => { let i = first_index(opts, s); if i >= 0 { i } else { dflt } },
        None => dflt,
    }
}

fn find_option(row: usize, v: &str) -> (r: Option<usize>)
    ensures
        match r {
            Some(i) => i as int == first_index(row_options(row as int), v@) && i < row_options(row as int).len(),
            None => first_index(row_options(row as int), v@) == -1,
        },
{
    let ghost opts = row_options(row as int);
    proof { lemma_first_index(opts, v@); }
    let n = row_option_count(row);
    let mut i: usize = 0;
    while i < n
        invariant
            n == opts.len(),
            opts == row_options(row as int),
            i <= n,
            forall|j: int| 0 <= j < i ==> opts[j] != v@,
        decreases n - i,
    {
        if str_eq(row_option(row, i), v) {
            proof {
                lemma_first_index(opts, v@);
                if first_index(opts, v@) != i {
                    assert(false);
                }
            }
            return Some(i);
        }
        i = i + 1;
    }
    None
}

fn index_or_exec(row: usize, v: Option<&String>, dflt: usize) -> (r: usize)
    ensures
        r as int == index_or(row_options(row as int), match v { Some(s) => Some(s@), None => None }, dflt as int),
        dflt < row_options(row as int).len() ==> r < row_options(row as int).len(),
{
    match v {
        Some(s) => match find_option(row, s.as_str()) {
            Some(i) => i,
            None => dflt,
        },
        None => dflt,
    }
}

/// The next (or previous) position of a ring of `len` entries.
pub open spec fn cycle_step(idx: int, len: int, forward: bool) -> int {
    if forward { (idx + 1) % len } else { (idx + len - 1) % len }
}

fn cycle_step_exec(idx: usize, len: usize, forward: bool) -> (r: usize)
    requires
        idx < len,
    ensures
        r as int == cycle_step(idx as int, len as int, forward),
        r < len,
{
    if forward {
        crate::list_nav::cycle_next(idx, len)
    } else {
        crate::list_nav::cycle_previous(idx, len)
    }
}

pub open spec fn opt_view(v: Option<String>) -> Option<Seq<char>> {
    match v {
        Some(s) => Some(s@),
        None => None,
    }
}

/// The settings after flipping an on/off row (an unset 1M-context switch
/// counts as off), and the new value; other rows change nothing.
pub open spec fn toggle_spec(c: PeriConfig, row: int) -> (PeriConfig, Option<bool>) {
    if row == ROW_SHOW_DIFF {
        (PeriConfig { config: AppConfig { diff_enabled: !c.config.diff_enabled, ..c.config } }, Some(!c.config.diff_enabled))
    } else if row == ROW_CACHE_WARN {
        (PeriConfig { config: AppConfig { show_cache_warning: !c.config.show_cache_warning, ..c.config } },
         Some(!c.config.show_cache_warning))
    } else if row == ROW_1M_CONTEXT {
        let cur = match c.config.context_1m { Some(b) => b, None => false };
        (PeriConfig { config: AppConfig { context_1m: Some(!cur), ..c.config } }, Some(!cur))
    } else {
        (c, None)
    }
}

/// Flips an on/off row and returns the new value; other rows give `None`.
pub fn apply_toggle_row(cfg: &mut PeriConfig, row: usize) -> (r: Option<bool>)
    ensures
        (*final(cfg), r) == toggle_spec(*old(cfg), row as int),
{
    if row == ROW_SHOW_DIFF {
        cfg.config.diff_enabled = !cfg.config.diff_enabled;
        Some(cfg.config.diff_enabled)
    } else if row == ROW_CACHE_WARN {
        cfg.config.show_cache_warning = !cfg.config.show_cache_warning;
        Some(cfg.config.show_cache_warning)
    } else if row == ROW_1M_CONTEXT {
        let cur = match cfg.config.context_1m { Some(b) => b, None => false };
        cfg.config.context_1m = Some(!cur);
        Some(!cur)
    } else {
        None
    }
}

/// Position a cycling row starts from in `apply_cycle_row`: the stored
/// choice, else the first one; the permission row always starts at its first.
pub open spec fn stored_index(cfg: PeriConfig, row: int) -> int {
    if row == ROW_STREAMING {
        index_or(row_options(row), opt_view(cfg.config.streaming_mode), 0)
    } else if row == ROW_LANGUAGE {
        index_or(row_options(row), opt_view(cfg.config.language), 0)
    } else if row == ROW_ACTIVE_ALIAS {
        index_or(row_options(row), Some(cfg.config.active_alias@), 0)
    } else {
        0
    }
}

/// Whether `after` is `before` with a cycling row set to choice `next`.
pub open spec fn choice_applied(before: PeriConfig, after: PeriConfig, row: int, next: int) -> bool {
    let v = row_options(row)[next];
    &&& after.config == (AppConfig { streaming_mode: after.config.streaming_mode, language: after.config.language,
        active_alias: after.config.active_alias, ..before.config })
    &&& after.config.profiles == before.config.profiles
    &&& after.config.providers == before.config.providers
    &&& after.config.diff_enabled == before.config.diff_enabled
    &&& after.config.show_cache_warning == before.config.show_cache_warning
    &&& after.config.context_1m == before.config.context_1m
    &&& (if row == ROW_STREAMING { opt_view(after.config.streaming_mode) == Some(v) } else {
            after.config.streaming_mode == before.config.streaming_mode })
    &&& (if row == ROW_LANGUAGE { opt_view(after.config.language) == Some(v) } else {
            after.config.language == before.config.language })
    &&& (if row == ROW_ACTIVE_ALIAS { after.config.active_alias@ == v } else {
            after.config.active_alias == before.config.active_alias })
}

fn store_choice(cfg: &mut PeriConfig, row: usize, next: usize)
    requires
        is_cycle_row(row as int),
        next < row_options(row as int).len(),
    ensures
        choice_applied(*old(cfg), *final(cfg), row as int, next as int),
{
    let v = row_option(row, next);
    if row == ROW_STREAMING {
        cfg.config.streaming_mode = Some(v.to_string());
    } else if row == ROW_LANGUAGE {
        cfg.config.language = Some(v.to_string());
    } else if row == ROW_ACTIVE_ALIAS {
        cfg.config.active_alias = v.to_string();
    }
}

/// Moves a cycling row one choice forward or back (wrapping) from the stored
/// choice, stores it, and returns its position; other rows give `None` and
/// change nothing.
pub fn apply_cycle_row(cfg: &mut PeriConfig, row: usize, forward: bool) -> (r: Option<usize>)
    ensures
        is_cycle_row(row as int) ==> ({
            let next = cycle_step(stored_index(*old(cfg), row as int), row_options(row as int).len() as int, forward);
            &&& r == Some(next as usize)
            &&& choice_applied(*old(cfg), *final(cfg), row as int, next)
        }),
        !is_cycle_row(row as int) ==> r is None && *final(cfg) == *old(cfg),
{
    if !(row == ROW_STREAMING || row == ROW_LANGUAGE || row == ROW_ACTIVE_ALIAS || row == ROW_PERMISSION_MODE) {
        return None;
    }
    let n = row_option_count(row);
    let cur = if row == ROW_STREAMING {
        index_or_exec(row, cfg.config.streaming_mode.as_ref(), 0)
    } else if row == ROW_LANGUAGE {
        index_or_exec(row, cfg.config.language.as_ref(), 0)
    } else if row == ROW_ACTIVE_ALIAS {
        index_or_exec(row, Some(&cfg.config.active_alias), 0)
    } else {
        0
    };
    let next = cycle_step_exec(cur, n, forward);
    store_choice(cfg, row, next);
    Some(next)
}


/// Label of a permission mode, as shown and stored.
pub open spec fn mode_label(m: PermissionMode) -> Seq<char> {
    match m {
        PermissionMode::Default => "default"@,
        PermissionMode::AcceptEdit => "accept-edit"@,
        PermissionMode::AutoMode => "auto-mode"@,
        PermissionMode::Bypass => "bypass"@,
    }
}

/// The permission mode a label names, if any.
pub open spec fn parse_mode(s: Seq<char>) -> Option<PermissionMode> {
    if s == "default"@ {
        Some(PermissionMode::Default)
    } else if s == "accept-edit"@ {
        Some(PermissionMode::AcceptEdit)
    } else if s == "auto-mode"@ {
        Some(PermissionMode::AutoMode)
    } else if s == "bypass"@ {
        Some(PermissionMode::Bypass)
    } else {
        None
    }
}

/// The label of a permission mode.
pub fn permission_mode_label(m: PermissionMode) -> (r: &'static str)
    ensures
        r@ == mode_label(m),
{
    match m {
        PermissionMode::Default => "default",
        PermissionMode::AcceptEdit => "accept-edit",
        PermissionMode::AutoMode => "auto-mode",
        PermissionMode::Bypass => "bypass",
    }
}

/// The permission mode named by a label.
pub fn parse_permission_mode(s: &str) -> (r: Option<PermissionMode>)
    ensures
        r == parse_mode(s@),
{
    if str_eq(s, "default") {
        Some(PermissionMode::Default)
    } else if str_eq(s, "accept-edit") {
        Some(PermissionMode::AcceptEdit)
    } else if str_eq(s, "auto-mode") {
        Some(PermissionMode::AutoMode)
    } else if str_eq(s, "bypass") {
        Some(PermissionMode::Bypass)
    } else {
        None
    }
}

/// A mode's label parses back to that mode.
pub proof fn law_parse_label_roundtrip(m: PermissionMode)
    ensures
        parse_mode(mode_label(m)) == Some(m),
{
    lemma_choice_lengths();
}

/// A label that parses is the label of the mode it parses to.
pub proof fn law_label_of_parsed(s: Seq<char>)
    ensures
        parse_mode(s) matches Some(m) ==> mode_label(m) == s,
{
}

/// Each choice of the permission row is a mode's label.
pub proof fn law_permission_choices_parse(i: int)
    requires
        0 <= i < row_options(ROW_PERMISSION_MODE as int).len(),
    ensures
        parse_mode(row_options(ROW_PERMISSION_MODE as int)[i]) is Some,
{
}

/// Flipping a switch twice gives the settings back; the 1M-context switch
/// comes back to its effective value (unset counts as off).
pub proof fn law_toggle_twice(c: PeriConfig, row: int)
    ensures
        (row == ROW_SHOW_DIFF || row == ROW_CACHE_WARN) ==> toggle_spec(toggle_spec(c, row).0, row).0 == c,
        row == ROW_1M_CONTEXT ==> toggle_spec(toggle_spec(c, row).0, row).0.config.context_1m
            == Some(match c.config.context_1m { Some(b) => b, None => false }),
        !is_toggle_row(row) ==> toggle_spec(c, row) == (c, None::<bool>),
{
}

/// The stored value of a cycling row.
pub open spec fn row_value(c: PeriConfig, row: int) -> Option<Seq<char>> {
    if row == ROW_STREAMING {
        opt_view(c.config.streaming_mode)
    } else if row == ROW_LANGUAGE {
        opt_view(c.config.language)
    } else {
        Some(c.config.active_alias@)
    }
}

proof fn lemma_choice_lengths()
    ensures
        "streaming"@.len() == 9, "block"@.len() == 5, "none"@.len() == 4,
        "en"@.len() == 2, "zh"@.len() == 2, "en"@[0] == 'e', "zh"@[0] == 'z',
        "opus"@.len() == 4, "sonnet"@.len() == 6, "haiku"@.len() == 5,
        "default"@.len() == 7, "accept-edit"@.len() == 11, "auto-mode"@.len() == 9, "bypass"@.len() == 6,
{
    reveal_strlit("streaming");
    reveal_strlit("block");
    reveal_strlit("none");
    reveal_strlit("en");
    reveal_strlit("zh");
    reveal_strlit("opus");
    reveal_strlit("sonnet");
    reveal_strlit("haiku");
    reveal_strlit("default");
    reveal_strlit("accept-edit");
    reveal_strlit("auto-mode");
    reveal_strlit("bypass");
}

proof fn lemma_choices_distinct(row: int, i: int)
    requires
        row == ROW_STREAMING || row == ROW_LANGUAGE || row == ROW_ACTIVE_ALIAS || row == ROW_PERMISSION_MODE,
        0 <= i < row_options(row).len(),
    ensures
        first_index(row_options(row), row_options(row)[i]) == i,
{
    lemma_choice_lengths();
    let opts = row_options(row);
    assert forall|a: int, b: int| 0 <= a < opts.len() && 0 <= b < opts.len() && a != b implies opts[a] != opts[b] by {
        if row == ROW_LANGUAGE {
            assert(opts[a][0] != opts[b][0]);
        } else {
            assert(opts[a].len() != opts[b].len());
        }
    }
    lemma_first_index(opts, opts[i]);
}

/// Cycling a choice row one step (either way) and then one step back gives
/// the row its value again and leaves every other setting as it was.
pub proof fn law_cycle_forward_then_back(c0: PeriConfig, c1: PeriConfig, c2: PeriConfig, row: int, i: int, forward: bool)
    requires
        row == ROW_STREAMING || row == ROW_LANGUAGE || row == ROW_ACTIVE_ALIAS,
        0 <= i < row_options(row).len(),
        row_value(c0, row) == Some(row_options(row)[i]),
        choice_applied(c0, c1, row, cycle_step(stored_index(c0, row), row_options(row).len() as int, forward)),
        choice_applied(c1, c2, row, cycle_step(stored_index(c1, row), row_options(row).len() as int, !forward)),
    ensures
        row_value(c2, row) == row_value(c0, row),
        stored_index(c2, row) == stored_index(c0, row),
        c2.config == (AppConfig { streaming_mode: c2.config.streaming_mode, language: c2.config.language,
            active_alias: c2.config.active_alias, ..c0.config }),
        row != ROW_STREAMING ==> c2.config.streaming_mode == c0.config.streaming_mode,
        row != ROW_LANGUAGE ==> c2.config.language == c0.config.language,
        row != ROW_ACTIVE_ALIAS ==> c2.config.active_alias == c0.config.active_alias,
{
    let opts = row_options(row);
    let n = opts.len() as int;
    lemma_choices_distinct(row, i);
    assert(stored_index(c0, row) == i);
    let j = cycle_step(i, n, forward);
    if forward {
        assert(0 <= j < n) by (nonlinear_arith) requires j == (i + 1) % n, n > 0;
    } else {
        assert(0 <= j < n) by (nonlinear_arith) requires j == (i + n - 1) % n, n > 0, 0 <= i;
    }
    lemma_choices_distinct(row, j);
    assert(stored_index(c1, row) == j);
    if forward {
        assert(cycle_step(j, n, false) == i) by (nonlinear_arith)
            requires j == (i + 1) % n, 0 <= i < n, cycle_step(j, n, false) == (j + n - 1) % n;
    } else {
        assert(cycle_step(j, n, true) == i) by (nonlinear_arith)
            requires j == (i + n - 1) % n, 0 <= i < n, cycle_step(j, n, true) == (j + 1) % n;
    }
    lemma_choices_distinct(row, i);
}


/// The value a switch row shows (off without settings or on other rows).
pub open spec fn shown_toggle(cfg: Option<PeriConfig>, row: int) -> bool {
    match cfg {
        Some(c) => if row == ROW_SHOW_DIFF {
            c.config.diff_enabled
        } else if row == ROW_CACHE_WARN {
            c.config.show_cache_warning
        } else if row == ROW_1M_CONTEXT {
            match c.config.context_1m { Some(b) => b, None => false }
        } else {
            false
        },
        None => false,
    }
}

/// The value a switch row shows.
pub fn read_toggle(cfg: Option<&PeriConfig>, row: usize) -> (r: bool)
    ensures
        r == shown_toggle(match cfg { Some(c) => Some(*c), None => None }, row as int),
{
    match cfg {
        Some(c) => if row == ROW_SHOW_DIFF {
            c.config.diff_enabled
        } else if row == ROW_CACHE_WARN {
            c.config.show_cache_warning
        } else if row == ROW_1M_CONTEXT {
            match c.config.context_1m { Some(b) => b, None => false }
        } else {
            false
        },
        None => false,
    }
}

/// The choice a cycling row shows: streaming and language fall back to their
/// first choice ("streaming", "en"), the alias row to "sonnet" when unset or
/// unknown, and the permission row follows the current mode.
pub open spec fn shown_index(cfg: Option<PeriConfig>, mode: Option<PermissionMode>, row: int) -> int {
    let opts = row_options(row);
    if row == ROW_STREAMING {
        match cfg {
            Some(c) => match c.config.streaming_mode {
                Some(v) => index_or(opts, Some(v@), 0),
                None => index_or(opts, Some("streaming"@), 0),
            },
            None => index_or(opts, Some("streaming"@), 0),
        }
    } else if row == ROW_LANGUAGE {
        match cfg {
            Some(c) => match c.config.language {
                Some(v) => index_or(opts, Some(v@), 0),
                None => index_or(opts, Some("en"@), 0),
            },
            None => index_or(opts, Some("en"@), 0),
        }
    } else if row == ROW_ACTIVE_ALIAS {
        let cur = match cfg { Some(c) => c.config.active_alias@, None => Seq::empty() };
        if cur.len() == 0 { 1 } else { index_or(opts, Some(cur), 1) }
    } else if row == ROW_PERMISSION_MODE {
        let cur = match mode { Some(m) => mode_label(m), None => "default"@ };
        index_or(opts, Some(cur), 0)
    } else {
        0
    }
}

/// The choice a cycling row shows.
pub fn read_cycle_idx(cfg: Option<&PeriConfig>, mode: Option<PermissionMode>, row: usize) -> (r: usize)
    ensures
        r as int == shown_index(match cfg { Some(c) => Some(*c), None => None }, mode, row as int),
        is_cycle_row(row as int) ==> r < row_options(row as int).len(),
{
    if row == ROW_STREAMING {
        let found = match cfg {
            Some(c) => match &c.config.streaming_mode {
                Some(v) => find_option(row, v.as_str()),
                None => find_option(row, "streaming"),
            },
            None => find_option(row, "streaming"),
        };
        match found { Some(i) => i, None => 0 }
    } else if row == ROW_LANGUAGE {
        let found = match cfg {
            Some(c) => match &c.config.language {
                Some(v) => find_option(row, v.as_str()),
                None => find_option(row, "en"),
            },
            None => find_option(row, "en"),
        };
        match found { Some(i) => i, None => 0 }
    } else if row == ROW_ACTIVE_ALIAS {
        let empty = String::new();
        let cur: &String = match cfg { Some(c) => &c.config.active_alias, None => &empty };
        if cur.as_str().is_empty() {
            1
        } else {
            match find_option(row, cur.as_str()) { Some(i) => i, None => 1 }
        }
    } else if row == ROW_PERMISSION_MODE {
        let cur = match mode { Some(m) => permission_mode_label(m), None => "default" };
        match find_option(row, cur) { Some(i) => i, None => 0 }
    } else {
        0
    }
}

/// What activating a row asks of the host.
#[derive(Debug, PartialEq, Eq, Structural)]
pub enum RowEffect {
    /// Nothing changed.
    Nothing,
    /// The settings changed and should be written to disk.
    SaveSettings,
    /// The runtime permission mode changed (it is not written to disk).
    ModeChanged,
}

/// What activating row `row` does to the settings and the mode (see
/// `activate_row`); `forward` picks the direction of a choice row.
pub open spec fn row_activation(c0: PeriConfig, m0: PermissionMode, c1: PeriConfig, m1: PermissionMode, row: int, forward: bool, r: RowEffect) -> bool {
    &&& (is_toggle_row(row) ==> r == RowEffect::SaveSettings
        && c1 == toggle_spec(c0, row).0 && m1 == m0)
    &&& ((is_cycle_row(row) && row != ROW_PERMISSION_MODE as int) ==> r == RowEffect::SaveSettings
        && m1 == m0
        && choice_applied(c0, c1, row,
            cycle_step(shown_index(Some(c0), Some(m0), row), row_options(row).len() as int, forward)))
    &&& (row == ROW_PERMISSION_MODE as int ==> r == RowEffect::ModeChanged && c1 == c0
        && Some(m1) == parse_mode(row_options(row)[
            cycle_step(shown_index(Some(c0), Some(m0), row), 4, forward)]))
    &&& (!is_toggle_row(row) && !is_cycle_row(row) ==> r == RowEffect::Nothing
        && c1 == c0 && m1 == m0)
}

/// Activates a row: a switch flips, a choice moves forward or back from the
/// one shown. The permission row sets the runtime mode instead of the settings.
pub fn activate_row(cfg: &mut PeriConfig, mode: &mut PermissionMode, row: usize, forward: bool) -> (r: RowEffect)
    ensures
        row_activation(*old(cfg), *old(mode), *final(cfg), *final(mode), row as int, forward, r),
{
    if row == ROW_SHOW_DIFF || row == ROW_CACHE_WARN || row == ROW_1M_CONTEXT {
        apply_toggle_row(cfg, row);
        return RowEffect::SaveSettings;
    }
    if !(row == ROW_STREAMING || row == ROW_LANGUAGE || row == ROW_ACTIVE_ALIAS || row == ROW_PERMISSION_MODE) {
        return RowEffect::Nothing;
    }
    let n = row_option_count(row);
    let cur = read_cycle_idx(Some(&*cfg), Some(*mode), row);
    let next = cycle_step_exec(cur, n, forward);
    if row == ROW_PERMISSION_MODE {
        let label = row_option(row, next);
        proof { law_permission_choices_parse(next as int); }
        match parse_permission_mode(label) {
            Some(m) => { *mode = m; },
            None => {},
        }
        return RowEffect::ModeChanged;
    }
    store_choice(cfg, row, next);
    RowEffect::SaveSettings
}

/// What a key on the settings panel asks of the host.
#[derive(Debug, PartialEq, Eq, Structural)]
pub enum ConfigKeyOutcome {
    /// Close the panel.
    Close,
    /// The key was used; the effect of an activated row, if any.
    Applied(RowEffect),
}

/// Handles a key on the settings panel: Esc closes, Up/Down move the cursor,
/// Space/Enter/Right activate the row forward and Left backward.
pub fn config_panel_on_key(cursor: &mut usize, cfg: &mut PeriConfig, mode: &mut PermissionMode, key: KeyPress) -> (r: ConfigKeyOutcome)
    ensures
        key.code == KeyCode::Esc ==> r == ConfigKeyOutcome::Close && *final(cursor) == *old(cursor)
            && *final(cfg) == *old(cfg) && *final(mode) == *old(mode),
        key.code == KeyCode::Up ==> *final(cursor) as int == crate::list_nav::prev_sel(*old(cursor) as int)
            && r == ConfigKeyOutcome::Applied(RowEffect::Nothing) && *final(cfg) == *old(cfg) && *final(mode) == *old(mode),
        key.code == KeyCode::Down ==> *final(cursor) as int == crate::list_nav::next_sel(*old(cursor) as int, CONFIG_ROW_COUNT as int)
            && r == ConfigKeyOutcome::Applied(RowEffect::Nothing) && *final(cfg) == *old(cfg) && *final(mode) == *old(mode),
        (key.code == KeyCode::Char(' ') || key.code == KeyCode::Enter || key.code == KeyCode::Right || key.code == KeyCode::Left)
            ==> *final(cursor) == *old(cursor) && (r matches ConfigKeyOutcome::Applied(eff)
                && row_activation(*old(cfg), *old(mode), *final(cfg), *final(mode), *old(cursor) as int, key.code != KeyCode::Left, eff)),
        !(key.code == KeyCode::Esc || key.code == KeyCode::Up || key.code == KeyCode::Down || key.code == KeyCode::Char(' ')
            || key.code == KeyCode::Enter || key.code == KeyCode::Right || key.code == KeyCode::Left)
            ==> r == ConfigKeyOutcome::Applied(RowEffect::Nothing) && *final(cursor) == *old(cursor)
                && *final(cfg) == *old(cfg) && *final(mode) == *old(mode),
{
    match key.code {
        KeyCode::Esc => ConfigKeyOutcome::Close,
        KeyCode::Up => {
            *cursor = previous_selection(*cursor);
            ConfigKeyOutcome::Applied(RowEffect::Nothing)
        },
        KeyCode::Down => {
            *cursor = next_selection(*cursor, CONFIG_ROW_COUNT);
            ConfigKeyOutcome::Applied(RowEffect::Nothing)
        },
        KeyCode::Enter | KeyCode::Right => ConfigKeyOutcome::Applied(activate_row(cfg, mode, *cursor, true)),
        KeyCode::Left => ConfigKeyOutcome::Applied(activate_row(cfg, mode, *cursor, false)),
        KeyCode::Char(c) => {
            if c == ' ' {
                ConfigKeyOutcome::Applied(activate_row(cfg, mode, *cursor, true))
            } else {
                ConfigKeyOutcome::Applied(RowEffect::Nothing)
            }
        },
        _ => ConfigKeyOutcome::Applied(RowEffect::Nothing),
    }
}

} // verus!
