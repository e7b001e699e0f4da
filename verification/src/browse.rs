//! Keys of the list panels that can delete an entry after confirmation:
//! the conversation history and the scheduled prompts.
use vstd::prelude::*;
use crate::keys::{KeyCode, KeyPress};
use crate::list_nav::{next_sel, next_selection, prev_sel, previous_selection};

verus! {

/// Cursor and confirmation state of a list panel.
#[derive(Debug)]
pub struct ListDeleteState {
    pub cursor: usize,
    pub confirm_delete: bool,
}

/// What a key on the history panel asks of the host.
#[derive(Debug, PartialEq, Eq)]
pub enum ThreadBrowserAction {
    /// Nothing more to do.
    Consumed,
    /// Load this conversation and close the panel.
    Load(String),
    /// Delete this conversation.
    Delete(String),
}

/// Handles a key on the history panel: Up/Down move, Enter loads the
/// highlighted conversation, d or Delete asks to delete it; while asking,
/// Enter deletes and any other key cancels.
pub fn thread_browser_on_key(st: &mut ListDeleteState, ids: &Vec<String>, key: KeyPress) -> (r: ThreadBrowserAction)
    ensures
        old(st).confirm_delete ==> !final(st).confirm_delete && final(st).cursor == old(st).cursor
            && (if key.code == KeyCode::Enter && old(st).cursor < ids@.len() {
                r matches ThreadBrowserAction::Delete(id) && id@ == ids@[old(st).cursor as int]@
            } else {
                r == ThreadBrowserAction::Consumed
            }),
        !old(st).confirm_delete ==> (if key.code == KeyCode::Up {
            final(st).cursor as int == prev_sel(old(st).cursor as int) && !final(st).confirm_delete && r == ThreadBrowserAction::Consumed
        } else if key.code == KeyCode::Down {
            final(st).cursor as int == next_sel(old(st).cursor as int, ids@.len() as int) && !final(st).confirm_delete
                && r == ThreadBrowserAction::Consumed
        } else if key.code == KeyCode::Enter {
            *final(st) == *old(st) && (if old(st).cursor < ids@.len() {
                r matches ThreadBrowserAction::Load(id) && id@ == ids@[old(st).cursor as int]@
            } else {
                r == ThreadBrowserAction::Consumed
            })
        } else if key.code == KeyCode::Char('d') || key.code == KeyCode::Delete {
            final(st).confirm_delete == (ids@.len() > 0) && final(st).cursor == old(st).cursor && r == ThreadBrowserAction::Consumed
        } else {
            *final(st) == *old(st) && r == ThreadBrowserAction::Consumed
        }),
{
    if st.confirm_delete {
        st.confirm_delete = false;
        return match key.code {
            KeyCode::Enter => if st.cursor < ids.len() {
                ThreadBrowserAction::Delete(ids[st.cursor].clone())
            } else {
                ThreadBrowserAction::Consumed
            },
            _ => ThreadBrowserAction::Consumed,
        };
    }
    match key.code {
        KeyCode::Up => {
            st.cursor = previous_selection(st.cursor);
            ThreadBrowserAction::Consumed
        },
        KeyCode::Down => {
            st.cursor = next_selection(st.cursor, ids.len());
            ThreadBrowserAction::Consumed
        },
        KeyCode::Enter => if st.cursor < ids.len() {
            ThreadBrowserAction::Load(ids[st.cursor].clone())
        } else {
            ThreadBrowserAction::Consumed
        },
        KeyCode::Char(c) => {
            if c == 'd' && ids.len() > 0 {
                st.confirm_delete = true;
            }
            ThreadBrowserAction::Consumed
        },
        KeyCode::Delete => {
            if ids.len() > 0 {
                st.confirm_delete = true;
            }
            ThreadBrowserAction::Consumed
        },
        _ => ThreadBrowserAction::Consumed,
    }
}

/// Handles a click on the history panel, given the conversation row it hit
/// (if any): outside the delete question, a hit row becomes the cursor and its
/// conversation loads (the panel closes). Any other left click is taken so
/// that it does not reach the messages below; other mouse events are not for
/// the panel (`None`).
pub fn thread_browser_on_click(st: &mut ListDeleteState, ids: &Vec<String>, hit: Option<usize>, left_down: bool)
    -> (r: Option<ThreadBrowserAction>)
    ensures
        !old(st).confirm_delete && hit is Some ==> ({
            let idx = hit.unwrap();
            &&& *final(st) == (ListDeleteState { cursor: idx, ..*old(st) })
            &&& if idx < ids@.len() {
                r matches Some(ThreadBrowserAction::Load(id)) && id@ == ids@[idx as int]@
            } else {
                r == Some(ThreadBrowserAction::Consumed)
            }
        }),
        !(!old(st).confirm_delete && hit is Some) ==> *final(st) == *old(st)
            && r == (if left_down { Some(ThreadBrowserAction::Consumed) } else { None }),
{
    if !st.confirm_delete {
        if let Some(idx) = hit {
            st.cursor = idx;
            return if idx < ids.len() {
                Some(ThreadBrowserAction::Load(ids[idx].clone()))
            } else {
                Some(ThreadBrowserAction::Consumed)
            };
        }
    }
    if left_down { Some(ThreadBrowserAction::Consumed) } else { None }
}

/// Handles a key on the scheduled-prompt panel: Up/k and Down/j move (the
/// cursor stays on the list), d asks to delete; while asking, Ctrl+C is left
/// alone and any other key ends the question. Deleting and toggling are not
/// wired to the session yet, so no key asks anything of the host.
pub fn cron_panel_on_key(st: &mut ListDeleteState, count: usize, key: KeyPress)
    ensures
        old(st).confirm_delete ==> final(st).cursor == old(st).cursor
            && final(st).confirm_delete == (key.code == KeyCode::Char('c') && key.ctrl),
        !old(st).confirm_delete ==> (if key.code == KeyCode::Up || key.code == KeyCode::Char('k') {
            final(st).cursor as int == prev_sel(old(st).cursor as int) && !final(st).confirm_delete
        } else if key.code == KeyCode::Down || key.code == KeyCode::Char('j') {
            final(st).cursor == (if count > 0 { if old(st).cursor + 1 < count { (old(st).cursor + 1) as usize } else { (count - 1) as usize } } else { old(st).cursor })
                && !final(st).confirm_delete
        } else if key.code == KeyCode::Char('d') {
            final(st).confirm_delete == (count > 0) && final(st).cursor == old(st).cursor
        } else {
            *final(st) == *old(st)
        }),
{
    if st.confirm_delete {
        let keep = match key.code {
            KeyCode::Char(c) => c == 'c' && key.ctrl,
            _ => false,
        };
        st.confirm_delete = keep;
        return;
    }
    match key.code {
        KeyCode::Up => { st.cursor = previous_selection(st.cursor); },
        KeyCode::Down => {
            if count > 0 {
                st.cursor = if st.cursor < count - 1 { st.cursor + 1 } else { count - 1 };
            }
        },
        KeyCode::Char(c) => {
            if c == 'k' {
                st.cursor = previous_selection(st.cursor);
            } else if c == 'j' {
                if count > 0 {
                    st.cursor = if st.cursor < count - 1 { st.cursor + 1 } else { count - 1 };
                }
            } else if c == 'd' {
                if count > 0 {
                    st.confirm_delete = true;
                }
            }
        },
        _ => {},
    }
}


/// What a key on the task or tool-server panel asks of the host.
#[derive(Debug, Clone, Copy, PartialEq, Eq, Structural)]
pub enum ListPanelAction {
    /// Nothing more to do.
    Consumed,
    /// Close the panel.
    Close,
    /// Cancel background task `i`, then close the panel.
    CancelTaskAndClose(usize),
    /// Start authorising tool server `i`.
    Authorize(usize),
    /// Open entry `i` in the editor.
    Open(usize),
    /// The key is not for the panel.
    Ignored,
}

/// Handles a key on the task panel, whose rows are the background tasks,
/// then the scheduled prompts, then the sub-agents: Esc closes, Enter on a
/// background task cancels it and closes (elsewhere it just closes),
/// Up/Down move.
pub fn tasks_panel_on_key(selected: &mut usize, bg_count: usize, cron_count: usize, subagent_count: usize, key: KeyPress) -> (r: ListPanelAction)
    requires
        bg_count + cron_count + subagent_count <= usize::MAX,
    ensures
        key.code == KeyCode::Esc ==> r == ListPanelAction::Close && *final(selected) == *old(selected),
        key.code == KeyCode::Enter ==> *final(selected) == *old(selected) && r == (if *old(selected) < bg_count {
            ListPanelAction::CancelTaskAndClose(*old(selected))
        } else {
            ListPanelAction::Close
        }),
        key.code == KeyCode::Up ==> *final(selected) as int == prev_sel(*old(selected) as int) && r == ListPanelAction::Consumed,
        key.code == KeyCode::Down ==> ({
            let total = bg_count + cron_count + subagent_count;
            *final(selected) == (if total > 0 { next_sel(*old(selected) as int, total) as usize } else { *old(selected) })
                && r == ListPanelAction::Consumed
        }),
        !(key.code == KeyCode::Esc || key.code == KeyCode::Enter || key.code == KeyCode::Up || key.code == KeyCode::Down)
            ==> r == ListPanelAction::Consumed && *final(selected) == *old(selected),
{
    match key.code {
        KeyCode::Esc => ListPanelAction::Close,
        KeyCode::Enter => if *selected < bg_count { ListPanelAction::CancelTaskAndClose(*selected) } else { ListPanelAction::Close },
        KeyCode::Up => {
            *selected = previous_selection(*selected);
            ListPanelAction::Consumed
        },
        KeyCode::Down => {
            let total = bg_count + cron_count + subagent_count;
            if total > 0 {
                *selected = next_selection(*selected, total);
            }
            ListPanelAction::Consumed
        },
        _ => ListPanelAction::Consumed,
    }
}

/// Section of the task panel a row belongs to.
#[derive(Debug, Clone, Copy, PartialEq, Eq, Structural)]
pub enum TaskSection {
    Background(usize),
    Scheduled(usize),
    SubAgent(usize),
}

/// Which section row `sel` is in, and its position there (none past the end).
pub fn task_row(sel: usize, bg_count: usize, cron_count: usize, subagent_count: usize) -> (r: Option<TaskSection>)
    requires
        bg_count + cron_count + subagent_count <= usize::MAX,
    ensures
        r == if sel < bg_count { Some(TaskSection::Background(sel)) }
            else if sel < bg_count + cron_count { Some(TaskSection::Scheduled((sel - bg_count) as usize)) }
            else if sel < bg_count + cron_count + subagent_count { Some(TaskSection::SubAgent((sel - bg_count - cron_count) as usize)) }
            else { None },
{
    if sel < bg_count {
        Some(TaskSection::Background(sel))
    } else if sel - bg_count < cron_count {
        Some(TaskSection::Scheduled(sel - bg_count))
    } else if sel - bg_count - cron_count < subagent_count {
        Some(TaskSection::SubAgent(sel - bg_count - cron_count))
    } else {
        None
    }
}

/// Handles a key on the tool-server panel: Esc closes, Enter on a server
/// waiting for authorisation starts it (elsewhere Enter closes), Up/Down move.
pub fn mcp_panel_on_key(selected: &mut usize, needs_auth: &Vec<bool>, key: KeyPress) -> (r: ListPanelAction)
    ensures
        key.code == KeyCode::Esc ==> r == ListPanelAction::Close && *final(selected) == *old(selected),
        key.code == KeyCode::Enter ==> *final(selected) == *old(selected) && r == (
            if *old(selected) < needs_auth@.len() && needs_auth@[*old(selected) as int] {
                ListPanelAction::Authorize(*old(selected))
            } else {
                ListPanelAction::Close
            }),
        key.code == KeyCode::Up ==> *final(selected) as int == prev_sel(*old(selected) as int) && r == ListPanelAction::Consumed,
        key.code == KeyCode::Down ==> *final(selected) == (if needs_auth@.len() > 0 {
                next_sel(*old(selected) as int, needs_auth@.len() as int) as usize
            } else {
                *old(selected)
            }) && r == ListPanelAction::Consumed,
        !(key.code == KeyCode::Esc || key.code == KeyCode::Enter || key.code == KeyCode::Up || key.code == KeyCode::Down)
            ==> r == ListPanelAction::Consumed && *final(selected) == *old(selected),
{
    match key.code {
        KeyCode::Esc => ListPanelAction::Close,
        KeyCode::Enter => if *selected < needs_auth.len() && needs_auth[*selected] {
            ListPanelAction::Authorize(*selected)
        } else {
            ListPanelAction::Close
        },
        KeyCode::Up => {
            *selected = previous_selection(*selected);
            ListPanelAction::Consumed
        },
        KeyCode::Down => {
            if needs_auth.len() > 0 {
                *selected = next_selection(*selected, needs_auth.len());
            }
            ListPanelAction::Consumed
        },
        _ => ListPanelAction::Consumed,
    }
}

/// What a key on the theme panel asks of the host.
#[derive(Debug, Clone, Copy, PartialEq, Eq, Structural)]
pub enum ThemeKeyOutcome {
    /// The key is not for the panel.
    Ignored,
    /// Show theme `i` (a preview).
    Preview(usize),
    /// Show theme `i` and keep it.
    Persist(usize),
    /// Put the theme shown when the panel opened back, and let the panel close.
    Restore,
    /// Nothing to show (an empty list).
    Consumed,
}

/// Handles a key on the theme panel: Up/k and Down/j move and preview,
/// Enter keeps the highlighted theme, Esc brings back the one shown when
/// the panel opened.
pub fn theme_panel_on_key(selected: &mut usize, count: usize, key: KeyPress) -> (r: ThemeKeyOutcome)
    ensures
        (key.code == KeyCode::Up || key.code == KeyCode::Char('k')) ==> *final(selected) as int == prev_sel(*old(selected) as int)
            && r == (if *final(selected) < count { ThemeKeyOutcome::Preview(*final(selected)) } else { ThemeKeyOutcome::Consumed }),
        (key.code == KeyCode::Down || key.code == KeyCode::Char('j')) ==> *final(selected) as int == next_sel(*old(selected) as int, count as int)
            && r == (if *final(selected) < count { ThemeKeyOutcome::Preview(*final(selected)) } else { ThemeKeyOutcome::Consumed }),
        key.code == KeyCode::Enter ==> *final(selected) == *old(selected)
            && r == (if *old(selected) < count { ThemeKeyOutcome::Persist(*old(selected)) } else { ThemeKeyOutcome::Consumed }),
        key.code == KeyCode::Esc ==> r == ThemeKeyOutcome::Restore && *final(selected) == *old(selected),
        !(key.code == KeyCode::Up || key.code == KeyCode::Char('k') || key.code == KeyCode::Down || key.code == KeyCode::Char('j')
            || key.code == KeyCode::Enter || key.code == KeyCode::Esc) ==> r == ThemeKeyOutcome::Ignored && *final(selected) == *old(selected),
{
    let is_up = match key.code { KeyCode::Up => true, KeyCode::Char(c) => c == 'k', _ => false };
    let is_down = match key.code { KeyCode::Down => true, KeyCode::Char(c) => c == 'j', _ => false };
    if is_up {
        *selected = previous_selection(*selected);
        return if *selected < count { ThemeKeyOutcome::Preview(*selected) } else { ThemeKeyOutcome::Consumed };
    }
    if is_down {
        *selected = next_selection(*selected, count);
        return if *selected < count { ThemeKeyOutcome::Preview(*selected) } else { ThemeKeyOutcome::Consumed };
    }
    match key.code {
        KeyCode::Enter => if *selected < count { ThemeKeyOutcome::Persist(*selected) } else { ThemeKeyOutcome::Consumed },
        KeyCode::Esc => ThemeKeyOutcome::Restore,
        _ => ThemeKeyOutcome::Ignored,
    }
}


/// Handles a key on the hook panel: Esc and Enter close, Up/Down move,
/// Ctrl+C is left to the application.
pub fn hooks_panel_on_key(selected: &mut usize, count: usize, key: KeyPress) -> (r: ListPanelAction)
    ensures
        (key.code == KeyCode::Esc || key.code == KeyCode::Enter) ==> r == ListPanelAction::Close && *final(selected) == *old(selected),
        key.code == KeyCode::Up ==> *final(selected) as int == prev_sel(*old(selected) as int) && r == ListPanelAction::Consumed,
        key.code == KeyCode::Down ==> *final(selected) == (if count > 0 { next_sel(*old(selected) as int, count as int) as usize } else { *old(selected) })
            && r == ListPanelAction::Consumed,
        key.code == KeyCode::Char('c') && key.ctrl ==> r == ListPanelAction::Ignored && *final(selected) == *old(selected),
        !(key.code == KeyCode::Esc || key.code == KeyCode::Enter || key.code == KeyCode::Up || key.code == KeyCode::Down
            || (key.code == KeyCode::Char('c') && key.ctrl)) ==> r == ListPanelAction::Consumed && *final(selected) == *old(selected),
{
    match key.code {
        KeyCode::Esc | KeyCode::Enter => ListPanelAction::Close,
        KeyCode::Up => {
            *selected = previous_selection(*selected);
            ListPanelAction::Consumed
        },
        KeyCode::Down => {
            if count > 0 {
                *selected = next_selection(*selected, count);
            }
            ListPanelAction::Consumed
        },
        KeyCode::Char(c) => if c == 'c' && key.ctrl { ListPanelAction::Ignored } else { ListPanelAction::Consumed },
        _ => ListPanelAction::Consumed,
    }
}

/// Handles a key on the agent panel, whose cursor runs over eight summary
/// rows and the sub-agent rows (at least one): Esc and Enter close, Up/Down move.
pub fn agent_panel_on_key(cursor: &mut usize, subagent_count: usize, key: KeyPress) -> (r: ListPanelAction)
    requires
        subagent_count + 8 <= usize::MAX,
    ensures
        (key.code == KeyCode::Esc || key.code == KeyCode::Enter) ==> r == ListPanelAction::Close && *final(cursor) == *old(cursor),
        key.code == KeyCode::Up ==> *final(cursor) as int == prev_sel(*old(cursor) as int) && r == ListPanelAction::Consumed,
        key.code == KeyCode::Down ==> *final(cursor) as int == next_sel(*old(cursor) as int, 8 + (if subagent_count > 1 { subagent_count as int } else { 1int }))
            && r == ListPanelAction::Consumed,
        !(key.code == KeyCode::Esc || key.code == KeyCode::Enter || key.code == KeyCode::Up || key.code == KeyCode::Down)
            ==> r == ListPanelAction::Consumed && *final(cursor) == *old(cursor),
{
    let rows = 8 + if subagent_count > 1 { subagent_count } else { 1 };
    match key.code {
        KeyCode::Esc | KeyCode::Enter => ListPanelAction::Close,
        KeyCode::Up => {
            *cursor = previous_selection(*cursor);
            ListPanelAction::Consumed
        },
        KeyCode::Down => {
            *cursor = next_selection(*cursor, rows);
            ListPanelAction::Consumed
        },
        _ => ListPanelAction::Consumed,
    }
}

/// Handles a key on the memory panel: Esc closes, Up/Down move, Enter opens
/// the highlighted file in the editor.
pub fn memory_panel_on_key(selected: &mut usize, count: usize, key: KeyPress) -> (r: ListPanelAction)
    ensures
        key.code == KeyCode::Esc ==> r == ListPanelAction::Close && *final(selected) == *old(selected),
        key.code == KeyCode::Enter ==> *final(selected) == *old(selected)
            && r == (if *old(selected) < count { ListPanelAction::Open(*old(selected)) } else { ListPanelAction::Consumed }),
        key.code == KeyCode::Up ==> *final(selected) as int == prev_sel(*old(selected) as int) && r == ListPanelAction::Consumed,
        key.code == KeyCode::Down ==> *final(selected) == (if count > 0 { next_sel(*old(selected) as int, count as int) as usize } else { *old(selected) })
            && r == ListPanelAction::Consumed,
        !(key.code == KeyCode::Esc || key.code == KeyCode::Enter || key.code == KeyCode::Up || key.code == KeyCode::Down)
            ==> r == ListPanelAction::Consumed && *final(selected) == *old(selected),
{
    match key.code {
        KeyCode::Esc => ListPanelAction::Close,
        KeyCode::Enter => if *selected < count { ListPanelAction::Open(*selected) } else { ListPanelAction::Consumed },
        KeyCode::Up => {
            *selected = previous_selection(*selected);
            ListPanelAction::Consumed
        },
        KeyCode::Down => {
            if count > 0 {
                *selected = next_selection(*selected, count);
            }
            ListPanelAction::Consumed
        },
        _ => ListPanelAction::Consumed,
    }
}

} // verus!
