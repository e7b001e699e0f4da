//! Cursor movement in the panels' lists.
use vstd::prelude::*;
use crate::keys::{KeyCode, KeyPress};

verus! {

/// Row above the current one (stays at the top).
pub open spec fn prev_sel(current: int) -> int {
    if current > 0 { current - 1 } else { 0 }
}

/// Row below the current one in a list of `count` rows (stays at the bottom).
pub open spec fn next_sel(current: int, count: int) -> int {
    if count <= 0 { 0 } else if current + 1 < count { current + 1 } else { count - 1 }
}

/// Moves to the previous row.
pub fn previous_selection(current: usize) -> (r: usize)
    ensures
        r as int == prev_sel(current as int),
{
    if current > 0 { current - 1 } else { 0 }
}

/// Moves to the next row of a list of `count` rows.
pub fn next_selection(current: usize, count: usize) -> (r: usize)
    ensures
        r as int == next_sel(current as int, count as int),
        count > 0 ==> r < count,
{
    if count == 0 {
        0
    } else if current < count - 1 {
        current + 1
    } else {
        count - 1
    }
}

/// Next index of a ring of `count` entries.
pub fn cycle_next(current: usize, count: usize) -> (r: usize)
    requires
        current < count,
    ensures
        r as int == (current as int + 1) % (count as int),
        r == if current + 1 == count { 0 } else { current + 1 },
{
    if current + 1 == count {
        assert((current as int + 1) % (count as int) == 0) by (nonlinear_arith)
            requires current + 1 == count, count > 0;
        0
    } else {
        assert((current as int + 1) % (count as int) == current + 1) by (nonlinear_arith)
            requires current + 1 < count;
        current + 1
    }
}

/// Previous index of a ring of `count` entries.
pub fn cycle_previous(current: usize, count: usize) -> (r: usize)
    requires
        current < count,
    ensures
        r as int == (current as int + count as int - 1) % (count as int),
        r == if current == 0 { (count - 1) as usize } else { (current - 1) as usize },
{
    if current == 0 {
        assert((current as int + count as int - 1) % (count as int) == count - 1) by (nonlinear_arith)
            requires current == 0, count > 0;
        count - 1
    } else {
        assert((current as int + count as int - 1) % (count as int) == current - 1) by (nonlinear_arith)
            requires 0 < current < count;
        current - 1
    }
}

/// First visible row of a window of `visible` rows that keeps `selected` in view.
pub open spec fn scroll_start(selected: int, count: int, visible: int) -> int {
    if count <= visible || selected < visible {
        0
    } else {
        let s = selected + 1 - visible;
        if s <= count - visible { s } else { count - visible }
    }
}

/// Computes `scroll_start`.
pub fn scroll_start_for_selected(selected: usize, count: usize, visible: usize) -> (r: usize)
    ensures
        r as int == scroll_start(selected as int, count as int, visible as int),
{
    if count <= visible || selected < visible {
        0
    } else {
        let d = selected - visible;
        if d < count - visible { d + 1 } else { count - visible }
    }
}

/// Navigation intents shared by list-like panels and popups.
#[derive(Debug, Clone, Copy, PartialEq, Eq)]
pub enum ListNavAction {
    MoveUp,
    MoveDown,
    CycleForward,
    CycleBackward,
    Confirm,
    Cancel,
}

/// The navigation intent of a key, if it has one.
pub open spec fn list_nav_of(key: KeyPress) -> Option<ListNavAction> {
    if key.ctrl {
        None
    } else {
        match key.code {
            KeyCode::Up => Some(ListNavAction::MoveUp),
            KeyCode::Down => Some(ListNavAction::MoveDown),
            KeyCode::Tab => Some(ListNavAction::CycleForward),
            KeyCode::BackTab => Some(ListNavAction::CycleBackward),
            KeyCode::Enter => Some(ListNavAction::Confirm),
            KeyCode::Esc => Some(ListNavAction::Cancel),
            _ => None,
        }
    }
}

/// Classifies a key for list navigation.
pub fn classify_list_nav(key: KeyPress) -> (r: Option<ListNavAction>)
    ensures
        r == list_nav_of(key),
{
    if key.ctrl {
        return None;
    }
    match key.code {
        KeyCode::Up => Some(ListNavAction::MoveUp),
        KeyCode::Down => Some(ListNavAction::MoveDown),
        KeyCode::Tab => Some(ListNavAction::CycleForward),
        KeyCode::BackTab => Some(ListNavAction::CycleBackward),
        KeyCode::Enter => Some(ListNavAction::Confirm),
        KeyCode::Esc => Some(ListNavAction::Cancel),
        _ => None,
    }
}

/// Moving down and then up from a row that is not the last gives the row back.
pub proof fn law_next_then_previous(current: int, count: int)
    requires
        0 <= current,
        current + 1 < count,
    ensures
        prev_sel(next_sel(current, count)) == current,
{
}

/// Cycling forward and then backward gives the index back.
pub proof fn law_cycle_round_trip(current: int, count: int)
    requires
        0 <= current < count,
    ensures
        (((current + 1) % count) % count + count - 1) % count == current,
{
    assert(((current + 1) % count) % count == (current + 1) % count) by (nonlinear_arith)
        requires count > 0, current >= 0;
    if current + 1 < count {
        assert((current + 1) % count == current + 1) by (nonlinear_arith)
            requires 0 <= current + 1 < count;
        assert((current + 1 + count - 1) % count == current) by (nonlinear_arith)
            requires 0 <= current < count;
    } else {
        assert((current + 1) % count == 0) by (nonlinear_arith)
            requires current + 1 == count, count > 0;
        assert((0 + count - 1) % count == current) by (nonlinear_arith)
            requires current + 1 == count, count > 0;
    }
}

/// The selected row always lies inside the window that `scroll_start` opens.
pub proof fn law_scroll_keeps_selection_visible(selected: int, count: int, visible: int)
    requires
        0 <= selected < count,
        visible > 0,
    ensures
        scroll_start(selected, count, visible) <= selected < scroll_start(selected, count, visible) + visible,
        0 <= scroll_start(selected, count, visible),
{
}

} // verus!
