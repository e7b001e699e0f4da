//! Navigation of the workflow panel: runs as tabs, phases on the left,
//! the selected phase's agents on the right.
use vstd::prelude::*;
use crate::keys::{KeyCode, KeyPress};
use crate::list_nav::{cycle_next, cycle_previous, prev_sel, previous_selection};

verus! {

/// Selection state of the workflow panel.
#[derive(Debug)]
pub struct WorkflowNav {
    pub active_run: usize,
    pub focus_left: bool,
    pub phase_sel: usize,
    pub agent_sel: usize,
}

/// What a key on the workflow panel asks of the host.
#[derive(Debug, Clone, Copy, PartialEq, Eq, Structural)]
pub enum WorkflowKeyOutcome {
    Ignored,
    Consumed,
    Close,
}

/// Handles a key on the workflow panel (with at least one run): Esc closes,
/// Tab/BackTab switch runs and reset both selections, Left/Right pick the
/// side, Up/Down move on that side (Down is clamped later, when drawing).
pub fn workflow_on_key(nav: &mut WorkflowNav, run_count: usize, key: KeyPress) -> (r: WorkflowKeyOutcome)
    requires
        old(nav).active_run < run_count,
    ensures
        final(nav).active_run < run_count,
        ({
            let s = *old(nav);
            let t = *final(nav);
            match key.code {
                KeyCode::Esc => r == WorkflowKeyOutcome::Close && t == s,
                KeyCode::Tab => r == WorkflowKeyOutcome::Consumed && t == (WorkflowNav {
                    active_run: ((s.active_run + 1) % (run_count as int)) as usize, phase_sel: 0, agent_sel: 0, ..s }),
                KeyCode::BackTab => r == WorkflowKeyOutcome::Consumed && t == (WorkflowNav {
                    active_run: ((s.active_run + run_count - 1) % (run_count as int)) as usize, phase_sel: 0, agent_sel: 0, ..s }),
                KeyCode::Left => r == WorkflowKeyOutcome::Consumed && t == (WorkflowNav { focus_left: true, ..s }),
                KeyCode::Right => r == WorkflowKeyOutcome::Consumed && t == (WorkflowNav { focus_left: false, ..s }),
                KeyCode::Up => r == WorkflowKeyOutcome::Consumed && t == (if s.focus_left {
                    WorkflowNav { phase_sel: prev_sel(s.phase_sel as int) as usize, ..s }
                } else {
                    WorkflowNav { agent_sel: prev_sel(s.agent_sel as int) as usize, ..s }
                }),
                KeyCode::Down => r == WorkflowKeyOutcome::Consumed && t == (if s.focus_left {
                    WorkflowNav { phase_sel: if s.phase_sel < usize::MAX { (s.phase_sel + 1) as usize } else { usize::MAX }, ..s }
                } else {
                    WorkflowNav { agent_sel: if s.agent_sel < usize::MAX { (s.agent_sel + 1) as usize } else { usize::MAX }, ..s }
                }),
                KeyCode::Enter => r == WorkflowKeyOutcome::Consumed && t == s,
                _ => r == WorkflowKeyOutcome::Ignored && t == s,
            }
        }),
{
    match key.code {
        KeyCode::Esc => WorkflowKeyOutcome::Close,
        KeyCode::Tab => {
            nav.active_run = cycle_next(nav.active_run, run_count);
            nav.phase_sel = 0;
            nav.agent_sel = 0;
            WorkflowKeyOutcome::Consumed
        },
        KeyCode::BackTab => {
            nav.active_run = cycle_previous(nav.active_run, run_count);
            nav.phase_sel = 0;
            nav.agent_sel = 0;
            WorkflowKeyOutcome::Consumed
        },
        KeyCode::Left => {
            nav.focus_left = true;
            WorkflowKeyOutcome::Consumed
        },
        KeyCode::Right => {
            nav.focus_left = false;
            WorkflowKeyOutcome::Consumed
        },
        KeyCode::Up => {
            if nav.focus_left {
                nav.phase_sel = previous_selection(nav.phase_sel);
            } else {
                nav.agent_sel = previous_selection(nav.agent_sel);
            }
            WorkflowKeyOutcome::Consumed
        },
        KeyCode::Down => {
            if nav.focus_left {
                nav.phase_sel = nav.phase_sel.saturating_add(1);
            } else {
                nav.agent_sel = nav.agent_sel.saturating_add(1);
            }
            WorkflowKeyOutcome::Consumed
        },
        KeyCode::Enter => WorkflowKeyOutcome::Consumed,
        _ => WorkflowKeyOutcome::Ignored,
    }
}

/// Number of agents among the first `n` that belong to phase `title`.
pub open spec fn agents_in_phase(phases: Seq<Option<String>>, title: Seq<char>, n: int) -> int
    decreases n,
{
    if n <= 0 {
        0
    } else {
        agents_in_phase(phases, title, n - 1) + (match phases[n - 1] { Some(p) => if p@ == title { 1int } else { 0int }, None => 0int })
    }
}

proof fn lemma_agents_in_phase_le(phases: Seq<Option<String>>, title: Seq<char>, n: int)
    requires
        0 <= n,
    ensures
        0 <= agents_in_phase(phases, title, n) <= n,
    decreases n,
{
    if n > 0 {
        lemma_agents_in_phase_le(phases, title, n - 1);
    }
}

/// `min(sel, count - 1)`, or 0 for an empty list.
pub open spec fn clamp_sel(sel: int, count: int) -> int {
    let top = if count > 0 { count - 1 } else { 0 };
    if sel < top { sel } else { top }
}

/// Brings the selections back onto the lists of the shown run: the phase
/// within the phases, then the agent within the agents of that phase (all
/// agents when the phase has no title).
pub fn clamp_selection(nav: &mut WorkflowNav, phase_titles: &Vec<String>, agent_phases: &Vec<Option<String>>)
    ensures
        final(nav).phase_sel as int == clamp_sel(old(nav).phase_sel as int, phase_titles@.len() as int),
        ({
            let sel = final(nav).phase_sel as int;
            let title = if sel < phase_titles@.len() { phase_titles@[sel]@ } else { Seq::<char>::empty() };
            let count = if title.len() == 0 { agent_phases@.len() as int } else { agents_in_phase(agent_phases@, title, agent_phases@.len() as int) };
            final(nav).agent_sel as int == clamp_sel(old(nav).agent_sel as int, count)
        }),
        final(nav).active_run == old(nav).active_run,
        final(nav).focus_left == old(nav).focus_left,
{
    let pc = phase_titles.len();
    let ptop = if pc > 0 { pc - 1 } else { 0 };
    nav.phase_sel = if nav.phase_sel < ptop { nav.phase_sel } else { ptop };
    let sel = nav.phase_sel;
    let empty = String::new();
    let title: &String = if sel < pc { &phase_titles[sel] } else { &empty };
    let count: usize = if title.as_str().is_empty() {
        agent_phases.len()
    } else {
        let mut c: usize = 0;
        let mut i: usize = 0;
        while i < agent_phases.len()
            invariant
                i <= agent_phases@.len(),
                c as int == agents_in_phase(agent_phases@, title@, i as int),
            decreases agent_phases@.len() - i,
        {
            proof { lemma_agents_in_phase_le(agent_phases@, title@, i as int); }
            let hit = match &agent_phases[i] {
                Some(p) => crate::text::str_eq(p.as_str(), title.as_str()),
                None => false,
            };
            if hit {
                c = c + 1;
            }
            i = i + 1;
        }
        c
    };
    let atop = if count > 0 { count - 1 } else { 0 };
    nav.agent_sel = if nav.agent_sel < atop { nav.agent_sel } else { atop };
}

/// A count as the workflow panel shows it below a million: the number itself
/// under a thousand, else whole thousands and "k". `None` from a million up,
/// where the count shows with one decimal in millions.
pub fn abbreviate_small_count(n: u64) -> (r: Option<String>)
    ensures
        n < 1000 ==> (r matches Some(t) && t@ == crate::text::decimal(n as nat)),
        1000 <= n < 1_000_000 ==> (r matches Some(t) && t@ == crate::text::decimal((n / 1000) as nat) + "k"@),
        n >= 1_000_000 ==> r is None,
{
    if n >= 1_000_000 {
        None
    } else if n >= 1000 {
        let mut t = crate::text::u64_to_decimal(n / 1000);
        crate::text::append_str(&mut t, "k");
        Some(t)
    } else {
        Some(crate::text::u64_to_decimal(n))
    }
}

} // verus!
