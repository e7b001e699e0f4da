//! The sub-agents a conversation started, found in its rendered items.
use vstd::prelude::*;
use crate::text::str_eq;

verus! {

/// A rendered conversation item, as far as sub-agents go: a sub-agent's
/// group, a collapsed group of items, or anything else.
#[derive(Debug)]
pub enum ViewUnit {
    SubAgent(SubAgentGroup),
    Collapsed(CollapsedGroup),
    Other,
}

/// The items a sub-agent produced.
#[derive(Debug)]
pub struct SubAgentGroup {
    pub agent_id: String,
    pub agent_name: String,
    pub view_models: Vec<ViewUnit>,
    pub collapsed: bool,
    pub is_running: bool,
}

/// Items folded into one row.
#[derive(Debug)]
pub struct CollapsedGroup {
    pub title: String,
    pub count: usize,
    pub view_models: Vec<ViewUnit>,
}

/// A sub-agent as the agent panel lists it.
#[derive(Debug, Clone)]
pub struct SubAgentSummary {
    pub agent_id: String,
    pub agent_name: String,
    pub is_running: bool,
}

/// Mathematical form of a listed sub-agent: id, name, running.
pub type AgentEntry = (Seq<char>, Seq<char>, bool);

pub open spec fn summary_view(s: SubAgentSummary) -> AgentEntry {
    (s.agent_id@, s.agent_name@, s.is_running)
}

pub open spec fn summaries_view(v: Seq<SubAgentSummary>) -> Seq<AgentEntry> {
    v.map_values(|s: SubAgentSummary| summary_view(s))
}

/// Every sub-agent group in an item, the item first, then what it contains,
/// depth first.
pub open spec fn agents_in(vm: ViewUnit) -> Seq<AgentEntry>
    decreases vm,
{
    match vm {
        ViewUnit::SubAgent(d) => seq![(d.agent_id@, d.agent_name@, d.is_running)] + agents_in_list(d.view_models@),
        ViewUnit::Collapsed(g) => agents_in_list(g.view_models@),
        ViewUnit::Other => Seq::empty(),
    }
}

/// Every sub-agent group in a list of items, in order.
pub open spec fn agents_in_list(s: Seq<ViewUnit>) -> Seq<AgentEntry>
    decreases s,
{
    if s.len() == 0 {
        Seq::empty()
    } else {
        agents_in_list(s.drop_last()) + agents_in(s.last())
    }
}

/// The ids of a list of entries.
pub open spec fn entry_ids(acc: Seq<AgentEntry>) -> Seq<Seq<char>> {
    acc.map_values(|e: AgentEntry| e.0)
}

/// Appends the entries whose id is not listed yet, in order.
pub open spec fn dedup_into(acc: Seq<AgentEntry>, xs: Seq<AgentEntry>) -> Seq<AgentEntry>
    decreases xs.len(),
{
    if xs.len() == 0 {
        acc
    } else {
        let a2 = if entry_ids(acc).contains(xs[0].0) { acc } else { acc.push(xs[0]) };
        dedup_into(a2, xs.skip(1))
    }
}

proof fn lemma_dedup_concat(acc: Seq<AgentEntry>, xs: Seq<AgentEntry>, ys: Seq<AgentEntry>)
    ensures
        dedup_into(acc, xs + ys) == dedup_into(dedup_into(acc, xs), ys),
    decreases xs.len(),
{
    if xs.len() == 0 {
        assert(xs + ys =~= ys);
    } else {
        let a2 = if entry_ids(acc).contains(xs[0].0) { acc } else { acc.push(xs[0]) };
        assert((xs + ys)[0] == xs[0]);
        assert((xs + ys).skip(1) =~= xs.skip(1) + ys);
        lemma_dedup_concat(a2, xs.skip(1), ys);
    }
}

proof fn lemma_dedup_single(acc: Seq<AgentEntry>, x: AgentEntry)
    ensures
        dedup_into(acc, seq![x]) == if entry_ids(acc).contains(x.0) { acc } else { acc.push(x) },
{
    assert(seq![x].skip(1) =~= Seq::<AgentEntry>::empty());
    reveal_with_fuel(dedup_into, 2);
}

fn ids_contain(out: &Vec<SubAgentSummary>, id: &String) -> (r: bool)
    ensures
        r == entry_ids(summaries_view(out@)).contains(id@),
{
    let ghost ids = entry_ids(summaries_view(out@));
    let mut i: usize = 0;
    while i < out.len()
        invariant
            ids == entry_ids(summaries_view(out@)),
            i <= out@.len(),
            forall|j: int| 0 <= j < i ==> ids[j] != id@,
        decreases out@.len() - i,
    {
        if str_eq(out[i].agent_id.as_str(), id.as_str()) {
            assert(ids[i as int] == id@);
            return true;
        }
        i = i + 1;
    }
    false
}

fn scan_list(vms: &Vec<ViewUnit>, out: &mut Vec<SubAgentSummary>)
    ensures
        summaries_view(final(out)@) == dedup_into(summaries_view(old(out)@), agents_in_list(vms@)),
    decreases vms@, 0int,
{
    let ghost start = summaries_view(out@);
    let mut i: usize = 0;
    proof { assert(vms@.take(0) =~= Seq::<ViewUnit>::empty()); }
    while i < vms.len()
        invariant
            i <= vms@.len(),
            summaries_view(out@) == dedup_into(start, agents_in_list(vms@.take(i as int))),
        decreases vms@.len() - i,
    {
        let ghost before = summaries_view(out@);
        proof {
            assert(decreases_to!(vms@ => vms@[i as int]));
        }
        scan_unit(&vms[i], out);
        proof {
            assert(vms@.take(i + 1).drop_last() =~= vms@.take(i as int));
            assert(vms@.take(i + 1).last() == vms@[i as int]);
            lemma_dedup_concat(start, agents_in_list(vms@.take(i as int)), agents_in(vms@[i as int]));
        }
        i = i + 1;
    }
    proof { assert(vms@.take(vms@.len() as int) =~= vms@); }
}

fn scan_unit(vm: &ViewUnit, out: &mut Vec<SubAgentSummary>)
    ensures
        summaries_view(final(out)@) == dedup_into(summaries_view(old(out)@), agents_in(*vm)),
    decreases *vm, 1int,
{
    match vm {
        ViewUnit::SubAgent(d) => {
            let ghost before = summaries_view(out@);
            let ghost entry: AgentEntry = (d.agent_id@, d.agent_name@, d.is_running);
            if !ids_contain(out, &d.agent_id) {
                out.push(SubAgentSummary {
                    agent_id: d.agent_id.clone(),
                    agent_name: d.agent_name.clone(),
                    is_running: d.is_running,
                });
                assert(summaries_view(out@) =~= before.push(entry));
            }
            proof {
                lemma_dedup_single(before, entry);
                lemma_dedup_concat(before, seq![entry], agents_in_list(d.view_models@));
            }
            scan_list(&d.view_models, out);
        },
        ViewUnit::Collapsed(g) => {
            scan_list(&g.view_models, out);
        },
        ViewUnit::Other => {},
    }
}

/// The sub-agents found in the conversation's items, depth first, each id
/// once (its first occurrence kept).
pub fn collect_subagents(items: &Vec<ViewUnit>) -> (r: Vec<SubAgentSummary>)
    ensures
        summaries_view(r@) == dedup_into(Seq::empty(), agents_in_list(items@)),
{
    let mut out: Vec<SubAgentSummary> = Vec::new();
    assert(summaries_view(out@) =~= Seq::<AgentEntry>::empty());
    scan_list(items, &mut out);
    out
}

proof fn lemma_dedup_keeps_unique(acc: Seq<AgentEntry>, xs: Seq<AgentEntry>)
    requires
        forall|i: int, j: int| 0 <= i < j < acc.len() ==> acc[i].0 != acc[j].0,
    ensures
        forall|i: int, j: int| 0 <= i < j < dedup_into(acc, xs).len() ==> dedup_into(acc, xs)[i].0 != dedup_into(acc, xs)[j].0,
        forall|i: int| 0 <= i < acc.len() ==> dedup_into(acc, xs)[i] == acc[i],
        acc.len() <= dedup_into(acc, xs).len(),
    decreases xs.len(),
{
    if xs.len() > 0 {
        let a2 = if entry_ids(acc).contains(xs[0].0) { acc } else { acc.push(xs[0]) };
        if !entry_ids(acc).contains(xs[0].0) {
            assert forall|i: int| 0 <= i < acc.len() implies acc[i].0 != xs[0].0 by {
                if acc[i].0 == xs[0].0 {
                    assert(entry_ids(acc)[i] == xs[0].0);
                }
            }
        }
        lemma_dedup_keeps_unique(a2, xs.skip(1));
        assert forall|i: int| 0 <= i < acc.len() implies dedup_into(acc, xs)[i] == acc[i] by {
            assert(dedup_into(a2, xs.skip(1))[i] == a2[i]);
        }
    }
}

/// The agent panel lists each sub-agent id once.
pub proof fn law_subagents_unique(items: Seq<ViewUnit>)
    ensures
        ({
            let r = dedup_into(Seq::empty(), agents_in_list(items));
            forall|i: int, j: int| 0 <= i < j < r.len() ==> r[i].0 != r[j].0
        }),
{
    lemma_dedup_keeps_unique(Seq::empty(), agents_in_list(items));
}

} // verus!
