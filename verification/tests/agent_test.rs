use peri_tui::subagents::{collect_subagents, CollapsedGroup, SubAgentGroup, ViewUnit};

fn make_subagent(id: &str, name: &str) -> SubAgentGroup {
    SubAgentGroup {
        agent_id: id.to_string(),
        agent_name: name.to_string(),
        view_models: Vec::new(),
        collapsed: false,
        is_running: false,
    }
}

fn ids(items: &Vec<ViewUnit>) -> Vec<String> {
    collect_subagents(items).into_iter().map(|s| s.agent_id).collect()
}

fn empty_snapshot() {
    assert!(collect_subagents(&Vec::new()).is_empty());
}

fn only_user_bubbles() {
    let items = vec![ViewUnit::Other];
    assert!(collect_subagents(&items).is_empty());
}

fn dedup_across_committed_and_current() {
    let items = vec![
        ViewUnit::SubAgent(make_subagent("researcher", "Researcher")),
        ViewUnit::SubAgent(make_subagent("researcher", "Researcher")),
    ];
    let result = collect_subagents(&items);
    assert_eq!(result.len(), 1);
    assert_eq!(result[0].agent_id, "researcher");
}

fn preserves_insertion_order() {
    let items = vec![
        ViewUnit::SubAgent(make_subagent("alpha", "Alpha")),
        ViewUnit::SubAgent(make_subagent("beta", "Beta")),
        ViewUnit::SubAgent(make_subagent("gamma", "Gamma")),
    ];
    assert_eq!(ids(&items), vec!["alpha", "beta", "gamma"]);
}

fn recurses_into_collapsed_group() {
    let collapsed = CollapsedGroup {
        title: "batch".to_string(),
        count: 1,
        view_models: vec![ViewUnit::SubAgent(make_subagent("hidden", "Hidden"))],
    };
    let items = vec![ViewUnit::Collapsed(collapsed)];
    let result = collect_subagents(&items);
    assert_eq!(result.len(), 1);
    assert_eq!(result[0].agent_id, "hidden");
}

fn recurses_into_nested_subagent() {
    let mut outer = make_subagent("outer", "Outer");
    outer.view_models = vec![ViewUnit::SubAgent(make_subagent("inner", "Inner"))];
    let items = vec![ViewUnit::SubAgent(outer)];
    let result = collect_subagents(&items);
    assert_eq!(result.len(), 2);
    assert_eq!(result[0].agent_id, "outer");
    assert_eq!(result[1].agent_id, "inner");
}

#[test]
fn agent_test_collect_subagents_empty_snapshot() {
    empty_snapshot();
}

#[test]
fn agent_test_collect_subagents_only_user_bubbles() {
    only_user_bubbles();
}

#[test]
fn agent_test_collect_subagents_dedup_across_committed_and_current() {
    dedup_across_committed_and_current();
}

#[test]
fn agent_test_collect_subagents_preserves_insertion_order() {
    preserves_insertion_order();
}

#[test]
fn agent_test_collect_subagents_recurses_into_collapsed_group() {
    recurses_into_collapsed_group();
}

#[test]
fn agent_test_collect_subagents_recurses_into_nested_subagent() {
    recurses_into_nested_subagent();
}

#[test]
fn agent_test_test_collect_subagents_empty_snapshot() {
    empty_snapshot();
}

#[test]
fn agent_test_test_collect_subagents_only_user_bubbles() {
    only_user_bubbles();
}

#[test]
fn agent_test_test_collect_subagents_dedup_across_committed_and_current() {
    dedup_across_committed_and_current();
}

#[test]
fn agent_test_test_collect_subagents_preserves_insertion_order() {
    preserves_insertion_order();
}

#[test]
fn agent_test_test_collect_subagents_recurses_into_collapsed_group() {
    recurses_into_collapsed_group();
}

#[test]
fn agent_test_test_collect_subagents_recurses_into_nested_subagent() {
    recurses_into_nested_subagent();
}

#[test]
fn nested_duplicate_keeps_first_occurrence() {
    let mut outer = make_subagent("a", "First");
    outer.view_models = vec![ViewUnit::SubAgent(make_subagent("a", "Second")), ViewUnit::SubAgent(make_subagent("b", "B"))];
    let items = vec![ViewUnit::SubAgent(outer), ViewUnit::Other];
    let result = collect_subagents(&items);
    assert_eq!(result.len(), 2);
    assert_eq!(result[0].agent_name, "First");
    assert_eq!(result[1].agent_id, "b");
}
