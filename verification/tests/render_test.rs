use peri_tui::render_cache::{
    build_wrap_map, choose_rebuild_strategy, prefix_stable_len, rebuild_cumulative_heights,
    resize_rebuild_ready, settle_resize_width, table_height, visual_height, RebuildStrategy,
    RenderCache, RenderedEntry, TableData, VmKey, WrappedLineInfo,
};
use peri_tui::render_cache::{bridge_apply_snapshot, reset_on_counter, BridgeState, RenderedSegment};

#[test]
fn test_build_wrap_map_u16_saturation_keeps_field_type() {
    let heights: Vec<u16> = vec![1; 70_000];
    let map = build_wrap_map(&heights);
    assert_eq!(map.len(), 70_000);
    let last = map.last().expect("non-empty");
    assert_eq!(last.visual_row, u16::MAX);
    let _: u16 = last.visual_row;
    let _: u16 = last.visual_height;
}

#[test]
fn test_render_cache_default_has_no_wrap_map_field() {
    let cache = RenderCache { entries: vec![], cumulative_heights: vec![] };
    assert_eq!(cache.entries.len(), 0);
    assert_eq!(cache.cumulative_heights.len(), 0);
    let _default: RenderCache = RenderCache::default();
}

#[test]
fn wrap_map_rows_accumulate() {
    let map = build_wrap_map(&[2, 0, 3]);
    assert_eq!(
        map,
        vec![
            WrappedLineInfo { line_idx: 0, visual_row: 0, visual_height: 2 },
            WrappedLineInfo { line_idx: 1, visual_row: 2, visual_height: 1 },
            WrappedLineInfo { line_idx: 2, visual_row: 3, visual_height: 3 },
        ]
    );
}

#[test]
fn prefix_and_strategy() {
    assert_eq!(prefix_stable_len(&[1, 2, 3], &[1, 2, 4]), 2);
    assert_eq!(prefix_stable_len(&[1, 2], &[1, 2, 3]), 2);
    assert_eq!(prefix_stable_len(&[], &[1]), 0);
    assert_eq!(choose_rebuild_strategy(2, 3, 2, 3), RebuildStrategy::ClearAndRebuild);
    assert_eq!(choose_rebuild_strategy(4, 3, 2, 3), RebuildStrategy::HashDiffAppend(2));
    assert_eq!(choose_rebuild_strategy(4, 3, 0, 3), RebuildStrategy::IncrementalAppend(3));
    assert_eq!(choose_rebuild_strategy(3, 3, 0, 3), RebuildStrategy::FullRebuild);
}

#[test]
fn heights_and_tables() {
    let t = TableData { headers: vec!["a".into()], rows: vec![vec![], vec![]] };
    assert_eq!(table_height(&t), 6);
    let t2 = TableData { headers: vec![], rows: vec![] };
    assert_eq!(table_height(&t2), 3);
    assert_eq!(visual_height(&[10, 0, 25], 10), 1 + 1 + 3);
    assert_eq!(visual_height(&[], 10), 1);
    assert_eq!(visual_height(&[5], 0), 5);
    let mut cache = RenderCache {
        entries: vec![
            (VmKey::Item(0), RenderedEntry::Text { height: 2 }),
            (VmKey::Item(1), RenderedEntry::Table { height: usize::MAX }),
            (VmKey::Item(1), RenderedEntry::Text { height: 1 }),
        ],
        cumulative_heights: vec![99],
    };
    rebuild_cumulative_heights(&mut cache);
    assert_eq!(cache.cumulative_heights, vec![2, usize::MAX, usize::MAX]);
}

#[test]
fn resize_burst_settles_on_last() {
    assert_eq!(settle_resize_width(&[100, 0]), Some(1));
    assert_eq!(settle_resize_width(&[100, 80]), Some(80));
    assert_eq!(settle_resize_width(&[]), None);
    assert!(resize_rebuild_ready(None));
    assert!(resize_rebuild_ready(Some(80)));
    assert!(!resize_rebuild_ready(Some(79)));
}

fn bridge() -> BridgeState {
    BridgeState {
        cache: RenderCache { entries: Vec::new(), cumulative_heights: Vec::new() },
        msg_hashes: Vec::new(),
        last_generation: 0,
        last_reset_counter: 0,
        pending_resize: None,
        last_rebuild_ms: None,
        width: 10,
    }
}

#[test]
fn bridge_updates_only_on_new_generation() {
    let mut st = bridge();
    let items = vec![vec![RenderedSegment::Text(vec![5])], vec![RenderedSegment::Text(vec![25])]];
    assert_eq!(bridge_apply_snapshot(&mut st, 1, vec![11, 22], &items), Some(RebuildStrategy::IncrementalAppend(0)));
    assert_eq!(st.cache.entries.len(), 2);
    assert_eq!(st.cache.cumulative_heights, vec![1, 4]);
    assert_eq!(st.last_generation, 1);
    assert_eq!(st.msg_hashes, vec![11, 22]);
    // The same generation again changes nothing.
    assert_eq!(bridge_apply_snapshot(&mut st, 1, vec![99], &vec![vec![]]), None);
    assert_eq!(st.msg_hashes, vec![11, 22]);
    // A changed second item keeps the first entry and renders the rest.
    let items = vec![vec![RenderedSegment::Text(vec![5])], vec![RenderedSegment::Text(vec![3])], vec![RenderedSegment::Text(vec![1])]];
    assert_eq!(bridge_apply_snapshot(&mut st, 2, vec![11, 23, 33], &items), Some(RebuildStrategy::HashDiffAppend(1)));
    assert_eq!(st.cache.cumulative_heights, vec![1, 2, 3]);
    // Fewer items: everything is rendered again.
    let items = vec![vec![RenderedSegment::Text(vec![5])]];
    assert_eq!(bridge_apply_snapshot(&mut st, 3, vec![11], &items), Some(RebuildStrategy::ClearAndRebuild));
    assert_eq!(st.cache.entries.len(), 1);
}

#[test]
fn bridge_reset_counter_empties_cache_first() {
    let mut st = bridge();
    let items = vec![vec![RenderedSegment::Text(vec![5])]];
    bridge_apply_snapshot(&mut st, 4, vec![7], &items);
    st.pending_resize = Some(120);
    st.last_rebuild_ms = Some(1000);
    assert!(!reset_on_counter(&mut st, 0));
    assert_eq!(st.cache.entries.len(), 1);
    assert!(reset_on_counter(&mut st, 1));
    assert!(st.cache.entries.is_empty());
    assert!(st.cache.cumulative_heights.is_empty());
    assert!(st.msg_hashes.is_empty());
    assert_eq!(st.last_generation, 0);
    assert_eq!(st.pending_resize, None);
    assert_eq!(st.last_rebuild_ms, None);
    assert_eq!(st.width, 10);
    assert!(!reset_on_counter(&mut st, 1));
}
