use unicode_width::UnicodeWidthStr;
use peri_tui::render_cache::{apply_render_update, RebuildStrategy, RenderCache};
use peri_tui::render_cache::{
    append_entries, rebuild_entries, RenderedEntry, RenderedSegment, TableData, VmKey,
};

fn table(headers: usize, rows: usize) -> TableData {
    TableData {
        headers: (0..headers).map(|i| format!("h{}", i)).collect(),
        rows: (0..rows).map(|_| vec!["x".to_string()]).collect(),
    }
}

#[test]
fn pipeline_rebuild_entries_keys_and_heights() {
    let items = vec![
        vec![RenderedSegment::Text(vec![10, 25])],
        vec![RenderedSegment::Table(table(2, 3)), RenderedSegment::Text(vec![])],
    ];
    let mut entries = vec![(VmKey::Item(9), RenderedEntry::Text { height: 1 })];
    rebuild_entries(&mut entries, &items, 10);
    assert_eq!(
        entries,
        vec![
            (VmKey::Item(0), RenderedEntry::Text { height: 4 }),
            (VmKey::Item(1), RenderedEntry::Table { height: 7 }),
            (VmKey::Item(1), RenderedEntry::Text { height: 1 }),
        ]
    );
}

#[test]
fn pipeline_append_entries_continues_positions() {
    let items = vec![vec![RenderedSegment::Table(table(0, 1))], vec![]];
    let mut entries = vec![(VmKey::Item(0), RenderedEntry::Text { height: 2 })];
    append_entries(&mut entries, &items, 0, 5);
    assert_eq!(
        entries,
        vec![
            (VmKey::Item(0), RenderedEntry::Text { height: 2 }),
            (VmKey::Item(5), RenderedEntry::Table { height: 4 }),
        ]
    );
}

#[test]
fn pipeline_apply_render_update_strategies() {
    let items = vec![
        vec![RenderedSegment::Text(vec![5])],
        vec![RenderedSegment::Text(vec![25])],
        vec![RenderedSegment::Table(table(1, 1))],
    ];
    let mut cache = RenderCache::default();
    apply_render_update(&mut cache, RebuildStrategy::FullRebuild, &items, 10);
    assert_eq!(cache.entries.len(), 3);
    assert_eq!(cache.cumulative_heights, vec![1, 4, 9]);
    let more = vec![
        vec![RenderedSegment::Text(vec![5])],
        vec![RenderedSegment::Text(vec![5])],
        vec![RenderedSegment::Text(vec![5])],
        vec![RenderedSegment::Text(vec![30])],
    ];
    apply_render_update(&mut cache, RebuildStrategy::HashDiffAppend(1), &more, 10);
    assert_eq!(
        cache.entries,
        vec![
            (VmKey::Item(0), RenderedEntry::Text { height: 1 }),
            (VmKey::Item(1), RenderedEntry::Text { height: 1 }),
            (VmKey::Item(2), RenderedEntry::Text { height: 1 }),
            (VmKey::Item(3), RenderedEntry::Text { height: 3 }),
        ]
    );
    assert_eq!(cache.cumulative_heights, vec![1, 2, 3, 6]);
    apply_render_update(&mut cache, RebuildStrategy::IncrementalAppend(4), &more, 10);
    assert_eq!(cache.entries.len(), 4);
    let one = vec![vec![RenderedSegment::Text(vec![5])]];
    apply_render_update(&mut cache, RebuildStrategy::ClearAndRebuild, &one, 10);
    assert_eq!(cache.cumulative_heights, vec![1]);
}

#[test]
fn pipeline_wrapped_lines_fit_the_budget() {
    let text = "the quick brown fox jumps over the lazy dog 这是一个很长的中文句子需要换行 end";
    for w in 1..20usize {
        for line in peri_tui::wrap::wrap_text(text, w) {
            assert!(line.width() <= w || line.chars().count() <= 1, "{:?} at {}", line, w);
        }
    }
}
