//! Heights and rebuild decisions of the message area's render cache.
use vstd::prelude::*;

verus! {

/// Key of a cache entry: the position of the view item it was rendered from.
#[derive(Debug, Clone, Copy, PartialEq, Eq, Hash, Structural)]
pub enum VmKey {
    Item(usize),
}

/// A pre-rendered piece of a view item: text lines or a table, with the
/// number of rows it takes.
#[derive(Debug, Clone, Copy, PartialEq, Eq, Structural)]
pub enum RenderedEntry {
    Text { height: usize },
    Table { height: usize },
}

impl RenderedEntry {
    /// Rows the entry takes.
    pub fn height(&self) -> (r: usize)
        ensures
            r == entry_height(*self),
    {
        match self {
            RenderedEntry::Text { height } => *height,
            RenderedEntry::Table { height } => *height,
        }
    }
}

pub open spec fn entry_height(e: RenderedEntry) -> usize {
    match e {
        RenderedEntry::Text { height } => height,
        RenderedEntry::Table { height } => height,
    }
}

/// Rendered entries and the running total of their heights.
#[derive(Debug)]
pub struct RenderCache {
    pub entries: Vec<(VmKey, RenderedEntry)>,
    pub cumulative_heights: Vec<usize>,
}

impl Default for RenderCache {
    fn default() -> (r: RenderCache)
        ensures
            r.entries@.len() == 0,
            r.cumulative_heights@.len() == 0,
    {
        RenderCache { entries: Vec::new(), cumulative_heights: Vec::new() }
    }
}

/// Wrap information of one logical line, for finding the lines in view.
#[derive(Debug, Clone, Copy, PartialEq, Eq, Structural)]
pub struct WrappedLineInfo {
    pub line_idx: usize,
    pub visual_row: u16,
    pub visual_height: u16,
}

/// Heading columns and body rows of a table, as far as its height goes.
#[derive(Debug)]
pub struct TableData {
    pub headers: Vec<String>,
    pub rows: Vec<Vec<String>>,
}

/// Rows a table takes: three border rows, the header row when there are
/// headings, and one row per body row.
pub fn table_height(table: &TableData) -> (r: usize)
    requires
        table.rows@.len() + 4 <= usize::MAX,
    ensures
        r == 3 + (if table.headers@.len() > 0 { 1int } else { 0int }) + table.rows@.len(),
{
    let header: usize = if table.headers.len() > 0 { 1 } else { 0 };
    3 + header + table.rows.len()
}

/// How many leading items kept their content hash.
pub fn prefix_stable_len(new_hashes: &[u64], old_hashes: &[u64]) -> (r: usize)
    ensures
        r <= new_hashes@.len(),
        r <= old_hashes@.len(),
        forall|j: int| 0 <= j < r ==> new_hashes@[j] == old_hashes@[j],
        r < new_hashes@.len() && r < old_hashes@.len() ==> new_hashes@[r as int] != old_hashes@[r as int],
{
    let n = if new_hashes.len() < old_hashes.len() { new_hashes.len() } else { old_hashes.len() };
    let mut i: usize = 0;
    while i < n
        invariant
            n <= new_hashes@.len(),
            n <= old_hashes@.len(),
            n == new_hashes@.len() || n == old_hashes@.len(),
            i <= n,
            forall|j: int| 0 <= j < i ==> new_hashes@[j] == old_hashes@[j],
        decreases n - i,
    {
        if new_hashes[i] != old_hashes[i] {
            return i;
        }
        i = i + 1;
    }
    n
}

/// Running sums of `hs`, each capped at `usize::MAX`.
pub open spec fn saturating_sums(hs: Seq<usize>) -> Seq<usize>
    decreases hs.len(),
{
    if hs.len() == 0 {
        Seq::empty()
    } else {
        let prev = saturating_sums(hs.drop_last());
        let base: int = if prev.len() > 0 { prev.last() as int } else { 0 };
        let s = base + hs.last();
        prev.push(if s > usize::MAX { usize::MAX } else { s as usize })
    }
}

pub open spec fn entry_heights(es: Seq<(VmKey, RenderedEntry)>) -> Seq<usize> {
    es.map_values(|e: (VmKey, RenderedEntry)| entry_height(e.1))
}

proof fn lemma_sums_len(hs: Seq<usize>)
    ensures
        saturating_sums(hs).len() == hs.len(),
    decreases hs.len(),
{
    if hs.len() > 0 {
        lemma_sums_len(hs.drop_last());
    }
}

/// Recomputes the running height totals of the cache's entries.
pub fn rebuild_cumulative_heights(cache: &mut RenderCache)
    ensures
        final(cache).entries@ == old(cache).entries@,
        final(cache).cumulative_heights@ == saturating_sums(entry_heights(old(cache).entries@)),
{
    let ghost hs = entry_heights(cache.entries@);
    cache.cumulative_heights.clear();
    let mut sum: usize = 0;
    let mut i: usize = 0;
    proof { assert(hs.take(0) =~= Seq::<usize>::empty()); }
    while i < cache.entries.len()
        invariant
            hs == entry_heights(cache.entries@),
            cache.entries@ == old(cache).entries@,
            i <= cache.entries@.len(),
            cache.cumulative_heights@ == saturating_sums(hs.take(i as int)),
            sum == (if i > 0 { cache.cumulative_heights@.last() } else { 0usize }),
        decreases cache.entries@.len() - i,
    {
        let h = cache.entries[i].1.height();
        sum = sum.saturating_add(h);
        proof {
            lemma_sums_len(hs.take(i as int));
            assert(hs.take(i + 1).drop_last() =~= hs.take(i as int));
            assert(hs.take(i + 1).last() == h);
        }
        cache.cumulative_heights.push(sum);
        i = i + 1;
    }
    proof { assert(hs.take(hs.len() as int) =~= hs); }
}

/// Rows a block of lines takes at `width` columns: each line at least one
/// row, a line of `w` columns `ceil(w / width)` rows; at least one row in all.
pub open spec fn lines_height(widths: Seq<usize>, width: int) -> int
    decreases widths.len(),
{
    if widths.len() == 0 {
        0
    } else {
        let w = if widths.last() > 1 { widths.last() as int } else { 1 };
        let rows = (w + width - 1) / width;
        let prev = lines_height(widths.drop_last(), width);
        if prev + rows > usize::MAX { usize::MAX as int } else { prev + rows }
    }
}

/// Rows a block of lines with the given display widths takes (capped at
/// `usize::MAX`, and at least one).
pub fn visual_height(line_widths: &[usize], width: usize) -> (r: usize)
    ensures
        r as int == ({
            let h = lines_height(line_widths@, if width > 1 { width as int } else { 1 });
            if h > 1 { h } else { 1 }
        }),
{
    let w: usize = if width > 1 { width } else { 1 };
    let mut rows: usize = 0;
    let mut i: usize = 0;
    while i < line_widths.len()
        invariant
            w >= 1,
            w as int == (if width > 1 { width as int } else { 1 }),
            i <= line_widths@.len(),
            rows as int == lines_height(line_widths@.take(i as int), w as int),
        decreases line_widths@.len() - i,
    {
        let lw: usize = if line_widths[i] > 1 { line_widths[i] } else { 1 };
        let q = lw / w;
        let add: usize = if lw % w == 0 {
            q
        } else {
            assert(q < usize::MAX) by (nonlinear_arith)
                requires w >= 1, q == lw / w, lw % w != 0, lw <= usize::MAX;
            q + 1
        };
        proof {
            assert(line_widths@.take(i + 1).drop_last() =~= line_widths@.take(i as int));
            assert(add as int == (lw + w - 1) / (w as int)) by (nonlinear_arith)
                requires
                    w >= 1,
                    q == lw / w,
                    add == (if lw % w == 0 { q } else { (q + 1) as usize }),
                    lw >= 1;
        }
        rows = rows.saturating_add(add);
        i = i + 1;
    }
    proof { assert(line_widths@.take(line_widths@.len() as int) =~= line_widths@); }
    if rows > 1 { rows } else { 1 }
}

/// Wrap map of a block of lines from each line's wrapped row count: a line
/// takes at least one row; rows are counted past `u16::MAX` but stored capped.
pub open spec fn wrap_rows(heights: Seq<u16>) -> Seq<WrappedLineInfo>
    decreases heights.len(),
{
    if heights.len() == 0 {
        Seq::empty()
    } else {
        let prev = wrap_rows(heights.drop_last());
        let row = row_before(heights.drop_last());
        let vh: u16 = if heights.last() > 1 { heights.last() } else { 1 };
        prev.push(WrappedLineInfo {
            line_idx: (heights.len() - 1) as usize,
            visual_row: if row > u16::MAX { u16::MAX } else { row as u16 },
            visual_height: vh,
        })
    }
}

/// Rows before a line: the sum of the earlier lines' rows, capped at `u32::MAX`.
pub open spec fn row_before(heights: Seq<u16>) -> int
    decreases heights.len(),
{
    if heights.len() == 0 {
        0
    } else {
        let vh: int = if heights.last() > 1 { heights.last() as int } else { 1 };
        let s = row_before(heights.drop_last()) + vh;
        if s > u32::MAX { u32::MAX as int } else { s }
    }
}

proof fn lemma_row_before_bound(heights: Seq<u16>)
    ensures
        0 <= row_before(heights) <= u32::MAX,
    decreases heights.len(),
{
    if heights.len() > 0 {
        lemma_row_before_bound(heights.drop_last());
    }
}

/// Builds the wrap map of a block of lines from each line's wrapped row count.
pub fn build_wrap_map(line_heights: &[u16]) -> (r: Vec<WrappedLineInfo>)
    ensures
        r@ == wrap_rows(line_heights@),
{
    let mut map: Vec<WrappedLineInfo> = Vec::new();
    let mut row: u32 = 0;
    let mut i: usize = 0;
    proof { assert(line_heights@.take(0) =~= Seq::<u16>::empty()); }
    while i < line_heights.len()
        invariant
            i <= line_heights@.len(),
            map@ == wrap_rows(line_heights@.take(i as int)),
            row as int == row_before(line_heights@.take(i as int)),
        decreases line_heights@.len() - i,
    {
        let h = line_heights[i];
        let vh: u16 = if h > 1 { h } else { 1 };
        let visual_row: u16 = if row > 65535 { 65535 } else { row as u16 };
        map.push(WrappedLineInfo { line_idx: i, visual_row, visual_height: vh });
        row = row.saturating_add(vh as u32);
        proof {
            assert(line_heights@.take(i + 1).drop_last() =~= line_heights@.take(i as int));
        }
        i = i + 1;
    }
    proof { assert(line_heights@.take(line_heights@.len() as int) =~= line_heights@); }
    map
}

/// How the cache is brought up to date after the view items changed.
#[derive(Debug, Clone, Copy, PartialEq, Eq, Structural)]
pub enum RebuildStrategy {
    /// Fewer items than before: drop everything and render all items.
    ClearAndRebuild,
    /// Keep the entries of the first `stable` items and render the rest.
    HashDiffAppend(usize),
    /// Only new items were added after the `old_len` known ones: render those.
    IncrementalAppend(usize),
    /// Render all items again.
    FullRebuild,
}

/// Picks the cheapest way to update the cache, given the new and old item
/// counts, how many leading items kept their hash, and the cache's size.
pub fn choose_rebuild_strategy(new_len: usize, old_len: usize, stable: usize, cache_len: usize) -> (r: RebuildStrategy)
    ensures
        r == (if new_len < old_len {
            RebuildStrategy::ClearAndRebuild
        } else if stable > 0 {
            RebuildStrategy::HashDiffAppend(stable)
        } else if new_len > old_len && cache_len >= old_len {
            RebuildStrategy::IncrementalAppend(old_len)
        } else {
            RebuildStrategy::FullRebuild
        }),
{
    if new_len < old_len {
        RebuildStrategy::ClearAndRebuild
    } else if stable > 0 {
        RebuildStrategy::HashDiffAppend(stable)
    } else if new_len > old_len && cache_len >= old_len {
        RebuildStrategy::IncrementalAppend(old_len)
    } else {
        RebuildStrategy::FullRebuild
    }
}

/// The width a burst of resize events settles on: the last one, at least 1
/// (`None` when there was no event).
pub fn settle_resize_width(widths: &[u16]) -> (r: Option<usize>)
    ensures
        widths@.len() == 0 ==> r is None,
        widths@.len() > 0 ==> r == Some(if widths@.last() > 1 { widths@.last() as usize } else { 1usize }),
{
    if widths.len() == 0 {
        return None;
    }
    let w = widths[widths.len() - 1] as usize;
    Some(if w > 1 { w } else { 1 })
}

/// Whether a pending resize may rebuild now: never rebuilt yet, or at least
/// 80 ms since the last rebuild.
pub fn resize_rebuild_ready(ms_since_rebuild: Option<u64>) -> (r: bool)
    ensures
        r == match ms_since_rebuild { Some(ms) => ms >= 80, None => true },
{
    match ms_since_rebuild {
        Some(ms) => ms >= 80,
        None => true,
    }
}

/// A rendered segment of a view item: text lines, given by their display
/// widths, or a table.
#[derive(Debug)]
pub enum RenderedSegment {
    Text(Vec<usize>),
    Table(TableData),
}

/// Whether every table among the segments is small enough to count its rows.
pub open spec fn tables_fit(items: Seq<Vec<RenderedSegment>>) -> bool {
    forall|i: int, j: int| 0 <= i < items.len() && 0 <= j < items[i]@.len() ==>
        (#[trigger] items[i]@[j] matches RenderedSegment::Table(t) ==> t.rows@.len() + 4 <= usize::MAX)
}

/// The cache entry of a segment at `width` columns.
pub open spec fn segment_entry(seg: RenderedSegment, width: usize) -> RenderedEntry {
    match seg {
        RenderedSegment::Text(ws) => RenderedEntry::Text { height: ({
            let h = lines_height(ws@, if width > 1 { width as int } else { 1 });
            if h > 1 { h } else { 1 }
        }) as usize },
        RenderedSegment::Table(t) => RenderedEntry::Table {
            height: (3 + (if t.headers@.len() > 0 { 1int } else { 0int }) + t.rows@.len()) as usize,
        },
    }
}

/// The entries of one item: one per segment, all keyed by the item's position.
pub open spec fn item_entries(segs: Seq<RenderedSegment>, key: VmKey, width: usize) -> Seq<(VmKey, RenderedEntry)> {
    Seq::new(segs.len(), |j: int| (key, segment_entry(segs[j], width)))
}

/// The entries of the first `n` items, item `i` keyed as `start + i`.
pub open spec fn items_entries(items: Seq<Vec<RenderedSegment>>, width: usize, start: int, n: int) -> Seq<(VmKey, RenderedEntry)>
    decreases n,
{
    if n <= 0 {
        Seq::empty()
    } else {
        items_entries(items, width, start, n - 1) + item_entries(items[n - 1]@, VmKey::Item((start + n - 1) as usize), width)
    }
}

/// Appends the entries of rendered items after `entries`, item `i` keyed by
/// position `start_index + i`.
pub fn append_entries(entries: &mut Vec<(VmKey, RenderedEntry)>, items: &Vec<Vec<RenderedSegment>>, width: usize, start_index: usize)
    requires
        start_index + items@.len() <= usize::MAX + 1,
        tables_fit(items@),
    ensures
        final(entries)@ == old(entries)@ + items_entries(items@, width, start_index as int, items@.len() as int),
{
    let mut i: usize = 0;
    while i < items.len()
        invariant
            i <= items@.len(),
            start_index + items@.len() <= usize::MAX + 1,
            tables_fit(items@),
            entries@ == old(entries)@ + items_entries(items@, width, start_index as int, i as int),
        decreases items@.len() - i,
    {
        let key = VmKey::Item(start_index + i);
        let segs = &items[i];
        let ghost before = entries@;
        let mut j: usize = 0;
        while j < segs.len()
            invariant
                i < items@.len(),
                segs@ == items@[i as int]@,
                tables_fit(items@),
                j <= segs@.len(),
                entries@ == before + item_entries(segs@, key, width).take(j as int),
            decreases segs@.len() - j,
        {
            let entry = match &segs[j] {
                RenderedSegment::Text(ws) => RenderedEntry::Text { height: visual_height(ws.as_slice(), width) },
                RenderedSegment::Table(t) => {
                    assert(items@[i as int]@[j as int] matches RenderedSegment::Table(t) ==> t.rows@.len() + 4 <= usize::MAX);
                    RenderedEntry::Table { height: table_height(t) }
                },
            };
            entries.push((key, entry));
            proof {
                assert(item_entries(segs@, key, width).take(j + 1) =~= item_entries(segs@, key, width).take(j as int).push((key, entry)));
            }
            j = j + 1;
        }
        proof {
            assert(item_entries(segs@, key, width).take(segs@.len() as int) =~= item_entries(segs@, key, width));
            assert(items_entries(items@, width, start_index as int, i + 1)
                == items_entries(items@, width, start_index as int, i as int) + item_entries(items@[i as int]@, VmKey::Item((start_index + i) as usize), width));
        }
        i = i + 1;
    }
}

/// Rebuilds all entries from the rendered items (keys from position 0).
pub fn rebuild_entries(entries: &mut Vec<(VmKey, RenderedEntry)>, items: &Vec<Vec<RenderedSegment>>, width: usize)
    requires
        tables_fit(items@),
    ensures
        final(entries)@ == items_entries(items@, width, 0, items@.len() as int),
{
    entries.clear();
    proof { vstd::std_specs::vec::axiom_spec_len(items); }
    append_entries(entries, items, width, 0);
    assert(Seq::<(VmKey, RenderedEntry)>::empty() + items_entries(items@, width, 0, items@.len() as int)
        =~= items_entries(items@, width, 0, items@.len() as int));
}

/// A cache whose running totals match its entries: one total per entry,
/// each the capped sum of the heights up to and including that entry.
pub open spec fn cache_consistent(c: RenderCache) -> bool {
    c.cumulative_heights@ == saturating_sums(entry_heights(c.entries@))
}

/// The entries a strategy keeps before rendering: none, the first `k`, or all.
pub open spec fn kept_entries(es: Seq<(VmKey, RenderedEntry)>, strategy: RebuildStrategy) -> Seq<(VmKey, RenderedEntry)> {
    match strategy {
        RebuildStrategy::HashDiffAppend(k) => if es.len() > k { es.take(k as int) } else { es },
        RebuildStrategy::IncrementalAppend(_) => es,
        _ => Seq::empty(),
    }
}

/// Position of the first item a strategy renders.
pub open spec fn first_rendered(strategy: RebuildStrategy) -> int {
    match strategy {
        RebuildStrategy::HashDiffAppend(k) => k as int,
        RebuildStrategy::IncrementalAppend(k) => k as int,
        _ => 0,
    }
}

/// The entries of items `from` up to `n`, item `i` keyed as `i`.
pub open spec fn entries_from(items: Seq<Vec<RenderedSegment>>, width: usize, from: int, n: int) -> Seq<(VmKey, RenderedEntry)>
    decreases n - from,
{
    if n <= from {
        Seq::empty()
    } else {
        entries_from(items, width, from, n - 1) + item_entries(items[n - 1]@, VmKey::Item((n - 1) as usize), width)
    }
}

/// Appends the entries of one item's segments under `key`.
fn push_item_entries(entries: &mut Vec<(VmKey, RenderedEntry)>, segs: &Vec<RenderedSegment>, key: VmKey, width: usize)
    requires
        forall|j: int| 0 <= j < segs@.len() ==>
            (#[trigger] segs@[j] matches RenderedSegment::Table(t) ==> t.rows@.len() + 4 <= usize::MAX),
    ensures
        final(entries)@ == old(entries)@ + item_entries(segs@, key, width),
{
    let mut j: usize = 0;
    while j < segs.len()
        invariant
            forall|k: int| 0 <= k < segs@.len() ==>
                (#[trigger] segs@[k] matches RenderedSegment::Table(t) ==> t.rows@.len() + 4 <= usize::MAX),
            j <= segs@.len(),
            entries@ == old(entries)@ + item_entries(segs@, key, width).take(j as int),
        decreases segs@.len() - j,
    {
        let entry = match &segs[j] {
            RenderedSegment::Text(ws) => RenderedEntry::Text { height: visual_height(ws.as_slice(), width) },
            RenderedSegment::Table(t) => {
                assert(segs@[j as int] matches RenderedSegment::Table(t) ==> t.rows@.len() + 4 <= usize::MAX);
                RenderedEntry::Table { height: table_height(t) }
            },
        };
        entries.push((key, entry));
        proof {
            assert(item_entries(segs@, key, width).take(j + 1) =~= item_entries(segs@, key, width).take(j as int).push((key, entry)));
        }
        j = j + 1;
    }
    proof { assert(item_entries(segs@, key, width).take(segs@.len() as int) =~= item_entries(segs@, key, width)); }
}

/// Applies a rebuild strategy to the cache for the rendered items of a new
/// snapshot (`items[i]` is item `i`): the kept entries, then the entries of
/// the items from the first rendered one on, and fresh running totals.
pub fn apply_render_update(cache: &mut RenderCache, strategy: RebuildStrategy, items: &Vec<Vec<RenderedSegment>>, width: usize)
    requires
        tables_fit(items@),
        first_rendered(strategy) <= items@.len(),
    ensures
        final(cache).entries@ == kept_entries(old(cache).entries@, strategy)
            + entries_from(items@, width, first_rendered(strategy), items@.len() as int),
        cache_consistent(*final(cache)),
{
    let start: usize = match strategy {
        RebuildStrategy::HashDiffAppend(k) => k,
        RebuildStrategy::IncrementalAppend(k) => k,
        _ => 0,
    };
    match strategy {
        RebuildStrategy::HashDiffAppend(k) => {
            cache.entries.truncate(k);
        },
        RebuildStrategy::IncrementalAppend(_) => {},
        _ => {
            cache.entries.clear();
        },
    }
    let ghost kept = cache.entries@;
    assert(kept == kept_entries(old(cache).entries@, strategy));
    let mut i: usize = start;
    while i < items.len()
        invariant
            start <= i <= items@.len(),
            start as int == first_rendered(strategy),
            tables_fit(items@),
            cache.entries@ == kept + entries_from(items@, width, start as int, i as int),
        decreases items@.len() - i,
    {
        proof {
            assert forall|j: int| 0 <= j < items@[i as int]@.len() implies
                (#[trigger] items@[i as int]@[j] matches RenderedSegment::Table(t) ==> t.rows@.len() + 4 <= usize::MAX) by {
                assert(items@[i as int]@[j] matches RenderedSegment::Table(t) ==> t.rows@.len() + 4 <= usize::MAX);
            }
        }
        push_item_entries(&mut cache.entries, &items[i], VmKey::Item(i), width);
        proof {
            assert(cache.entries@ =~= kept + entries_from(items@, width, start as int, i + 1));
        }
        i = i + 1;
    }
    rebuild_cumulative_heights(cache);
}

/// The running totals never decrease, and there is one per height.
pub proof fn law_running_totals_sized_and_monotone(hs: Seq<usize>)
    ensures
        saturating_sums(hs).len() == hs.len(),
        forall|i: int, j: int| 0 <= i <= j < hs.len() ==> saturating_sums(hs)[i] <= saturating_sums(hs)[j],
    decreases hs.len(),
{
    lemma_sums_len(hs);
    if hs.len() > 0 {
        law_running_totals_sized_and_monotone(hs.drop_last());
        lemma_sums_len(hs.drop_last());
        let prev = saturating_sums(hs.drop_last());
        let all = saturating_sums(hs);
        assert forall|i: int, j: int| 0 <= i <= j < hs.len() implies all[i] <= all[j] by {
            if j < hs.len() - 1 {
                assert(all[i] == prev[i] && all[j] == prev[j]);
            } else if i < j {
                assert(all[i] == prev[i]);
                assert(prev[i] <= prev.last());
            }
        }
    }
}

/// An empty cache is consistent, and every cache the bridge writes after a
/// rebuild is: `apply_render_update` and `rebuild_cumulative_heights` leave
/// one running total per entry, never decreasing.
pub proof fn law_written_caches_consistent(c: RenderCache)
    requires
        c.entries@.len() == 0 && c.cumulative_heights@.len() == 0 || cache_consistent(c),
    ensures
        cache_consistent(c),
        c.cumulative_heights@.len() == c.entries@.len(),
        forall|i: int, j: int| 0 <= i <= j < c.entries@.len() ==> c.cumulative_heights@[i] <= c.cumulative_heights@[j],
{
    if c.entries@.len() == 0 && c.cumulative_heights@.len() == 0 {
        assert(entry_heights(c.entries@) =~= Seq::<usize>::empty());
        assert(c.cumulative_heights@ =~= saturating_sums(entry_heights(c.entries@)));
    }
    law_running_totals_sized_and_monotone(entry_heights(c.entries@));
}

/// Whether the first `k` hashes of `a` and `b` agree and `k` is as far as
/// they agree.
pub open spec fn common_prefix(a: Seq<u64>, b: Seq<u64>, k: int) -> bool {
    &&& 0 <= k <= a.len()
    &&& k <= b.len()
    &&& forall|j: int| 0 <= j < k ==> a[j] == b[j]
    &&& k < a.len() && k < b.len() ==> a[k] != b[k]
}

/// How many leading hashes two lists share.
pub open spec fn stable_len(a: Seq<u64>, b: Seq<u64>) -> int {
    choose|k: int| common_prefix(a, b, k)
}

proof fn lemma_common_prefix_unique(a: Seq<u64>, b: Seq<u64>, k1: int, k2: int)
    requires
        common_prefix(a, b, k1),
        common_prefix(a, b, k2),
    ensures
        k1 == k2,
{
    if k1 < k2 {
        assert(a[k1] == b[k1]);
    } else if k2 < k1 {
        assert(a[k2] == b[k2]);
    }
}

/// The strategy `choose_rebuild_strategy` picks.
pub open spec fn strategy_for(new_len: int, old_len: int, stable: int, cache_len: int) -> RebuildStrategy {
    if new_len < old_len {
        RebuildStrategy::ClearAndRebuild
    } else if stable > 0 {
        RebuildStrategy::HashDiffAppend(stable as usize)
    } else if new_len > old_len && cache_len >= old_len {
        RebuildStrategy::IncrementalAppend(old_len as usize)
    } else {
        RebuildStrategy::FullRebuild
    }
}

/// What the render bridge keeps between events.
#[derive(Debug)]
pub struct BridgeState {
    pub cache: RenderCache,
    /// Content hashes of the items the cache was built from.
    pub msg_hashes: Vec<u64>,
    pub last_generation: u64,
    pub last_reset_counter: u64,
    /// A resize width held back until rebuilding is allowed again.
    pub pending_resize: Option<usize>,
    /// When the last full rebuild happened, in milliseconds on the host's
    /// monotonic clock (`None`: not since the last reset).
    pub last_rebuild_ms: Option<u64>,
    /// The width the cache is rendered at.
    pub width: usize,
}

/// Starts over when the reset counter moved since the last event: the cache
/// and the known hashes are emptied, the generation goes back to 0 and the
/// held-back resize and rebuild time are forgotten. Returns whether it did.
pub fn reset_on_counter(st: &mut BridgeState, counter: u64) -> (did_clear: bool)
    ensures
        did_clear == (counter != old(st).last_reset_counter),
        did_clear ==> {
            &&& final(st).cache.entries@.len() == 0
            &&& final(st).cache.cumulative_heights@.len() == 0
            &&& final(st).msg_hashes@.len() == 0
            &&& final(st).last_generation == 0
            &&& final(st).last_reset_counter == counter
            &&& final(st).pending_resize is None
            &&& final(st).last_rebuild_ms is None
            &&& final(st).width == old(st).width
        },
        !did_clear ==> *final(st) == *old(st),
{
    if counter == st.last_reset_counter {
        return false;
    }
    st.last_reset_counter = counter;
    st.cache = RenderCache::default();
    st.msg_hashes = Vec::new();
    st.last_generation = 0;
    st.pending_resize = None;
    st.last_rebuild_ms = None;
    true
}

/// Brings the cache up to date with a snapshot of generation `generation`
/// whose items have hashes `new_hashes` and render as `items`: nothing when
/// the generation is the one already shown; otherwise the strategy that
/// `choose_rebuild_strategy` picks for the item counts, the shared hash
/// prefix and the cache's size is applied, and the hashes and generation are
/// recorded. Returns the strategy used.
pub fn bridge_apply_snapshot(st: &mut BridgeState, generation: u64, new_hashes: Vec<u64>, items: &Vec<Vec<RenderedSegment>>)
    -> (r: Option<RebuildStrategy>)
    requires
        new_hashes@.len() == items@.len(),
        tables_fit(items@),
    ensures
        generation == old(st).last_generation ==> r is None && *final(st) == *old(st),
        generation != old(st).last_generation ==> {
            let s = strategy_for(items@.len() as int, old(st).msg_hashes@.len() as int,
                stable_len(new_hashes@, old(st).msg_hashes@), old(st).cache.entries@.len() as int);
            &&& r == Some(s)
            &&& final(st).cache.entries@ == kept_entries(old(st).cache.entries@, s)
                + entries_from(items@, old(st).width, first_rendered(s), items@.len() as int)
            &&& cache_consistent(final(st).cache)
            &&& final(st).msg_hashes@ == new_hashes@
            &&& final(st).last_generation == generation
            &&& final(st).last_reset_counter == old(st).last_reset_counter
            &&& final(st).pending_resize == old(st).pending_resize
            &&& final(st).last_rebuild_ms == old(st).last_rebuild_ms
            &&& final(st).width == old(st).width
        },
{
    if generation == st.last_generation {
        return None;
    }
    let stable = prefix_stable_len(new_hashes.as_slice(), st.msg_hashes.as_slice());
    proof {
        let k = stable_len(new_hashes@, st.msg_hashes@);
        assert(common_prefix(new_hashes@, st.msg_hashes@, stable as int));
        lemma_common_prefix_unique(new_hashes@, st.msg_hashes@, k, stable as int);
    }
    let strategy = choose_rebuild_strategy(items.len(), st.msg_hashes.len(), stable, st.cache.entries.len());
    let width = st.width;
    apply_render_update(&mut st.cache, strategy, items, width);
    st.msg_hashes = new_hashes;
    st.last_generation = generation;
    Some(strategy)
}

} // verus!
