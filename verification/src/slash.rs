//! The slash-command completion list: which commands match the typed
//! prefix, and which of them are in view.
use vstd::prelude::*;
use crate::plugin::lowercase;

verus! {

/// Kind of a slash command, shown by colour.
#[derive(Debug, Clone, Copy, PartialEq, Eq, Structural)]
pub enum SlashActionKind {
    Panel,
    Command,
    Skill,
}

/// A command offered after "/".
#[derive(Debug, Clone)]
pub struct SlashCompletionItem {
    pub label: String,
    pub insert_text: String,
    pub description: String,
    pub kind: SlashActionKind,
    /// The label in lowercase, computed once.
    pub label_lowercase: String,
}

/// Whether `s` starts with `p`.
pub open spec fn starts_with(s: Seq<char>, p: Seq<char>) -> bool {
    p.len() <= s.len() && s.take(p.len() as int) == p
}

fn starts_with_exec(s: &Vec<char>, p: &Vec<char>) -> (r: bool)
    ensures
        r == starts_with(s@, p@),
{
    if p.len() > s.len() {
        return false;
    }
    let mut i: usize = 0;
    while i < p.len()
        invariant
            p@.len() <= s@.len(),
            i <= p@.len(),
            forall|k: int| 0 <= k < i ==> s@[k] == p@[k],
        decreases p@.len() - i,
    {
        if s[i] != p[i] {
            assert(s@.take(p@.len() as int)[i as int] != p@[i as int]);
            return false;
        }
        i = i + 1;
    }
    assert(s@.take(p@.len() as int) =~= p@);
    true
}

/// Positions of the items shown for a prefix: all for an empty prefix, else
/// those whose lowercase label starts with the lowercase prefix, in order.
pub open spec fn shown_items(items: Seq<SlashCompletionItem>, prefix: Seq<char>, n: int) -> Seq<usize>
    decreases n,
{
    if n <= 0 {
        Seq::empty()
    } else {
        let prev = shown_items(items, prefix, n - 1);
        if prefix.len() == 0 || starts_with(items[n - 1].label_lowercase@, lowercase(prefix)) {
            prev.push((n - 1) as usize)
        } else {
            prev
        }
    }
}

proof fn lemma_shown_items_exact(items: Seq<SlashCompletionItem>, prefix: Seq<char>, n: int)
    requires
        0 <= n <= items.len(),
        items.len() <= usize::MAX,
    ensures
        ({
            let sh = shown_items(items, prefix, n);
            let lp = lowercase(prefix);
            &&& forall|j: int| 0 <= j < sh.len() ==> {
                let k = #[trigger] sh[j] as int;
                &&& 0 <= k < n
                &&& prefix.len() == 0 || (lp.len() <= items[k].label_lowercase@.len()
                    && items[k].label_lowercase@.take(lp.len() as int) == lp)
            }
            &&& forall|k: int| 0 <= k < n && (prefix.len() == 0 || (lp.len() <= items[k].label_lowercase@.len()
                && items[k].label_lowercase@.take(lp.len() as int) == lp)) ==> exists|j: int| 0 <= j < sh.len() && #[trigger] sh[j] as int == k
            &&& forall|i: int, j: int| 0 <= i < j < sh.len() ==> sh[i] < sh[j]
        }),
    decreases n,
{
    if n > 0 {
        lemma_shown_items_exact(items, prefix, n - 1);
        let prev = shown_items(items, prefix, n - 1);
        let sh = shown_items(items, prefix, n);
        let lp = lowercase(prefix);
        if prefix.len() == 0 || starts_with(items[n - 1].label_lowercase@, lp) {
            assert(sh == prev.push((n - 1) as usize));
            assert(sh[prev.len() as int] == (n - 1) as usize);
            assert forall|k: int| 0 <= k < n && (prefix.len() == 0 || (lp.len() <= items[k].label_lowercase@.len()
                && items[k].label_lowercase@.take(lp.len() as int) == lp)) implies
                exists|j: int| 0 <= j < sh.len() && #[trigger] sh[j] as int == k by {
                if k < n - 1 {
                    let j = choose|j: int| 0 <= j < prev.len() && #[trigger] prev[j] as int == k;
                    assert(sh[j] == prev[j]);
                } else {
                    assert(sh[prev.len() as int] as int == k);
                }
            }
        } else {
            assert forall|k: int| 0 <= k < n && (prefix.len() == 0 || (lp.len() <= items[k].label_lowercase@.len()
                && items[k].label_lowercase@.take(lp.len() as int) == lp)) implies
                exists|j: int| 0 <= j < sh.len() && #[trigger] sh[j] as int == k by {
                if k == n - 1 {
                    assert(starts_with(items[n - 1].label_lowercase@, lp));
                }
            }
        }
    }
}

/// Completion shows, for a non-empty prefix, exactly the commands whose
/// lowercase label begins with the whole lowercase prefix, each once and in
/// list order; an empty prefix shows every command.
pub proof fn law_slash_filter_shows_exactly_matching(items: Seq<SlashCompletionItem>, prefix: Seq<char>)
    requires
        items.len() <= usize::MAX,
    ensures
        ({
            let sh = shown_items(items, prefix, items.len() as int);
            let lp = lowercase(prefix);
            &&& forall|j: int| 0 <= j < sh.len() ==> {
                let k = #[trigger] sh[j] as int;
                &&& 0 <= k < items.len()
                &&& prefix.len() == 0 || (lp.len() <= items[k].label_lowercase@.len()
                    && items[k].label_lowercase@.take(lp.len() as int) == lp)
            }
            &&& forall|k: int| 0 <= k < items.len() && (prefix.len() == 0 || (lp.len() <= items[k].label_lowercase@.len()
                && items[k].label_lowercase@.take(lp.len() as int) == lp)) ==> exists|j: int| 0 <= j < sh.len() && #[trigger] sh[j] as int == k
            &&& forall|i: int, j: int| 0 <= i < j < sh.len() ==> sh[i] < sh[j]
        }),
{
    lemma_shown_items_exact(items, prefix, items.len() as int);
}

/// The positions of the items shown for a prefix.
pub fn filter_slash_items(items: &Vec<SlashCompletionItem>, prefix: &str) -> (r: Vec<usize>)
    ensures
        r@ == shown_items(items@, prefix@, items@.len() as int),
        forall|j: int| 0 <= j < r@.len() ==> {
            let k = #[trigger] r@[j] as int;
            &&& 0 <= k < items@.len()
            &&& prefix@.len() == 0 || (lowercase(prefix@).len() <= items@[k].label_lowercase@.len()
                && items@[k].label_lowercase@.take(lowercase(prefix@).len() as int) == lowercase(prefix@))
        },
        forall|k: int| 0 <= k < items@.len() && (prefix@.len() == 0 || (lowercase(prefix@).len() <= items@[k].label_lowercase@.len()
            && items@[k].label_lowercase@.take(lowercase(prefix@).len() as int) == lowercase(prefix@)))
            ==> exists|j: int| 0 <= j < r@.len() && #[trigger] r@[j] as int == k,
        forall|i: int, j: int| 0 <= i < j < r@.len() ==> r@[i] < r@[j],
{
    let count: usize = items.len();
    proof { law_slash_filter_shows_exactly_matching(items@, prefix@); }
    let p = crate::text::chars_of(crate::plugin::lowercase_of(prefix).as_str());
    let empty = prefix.is_empty();
    let mut out: Vec<usize> = Vec::new();
    let mut i: usize = 0;
    while i < items.len()
        invariant
            i <= items@.len(),
            p@ == lowercase(prefix@),
            empty == (prefix@.len() == 0),
            out@ == shown_items(items@, prefix@, i as int),
        decreases items@.len() - i,
    {
        let keep = empty || {
            let l = crate::text::chars_of(items[i].label_lowercase.as_str());
            starts_with_exec(&l, &p)
        };
        if keep {
            out.push(i);
        }
        i = i + 1;
    }
    out
}

/// `min(sel, count - 1)`, or 0 for an empty list.
pub fn clamp_selection(sel: usize, count: usize) -> (r: usize)
    ensures
        r == if count == 0 { 0 } else if sel < count { sel } else { (count - 1) as usize },
{
    if count == 0 { 0 } else if sel < count { sel } else { count - 1 }
}

/// First shown row: everything fits, or the selection sits a third of the
/// way down the window (never past the last full window).
pub fn slash_scroll_start(item_count: usize, visible_rows: usize, sel: usize) -> (r: usize)
    ensures
        r == if item_count <= visible_rows {
            0
        } else {
            let m = (item_count - visible_rows) as usize;
            let s = if sel >= visible_rows / 3 { (sel - visible_rows / 3) as usize } else { 0 };
            if s < m { s } else { m }
        },
{
    if item_count <= visible_rows {
        0
    } else {
        let max_scroll = item_count - visible_rows;
        let s = sel.saturating_sub(visible_rows / 3);
        if s < max_scroll { s } else { max_scroll }
    }
}

/// Width of the label column: the longest label in characters plus the "/".
pub open spec fn label_width(items: Seq<SlashCompletionItem>, n: int) -> int
    decreases n,
{
    if n <= 0 {
        0
    } else {
        let prev = label_width(items, n - 1);
        let w: int = items[n - 1].label@.len() as int + 1;
        if w > prev { w } else { prev }
    }
}

/// The width of the label column of the shown items.
pub fn max_label_width(items: &Vec<SlashCompletionItem>) -> (r: usize)
    requires
        forall|i: int| 0 <= i < items@.len() ==> (#[trigger] items@[i]).label@.len() < usize::MAX,
    ensures
        r as int == label_width(items@, items@.len() as int),
{
    let mut m: usize = 0;
    let mut i: usize = 0;
    while i < items.len()
        invariant
            i <= items@.len(),
            forall|k: int| 0 <= k < items@.len() ==> (#[trigger] items@[k]).label@.len() < usize::MAX,
            m as int == label_width(items@, i as int),
        decreases items@.len() - i,
    {
        let chars = crate::text::chars_of(items[i].label.as_str());
        let w = chars.len() + 1;
        if w > m {
            m = w;
        }
        i = i + 1;
    }
    m
}

} // verus!
