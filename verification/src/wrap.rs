//! Word wrapping of question and option texts to a column budget, safe for
//! wide (CJK) characters.
use vstd::prelude::*;
use crate::text::{char_is_whitespace, chars_of, is_ws, string_from_chars};
use crate::width::{col_width, col_width_of, cols, str_display_width, str_width};

verus! {

/// End (exclusive) of the greedy run that starts at `start`: characters are
/// taken while the running width stays within `w`; the first one is always taken.
pub open spec fn fill_end(s: Seq<char>, start: int, j: int, acc: int, w: int) -> int
    decreases s.len() - j,
{
    if start <= j < s.len() && (j == start || acc + col_width(s[j]) <= w) {
        fill_end(s, start, j + 1, acc + col_width(s[j]), w)
    } else {
        j
    }
}

/// Index of the last whitespace character in `s[lo..hi]`, or `lo - 1` if none.
pub open spec fn last_ws(s: Seq<char>, lo: int, hi: int) -> int
    decreases hi - lo,
{
    if hi <= lo {
        lo - 1
    } else if is_ws(s[hi - 1]) {
        hi - 1
    } else {
        last_ws(s, lo, hi - 1)
    }
}

/// Where the line that starts at `start` and may run up to `end` is broken:
/// at its last whitespace if that lies after `start`, else at `end`.
pub open spec fn break_at(s: Seq<char>, start: int, end: int) -> int {
    let b = last_ws(s, start, end);
    if b > start { b } else { end }
}

/// First index at or after `i` that is not whitespace.
pub open spec fn skip_ws_fwd(s: Seq<char>, i: int) -> int
    decreases s.len() - i,
{
    if 0 <= i < s.len() && is_ws(s[i]) { skip_ws_fwd(s, i + 1) } else { i }
}

/// Leading whitespace removed.
pub open spec fn trim_start(s: Seq<char>) -> Seq<char>
    decreases s.len(),
{
    if s.len() > 0 && is_ws(s[0]) { trim_start(s.skip(1)) } else { s }
}

/// Trailing whitespace removed.
pub open spec fn trim_end(s: Seq<char>) -> Seq<char>
    decreases s.len(),
{
    if s.len() > 0 && is_ws(s.last()) { trim_end(s.drop_last()) } else { s }
}

/// Whitespace removed at both ends (`str::trim`).
pub open spec fn trim(s: Seq<char>) -> Seq<char> {
    trim_end(trim_start(s))
}

/// Lines produced from position `pos` on.
pub open spec fn wrap_from(s: Seq<char>, pos: int, w: int) -> Seq<Seq<char>>
    decreases s.len() - pos,
{
    if 0 <= pos < s.len() {
        let e = fill_end(s, pos, pos, 0, w);
        let b = break_at(s, pos, e);
        let seg = trim(s.subrange(pos, b));
        let next = skip_ws_fwd(s, b);
        if pos < b <= next <= s.len() {
            let rest = wrap_from(s, next, w);
            if seg.len() > 0 { seq![seg] + rest } else { rest }
        } else {
            Seq::empty()
        }
    } else {
        Seq::empty()
    }
}

/// The wrapped lines of `s` for a budget of `w` columns: the text itself when
/// `w` is zero or the text fits, else the greedy lines (the text itself if
/// they came out empty).
pub open spec fn wrap_spec(s: Seq<char>, w: int) -> Seq<Seq<char>> {
    if w == 0 || str_display_width(s) <= w {
        seq![s]
    } else {
        let lines = wrap_from(s, 0, w);
        if lines.len() == 0 { seq![s] } else { lines }
    }
}

proof fn lemma_fill_end_bounds(s: Seq<char>, start: int, j: int, acc: int, w: int)
    requires
        0 <= start <= j <= s.len(),
    ensures
        j <= fill_end(s, start, j, acc, w) <= s.len(),
        j == start && start < s.len() ==> fill_end(s, start, j, acc, w) > start,
    decreases s.len() - j,
{
    if start <= j < s.len() && (j == start || acc + col_width(s[j]) <= w) {
        lemma_fill_end_bounds(s, start, j + 1, acc + col_width(s[j]), w);
    }
}

proof fn lemma_last_ws_bounds(s: Seq<char>, lo: int, hi: int)
    requires
        lo <= hi,
    ensures
        lo - 1 <= last_ws(s, lo, hi) < hi,
    decreases hi - lo,
{
    if hi > lo && !is_ws(s[hi - 1]) {
        lemma_last_ws_bounds(s, lo, hi - 1);
    }
}

proof fn lemma_skip_ws_fwd_bounds(s: Seq<char>, i: int)
    requires
        0 <= i <= s.len(),
    ensures
        i <= skip_ws_fwd(s, i) <= s.len(),
    decreases s.len() - i,
{
    if i < s.len() && is_ws(s[i]) {
        lemma_skip_ws_fwd_bounds(s, i + 1);
    }
}

/// Greedy run end, computed.
fn fill_end_exec(s: &Vec<char>, start: usize, w: usize) -> (r: usize)
    requires
        start < s@.len(),
    ensures
        r as int == fill_end(s@, start as int, start as int, 0, w as int),
        start < r <= s@.len(),
{
    proof { lemma_fill_end_bounds(s@, start as int, start as int, 0, w as int); }
    let mut j = start;
    let mut acc: usize = 0;
    let mut stop = false;
    while j < s.len() && !stop
        invariant
            start <= j <= s@.len(),
            j > start ==> acc <= w || j == start + 1,
            stop ==> j > start,
            stop ==> fill_end(s@, start as int, j as int, acc as int, w as int) == j,
            fill_end(s@, start as int, j as int, acc as int, w as int)
                == fill_end(s@, start as int, start as int, 0, w as int),
        decreases s@.len() - j, if stop { 0int } else { 1int },
    {
        let cw = col_width_of(s[j]);
        if j > start && (acc > w || cw > w - acc) {
            stop = true;
        } else {
            if j > start {
                acc = acc + cw;
            } else {
                acc = cw;
            }
            j = j + 1;
        }
    }
    j
}

/// Break position, computed.
fn break_at_exec(s: &Vec<char>, start: usize, end: usize) -> (r: usize)
    requires
        start < end <= s@.len(),
    ensures
        r as int == break_at(s@, start as int, end as int),
        start < r <= end,
{
    proof { lemma_last_ws_bounds(s@, start as int, end as int); }
    let mut hi = end;
    while hi > start && !char_is_whitespace(s[hi - 1])
        invariant
            start <= hi <= end <= s@.len(),
            last_ws(s@, start as int, hi as int) == last_ws(s@, start as int, end as int),
        decreases hi,
    {
        hi = hi - 1;
    }
    if hi > start + 1 {
        hi - 1
    } else {
        end
    }
}

/// First non-whitespace index at or after `i`, computed.
fn skip_ws_exec(s: &Vec<char>, i: usize) -> (r: usize)
    requires
        i <= s@.len(),
    ensures
        r as int == skip_ws_fwd(s@, i as int),
        i <= r <= s@.len(),
{
    proof { lemma_skip_ws_fwd_bounds(s@, i as int); }
    let mut k = i;
    while k < s.len() && char_is_whitespace(s[k])
        invariant
            i <= k <= s@.len(),
            skip_ws_fwd(s@, k as int) == skip_ws_fwd(s@, i as int),
        decreases s@.len() - k,
    {
        k = k + 1;
    }
    k
}

/// `s[lo..hi]` with whitespace trimmed at both ends.
pub fn trimmed(s: &Vec<char>, lo: usize, hi: usize) -> (r: Vec<char>)
    requires
        lo <= hi <= s@.len(),
    ensures
        r@ == trim(s@.subrange(lo as int, hi as int)),
{
    let mut a = lo;
    while a < hi && char_is_whitespace(s[a])
        invariant
            lo <= a <= hi <= s@.len(),
            trim_start(s@.subrange(a as int, hi as int)) == trim_start(s@.subrange(lo as int, hi as int)),
        decreases hi - a,
    {
        assert(s@.subrange(a as int, hi as int).skip(1) =~= s@.subrange(a + 1, hi as int));
        a = a + 1;
    }
    proof {
        if a < hi {
            assert(s@.subrange(a as int, hi as int)[0] == s@[a as int]);
        }
    }
    let mut b = hi;
    while b > a && char_is_whitespace(s[b - 1])
        invariant
            lo <= a <= b <= hi <= s@.len(),
            trim_end(s@.subrange(a as int, b as int)) == trim(s@.subrange(lo as int, hi as int)),
        decreases b,
    {
        assert(s@.subrange(a as int, b as int).drop_last() =~= s@.subrange(a as int, b - 1));
        b = b - 1;
    }
    proof {
        if b > a {
            assert(s@.subrange(a as int, b as int).last() == s@[b - 1]);
        }
    }
    let mut out: Vec<char> = Vec::new();
    let mut k = a;
    while k < b
        invariant
            a <= k <= b <= s@.len(),
            out@ == s@.subrange(a as int, k as int),
        decreases b - k,
    {
        out.push(s[k]);
        assert(s@.subrange(a as int, k as int).push(s@[k as int]) =~= s@.subrange(a as int, k + 1));
        k = k + 1;
    }
    out
}

/// Wraps `text` to lines of at most `max_width` columns, breaking at
/// whitespace where possible and between characters otherwise.
pub fn wrap_text(text: &str, max_width: usize) -> (r: Vec<String>)
    ensures
        r@.len() == wrap_spec(text@, max_width as int).len(),
        forall|i: int| 0 <= i < r@.len() ==> #[trigger] r@[i]@ == wrap_spec(text@, max_width as int)[i],
{
    if max_width == 0 || str_width(text) <= max_width {
        let mut v: Vec<String> = Vec::new();
        v.push(text.to_owned());
        return v;
    }
    let s = chars_of(text);
    let mut lines: Vec<String> = Vec::new();
    let mut pos: usize = 0;
    let ghost w = max_width as int;
    assert(s@ == text@);
    while pos < s.len()
        invariant
            pos <= s@.len(),
            s@ == text@,
            w == max_width as int,
            forall|i: int| 0 <= i < lines@.len() ==> #[trigger] lines@[i]@ == (
                lines_view(lines@) + wrap_from(s@, pos as int, w))[i],
            lines_view(lines@) + wrap_from(s@, pos as int, w) == wrap_from(s@, 0, w),
        decreases s@.len() - pos,
    {
        let ghost old_view = lines_view(lines@);
        let ghost old_lines = lines@;
        let e = fill_end_exec(&s, pos, max_width);
        let b = break_at_exec(&s, pos, e);
        let seg = trimmed(&s, pos, b);
        let next = skip_ws_exec(&s, b);
        let ghost rest = wrap_from(s@, next as int, w);
        if seg.len() > 0 {
            let line = string_from_chars(seg.as_slice());
            lines.push(line);
            proof {
                lemma_lines_view_push(old_lines, line);
                assert(lines@ =~= old_lines.push(line));
            }
        }
        pos = next;
    }
    if lines.len() == 0 {
        let mut v: Vec<String> = Vec::new();
        v.push(text.to_owned());
        return v;
    }
    lines
}

/// The character views of a list of strings.
pub open spec fn lines_view(v: Seq<String>) -> Seq<Seq<char>> {
    v.map_values(|x: String| x@)
}

proof fn lemma_lines_view_push(v: Seq<String>, x: String)
    ensures
        lines_view(v.push(x)) == lines_view(v).push(x@),
{
    assert(lines_view(v.push(x)) =~= lines_view(v).push(x@));
}

} // verus!

verus! {

proof fn lemma_trim_start_sub(s: Seq<char>) -> (k: int)
    ensures
        0 <= k <= s.len(),
        trim_start(s) == s.skip(k),
    decreases s.len(),
{
    if s.len() > 0 && is_ws(s[0]) {
        let k1 = lemma_trim_start_sub(s.skip(1));
        assert(s.skip(1).skip(k1) =~= s.skip(k1 + 1));
        k1 + 1
    } else {
        assert(s.skip(0) =~= s);
        0
    }
}

proof fn lemma_trim_end_sub(s: Seq<char>) -> (k: int)
    ensures
        0 <= k <= s.len(),
        trim_end(s) == s.take(k),
    decreases s.len(),
{
    if s.len() > 0 && is_ws(s.last()) {
        let k1 = lemma_trim_end_sub(s.drop_last());
        assert(s.drop_last().take(k1) =~= s.take(k1));
        k1
    } else {
        assert(s.take(s.len() as int) =~= s);
        s.len() as int
    }
}

/// Trimming keeps a contiguous piece of the text.
pub proof fn lemma_trim_is_subrange(s: Seq<char>) -> (r: (int, int))
    ensures
        0 <= r.0 <= r.1 <= s.len(),
        trim(s) == s.subrange(r.0, r.1),
{
    let a = lemma_trim_start_sub(s);
    let t = s.skip(a);
    let b = lemma_trim_end_sub(t);
    assert(t.take(b) =~= s.subrange(a, a + b));
    (a, a + b)
}

proof fn lemma_cols_concat(a: Seq<char>, b: Seq<char>)
    ensures
        cols(a + b) == cols(a) + cols(b),
    decreases b.len(),
{
    if b.len() == 0 {
        assert(a + b =~= a);
    } else {
        assert((a + b).drop_last() =~= a + b.drop_last());
        lemma_cols_concat(a, b.drop_last());
    }
}

proof fn lemma_cols_nonneg(a: Seq<char>)
    ensures
        cols(a) >= 0,
    decreases a.len(),
{
    if a.len() > 0 {
        lemma_cols_nonneg(a.drop_last());
    }
}

proof fn lemma_cols_subrange_le(a: Seq<char>, i: int, j: int)
    requires
        0 <= i <= j <= a.len(),
    ensures
        cols(a.subrange(i, j)) <= cols(a),
{
    let x = a.subrange(0, i);
    let y = a.subrange(i, j);
    let z = a.subrange(j, a.len() as int);
    assert(a =~= x + y + z);
    lemma_cols_concat(x + y, z);
    lemma_cols_concat(x, y);
    lemma_cols_nonneg(x);
    lemma_cols_nonneg(z);
}

proof fn lemma_fill_end_fits(s: Seq<char>, start: int, j: int, acc: int, w: int)
    requires
        0 <= start < j <= s.len(),
        acc == cols(s.subrange(start, j)),
        j == start + 1 || acc <= w,
    ensures
        ({
            let e = fill_end(s, start, j, acc, w);
            e == start + 1 || cols(s.subrange(start, e)) <= w
        }),
    decreases s.len() - j,
{
    if j < s.len() && acc + col_width(s[j]) <= w {
        assert(s.subrange(start, j + 1).drop_last() =~= s.subrange(start, j));
        lemma_fill_end_fits(s, start, j + 1, acc + col_width(s[j]), w);
    }
}

/// Each line that the greedy wrap produces from `pos` on takes at most `w`
/// columns, unless it is a single character wider than that.
proof fn lemma_wrap_from_fits(s: Seq<char>, pos: int, w: int)
    requires
        0 <= pos,
    ensures
        forall|k: int| 0 <= k < wrap_from(s, pos, w).len() ==>
            (#[trigger] wrap_from(s, pos, w)[k]).len() <= 1 || cols(wrap_from(s, pos, w)[k]) <= w,
    decreases s.len() - pos,
{
    if 0 <= pos < s.len() {
        let e = fill_end(s, pos, pos, 0, w);
        lemma_fill_end_bounds(s, pos, pos, 0, w);
        assert(s.subrange(pos, pos + 1).drop_last() =~= Seq::<char>::empty());
        assert(s.subrange(pos, pos + 1).last() == s[pos]);
        assert(cols(s.subrange(pos, pos + 1)) == cols(Seq::<char>::empty()) + col_width(s[pos]));
        if pos + 1 <= s.len() {
            // the first character is always taken
            assert(fill_end(s, pos, pos, 0, w) == fill_end(s, pos, pos + 1, col_width(s[pos]), w));
            lemma_fill_end_fits(s, pos, pos + 1, col_width(s[pos]), w);
        }
        let b = break_at(s, pos, e);
        lemma_last_ws_bounds(s, pos, e);
        let x = s.subrange(pos, b);
        let seg = trim(x);
        let next = skip_ws_fwd(s, b);
        lemma_skip_ws_fwd_bounds(s, b);
        if pos < b <= next <= s.len() {
            lemma_wrap_from_fits(s, next, w);
            let (ta, tb) = lemma_trim_is_subrange(x);
            lemma_cols_subrange_le(x, ta, tb);
            if e == pos + 1 {
                assert(b == pos + 1);
                assert(seg.len() <= 1);
            } else {
                assert(x =~= s.subrange(pos, e).subrange(0, b - pos));
                lemma_cols_subrange_le(s.subrange(pos, e), 0, b - pos);
            }
            let rest = wrap_from(s, next, w);
            if seg.len() > 0 {
                assert forall|k: int| 0 <= k < wrap_from(s, pos, w).len() implies
                    (#[trigger] wrap_from(s, pos, w)[k]).len() <= 1 || cols(wrap_from(s, pos, w)[k]) <= w by {
                    if k > 0 {
                        assert(wrap_from(s, pos, w)[k] == rest[k - 1]);
                    }
                }
            }
        }
    }
}

/// Wrapping to a positive budget: every line takes at most the budget in
/// columns (a line holding a single wider character aside), or the text
/// came back whole because it fits.
pub proof fn law_wrapped_lines_fit(s: Seq<char>, w: int)
    requires
        w > 0,
    ensures
        str_display_width(s) <= w ==> wrap_spec(s, w) == seq![s],
        str_display_width(s) > w ==> forall|k: int| 0 <= k < wrap_spec(s, w).len() ==>
            (#[trigger] wrap_spec(s, w)[k]) == s || wrap_spec(s, w)[k].len() <= 1 || cols(wrap_spec(s, w)[k]) <= w,
{
    lemma_wrap_from_fits(s, 0, w);
}


/// A line with no whitespace at either end, and not empty.
pub open spec fn is_trimmed(t: Seq<char>) -> bool {
    t.len() > 0 && !is_ws(t[0]) && !is_ws(t.last())
}

proof fn lemma_trim_start_head(s: Seq<char>)
    ensures
        trim_start(s).len() > 0 ==> !is_ws(trim_start(s)[0]),
    decreases s.len(),
{
    if s.len() > 0 && is_ws(s[0]) {
        lemma_trim_start_head(s.skip(1));
    }
}

proof fn lemma_trim_end_tail(s: Seq<char>)
    ensures
        trim_end(s).len() > 0 ==> !is_ws(trim_end(s).last()),
    decreases s.len(),
{
    if s.len() > 0 && is_ws(s.last()) {
        lemma_trim_end_tail(s.drop_last());
    }
}

/// A trimmed text that is not empty has no whitespace at either end.
proof fn lemma_trim_trimmed(s: Seq<char>)
    ensures
        trim(s).len() > 0 ==> is_trimmed(trim(s)),
{
    let y = trim_start(s);
    lemma_trim_start_head(s);
    lemma_trim_end_tail(y);
    lemma_trim_end_sub(y);
    if trim(s).len() > 0 {
        assert(trim(s)[0] == y[0]);
    }
}

proof fn lemma_wrap_from_trimmed(s: Seq<char>, pos: int, w: int)
    requires
        0 <= pos,
    ensures
        forall|k: int| 0 <= k < wrap_from(s, pos, w).len() ==> is_trimmed(#[trigger] wrap_from(s, pos, w)[k]),
    decreases s.len() - pos,
{
    if 0 <= pos < s.len() {
        let e = fill_end(s, pos, pos, 0, w);
        let b = break_at(s, pos, e);
        let seg = trim(s.subrange(pos, b));
        let next = skip_ws_fwd(s, b);
        lemma_fill_end_bounds(s, pos, pos, 0, w);
        lemma_last_ws_bounds(s, pos, e);
        lemma_skip_ws_fwd_bounds(s, b);
        if pos < b <= next <= s.len() {
            lemma_wrap_from_trimmed(s, next, w);
            lemma_trim_trimmed(s.subrange(pos, b));
            let rest = wrap_from(s, next, w);
            if seg.len() > 0 {
                assert forall|k: int| 0 <= k < wrap_from(s, pos, w).len() implies
                    is_trimmed(#[trigger] wrap_from(s, pos, w)[k]) by {
                    if k > 0 {
                        assert(wrap_from(s, pos, w)[k] == rest[k - 1]);
                    }
                }
            }
        }
    }
}

/// Wrapping always gives at least one line. A text wider than a positive
/// budget that is broken up gives lines that are not empty and have no
/// whitespace at either end; otherwise it comes back whole as the one line.
pub proof fn law_wrapped_lines_trimmed(s: Seq<char>, w: int)
    requires
        w > 0,
    ensures
        wrap_spec(s, w).len() >= 1,
        wrap_spec(s, w) == seq![s] || forall|k: int| 0 <= k < wrap_spec(s, w).len() ==> is_trimmed(#[trigger] wrap_spec(s, w)[k]),
{
    lemma_wrap_from_trimmed(s, 0, w);
}


pub open spec fn all_ws(s: Seq<char>) -> bool {
    forall|i: int| 0 <= i < s.len() ==> is_ws(#[trigger] s[i])
}

proof fn lemma_all_ws_skip(s: Seq<char>)
    requires
        s.len() > 0,
        is_ws(s[0]),
    ensures
        all_ws(s) == all_ws(s.skip(1)),
{
    let t = s.skip(1);
    if all_ws(t) {
        assert forall|i: int| 0 <= i < s.len() implies is_ws(#[trigger] s[i]) by {
            if i > 0 {
                assert(s[i] == t[i - 1]);
            }
        }
    }
    if all_ws(s) {
        assert forall|i: int| 0 <= i < t.len() implies is_ws(#[trigger] t[i]) by {
            assert(t[i] == s[i + 1]);
        }
    }
}

proof fn lemma_all_ws_drop_last(s: Seq<char>)
    requires
        s.len() > 0,
        is_ws(s.last()),
    ensures
        all_ws(s) == all_ws(s.drop_last()),
{
    let t = s.drop_last();
    if all_ws(t) {
        assert forall|i: int| 0 <= i < s.len() implies is_ws(#[trigger] s[i]) by {
            if i < s.len() - 1 {
                assert(s[i] == t[i]);
            }
        }
    }
    if all_ws(s) {
        assert forall|i: int| 0 <= i < t.len() implies is_ws(#[trigger] t[i]) by {
            assert(t[i] == s[i]);
        }
    }
}

proof fn lemma_trim_start_blank(s: Seq<char>)
    ensures
        all_ws(s) == all_ws(trim_start(s)),
    decreases s.len(),
{
    if s.len() > 0 && is_ws(s[0]) {
        lemma_trim_start_blank(s.skip(1));
        lemma_all_ws_skip(s);
    }
}

proof fn lemma_trim_end_blank(s: Seq<char>)
    ensures
        all_ws(s) == all_ws(trim_end(s)),
    decreases s.len(),
{
    if s.len() > 0 && is_ws(s.last()) {
        lemma_trim_end_blank(s.drop_last());
        lemma_all_ws_drop_last(s);
    }
}

/// Trimming leaves nothing exactly when every character is whitespace.
pub proof fn lemma_trim_blank(s: Seq<char>)
    ensures
        trim(s).len() == 0 <==> forall|i: int| 0 <= i < s.len() ==> is_ws(#[trigger] s[i]),
{
    let y = trim_start(s);
    lemma_trim_start_blank(s);
    lemma_trim_end_blank(y);
    lemma_trim_start_head(s);
    lemma_trim_end_tail(y);
    let t = trim(s);
    if t.len() == 0 {
        if y.len() > 0 {
            lemma_trim_end_keeps_head(y);
        }
    } else {
        assert(!is_ws(t[t.len() - 1]));
    }
}

proof fn lemma_trim_end_keeps_head(y: Seq<char>)
    requires
        y.len() > 0,
        !is_ws(y[0]),
    ensures
        trim_end(y).len() > 0,
    decreases y.len(),
{
    if is_ws(y.last()) {
        assert(y.len() > 1);
        assert(y.drop_last()[0] == y[0]);
        lemma_trim_end_keeps_head(y.drop_last());
    }
}

} // verus!
