//! Single-line text fields of the login editor and the setup wizard: a value
//! plus a cursor counted in characters.
use vstd::prelude::*;
use crate::keys::{KeyCode, KeyPress};
use crate::text::{chars_of, char_is_whitespace, is_ws, splice, string_from_chars};

verus! {

/// Start of the whitespace run that ends at `i` (moving left).
pub open spec fn skip_ws_back(s: Seq<char>, i: int) -> int
    decreases i,
{
    if 0 < i <= s.len() && is_ws(s[i - 1]) {
        skip_ws_back(s, i - 1)
    } else {
        i
    }
}

/// Start of the non-whitespace run that ends at `i` (moving left).
pub open spec fn skip_word_back(s: Seq<char>, i: int) -> int
    decreases i,
{
    if 0 < i <= s.len() && !is_ws(s[i - 1]) {
        skip_word_back(s, i - 1)
    } else {
        i
    }
}

/// Where Ctrl+W deletes back to from `pos`: trailing blanks, then one word.
pub open spec fn word_back_start(s: Seq<char>, pos: int) -> int {
    skip_word_back(s, skip_ws_back(s, pos))
}

pub open spec fn min_int(a: int, b: int) -> int {
    if a <= b { a } else { b }
}

/// What a key does to a field: whether it was handled, the new value and the
/// new cursor.
pub open spec fn field_key(val: Seq<char>, cursor: int, key: KeyPress) -> (bool, Seq<char>, int) {
    let len = val.len() as int;
    let pos = min_int(cursor, len);
    match key.code {
        KeyCode::Char(ch) => {
            if !key.ctrl {
                (true, val.take(pos) + seq![ch] + val.skip(pos), pos + 1)
            } else if ch == 'w' {
                if pos == 0 {
                    (true, val, cursor)
                } else {
                    let end = word_back_start(val, pos);
                    (true, val.take(end) + val.skip(pos), end)
                }
            } else {
                (false, val, cursor)
            }
        },
        KeyCode::Backspace => {
            if key.ctrl {
                (false, val, cursor)
            } else if 0 < cursor <= len {
                (true, val.take(cursor - 1) + val.skip(cursor), cursor - 1)
            } else if cursor > len && len > 0 {
                (true, val.take(len - 1), len - 1)
            } else {
                (true, val, cursor)
            }
        },
        KeyCode::Delete => {
            if cursor < len {
                (true, val.take(cursor) + val.skip(cursor + 1), cursor)
            } else {
                (true, val, cursor)
            }
        },
        KeyCode::Left => {
            if key.ctrl {
                (false, val, cursor)
            } else if cursor > 0 {
                (true, val, cursor - 1)
            } else {
                (true, val, cursor)
            }
        },
        KeyCode::Right => {
            if key.ctrl {
                (false, val, cursor)
            } else if cursor < len {
                (true, val, cursor + 1)
            } else {
                (true, val, cursor)
            }
        },
        KeyCode::Home => {
            if key.ctrl { (false, val, cursor) } else { (true, val, 0) }
        },
        KeyCode::End => {
            if key.ctrl { (false, val, cursor) } else { (true, val, len) }
        },
        _ => (false, val, cursor),
    }
}

proof fn lemma_skip_bounds(s: Seq<char>, i: int)
    requires
        0 <= i <= s.len(),
    ensures
        0 <= skip_ws_back(s, i) <= i,
        0 <= skip_word_back(s, i) <= i,
        0 <= word_back_start(s, i) <= i,
    decreases i,
{
    if i > 0 {
        lemma_skip_bounds(s, i - 1);
    }
    let j = skip_ws_back(s, i);
    if 0 <= j <= i {
        lemma_skip_word(s, j);
    }
}

proof fn lemma_skip_word(s: Seq<char>, i: int)
    requires
        0 <= i <= s.len(),
    ensures
        0 <= skip_word_back(s, i) <= i,
    decreases i,
{
    if i > 0 {
        lemma_skip_word(s, i - 1);
    }
}

/// Computes `word_back_start` on a character vector.
fn find_word_back_start(chars: &Vec<char>, pos: usize) -> (r: usize)
    requires
        pos <= chars@.len(),
    ensures
        r as int == word_back_start(chars@, pos as int),
        r <= pos,
{
    proof {
        lemma_skip_bounds(chars@, pos as int);
    }
    let mut end = pos;
    while end > 0 && char_is_whitespace(chars[end - 1])
        invariant
            end <= pos <= chars@.len(),
            skip_ws_back(chars@, end as int) == skip_ws_back(chars@, pos as int),
        decreases end,
    {
        end = end - 1;
    }
    let ghost mid = end;
    while end > 0 && !char_is_whitespace(chars[end - 1])
        invariant
            end <= mid <= pos <= chars@.len(),
            mid as int == skip_ws_back(chars@, pos as int),
            skip_word_back(chars@, end as int) == skip_word_back(chars@, mid as int),
        decreases end,
    {
        end = end - 1;
    }
    end
}

/// Applies a key to a text field. Returns whether the key was handled.
pub fn apply_field_key(val: &mut String, cursor: &mut usize, key: KeyPress) -> (handled: bool)
    requires
        old(val)@.len() < usize::MAX,
    ensures
        (handled, final(val)@, *final(cursor) as int) == field_key(old(val)@, *old(cursor) as int, key),
{
    let chars = chars_of(val.as_str());
    let len = chars.len();
    let pos = if *cursor < len { *cursor } else { len };
    match key.code {
        KeyCode::Char(ch) => {
            if !key.ctrl {
                let mut ins: Vec<char> = Vec::new();
                ins.push(ch);
                let nv = splice(&chars, pos, pos, &ins);
                *val = string_from_chars(nv.as_slice());
                *cursor = pos + 1;
                proof { assert(ins@ =~= seq![ch]); }
                true
            } else if ch == 'w' {
                if pos == 0 {
                    true
                } else {
                    let end = find_word_back_start(&chars, pos);
                    let empty: Vec<char> = Vec::new();
                    let nv = splice(&chars, end, pos, &empty);
                    *val = string_from_chars(nv.as_slice());
                    *cursor = end;
                    proof { assert(nv@ =~= chars@.take(end as int) + chars@.skip(pos as int)); }
                    true
                }
            } else {
                false
            }
        },
        KeyCode::Backspace => {
            if key.ctrl {
                false
            } else if 0 < *cursor && *cursor <= len {
                let c = *cursor;
                let empty: Vec<char> = Vec::new();
                let nv = splice(&chars, c - 1, c, &empty);
                *val = string_from_chars(nv.as_slice());
                *cursor = c - 1;
                proof { assert(nv@ =~= chars@.take(c - 1) + chars@.skip(c as int)); }
                true
            } else if *cursor > len && len > 0 {
                let empty: Vec<char> = Vec::new();
                let nv = splice(&chars, len - 1, len, &empty);
                *val = string_from_chars(nv.as_slice());
                *cursor = len - 1;
                proof { assert(nv@ =~= chars@.take(len - 1)); }
                true
            } else {
                true
            }
        },
        KeyCode::Delete => {
            if *cursor < len {
                let c = *cursor;
                let empty: Vec<char> = Vec::new();
                let nv = splice(&chars, c, c + 1, &empty);
                *val = string_from_chars(nv.as_slice());
                proof { assert(nv@ =~= chars@.take(c as int) + chars@.skip(c + 1)); }
            }
            true
        },
        KeyCode::Left => {
            if key.ctrl {
                false
            } else {
                if *cursor > 0 {
                    *cursor = *cursor - 1;
                }
                true
            }
        },
        KeyCode::Right => {
            if key.ctrl {
                false
            } else {
                if *cursor < len {
                    *cursor = *cursor + 1;
                }
                true
            }
        },
        KeyCode::Home => {
            if key.ctrl {
                false
            } else {
                *cursor = 0;
                true
            }
        },
        KeyCode::End => {
            if key.ctrl {
                false
            } else {
                *cursor = len;
                true
            }
        },
        _ => false,
    }
}

} // verus!

verus! {

/// Line breaks normalised: every `"\r\n"` and every lone `'\r'` becomes `'\n'`.
pub open spec fn normalize_newlines(s: Seq<char>) -> Seq<char>
    decreases s.len(),
{
    if s.len() == 0 {
        Seq::empty()
    } else if s[0] == '\r' && s.len() >= 2 && s[1] == '\n' {
        seq!['\n'] + normalize_newlines(s.skip(2))
    } else if s[0] == '\r' {
        seq!['\n'] + normalize_newlines(s.skip(1))
    } else {
        seq![s[0]] + normalize_newlines(s.skip(1))
    }
}

/// Most characters a single paste inserts.
pub const MAX_PASTE_CHARS: usize = 10000;

/// What a paste does to a field: the new value and the new cursor.
pub open spec fn field_paste(val: Seq<char>, cursor: int, paste: Seq<char>) -> (Seq<char>, int) {
    let pos = min_int(cursor, val.len() as int);
    let norm = normalize_newlines(paste);
    let ins = if norm.len() > MAX_PASTE_CHARS { norm.take(MAX_PASTE_CHARS as int) } else { norm };
    (val.take(pos) + ins + val.skip(pos), pos + ins.len())
}

/// Normalises line breaks of a pasted text.
pub fn normalize_paste(paste: &Vec<char>) -> (r: Vec<char>)
    ensures
        r@ == normalize_newlines(paste@),
{
    let mut out: Vec<char> = Vec::new();
    let mut i: usize = 0;
    assert(paste@.skip(0) =~= paste@);
    assert(out@ + normalize_newlines(paste@) =~= normalize_newlines(paste@));
    while i < paste.len()
        invariant
            i <= paste@.len(),
            out@ + normalize_newlines(paste@.skip(i as int)) == normalize_newlines(paste@),
        decreases paste@.len() - i,
    {
        let ghost rest = paste@.skip(i as int);
        if paste[i] == '\r' && i + 1 < paste.len() && paste[i + 1] == '\n' {
            assert(rest.skip(2) =~= paste@.skip(i + 2));
            assert(out@.push('\n') + normalize_newlines(paste@.skip(i + 2))
                =~= out@ + normalize_newlines(rest));
            out.push('\n');
            i = i + 2;
        } else if paste[i] == '\r' {
            assert(rest.skip(1) =~= paste@.skip(i + 1));
            assert(out@.push('\n') + normalize_newlines(paste@.skip(i + 1))
                =~= out@ + normalize_newlines(rest));
            out.push('\n');
            i = i + 1;
        } else {
            assert(rest.skip(1) =~= paste@.skip(i + 1));
            let c = paste[i];
            assert(out@.push(c) + normalize_newlines(paste@.skip(i + 1))
                =~= out@ + normalize_newlines(rest));
            out.push(c);
            i = i + 1;
        }
    }
    assert(paste@.skip(paste@.len() as int) =~= Seq::<char>::empty());
    assert(out@ + Seq::<char>::empty() =~= out@);
    out
}

/// Pastes text into a field at the cursor.
pub fn apply_field_paste(val: &mut String, cursor: &mut usize, paste: &str)
    requires
        old(val)@.len() + MAX_PASTE_CHARS <= usize::MAX,
    ensures
        (final(val)@, *final(cursor) as int) == field_paste(old(val)@, *old(cursor) as int, paste@),
{
    let chars = chars_of(val.as_str());
    let raw = chars_of(paste);
    let norm = normalize_paste(&raw);
    let ins = if norm.len() > MAX_PASTE_CHARS {
        let empty: Vec<char> = Vec::new();
        let t = splice(&norm, MAX_PASTE_CHARS, norm.len(), &empty);
        proof { assert(t@ =~= norm@.take(MAX_PASTE_CHARS as int)); }
        t
    } else {
        norm
    };
    let len = chars.len();
    let pos = if *cursor < len { *cursor } else { len };
    let nv = splice(&chars, pos, pos, &ins);
    *val = string_from_chars(nv.as_slice());
    *cursor = pos + ins.len();
}

} // verus!

verus! {

/// A cursor that starts inside the field stays inside it after any key.
pub proof fn law_field_key_keeps_cursor_in_bounds(val: Seq<char>, cursor: int, key: KeyPress)
    requires
        0 <= cursor <= val.len(),
    ensures
        0 <= field_key(val, cursor, key).2 <= field_key(val, cursor, key).1.len(),
{
    lemma_skip_bounds(val, cursor);
}

/// Typing a character and then pressing Backspace gives back the field as it was.
pub proof fn law_insert_then_backspace(val: Seq<char>, cursor: int, ch: char)
    requires
        0 <= cursor <= val.len(),
    ensures
        ({
            let (h1, v1, c1) = field_key(val, cursor, KeyPress { code: KeyCode::Char(ch), ctrl: false, shift: false });
            field_key(v1, c1, KeyPress { code: KeyCode::Backspace, ctrl: false, shift: false }) == (true, val, cursor)
        }),
{
    let v1 = val.take(cursor) + seq![ch] + val.skip(cursor);
    assert(v1.take(cursor) + v1.skip(cursor + 1) =~= val);
}

/// A paste leaves the cursor just after the pasted text, inside the field.
pub proof fn law_paste_keeps_cursor_in_bounds(val: Seq<char>, cursor: int, paste: Seq<char>)
    requires
        0 <= cursor <= val.len(),
    ensures
        0 <= field_paste(val, cursor, paste).1 <= field_paste(val, cursor, paste).0.len(),
        field_paste(val, cursor, paste).0.take(cursor) == val.take(cursor),
{
    let (v, c) = field_paste(val, cursor, paste);
    assert(v.take(cursor) =~= val.take(cursor));
}

} // verus!

verus! {

/// Character index that Ctrl+W deletes back to from `pos`.
pub fn word_back_index(chars: &Vec<char>, pos: usize) -> (r: usize)
    requires
        pos <= chars@.len(),
    ensures
        r as int == word_back_start(chars@, pos as int),
        r <= pos,
{
    find_word_back_start(chars, pos)
}

} // verus!
