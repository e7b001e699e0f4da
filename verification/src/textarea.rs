//! The free-text input used by the question panel and the plugin search box:
//! a text with a cursor counted in UTF-8 bytes.
use vstd::prelude::*;
use crate::line_edit::word_back_start;
use crate::text::{chars_of, splice, string_from_chars, char_is_whitespace};

verus! {

/// Bytes that `c` takes in UTF-8 (`char::len_utf8`).
pub open spec fn char_utf8_len(c: char) -> nat {
    let u = c as u32;
    if u < 0x80 { 1 } else if u < 0x800 { 2 } else if u < 0x10000 { 3 } else { 4 }
}

/// Bytes that a run of characters takes in UTF-8.
pub open spec fn utf8_len(s: Seq<char>) -> nat
    decreases s.len(),
{
    if s.len() == 0 { 0 } else { utf8_len(s.drop_last()) + char_utf8_len(s.last()) }
}

/// Number of characters that lie wholly before byte offset `b`, counted from `i`.
pub open spec fn char_pos_from(s: Seq<char>, b: int, i: int) -> int
    decreases s.len() - i,
{
    if 0 <= i < s.len() && utf8_len(s.take(i + 1)) <= b { char_pos_from(s, b, i + 1) } else { i }
}

/// Character index of byte offset `b` (rounded down to a character boundary).
pub open spec fn char_pos(s: Seq<char>, b: int) -> int {
    char_pos_from(s, b, 0)
}

/// Computes `char::len_utf8`.
pub fn len_utf8(c: char) -> (r: usize)
    ensures
        r == char_utf8_len(c),
{
    let u = c as u32;
    if u < 0x80 { 1 } else if u < 0x800 { 2 } else if u < 0x10000 { 3 } else { 4 }
}

proof fn lemma_utf8_len_take_step(s: Seq<char>, i: int)
    requires
        0 <= i < s.len(),
    ensures
        utf8_len(s.take(i + 1)) == utf8_len(s.take(i)) + char_utf8_len(s[i]),
{
    assert(s.take(i + 1).drop_last() =~= s.take(i));
}

proof fn lemma_char_pos_bounds(s: Seq<char>, b: int, i: int)
    requires
        0 <= i <= s.len(),
    ensures
        i <= char_pos_from(s, b, i) <= s.len(),
    decreases s.len() - i,
{
    if i < s.len() && utf8_len(s.take(i + 1)) <= b {
        lemma_char_pos_bounds(s, b, i + 1);
    }
}

/// Finds the character index of a byte offset.
fn char_index_of(chars: &Vec<char>, b: usize) -> (r: usize)
    ensures
        r as int == char_pos(chars@, b as int),
        r <= chars@.len(),
{
    proof { lemma_char_pos_bounds(chars@, b as int, 0); }
    let mut i: usize = 0;
    let mut acc: usize = 0;
    assert(chars@.take(0) =~= Seq::<char>::empty());
    while i < chars.len() && len_utf8(chars[i]) <= b - acc
        invariant
            i <= chars@.len(),
            acc <= b,
            acc as int == utf8_len(chars@.take(i as int)),
            char_pos_from(chars@, b as int, i as int) == char_pos(chars@, b as int),
        decreases chars@.len() - i,
    {
        proof { lemma_utf8_len_take_step(chars@, i as int); }
        acc = acc + len_utf8(chars[i]);
        i = i + 1;
    }
    proof {
        if i < chars.len() {
            lemma_utf8_len_take_step(chars@, i as int);
        }
    }
    i
}

/// UTF-8 length of the first `k` characters.
fn byte_offset_of(chars: &Vec<char>, k: usize) -> (r: usize)
    requires
        k <= chars@.len(),
        utf8_len(chars@) <= usize::MAX,
    ensures
        r as int == utf8_len(chars@.take(k as int)),
{
    let mut i: usize = 0;
    let mut acc: usize = 0;
    assert(chars@.take(0) =~= Seq::<char>::empty());
    while i < k
        invariant
            i <= k <= chars@.len(),
            utf8_len(chars@) <= usize::MAX,
            acc as int == utf8_len(chars@.take(i as int)),
        decreases k - i,
    {
        proof {
            lemma_utf8_len_take_step(chars@, i as int);
            lemma_utf8_len_prefix_le(chars@, i + 1);
        }
        acc = acc + len_utf8(chars[i]);
        i = i + 1;
    }
    acc
}

pub proof fn lemma_utf8_len_prefix_le(s: Seq<char>, i: int)
    requires
        0 <= i <= s.len(),
    ensures
        utf8_len(s.take(i)) <= utf8_len(s),
    decreases s.len() - i,
{
    if i < s.len() {
        lemma_utf8_len_take_step(s, i);
        lemma_utf8_len_prefix_le(s, i + 1);
    } else {
        assert(s.take(i) =~= s);
    }
}

/// The text input: its text and the cursor as a byte offset into it.
#[derive(Debug)]
pub struct TextAreaState {
    pub text: String,
    pub cursor: usize,
}

/// Most bytes a text input may hold, so that cursor arithmetic cannot overflow.
pub open spec fn fits(s: Seq<char>) -> bool {
    utf8_len(s) + 8 <= usize::MAX
}

pub proof fn lemma_utf8_len_concat(a: Seq<char>, b: Seq<char>)
    ensures
        utf8_len(a + b) == utf8_len(a) + utf8_len(b),
    decreases b.len(),
{
    if b.len() > 0 {
        assert((a + b).drop_last() =~= a + b.drop_last());
        lemma_utf8_len_concat(a, b.drop_last());
    } else {
        assert(a + b =~= a);
    }
}

/// `b` is `a` with `c` typed at the cursor, the cursor after it.
pub open spec fn char_inserted(a: TextAreaState, b: TextAreaState, c: char) -> bool {
    let k = char_pos(a.text@, a.cursor as int);
    &&& b.text@ == a.text@.take(k) + seq![c] + a.text@.skip(k)
    &&& b.cursor as int == utf8_len(a.text@.take(k) + seq![c])
}

/// `b` is `a` with the character before the cursor deleted (no change at
/// the start).
pub open spec fn char_deleted_back(a: TextAreaState, b: TextAreaState) -> bool {
    let k = char_pos(a.text@, a.cursor as int);
    if k > 0 {
        &&& b.text@ == a.text@.take(k - 1) + a.text@.skip(k)
        &&& b.cursor as int == utf8_len(a.text@.take(k - 1))
    } else {
        b == a
    }
}

impl Default for TextAreaState {
    fn default() -> (r: TextAreaState)
        ensures
            r.text@ == Seq::<char>::empty(),
            r.cursor == 0,
    {
        TextAreaState { text: String::new(), cursor: 0 }
    }
}

impl TextAreaState {
    /// An empty input.
    pub fn new() -> (r: TextAreaState)
        ensures
            r.text@ == Seq::<char>::empty(),
            r.cursor == 0,
    {
        TextAreaState { text: String::new(), cursor: 0 }
    }

    /// The whole text.
    pub fn all_text(&self) -> (r: String)
        ensures
            r@ == self.text@,
    {
        self.text.clone()
    }

    /// The cursor as a byte offset.
    pub fn cursor_byte(&self) -> (r: usize)
        ensures
            r == self.cursor,
    {
        self.cursor
    }

    /// Inserts a run of characters at the cursor and leaves the cursor after it.
    fn insert_chars(&mut self, ins: &Vec<char>)
        requires
            utf8_len(old(self).text@) + utf8_len(ins@) <= usize::MAX,
        ensures
            ({
                let k = char_pos(old(self).text@, old(self).cursor as int);
                &&& final(self).text@ == old(self).text@.take(k) + ins@ + old(self).text@.skip(k)
                &&& final(self).cursor as int == utf8_len(old(self).text@.take(k) + ins@)
            }),
    {
        let chars = chars_of(self.text.as_str());
        let k = char_index_of(&chars, self.cursor);
        let nv = splice(&chars, k, k, ins);
        proof {
            lemma_utf8_len_concat(chars@.take(k as int) + ins@, chars@.skip(k as int));
            lemma_utf8_len_concat(chars@.take(k as int), chars@.skip(k as int));
            lemma_utf8_len_concat(chars@.take(k as int), ins@);
            assert(chars@.take(k as int) + chars@.skip(k as int) =~= chars@);
            assert(nv@.take(k + ins@.len()) =~= chars@.take(k as int) + ins@);
        }
        let c = byte_offset_of(&nv, nv.len() - (chars.len() - k));
        self.text = string_from_chars(nv.as_slice());
        self.cursor = c;
    }

    /// Inserts one character at the cursor.
    pub fn insert_char(&mut self, c: char)
        requires
            fits(old(self).text@),
        ensures
            char_inserted(*old(self), *final(self), c),
    {
        let mut ins: Vec<char> = Vec::new();
        ins.push(c);
        proof {
            assert(ins@ =~= seq![c]);
            assert(seq![c].drop_last() =~= Seq::<char>::empty());
            assert(utf8_len(Seq::<char>::empty()) == 0);
            assert(utf8_len(ins@) == char_utf8_len(c));
        }
        self.insert_chars(&ins);
    }

    /// Inserts a string at the cursor.
    pub fn insert_str(&mut self, s: &str)
        requires
            utf8_len(old(self).text@) + utf8_len(s@) <= usize::MAX,
        ensures
            ({
                let k = char_pos(old(self).text@, old(self).cursor as int);
                &&& final(self).text@ == old(self).text@.take(k) + s@ + old(self).text@.skip(k)
                &&& final(self).cursor as int == utf8_len(old(self).text@.take(k) + s@)
            }),
    {
        let ins = chars_of(s);
        self.insert_chars(&ins);
    }

    /// Removes the characters between character indexes `from` and `to`
    /// and puts the cursor at `from`.
    fn remove_range(&mut self, chars: &Vec<char>, from: usize, to: usize)
        requires
            chars@ == old(self).text@,
            from <= to <= chars@.len(),
            utf8_len(chars@) <= usize::MAX,
        ensures
            final(self).text@ == chars@.take(from as int) + chars@.skip(to as int),
            final(self).cursor as int == utf8_len(chars@.take(from as int)),
    {
        let empty: Vec<char> = Vec::new();
        let nv = splice(chars, from, to, &empty);
        proof {
            lemma_utf8_len_prefix_le(chars@, from as int);
            assert(nv@ =~= chars@.take(from as int) + chars@.skip(to as int));
        }
        let c = byte_offset_of(chars, from);
        self.text = string_from_chars(nv.as_slice());
        self.cursor = c;
    }

    /// Deletes the character before the cursor.
    pub fn backspace(&mut self)
        requires
            fits(old(self).text@),
        ensures
            char_deleted_back(*old(self), *final(self)),
    {
        let chars = chars_of(self.text.as_str());
        let k = char_index_of(&chars, self.cursor);
        if k > 0 {
            self.remove_range(&chars, k - 1, k);
        }
    }

    /// Deletes the character after the cursor.
    pub fn delete_forward(&mut self)
        requires
            fits(old(self).text@),
        ensures
            ({
                let k = char_pos(old(self).text@, old(self).cursor as int);
                if k < old(self).text@.len() {
                    &&& final(self).text@ == old(self).text@.take(k) + old(self).text@.skip(k + 1)
                    &&& final(self).cursor as int == utf8_len(old(self).text@.take(k))
                } else {
                    *final(self) == *old(self)
                }
            }),
    {
        let chars = chars_of(self.text.as_str());
        let k = char_index_of(&chars, self.cursor);
        if k < chars.len() {
            self.remove_range(&chars, k, k + 1);
        }
    }

    /// Deletes blanks and then one word before the cursor.
    pub fn delete_word_backward(&mut self)
        requires
            fits(old(self).text@),
        ensures
            ({
                let k = char_pos(old(self).text@, old(self).cursor as int);
                let w = word_back_start(old(self).text@, k);
                &&& final(self).text@ == old(self).text@.take(w) + old(self).text@.skip(k)
                &&& final(self).cursor as int == utf8_len(old(self).text@.take(w))
            }),
    {
        let chars = chars_of(self.text.as_str());
        let k = char_index_of(&chars, self.cursor);
        let w = crate::line_edit::word_back_index(&chars, k);
        self.remove_range(&chars, w, k);
    }

    /// Empties the input.
    pub fn clear(&mut self)
        ensures
            final(self).text@ == Seq::<char>::empty(),
            final(self).cursor == 0,
    {
        self.text = String::new();
        self.cursor = 0;
    }

    /// Replaces the whole text and puts the cursor at its end.
    pub fn replace_all_no_undo(&mut self, text: String)
        requires
            utf8_len(text@) <= usize::MAX,
        ensures
            final(self).text@ == text@,
            final(self).cursor as int == utf8_len(text@),
    {
        let chars = chars_of(text.as_str());
        proof { assert(chars@.take(chars@.len() as int) =~= chars@); }
        let c = byte_offset_of(&chars, chars.len());
        self.text = text;
        self.cursor = c;
    }

    /// Moves the cursor one character left.
    pub fn cursor_left(&mut self)
        requires
            fits(old(self).text@),
        ensures
            final(self).text == old(self).text,
            ({
                let k = char_pos(old(self).text@, old(self).cursor as int);
                final(self).cursor as int == utf8_len(old(self).text@.take(if k > 0 { k - 1 } else { 0 }))
            }),
    {
        let chars = chars_of(self.text.as_str());
        let k = char_index_of(&chars, self.cursor);
        let t = if k > 0 { k - 1 } else { 0 };
        self.cursor = byte_offset_of(&chars, t);
    }

    /// Moves the cursor one character right.
    pub fn cursor_right(&mut self)
        requires
            fits(old(self).text@),
        ensures
            final(self).text == old(self).text,
            ({
                let k = char_pos(old(self).text@, old(self).cursor as int);
                final(self).cursor as int == utf8_len(old(self).text@.take(
                    if k < old(self).text@.len() { k + 1 } else { k }))
            }),
    {
        let chars = chars_of(self.text.as_str());
        let k = char_index_of(&chars, self.cursor);
        let t = if k < chars.len() { k + 1 } else { k };
        self.cursor = byte_offset_of(&chars, t);
    }
}

proof fn lemma_char_pos_of_boundary(s: Seq<char>, j: int, i: int)
    requires
        0 <= i <= j <= s.len(),
    ensures
        char_pos_from(s, utf8_len(s.take(j)) as int, i) == j,
    decreases j - i,
{
    if i < j {
        lemma_utf8_len_prefix_le(s.take(j), i + 1);
        assert(s.take(j).take(i + 1) =~= s.take(i + 1));
        lemma_char_pos_of_boundary(s, j, i + 1);
    } else if j < s.len() {
        lemma_utf8_len_take_step(s, j);
    }
}

/// Typing a character and then deleting the character before the cursor
/// gives the text back, with the cursor on the character boundary at or
/// before where it was (exactly where it was when it sat on a boundary).
pub proof fn law_type_then_backspace(a: TextAreaState, b: TextAreaState, c: TextAreaState, ch: char)
    requires
        char_inserted(a, b, ch),
        char_deleted_back(b, c),
    ensures
        c.text@ == a.text@,
        c.cursor as int == utf8_len(a.text@.take(char_pos(a.text@, a.cursor as int))),
        c.cursor <= a.cursor,
{
    let s = a.text@;
    let k = char_pos(s, a.cursor as int);
    lemma_char_pos_bounds(s, a.cursor as int, 0);
    let t = b.text@;
    assert(t.take(k + 1) =~= s.take(k) + seq![ch]);
    lemma_char_pos_of_boundary(t, k + 1, 0);
    assert(char_pos(t, b.cursor as int) == k + 1);
    assert(t.take(k) =~= s.take(k));
    assert(t.skip(k + 1) =~= s.skip(k));
    assert(s.take(k) + s.skip(k) =~= s);
    lemma_char_pos_le_cursor(s, a.cursor as int, 0);
}

proof fn lemma_char_pos_le_cursor(s: Seq<char>, b: int, i: int)
    requires
        0 <= i <= s.len(),
        utf8_len(s.take(i)) <= b,
    ensures
        utf8_len(s.take(char_pos_from(s, b, i))) <= b,
    decreases s.len() - i,
{
    if i < s.len() && utf8_len(s.take(i + 1)) <= b {
        lemma_char_pos_le_cursor(s, b, i + 1);
    }
}

} // verus!
