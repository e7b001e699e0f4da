//! Display widths of characters and strings in terminal columns.
use vstd::prelude::*;
use unicode_width::{UnicodeWidthChar, UnicodeWidthStr};

verus! {

/// Terminal width of a character as `unicode-width` computes it (`None` for
/// control characters).
pub uninterp spec fn char_display_width(c: char) -> Option<usize>;

/// Terminal width of a string as `unicode-width` computes it.
pub uninterp spec fn str_display_width(s: Seq<char>) -> usize;

/// `UnicodeWidthChar::width` of `unicode-width`: the result is named by
/// `char_display_width`; the source also shows that characters below U+0020
/// give `None` and printable ASCII (U+0020 to U+007E) gives `Some(1)`.
#[verifier::external_body]
pub(crate) fn char_width(c: char) -> (r: Option<usize>)
    ensures
        r == char_display_width(c),
        (c as u32) < 0x20 ==> r == None::<usize>,
        0x20 <= (c as u32) < 0x7F ==> r == Some(1usize),
{
    UnicodeWidthChar::width(c)
}

/// `UnicodeWidthStr::width` of `unicode-width`: the result is named by
/// `str_display_width` (it is not always the sum of the character widths,
/// e.g. for emoji sequences and `"\r\n"`). The source also shows that a
/// text of printable ASCII characters (U+0020 to U+007E) is as wide as it is
/// long.
#[verifier::external_body]
pub(crate) fn str_width(s: &str) -> (r: usize)
    ensures
        r == str_display_width(s@),
        (forall|i: int| 0 <= i < s@.len() ==> 0x20 <= (#[trigger] s@[i] as u32) < 0x7F) ==> r == s@.len(),
{
    UnicodeWidthStr::width(s)
}

/// Columns a character takes while wrapping (control characters take none).
pub open spec fn col_width(c: char) -> int {
    match char_display_width(c) {
        Some(n) => n as int,
        None => 0,
    }
}

/// Sum of the column widths of a run of characters.
pub open spec fn cols(s: Seq<char>) -> int
    decreases s.len(),
{
    if s.len() == 0 { 0 } else { cols(s.drop_last()) + col_width(s.last()) }
}

/// Column width of one character while wrapping.
pub fn col_width_of(c: char) -> (r: usize)
    ensures
        r as int == col_width(c),
{
    match char_width(c) {
        Some(n) => n,
        None => 0,
    }
}

} // verus!
