//! The display-window slicing function.
//!
//! Slicing is by Unicode scalar value, never by byte. A text that fits in
//! the display is shown whole. A wider text is shown as a window of exactly
//! `width` characters starting at the scroll offset; once the window runs
//! past the end of the text it wraps around to the start, with a single `|`
//! continuation marker between the end and the restart.

use vstd::prelude::*;
use crate::text::push_char;
use crate::text::push_char_range;

verus! {

/// The visible window of `text` in a display of `width` columns, with the
/// scroll position at `offset`.
///
/// With `text.len() <= width` the window is the full text. Otherwise, let
/// `missing = offset + width - text.len()`. With `missing <= 0` the window
/// is the `width` characters starting at `offset`; with `missing > 0` it is
/// the characters from `offset` to the end, a `|` marker, and the first
/// `missing - 1` characters of the text.
pub open spec fn window_of(text: Seq<char>, width: int, offset: int) -> Seq<char>
    recommends
        0 <= offset <= text.len(),
{
    if text.len() <= width {
        text
    } else {
        let missing = offset + width - text.len();
        if missing <= 0 {
            text.subrange(offset, offset + width)
        } else {
            text.subrange(offset, text.len() as int) + seq!['|'] + text.subrange(0, missing - 1)
        }
    }
}

/// A text that fits in the display is shown whole, whatever the offset.
pub proof fn lemma_window_fits(text: Seq<char>, width: int, offset: int)
    requires
        text.len() <= width,
    ensures
        window_of(text, width, offset) == text,
{
}

/// Before any rotation starts (offset zero), the window of a text wider
/// than the display is exactly its first `width` characters.
pub proof fn lemma_window_at_start(text: Seq<char>, width: int)
    requires
        0 <= width < text.len(),
    ensures
        window_of(text, width, 0) == text.subrange(0, width),
{
}

/// A text wider than the display always fills it exactly: whatever the
/// offset, the window (marker and wrap-around included) is `width`
/// characters long.
pub proof fn lemma_window_width(text: Seq<char>, width: int, offset: int)
    requires
        0 <= offset <= text.len(),
        0 <= width < text.len(),
    ensures
        window_of(text, width, offset).len() == width,
{
}

/// Computes `window_of(text@, width, offset)`.
pub fn visible_window(text: &Vec<char>, width: usize, offset: usize) -> (r: String)
    requires
        offset <= text@.len(),
    ensures
        r@ == window_of(text@, width as int, offset as int),
{
    let len = text.len();
    let mut out = String::new();
    if len <= width {
        push_char_range(&mut out, text, 0, len);
        proof {
            assert(Seq::<char>::empty() + text@.subrange(0, len as int) =~= text@);
        }
    } else {
        let sum: u128 = offset as u128 + width as u128;
        if sum <= len as u128 {
            push_char_range(&mut out, text, offset, offset + width);
            proof {
                assert(Seq::<char>::empty() + text@.subrange(offset as int, offset + width)
                    =~= text@.subrange(offset as int, offset + width));
            }
        } else {
            let missing: usize = (sum - len as u128) as usize;
            push_char_range(&mut out, text, offset, len);
            push_char(&mut out, '|');
            push_char_range(&mut out, text, 0, missing - 1);
            proof {
                assert(((Seq::<char>::empty() + text@.subrange(offset as int, len as int))
                    + seq!['|']) + text@.subrange(0, missing - 1)
                    =~= text@.subrange(offset as int, len as int) + seq!['|']
                        + text@.subrange(0, missing - 1));
            }
        }
    }
    out
}

} // verus!
