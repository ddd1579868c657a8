//! The window onto the rendered document: scroll offsets and visible slices.

use vstd::prelude::*;

verus! {

/// The offset of the window along one axis after it has followed the cursor.
///
/// A cursor before the window pulls the window's start back onto itself; a
/// cursor at or past the window's end pushes the window forward until the
/// cursor sits in its last cell. Otherwise the window stays where it is.
pub open spec fn scrolled(cursor: nat, offset: nat, extent: nat) -> nat {
    let near = if cursor < offset {
        cursor
    } else {
        offset
    };
    if cursor >= near + extent {
        (cursor - extent + 1) as nat
    } else {
        near
    }
}

/// The cursor lies inside the window of `extent` cells that starts at
/// `offset`.
pub open spec fn within(cursor: nat, offset: nat, extent: nat) -> bool {
    offset <= cursor < offset + extent
}

/// The part of `text` that a window of `width` columns starting at column
/// `start` shows: empty when the text ends before the window begins.
pub open spec fn window(text: Seq<char>, start: nat, width: nat) -> Seq<char> {
    if start >= text.len() {
        Seq::empty()
    } else if text.len() - start > width {
        text.subrange(start as int, (start + width) as int)
    } else {
        text.subrange(start as int, text.len() as int)
    }
}

/// After scrolling, a window of at least one cell contains the cursor.
pub proof fn lemma_scrolled_contains_cursor(cursor: nat, offset: nat, extent: nat)
    requires
        extent >= 1,
    ensures
        within(cursor, scrolled(cursor, offset, extent), extent),
{
}

/// A window that already contains the cursor does not move.
pub proof fn lemma_scrolled_keeps_window(cursor: nat, offset: nat, extent: nat)
    requires
        within(cursor, offset, extent),
    ensures
        scrolled(cursor, offset, extent) == offset,
{
}

/// Scrolling twice for the same cursor is the same as scrolling once.
pub proof fn lemma_scrolled_settles(cursor: nat, offset: nat, extent: nat)
    ensures
        scrolled(cursor, scrolled(cursor, offset, extent), extent) == scrolled(
            cursor,
            offset,
            extent,
        ),
{
}

/// A visible slice is never wider than the window, and it is the text
/// itself, column by column, from the window's start.
pub proof fn lemma_window_cells(text: Seq<char>, start: nat, width: nat)
    ensures
        window(text, start, width).len() <= width,
        window(text, start, width).len() <= text.len(),
        forall|i: int|
            0 <= i < window(text, start, width).len() ==> #[trigger] window(text, start, width)[i]
                == text[start + i],
        start + width <= text.len() ==> window(text, start, width).len() == width,
{
}

/// Moves a window of `extent` cells at `offset` so that it follows `cursor`.
pub fn scroll_offset(cursor: usize, offset: usize, extent: u16) -> (moved_to: usize)
    requires
        extent == 0 ==> cursor < usize::MAX,
    ensures
        moved_to == scrolled(cursor as nat, offset as nat, extent as nat),
        extent >= 1 ==> within(cursor as nat, moved_to as nat, extent as nat),
{
    let near: usize = if cursor < offset {
        cursor
    } else {
        offset
    };
    if cursor - near >= extent as usize {
        cursor - extent as usize + 1
    } else {
        near
    }
}

/// Copies out the part of `text` shown by a window of `width` columns that
/// starts at column `start`.
pub fn visible_part(text: &Vec<char>, start: usize, width: u16) -> (part: Vec<char>)
    ensures
        part@ == window(text@, start as nat, width as nat),
{
    let mut part: Vec<char> = Vec::new();
    if text.len() > start {
        let mut len: usize = text.len() - start;
        if len > width as usize {
            len = width as usize;
        }
        let mut i: usize = 0;
        while i < len
            invariant
                i <= len,
                start + len <= text.len(),
                part@ == text@.subrange(start as int, start + i),
            decreases len - i,
        {
            part.push(text[start + i]);
            i += 1;
        }
    }
    part
}

} // verus!
