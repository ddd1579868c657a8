//! Laying out one frame: what every screen line shows and where the
//! terminal cursor goes.

use crate::state::EditorState;
use crate::viewport::{lemma_scrolled_settles, lemma_window_cells, visible_part, window};
use vstd::prelude::*;

verus! {

/// What a screen line shows when the document has no row for it.
pub const FILLER: char = '~';

/// What the window shows of one row.
#[derive(Debug)]
pub enum VisibleRow {
    /// The part of the row's rendered text that lies inside the window;
    /// empty when the row ends before the window begins.
    Text(Vec<char>),
    /// The row lies below the last line of the document.
    PastEnd,
}

/// One laid-out frame.
#[derive(Debug)]
pub struct Frame {
    /// The text of every screen line, top to bottom.
    pub lines: Vec<Vec<char>>,
    /// The screen column of the cursor.
    pub cursor_col: u16,
    /// The screen line of the cursor.
    pub cursor_row: u16,
}

/// Once the window has followed the cursor, following it again changes
/// nothing: the second of two frames laid out in a row is laid out from the
/// same state as the first, and so shows the same.
pub proof fn lemma_refresh_settles(before: EditorState, after: EditorState, again: EditorState)
    requires
        before.scrolled_to(&after),
        after.scrolled_to(&again),
    ensures
        again == after,
{
    lemma_scrolled_settles(
        before.cursor_row as nat,
        before.row_offset as nat,
        before.screen_rows as nat,
    );
    lemma_scrolled_settles(
        before.cursor_col as nat,
        before.col_offset as nat,
        before.screen_cols as nat,
    );
}

impl EditorState {
    /// What the window shows of row `row_index`: the slice of its rendered
    /// text, or nothing for a row below the last line.
    pub open spec fn shown(&self, row_index: nat) -> Option<Seq<char>> {
        if row_index < self.rows@.len() {
            Some(
                window(
                    self.rows@[row_index as int].text_render@,
                    self.col_offset as nat,
                    self.screen_cols as nat,
                ),
            )
        } else {
            None
        }
    }

    /// The text of screen line `screen_row`: the visible slice of the row
    /// that the window puts there, or the filler where the document has
    /// ended.
    pub open spec fn screen_line(&self, screen_row: nat) -> Seq<char> {
        match self.shown(self.row_offset as nat + screen_row) {
            Some(text) => text,
            None => seq![FILLER],
        }
    }

    /// The visible slice of row `row_index`, or the mark that the row lies
    /// below the document.
    pub fn visible_slice(&self, row_index: usize) -> (slice: VisibleRow)
        ensures
            match slice {
                VisibleRow::Text(text) => self.shown(row_index as nat) == Some(text@),
                VisibleRow::PastEnd => self.shown(row_index as nat) is None,
            },
    {
        if row_index < self.rows.len() {
            VisibleRow::Text(
                visible_part(&self.rows[row_index].text_render, self.col_offset, self.screen_cols),
            )
        } else {
            VisibleRow::PastEnd
        }
    }

    /// The text of every screen line, top to bottom, for the window as it
    /// stands.
    pub fn draw_rows(&self) -> (lines: Vec<Vec<char>>)
        ensures
            lines@.len() == self.screen_rows,
            forall|r: int|
                0 <= r < lines@.len() ==> (#[trigger] lines@[r])@ == self.screen_line(r as nat),
            self.screen_cols >= 1 ==> forall|r: int|
                0 <= r < lines@.len() ==> (#[trigger] lines@[r])@.len() <= self.screen_cols,
    {
        let mut lines: Vec<Vec<char>> = Vec::new();
        let mut row_num: u16 = 0;
        while row_num < self.screen_rows
            invariant
                row_num <= self.screen_rows,
                lines@.len() == row_num,
                forall|r: int|
                    0 <= r < lines@.len() ==> (#[trigger] lines@[r])@ == self.screen_line(r as nat),
                self.screen_cols >= 1 ==> forall|r: int|
                    0 <= r < lines@.len() ==> (#[trigger] lines@[r])@.len() <= self.screen_cols,
            decreases self.screen_rows - row_num,
        {
            let slice = match self.row_offset.checked_add(row_num as usize) {
                Some(file_row) => self.visible_slice(file_row),
                None => {
                    // A row number beyond `usize` is beyond every document.
                    assert(self.rows@.len() == self.rows.len());
                    VisibleRow::PastEnd
                },
            };
            let text = match slice {
                VisibleRow::Text(text) => {
                    proof {
                        let file_row = self.row_offset + row_num;
                        lemma_window_cells(
                            self.rows@[file_row].text_render@,
                            self.col_offset as nat,
                            self.screen_cols as nat,
                        );
                    }
                    text
                },
                VisibleRow::PastEnd => {
                    let mut filler: Vec<char> = Vec::new();
                    filler.push(FILLER);
                    assert(filler@ =~= seq![FILLER]);
                    filler
                },
            };
            lines.push(text);
            row_num = row_num + 1;
        }
        lines
    }

    /// Lays out one frame: scrolls the window after the cursor, then gives
    /// the text of every screen line and the screen cell of the cursor.
    /// A second call on the state it leaves gives the same frame.
    pub fn refresh_screen(&mut self) -> (frame: Frame)
        requires
            old(self).screen_rows >= 1,
            old(self).screen_cols >= 1,
        ensures
            old(self).scrolled_to(final(self)),
            final(self).cursor_on_screen(),
            old(self).cursor_on_screen() ==> *final(self) == *old(self),
            old(self).wf() ==> final(self).wf(),
            frame.lines@.len() == final(self).screen_rows,
            forall|r: int|
                0 <= r < frame.lines@.len() ==> (#[trigger] frame.lines@[r])@
                    == final(self).screen_line(r as nat),
            forall|r: int|
                0 <= r < frame.lines@.len() ==> (#[trigger] frame.lines@[r])@.len()
                    <= final(self).screen_cols,
            frame.cursor_col == final(self).cursor_col - final(self).col_offset,
            frame.cursor_row == final(self).cursor_row - final(self).row_offset,
            frame.cursor_col < final(self).screen_cols,
            frame.cursor_row < final(self).screen_rows,
    {
        self.scroll();
        let lines = self.draw_rows();
        Frame {
            lines,
            cursor_col: (self.cursor_col - self.col_offset) as u16,
            cursor_row: (self.cursor_row - self.row_offset) as u16,
        }
    }
}

} // verus!
