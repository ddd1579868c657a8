//! The session: the document, the cursor in it and the window onto it.

use crate::cursor::{in_document, line_len, moved, Cursor, Direction};
use crate::row::EditorRow;
use crate::viewport::{scroll_offset, scrolled, within};
use vstd::prelude::*;

verus! {

/// Everything one viewing session holds. Rows and columns of the cursor and
/// of the offsets count rendered characters; the screen size counts cells.
#[derive(Debug)]
pub struct EditorState {
    /// The row the cursor stands on; the number of rows when it stands below
    /// the last line.
    pub cursor_row: usize,
    /// The rendered column the cursor stands on.
    pub cursor_col: usize,
    /// The row shown on the first screen line.
    pub row_offset: usize,
    /// The rendered column shown in the first screen column.
    pub col_offset: usize,
    /// Height of the screen.
    pub screen_rows: u16,
    /// Width of the screen.
    pub screen_cols: u16,
    /// The lines of the document, in order.
    pub rows: Vec<EditorRow>,
}

impl EditorState {
    /// The rendered length of every line, in order.
    pub open spec fn line_lengths(&self) -> Seq<nat> {
        Seq::new(self.rows@.len(), |i: int| self.rows@[i].text_render@.len())
    }

    /// The cursor as a position in the rendered document.
    pub open spec fn cursor(&self) -> Cursor {
        Cursor { row: self.cursor_row as nat, col: self.cursor_col as nat }
    }

    /// The cursor stands inside the document.
    pub open spec fn cursor_in_document(&self) -> bool {
        in_document(self.line_lengths(), self.cursor())
    }

    /// The cursor stands inside the window, in both directions.
    pub open spec fn cursor_on_screen(&self) -> bool {
        &&& within(self.cursor_row as nat, self.row_offset as nat, self.screen_rows as nat)
        &&& within(self.cursor_col as nat, self.col_offset as nat, self.screen_cols as nat)
    }

    /// Every row's rendered form agrees with its raw text.
    pub open spec fn rows_rendered(&self) -> bool {
        forall|i: int| 0 <= i < self.rows@.len() ==> (#[trigger] self.rows@[i]).wf()
    }

    /// The session is sound: its rows are rendered and its cursor stands
    /// inside the document.
    pub open spec fn wf(&self) -> bool {
        self.rows_rendered() && self.cursor_in_document()
    }

    /// The state `after` differs from `self` by one cursor move in `dir`
    /// and in nothing else.
    pub open spec fn stepped(&self, after: &EditorState, dir: Direction) -> bool {
        &&& after.cursor() == moved(self.line_lengths(), self.cursor(), dir)
        &&& after.rows == self.rows
        &&& after.row_offset == self.row_offset
        &&& after.col_offset == self.col_offset
        &&& after.screen_rows == self.screen_rows
        &&& after.screen_cols == self.screen_cols
    }

    /// The state `after` differs from `self` in that its window has
    /// followed the cursor, and in nothing else.
    pub open spec fn scrolled_to(&self, after: &EditorState) -> bool {
        &&& after.row_offset == scrolled(
            self.cursor_row as nat,
            self.row_offset as nat,
            self.screen_rows as nat,
        )
        &&& after.col_offset == scrolled(
            self.cursor_col as nat,
            self.col_offset as nat,
            self.screen_cols as nat,
        )
        &&& after.cursor_row == self.cursor_row
        &&& after.cursor_col == self.cursor_col
        &&& after.screen_rows == self.screen_rows
        &&& after.screen_cols == self.screen_cols
        &&& after.rows == self.rows
    }

    /// A session on an empty document, for a screen of `columns` by `rows`
    /// cells, with the cursor and the window at the origin.
    pub fn init(columns: u16, rows: u16) -> (state: Self)
        ensures
            state.cursor_row == 0,
            state.cursor_col == 0,
            state.row_offset == 0,
            state.col_offset == 0,
            state.screen_rows == rows,
            state.screen_cols == columns,
            state.rows@.len() == 0,
            state.wf(),
    {
        EditorState {
            cursor_row: 0,
            cursor_col: 0,
            row_offset: 0,
            col_offset: 0,
            screen_rows: rows,
            screen_cols: columns,
            rows: Vec::new(),
        }
    }

    /// The number of lines in the document.
    pub fn row_count(&self) -> (count: usize)
        ensures
            count == self.rows@.len(),
    {
        self.rows.len()
    }

    /// The rendered length of `row`, which is 0 for a row below the last
    /// line.
    pub fn rendered_length(&self, row: usize) -> (length: usize)
        ensures
            length == line_len(self.line_lengths(), row as nat),
    {
        if row < self.rows.len() {
            self.rows[row].text_render.len()
        } else {
            0
        }
    }

    /// Moves the cursor one step and brings its column back inside the row
    /// it lands on. Nothing else changes. A cursor that stood on a row of
    /// the document, or on the row just below it, stays inside the document.
    pub fn move_cursor(&mut self, direction: Direction)
        ensures
            old(self).stepped(final(self), direction),
            final(self).cursor_col <= line_len(
                final(self).line_lengths(),
                final(self).cursor_row as nat,
            ),
            old(self).cursor_row <= old(self).rows@.len() ==> final(self).cursor_in_document(),
            old(self).wf() ==> final(self).wf(),
    {
        match direction {
            Direction::Left => {
                if self.cursor_col != 0 {
                    self.cursor_col = self.cursor_col - 1;
                } else if self.cursor_row > 0 {
                    self.cursor_row = self.cursor_row - 1;
                    self.cursor_col = self.rendered_length(self.cursor_row);
                }
            },
            Direction::Right => {
                let length = self.rendered_length(self.cursor_row);
                if self.cursor_col < length {
                    self.cursor_col = self.cursor_col + 1;
                } else if self.cursor_col == length && self.cursor_row < self.rows.len()
                    && self.rows.len() - self.cursor_row > 1 {
                    self.cursor_row = self.cursor_row + 1;
                    self.cursor_col = 0;
                }
            },
            Direction::Up => {
                if self.cursor_row != 0 {
                    self.cursor_row = self.cursor_row - 1;
                }
            },
            Direction::Down => {
                if self.cursor_row < self.rows.len() {
                    self.cursor_row = self.cursor_row + 1;
                }
            },
        }
        let row_length = self.rendered_length(self.cursor_row);
        if self.cursor_col > row_length {
            self.cursor_col = row_length;
        }
    }

    /// Moves the window so that it follows the cursor, rows first, then
    /// columns. On a screen of at least one cell the cursor is then on
    /// screen.
    pub fn scroll(&mut self)
        requires
            old(self).screen_rows == 0 ==> old(self).cursor_row < usize::MAX,
            old(self).screen_cols == 0 ==> old(self).cursor_col < usize::MAX,
        ensures
            old(self).scrolled_to(final(self)),
            old(self).screen_rows >= 1 && old(self).screen_cols >= 1
                ==> final(self).cursor_on_screen(),
            old(self).cursor_on_screen() ==> *final(self) == *old(self),
            old(self).wf() ==> final(self).wf(),
    {
        self.row_offset = scroll_offset(self.cursor_row, self.row_offset, self.screen_rows);
        self.col_offset = scroll_offset(self.cursor_col, self.col_offset, self.screen_cols);
    }

    /// Appends `lines` to the document, one rendered row for each, in order.
    pub fn load_lines(&mut self, lines: Vec<String>)
        ensures
            final(self).rows@.len() == old(self).rows@.len() + lines@.len(),
            forall|i: int|
                0 <= i < old(self).rows@.len() ==> final(self).rows@[i] == old(self).rows@[i],
            forall|j: int|
                0 <= j < lines@.len() ==> (#[trigger] final(self).rows@[old(self).rows@.len()
                    + j]).text_raw == lines@[j] && final(self).rows@[old(self).rows@.len()
                    + j].wf(),
            old(self).rows_rendered() ==> final(self).rows_rendered(),
            old(self).cursor_in_document() ==> final(self).cursor_in_document(),
            old(self).wf() ==> final(self).wf(),
            final(self).cursor_row == old(self).cursor_row,
            final(self).cursor_col == old(self).cursor_col,
            final(self).row_offset == old(self).row_offset,
            final(self).col_offset == old(self).col_offset,
            final(self).screen_rows == old(self).screen_rows,
            final(self).screen_cols == old(self).screen_cols,
    {
        let ghost before = self.rows@;
        for line in it: lines
            invariant
                it.seq() == lines@,
                self.rows@.len() == before.len() + it.index(),
                forall|i: int| 0 <= i < before.len() ==> self.rows@[i] == before[i],
                forall|j: int|
                    0 <= j < it.index() ==> (#[trigger] self.rows@[before.len() + j]).text_raw
                        == lines@[j] && self.rows@[before.len() + j].wf(),
                self.cursor_row == old(self).cursor_row,
                self.cursor_col == old(self).cursor_col,
                self.row_offset == old(self).row_offset,
                self.col_offset == old(self).col_offset,
                self.screen_rows == old(self).screen_rows,
                self.screen_cols == old(self).screen_cols,
        {
            self.rows.push(EditorRow::from(line));
        }
        proof {
            if old(self).rows_rendered() {
                assert forall|i: int| 0 <= i < self.rows@.len() implies (#[trigger] self.rows@[
                    i
                ]).wf() by {
                    if i >= before.len() {
                        let j = i - before.len();
                        assert(self.rows@[before.len() + j].wf());
                    } else {
                        assert(before[i].wf());
                    }
                }
            }
        }
    }
}

} // verus!
