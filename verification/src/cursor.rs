//! Cursor movement over the rendered document, as a mathematical model.
//!
//! A document is seen here as the sequence of its rendered line lengths.
//! The cursor may stand on any line, at any column from 0 to the length of
//! that line, or on the empty row just below the last line.

use vstd::prelude::*;

verus! {

/// The four ways the cursor can be asked to move.
#[derive(Clone, Copy, Debug, PartialEq, Eq, Structural)]
pub enum Direction {
    Up,
    Down,
    Left,
    Right,
}

/// A cursor position in rendered coordinates.
pub struct Cursor {
    pub row: nat,
    pub col: nat,
}

/// The very start of the document.
pub open spec fn origin() -> Cursor {
    Cursor { row: 0, col: 0 }
}

/// The rendered length of `row`; rows below the last line are empty.
pub open spec fn line_len(lens: Seq<nat>, row: nat) -> nat {
    if row < lens.len() {
        lens[row as int]
    } else {
        0
    }
}

/// The cursor stands on a line of the document or on the row just below
/// it, and not beyond the end of that row.
pub open spec fn in_document(lens: Seq<nat>, at: Cursor) -> bool {
    at.row <= lens.len() && at.col <= line_len(lens, at.row)
}

/// One step in `dir`, before the column is brought back inside the row.
///
/// Left at column 0 wraps to the end of the line above. Right at the end of
/// a line wraps to the start of the line below, if the document has one.
/// Up and Down keep the column; Down may reach the row below the last line.
pub open spec fn shifted(lens: Seq<nat>, at: Cursor, dir: Direction) -> Cursor {
    match dir {
        Direction::Left => {
            if at.col > 0 {
                Cursor { row: at.row, col: (at.col - 1) as nat }
            } else if at.row > 0 {
                Cursor { row: (at.row - 1) as nat, col: line_len(lens, (at.row - 1) as nat) }
            } else {
                at
            }
        },
        Direction::Right => {
            if at.col < line_len(lens, at.row) {
                Cursor { row: at.row, col: at.col + 1 }
            } else if at.col == line_len(lens, at.row) && at.row + 1 < lens.len() {
                Cursor { row: at.row + 1, col: 0 }
            } else {
                at
            }
        },
        Direction::Up => {
            if at.row > 0 {
                Cursor { row: (at.row - 1) as nat, col: at.col }
            } else {
                at
            }
        },
        Direction::Down => {
            if at.row < lens.len() {
                Cursor { row: at.row + 1, col: at.col }
            } else {
                at
            }
        },
    }
}

/// The cursor with its column cut back to the length of its row.
pub open spec fn clamped(lens: Seq<nat>, at: Cursor) -> Cursor {
    Cursor {
        row: at.row,
        col: if at.col > line_len(lens, at.row) {
            line_len(lens, at.row)
        } else {
            at.col
        },
    }
}

/// Where the cursor stands after one move in `dir`.
pub open spec fn moved(lens: Seq<nat>, at: Cursor, dir: Direction) -> Cursor {
    clamped(lens, shifted(lens, at, dir))
}

/// Where the cursor stands after the moves of `dirs`, taken in order.
pub open spec fn moved_along(lens: Seq<nat>, at: Cursor, dirs: Seq<Direction>) -> Cursor
    decreases dirs.len(),
{
    if dirs.len() == 0 {
        at
    } else {
        moved(lens, moved_along(lens, at, dirs.drop_last()), dirs.last())
    }
}

/// A single move never takes the cursor out of the document: from any row
/// of the document, or the row just below it, the cursor lands on such a row
/// again, at a column no greater than that row's rendered length.
pub proof fn lemma_move_stays_in_document(lens: Seq<nat>, at: Cursor, dir: Direction)
    requires
        at.row <= lens.len(),
    ensures
        in_document(lens, moved(lens, at, dir)),
{
}

/// No sequence of moves takes the cursor out of the document.
pub proof fn lemma_moves_stay_in_document(lens: Seq<nat>, at: Cursor, dirs: Seq<Direction>)
    requires
        in_document(lens, at),
    ensures
        in_document(lens, moved_along(lens, at, dirs)),
    decreases dirs.len(),
{
    if dirs.len() > 0 {
        lemma_moves_stay_in_document(lens, at, dirs.drop_last());
        lemma_move_stays_in_document(lens, moved_along(lens, at, dirs.drop_last()), dirs.last());
    }
}

/// Left at the very start of the document changes nothing.
pub proof fn lemma_left_at_start_stays(lens: Seq<nat>)
    ensures
        moved(lens, origin(), Direction::Left) == origin(),
{
}

/// Right changes nothing at the end of the last line, nor on the empty row
/// below it.
pub proof fn lemma_right_at_end_stays(lens: Seq<nat>, at: Cursor)
    requires
        in_document(lens, at),
        at.row + 1 >= lens.len(),
        at.col == line_len(lens, at.row),
    ensures
        moved(lens, at, Direction::Right) == at,
{
}

/// Up on the first line and Down on the row below the last line change
/// nothing.
pub proof fn lemma_vertical_edges_stay(lens: Seq<nat>, at: Cursor)
    requires
        in_document(lens, at),
    ensures
        at.row == 0 ==> moved(lens, at, Direction::Up) == at,
        at.row == lens.len() ==> moved(lens, at, Direction::Down) == at,
{
}

} // verus!
