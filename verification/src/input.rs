//! Input events and what the session does with them.

use crate::cursor::Direction;
use crate::state::EditorState;
use vstd::prelude::*;

verus! {

/// A key press, as far as the viewer tells keys apart.
#[derive(Clone, Copy, Debug, PartialEq, Eq, Structural)]
pub enum Key {
    Left,
    Right,
    Up,
    Down,
    Esc,
    /// Any key the viewer has no use for.
    Other,
}

/// One event from the input source.
#[derive(Clone, Copy, Debug, PartialEq, Eq, Structural)]
pub enum Event {
    /// A key was pressed.
    Key(Key),
    /// The terminal now has this many columns and rows.
    Resize(u16, u16),
    /// Anything else; it is ignored.
    Other,
}

/// Whether the session goes on after an event.
#[derive(Clone, Copy, Debug, PartialEq, Eq, Structural)]
pub enum Flow {
    Continue,
    Quit,
}

/// The direction an arrow key moves the cursor in; no other key moves it.
pub open spec fn key_direction(key: Key) -> Option<Direction> {
    match key {
        Key::Left => Some(Direction::Left),
        Key::Right => Some(Direction::Right),
        Key::Up => Some(Direction::Up),
        Key::Down => Some(Direction::Down),
        Key::Esc => None,
        Key::Other => None,
    }
}

impl EditorState {
    /// The state `after` is what a press of `key` makes of `self`: one
    /// cursor move for an arrow key, no change for any other key.
    pub open spec fn keyed(&self, after: &EditorState, key: Key) -> bool {
        match key_direction(key) {
            Some(dir) => self.stepped(after, dir),
            None => *after == *self,
        }
    }

    /// Acts on a key: an arrow key moves the cursor, Esc asks to quit, any
    /// other key does nothing.
    pub fn handle_keypress(&mut self, key: Key) -> (flow: Flow)
        ensures
            flow == (if key == Key::Esc {
                Flow::Quit
            } else {
                Flow::Continue
            }),
            old(self).keyed(final(self), key),
            old(self).wf() ==> final(self).wf(),
    {
        match key {
            Key::Left => {
                self.move_cursor(Direction::Left);
                Flow::Continue
            },
            Key::Right => {
                self.move_cursor(Direction::Right);
                Flow::Continue
            },
            Key::Up => {
                self.move_cursor(Direction::Up);
                Flow::Continue
            },
            Key::Down => {
                self.move_cursor(Direction::Down);
                Flow::Continue
            },
            Key::Esc => Flow::Quit,
            Key::Other => Flow::Continue,
        }
    }

    /// Acts on one input event: a key goes to `handle_keypress`, a resize
    /// sets the screen size to what the terminal reports, anything else is
    /// ignored. Only Esc ends the session.
    pub fn handle_event(&mut self, event: Event) -> (flow: Flow)
        ensures
            flow == (if event == Event::Key(Key::Esc) {
                Flow::Quit
            } else {
                Flow::Continue
            }),
            match event {
                Event::Key(key) => old(self).keyed(final(self), key),
                Event::Resize(columns, rows) => *final(self) == (EditorState {
                    screen_cols: columns,
                    screen_rows: rows,
                    ..*old(self)
                }),
                Event::Other => *final(self) == *old(self),
            },
            old(self).wf() ==> final(self).wf(),
    {
        match event {
            Event::Key(key) => self.handle_keypress(key),
            Event::Resize(columns, rows) => {
                self.screen_cols = columns;
                self.screen_rows = rows;
                Flow::Continue
            },
            Event::Other => Flow::Continue,
        }
    }
}

} // verus!
