use text_viewer::input::{Event, Flow, Key};
use text_viewer::state::EditorState;

fn session(lines: &[&str], columns: u16, rows: u16) -> EditorState {
    let mut state = EditorState::init(columns, rows);
    state.load_lines(lines.iter().map(|line| String::from(*line)).collect());
    state
}

fn at(state: &EditorState) -> (usize, usize) {
    (state.cursor_row, state.cursor_col)
}

#[test]
fn arrow_keys_move_the_cursor_and_go_on() {
    let mut state = session(&["abc", "de"], 10, 5);
    assert_eq!(state.handle_keypress(Key::Right), Flow::Continue);
    assert_eq!(at(&state), (0, 1));
    assert_eq!(state.handle_keypress(Key::Down), Flow::Continue);
    assert_eq!(at(&state), (1, 1));
    assert_eq!(state.handle_keypress(Key::Left), Flow::Continue);
    assert_eq!(at(&state), (1, 0));
    assert_eq!(state.handle_keypress(Key::Up), Flow::Continue);
    assert_eq!(at(&state), (0, 0));
}

#[test]
fn escape_asks_to_quit_and_changes_nothing() {
    let mut state = session(&["abc", "de"], 10, 5);
    state.cursor_col = 2;
    assert_eq!(state.handle_keypress(Key::Esc), Flow::Quit);
    assert_eq!(at(&state), (0, 2));
    assert_eq!(state.handle_event(Event::Key(Key::Esc)), Flow::Quit);
    assert_eq!(at(&state), (0, 2));
}

#[test]
fn other_keys_are_ignored() {
    let mut state = session(&["abc", "de"], 10, 5);
    state.cursor_col = 2;
    assert_eq!(state.handle_keypress(Key::Other), Flow::Continue);
    assert_eq!(at(&state), (0, 2));
    assert_eq!(state.handle_event(Event::Key(Key::Other)), Flow::Continue);
    assert_eq!(at(&state), (0, 2));
}

#[test]
fn key_events_move_the_cursor() {
    let mut state = session(&["abc", "de"], 10, 5);
    assert_eq!(state.handle_event(Event::Key(Key::Down)), Flow::Continue);
    assert_eq!(at(&state), (1, 0));
    assert_eq!(state.handle_event(Event::Key(Key::Left)), Flow::Continue);
    assert_eq!(at(&state), (0, 3));
    assert_eq!(state.handle_event(Event::Key(Key::Right)), Flow::Continue);
    assert_eq!(at(&state), (1, 0));
    assert_eq!(state.handle_event(Event::Key(Key::Up)), Flow::Continue);
    assert_eq!(at(&state), (0, 0));
}

#[test]
fn resize_sets_the_screen_to_the_reported_size() {
    let mut state = session(&["abc", "de"], 10, 5);
    state.cursor_col = 1;
    assert_eq!(state.handle_event(Event::Resize(120, 40)), Flow::Continue);
    assert_eq!((state.screen_cols, state.screen_rows), (120, 40));
    assert_eq!(at(&state), (0, 1));
    assert_eq!((state.row_offset, state.col_offset), (0, 0));
    assert_eq!(state.row_count(), 2);
}

#[test]
fn resize_to_a_smaller_screen_scrolls_on_the_next_frame() {
    let mut state = session(&["0", "1", "2", "3", "4", "5"], 10, 6);
    state.cursor_row = 5;
    let frame = state.refresh_screen();
    assert_eq!(state.row_offset, 0);
    assert_eq!(frame.cursor_row, 5);
    assert_eq!(state.handle_event(Event::Resize(10, 2)), Flow::Continue);
    let frame = state.refresh_screen();
    assert_eq!(state.row_offset, 4);
    assert_eq!(frame.lines.len(), 2);
    assert_eq!(frame.cursor_row, 1);
}

#[test]
fn other_events_are_ignored() {
    let mut state = session(&["abc", "de"], 10, 5);
    state.cursor_col = 2;
    assert_eq!(state.handle_event(Event::Other), Flow::Continue);
    assert_eq!(at(&state), (0, 2));
    assert_eq!((state.screen_cols, state.screen_rows), (10, 5));
}
