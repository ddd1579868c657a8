use text_viewer::cursor::Direction;
use text_viewer::state::EditorState;
use text_viewer::viewport::{scroll_offset, visible_part};

fn session(lines: &[&str], columns: u16, rows: u16) -> EditorState {
    let mut state = EditorState::init(columns, rows);
    state.load_lines(lines.iter().map(|line| String::from(*line)).collect());
    state
}

fn chars(text: &str) -> Vec<char> {
    text.chars().collect()
}

#[test]
fn window_snaps_back_to_a_cursor_before_it() {
    assert_eq!(scroll_offset(3, 10, 5), 3);
    assert_eq!(scroll_offset(0, 1, 1), 0);
}

#[test]
fn window_follows_a_cursor_past_its_end() {
    assert_eq!(scroll_offset(12, 0, 5), 8);
    assert_eq!(scroll_offset(5, 0, 5), 1);
    assert_eq!(scroll_offset(9, 2, 1), 9);
}

#[test]
fn window_stays_when_the_cursor_is_inside() {
    assert_eq!(scroll_offset(4, 0, 5), 4 - 4);
    assert_eq!(scroll_offset(7, 3, 5), 3);
    assert_eq!(scroll_offset(3, 3, 5), 3);
}

#[test]
fn window_without_cells_starts_just_past_the_cursor() {
    assert_eq!(scroll_offset(3, 0, 0), 4);
    assert_eq!(scroll_offset(3, 9, 0), 4);
    assert_eq!(scroll_offset(0, 0, 0), 1);
}

#[test]
fn scrolled_window_always_holds_the_cursor() {
    for extent in 1..7u16 {
        for offset in 0..30usize {
            for cursor in 0..30usize {
                let moved = scroll_offset(cursor, offset, extent);
                assert!(moved <= cursor);
                assert!(cursor < moved + extent as usize);
                assert_eq!(scroll_offset(cursor, moved, extent), moved);
            }
        }
    }
}

#[test]
fn cursor_at_column_twelve_on_five_columns_scrolls_to_eight() {
    let mut state = session(&["tab\there"], 5, 5);
    state.cursor_col = 12;
    assert_eq!(state.rendered_length(0), 12);
    state.scroll();
    assert_eq!(state.col_offset, 8);
    assert!(state.col_offset <= state.cursor_col);
    assert!(state.cursor_col < state.col_offset + 5);
    assert_eq!(state.row_offset, 0);
}

#[test]
fn scroll_moves_rows_and_columns_independently() {
    let mut state = session(&["a", "b", "c", "d", "e", "f", "g", "h"], 4, 3);
    state.cursor_row = 7;
    state.cursor_col = 1;
    state.col_offset = 6;
    state.scroll();
    assert_eq!(state.row_offset, 5);
    assert_eq!(state.col_offset, 1);
    assert_eq!((state.cursor_row, state.cursor_col), (7, 1));
    assert_eq!((state.screen_cols, state.screen_rows), (4, 3));
}

#[test]
fn scroll_keeps_offsets_when_the_cursor_is_on_screen() {
    let mut state = session(&["abcdefghij", "b", "c", "d", "e"], 4, 3);
    state.row_offset = 1;
    state.col_offset = 2;
    state.cursor_row = 3;
    state.cursor_col = 5;
    state.scroll();
    assert_eq!((state.row_offset, state.col_offset), (1, 2));
}

#[test]
fn scroll_after_every_move_keeps_the_cursor_on_screen() {
    let mut state = session(
        &[
            "abc",
            "",
            "tab\there",
            "a much longer line than the screen is wide",
            "x",
            "\t\t\t",
            "",
            "end",
        ],
        7,
        3,
    );
    let directions = [Direction::Down, Direction::Right, Direction::Up, Direction::Left];
    let mut seed: u32 = 99;
    for _ in 0..5000 {
        seed = seed.wrapping_mul(1103515245).wrapping_add(12345);
        let direction = directions[((seed >> 16) % 4) as usize];
        state.move_cursor(direction);
        state.scroll();
        assert!(state.row_offset <= state.cursor_row);
        assert!(state.cursor_row < state.row_offset + 3);
        assert!(state.col_offset <= state.cursor_col);
        assert!(state.cursor_col < state.col_offset + 7);
    }
}

#[test]
fn scroll_on_a_screen_without_cells_follows_the_rule() {
    let mut state = session(&["abc"], 0, 0);
    state.cursor_col = 2;
    state.scroll();
    assert_eq!((state.row_offset, state.col_offset), (1, 3));
}

#[test]
fn visible_part_is_the_text_inside_the_window() {
    let text = chars("0123456789");
    assert_eq!(visible_part(&text, 0, 4), chars("0123"));
    assert_eq!(visible_part(&text, 3, 4), chars("3456"));
    assert_eq!(visible_part(&text, 8, 4), chars("89"));
    assert_eq!(visible_part(&text, 9, 1), chars("9"));
    assert_eq!(visible_part(&text, 0, 10), chars("0123456789"));
    assert_eq!(visible_part(&text, 0, 100), chars("0123456789"));
}

#[test]
fn visible_part_is_empty_when_the_text_ends_before_the_window() {
    let text = chars("0123456789");
    assert_eq!(visible_part(&text, 10, 4), chars(""));
    assert_eq!(visible_part(&text, 11, 4), chars(""));
    assert_eq!(visible_part(&text, usize::MAX, 4), chars(""));
    assert_eq!(visible_part(&chars(""), 0, 4), chars(""));
}

#[test]
fn visible_part_is_empty_in_a_window_without_columns() {
    assert_eq!(visible_part(&chars("0123456789"), 2, 0), chars(""));
}
