use miniedit::{Editor, EditorAction, Erow, Key};

fn row(s: &str) -> Erow {
    Erow { data: s.chars().collect(), data_rendered: s.chars().collect() }
}

fn editor(lines: &[&str], width: usize, height: usize) -> Editor {
    let rows: Vec<Erow> = lines.iter().map(|s| row(s)).collect();
    Editor::new(rows, None, width, height)
}

fn text(e: &Editor, i: usize) -> String {
    e.rows[i].data.iter().collect()
}

#[test]
fn new_editor_starts_at_origin() {
    let e = editor(&["ab"], 80, 24);
    assert_eq!(e.x, 1);
    assert_eq!(e.y, 1);
    assert_eq!(e.rowoff, 0);
    assert_eq!(e.coloff, 0);
    assert!(!e.quit_now);
    assert_eq!(e.status_message, "Welcome to Text Editor! CTRL-Q to quit.");
}

#[test]
fn insert_characters_in_order_builds_concatenation() {
    let mut e = editor(&[], 80, 24);
    for c in ['h', 'i', '!'] {
        let act = e.handle_keypress(Key::Char(c));
        assert!(matches!(act, EditorAction::Nothing));
    }
    assert_eq!(e.rows.len(), 1);
    assert_eq!(text(&e, 0), "hi!");
    assert_eq!(e.x, 4);
}

#[test]
fn insert_char_mid_row() {
    let mut e = editor(&["ac"], 80, 24);
    e.x = 2;
    e.handle_keypress(Key::Char('b'));
    assert_eq!(text(&e, 0), "abc");
    assert_eq!(e.x, 3);
}

#[test]
fn enter_splits_line_at_cursor() {
    let mut e = editor(&["abcdef"], 80, 24);
    e.x = 4;
    e.handle_keypress(Key::Char('\n'));
    assert_eq!(e.rows.len(), 2);
    assert_eq!(text(&e, 0), "abc");
    assert_eq!(text(&e, 1), "def");
    let (r, c) = e.absolute_position();
    assert_eq!(r, 2);
    assert_eq!(c, 1);
}

#[test]
fn enter_at_line_start_and_end() {
    let mut e = editor(&["xy"], 80, 24);
    e.x = 1;
    e.insert_newline();
    assert_eq!(text(&e, 0), "");
    assert_eq!(text(&e, 1), "xy");

    let mut e2 = editor(&["xy"], 80, 24);
    e2.x = 3;
    e2.insert_newline();
    assert_eq!(text(&e2, 0), "xy");
    assert_eq!(text(&e2, 1), "");
}

#[test]
fn enter_on_empty_buffer_makes_two_empty_rows() {
    let mut e = editor(&[], 80, 24);
    e.handle_keypress(Key::Char('\n'));
    assert_eq!(e.rows.len(), 2);
    assert_eq!(text(&e, 0), "");
    assert_eq!(text(&e, 1), "");
    assert_eq!(e.absolute_position(), (2, 1));
}

#[test]
fn backspace_joins_lines() {
    let mut e = editor(&["ab", "cd"], 80, 24);
    e.y = 2;
    e.handle_keypress(Key::Backspace);
    assert_eq!(e.rows.len(), 1);
    assert_eq!(text(&e, 0), "abcd");
    let (r, c) = e.absolute_position();
    assert_eq!(r, 1);
    assert_eq!(c, 3);
}

#[test]
fn backspace_join_while_scrolled_scrolls_up() {
    let mut e = editor(&["a", "b", "c", "d"], 10, 3);
    for _ in 0..3 {
        e.move_cursor(Key::Down);
    }
    assert_eq!((e.y, e.rowoff), (2, 2));
    e.handle_keypress(Key::Backspace);
    assert_eq!(e.rows.len(), 3);
    assert_eq!(text(&e, 2), "cd");
    assert_eq!((e.y, e.rowoff), (2, 1));
    assert_eq!(e.absolute_position(), (3, 2));
}

#[test]
fn backspace_deletes_before_cursor() {
    let mut e = editor(&["abc"], 80, 24);
    e.x = 3;
    e.handle_keypress(Key::Backspace);
    assert_eq!(text(&e, 0), "ac");
    assert_eq!(e.x, 2);
}

#[test]
fn backspace_top_left_is_noop() {
    let mut e = editor(&["ab"], 80, 24);
    e.handle_keypress(Key::Backspace);
    assert_eq!(e.rows.len(), 1);
    assert_eq!(text(&e, 0), "ab");
    assert_eq!(e.absolute_position(), (1, 1));
}

#[test]
fn backspace_on_empty_buffer_does_not_panic() {
    let mut e = editor(&[], 80, 24);
    e.handle_keypress(Key::Backspace);
    assert_eq!(e.rows.len(), 0);
    assert_eq!(e.absolute_position(), (1, 1));
}

#[test]
fn split_then_join_round_trip() {
    for k in 0..=5usize {
        let mut e = editor(&["hello"], 80, 24);
        e.x = k + 1;
        e.insert_newline();
        e.backspace();
        assert_eq!(e.rows.len(), 1);
        assert_eq!(text(&e, 0), "hello");
        assert_eq!(e.x, k + 1);
        assert_eq!(e.absolute_position().0, 1);
    }
}

#[test]
fn arrows_clamp_to_row_end() {
    let mut e = editor(&["abcd", "x"], 80, 24);
    for _ in 0..10 {
        e.move_cursor(Key::Right);
    }
    assert_eq!(e.x, 5);
    e.move_cursor(Key::Down);
    assert_eq!(e.x, 2);
    assert_eq!(e.y, 2);
}

#[test]
fn arrows_never_leave_bounds() {
    let mut e = editor(&["abc", "defgh", "", "ij"], 5, 4);
    let moves = [
        Key::Up, Key::Left, Key::Down, Key::Down, Key::Right, Key::Right, Key::Right, Key::Right,
        Key::Down, Key::Down, Key::Down, Key::Up, Key::Left, Key::Down, Key::Right, Key::Up,
    ];
    for m in moves {
        e.move_cursor(m);
        let rows = e.rows.len().max(1);
        let max_y = (e.height - 1).min(rows);
        assert!(1 <= e.y && e.y <= max_y);
        let fr = e.y + e.rowoff;
        assert!(fr <= rows);
        let row_len = if e.rows.is_empty() { 0 } else { e.rows[fr - 1].data.len() };
        let max_x = e.width.min(row_len + 1);
        assert!(1 <= e.x && e.x <= max_x);
    }
}

#[test]
fn moving_down_scrolls_one_row_at_a_time() {
    let mut e = editor(&["a", "b", "c", "d"], 10, 3);
    assert_eq!(e.y, 1);
    e.move_cursor(Key::Down);
    assert_eq!((e.y, e.rowoff), (2, 0));
    e.move_cursor(Key::Down);
    assert_eq!((e.y, e.rowoff), (2, 1));
    e.move_cursor(Key::Down);
    assert_eq!((e.y, e.rowoff), (2, 2));
    e.move_cursor(Key::Down);
    assert_eq!((e.y, e.rowoff), (2, 2));
    e.move_cursor(Key::Up);
    assert_eq!((e.y, e.rowoff), (1, 2));
    e.move_cursor(Key::Up);
    assert_eq!((e.y, e.rowoff), (1, 1));
}

#[test]
fn moves_on_empty_buffer_stay_at_origin() {
    let mut e = editor(&[], 10, 5);
    for m in [Key::Up, Key::Down, Key::Left, Key::Right] {
        e.move_cursor(m);
        assert_eq!((e.x, e.y, e.rowoff), (1, 1, 0));
    }
}

#[test]
fn ctrl_q_sets_quit_flag() {
    let mut e = editor(&["a"], 80, 24);
    let act = e.handle_keypress(Key::Ctrl('q'));
    assert!(matches!(act, EditorAction::Nothing));
    assert!(e.quit_now);
    assert_eq!(text(&e, 0), "a");
}

#[test]
fn ctrl_o_inserts_line_before_current() {
    let mut e = editor(&["one", "two"], 80, 24);
    e.y = 2;
    e.handle_keypress(Key::Ctrl('o'));
    assert_eq!(e.rows.len(), 3);
    assert_eq!(text(&e, 0), "one");
    assert_eq!(text(&e, 1), "");
    assert_eq!(text(&e, 2), "two");
    assert_eq!((e.x, e.y), (1, 2));
}

#[test]
fn unknown_keys_are_ignored() {
    let mut e = editor(&["a"], 80, 24);
    e.handle_keypress(Key::Other);
    e.handle_keypress(Key::Ctrl('z'));
    assert_eq!(e.rows.len(), 1);
    assert_eq!(text(&e, 0), "a");
    assert_eq!((e.x, e.y, e.rowoff), (1, 1, 0));
    assert!(!e.quit_now);
}

#[test]
fn row_primitives_absorb_out_of_range() {
    let mut e = editor(&["ab"], 80, 24);
    e.insert_row(5);
    assert_eq!(e.rows.len(), 1);
    e.row_insert_char(0, 9, 'x');
    assert_eq!(text(&e, 0), "ab");
    e.row_delete_char(0, 0);
    assert_eq!(text(&e, 0), "ab");
    e.row_delete_char(7, 1);
    assert_eq!(text(&e, 0), "ab");
    e.append_str_to_row(3, &vec!['z']);
    assert_eq!(e.rows.len(), 1);
    e.clear_row_to_end(4, 0);
    assert_eq!(text(&e, 0), "ab");
}

#[test]
fn row_insert_char_just_past_end_appends_row() {
    let mut e = editor(&["ab"], 80, 24);
    e.row_insert_char(1, 0, 'z');
    assert_eq!(e.rows.len(), 2);
    assert_eq!(text(&e, 1), "z");
}

#[test]
fn visible_line_shows_viewport_prefix() {
    let e = editor(&["abcdef", "gh"], 3, 24);
    assert_eq!(e.visible_line(0), Some(vec!['a', 'b', 'c']));
    assert_eq!(e.visible_line(1), Some(vec!['g', 'h']));
    assert_eq!(e.visible_line(2), None);
}

#[test]
fn visible_line_follows_scroll() {
    let mut e = editor(&["a", "b", "c", "d"], 10, 3);
    e.move_cursor(Key::Down);
    e.move_cursor(Key::Down);
    assert_eq!(e.rowoff, 1);
    assert_eq!(e.visible_line(0), Some(vec!['b']));
    assert_eq!(e.visible_line(1), Some(vec!['c']));
}

#[test]
fn enter_with_cursor_past_row_end_splits_at_end() {
    let mut e = editor(&["ab"], 80, 24);
    e.x = 10;
    e.insert_newline();
    assert_eq!(text(&e, 0), "ab");
    assert_eq!(text(&e, 1), "");
    assert_eq!(e.absolute_position(), (2, 1));
}
