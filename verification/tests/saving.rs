use miniedit::document::{document_from_lines, render_file_content};
use miniedit::editor::timestamped_message;
use miniedit::text::u32_to_string;
use miniedit::{Document, Editor, EditorAction, Erow, Key};

fn row(s: &str) -> Erow {
    Erow { data: s.chars().collect(), data_rendered: s.chars().collect() }
}

fn rows(lines: &[&str]) -> Vec<Erow> {
    lines.iter().map(|s| row(s)).collect()
}

#[test]
fn render_writes_one_line_per_row() {
    assert_eq!(render_file_content(&rows(&[])), "");
    assert_eq!(render_file_content(&rows(&["a"])), "a\n");
    assert_eq!(render_file_content(&rows(&["ab", "c", ""])), "ab\nc\n\n");
}

#[test]
fn shorter_buffer_renders_shorter_content() {
    let long = render_file_content(&rows(&["one", "two", "three"]));
    let short = render_file_content(&rows(&["one"]));
    assert_eq!(long, "one\ntwo\nthree\n");
    assert_eq!(short, "one\n");
    assert!(short.len() < long.len());
}

#[test]
fn save_bound_document_writes_current_rows() {
    let doc = Some(Document { filename: String::from("x.txt"), saved: true });
    let mut e = Editor::new(rows(&["one", "two"]), doc, 80, 24);
    let act = e.handle_keypress(Key::Ctrl('s'));
    match act {
        EditorAction::WriteFile { path, content } => {
            assert_eq!(path, "x.txt");
            assert_eq!(content, "one\ntwo\n");
        },
        _ => panic!("expected a write action"),
    }
    assert!(e.status_message.starts_with("Document saved as \"x.txt\"! ("));
    assert!(e.status_message.ends_with(")"));
}

#[test]
fn save_unbound_document_asks_for_a_name() {
    let mut e = Editor::new(rows(&["a"]), None, 80, 24);
    let act = e.handle_keypress(Key::Ctrl('s'));
    assert!(matches!(act, EditorAction::PromptFilename));
    assert!(e.doc.is_none());
}

#[test]
fn finish_save_binds_and_writes() {
    let mut e = Editor::new(rows(&["a", "b"]), None, 80, 24);
    let act = e.finish_save(String::from("new.txt"));
    match act {
        EditorAction::WriteFile { path, content } => {
            assert_eq!(path, "new.txt");
            assert_eq!(content, "a\nb\n");
        },
        _ => panic!("expected a write action"),
    }
    let doc = e.doc.expect("binding created");
    assert_eq!(doc.filename, "new.txt");
    assert!(doc.saved);
}

#[test]
fn prompt_collects_a_filename() {
    let mut e = Editor::new(rows(&[]), None, 80, 24);
    let mut pending: Vec<char> = Vec::new();
    for c in ['f', '.', 't'] {
        let (p, done) = e.prompt_step("Enter a filename: ", pending, Key::Char(c));
        assert!(!done);
        pending = p;
    }
    assert_eq!(e.status_message, "Enter a filename: f.t");
    let (p, done) = e.prompt_step("Enter a filename: ", pending, Key::Char('\n'));
    assert!(done);
    assert_eq!(p.iter().collect::<String>(), "f.t");
    assert_eq!(e.status_message, "");
}

#[test]
fn prompt_rejects_empty_input() {
    let mut e = Editor::new(rows(&[]), None, 80, 24);
    let (p, done) = e.prompt_step("Name: ", Vec::new(), Key::Char('\n'));
    assert!(!done);
    assert_eq!(p, Vec::<char>::new());
    assert_eq!(e.status_message, "Name: ");
    let (p2, done2) = e.prompt_step("Name: ", p, Key::Char('\r'));
    assert!(!done2);
    assert_eq!(p2, Vec::<char>::new());
    assert_eq!(e.status_message, "Name: ");
}

#[test]
fn prompt_backspace_edits_pending_input() {
    let mut e = Editor::new(rows(&[]), None, 80, 24);
    let (p, done) = e.prompt_step("Name: ", vec!['a', 'b'], Key::Backspace);
    assert!(!done);
    assert_eq!(p, vec!['a']);
    assert_eq!(e.status_message, "Name: a");
    let (p2, _) = e.prompt_step("Name: ", Vec::new(), Key::Backspace);
    assert_eq!(p2, Vec::<char>::new());
    assert_eq!(e.status_message, "Name: ");
}

#[test]
fn prompt_ignores_other_keys() {
    let mut e = Editor::new(rows(&[]), None, 80, 24);
    let (p, done) = e.prompt_step("Name: ", vec!['q'], Key::Up);
    assert!(!done);
    assert_eq!(p, vec!['q']);
    assert_eq!(e.status_message, "Name: q");
}

#[test]
fn status_message_without_timestamp_is_verbatim() {
    let mut e = Editor::new(rows(&[]), None, 80, 24);
    e.set_status_message("hello there", false);
    assert_eq!(e.status_message, "hello there");
}

#[test]
fn status_message_with_timestamp_appends_clock() {
    let mut e = Editor::new(rows(&[]), None, 80, 24);
    e.set_status_message("saved", true);
    assert!(e.status_message.starts_with("saved ("));
    assert!(e.status_message.ends_with(")"));
    let inner = &e.status_message["saved (".len()..e.status_message.len() - 1];
    let parts: Vec<&str> = inner.split('.').collect();
    assert_eq!(parts.len(), 3);
    let h: u32 = parts[0].parse().unwrap();
    let m: u32 = parts[1].parse().unwrap();
    let s: u32 = parts[2].parse().unwrap();
    assert!(h < 24 && m < 60 && s < 60);
}

#[test]
fn timestamped_message_formats_exactly() {
    assert_eq!(timestamped_message("Saved", 1, 2, 3), "Saved (1.2.3)");
    assert_eq!(timestamped_message("", 23, 59, 0), " (23.59.0)");
}

#[test]
fn u32_renders_in_decimal() {
    assert_eq!(u32_to_string(0), "0");
    assert_eq!(u32_to_string(7), "7");
    assert_eq!(u32_to_string(10), "10");
    assert_eq!(u32_to_string(12345), "12345");
    assert_eq!(u32_to_string(u32::MAX), "4294967295");
}

#[test]
fn document_from_lines_builds_bound_buffer() {
    let lines: Vec<Vec<char>> = vec!["ab".chars().collect(), "c".chars().collect()];
    let (loaded, doc) = document_from_lines(lines, String::from("f.txt"));
    assert_eq!(loaded.len(), 2);
    assert_eq!(loaded[0].data.iter().collect::<String>(), "ab");
    assert_eq!(loaded[0].data_rendered.iter().collect::<String>(), "ab");
    assert_eq!(loaded[1].data.iter().collect::<String>(), "c");
    let doc = doc.expect("binding present");
    assert_eq!(doc.filename, "f.txt");
    assert!(doc.saved);
}

#[test]
fn default_row_is_empty() {
    let r = Erow::default();
    assert!(r.data.is_empty());
    assert!(r.data_rendered.is_empty());
}

#[test]
fn saving_empty_buffer_writes_nothing() {
    let doc = Some(Document { filename: String::from("e.txt"), saved: true });
    let mut e = Editor::new(rows(&[]), doc, 80, 24);
    match e.save_document() {
        EditorAction::WriteFile { path, content } => {
            assert_eq!(path, "e.txt");
            assert_eq!(content, "");
        },
        _ => panic!("expected a write action"),
    }
}
