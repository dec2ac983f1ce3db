use zing::{BufferError, EditorView, TextBuffer, Theme};

fn text(buffer: &TextBuffer) -> String {
    buffer.content.to_string()
}

#[test]
fn out_of_bounds_edits_and_slices_fail() {
    let mut buffer = TextBuffer::from_str("abc");
    assert_eq!(buffer.insert(4, "x"), Err(BufferError::OutOfBounds));
    assert_eq!(buffer.remove(2, 1), Err(BufferError::OutOfBounds));
    assert_eq!(buffer.remove(1, 4), Err(BufferError::OutOfBounds));
    assert_eq!(buffer.slice(2, 1), Err(BufferError::OutOfBounds));
    assert_eq!(buffer.slice(0, 4), Err(BufferError::OutOfBounds));
    assert_eq!(text(&buffer), "abc");
    assert!(!buffer.modified);
    // A failed edit records nothing.
    buffer.undo().unwrap();
    assert_eq!(text(&buffer), "abc");
    // The end of the text is a valid position.
    assert_eq!(buffer.insert(3, "d"), Ok(()));
    assert_eq!(buffer.slice(0, 4), Ok("abcd".to_string()));
    assert_eq!(buffer.slice(4, 4), Ok(String::new()));
}

#[test]
fn insert_then_remove_restores_text() {
    let mut buffer = TextBuffer::from_str("héllo wörld");
    buffer.insert(5, ", dear").unwrap();
    assert_eq!(text(&buffer), "héllo, dear wörld");
    buffer.remove(5, 5 + ", dear".chars().count()).unwrap();
    assert_eq!(text(&buffer), "héllo wörld");
}

#[test]
fn remove_records_removed_text_for_undo() {
    let mut buffer = TextBuffer::from_str("one two three");
    buffer.remove(3, 7).unwrap();
    assert_eq!(text(&buffer), "one three");
    assert!(buffer.modified);
    buffer.undo().unwrap();
    assert_eq!(text(&buffer), "one two three");
    buffer.redo().unwrap();
    assert_eq!(text(&buffer), "one three");
}

#[test]
fn undo_all_then_redo_all() {
    let mut buffer = TextBuffer::new();
    buffer.insert(0, "abc").unwrap();
    buffer.insert(1, "XY").unwrap();
    buffer.remove(0, 2).unwrap();
    buffer.insert(3, "\nnext").unwrap();
    buffer.remove(2, 4).unwrap();
    let end = text(&buffer);
    assert_eq!(end, "Ybnext");
    for _ in 0..5 {
        buffer.undo().unwrap();
    }
    assert_eq!(text(&buffer), "");
    // Nothing is left to undo.
    buffer.undo().unwrap();
    assert_eq!(text(&buffer), "");
    for _ in 0..5 {
        buffer.redo().unwrap();
    }
    assert_eq!(text(&buffer), end);
}

#[test]
fn new_edit_after_undo_clears_redo() {
    let mut buffer = TextBuffer::new();
    buffer.insert(0, "Hello").unwrap();
    buffer.insert(5, " there").unwrap();
    buffer.undo().unwrap();
    assert_eq!(text(&buffer), "Hello");
    buffer.insert(5, "!").unwrap();
    buffer.redo().unwrap();
    assert_eq!(text(&buffer), "Hello!");
}

#[test]
fn undo_and_redo_without_history_change_nothing() {
    let mut buffer = TextBuffer::from_str("keep");
    assert_eq!(buffer.undo(), Ok(()));
    assert_eq!(buffer.redo(), Ok(()));
    assert_eq!(text(&buffer), "keep");
    assert!(!buffer.modified);
}

#[test]
fn line_col_round_trip_on_every_index() {
    let buffer = TextBuffer::from_str("ab\n\nçd\r\nlast\n");
    assert_eq!(buffer.len_lines(), 5);
    for i in 0..=buffer.len_chars() {
        let (line, col) = buffer.char_to_line_col(i).unwrap();
        assert_eq!(buffer.line_col_to_char(line, col), Ok(i));
    }
    assert_eq!(buffer.char_to_line_col(buffer.len_chars() + 1), Err(BufferError::OutOfBounds));
}

#[test]
fn empty_buffer_has_one_line() {
    let buffer = TextBuffer::default();
    assert_eq!(buffer.len_lines(), 1);
    assert!(buffer.is_empty());
    assert_eq!(buffer.line(0), Ok(String::new()));
    assert_eq!(buffer.line(1), Err(BufferError::OutOfBounds));
    assert_eq!(buffer.char_to_line_col(0), Ok((0, 0)));
    assert_eq!(buffer.line_col_to_char(0, 0), Ok(0));
    assert_eq!(buffer.line_col_to_char(0, 1), Err(BufferError::OutOfBounds));
}

#[test]
fn hello_world_undo_redo_scenario() {
    let mut buffer = TextBuffer::new();
    buffer.insert(0, "Hello").unwrap();
    buffer.insert(5, ", world!").unwrap();
    assert_eq!(text(&buffer), "Hello, world!");
    buffer.undo().unwrap();
    assert_eq!(text(&buffer), "Hello");
    buffer.redo().unwrap();
    assert_eq!(text(&buffer), "Hello, world!");
    buffer.undo().unwrap();
    buffer.undo().unwrap();
    assert_eq!(text(&buffer), "");
}

#[test]
fn three_lines_scenario() {
    let buffer = TextBuffer::from_str("Line 1\nLine 2\nLine 3");
    assert_eq!(buffer.char_to_line_col(7), Ok((1, 0)));
    assert_eq!(buffer.line_col_to_char(1, 0), Ok(7));
    assert_eq!(buffer.line(1), Ok("Line 2".to_string()));
}

#[test]
fn line_lengths_include_the_line_feed() {
    let buffer = TextBuffer::from_str("ab\ncde\n");
    assert_eq!(buffer.len_lines(), 3);
    assert_eq!(buffer.line(1), Ok("cde".to_string()));
    assert_eq!(buffer.line(2), Ok(String::new()));
    // Column 3 of "ab\n" is the start of the next line.
    assert_eq!(buffer.line_col_to_char(0, 3), Ok(3));
    assert_eq!(buffer.line_col_to_char(0, 4), Err(BufferError::OutOfBounds));
    assert_eq!(buffer.line_col_to_char(1, 2), Ok(5));
    assert_eq!(buffer.line_col_to_char(3, 0), Err(BufferError::OutOfBounds));
    assert_eq!(buffer.char_to_line_col(7), Ok((2, 0)));
    assert_eq!(buffer.char_to_line_col(5), Ok((1, 2)));
}

#[test]
fn carriage_return_alone_is_no_line_break() {
    let buffer = TextBuffer::from_str("a\rb\r\nc");
    assert_eq!(buffer.len_lines(), 2);
    assert_eq!(buffer.line(0), Ok("a\rb\r".to_string()));
    assert_eq!(buffer.line(1), Ok("c".to_string()));
}

#[test]
fn update_content_records_the_old_text() {
    let mut buffer = TextBuffer::from_str("abc");
    buffer.update_content("abc").unwrap();
    assert!(buffer.modified);
    // No change, nothing recorded.
    buffer.undo().unwrap();
    assert_eq!(text(&buffer), "abc");

    buffer.update_content("xyz").unwrap();
    assert_eq!(text(&buffer), "xyz");
    // Undo gives back the old text.
    buffer.undo().unwrap();
    assert_eq!(text(&buffer), "abc");
    // Redo gives the new text again.
    buffer.redo().unwrap();
    assert_eq!(text(&buffer), "xyz");
    buffer.undo().unwrap();
    assert_eq!(text(&buffer), "abc");
}

#[test]
fn replacements_undo_back_to_empty() {
    let mut buffer = TextBuffer::new();
    buffer.update_content("ab").unwrap();
    buffer.insert(2, "cd").unwrap();
    buffer.update_content("a longer text").unwrap();
    buffer.remove(0, 2).unwrap();
    buffer.update_content("").unwrap();
    for _ in 0..5 {
        buffer.undo().unwrap();
    }
    assert_eq!(text(&buffer), "");
    for _ in 0..5 {
        buffer.redo().unwrap();
    }
    assert_eq!(text(&buffer), "");
    buffer.undo().unwrap();
    assert_eq!(text(&buffer), "longer text");
    buffer.undo().unwrap();
    assert_eq!(text(&buffer), "a longer text");
    buffer.undo().unwrap();
    assert_eq!(text(&buffer), "abcd");
}

#[test]
fn keystrokes_through_update_content_undo_one_by_one() {
    let mut buffer = TextBuffer::new();
    for typed in ["H", "He", "Hel", "Help"] {
        buffer.update_content(typed).unwrap();
    }
    buffer.undo().unwrap();
    assert_eq!(text(&buffer), "Hel");
    buffer.undo().unwrap();
    assert_eq!(text(&buffer), "He");
    buffer.redo().unwrap();
    assert_eq!(text(&buffer), "Hel");
}

#[test]
fn cloned_buffer_is_independent() {
    let mut buffer = TextBuffer::from_loaded("notes.txt".to_string(), "one");
    buffer.insert(3, " two").unwrap();
    let mut copy = buffer.clone();
    assert_eq!(text(&copy), "one two");
    assert_eq!(copy.file_path, Some("notes.txt".to_string()));
    assert!(copy.modified);
    copy.undo().unwrap();
    assert_eq!(text(&copy), "one");
    assert_eq!(text(&buffer), "one two");
    buffer.undo().unwrap();
    assert_eq!(text(&buffer), "one");
}

#[test]
fn update_content_clears_redo() {
    let mut buffer = TextBuffer::new();
    buffer.insert(0, "first").unwrap();
    buffer.undo().unwrap();
    buffer.update_content("second").unwrap();
    buffer.redo().unwrap();
    assert_eq!(text(&buffer), "second");
}

#[test]
fn save_target_needs_a_path() {
    let mut buffer = TextBuffer::from_str("text");
    assert_eq!(buffer.save_target(), Err(BufferError::NoAssociatedPath));
    buffer.insert(4, "!").unwrap();
    assert!(buffer.modified);
    buffer.mark_saved("/tmp/notes.txt".to_string());
    assert!(!buffer.modified);
    assert_eq!(buffer.file_path, Some("/tmp/notes.txt".to_string()));
    assert_eq!(buffer.save_target(), Ok("/tmp/notes.txt".to_string()));
}

#[test]
fn loaded_buffer_belongs_to_its_file() {
    let buffer = TextBuffer::from_loaded("a.txt".to_string(), "Hello, world!\nThis is a test.");
    assert_eq!(text(&buffer), "Hello, world!\nThis is a test.");
    assert_eq!(buffer.file_path, Some("a.txt".to_string()));
    assert!(!buffer.modified);
    assert_eq!(buffer.save_target(), Ok("a.txt".to_string()));
}

#[test]
fn slice_copies_a_range() {
    let buffer = TextBuffer::from_str("añb\ncd");
    assert_eq!(buffer.slice(1, 5), Ok("ñb\nc".to_string()));
    assert_eq!(buffer.len_chars(), 6);
}

#[test]
fn theme_default_and_toggle() {
    assert_eq!(Theme::default(), Theme::Dark);
    assert_eq!(Theme::Light.toggled(), Theme::Dark);
    assert_eq!(Theme::Dark.toggled(), Theme::Light);
}

#[test]
fn editor_cursor_position() {
    let buffer = TextBuffer::from_str("Line 1\nLine 2");
    assert_eq!(EditorView::cursor_line_col(&buffer, 9, (0, 0)), (1, 2));
    assert_eq!(EditorView::cursor_line_col(&buffer, 13, (0, 0)), (1, 6));
    assert_eq!(EditorView::cursor_line_col(&buffer, 14, (1, 3)), (1, 3));
}
