use zing::TextBuffer;

#[test]
fn test_new_buffer() {
    let buffer = TextBuffer::new();
    assert!(buffer.is_empty());
    assert_eq!(buffer.len_chars(), 0);
    assert_eq!(buffer.len_lines(), 1); // Empty buffer has one line
}

#[test]
fn test_from_str() {
    let text = "Hello, world!\nThis is a test.";
    let buffer = TextBuffer::from_str(text);
    assert_eq!(buffer.len_chars(), text.len());
    assert_eq!(buffer.len_lines(), 2);
}

#[test]
fn test_insert_remove() {
    let mut buffer = TextBuffer::new();

    // Insert text
    buffer.insert(0, "Hello").unwrap();
    assert_eq!(buffer.content.to_string(), "Hello");

    // Insert more text
    buffer.insert(5, ", world!").unwrap();
    assert_eq!(buffer.content.to_string(), "Hello, world!");

    // Remove text: the chars of [5, 13), that is ", world!"
    buffer.remove(5, 13).unwrap();
    assert_eq!(buffer.content.to_string(), "Hello");
}

#[test]
fn test_undo_redo() {
    let mut buffer = TextBuffer::new();

    // Insert text
    buffer.insert(0, "Hello").unwrap();
    assert_eq!(buffer.content.to_string(), "Hello");

    // Insert more text
    buffer.insert(5, ", world!").unwrap();
    assert_eq!(buffer.content.to_string(), "Hello, world!");

    // Undo the second insert
    buffer.undo().unwrap();
    assert_eq!(buffer.content.to_string(), "Hello");

    // Redo the second insert
    buffer.redo().unwrap();
    assert_eq!(buffer.content.to_string(), "Hello, world!");

    // Undo both inserts
    buffer.undo().unwrap();
    buffer.undo().unwrap();
    assert_eq!(buffer.content.to_string(), "");
}

#[test]
fn test_line_operations() {
    let text = "Line 1\nLine 2\nLine 3";
    let buffer = TextBuffer::from_str(text);

    assert_eq!(buffer.line(0).unwrap(), "Line 1");
    assert_eq!(buffer.line(1).unwrap(), "Line 2");
    assert_eq!(buffer.line(2).unwrap(), "Line 3");

    assert_eq!(buffer.char_to_line_col(0).unwrap(), (0, 0));
    assert_eq!(buffer.char_to_line_col(6).unwrap(), (0, 6));
    assert_eq!(buffer.char_to_line_col(7).unwrap(), (1, 0));

    assert_eq!(buffer.line_col_to_char(0, 0).unwrap(), 0);
    assert_eq!(buffer.line_col_to_char(0, 6).unwrap(), 6);
    assert_eq!(buffer.line_col_to_char(1, 0).unwrap(), 7);
}
