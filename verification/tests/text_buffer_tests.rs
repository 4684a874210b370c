use ramdis::TextBuffer;

#[test]
fn new_buffer_is_empty() {
    let b = TextBuffer::new();
    assert_eq!(b.text(), "");
    assert_eq!(b.cursor(), 0);
}

#[test]
fn insert_advances_cursor() {
    let mut b = TextBuffer::new();
    b.insert_char('h');
    b.insert_char('i');
    assert_eq!(b.text(), "hi");
    assert_eq!(b.cursor(), 2);
}

#[test]
fn insert_at_cursor_in_middle() {
    let mut b = TextBuffer::new();
    b.insert_char('a');
    b.insert_char('c');
    b.move_cursor(-1);
    b.insert_char('b');
    assert_eq!(b.text(), "abc");
    assert_eq!(b.cursor(), 2);
}

#[test]
fn delete_before_cursor_removes_one_char() {
    let mut b = TextBuffer::new();
    b.insert_char('a');
    b.insert_char('b');
    b.delete_before_cursor();
    assert_eq!(b.text(), "a");
    assert_eq!(b.cursor(), 1);
}

#[test]
fn delete_at_start_is_noop() {
    let mut b = TextBuffer::new();
    b.insert_char('a');
    b.move_cursor(-1);
    b.delete_before_cursor();
    assert_eq!(b.text(), "a");
    assert_eq!(b.cursor(), 0);
}

#[test]
fn insert_then_delete_round_trip() {
    let mut b = TextBuffer::new();
    b.insert_char('x');
    b.move_cursor(1);
    let text_before = b.text();
    let cursor_before = b.cursor();
    for c in ['h', 'e', 'l', 'l', 'o'] {
        b.insert_char(c);
    }
    for _ in 0..5 {
        b.delete_before_cursor();
    }
    assert_eq!(b.text(), text_before);
    assert_eq!(b.cursor(), cursor_before);
}

#[test]
fn multibyte_text_is_edited_per_character() {
    let mut b = TextBuffer::new();
    for c in ['h', '\u{e9}', '\u{6f22}'] {
        b.insert_char(c);
    }
    assert_eq!(b.text(), "h\u{e9}\u{6f22}");
    assert_eq!(b.cursor(), 3);
    b.delete_before_cursor();
    assert_eq!(b.text(), "h\u{e9}");
    assert_eq!(b.cursor(), 2);
}

#[test]
fn move_cursor_clamps_at_both_ends() {
    let mut b = TextBuffer::new();
    b.insert_char('a');
    b.insert_char('b');
    b.move_cursor(-100);
    assert_eq!(b.cursor(), 0);
    b.move_cursor(100);
    assert_eq!(b.cursor(), 2);
    b.move_cursor(-1);
    assert_eq!(b.cursor(), 1);
    b.move_cursor(1);
    assert_eq!(b.cursor(), 2);
}
