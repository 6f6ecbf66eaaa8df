use uka::sakura_script::tokenizer::Cursor;

#[test]
fn test_position() {
    let mut cursor = Cursor::new("hello");
    assert_eq!(cursor.position(), 0);
    cursor.next();
    assert_eq!(cursor.position(), 1);
    cursor.next();
    assert_eq!(cursor.position(), 2);
    cursor.read(2);
    assert_eq!(cursor.position(), 4);
    cursor.next();
    assert_eq!(cursor.position(), 5);
    assert_eq!(cursor.next(), None);
    assert_eq!(cursor.position(), 5);
}

#[test]
fn test_position_utf8_tracking() {
    let mut cursor = Cursor::new("a🌟b");
    assert_eq!(cursor.position(), 0);
    cursor.next();
    assert_eq!(cursor.position(), 1);
    cursor.next();
    assert_eq!(cursor.position(), 2);
    cursor.next();
    assert_eq!(cursor.position(), 3);
}

#[test]
fn test_position_consistency_across_operations() {
    let mut cursor = Cursor::new("test");
    let initial_pos = cursor.position();

    cursor.peek();
    assert_eq!(cursor.position(), initial_pos);

    cursor.peek_nth(10);
    assert_eq!(cursor.position(), initial_pos);

    cursor.next();
    assert!(cursor.position() > initial_pos);
}

#[test]
fn test_next() {
    let mut cursor = Cursor::new("hello");
    assert_eq!(cursor.next(), Some('h'));
    assert_eq!(cursor.next(), Some('e'));
    assert_eq!(cursor.next(), Some('l'));
    assert_eq!(cursor.next(), Some('l'));
    assert_eq!(cursor.next(), Some('o'));
    assert_eq!(cursor.next(), None);
}

#[test]
fn test_next_utf8_multibyte_characters() {
    let mut cursor = Cursor::new("Hello 🌟 世界");
    assert_eq!(cursor.next(), Some('H'));
    assert_eq!(cursor.next(), Some('e'));
    assert_eq!(cursor.next(), Some('l'));
    assert_eq!(cursor.next(), Some('l'));
    assert_eq!(cursor.next(), Some('o'));
    assert_eq!(cursor.next(), Some(' '));
    assert_eq!(cursor.next(), Some('🌟'));
    assert_eq!(cursor.next(), Some(' '));
    assert_eq!(cursor.next(), Some('世'));
    assert_eq!(cursor.next(), Some('界'));
    assert_eq!(cursor.next(), None);
}

#[test]
fn test_next_single_character() {
    let mut cursor = Cursor::new("x");
    assert_eq!(cursor.next(), Some('x'));
    assert_eq!(cursor.next(), None);
}

#[test]
fn test_next_control_characters() {
    let mut cursor = Cursor::new("a\tb\0c");
    assert_eq!(cursor.next(), Some('a'));
    assert_eq!(cursor.next(), Some('\t'));
    assert_eq!(cursor.next(), Some('b'));
    assert_eq!(cursor.next(), Some('\0'));
    assert_eq!(cursor.next(), Some('c'));
}

#[test]
fn test_next_operations_at_end() {
    let mut cursor = Cursor::new("ab");
    cursor.next();
    cursor.next();

    assert_eq!(cursor.next(), None);
}

#[test]
fn test_next_state_after_exhaustion() {
    let mut cursor = Cursor::new("abc");

    while cursor.next().is_some() {}

    assert_eq!(cursor.next(), None);
}

#[test]
fn test_read() {
    let mut cursor = Cursor::new("hello");
    assert_eq!(cursor.read(2), "he");
    assert_eq!(cursor.read(2), "ll");
    assert_eq!(cursor.read(2), "o");
    assert_eq!(cursor.read(2), "");
}

#[test]
fn test_read_utf8_operations() {
    let mut cursor = Cursor::new("café");
    assert_eq!(cursor.read(3), "caf");
    assert_eq!(cursor.read(2), "é");
}

#[test]
fn test_read_more_than_available() {
    let mut cursor = Cursor::new("hi");
    assert_eq!(cursor.read(10), "hi");
    assert_eq!(cursor.read(5), "");
}

#[test]
fn test_read_large_string_operations() {
    let large_string = "a".repeat(10000);
    let mut cursor = Cursor::new(&large_string);

    let first_half = cursor.read(5000);
    assert_eq!(first_half.len(), 5000);

    let second_half = cursor.read(10000);
    assert_eq!(second_half.len(), 5000);
}

#[test]
fn test_read_while() {
    let mut cursor = Cursor::new("hello123");
    assert_eq!(cursor.read_while(|c| c.is_alphabetic()), "hello");
    assert_eq!(cursor.read_while(|c| c.is_numeric()), "123");
    assert_eq!(cursor.read_while(|c| c.is_alphabetic()), "");
}

#[test]
fn test_read_while_multiple_calls() {
    let mut cursor = Cursor::new("abc123xyz789");
    assert_eq!(cursor.read_while(|c| c.is_alphabetic()), "abc");
    assert_eq!(cursor.read_while(|c| c.is_numeric()), "123");
    assert_eq!(cursor.read_while(|c| c.is_alphabetic()), "xyz");
    assert_eq!(cursor.read_while(|c| c.is_numeric()), "789");
    assert_eq!(cursor.read_while(|c| c.is_alphabetic()), "");
}

#[test]
fn test_read_while_complex_predicates() {
    let mut cursor = Cursor::new("Hello-World_123!");
    assert_eq!(
        cursor.read_while(|c| c.is_alphanumeric() || c == '-' || c == '_'),
        "Hello-World_123"
    );
}

#[test]
fn test_read_while_whitespace_only() {
    let mut cursor = Cursor::new("   \t\n");
    assert_eq!(cursor.read_while(|c| c.is_whitespace()), "   \t\n");
}

#[test]
fn test_read_while_line_endings() {
    let mut cursor = Cursor::new("line1\nline2\r\nline3");
    assert_eq!(cursor.read_while(|c| c != '\n' && c != '\r'), "line1");
    assert_eq!(cursor.next(), Some('\n'));
    assert_eq!(cursor.read_while(|c| c != '\n' && c != '\r'), "line2");
    assert_eq!(cursor.next(), Some('\r'));
    assert_eq!(cursor.next(), Some('\n'));
    assert_eq!(cursor.read_while(|c| c != '\n' && c != '\r'), "line3");
}

#[test]
fn test_read_while_mixed_ascii_unicode() {
    let mut cursor = Cursor::new("Hello🌟World世界!");
    assert_eq!(cursor.read_while(|c| c.is_ascii_alphabetic()), "Hello");
    cursor.next();
    assert_eq!(cursor.read_while(|c| c.is_ascii_alphabetic()), "World");
    assert_eq!(cursor.read_while(|c| !c.is_ascii_punctuation()), "世界");
}

#[test]
fn test_read_while_empty_result() {
    let mut cursor = Cursor::new("123abc");
    assert_eq!(cursor.read_while(|c| c.is_alphabetic()), "");
}

#[test]
fn test_peek() {
    let mut cursor = Cursor::new("hello");
    assert_eq!(cursor.peek(), Some('h'));
    cursor.next();
    assert_eq!(cursor.peek(), Some('e'));
    cursor.read(2);
    assert_eq!(cursor.peek(), Some('l'));
    cursor.next();
    assert_eq!(cursor.peek(), Some('o'));
    cursor.next();
    assert_eq!(cursor.peek(), None);
}

#[test]
fn test_peek_utf8_operations() {
    let mut cursor = Cursor::new("🌟abc");
    assert_eq!(cursor.peek(), Some('🌟'));
    cursor.next();
    assert_eq!(cursor.peek(), Some('a'));
}

#[test]
fn test_peek_nth() {
    let cursor = Cursor::new("hello");
    assert_eq!(cursor.peek_nth(1), "h");
    assert_eq!(cursor.peek_nth(2), "he");
    assert_eq!(cursor.peek_nth(5), "hello");
    assert_eq!(cursor.peek_nth(10), "hello");
}

#[test]
fn test_peek_nth_beyond_length() {
    let cursor = Cursor::new("ab");
    assert_eq!(cursor.peek_nth(10), "ab");
    assert_eq!(cursor.peek_nth(0), "");
    assert_eq!(cursor.peek_nth(1), "a");
    assert_eq!(cursor.peek_nth(2), "ab");
}

#[test]
fn test_peek_nth_utf8_emojis() {
    let cursor = Cursor::new("🌟🎉🚀");
    assert_eq!(cursor.peek_nth(1), "🌟");
    assert_eq!(cursor.peek_nth(2), "🌟🎉");
    assert_eq!(cursor.peek_nth(3), "🌟🎉🚀");
    assert_eq!(cursor.peek_nth(5), "🌟🎉🚀");
}

#[test]
fn test_peek_nth_utf8_boundary_splitting() {
    let cursor = Cursor::new("a🌟b");
    assert_eq!(cursor.peek_nth(1), "a");
    assert_eq!(cursor.peek_nth(2), "a🌟");
    assert_eq!(cursor.peek_nth(3), "a🌟b");

    let mut cursor2 = Cursor::new("a🌟b");
    cursor2.next();
    assert_eq!(cursor2.peek_nth(1), "🌟");
    assert_eq!(cursor2.peek_nth(2), "🌟b");
}

#[test]
fn test_peek_nth_utf8_character_boundaries() {
    let cursor = Cursor::new("a🌟b");
    assert_eq!(cursor.peek_nth(1), "a");
    assert_eq!(cursor.peek_nth(2), "a🌟");
    assert_eq!(cursor.peek_nth(3), "a🌟b");

    let mut cursor2 = Cursor::new("a🌟b");
    cursor2.next();
    assert_eq!(cursor2.peek_nth(1), "🌟");
    assert_eq!(cursor2.peek_nth(2), "🌟b");

    cursor2.next();
    assert_eq!(cursor2.peek_nth(1), "b");
}

#[test]
fn test_peek_nth_mixed_utf8_content() {
    let cursor = Cursor::new("Hello🌟世界!");
    assert_eq!(cursor.peek_nth(5), "Hello");
    assert_eq!(cursor.peek_nth(6), "Hello🌟");
    assert_eq!(cursor.peek_nth(7), "Hello🌟世");
    assert_eq!(cursor.peek_nth(8), "Hello🌟世界");
    assert_eq!(cursor.peek_nth(9), "Hello🌟世界!");
    assert_eq!(cursor.peek_nth(15), "Hello🌟世界!");
}

#[test]
fn test_peek_nth_after_cursor_movement() {
    let mut cursor = Cursor::new("a🌟b🎉c");
    assert_eq!(cursor.peek_nth(2), "a🌟");

    cursor.next();
    assert_eq!(cursor.peek_nth(1), "🌟");
    assert_eq!(cursor.peek_nth(2), "🌟b");

    cursor.next();
    assert_eq!(cursor.peek_nth(1), "b");
    assert_eq!(cursor.peek_nth(2), "b🎉");

    cursor.next();
    assert_eq!(cursor.peek_nth(1), "🎉");
    assert_eq!(cursor.peek_nth(2), "🎉c");
}

#[test]
fn test_peek_nth_various_utf8_sizes() {
    let cursor = Cursor::new("aéं🌟");
    assert_eq!(cursor.peek_nth(1), "a");
    assert_eq!(cursor.peek_nth(2), "aé");
    assert_eq!(cursor.peek_nth(3), "aéं");
    assert_eq!(cursor.peek_nth(4), "aéं🌟");
}
