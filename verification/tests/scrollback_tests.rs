use rin::TerminalBuffer;

#[test]
fn test_scrollback_initially_empty() {
    let buffer = TerminalBuffer::new(80, 24);
    assert_eq!(buffer.scrollback_len(), 0);
    assert_eq!(buffer.scroll_offset(), 0);
}

#[test]
fn test_scrollback_fills_on_scroll() {
    let mut buffer = TerminalBuffer::new(10, 3);

    for i in 0..5 {
        for c in format!("Line {}", i).chars() {
            buffer.write_char(c);
        }
        buffer.write_char('\n');
    }

    assert!(buffer.scrollback_len() > 0);
}

#[test]
fn test_scroll_by() {
    let mut buffer = TerminalBuffer::new(80, 24);

    buffer.scroll_by(10);
    assert_eq!(buffer.scroll_offset(), 0);

    for _ in 0..50 {
        buffer.write_char('\n');
    }

    buffer.scroll_by(5);
    assert!(buffer.scroll_offset() <= buffer.scrollback_len());
}

#[test]
fn test_scroll_to_bottom() {
    let mut buffer = TerminalBuffer::new(80, 24);
    buffer.scroll_by(10);
    buffer.scroll_to_bottom();
    assert_eq!(buffer.scroll_offset(), 0);
}
