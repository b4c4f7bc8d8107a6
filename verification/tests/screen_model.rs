use rin::buffer::ResizeError;
use rin::{
    Cell, CellStyle, Charset, Color, Command, CursorStyle, Hyperlink, MouseMode, TerminalBuffer,
    UnderlineStyle,
};

fn run(buffer: &mut TerminalBuffer, commands: Vec<Command>) {
    for cmd in commands {
        buffer.execute_command(cmd);
    }
}

fn print(buffer: &mut TerminalBuffer, text: &str) {
    for c in text.chars() {
        buffer.execute_command(Command::Print(c));
    }
}

fn row_text(buffer: &TerminalBuffer, y: usize) -> String {
    buffer
        .grid()
        .row(y)
        .unwrap()
        .iter()
        .map(|c| c.character)
        .collect()
}

fn all_rows(buffer: &TerminalBuffer) -> Vec<String> {
    (0..buffer.grid().height())
        .map(|y| row_text(buffer, y).trim_end().to_string())
        .collect()
}

fn lettered(width: usize, height: usize) -> TerminalBuffer {
    let mut b = TerminalBuffer::new(width, height);
    for y in 0..height {
        b.execute_command(Command::MoveCursor(0, y));
        let label = (b'a' + y as u8) as char;
        b.execute_command(Command::Print(label));
        b.execute_command(Command::Print(label));
    }
    b.execute_command(Command::MoveCursor(0, 0));
    b
}

#[test]
fn cursor_stays_on_the_grid() {
    let mut b = TerminalBuffer::new(10, 4);
    let commands = vec![
        Command::MoveCursor(1000, 1000),
        Command::MoveCursorRelative(i32::MAX, i32::MAX),
        Command::Print('x'),
        Command::MoveCursorRelative(i32::MIN, i32::MIN),
        Command::Execute(0x08),
        Command::ScrollUp(usize::MAX),
        Command::ScrollDown(usize::MAX),
        Command::InsertLine(usize::MAX),
        Command::DeleteLine(usize::MAX),
        Command::InsertChars(usize::MAX),
        Command::DeleteChars(usize::MAX),
        Command::EraseChars(usize::MAX),
        Command::SetScrollRegion { top: 99, bottom: 0 },
        Command::Execute(b'\n'),
        Command::Print('\t'),
        Command::Print('\t'),
        Command::RestoreCursor,
        Command::EnterAlternateScreen,
        Command::MoveCursor(9, 3),
        Command::Print('y'),
        Command::ExitAlternateScreen,
    ];
    for cmd in commands {
        b.execute_command(cmd);
        let (x, y) = b.cursor_pos();
        assert!(x < 10 && y < 4);
        assert!(b.scrollback_len() <= 10_000);
    }
}

#[test]
fn absolute_moves_clamp() {
    let mut b = TerminalBuffer::new(80, 24);
    b.execute_command(Command::MoveCursor(200, 5));
    assert_eq!(b.cursor_pos(), (79, 5));
    b.execute_command(Command::MoveCursor(3, 24));
    assert_eq!(b.cursor_pos(), (3, 23));
}

#[test]
fn relative_moves_saturate() {
    let mut b = TerminalBuffer::new(80, 24);
    b.execute_command(Command::MoveCursorRelative(-1, -1));
    assert_eq!(b.cursor_pos(), (0, 0));
    b.execute_command(Command::MoveCursorRelative(5, 7));
    assert_eq!(b.cursor_pos(), (5, 7));
    b.execute_command(Command::MoveCursorRelative(-2, 100));
    assert_eq!(b.cursor_pos(), (3, 23));
    b.execute_command(Command::MoveCursorRelative(i32::MAX, i32::MIN));
    assert_eq!(b.cursor_pos(), (79, 0));
}

#[test]
fn printed_text_advances_the_cursor() {
    let mut b = TerminalBuffer::new(20, 3);
    print(&mut b, "hello");
    assert_eq!(b.cursor_pos(), (5, 0));
    assert_eq!(row_text(&b, 0), "hello               ");
    for x in 5..20 {
        assert_eq!(b.grid().get(x, 0), Some(&Cell::default()));
    }
    assert_eq!(b.scrollback_len(), 0);
}

#[test]
fn text_that_fills_the_row_wraps() {
    let mut b = TerminalBuffer::new(5, 3);
    print(&mut b, "abcde");
    assert_eq!(b.cursor_pos(), (0, 1));
    assert_eq!(row_text(&b, 0), "abcde");
    print(&mut b, "f");
    assert_eq!(row_text(&b, 1), "f    ");
}

#[test]
fn writing_the_last_cell_wraps_and_scrolls() {
    let mut b = TerminalBuffer::new(4, 3);
    print(&mut b, "top");
    b.execute_command(Command::MoveCursor(3, 2));
    b.execute_command(Command::Print('z'));
    assert_eq!(b.scrollback_len(), 1);
    assert_eq!(b.cursor_pos(), (0, 2));
    let gone: String = b.scrollback_row(0).unwrap().iter().map(|c| c.character).collect();
    assert_eq!(gone, "top ");
    assert_eq!(all_rows(&b), vec!["", "   z", ""]);
}

#[test]
fn history_is_cut_back_to_its_limit() {
    let mut b = TerminalBuffer::new(4, 2);
    b.set_scrollback_limit(3);
    for i in 0..10 {
        print(&mut b, &format!("{}", i));
        b.execute_command(Command::Execute(b'\n'));
        assert!(b.scrollback_len() <= 3);
    }
    assert_eq!(b.scrollback_len(), 3);
    let oldest: String = b.scrollback_row(0).unwrap().iter().map(|c| c.character).collect();
    assert_eq!(oldest.trim_end(), "6");
    b.set_scrollback_limit(1);
    assert_eq!(b.scrollback_len(), 1);
    let kept: String = b.scrollback_row(0).unwrap().iter().map(|c| c.character).collect();
    assert_eq!(kept.trim_end(), "8");
    b.set_scrollback_limit(0);
    assert_eq!(b.scrollback_len(), 0);
    b.execute_command(Command::ScrollUp(1));
    assert_eq!(b.scrollback_len(), 0);
}

#[test]
fn scroll_up_feeds_the_history_by_the_rows_scrolled() {
    let mut b = lettered(4, 5);
    b.execute_command(Command::MoveCursor(0, 4));
    b.execute_command(Command::ScrollUp(2));
    assert_eq!(b.scrollback_len(), 2);
    assert_eq!(all_rows(&b), vec!["cc", "dd", "ee", "", ""]);
    assert_eq!(b.cursor_pos(), (0, 2));
    b.execute_command(Command::ScrollUp(100));
    assert_eq!(b.scrollback_len(), 7);
    assert_eq!(all_rows(&b), vec!["", "", "", "", ""]);
    assert_eq!(b.cursor_pos(), (0, 0));
}

#[test]
fn scroll_down_brings_blank_rows_in_at_the_top() {
    let mut b = lettered(4, 5);
    b.execute_command(Command::ScrollDown(2));
    assert_eq!(all_rows(&b), vec!["", "", "aa", "bb", "cc"]);
    assert_eq!(b.scrollback_len(), 0);
    assert_eq!(b.cursor_pos(), (0, 0));
    b.execute_command(Command::ScrollDown(usize::MAX));
    assert_eq!(all_rows(&b), vec!["", "", "", "", ""]);
}

#[test]
fn scrolling_is_confined_to_the_scroll_region() {
    let mut b = lettered(4, 6);
    b.execute_command(Command::SetScrollRegion { top: 1, bottom: 3 });
    assert_eq!(b.scroll_region(), (1, 3));
    b.execute_command(Command::MoveCursor(0, 3));
    b.execute_command(Command::ScrollUp(1));
    assert_eq!(all_rows(&b), vec!["aa", "cc", "dd", "", "ee", "ff"]);
    assert_eq!(b.cursor_pos(), (0, 2));
    assert_eq!(b.scrollback_len(), 1);
    b.execute_command(Command::ScrollDown(2));
    assert_eq!(all_rows(&b), vec!["aa", "", "", "cc", "ee", "ff"]);
    b.execute_command(Command::MoveCursor(0, 5));
    b.execute_command(Command::ScrollDown(1));
    assert_eq!(b.cursor_pos(), (0, 3));
    b.execute_command(Command::MoveCursor(0, 0));
    b.execute_command(Command::ScrollUp(1));
    assert_eq!(b.cursor_pos(), (0, 1));
}

#[test]
fn line_feed_at_the_bottom_of_the_region_scrolls_it() {
    let mut b = lettered(4, 5);
    b.execute_command(Command::SetScrollRegion { top: 1, bottom: 2 });
    b.execute_command(Command::MoveCursor(2, 1));
    b.execute_command(Command::Execute(b'\n'));
    assert_eq!(b.cursor_pos(), (0, 2));
    assert_eq!(all_rows(&b), vec!["aa", "bb", "cc", "dd", "ee"]);
    b.execute_command(Command::Execute(b'\n'));
    assert_eq!(b.cursor_pos(), (0, 2));
    assert_eq!(all_rows(&b), vec!["aa", "cc", "", "dd", "ee"]);
    assert_eq!(b.scrollback_len(), 1);
}

#[test]
fn scroll_region_is_clamped_to_the_grid() {
    let mut b = TerminalBuffer::new(10, 5);
    assert_eq!(b.scroll_region(), (0, 4));
    b.execute_command(Command::SetScrollRegion { top: 2, bottom: usize::MAX });
    assert_eq!(b.scroll_region(), (2, 4));
    b.execute_command(Command::SetScrollRegion { top: 9, bottom: 1 });
    assert_eq!(b.scroll_region(), (4, 4));
    b.execute_command(Command::SetScrollRegion { top: 3, bottom: 1 });
    assert_eq!(b.scroll_region(), (3, 3));
}

#[test]
fn insert_and_delete_lines_at_the_cursor() {
    let mut b = lettered(4, 5);
    b.execute_command(Command::MoveCursor(1, 1));
    b.execute_command(Command::InsertLine(2));
    assert_eq!(all_rows(&b), vec!["aa", "", "", "bb", "cc"]);
    assert_eq!(b.cursor_pos(), (1, 1));
    b.execute_command(Command::DeleteLine(1));
    assert_eq!(all_rows(&b), vec!["aa", "", "bb", "cc", ""]);
    assert_eq!(b.scrollback_len(), 0);
    b.execute_command(Command::DeleteLine(usize::MAX));
    assert_eq!(all_rows(&b), vec!["aa", "", "", "", ""]);
}

#[test]
fn line_edits_outside_the_region_do_nothing() {
    let mut b = lettered(4, 5);
    b.execute_command(Command::SetScrollRegion { top: 2, bottom: 3 });
    b.execute_command(Command::MoveCursor(0, 0));
    b.execute_command(Command::InsertLine(1));
    b.execute_command(Command::DeleteLine(1));
    assert_eq!(all_rows(&b), vec!["aa", "bb", "cc", "dd", "ee"]);
    b.execute_command(Command::MoveCursor(0, 2));
    b.execute_command(Command::InsertLine(1));
    assert_eq!(all_rows(&b), vec!["aa", "bb", "", "cc", "ee"]);
}

#[test]
fn insert_delete_and_erase_chars() {
    let mut b = TerminalBuffer::new(8, 2);
    print(&mut b, "abcdefgh");
    b.execute_command(Command::MoveCursor(2, 0));
    b.execute_command(Command::InsertChars(3));
    assert_eq!(row_text(&b, 0), "ab   cde");
    b.execute_command(Command::DeleteChars(2));
    assert_eq!(row_text(&b, 0), "ab cde  ");
    b.execute_command(Command::EraseChars(2));
    assert_eq!(row_text(&b, 0), "ab  de  ");
    b.execute_command(Command::EraseChars(usize::MAX));
    assert_eq!(row_text(&b, 0), "ab      ");
    b.execute_command(Command::InsertChars(usize::MAX));
    assert_eq!(row_text(&b, 0), "ab      ");
    assert_eq!(b.cursor_pos(), (2, 0));
}

#[test]
fn erase_display_modes() {
    let mut b = lettered(4, 4);
    b.execute_command(Command::MoveCursor(1, 1));
    b.execute_command(Command::EraseDisplay(0));
    assert_eq!(all_rows(&b), vec!["aa", "b", "", ""]);
    assert_eq!(b.cursor_pos(), (1, 1));

    let mut b = lettered(4, 4);
    b.execute_command(Command::MoveCursor(0, 2));
    b.execute_command(Command::EraseDisplay(1));
    assert_eq!(all_rows(&b), vec!["", "", " c", "dd"]);

    let mut b = lettered(4, 4);
    b.execute_command(Command::MoveCursor(1, 2));
    b.execute_command(Command::EraseDisplay(2));
    assert_eq!(all_rows(&b), vec!["", "", "", ""]);
    assert_eq!(b.cursor_pos(), (1, 2));

    let mut b = lettered(4, 4);
    b.execute_command(Command::EraseDisplay(7));
    assert_eq!(all_rows(&b), vec!["aa", "bb", "cc", "dd"]);
}

#[test]
fn erase_from_origin_is_erase_all() {
    let mut to_end = lettered(4, 4);
    to_end.execute_command(Command::EraseDisplay(0));
    let mut all = lettered(4, 4);
    all.execute_command(Command::ClearScreen);
    for y in 0..4 {
        assert_eq!(to_end.grid().row(y), all.grid().row(y));
        assert_eq!(to_end.grid().is_row_dirty(y), all.grid().is_row_dirty(y));
    }
    assert_eq!(to_end.cursor_pos(), all.cursor_pos());
    assert_eq!(all_rows(&to_end), vec!["", "", "", ""]);
}

#[test]
fn erase_line_modes() {
    let mut b = TerminalBuffer::new(6, 2);
    print(&mut b, "abcdef");
    b.execute_command(Command::MoveCursor(2, 0));
    b.execute_command(Command::EraseLine(0));
    assert_eq!(row_text(&b, 0), "ab    ");

    let mut b = TerminalBuffer::new(6, 2);
    print(&mut b, "abcdef");
    b.execute_command(Command::MoveCursor(2, 0));
    b.execute_command(Command::EraseLine(1));
    assert_eq!(row_text(&b, 0), "   def");

    let mut b = TerminalBuffer::new(6, 2);
    print(&mut b, "abcdef");
    b.execute_command(Command::MoveCursor(2, 0));
    b.execute_command(Command::EraseLine(2));
    assert_eq!(row_text(&b, 0), "      ");

    let mut b = TerminalBuffer::new(6, 2);
    print(&mut b, "abcdef");
    b.execute_command(Command::MoveCursor(2, 0));
    b.execute_command(Command::ClearLine);
    assert_eq!(row_text(&b, 0), "      ");
    assert_eq!(b.cursor_pos(), (2, 0));
}

#[test]
fn tab_stops() {
    let mut b = TerminalBuffer::new(20, 2);
    b.execute_command(Command::Execute(b'\t'));
    assert_eq!(b.cursor_pos(), (8, 0));
    b.execute_command(Command::Print('\t'));
    assert_eq!(b.cursor_pos(), (16, 0));
    b.execute_command(Command::Execute(b'\t'));
    assert_eq!(b.cursor_pos(), (19, 0));

    b.execute_command(Command::MoveCursor(3, 0));
    b.execute_command(Command::SetTabStop);
    b.execute_command(Command::MoveCursor(8, 0));
    b.execute_command(Command::ClearTabStop);
    b.execute_command(Command::MoveCursor(0, 0));
    b.execute_command(Command::Execute(b'\t'));
    assert_eq!(b.cursor_pos(), (3, 0));
    b.execute_command(Command::Execute(b'\t'));
    assert_eq!(b.cursor_pos(), (16, 0));

    b.execute_command(Command::ClearAllTabStops);
    b.execute_command(Command::MoveCursor(0, 0));
    b.execute_command(Command::Execute(b'\t'));
    assert_eq!(b.cursor_pos(), (19, 0));
}

#[test]
fn controls_move_the_cursor() {
    let mut b = TerminalBuffer::new(10, 3);
    print(&mut b, "abc");
    b.execute_command(Command::Execute(0x08));
    assert_eq!(b.cursor_pos(), (2, 0));
    b.execute_command(Command::Execute(b'\r'));
    assert_eq!(b.cursor_pos(), (0, 0));
    b.execute_command(Command::Execute(0x08));
    assert_eq!(b.cursor_pos(), (0, 0));
    print(&mut b, "xy");
    b.execute_command(Command::Print('\n'));
    assert_eq!(b.cursor_pos(), (0, 1));
    print(&mut b, "z");
    b.execute_command(Command::Print('\r'));
    assert_eq!(b.cursor_pos(), (0, 1));
    b.execute_command(Command::Execute(0x00));
    b.execute_command(Command::Bell);
    b.execute_command(Command::ShowCursor);
    b.execute_command(Command::HideCursor);
    assert_eq!(b.cursor_pos(), (0, 1));
    assert_eq!(all_rows(&b), vec!["xyc", "z", ""]);
}

#[test]
fn save_and_restore_cursor() {
    let mut b = TerminalBuffer::new(20, 10);
    let bold = CellStyle { bold: true, ..CellStyle::default() };
    b.execute_command(Command::RestoreCursor);
    assert_eq!(b.cursor_pos(), (0, 0));
    b.execute_command(Command::MoveCursor(7, 3));
    b.execute_command(Command::SetStyle(bold));
    b.execute_command(Command::SaveCursor);
    run(
        &mut b,
        vec![
            Command::MoveCursor(0, 9),
            Command::MoveCursorRelative(4, -2),
            Command::SetStyle(CellStyle::default()),
            Command::Print('q'),
            Command::Execute(b'\n'),
            Command::ScrollUp(3),
        ],
    );
    b.execute_command(Command::RestoreCursor);
    assert_eq!(b.cursor_pos(), (7, 3));
    assert_eq!(b.current_style(), bold);
}

#[test]
fn restored_cursor_is_kept_on_a_smaller_grid() {
    let mut b = TerminalBuffer::new(20, 10);
    b.execute_command(Command::MoveCursor(19, 9));
    b.execute_command(Command::SaveCursor);
    assert_eq!(b.resize(5, 4), Ok(()));
    b.execute_command(Command::MoveCursor(0, 0));
    b.execute_command(Command::RestoreCursor);
    assert_eq!(b.cursor_pos(), (4, 3));
}

#[test]
fn reset_clears_screen_style_and_saved_cursor() {
    let mut b = lettered(4, 3);
    b.execute_command(Command::MoveCursor(2, 2));
    b.execute_command(Command::SetForeground(Color::red()));
    b.execute_command(Command::SaveCursor);
    b.execute_command(Command::Reset);
    assert_eq!(all_rows(&b), vec!["", "", ""]);
    assert_eq!(b.cursor_pos(), (0, 0));
    assert_eq!(b.current_style(), CellStyle::default());
    b.execute_command(Command::MoveCursor(1, 1));
    b.execute_command(Command::RestoreCursor);
    assert_eq!(b.cursor_pos(), (1, 1));
}

#[test]
fn styles_are_applied_to_printed_cells() {
    let mut b = TerminalBuffer::new(10, 2);
    b.execute_command(Command::SetForeground(Color::new(1, 2, 3)));
    b.execute_command(Command::SetBackground(Color::new(4, 5, 6)));
    b.execute_command(Command::Print('a'));
    let style = b.grid().get(0, 0).unwrap().style;
    assert_eq!(style.fg, Color::new(1, 2, 3));
    assert_eq!(style.bg, Color::new(4, 5, 6));
    assert_eq!(style.underline, UnderlineStyle::Off);
    b.execute_command(Command::SetStyle(CellStyle::default()));
    b.execute_command(Command::Print('b'));
    assert_eq!(b.grid().get(1, 0).unwrap().style, CellStyle::default());
    assert_eq!(b.grid().get(0, 0).unwrap().style, style);
}

#[test]
fn line_drawing_charset_substitutes_glyphs() {
    let mut b = TerminalBuffer::new(20, 2);
    b.execute_command(Command::SetCharset(Charset::LineDrawing));
    assert_eq!(b.charset(), Charset::LineDrawing);
    print(&mut b, "jklmnqtuvwxaZ");
    assert_eq!(row_text(&b, 0).trim_end(), "┘┐┌└┼─├┤┴┬│▒Z");
    b.execute_command(Command::SetCharset(Charset::Ascii));
    print(&mut b, "q");
    assert_eq!(b.grid().get(13, 0).unwrap().character, 'q');
}

#[test]
fn hyperlinks_attach_to_printed_cells() {
    let mut b = TerminalBuffer::new(10, 2);
    let link = Hyperlink::new(Some("k"), "https://example.org".to_string(), 0);
    b.execute_command(Command::SetHyperlink(Some(link.clone())));
    print(&mut b, "ab");
    b.execute_command(Command::SetHyperlink(None));
    print(&mut b, "c");
    assert_eq!(b.grid().get(0, 0).unwrap().hyperlink, Some(link.clone()));
    assert_eq!(b.grid().get(1, 0).unwrap().hyperlink, Some(link));
    assert_eq!(b.grid().get(2, 0).unwrap().hyperlink, None);
    assert_eq!(b.grid().get(0, 0).unwrap().hyperlink.as_ref().unwrap().uri(), "https://example.org");
}

#[test]
fn modes_are_recorded() {
    let mut b = TerminalBuffer::new(10, 2);
    assert_eq!(b.cursor_style(), CursorStyle::BlinkBlock);
    assert!(!b.is_bracketed_paste());
    assert_eq!(b.mouse_mode(), MouseMode::Off);
    assert_eq!(b.title(), "");
    run(
        &mut b,
        vec![
            Command::SetCursorStyle(CursorStyle::SteadyBar),
            Command::SetBracketedPaste(true),
            Command::SetMouseMode(MouseMode::ReportMotion),
            Command::SetTitle("shell".to_string()),
        ],
    );
    assert_eq!(b.cursor_style(), CursorStyle::SteadyBar);
    assert!(b.is_bracketed_paste());
    assert_eq!(b.mouse_mode(), MouseMode::ReportMotion);
    assert_eq!(b.title(), "shell");
}

#[test]
fn device_attribute_replies_queue_up() {
    let mut b = TerminalBuffer::new(10, 2);
    assert!(b.drain_responses().is_empty());
    b.execute_command(Command::DeviceAttributeQuery);
    b.execute_command(Command::DeviceAttributeQuery);
    let replies = b.drain_responses();
    assert_eq!(replies, vec![b"\x1b[?1;2c".to_vec(), b"\x1b[?1;2c".to_vec()]);
    assert!(b.drain_responses().is_empty());
}

#[test]
fn alternate_screen_leaves_the_history_alone() {
    let mut b = TerminalBuffer::new(4, 2);
    print(&mut b, "1\n2\n3\n");
    let before = b.scrollback_len();
    assert_eq!(before, 2);
    b.execute_command(Command::EnterAlternateScreen);
    assert_eq!(b.scrollback_len(), 0);
    print(&mut b, "a\nb\nc\nd\n");
    b.execute_command(Command::ScrollUp(2));
    assert_eq!(b.scrollback_len(), 0);
    b.execute_command(Command::ExitAlternateScreen);
    assert_eq!(b.scrollback_len(), before);
}

#[test]
fn alternate_screen_restores_the_primary_screen() {
    let mut b = lettered(4, 3);
    let bold = CellStyle { bold: true, ..CellStyle::default() };
    b.execute_command(Command::SetStyle(bold));
    b.execute_command(Command::MoveCursor(2, 1));
    let rows = all_rows(&b);
    b.execute_command(Command::EnterAlternateScreen);
    assert_eq!(b.current_style(), CellStyle::default());
    assert_eq!(all_rows(&b), vec!["", "", ""]);
    run(
        &mut b,
        vec![
            Command::Print('x'),
            Command::ClearScreen,
            Command::SetStyle(CellStyle::default()),
            Command::MoveCursor(3, 2),
            Command::Print('y'),
            Command::Reset,
            Command::EnterAlternateScreen,
        ],
    );
    b.execute_command(Command::ExitAlternateScreen);
    assert_eq!(all_rows(&b), rows);
    assert_eq!(b.cursor_pos(), (2, 1));
    assert_eq!(b.current_style(), bold);
    assert!(!b.is_alternate_screen());
    b.execute_command(Command::ExitAlternateScreen);
    assert_eq!(all_rows(&b), rows);
    assert_eq!(b.cursor_pos(), (2, 1));
}

#[test]
fn double_enter_then_exit_restores() {
    let mut b = lettered(4, 3);
    b.execute_command(Command::MoveCursor(1, 2));
    let rows = all_rows(&b);
    b.execute_command(Command::EnterAlternateScreen);
    b.execute_command(Command::EnterAlternateScreen);
    b.execute_command(Command::ExitAlternateScreen);
    assert!(!b.is_alternate_screen());
    assert_eq!(all_rows(&b), rows);
    assert_eq!(b.cursor_pos(), (1, 2));
}

#[test]
fn resize_keeps_the_top_left_part() {
    let mut b = lettered(6, 4);
    b.execute_command(Command::MoveCursor(5, 3));
    b.execute_command(Command::SetScrollRegion { top: 1, bottom: 2 });
    b.execute_command(Command::MoveCursor(5, 3));
    assert_eq!(b.resize(3, 2), Ok(()));
    assert_eq!(all_rows(&b), vec!["aa", "bb"]);
    assert_eq!(b.cursor_pos(), (2, 1));
    assert_eq!(b.scroll_region(), (0, 1));
    assert_eq!(b.grid().width(), 3);
    assert_eq!(b.grid().height(), 2);
    assert!(b.grid().is_row_dirty(0) && b.grid().is_row_dirty(1));

    assert_eq!(b.resize(20, 5), Ok(()));
    assert_eq!(all_rows(&b), vec!["aa", "bb", "", "", ""]);
    assert_eq!(b.grid().get(19, 4), Some(&Cell::default()));
    b.execute_command(Command::MoveCursor(0, 0));
    b.execute_command(Command::Execute(b'\t'));
    b.execute_command(Command::Execute(b'\t'));
    assert_eq!(b.cursor_pos(), (16, 0));
}

#[test]
fn resize_to_nothing_is_refused() {
    let mut b = lettered(6, 4);
    assert_eq!(b.resize(0, 4), Err(ResizeError::Empty));
    assert_eq!(b.resize(6, 0), Err(ResizeError::Empty));
    assert_eq!(b.resize(0, 0), Err(ResizeError::Empty));
    assert_eq!(all_rows(&b), vec!["aa", "bb", "cc", "dd"]);
    assert_eq!(
        ResizeError::Empty.message(),
        "a screen cannot be resized to no columns or no rows"
    );
}

#[test]
fn resize_on_the_alternate_screen_resizes_the_primary_too() {
    let mut b = lettered(6, 4);
    b.execute_command(Command::MoveCursor(5, 3));
    b.execute_command(Command::EnterAlternateScreen);
    assert_eq!(b.resize(3, 2), Ok(()));
    b.execute_command(Command::ExitAlternateScreen);
    assert_eq!(b.grid().width(), 3);
    assert_eq!(b.grid().height(), 2);
    assert_eq!(all_rows(&b), vec!["aa", "bb"]);
    assert_eq!(b.cursor_pos(), (2, 1));
}

#[test]
fn viewport_scrolls_within_the_history() {
    let mut b = TerminalBuffer::new(4, 2);
    print(&mut b, "1\n2\n3\n4\n5\n");
    assert_eq!(b.scrollback_len(), 4);
    b.scroll_by(3);
    assert_eq!(b.scroll_offset(), 3);
    b.scroll_by(3);
    assert_eq!(b.scroll_offset(), 4);
    b.scroll_by(-1);
    assert_eq!(b.scroll_offset(), 3);
    b.scroll_by(i32::MIN);
    assert_eq!(b.scroll_offset(), 0);
    b.scroll_by(i32::MAX);
    assert_eq!(b.scroll_offset(), 4);
    b.scroll_to(2);
    assert_eq!(b.scroll_offset(), 2);
    b.scroll_to(usize::MAX);
    assert_eq!(b.scroll_offset(), 4);
    b.scroll_to_bottom();
    assert_eq!(b.scroll_offset(), 0);
}

#[test]
fn clear_blanks_the_screen_and_homes_the_cursor() {
    let mut b = lettered(4, 3);
    b.execute_command(Command::MoveCursor(2, 2));
    b.clear();
    assert_eq!(all_rows(&b), vec!["", "", ""]);
    assert_eq!(b.cursor_pos(), (0, 0));
}

#[test]
fn write_char_writes_controls_as_glyphs() {
    let mut b = TerminalBuffer::new(4, 2);
    b.write_char('\n');
    assert_eq!(b.cursor_pos(), (1, 0));
    assert_eq!(b.grid().get(0, 0).unwrap().character, '\n');
}

#[test]
fn mutations_mark_rows_dirty() {
    let mut b = lettered(4, 4);
    assert!(b.grid().has_dirty_rows());
    b.clear_dirty();
    assert!(!b.grid().has_dirty_rows());
    b.execute_command(Command::MoveCursor(1, 2));
    assert!(!b.grid().has_dirty_rows());
    b.execute_command(Command::Print('k'));
    assert!(!b.grid().is_row_dirty(1));
    assert!(b.grid().is_row_dirty(2));
    assert!(!b.grid().is_row_dirty(3));
    b.clear_dirty();
    b.execute_command(Command::ScrollUp(1));
    assert!((0..4).all(|y| b.grid().is_row_dirty(y)));
    assert_eq!(b.cursor_pos(), (2, 1));
    b.clear_dirty();
    b.execute_command(Command::EraseChars(0));
    assert!(b.grid().is_row_dirty(1));
    assert!(!b.grid().is_row_dirty(0));
    assert!(!b.grid().is_row_dirty(2));
}

#[test]
fn a_clone_is_a_screen_of_its_own() {
    let mut b = lettered(4, 3);
    b.execute_command(Command::SetTitle("t".to_string()));
    b.execute_command(Command::MoveCursor(2, 1));
    b.execute_command(Command::ScrollUp(1));
    b.execute_command(Command::EnterAlternateScreen);
    b.execute_command(Command::Print('x'));
    b.execute_command(Command::DeviceAttributeQuery);
    let mut copy = b.clone();
    assert_eq!(all_rows(&copy), all_rows(&b));
    assert_eq!(copy.cursor_pos(), b.cursor_pos());
    assert_eq!(copy.title(), "t");
    assert!(copy.is_alternate_screen());
    b.execute_command(Command::Print('y'));
    assert_eq!(all_rows(&copy), vec!["x", "", ""]);
    copy.execute_command(Command::ExitAlternateScreen);
    assert_eq!(all_rows(&copy), vec!["bb", "cc", ""]);
    assert_eq!(copy.scrollback_len(), 1);
    assert_eq!(copy.cursor_pos(), (2, 0));
    assert_eq!(copy.drain_responses().len(), 1);
    assert_eq!(b.drain_responses().len(), 1);
}
