use rin::{AnsiParser, Charset, Command, CursorStyle};

#[test]
fn test_parse_256_color() {
    let mut parser = AnsiParser::new();

    let cmds = parser.parse(b"\x1b[38;5;196m");

    let has_fg = cmds.iter().any(|c| matches!(c, Command::SetForeground(_)));
    assert!(has_fg, "Should parse 256-color foreground");
}

#[test]
fn test_parse_true_color() {
    let mut parser = AnsiParser::new();

    let cmds = parser.parse(b"\x1b[38;2;255;128;0m");

    let has_fg = cmds.iter().any(|c| {
        if let Command::SetForeground(color) = c {
            color.r == 255 && color.g == 128 && color.b == 0
        } else {
            false
        }
    });
    assert!(has_fg, "Should parse true color RGB");
}

#[test]
fn test_parse_alternate_screen_enter() {
    let mut parser = AnsiParser::new();

    let cmds = parser.parse(b"\x1b[?1049h");

    assert!(cmds.contains(&Command::EnterAlternateScreen));
}

#[test]
fn test_parse_alternate_screen_exit() {
    let mut parser = AnsiParser::new();

    let cmds = parser.parse(b"\x1b[?1049l");

    assert!(cmds.contains(&Command::ExitAlternateScreen));
}

#[test]
fn test_parse_title() {
    let mut parser = AnsiParser::new();

    let cmds = parser.parse(b"\x1b]0;My Terminal\x07");

    let has_title = cmds
        .iter()
        .any(|c| matches!(c, Command::SetTitle(t) if t == "My Terminal"));
    assert!(has_title, "Should parse OSC title");
}

#[test]
fn test_parse_basic_colors() {
    let mut parser = AnsiParser::new();

    let cmds = parser.parse(b"\x1b[31m");

    let has_red = cmds
        .iter()
        .any(|c| matches!(c, Command::SetForeground(color) if color.r > 200));
    assert!(has_red, "Should parse basic red color");
}

#[test]
fn test_parse_decsc_decrc() {
    let mut parser = AnsiParser::new();

    let cmds = parser.parse(b"\x1b7");
    assert!(
        cmds.contains(&Command::SaveCursor),
        "Should parse ESC 7 as SaveCursor"
    );
    let cmds = parser.parse(b"\x1b8");
    assert!(
        cmds.contains(&Command::RestoreCursor),
        "Should parse ESC 8 as RestoreCursor"
    );
}

#[test]
fn test_parse_cursor_style() {
    let mut parser = AnsiParser::new();

    let cmds = parser.parse(b"\x1b[2 q");
    assert!(
        cmds.contains(&Command::SetCursorStyle(CursorStyle::SteadyBlock)),
        "Should parse CSI 2 SP q as SteadyBlock"
    );

    let cmds = parser.parse(b"\x1b[5 q");
    assert!(
        cmds.contains(&Command::SetCursorStyle(CursorStyle::BlinkBar)),
        "Should parse CSI 5 SP q as BlinkBar"
    );
}

#[test]
fn test_parse_bracketed_paste() {
    let mut parser = AnsiParser::new();

    let cmds = parser.parse(b"\x1b[?2004h");
    assert!(
        cmds.contains(&Command::SetBracketedPaste(true)),
        "Should parse ?2004h as enable bracketed paste"
    );

    let cmds = parser.parse(b"\x1b[?2004l");
    assert!(
        cmds.contains(&Command::SetBracketedPaste(false)),
        "Should parse ?2004l as disable bracketed paste"
    );
}

#[test]
fn test_parse_line_drawing_charset() {
    let mut parser = AnsiParser::new();

    let cmds = parser.parse(b"\x1b(0");
    assert!(
        cmds.contains(&Command::SetCharset(Charset::LineDrawing)),
        "Should parse ESC (0 as LineDrawing charset"
    );

    let cmds = parser.parse(b"\x1b(B");
    assert!(
        cmds.contains(&Command::SetCharset(Charset::Ascii)),
        "Should parse ESC (B as Ascii charset"
    );
}

#[test]
fn test_parse_tab_stop_commands() {
    let mut parser = AnsiParser::new();

    let cmds = parser.parse(b"\x1bH");
    assert!(
        cmds.contains(&Command::SetTabStop),
        "Should parse ESC H as SetTabStop"
    );

    let cmds = parser.parse(b"\x1b[0g");
    assert!(
        cmds.contains(&Command::ClearTabStop),
        "Should parse CSI 0g as ClearTabStop"
    );

    let cmds = parser.parse(b"\x1b[3g");
    assert!(
        cmds.contains(&Command::ClearAllTabStops),
        "Should parse CSI 3g as ClearAllTabStops"
    );
}
