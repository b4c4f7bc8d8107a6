use rin::{Cell, CellStyle, Color, ScreenRenderer, TerminalEngine};

fn engine(width: usize, height: usize) -> TerminalEngine {
    TerminalEngine::new(width, height, Box::new(ScreenRenderer::new()))
}

fn cell(engine: &TerminalEngine, x: usize, y: usize) -> Cell {
    engine.buffer().grid().get(x, y).unwrap().clone()
}

fn row_text(engine: &TerminalEngine, y: usize) -> String {
    engine
        .buffer()
        .grid()
        .row(y)
        .unwrap()
        .iter()
        .map(|c| c.character)
        .collect::<String>()
        .trim_end()
        .to_string()
}

#[test]
fn colored_text() {
    let mut e = engine(80, 24);
    e.write(b"\x1b[31mR\x1b[32mG\x1b[0mB");

    let r = cell(&e, 0, 0);
    assert_eq!(r.character, 'R');
    assert_eq!(r.style.fg, Color::new(205, 49, 49));

    let g = cell(&e, 1, 0);
    assert_eq!(g.character, 'G');
    assert_eq!(g.style.fg, Color::new(13, 188, 121));

    let b = cell(&e, 2, 0);
    assert_eq!(b.character, 'B');
    assert_eq!(b.style, CellStyle::default());
}

#[test]
fn move_and_write() {
    let mut e = engine(80, 24);
    assert_eq!(e.buffer().cursor_pos(), (0, 0));
    e.write(b"\x1b[5;10HX");
    assert_eq!(cell(&e, 9, 4).character, 'X');
    assert_eq!(e.buffer().cursor_pos(), (10, 4));
}

#[test]
fn scroll_and_scrollback() {
    let mut e = engine(40, 10);
    let mut text = String::new();
    for i in 1..=15 {
        text.push_str(&format!("L{}\n", i));
    }
    e.write(text.as_bytes());

    assert_eq!(e.buffer().scrollback_len(), 6);
    assert!(e.buffer().scrollback_len() >= 5);
    for y in 0..9 {
        assert_eq!(row_text(&e, y), format!("L{}", y + 7));
    }
    assert_eq!(row_text(&e, 9), "");
    assert_eq!(e.buffer().cursor_pos(), (0, 9));

    let oldest: String = e
        .buffer()
        .scrollback_row(0)
        .unwrap()
        .iter()
        .map(|c| c.character)
        .collect();
    assert_eq!(oldest.trim_end(), "L1");
    assert_eq!(e.buffer().scrollback_row(0).unwrap().len(), 40);
    assert!(e.buffer().scrollback_row(6).is_none());
}

#[test]
fn alternate_screen_round_trip() {
    let mut e = engine(80, 24);
    e.write(b"A");
    e.write(b"\x1b[?1049h");
    assert!(e.buffer().is_alternate_screen());
    assert_eq!(e.buffer().cursor_pos(), (0, 0));
    assert_eq!(cell(&e, 0, 0), Cell::default());
    e.write(b"B");
    assert_eq!(cell(&e, 0, 0).character, 'B');
    e.write(b"\x1b[?1049l");

    assert_eq!(cell(&e, 0, 0).character, 'A');
    for x in 1..80 {
        assert_eq!(cell(&e, x, 0), Cell::default());
    }
    assert_eq!(e.buffer().cursor_pos(), (1, 0));
    assert!(!e.buffer().is_alternate_screen());
}

#[test]
fn device_attributes() {
    let mut e = engine(80, 24);
    e.write(b"\x1b[c");
    let replies = e.drain_responses();
    assert_eq!(replies, vec![vec![0x1b, b'[', b'?', b'1', b';', b'2', b'c']]);
    assert!(e.drain_responses().is_empty());
}

#[test]
fn true_color_rgb() {
    let mut e = engine(80, 24);
    e.write(b"\x1b[38;2;255;128;0mO");
    let o = cell(&e, 0, 0);
    assert_eq!(o.character, 'O');
    assert_eq!(o.style.fg, Color::new(255, 128, 0));
}

#[test]
fn bytes_may_arrive_in_any_pieces() {
    let input = "a\x1b[1;31mb\u{e9}\x1b]0;title\x07\x1b[5;10Hc\x1b[?1049hd".as_bytes();
    let mut whole = engine(80, 24);
    whole.write(input);
    for split in 0..=input.len() {
        let mut parts = engine(80, 24);
        parts.write(&input[..split]);
        parts.write(&input[split..]);
        assert_eq!(parts.buffer().cursor_pos(), whole.buffer().cursor_pos());
        assert_eq!(parts.buffer().title(), whole.buffer().title());
        assert_eq!(
            parts.buffer().is_alternate_screen(),
            whole.buffer().is_alternate_screen()
        );
        for y in 0..24 {
            assert_eq!(
                parts.buffer().grid().row(y).unwrap(),
                whole.buffer().grid().row(y).unwrap()
            );
        }
    }
}

#[test]
fn title_is_the_last_one_set() {
    let mut e = engine(80, 24);
    assert_eq!(e.buffer().title(), "");
    e.write(b"\x1b]0;first\x07\x1b]2;second\x1b\\");
    assert_eq!(e.buffer().title(), "second");
}

#[test]
fn engine_resize_refuses_an_empty_screen() {
    let mut e = engine(80, 24);
    e.write(b"\x1b[24;80H");
    assert_eq!(e.buffer().cursor_pos(), (79, 23));
    assert_eq!(e.resize(0, 10), Err(rin::buffer::ResizeError::Empty));
    assert_eq!(e.resize(10, 0), Err(rin::buffer::ResizeError::Empty));
    assert_eq!(e.buffer().grid().width(), 80);
    assert_eq!(e.buffer().cursor_pos(), (79, 23));
    assert_eq!(e.resize(40, 10), Ok(()));
    assert_eq!(e.buffer().grid().width(), 40);
    assert_eq!(e.buffer().grid().height(), 10);
    assert_eq!(e.buffer().cursor_pos(), (39, 9));
}

#[test]
fn engine_clear_starts_afresh() {
    let mut e = engine(20, 5);
    e.write(b"one\ntwo\nthree\nfour\nfive\nsix\x1b[?1049h\x1b[c");
    assert!(e.buffer().is_alternate_screen());
    e.clear();
    assert!(!e.buffer().is_alternate_screen());
    assert_eq!(e.buffer().scrollback_len(), 0);
    assert_eq!(e.buffer().cursor_pos(), (0, 0));
    assert_eq!(e.buffer().grid().width(), 20);
    assert_eq!(e.buffer().grid().height(), 5);
    assert_eq!(cell(&e, 0, 0), Cell::default());
    assert!(e.drain_responses().is_empty());
}

#[test]
fn render_draws_with_the_given_renderer() {
    let mut e = engine(80, 24);
    e.write(b"hello");
    assert_eq!(e.context().width, 80);
    assert_eq!(e.context().height, 24);
    assert_eq!(e.context().buffer.cursor_pos(), (5, 0));
    assert!(e.render().is_ok());
    assert!(e.render().is_ok());
    assert_eq!(cell(&e, 0, 0).character, 'h');
}
