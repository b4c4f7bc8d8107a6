use rin::{InputHandler, Key, KeyEvent, Modifiers};

fn ctrl() -> Modifiers {
    Modifiers { ctrl: true, alt: false, shift: false }
}

#[test]
fn plain_keys() {
    assert_eq!(KeyEvent::new(Key::Enter).to_ansi(), vec![b'\r']);
    assert_eq!(KeyEvent::new(Key::Backspace).to_ansi(), vec![0x7f]);
    assert_eq!(KeyEvent::new(Key::Tab).to_ansi(), vec![0x09]);
    assert_eq!(KeyEvent::new(Key::Escape).to_ansi(), vec![0x1b]);
}

#[test]
fn arrows_and_navigation() {
    assert_eq!(KeyEvent::new(Key::Up).to_ansi(), b"\x1b[A".to_vec());
    assert_eq!(KeyEvent::new(Key::Down).to_ansi(), b"\x1b[B".to_vec());
    assert_eq!(KeyEvent::new(Key::Right).to_ansi(), b"\x1b[C".to_vec());
    assert_eq!(KeyEvent::new(Key::Left).to_ansi(), b"\x1b[D".to_vec());
    assert_eq!(KeyEvent::new(Key::Home).to_ansi(), b"\x1b[H".to_vec());
    assert_eq!(KeyEvent::new(Key::End).to_ansi(), b"\x1b[F".to_vec());
    assert_eq!(KeyEvent::new(Key::PageUp).to_ansi(), b"\x1b[5~".to_vec());
    assert_eq!(KeyEvent::new(Key::PageDown).to_ansi(), b"\x1b[6~".to_vec());
    assert_eq!(KeyEvent::new(Key::Insert).to_ansi(), b"\x1b[2~".to_vec());
    assert_eq!(KeyEvent::new(Key::Delete).to_ansi(), b"\x1b[3~".to_vec());
}

#[test]
fn function_keys() {
    assert_eq!(KeyEvent::new(Key::F(1)).to_ansi(), b"\x1bOP".to_vec());
    assert_eq!(KeyEvent::new(Key::F(2)).to_ansi(), b"\x1bOQ".to_vec());
    assert_eq!(KeyEvent::new(Key::F(3)).to_ansi(), b"\x1bOR".to_vec());
    assert_eq!(KeyEvent::new(Key::F(4)).to_ansi(), b"\x1bOS".to_vec());
    assert_eq!(KeyEvent::new(Key::F(0)).to_ansi(), Vec::<u8>::new());
    assert_eq!(KeyEvent::new(Key::F(5)).to_ansi(), Vec::<u8>::new());
    assert_eq!(KeyEvent::new(Key::F(255)).to_ansi(), Vec::<u8>::new());
}

#[test]
fn characters_are_sent_as_utf8() {
    assert_eq!(KeyEvent::new(Key::Char('a')).to_ansi(), vec![b'a']);
    assert_eq!(KeyEvent::new(Key::Char('\u{e9}')).to_ansi(), vec![0xc3, 0xa9]);
    assert_eq!(KeyEvent::new(Key::Char('\u{20ac}')).to_ansi(), vec![0xe2, 0x82, 0xac]);
    assert_eq!(
        KeyEvent::new(Key::Char('\u{1f600}')).to_ansi(),
        vec![0xf0, 0x9f, 0x98, 0x80]
    );
}

#[test]
fn control_letters() {
    assert_eq!(KeyEvent::with_modifiers(Key::Char('a'), ctrl()).to_ansi(), vec![1]);
    assert_eq!(KeyEvent::with_modifiers(Key::Char('c'), ctrl()).to_ansi(), vec![3]);
    assert_eq!(KeyEvent::with_modifiers(Key::Char('z'), ctrl()).to_ansi(), vec![26]);
    assert_eq!(KeyEvent::with_modifiers(Key::Char('A'), ctrl()).to_ansi(), vec![1]);
    assert_eq!(KeyEvent::with_modifiers(Key::Char('Z'), ctrl()).to_ansi(), vec![26]);
    assert_eq!(KeyEvent::with_modifiers(Key::Char('1'), ctrl()).to_ansi(), vec![b'1']);
    assert_eq!(KeyEvent::with_modifiers(Key::Char('\u{e9}'), ctrl()).to_ansi(), vec![0xc3, 0xa9]);
    assert_eq!(KeyEvent::with_modifiers(Key::Enter, ctrl()).to_ansi(), vec![b'\r']);
    let shift = Modifiers { ctrl: false, alt: true, shift: true };
    assert_eq!(KeyEvent::with_modifiers(Key::Char('c'), shift).to_ansi(), vec![b'c']);
}

#[test]
fn modifiers_default_to_none() {
    let m = Modifiers::default();
    assert!(!m.ctrl && !m.alt && !m.shift);
    let e = KeyEvent::new(Key::Char('q'));
    assert_eq!(e.key, Key::Char('q'));
    assert!(!e.modifiers.ctrl && !e.modifiers.alt && !e.modifiers.shift);
}

#[test]
fn handler_collects_and_drains() {
    let mut handler = InputHandler::new();
    assert_eq!(handler.drain(), Vec::<u8>::new());
    handler.push_bytes(b"ab");
    handler.push_bytes(b"");
    assert_eq!(handler.handle_key(KeyEvent::new(Key::Up)), b"\x1b[A".to_vec());
    handler.push_bytes(b"c");
    assert_eq!(handler.drain(), b"abc".to_vec());
    assert_eq!(handler.drain(), Vec::<u8>::new());
    let mut other = InputHandler::default();
    other.push_bytes(&[0, 255]);
    assert_eq!(other.drain(), vec![0, 255]);
}
