//! Keys as the bytes a terminal sends to the child for them.

use vstd::prelude::*;
use vstd::string::StrSliceExecFns;
use vstd::utf8::encode_utf8;

verus! {

#[derive(Debug, Clone, Copy, PartialEq, Eq, Structural)]
pub enum Key {
    Char(char),
    Enter,
    Backspace,
    Tab,
    Escape,
    Up,
    Down,
    Left,
    Right,
    Home,
    End,
    PageUp,
    PageDown,
    Delete,
    Insert,
    F(u8),
}

#[derive(Debug, Clone, Copy)]
pub struct Modifiers {
    pub ctrl: bool,
    pub alt: bool,
    pub shift: bool,
}

impl Default for Modifiers {
    fn default() -> (m: Self)
        ensures
            m == (Modifiers { ctrl: false, alt: false, shift: false }),
    {
        Modifiers { ctrl: false, alt: false, shift: false }
    }
}

#[derive(Debug, Clone)]
pub struct KeyEvent {
    pub key: Key,
    pub modifiers: Modifiers,
}

/// The bytes for a character key: with Ctrl held, a letter is the control
/// byte that counts from 1 for `a`; any other character is its UTF-8
/// encoding.
pub open spec fn char_key_bytes(c: char, ctrl: bool) -> Seq<u8> {
    if ctrl && 'a' <= c <= 'z' {
        seq![(c as u32 - 'a' as u32 + 1) as u8]
    } else if ctrl && 'A' <= c <= 'Z' {
        seq![(c as u32 - 'A' as u32 + 1) as u8]
    } else {
        encode_utf8(seq![c])
    }
}

/// The bytes that a key sends.
pub open spec fn key_bytes(key: Key, modifiers: Modifiers) -> Seq<u8> {
    match key {
        Key::Char(c) => char_key_bytes(c, modifiers.ctrl),
        Key::Enter => seq![0x0d],
        Key::Backspace => seq![0x7f],
        Key::Tab => seq![0x09],
        Key::Escape => seq![0x1b],
        Key::Up => seq![0x1b, 0x5b, 0x41],
        Key::Down => seq![0x1b, 0x5b, 0x42],
        Key::Right => seq![0x1b, 0x5b, 0x43],
        Key::Left => seq![0x1b, 0x5b, 0x44],
        Key::Home => seq![0x1b, 0x5b, 0x48],
        Key::End => seq![0x1b, 0x5b, 0x46],
        Key::PageUp => seq![0x1b, 0x5b, 0x35, 0x7e],
        Key::PageDown => seq![0x1b, 0x5b, 0x36, 0x7e],
        Key::Delete => seq![0x1b, 0x5b, 0x33, 0x7e],
        Key::Insert => seq![0x1b, 0x5b, 0x32, 0x7e],
        Key::F(n) => if 1 <= n <= 4 {
            seq![0x1b, 0x4f, (0x50 + (n - 1)) as u8]
        } else {
            Seq::empty()
        },
    }
}

/// `char::to_string`: a string that holds the one character.
#[verifier::external_body]
fn char_text(c: char) -> (s: String)
    ensures
        s@ == seq![c],
{
    c.to_string()
}

fn bytes_1(a: u8) -> (v: Vec<u8>)
    ensures
        v@ == seq![a],
{
    let mut v: Vec<u8> = Vec::new();
    v.push(a);
    assert(v@ =~= seq![a]);
    v
}

fn bytes_3(a: u8, b: u8, c: u8) -> (v: Vec<u8>)
    ensures
        v@ == seq![a, b, c],
{
    let mut v: Vec<u8> = Vec::new();
    v.push(a);
    v.push(b);
    v.push(c);
    assert(v@ =~= seq![a, b, c]);
    v
}

fn bytes_4(a: u8, b: u8, c: u8, d: u8) -> (v: Vec<u8>)
    ensures
        v@ == seq![a, b, c, d],
{
    let mut v: Vec<u8> = Vec::new();
    v.push(a);
    v.push(b);
    v.push(c);
    v.push(d);
    assert(v@ =~= seq![a, b, c, d]);
    v
}

impl KeyEvent {
    /// A key pressed with no modifier held.
    pub fn new(key: Key) -> (event: Self)
        ensures
            event.key == key,
            event.modifiers == (Modifiers { ctrl: false, alt: false, shift: false }),
    {
        KeyEvent { key, modifiers: Modifiers::default() }
    }

    pub fn with_modifiers(key: Key, modifiers: Modifiers) -> (event: Self)
        ensures
            event.key == key,
            event.modifiers == modifiers,
    {
        KeyEvent { key, modifiers }
    }

    /// The bytes to send to the child for this key.
    pub fn to_ansi(&self) -> (bytes: Vec<u8>)
        ensures
            bytes@ == key_bytes(self.key, self.modifiers),
    {
        match self.key {
            Key::Char(c) => {
                if self.modifiers.ctrl && 'a' <= c && c <= 'z' {
                    bytes_1((c as u32 - 'a' as u32 + 1) as u8)
                } else if self.modifiers.ctrl && 'A' <= c && c <= 'Z' {
                    bytes_1((c as u32 - 'A' as u32 + 1) as u8)
                } else {
                    char_text(c).as_str().as_bytes_vec()
                }
            },
            Key::Enter => bytes_1(0x0d),
            Key::Backspace => bytes_1(0x7f),
            Key::Tab => bytes_1(0x09),
            Key::Escape => bytes_1(0x1b),
            Key::Up => bytes_3(0x1b, 0x5b, 0x41),
            Key::Down => bytes_3(0x1b, 0x5b, 0x42),
            Key::Right => bytes_3(0x1b, 0x5b, 0x43),
            Key::Left => bytes_3(0x1b, 0x5b, 0x44),
            Key::Home => bytes_3(0x1b, 0x5b, 0x48),
            Key::End => bytes_3(0x1b, 0x5b, 0x46),
            Key::PageUp => bytes_4(0x1b, 0x5b, 0x35, 0x7e),
            Key::PageDown => bytes_4(0x1b, 0x5b, 0x36, 0x7e),
            Key::Delete => bytes_4(0x1b, 0x5b, 0x33, 0x7e),
            Key::Insert => bytes_4(0x1b, 0x5b, 0x32, 0x7e),
            Key::F(n) => {
                if 1 <= n && n <= 4 {
                    bytes_3(0x1b, 0x4f, 0x50 + (n - 1))
                } else {
                    Vec::new()
                }
            },
        }
    }
}

/// Collects the bytes that are to be sent to the child.
pub struct InputHandler {
    buffer: Vec<u8>,
}

impl InputHandler {
    /// The bytes that wait to be sent.
    pub closed spec fn pending(&self) -> Seq<u8> {
        self.buffer@
    }

    pub fn new() -> (handler: Self)
        ensures
            handler.pending() == Seq::<u8>::empty(),
    {
        InputHandler { buffer: Vec::new() }
    }

    /// The bytes for a key. What waits to be sent is left as it is.
    pub fn handle_key(&mut self, event: KeyEvent) -> (bytes: Vec<u8>)
        ensures
            bytes@ == key_bytes(event.key, event.modifiers),
            final(self).pending() == old(self).pending(),
    {
        event.to_ansi()
    }

    /// Adds bytes behind those that wait to be sent.
    pub fn push_bytes(&mut self, bytes: &[u8])
        ensures
            final(self).pending() == old(self).pending() + bytes@,
    {
        let mut i: usize = 0;
        while i < bytes.len()
            invariant
                i <= bytes.len(),
                self.buffer@ == old(self).buffer@ + bytes@.take(i as int),
            decreases bytes.len() - i,
        {
            self.buffer.push(bytes[i]);
            assert(self.buffer@ =~= old(self).buffer@ + bytes@.take(i + 1));
            i += 1;
        }
        assert(bytes@.take(bytes@.len() as int) =~= bytes@);
    }

    /// Hands out the bytes that wait to be sent, and keeps none.
    pub fn drain(&mut self) -> (bytes: Vec<u8>)
        ensures
            bytes@ == old(self).pending(),
            final(self).pending() == Seq::<u8>::empty(),
    {
        let mut bytes: Vec<u8> = Vec::new();
        std::mem::swap(&mut bytes, &mut self.buffer);
        bytes
    }
}

impl Default for InputHandler {
    fn default() -> (handler: Self)
        ensures
            handler.pending() == Seq::<u8>::empty(),
    {
        Self::new()
    }
}

} // verus!
