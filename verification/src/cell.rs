//! Colors, styles and cells: the value types a screen is made of.

use std::sync::Arc;
use vstd::prelude::*;
use vstd::string::StringExecFns;

use crate::text::{decimal, push_decimal};

verus! {

/// An RGB color with 8 bits per channel.
#[derive(Debug, Clone, Copy, PartialEq, Eq, Structural)]
pub struct Color {
    pub r: u8,
    pub g: u8,
    pub b: u8,
}

impl Color {
    pub fn black() -> (c: Self)
        ensures
            c == (Color { r: 0, g: 0, b: 0 }),
    {
        Color { r: 0, g: 0, b: 0 }
    }

    pub fn white() -> (c: Self)
        ensures
            c == (Color { r: 255, g: 255, b: 255 }),
    {
        Color { r: 255, g: 255, b: 255 }
    }

    pub fn red() -> (c: Self)
        ensures
            c == (Color { r: 255, g: 0, b: 0 }),
    {
        Color { r: 255, g: 0, b: 0 }
    }

    pub fn green() -> (c: Self)
        ensures
            c == (Color { r: 0, g: 255, b: 0 }),
    {
        Color { r: 0, g: 255, b: 0 }
    }

    pub fn blue() -> (c: Self)
        ensures
            c == (Color { r: 0, g: 0, b: 255 }),
    {
        Color { r: 0, g: 0, b: 255 }
    }

    pub fn new(r: u8, g: u8, b: u8) -> (c: Self)
        ensures
            c == (Color { r, g, b }),
    {
        Color { r, g, b }
    }
}

/// How a cell is underlined.
#[derive(Debug, Clone, Copy, PartialEq, Eq, Structural, Default)]
pub enum UnderlineStyle {
    #[default]
    Off,
    Single,
    Double,
    Curly,
    Dotted,
    Dashed,
}

/// The rendering attributes of a cell.
#[derive(Debug, Clone, Copy, PartialEq, Eq, Structural)]
pub struct CellStyle {
    pub fg: Color,
    pub bg: Color,
    pub bold: bool,
    pub italic: bool,
    pub underline: UnderlineStyle,
    pub reverse: bool,
    pub strikethrough: bool,
    pub dim: bool,
    pub hidden: bool,
}

/// The style of a cell nothing was ever written to: white on black, no
/// attribute set.
pub open spec fn default_style() -> CellStyle {
    CellStyle {
        fg: Color { r: 255, g: 255, b: 255 },
        bg: Color { r: 0, g: 0, b: 0 },
        bold: false,
        italic: false,
        underline: UnderlineStyle::Off,
        reverse: false,
        strikethrough: false,
        dim: false,
        hidden: false,
    }
}

impl Default for CellStyle {
    fn default() -> (s: Self)
        ensures
            s == default_style(),
    {
        CellStyle {
            fg: Color { r: 255, g: 255, b: 255 },
            bg: Color { r: 0, g: 0, b: 0 },
            bold: false,
            italic: false,
            underline: UnderlineStyle::Off,
            reverse: false,
            strikethrough: false,
            dim: false,
            hidden: false,
        }
    }
}

/// What a hyperlink is, as contracts see it.
pub struct HyperlinkView {
    pub id: Seq<char>,
    pub uri: Seq<char>,
}

#[derive(Debug, PartialEq, Eq)]
struct HyperlinkInner {
    id: String,
    uri: String,
}

/// A hyperlink target shared by all the cells that carry it.
#[derive(Debug, PartialEq, Eq)]
pub struct Hyperlink {
    inner: Arc<HyperlinkInner>,
}

impl View for Hyperlink {
    type V = HyperlinkView;

    closed spec fn view(&self) -> HyperlinkView {
        HyperlinkView { id: self.inner.id@, uri: self.inner.uri@ }
    }
}

impl Clone for Hyperlink {
    /// A second handle on the same link: no string is copied.
    fn clone(&self) -> (r: Self)
        ensures
            r@ == self@,
    {
        Hyperlink { inner: self.inner.clone() }
    }
}

/// The identifier given to a link that came without one: the serial number
/// in decimal, followed by `_rin`.
pub open spec fn generated_link_id(serial: u32) -> Seq<char> {
    decimal(serial as nat) + seq!['_', 'r', 'i', 'n']
}

impl Hyperlink {
    /// A link to `uri`. It is known by `id` where one is given, and by an
    /// identifier generated from `serial` where none is.
    pub fn new(id: Option<&str>, uri: String, serial: u32) -> (link: Self)
        ensures
            link@.uri == uri@,
            link@.id == match id {
                Some(s) => s@,
                None => generated_link_id(serial),
            },
    {
        let id = match id {
            Some(s) => String::from_str(s),
            None => {
                let mut generated = String::new();
                push_decimal(&mut generated, serial as u64);
                proof {
                    reveal_strlit("_rin");
                }
                generated.append("_rin");
                assert(generated@ =~= generated_link_id(serial));
                generated
            },
        };
        Hyperlink { inner: Arc::new(HyperlinkInner { id, uri }) }
    }

    pub fn id(&self) -> (s: &str)
        ensures
            s@ == self@.id,
    {
        self.inner.id.as_str()
    }

    pub fn uri(&self) -> (s: &str)
        ensures
            s@ == self@.uri,
    {
        self.inner.uri.as_str()
    }
}

/// The view of an optional link.
pub open spec fn link_view(link: Option<Hyperlink>) -> Option<HyperlinkView> {
    match link {
        Some(l) => Some(l@),
        None => None,
    }
}

/// One cell of a screen as contracts see it.
pub struct CellView {
    pub character: char,
    pub style: CellStyle,
    pub hyperlink: Option<HyperlinkView>,
    pub zerowidth: Seq<char>,
}

/// The cell nothing was ever written to: a space in the default style.
pub open spec fn blank_cell() -> CellView {
    CellView {
        character: ' ',
        style: default_style(),
        hyperlink: None,
        zerowidth: Seq::empty(),
    }
}

/// One position of a screen: a character, how it is drawn, the link it
/// belongs to, and the combining characters stacked on it.
#[derive(Debug, PartialEq, Eq)]
pub struct Cell {
    pub character: char,
    pub style: CellStyle,
    pub hyperlink: Option<Hyperlink>,
    pub zerowidth: Vec<char>,
}

impl View for Cell {
    type V = CellView;

    open spec fn view(&self) -> CellView {
        CellView {
            character: self.character,
            style: self.style,
            hyperlink: link_view(self.hyperlink),
            zerowidth: self.zerowidth@,
        }
    }
}

impl Clone for Cell {
    fn clone(&self) -> (r: Self)
        ensures
            r@ == self@,
    {
        let hyperlink = match &self.hyperlink {
            Some(l) => Some(l.clone()),
            None => None,
        };
        Cell {
            character: self.character,
            style: self.style,
            hyperlink,
            zerowidth: self.zerowidth.clone(),
        }
    }
}

impl Default for Cell {
    fn default() -> (c: Self)
        ensures
            c@ == blank_cell(),
    {
        Cell {
            character: ' ',
            style: CellStyle::default(),
            hyperlink: None,
            zerowidth: Vec::new(),
        }
    }
}

impl Cell {
    /// A cell that shows `character` in the default style.
    pub fn new(character: char) -> (c: Self)
        ensures
            c@ == (CellView { character, ..blank_cell() }),
    {
        Cell {
            character,
            style: CellStyle::default(),
            hyperlink: None,
            zerowidth: Vec::new(),
        }
    }

    /// Stacks a zero-width character on the cell, after those already there.
    pub fn push_zerowidth(&mut self, c: char)
        ensures
            final(self)@ == (CellView { zerowidth: old(self)@.zerowidth.push(c), ..old(self)@ }),
    {
        self.zerowidth.push(c);
    }

    pub fn with_style(self, style: CellStyle) -> (c: Self)
        ensures
            c@ == (CellView { style, ..self@ }),
    {
        let mut cell = self;
        cell.style = style;
        cell
    }

    pub fn with_hyperlink(self, hyperlink: Option<Hyperlink>) -> (c: Self)
        ensures
            c@ == (CellView { hyperlink: link_view(hyperlink), ..self@ }),
    {
        let mut cell = self;
        cell.hyperlink = hyperlink;
        cell
    }
}

} // verus!
