//! The fixed colors that SGR parameters select: the eight base colors, their
//! bright variants, and the palette of 256 built on them.

use vstd::prelude::*;

use crate::cell::Color;

verus! {

/// Base color `n`; white for a number that names none.
pub open spec fn base_color(n: int) -> Color {
    if n == 0 {
        Color { r: 0, g: 0, b: 0 }
    } else if n == 1 {
        Color { r: 205, g: 49, b: 49 }
    } else if n == 2 {
        Color { r: 13, g: 188, b: 121 }
    } else if n == 3 {
        Color { r: 229, g: 229, b: 16 }
    } else if n == 4 {
        Color { r: 36, g: 114, b: 200 }
    } else if n == 5 {
        Color { r: 188, g: 63, b: 188 }
    } else if n == 6 {
        Color { r: 17, g: 168, b: 205 }
    } else if n == 7 {
        Color { r: 229, g: 229, b: 229 }
    } else {
        Color { r: 255, g: 255, b: 255 }
    }
}

/// Bright color `n`; white for a number that names none.
pub open spec fn bright_color(n: int) -> Color {
    if n == 0 {
        Color { r: 102, g: 102, b: 102 }
    } else if n == 1 {
        Color { r: 241, g: 76, b: 76 }
    } else if n == 2 {
        Color { r: 35, g: 209, b: 139 }
    } else if n == 3 {
        Color { r: 245, g: 245, b: 67 }
    } else if n == 4 {
        Color { r: 59, g: 142, b: 234 }
    } else if n == 5 {
        Color { r: 214, g: 112, b: 214 }
    } else if n == 6 {
        Color { r: 41, g: 184, b: 219 }
    } else {
        Color { r: 255, g: 255, b: 255 }
    }
}

/// The byte for step `level` of a channel of the color cube.
pub open spec fn cube_level(level: int) -> int {
    if level == 0 {
        0
    } else {
        55 + 40 * level
    }
}

/// Color `n` of the palette of 256: the base colors, the bright colors, a
/// cube of six levels per channel, and 24 shades of gray.
pub open spec fn palette_color(n: int) -> Color {
    if n < 8 {
        base_color(n)
    } else if n < 16 {
        bright_color(n - 8)
    } else if n < 232 {
        let k = n - 16;
        Color {
            r: cube_level((k / 36) % 6) as u8,
            g: cube_level((k / 6) % 6) as u8,
            b: cube_level(k % 6) as u8,
        }
    } else {
        let gray = (8 + 10 * (n - 232)) as u8;
        Color { r: gray, g: gray, b: gray }
    }
}

pub fn ansi_color(n: u16) -> (c: Color)
    ensures
        c == base_color(n as int),
{
    if n == 0 {
        Color::new(0, 0, 0)
    } else if n == 1 {
        Color::new(205, 49, 49)
    } else if n == 2 {
        Color::new(13, 188, 121)
    } else if n == 3 {
        Color::new(229, 229, 16)
    } else if n == 4 {
        Color::new(36, 114, 200)
    } else if n == 5 {
        Color::new(188, 63, 188)
    } else if n == 6 {
        Color::new(17, 168, 205)
    } else if n == 7 {
        Color::new(229, 229, 229)
    } else {
        Color::white()
    }
}

pub fn ansi_bright_color(n: u16) -> (c: Color)
    ensures
        c == bright_color(n as int),
{
    if n == 0 {
        Color::new(102, 102, 102)
    } else if n == 1 {
        Color::new(241, 76, 76)
    } else if n == 2 {
        Color::new(35, 209, 139)
    } else if n == 3 {
        Color::new(245, 245, 67)
    } else if n == 4 {
        Color::new(59, 142, 234)
    } else if n == 5 {
        Color::new(214, 112, 214)
    } else if n == 6 {
        Color::new(41, 184, 219)
    } else {
        Color::white()
    }
}

fn cube_byte(level: u8) -> (byte: u8)
    requires
        level < 6,
    ensures
        byte == cube_level(level as int),
{
    if level == 0 {
        0
    } else {
        55 + level * 40
    }
}

pub fn color_256(n: u8) -> (c: Color)
    ensures
        c == palette_color(n as int),
{
    if n < 8 {
        ansi_color(n as u16)
    } else if n < 16 {
        ansi_bright_color((n - 8) as u16)
    } else if n < 232 {
        let k = n - 16;
        Color::new(cube_byte((k / 36) % 6), cube_byte((k / 6) % 6), cube_byte(k % 6))
    } else {
        let gray = 8 + (n - 232) * 10;
        Color::new(gray, gray, gray)
    }
}

} // verus!
