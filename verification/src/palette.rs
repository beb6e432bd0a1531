//! The colours of the 256-entry palette, and the colours in which an
//! attribute is drawn.
//!
//! Colours are 24-bit values, `0xRRGGBB`.

use vstd::prelude::*;
use crate::cell::{Attribute, Color};

verus! {

/// Packs red, green and blue into one value.
pub open spec fn pack(red: int, green: int, blue: int) -> int {
    red * 0x10000 + green * 0x100 + blue
}

/// The 16 named colours: 8 normal ones and their bright variants.
pub open spec fn named(index: int) -> int {
    if index == 0 {
        0x000000
    } else if index == 1 {
        0xcd0000
    } else if index == 2 {
        0x00cd00
    } else if index == 3 {
        0xcdcd00
    } else if index == 4 {
        0x0000ee
    } else if index == 5 {
        0xcd00cd
    } else if index == 6 {
        0x00cdcd
    } else if index == 7 {
        0xe5e5e5
    } else if index == 8 {
        0x7f7f7f
    } else if index == 9 {
        0xff0000
    } else if index == 10 {
        0x00ff00
    } else if index == 11 {
        0xffff00
    } else if index == 12 {
        0x5c5cff
    } else if index == 13 {
        0xff00ff
    } else if index == 14 {
        0x00ffff
    } else {
        0xffffff
    }
}

/// The intensity of step `v` (0 to 5) of one axis of the colour cube.
pub open spec fn cube_level(v: int) -> int {
    if v == 0 {
        0
    } else {
        55 + 40 * v
    }
}

/// The colour of a palette entry: the entries 0 to 15 are the named colours,
/// 16 to 231 a cube of 6 steps of red, green and blue, and 232 to 255 a ramp
/// of 24 greys.
pub open spec fn entry(index: int) -> int {
    if index < 16 {
        named(index)
    } else if index < 232 {
        let n = index - 16;
        pack(cube_level(n / 36), cube_level((n / 6) % 6), cube_level(n % 6))
    } else {
        let grey = 8 + 10 * (index - 232);
        pack(grey, grey, grey)
    }
}

/// The value of a colour, `default` standing for the renderer's default.
pub open spec fn value(color: Color, default: u32) -> int {
    match color {
        Color::Default => default as int,
        Color::Indexed(index) => entry(index as int),
        Color::Rgb(red, green, blue) => pack(red as int, green as int, blue as int),
    }
}

fn named_color(index: u8) -> (color: u32)
    requires
        index < 16,
    ensures
        color == named(index as int),
{
    if index == 0 {
        0x000000
    } else if index == 1 {
        0xcd0000
    } else if index == 2 {
        0x00cd00
    } else if index == 3 {
        0xcdcd00
    } else if index == 4 {
        0x0000ee
    } else if index == 5 {
        0xcd00cd
    } else if index == 6 {
        0x00cdcd
    } else if index == 7 {
        0xe5e5e5
    } else if index == 8 {
        0x7f7f7f
    } else if index == 9 {
        0xff0000
    } else if index == 10 {
        0x00ff00
    } else if index == 11 {
        0xffff00
    } else if index == 12 {
        0x5c5cff
    } else if index == 13 {
        0xff00ff
    } else if index == 14 {
        0x00ffff
    } else {
        0xffffff
    }
}

fn level(v: u32) -> (intensity: u32)
    requires
        v < 6,
    ensures
        intensity == cube_level(v as int),
        intensity <= 255,
{
    if v == 0 {
        0
    } else {
        55 + 40 * v
    }
}

fn packed(red: u32, green: u32, blue: u32) -> (color: u32)
    requires
        red <= 255,
        green <= 255,
        blue <= 255,
    ensures
        color == pack(red as int, green as int, blue as int),
        color <= 0xffffff,
{
    red * 0x10000 + green * 0x100 + blue
}

/// The colour of the palette entry `index`.
pub fn palette(index: u8) -> (color: u32)
    ensures
        color == entry(index as int),
        color <= 0xffffff,
{
    if index < 16 {
        named_color(index)
    } else if index < 232 {
        let n: u32 = (index - 16) as u32;
        packed(level(n / 36), level((n / 6) % 6), level(n % 6))
    } else {
        let grey: u32 = 8 + 10 * (index - 232) as u32;
        packed(grey, grey, grey)
    }
}

/// The value of `color`, with `default` for the renderer's default colour.
pub fn resolve(color: Color, default: u32) -> (resolved: u32)
    ensures
        resolved == value(color, default),
{
    match color {
        Color::Default => default,
        Color::Indexed(index) => palette(index),
        Color::Rgb(red, green, blue) => packed(red as u32, green as u32, blue as u32),
    }
}

/// The foreground and the background in which `attribute` is drawn: its
/// colours, exchanged if it is inverse.
pub fn colors(attribute: &Attribute, default_foreground: u32, default_background: u32) -> (pair: (
    u32,
    u32,
))
    ensures
        !attribute.inverse ==> pair.0 == value(attribute.foreground, default_foreground) && pair.1
            == value(attribute.background, default_background),
        attribute.inverse ==> pair.0 == value(attribute.background, default_background) && pair.1
            == value(attribute.foreground, default_foreground),
{
    let foreground = resolve(attribute.foreground, default_foreground);
    let background = resolve(attribute.background, default_background);
    if attribute.inverse {
        (background, foreground)
    } else {
        (foreground, background)
    }
}

} // verus!
