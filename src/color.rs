//! Colors given as a name or as hex notation, for highlighting elements.

use vstd::prelude::*;
use vstd::string::*;
use crate::text::{lower_of, lowercase};
use crate::sites::{trimmed_of, trim_text};

verus! {

/// The alpha of a color given without one: half transparent.
pub const DEFAULT_ALPHA: u8 = 128;

/// The value of a hex digit, or -1 for any other character.
pub open spec fn hex_digit(c: char) -> int {
    if '0' <= c && c <= '9' {
        c as int - '0' as int
    } else if 'a' <= c && c <= 'f' {
        c as int - 'a' as int + 10
    } else if 'A' <= c && c <= 'F' {
        c as int - 'A' as int + 10
    } else {
        -1
    }
}

/// A one-digit channel, scaled to a byte (`f` is 255), or -1.
pub open spec fn short_channel(c: char) -> int {
    if hex_digit(c) < 0 {
        -1
    } else {
        hex_digit(c) * 17
    }
}

/// A two-digit channel, or -1; as in unsigned hex parsing, a leading `+`
/// is allowed.
pub open spec fn long_channel(a: char, b: char) -> int {
    if a == '+' {
        hex_digit(b)
    } else if hex_digit(a) < 0 || hex_digit(b) < 0 {
        -1
    } else {
        hex_digit(a) * 16 + hex_digit(b)
    }
}

/// The color that hex digits (after the `#`) give, if they give one.
pub open spec fn hex_color(h: Seq<char>) -> Option<(u8, u8, u8, u8)> {
    if h.len() == 3 && short_channel(h[0]) >= 0 && short_channel(h[1]) >= 0 && short_channel(h[2])
        >= 0 {
        Some(
            (
                short_channel(h[0]) as u8,
                short_channel(h[1]) as u8,
                short_channel(h[2]) as u8,
                DEFAULT_ALPHA,
            ),
        )
    } else if h.len() == 4 && short_channel(h[0]) >= 0 && short_channel(h[1]) >= 0
        && short_channel(h[2]) >= 0 && short_channel(h[3]) >= 0 {
        Some(
            (
                short_channel(h[0]) as u8,
                short_channel(h[1]) as u8,
                short_channel(h[2]) as u8,
                short_channel(h[3]) as u8,
            ),
        )
    } else if h.len() == 6 && long_channel(h[0], h[1]) >= 0 && long_channel(h[2], h[3]) >= 0
        && long_channel(h[4], h[5]) >= 0 {
        Some(
            (
                long_channel(h[0], h[1]) as u8,
                long_channel(h[2], h[3]) as u8,
                long_channel(h[4], h[5]) as u8,
                DEFAULT_ALPHA,
            ),
        )
    } else if h.len() == 8 && long_channel(h[0], h[1]) >= 0 && long_channel(h[2], h[3]) >= 0
        && long_channel(h[4], h[5]) >= 0 && long_channel(h[6], h[7]) >= 0 {
        Some(
            (
                long_channel(h[0], h[1]) as u8,
                long_channel(h[2], h[3]) as u8,
                long_channel(h[4], h[5]) as u8,
                long_channel(h[6], h[7]) as u8,
            ),
        )
    } else {
        None
    }
}

/// The color a normalized (trimmed, lowercased) name or hex notation gives.
pub open spec fn color_of(c: Seq<char>) -> Option<(u8, u8, u8, u8)> {
    if c == "red"@ {
        Some((255u8, 0u8, 0u8, DEFAULT_ALPHA))
    } else if c == "green"@ {
        Some((0u8, 255u8, 0u8, DEFAULT_ALPHA))
    } else if c == "blue"@ {
        Some((0u8, 0u8, 255u8, DEFAULT_ALPHA))
    } else if c == "yellow"@ {
        Some((255u8, 255u8, 0u8, DEFAULT_ALPHA))
    } else if c == "orange"@ {
        Some((255u8, 165u8, 0u8, DEFAULT_ALPHA))
    } else if c == "purple"@ {
        Some((128u8, 0u8, 128u8, DEFAULT_ALPHA))
    } else if c == "pink"@ {
        Some((255u8, 192u8, 203u8, DEFAULT_ALPHA))
    } else if c == "cyan"@ {
        Some((0u8, 255u8, 255u8, DEFAULT_ALPHA))
    } else if c.len() > 0 && c[0] == '#' {
        hex_color(c.skip(1))
    } else {
        None
    }
}

fn digit(c: char) -> (r: i32)
    ensures
        r == hex_digit(c),
{
    if '0' <= c && c <= '9' {
        (c as u32 - '0' as u32) as i32
    } else if 'a' <= c && c <= 'f' {
        (c as u32 - 'a' as u32 + 10) as i32
    } else if 'A' <= c && c <= 'F' {
        (c as u32 - 'A' as u32 + 10) as i32
    } else {
        -1
    }
}

fn short(c: char) -> (r: i32)
    ensures
        r == short_channel(c),
        -1 <= r <= 255,
{
    let d = digit(c);
    if d < 0 {
        -1
    } else {
        d * 17
    }
}

fn long(a: char, b: char) -> (r: i32)
    ensures
        r == long_channel(a, b),
        -1 <= r <= 255,
{
    if a == '+' {
        digit(b)
    } else {
        let x = digit(a);
        let y = digit(b);
        if x < 0 || y < 0 {
            -1
        } else {
            x * 16 + y
        }
    }
}

/// Reads hex digits (after the `#`).
pub fn parse_hex_color(h: &str) -> (r: Option<(u8, u8, u8, u8)>)
    ensures
        r == hex_color(h@),
{
    let n = h.unicode_len();
    if n == 3 || n == 4 {
        let r = short(h.get_char(0));
        let g = short(h.get_char(1));
        let b = short(h.get_char(2));
        let a = if n == 4 {
            short(h.get_char(3))
        } else {
            DEFAULT_ALPHA as i32
        };
        if r < 0 || g < 0 || b < 0 || a < 0 {
            None
        } else {
            Some((r as u8, g as u8, b as u8, a as u8))
        }
    } else if n == 6 || n == 8 {
        let r = long(h.get_char(0), h.get_char(1));
        let g = long(h.get_char(2), h.get_char(3));
        let b = long(h.get_char(4), h.get_char(5));
        let a = if n == 8 {
            long(h.get_char(6), h.get_char(7))
        } else {
            DEFAULT_ALPHA as i32
        };
        if r < 0 || g < 0 || b < 0 || a < 0 {
            None
        } else {
            Some((r as u8, g as u8, b as u8, a as u8))
        }
    } else {
        None
    }
}

/// Reads a color name or hex notation that is already trimmed and lowercased.
pub fn parse_normalized_color(c: &str) -> (r: Option<(u8, u8, u8, u8)>)
    ensures
        r == color_of(c@),
{
    if crate::text::text_eq(c, "red") {
        Some((255, 0, 0, DEFAULT_ALPHA))
    } else if crate::text::text_eq(c, "green") {
        Some((0, 255, 0, DEFAULT_ALPHA))
    } else if crate::text::text_eq(c, "blue") {
        Some((0, 0, 255, DEFAULT_ALPHA))
    } else if crate::text::text_eq(c, "yellow") {
        Some((255, 255, 0, DEFAULT_ALPHA))
    } else if crate::text::text_eq(c, "orange") {
        Some((255, 165, 0, DEFAULT_ALPHA))
    } else if crate::text::text_eq(c, "purple") {
        Some((128, 0, 128, DEFAULT_ALPHA))
    } else if crate::text::text_eq(c, "pink") {
        Some((255, 192, 203, DEFAULT_ALPHA))
    } else if crate::text::text_eq(c, "cyan") {
        Some((0, 255, 255, DEFAULT_ALPHA))
    } else if c.unicode_len() > 0 && c.get_char(0) == '#' {
        let hex = c.substring_char(1, c.unicode_len());
        assert(hex@ =~= c@.skip(1));
        parse_hex_color(hex)
    } else {
        None
    }
}

/// Reads a color name (`red`, `green`, `blue`, `yellow`, `orange`, `purple`,
/// `pink`, `cyan`) or hex notation (`#rgb`, `#rgba`, `#rrggbb`, `#rrggbbaa`),
/// ignoring surrounding whitespace and case. Without an alpha the color is
/// half transparent.
pub fn parse_color(color: &str) -> (r: Option<(u8, u8, u8, u8)>)
    ensures
        r == color_of(lower_of(trimmed_of(color@))),
{
    let lowered = lowercase(trim_text(color));
    parse_normalized_color(lowered.as_str())
}

} // verus!
