//! Parsing of `#RRGGBB` hex color strings into an (r, g, b) triple.
//!
//! Each two-digit component is read independently; a component that is not
//! two hex digits yields 0 for that channel rather than failing the whole
//! parse. The input must hold at least seven characters: shorter input is
//! the caller's error to report.

use vstd::prelude::*;

verus! {

/// A character that stands for a base-16 digit: `0-9`, `a-f` or `A-F`.
pub open spec fn is_hex_digit(c: char) -> bool {
    let x: int = c as int;
    (48 <= x && x <= 57) || (97 <= x && x <= 102) || (65 <= x && x <= 70)
}

/// The numeric value of a hexadecimal digit character, in 0..16.
pub open spec fn hex_digit_val(c: char) -> int {
    let x: int = c as int;
    if 48 <= x && x <= 57 {
        x - 48
    } else if 97 <= x && x <= 102 {
        x - 87
    } else {
        x - 55
    }
}

/// The value of one two-digit color component: `16 * high + low` when both
/// characters are hex digits, and 0 otherwise.
pub open spec fn component_val(hi: char, lo: char) -> int {
    if is_hex_digit(hi) && is_hex_digit(lo) {
        16 * hex_digit_val(hi) + hex_digit_val(lo)
    } else {
        0
    }
}

/// Looks up the value of a single hexadecimal digit character.
pub fn hex_digit(c: char) -> (r: Option<u8>)
    ensures
        r is Some <==> is_hex_digit(c),
        is_hex_digit(c) ==> r == Some(hex_digit_val(c) as u8),
{
    let x: u32 = c as u32;
    if 48 <= x && x <= 57 {
        Some((x - 48) as u8)
    } else if 97 <= x && x <= 102 {
        Some((x - 87) as u8)
    } else if 65 <= x && x <= 70 {
        Some((x - 55) as u8)
    } else {
        None
    }
}

/// Reads one two-digit color component, yielding 0 unless both characters
/// are hex digits.
pub fn parse_component(hi: char, lo: char) -> (r: u8)
    ensures
        r == component_val(hi, lo),
{
    match (hex_digit(hi), hex_digit(lo)) {
        (Some(h), Some(l)) => 16 * h + l,
        _ => 0,
    }
}

/// Converts a `#RRGGBB` color string into its (red, green, blue) triple.
/// The leading character is ignored; the three components sit at fixed
/// offsets 1..3, 3..5 and 5..7. A malformed component degrades to 0.
pub fn hex_to_rgb(hex: &str) -> (rgb: (u8, u8, u8))
    requires
        hex@.len() >= 7,
    ensures
        rgb.0 == component_val(hex@[1], hex@[2]),
        rgb.1 == component_val(hex@[3], hex@[4]),
        rgb.2 == component_val(hex@[5], hex@[6]),
{
    let r = parse_component(hex.get_char(1), hex.get_char(2));
    let g = parse_component(hex.get_char(3), hex.get_char(4));
    let b = parse_component(hex.get_char(5), hex.get_char(6));
    (r, g, b)
}

} // verus!
