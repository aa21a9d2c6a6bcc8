//! The glyph table: a fixed five-by-five pixel pattern per supported character.
//!
//! Each pattern is packed into the low 25 bits of a `u32`: row 0 occupies the
//! highest five of those bits, and within a row the leftmost column occupies
//! the highest bit. Lookup is total: ASCII lowercase letters share the
//! uppercase glyphs, and every unsupported byte maps to the all-blank pattern.

use vstd::prelude::*;

verus! {

/// Case folding applied before glyph lookup: ASCII lowercase letters are
/// mapped to the corresponding uppercase letters.
pub open spec fn spec_fold_case(c: u8) -> u8 {
    if 97 <= c <= 122 {
        (c - 32) as u8
    } else {
        c
    }
}

/// Packed five-by-five pixel pattern of the glyph for a byte, after case
/// folding; the all-blank pattern for unsupported bytes.
pub open spec fn spec_glyph_bits(c: u8) -> u32 {
    match spec_fold_case(c) {
        65 => 0b01100_10010_11110_10010_10010u32,
        66 => 0b11100_10010_11100_10010_11100u32,
        67 => 0b01110_10000_10000_10000_01110u32,
        68 => 0b11100_10010_10010_10010_11100u32,
        69 => 0b11110_10000_11100_10000_11110u32,
        70 => 0b11110_10000_11100_10000_10000u32,
        71 => 0b01110_10000_10110_10010_01110u32,
        72 => 0b10010_10010_11110_10010_10010u32,
        73 => 0b11100_01000_01000_01000_11100u32,
        74 => 0b00110_00010_00010_10010_01100u32,
        75 => 0b10010_10100_11000_10100_10010u32,
        76 => 0b10000_10000_10000_10000_11110u32,
        77 => 0b10010_11110_11110_10010_10010u32,
        78 => 0b10010_11010_10110_10010_10010u32,
        79 => 0b01100_10010_10010_10010_01100u32,
        80 => 0b11100_10010_11100_10000_10000u32,
        81 => 0b01100_10010_10010_10100_01010u32,
        82 => 0b11100_10010_11100_10100_10010u32,
        83 => 0b01110_10000_01100_00010_11100u32,
        84 => 0b11100_01000_01000_01000_01000u32,
        85 => 0b10010_10010_10010_10010_01100u32,
        86 => 0b10010_10010_10010_01100_01000u32,
        87 => 0b10010_10010_11110_11110_10010u32,
        88 => 0b10010_01100_01000_01100_10010u32,
        89 => 0b10010_10010_01100_01000_01000u32,
        90 => 0b11110_00010_01100_10000_11110u32,
        48 => 0b01100_10010_10010_10010_01100u32,
        49 => 0b01000_11000_01000_01000_11100u32,
        50 => 0b11100_00010_01100_10000_11110u32,
        51 => 0b11100_00010_01100_00010_11100u32,
        52 => 0b00100_01100_10100_11110_00100u32,
        53 => 0b11110_10000_11100_00010_11100u32,
        54 => 0b01100_10000_11100_10010_01100u32,
        55 => 0b11110_00010_00100_01000_01000u32,
        56 => 0b01100_10010_01100_10010_01100u32,
        57 => 0b01100_10010_01110_00010_01100u32,
        33 => 0b01000_01000_01000_00000_01000u32,
        44 => 0b00000_00000_00000_01000_10000u32,
        45 => 0b00000_00000_11110_00000_00000u32,
        46 => 0b00000_00000_00000_00000_01000u32,
        63 => 0b11100_00010_01100_00000_01000u32,
        _ => 0u32,
    }
}

/// Weight of a glyph row inside the packed pattern: row 0 is the highest
/// five-bit group.
pub open spec fn spec_row_weight(row: int) -> u32 {
    if row == 0 {
        0x100000
    } else if row == 1 {
        0x8000
    } else if row == 2 {
        0x400
    } else if row == 3 {
        0x20
    } else {
        1
    }
}

/// Weight of a glyph column inside one five-bit row group: column 0 is the
/// highest bit.
pub open spec fn spec_col_weight(col: int) -> u32 {
    if col == 0 {
        16
    } else if col == 1 {
        8
    } else if col == 2 {
        4
    } else if col == 3 {
        2
    } else {
        1
    }
}

/// The five-bit pattern of one glyph row.
pub open spec fn spec_glyph_row(c: u8, row: int) -> u32 {
    (spec_glyph_bits(c) / spec_row_weight(row)) % 32
}

/// Whether the glyph pixel of byte `c` at glyph-local (row, col) is lit.
pub open spec fn glyph_pixel(c: u8, row: int, col: int) -> bool {
    (spec_glyph_row(c, row) / spec_col_weight(col)) % 2 == 1
}

/// Packed pixel pattern of the glyph for a byte.
pub fn glyph_bits(c: u8) -> (bits: u32)
    ensures
        bits == spec_glyph_bits(c),
{
    let folded: u8 = if 97 <= c && c <= 122 {
        c - 32
    } else {
        c
    };
    match folded {
        65 => 0b01100_10010_11110_10010_10010u32,
        66 => 0b11100_10010_11100_10010_11100u32,
        67 => 0b01110_10000_10000_10000_01110u32,
        68 => 0b11100_10010_10010_10010_11100u32,
        69 => 0b11110_10000_11100_10000_11110u32,
        70 => 0b11110_10000_11100_10000_10000u32,
        71 => 0b01110_10000_10110_10010_01110u32,
        72 => 0b10010_10010_11110_10010_10010u32,
        73 => 0b11100_01000_01000_01000_11100u32,
        74 => 0b00110_00010_00010_10010_01100u32,
        75 => 0b10010_10100_11000_10100_10010u32,
        76 => 0b10000_10000_10000_10000_11110u32,
        77 => 0b10010_11110_11110_10010_10010u32,
        78 => 0b10010_11010_10110_10010_10010u32,
        79 => 0b01100_10010_10010_10010_01100u32,
        80 => 0b11100_10010_11100_10000_10000u32,
        81 => 0b01100_10010_10010_10100_01010u32,
        82 => 0b11100_10010_11100_10100_10010u32,
        83 => 0b01110_10000_01100_00010_11100u32,
        84 => 0b11100_01000_01000_01000_01000u32,
        85 => 0b10010_10010_10010_10010_01100u32,
        86 => 0b10010_10010_10010_01100_01000u32,
        87 => 0b10010_10010_11110_11110_10010u32,
        88 => 0b10010_01100_01000_01100_10010u32,
        89 => 0b10010_10010_01100_01000_01000u32,
        90 => 0b11110_00010_01100_10000_11110u32,
        48 => 0b01100_10010_10010_10010_01100u32,
        49 => 0b01000_11000_01000_01000_11100u32,
        50 => 0b11100_00010_01100_10000_11110u32,
        51 => 0b11100_00010_01100_00010_11100u32,
        52 => 0b00100_01100_10100_11110_00100u32,
        53 => 0b11110_10000_11100_00010_11100u32,
        54 => 0b01100_10000_11100_10010_01100u32,
        55 => 0b11110_00010_00100_01000_01000u32,
        56 => 0b01100_10010_01100_10010_01100u32,
        57 => 0b01100_10010_01110_00010_01100u32,
        33 => 0b01000_01000_01000_00000_01000u32,
        44 => 0b00000_00000_00000_01000_10000u32,
        45 => 0b00000_00000_11110_00000_00000u32,
        46 => 0b00000_00000_00000_00000_01000u32,
        63 => 0b11100_00010_01100_00000_01000u32,
        _ => 0u32,
    }
}

/// Whether the glyph pixel of byte `c` at glyph-local (row, col) is lit.
pub fn glyph_pixel_at(c: u8, row: usize, col: usize) -> (on: bool)
    requires
        row < 5,
        col < 5,
    ensures
        on == glyph_pixel(c, row as int, col as int),
{
    let bits: u32 = glyph_bits(c);
    let row_weight: u32 = if row == 0 {
        0x100000
    } else if row == 1 {
        0x8000
    } else if row == 2 {
        0x400
    } else if row == 3 {
        0x20
    } else {
        1
    };
    let col_weight: u32 = if col == 0 {
        16
    } else if col == 1 {
        8
    } else if col == 2 {
        4
    } else if col == 3 {
        2
    } else {
        1
    };
    let row_bits: u32 = (bits / row_weight) % 32;
    (row_bits / col_weight) % 2 == 1
}

} // verus!
