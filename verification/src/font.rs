//! The marquee font: upright 5x7 glyphs for the printable ASCII range up to
//! the backtick, small letters being shown as capitals.

use vstd::prelude::*;

verus! {

/// Five columns per glyph, the lowest bit of a column being its top pixel.
pub const FONT: [u8; 325] = [
    0x00, 0x00, 0x00, 0x00, 0x00, // 32 space
    0x00, 0x00, 0x4f, 0x00, 0x00, // 33 !
    0x00, 0x07, 0x00, 0x07, 0x00, // 34 "
    0x14, 0x7f, 0x14, 0x7f, 0x14, // 35 #
    0x24, 0x2a, 0x7f, 0x2a, 0x12, // 36 $
    0x23, 0x13, 0x08, 0x64, 0x62, // 37 %
    0x36, 0x49, 0x55, 0x22, 0x50, // 38 &
    0x00, 0x05, 0x03, 0x00, 0x00, // 39 '
    0x00, 0x1c, 0x22, 0x41, 0x00, // 40 (
    0x00, 0x41, 0x22, 0x1c, 0x00, // 41 )
    0x14, 0x08, 0x3e, 0x08, 0x14, // 42 *
    0x08, 0x08, 0x3e, 0x08, 0x08, // 43 +
    0x00, 0x50, 0x30, 0x00, 0x00, // 44 ,
    0x08, 0x08, 0x08, 0x08, 0x08, // 45 -
    0x00, 0x60, 0x60, 0x00, 0x00, // 46 .
    0x20, 0x10, 0x08, 0x04, 0x02, // 47 /
    0x3e, 0x51, 0x49, 0x45, 0x3e, // 48 0
    0x00, 0x42, 0x7f, 0x40, 0x00, // 49 1
    0x42, 0x61, 0x51, 0x49, 0x46, // 50 2
    0x21, 0x41, 0x45, 0x4b, 0x31, // 51 3
    0x18, 0x14, 0x12, 0x7f, 0x10, // 52 4
    0x27, 0x45, 0x45, 0x45, 0x39, // 53 5
    0x3c, 0x4a, 0x49, 0x49, 0x30, // 54 6
    0x01, 0x71, 0x09, 0x05, 0x03, // 55 7
    0x36, 0x49, 0x49, 0x49, 0x36, // 56 8
    0x06, 0x49, 0x49, 0x29, 0x1e, // 57 9
    0x00, 0x36, 0x36, 0x00, 0x00, // 58 :
    0x00, 0x56, 0x36, 0x00, 0x00, // 59 ;
    0x08, 0x14, 0x22, 0x41, 0x00, // 60 <
    0x14, 0x14, 0x14, 0x14, 0x14, // 61 =
    0x00, 0x41, 0x22, 0x14, 0x08, // 62 >
    0x02, 0x01, 0x51, 0x09, 0x06, // 63 ?
    0x32, 0x49, 0x79, 0x41, 0x3e, // 64 @
    0x7e, 0x11, 0x11, 0x11, 0x7e, // 65 A
    0x7f, 0x49, 0x49, 0x49, 0x36, // 66 B
    0x3e, 0x41, 0x41, 0x41, 0x22, // 67 C
    0x7f, 0x41, 0x41, 0x22, 0x1c, // 68 D
    0x7f, 0x49, 0x49, 0x49, 0x41, // 69 E
    0x7f, 0x09, 0x09, 0x09, 0x01, // 70 F
    0x3e, 0x41, 0x49, 0x49, 0x7a, // 71 G
    0x7f, 0x08, 0x08, 0x08, 0x7f, // 72 H
    0x00, 0x41, 0x7f, 0x41, 0x00, // 73 I
    0x20, 0x40, 0x41, 0x3f, 0x01, // 74 J
    0x7f, 0x08, 0x14, 0x22, 0x41, // 75 K
    0x7f, 0x40, 0x40, 0x40, 0x40, // 76 L
    0x7f, 0x02, 0x0c, 0x02, 0x7f, // 77 M
    0x7f, 0x04, 0x08, 0x10, 0x7f, // 78 N
    0x3e, 0x41, 0x41, 0x41, 0x3e, // 79 O
    0x7f, 0x09, 0x09, 0x09, 0x06, // 80 P
    0x3e, 0x41, 0x51, 0x21, 0x5e, // 81 Q
    0x7f, 0x09, 0x19, 0x29, 0x46, // 82 R
    0x46, 0x49, 0x49, 0x49, 0x31, // 83 S
    0x01, 0x01, 0x7f, 0x01, 0x01, // 84 T
    0x3f, 0x40, 0x40, 0x40, 0x3f, // 85 U
    0x1f, 0x20, 0x40, 0x20, 0x1f, // 86 V
    0x3f, 0x40, 0x38, 0x40, 0x3f, // 87 W
    0x63, 0x14, 0x08, 0x14, 0x63, // 88 X
    0x07, 0x08, 0x70, 0x08, 0x07, // 89 Y
    0x61, 0x51, 0x49, 0x45, 0x43, // 90 Z
    0x00, 0x7f, 0x41, 0x41, 0x00, // 91 [
    0x02, 0x04, 0x08, 0x10, 0x20, // 92 backslash
    0x00, 0x41, 0x41, 0x7f, 0x00, // 93 ]
    0x04, 0x02, 0x01, 0x02, 0x04, // 94 ^
    0x40, 0x40, 0x40, 0x40, 0x40, // 95 _
    0x00, 0x01, 0x02, 0x04, 0x00, // 96 `
];

/// First character that has a glyph.
pub const FONT_FIRST: u8 = 32;

/// Columns of a glyph.
pub const GLYPH_COLUMNS: usize = 5;

/// Rows of a glyph.
pub const GLYPH_ROWS: usize = 7;

/// The character whose glyph is shown for a byte of text: small letters become
/// capitals, and whatever has no glyph becomes a space.
pub open spec fn shown_as(c: u8) -> u8 {
    if 97 <= c <= 122 {
        (c - 32) as u8
    } else if 32 <= c < 97 {
        c
    } else {
        32
    }
}

/// Whether the glyph shown for a byte of text lights the pixel in the given
/// column and row.
pub open spec fn glyph_pixel(c: u8, column: int, row: int) -> bool {
    &&& 0 <= column < GLYPH_COLUMNS
    &&& 0 <= row < GLYPH_ROWS
    &&& FONT@[(shown_as(c) - FONT_FIRST) * GLYPH_COLUMNS + column] & (1u8 << (row as u8)) != 0
}

/// Map a byte to a character that has a glyph, upper-casing small letters and
/// substituting a space for anything out of range.
pub fn normalize_char(c: u8) -> (shown: u8)
    ensures
        shown == shown_as(c),
        32 <= shown <= 96,
{
    let mut c: u8 = c;
    if 97 <= c && c <= 122 {
        c = c - 32;
    }
    if !(32 <= c && c < 97) {
        c = 32;
    }
    c
}

/// Whether the glyph for a byte of text lights a pixel.
pub fn glyph_lights(c: u8, column: usize, row: usize) -> (lit: bool)
    requires
        column < GLYPH_COLUMNS,
        row < GLYPH_ROWS,
    ensures
        lit == glyph_pixel(c, column as int, row as int),
{
    let shown: u8 = normalize_char(c);
    let bits: u8 = FONT[(shown - FONT_FIRST) as usize * GLYPH_COLUMNS + column];
    bits & (1u8 << (row as u8)) != 0
}

/// Which glyph a byte of text is drawn with: printable characters up to the
/// backtick with their own, counted from the space on, small letters with that
/// of the capital, and everything else with that of the space.
pub proof fn every_byte_has_its_glyph(c: u8, column: int, row: int)
    requires
        0 <= column < 5,
        0 <= row < 7,
    ensures
        32 <= c <= 96 ==> glyph_pixel(c, column, row) == (FONT@[(c - 32) * 5 + column] & (1u8 << (
        row as u8)) != 0),
        97 <= c <= 122 ==> glyph_pixel(c, column, row) == glyph_pixel((c - 32) as u8, column, row),
        c < 32 || c > 122 ==> glyph_pixel(c, column, row) == glyph_pixel(32, column, row),
{
}

/// Glyphs stand upright and are not mirrored: an L has its stem on the left and
/// its foot at the bottom, a T its bar at the top and its stem in the middle, an H
/// two stems with the bar halfway between; brackets and strokes that come in pairs
/// are mirror images of each other, an underscore lies at the bottom, and a space
/// is blank.
pub proof fn glyphs_stand_upright(column: int, row: int)
    requires
        0 <= column < 5,
        0 <= row < 7,
    ensures
        !glyph_pixel(32, column, row),
        glyph_pixel(76, column, row) <==> row == 6 || column == 0,
        glyph_pixel(84, column, row) <==> row == 0 || column == 2,
        glyph_pixel(72, column, row) <==> row == 3 || column == 0 || column == 4,
        glyph_pixel(95, column, row) <==> row == 6,
        glyph_pixel(40, column, row) == glyph_pixel(41, 4 - column, row),
        glyph_pixel(47, column, row) == glyph_pixel(92, 4 - column, row),
        glyph_pixel(91, column, row) == glyph_pixel(93, 4 - column, row),
{
    let r = row as u8;
    assert(0u8 & (1u8 << r) == 0) by (bit_vector);
    assert(0x7fu8 & (1u8 << r) != 0) by (bit_vector)
        requires
            r < 7,
    ;
    assert(0x40u8 & (1u8 << r) != 0 <==> r == 6) by (bit_vector)
        requires
            r < 7,
    ;
    assert(0x01u8 & (1u8 << r) != 0 <==> r == 0) by (bit_vector)
        requires
            r < 7,
    ;
    assert(0x08u8 & (1u8 << r) != 0 <==> r == 3) by (bit_vector)
        requires
            r < 7,
    ;
}

} // verus!
