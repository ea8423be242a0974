//! The built-in font: 16 glyphs (hexadecimal digits 0-F), 5 bytes each,
//! preloaded at the bottom of RAM so that programs can draw digits with the
//! `Fx29` glyph-address instruction.

use vstd::prelude::*;

verus! {

/// Number of bytes in the font sprite set: 16 glyphs of 5 rows each.
pub const FONT_SET_LEN: usize = 80;

/// The font sprite rows, glyph by glyph: `font_seq()[5 * g + r]` is row `r`
/// of the glyph for hexadecimal digit `g`.
pub open spec fn font_seq() -> Seq<u8> {
    seq![
        0xF0u8, 0x90, 0x90, 0x90, 0xF0, // 0
        0x20, 0x60, 0x20, 0x20, 0x70, // 1
        0xF0, 0x10, 0xF0, 0x80, 0xF0, // 2
        0xF0, 0x10, 0xF0, 0x10, 0xF0, // 3
        0x90, 0x90, 0xF0, 0x10, 0x10, // 4
        0xF0, 0x80, 0xF0, 0x10, 0xF0, // 5
        0xF0, 0x80, 0xF0, 0x90, 0xF0, // 6
        0xF0, 0x10, 0x20, 0x40, 0x40, // 7
        0xF0, 0x90, 0xF0, 0x90, 0xF0, // 8
        0xF0, 0x90, 0xF0, 0x10, 0xF0, // 9
        0xF0, 0x90, 0xF0, 0x90, 0x90, // A
        0xE0, 0x90, 0xE0, 0x90, 0xE0, // B
        0xF0, 0x80, 0x80, 0x80, 0xF0, // C
        0xE0, 0x90, 0x90, 0x90, 0xE0, // D
        0xF0, 0x80, 0xF0, 0x80, 0xF0, // E
        0xF0, 0x80, 0xF0, 0x80, 0x80, // F
    ]
}

/// Appends the five rows of one glyph.
fn push_glyph(out: &mut Vec<u8>, r0: u8, r1: u8, r2: u8, r3: u8, r4: u8)
    ensures
        final(out)@ == old(out)@ + seq![r0, r1, r2, r3, r4],
{
    out.push(r0);
    out.push(r1);
    out.push(r2);
    out.push(r3);
    out.push(r4);
    assert(out@ =~= old(out)@ + seq![r0, r1, r2, r3, r4]);
}

/// Builds the font sprite set as bytes.
pub fn font_bytes() -> (out: Vec<u8>)
    ensures
        out@ == font_seq(),
        out@.len() == FONT_SET_LEN,
{
    let mut out: Vec<u8> = Vec::new();
    push_glyph(&mut out, 0xF0, 0x90, 0x90, 0x90, 0xF0);
    push_glyph(&mut out, 0x20, 0x60, 0x20, 0x20, 0x70);
    push_glyph(&mut out, 0xF0, 0x10, 0xF0, 0x80, 0xF0);
    push_glyph(&mut out, 0xF0, 0x10, 0xF0, 0x10, 0xF0);
    push_glyph(&mut out, 0x90, 0x90, 0xF0, 0x10, 0x10);
    push_glyph(&mut out, 0xF0, 0x80, 0xF0, 0x10, 0xF0);
    push_glyph(&mut out, 0xF0, 0x80, 0xF0, 0x90, 0xF0);
    push_glyph(&mut out, 0xF0, 0x10, 0x20, 0x40, 0x40);
    push_glyph(&mut out, 0xF0, 0x90, 0xF0, 0x90, 0xF0);
    push_glyph(&mut out, 0xF0, 0x90, 0xF0, 0x10, 0xF0);
    push_glyph(&mut out, 0xF0, 0x90, 0xF0, 0x90, 0x90);
    push_glyph(&mut out, 0xE0, 0x90, 0xE0, 0x90, 0xE0);
    push_glyph(&mut out, 0xF0, 0x80, 0x80, 0x80, 0xF0);
    push_glyph(&mut out, 0xE0, 0x90, 0x90, 0x90, 0xE0);
    push_glyph(&mut out, 0xF0, 0x80, 0xF0, 0x80, 0xF0);
    push_glyph(&mut out, 0xF0, 0x80, 0xF0, 0x80, 0x80);
    assert(out@ =~= font_seq());
    out
}

} // verus!
