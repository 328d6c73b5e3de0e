use vstd::prelude::*;

verus! {

/// An RGBA colour as the GUI library hands it out.
#[derive(Clone, Copy, Debug, PartialEq, Eq, Structural)]
pub struct Color {
    pub r: u8,
    pub g: u8,
    pub b: u8,
    pub a: u8,
}

/// The GDI `COLORREF` value of a colour: red in the low byte, then green,
/// then blue; alpha is dropped.
pub open spec fn colorref(c: Color) -> u32 {
    (c.r as int + 256 * c.g as int + 65536 * c.b as int) as u32
}

/// Packs a colour into a GDI `COLORREF` (`0x00BBGGRR`).
pub fn convert_color(c: Color) -> (r: u32)
    ensures
        r == colorref(c),
        r == c.r as int + 256 * c.g as int + 65536 * c.b as int,
{
    let r = c.r as u32;
    let g = c.g as u32;
    let b = c.b as u32;
    let v = r | (g << 8) | (b << 16);
    assert(v == r + 256 * g + 65536 * b) by (bit_vector)
        requires
            r < 256,
            g < 256,
            b < 256,
            v == r | (g << 8) | (b << 16),
    ;
    v
}

} // verus!
