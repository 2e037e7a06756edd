use vstd::prelude::*;

verus! {

/// The four shades a pixel can take; a pixel's colour index is two bits.
#[derive(Debug, PartialEq, Eq, Clone, Copy, Structural)]
pub enum Color {
    White,
    LightGray,
    DarkGray,
    Black,
}

/// The colour a 2-bit index names.
pub open spec fn spec_color_from_bits(v: u8) -> Color {
    if v == 0 {
        Color::White
    } else if v == 1 {
        Color::LightGray
    } else if v == 2 {
        Color::DarkGray
    } else {
        Color::Black
    }
}

/// The fixed RGBA quadruple of each shade, as the presenter draws it.
pub open spec fn spec_color_rgba(c: Color) -> [u8; 4] {
    match c {
        Color::White => [255u8, 255u8, 255u8, 255u8],
        Color::LightGray => [0u8, 255u8, 0u8, 255u8],
        Color::DarkGray => [255u8, 0u8, 0u8, 255u8],
        Color::Black => [0u8, 0u8, 255u8, 255u8],
    }
}

impl Color {
    pub fn to_rgba(&self) -> (r: [u8; 4])
        ensures
            r == spec_color_rgba(*self),
    {
        match self {
            Color::White => [255, 255, 255, 255],
            Color::LightGray => [0, 255, 0, 255],
            Color::DarkGray => [255, 0, 0, 255],
            Color::Black => [0, 0, 255, 255],
        }
    }

    /// The colour of a 2-bit index; larger values name no colour.
    pub fn from_bits(v: u8) -> (r: Color)
        requires
            v < 4,
        ensures
            r == spec_color_from_bits(v),
    {
        match v {
            0 => Color::White,
            1 => Color::LightGray,
            2 => Color::DarkGray,
            _ => Color::Black,
        }
    }
}

/// A palette register read as four colours, two bits each from the low pair
/// upwards.
pub struct Palette {
    pub id_zero: Color,
    pub id_one: Color,
    pub id_two: Color,
    pub id_three: Color,
}

pub fn get_palette(palette_register: u8) -> (r: Palette)
    ensures
        r.id_zero == spec_color_from_bits(palette_register & 0x03),
        r.id_one == spec_color_from_bits((palette_register >> 2) & 0x03),
        r.id_two == spec_color_from_bits((palette_register >> 4) & 0x03),
        r.id_three == spec_color_from_bits((palette_register >> 6) & 0x03),
{
    proof {
        crate::cpu::register::lemma_mask_literals();
    }
    Palette {
        id_zero: Color::from_bits(palette_register & 0x03),
        id_one: Color::from_bits((palette_register >> 2) & 0x03),
        id_two: Color::from_bits((palette_register >> 4) & 0x03),
        id_three: Color::from_bits((palette_register >> 6) & 0x03),
    }
}

} // verus!
