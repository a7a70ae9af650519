use vstd::prelude::*;

verus! {

/// The 24-bit value `0xRRGGBB` of three colour channels.
pub open spec fn rgb_value(r: u8, g: u8, b: u8) -> u32 {
    (r as int * 0x10000 + g as int * 0x100 + b as int) as u32
}

/// A colour packed as `0xRRGGBB`, the layout of a frame buffer pixel.
pub struct Color {
    value: u32,
}

impl View for Color {
    type V = u32;

    closed spec fn view(&self) -> u32 {
        self.value
    }
}

impl Color {
    /// The packed `0xRRGGBB` value.
    pub fn value(&self) -> (r: u32)
        ensures
            r == self@,
    {
        self.value
    }
}

impl From<(u8, u8, u8)> for Color {
    fn from(rgb: (u8, u8, u8)) -> (c: Color)
        ensures
            c@ == rgb_value(rgb.0, rgb.1, rgb.2),
    {
        let (r, g, b) = rgb;
        let value = ((r as u32) << 16u32) | ((g as u32) << 8u32) | (b as u32);
        assert(value == r as u32 * 0x10000 + g as u32 * 0x100 + b as u32) by (bit_vector)
            requires
                value == ((r as u32) << 16u32) | ((g as u32) << 8u32) | (b as u32),
        ;
        Color { value }
    }
}

impl vstd::std_specs::convert::FromSpecImpl<(u8, u8, u8)> for Color {
    open spec fn obeys_from_spec() -> bool {
        true
    }

    closed spec fn from_spec(rgb: (u8, u8, u8)) -> Color {
        Color { value: rgb_value(rgb.0, rgb.1, rgb.2) }
    }
}

} // verus!
