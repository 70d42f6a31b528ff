use vstd::prelude::*;

verus! {

/// A premultiplied sRGBA color with one byte per channel.
#[derive(Clone, Copy, Debug, PartialEq, Eq, Structural)]
pub struct Color32 {
    pub r: u8,
    pub g: u8,
    pub b: u8,
    pub a: u8,
}

/// Fully transparent: every channel zero.
pub open spec fn spec_transparent() -> Color32 {
    Color32 { r: 0, g: 0, b: 0, a: 0 }
}

impl Color32 {
    /// Black with opacity `a`.
    pub open spec fn spec_black_alpha(a: u8) -> Color32 {
        Color32 { r: 0, g: 0, b: 0, a }
    }

    /// Black with the given opacity (premultiplied, so the color channels stay zero).
    pub fn from_black_alpha(a: u8) -> (c: Color32)
        ensures
            c == Color32::spec_black_alpha(a),
    {
        Color32 { r: 0, g: 0, b: 0, a }
    }

    /// The fully transparent color.
    pub fn transparent() -> (c: Color32)
        ensures
            c == spec_transparent(),
    {
        Color32 { r: 0, g: 0, b: 0, a: 0 }
    }
}

impl Default for Color32 {
    fn default() -> (c: Color32)
        ensures
            c == spec_transparent(),
    {
        Color32 { r: 0, g: 0, b: 0, a: 0 }
    }
}

} // verus!
