use vstd::prelude::*;

verus! {

/// One RGB pixel of a captured frame, as laid out in the registered buffer.
#[derive(Clone, Copy, Debug, PartialEq, Eq, Structural)]
pub struct Pixel {
    pub r: u8,
    pub g: u8,
    pub b: u8,
}

impl Pixel {
    /// A pixel with the given red, green and blue components.
    pub fn new(r: u8, g: u8, b: u8) -> (p: Self)
        ensures
            p.r == r,
            p.g == g,
            p.b == b,
    {
        Self { r, g, b }
    }
}

impl Default for Pixel {
    /// The black pixel: every component is zero.
    fn default() -> (p: Self)
        ensures
            p.r == 0,
            p.g == 0,
            p.b == 0,
    {
        Self { r: 0, g: 0, b: 0 }
    }
}

} // verus!
