//! Colour values: what a shaded ray yields, and what a frame stores.
use vstd::prelude::*;

verus! {

/// Alpha of a fully opaque pixel.
pub const OPAQUE: u8 = 255;

/// A quantised colour, one byte per channel.
#[derive(Clone, Copy, Debug, PartialEq, Eq, Structural)]
pub struct Rgb {
    pub r: u8,
    pub g: u8,
    pub b: u8,
}

/// One pixel as a frame stores it: red, green, blue, alpha.
#[derive(Clone, Copy, Debug, PartialEq, Eq, Structural)]
pub struct Rgba {
    pub r: u8,
    pub g: u8,
    pub b: u8,
    pub a: u8,
}

impl Rgba {
    /// The colour `c` with full opacity.
    pub open spec fn spec_opaque(c: Rgb) -> Rgba {
        Rgba { r: c.r, g: c.g, b: c.b, a: OPAQUE }
    }

    /// What a ray that hits nothing leaves behind: opaque black.
    pub open spec fn spec_background() -> Rgba {
        Rgba { r: 0, g: 0, b: 0, a: OPAQUE }
    }

    /// The pixel for one shading outcome: the background for a miss, the
    /// colour made opaque for a hit.
    pub open spec fn spec_from_shade(shade: Option<Rgb>) -> Rgba {
        match shade {
            Some(c) => Rgba::spec_opaque(c),
            None => Rgba::spec_background(),
        }
    }

    /// Channel `c` of the pixel in storage order: red, green, blue, alpha.
    pub open spec fn channel(self, c: int) -> u8 {
        if c == 0 {
            self.r
        } else if c == 1 {
            self.g
        } else if c == 2 {
            self.b
        } else {
            self.a
        }
    }

    #[verifier::when_used_as_spec(spec_opaque)]
    pub fn opaque(c: Rgb) -> (p: Rgba)
        ensures
            p == Rgba::spec_opaque(c),
    {
        Rgba { r: c.r, g: c.g, b: c.b, a: OPAQUE }
    }

    #[verifier::when_used_as_spec(spec_background)]
    pub fn background() -> (p: Rgba)
        ensures
            p == Rgba::spec_background(),
    {
        Rgba { r: 0, g: 0, b: 0, a: OPAQUE }
    }

    #[verifier::when_used_as_spec(spec_from_shade)]
    pub fn from_shade(shade: Option<Rgb>) -> (p: Rgba)
        ensures
            p == Rgba::spec_from_shade(shade),
    {
        match shade {
            Some(c) => Rgba::opaque(c),
            None => Rgba::background(),
        }
    }
}

/// Whatever was shaded, the pixel that comes of it is opaque.
pub proof fn lemma_shaded_pixel_is_opaque(shade: Option<Rgb>)
    ensures
        Rgba::spec_from_shade(shade).a == OPAQUE,
{
}

} // verus!
