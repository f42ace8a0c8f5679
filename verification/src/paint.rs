//! Colours of strokes and fills.
use vstd::prelude::*;

verus! {

/// An RGB colour with an opacity in percent (100 is opaque, 0 invisible).
#[derive(Clone, Copy, Debug, PartialEq, Eq, Structural)]
pub struct Paint {
    pub r: u8,
    pub g: u8,
    pub b: u8,
    pub alpha: u8,
}

/// Number of colours in the palette.
pub const PALETTE_LEN: usize = 8;

/// The red, green and blue channels of palette entry `index`.
pub open spec fn palette_rgb(index: int) -> (u8, u8, u8) {
    if index == 0 {
        (28, 37, 51)
    } else if index == 1 {
        (230, 87, 78)
    } else if index == 2 {
        (240, 177, 76)
    } else if index == 3 {
        (124, 170, 83)
    } else if index == 4 {
        (72, 136, 207)
    } else if index == 5 {
        (110, 116, 130)
    } else if index == 6 {
        (238, 196, 197)
    } else {
        (170, 219, 211)
    }
}

/// Palette entry `index` as an opaque paint.
pub open spec fn spec_palette_color(index: int) -> Paint {
    Paint { r: palette_rgb(index).0, g: palette_rgb(index).1, b: palette_rgb(index).2, alpha: 100 }
}

/// Fully transparent black.
pub open spec fn spec_transparent() -> Paint {
    Paint { r: 0, g: 0, b: 0, alpha: 0 }
}

/// Palette entry `index`, opaque. The palette has eight entries.
pub fn palette_color(index: usize) -> (p: Paint)
    requires
        index < PALETTE_LEN,
    ensures
        p == spec_palette_color(index as int),
{
    let (r, g, b) = match index {
        0 => (28u8, 37u8, 51u8),
        1 => (230u8, 87u8, 78u8),
        2 => (240u8, 177u8, 76u8),
        3 => (124u8, 170u8, 83u8),
        4 => (72u8, 136u8, 207u8),
        5 => (110u8, 116u8, 130u8),
        6 => (238u8, 196u8, 197u8),
        _ => (170u8, 219u8, 211u8),
    };
    Paint { r, g, b, alpha: 100 }
}

impl Paint {
    /// Fully transparent black: the fill of a brush stroke.
    pub fn transparent() -> (p: Paint)
        ensures
            p == spec_transparent(),
    {
        Paint { r: 0, g: 0, b: 0, alpha: 0 }
    }

    /// The same colour with its opacity multiplied by `percent` / 100
    /// (rounded down).
    pub fn scale_alpha(self, percent: u8) -> (p: Paint)
        requires
            percent <= 100,
        ensures
            p.r == self.r,
            p.g == self.g,
            p.b == self.b,
            p.alpha == self.alpha * percent / 100,
    {
        proof {
            assert(self.alpha * percent <= 255 * 100) by (nonlinear_arith)
                requires
                    self.alpha <= 255,
                    percent <= 100,
            ;
        }
        let scaled: u32 = self.alpha as u32 * percent as u32 / 100;
        Paint { r: self.r, g: self.g, b: self.b, alpha: scaled as u8 }
    }
}

} // verus!
