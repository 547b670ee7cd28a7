use vstd::prelude::*;
use crate::geometry::Corners;

verus! {

/// An 8-bit-per-channel RGBA color. The engine only carries colors through to
/// draw commands; it never blends them.
#[derive(Clone, Copy, Debug, PartialEq, Eq, Structural)]
pub struct Color {
    pub r: u8,
    pub g: u8,
    pub b: u8,
    pub a: u8,
}

impl Color {
    pub fn rgba(r: u8, g: u8, b: u8, a: u8) -> (c: Color)
        ensures
            c == (Color { r, g, b, a }),
    {
        Color { r, g, b, a }
    }

    /// Opaque white, the neutral tint.
    pub fn white() -> (c: Color)
        ensures
            c == (Color { r: 255u8, g: 255u8, b: 255u8, a: 255u8 }),
    {
        Color { r: 255, g: 255, b: 255, a: 255 }
    }

    /// Fully transparent black.
    pub fn transparent() -> (c: Color)
        ensures
            c == (Color { r: 0u8, g: 0u8, b: 0u8, a: 0u8 }),
    {
        Color { r: 0, g: 0, b: 0, a: 0 }
    }
}

/// A solid fill or a per-corner gradient: one color for each corner of the
/// filled rectangle.
#[derive(Clone, Copy, Debug, PartialEq, Eq)]
pub struct FillColor {
    pub corners: Corners<Color>,
}

/// A fill paints nothing when every corner is fully transparent.
pub open spec fn fill_transparent(f: FillColor) -> bool {
    &&& f.corners.top_left.a == 0
    &&& f.corners.top_right.a == 0
    &&& f.corners.bottom_left.a == 0
    &&& f.corners.bottom_right.a == 0
}

impl FillColor {
    /// The same color in all four corners.
    pub fn solid(c: Color) -> (r: FillColor)
        ensures
            r.corners.top_left == c,
            r.corners.top_right == c,
            r.corners.bottom_left == c,
            r.corners.bottom_right == c,
    {
        FillColor { corners: Corners::all(c) }
    }

    /// An invisible fill: elements painted with it are skipped entirely.
    pub fn none() -> (r: FillColor)
        ensures
            fill_transparent(r),
    {
        FillColor { corners: Corners::all(Color::transparent()) }
    }

    /// True when this fill would paint nothing.
    pub fn is_transparent(&self) -> (r: bool)
        ensures
            r == fill_transparent(*self),
    {
        self.corners.top_left.a == 0 && self.corners.top_right.a == 0
            && self.corners.bottom_left.a == 0 && self.corners.bottom_right.a == 0
    }
}

} // verus!
