//! Colors as fixed-point values.
//!
//! The demo's sliders run over `0.0 ..= 1.0` in steps of `0.01`, so every
//! color component the demo can produce is a whole number of hundredths.
//! A component is stored as that number: `0` is black level, `100` is full
//! intensity.

use vstd::prelude::*;

verus! {

/// The number of hundredths that stands for full intensity.
pub const COMPONENT_MAX: u8 = 100;

/// An RGBA color; each component counts hundredths of full intensity.
#[derive(Clone, Copy, Debug, PartialEq, Eq, Structural)]
pub struct Color {
    /// Red, in hundredths of full intensity.
    pub r: u8,
    /// Green, in hundredths of full intensity.
    pub g: u8,
    /// Blue, in hundredths of full intensity.
    pub b: u8,
    /// Alpha, in hundredths of full opacity.
    pub a: u8,
}

impl Color {
    /// A well-formed color keeps every component within full intensity.
    pub open spec fn wf(self) -> bool {
        self.r <= COMPONENT_MAX && self.g <= COMPONENT_MAX && self.b <= COMPONENT_MAX
            && self.a <= COMPONENT_MAX
    }

    /// An opaque color from red, green and blue components.
    pub fn from_rgb(r: u8, g: u8, b: u8) -> (c: Color)
        requires
            r <= COMPONENT_MAX,
            g <= COMPONENT_MAX,
            b <= COMPONENT_MAX,
        ensures
            c == (Color { r, g, b, a: COMPONENT_MAX }),
            c.wf(),
    {
        Color { r, g, b, a: COMPONENT_MAX }
    }

    /// Opaque white.
    pub fn white() -> (c: Color)
        ensures
            c == (Color { r: 100u8, g: 100u8, b: 100u8, a: 100u8 }),
            c.wf(),
    {
        Color { r: 100, g: 100, b: 100, a: 100 }
    }

    /// Opaque green: the clear color of every redraw.
    pub fn green() -> (c: Color)
        ensures
            c == (Color { r: 0u8, g: 100u8, b: 0u8, a: 100u8 }),
            c.wf(),
    {
        Color { r: 0, g: 100, b: 0, a: 100 }
    }
}

} // verus!
