//! Colors as fixed-point RGBA values.
//!
//! Channels are `u32` values scaled by `COLOR_ONE`, so `COLOR_ONE` is 1.0
//! (full intensity / fully opaque). Classification into render phases
//! depends only on the alpha channel: exactly `COLOR_ONE` is opaque,
//! anything below is transparent.

use vstd::prelude::*;

verus! {

/// The fixed-point representation of channel value 1.0.
pub const COLOR_ONE: u32 = 65536;

/// An RGBA color; each channel lies in `0 ..= COLOR_ONE`.
#[derive(Clone, Copy, Debug, PartialEq, Eq, Structural)]
pub struct Color {
    pub red: u32,
    pub green: u32,
    pub blue: u32,
    pub alpha: u32,
}

/// Every channel lies within the unit range.
pub open spec fn color_wf(c: Color) -> bool {
    c.red <= COLOR_ONE && c.green <= COLOR_ONE && c.blue <= COLOR_ONE && c.alpha <= COLOR_ONE
}

/// A color is opaque exactly when its alpha channel is exactly 1.0.
pub open spec fn is_opaque_spec(c: Color) -> bool {
    c.alpha == COLOR_ONE
}

impl Color {
    /// Builds a color from unit-range channels.
    pub fn rgba(red: u32, green: u32, blue: u32, alpha: u32) -> (c: Color)
        requires
            red <= COLOR_ONE,
            green <= COLOR_ONE,
            blue <= COLOR_ONE,
            alpha <= COLOR_ONE,
        ensures
            c == (Color { red, green, blue, alpha }),
            color_wf(c),
    {
        Color { red, green, blue, alpha }
    }

    /// Builds a color, rejecting out-of-range channels.
    pub fn checked_rgba(red: u32, green: u32, blue: u32, alpha: u32) -> (c: Option<Color>)
        ensures
            c is Some <==> red <= COLOR_ONE && green <= COLOR_ONE && blue <= COLOR_ONE && alpha
                <= COLOR_ONE,
            c is Some ==> c->Some_0 == (Color { red, green, blue, alpha }),
    {
        if red <= COLOR_ONE && green <= COLOR_ONE && blue <= COLOR_ONE && alpha <= COLOR_ONE {
            Some(Color { red, green, blue, alpha })
        } else {
            None
        }
    }

    /// Opaque white, the color an entity gets when none is set.
    pub fn white() -> (c: Color)
        ensures
            c == (Color { red: COLOR_ONE, green: COLOR_ONE, blue: COLOR_ONE, alpha: COLOR_ONE }),
            color_wf(c),
    {
        Color { red: COLOR_ONE, green: COLOR_ONE, blue: COLOR_ONE, alpha: COLOR_ONE }
    }

    /// Opaque black.
    pub fn black() -> (c: Color)
        ensures
            c == (Color { red: 0, green: 0, blue: 0, alpha: COLOR_ONE }),
            color_wf(c),
    {
        Color { red: 0, green: 0, blue: 0, alpha: COLOR_ONE }
    }

    /// The red channel.
    pub fn r(&self) -> (v: u32)
        ensures
            v == self.red,
    {
        self.red
    }

    /// The green channel.
    pub fn g(&self) -> (v: u32)
        ensures
            v == self.green,
    {
        self.green
    }

    /// The blue channel.
    pub fn b(&self) -> (v: u32)
        ensures
            v == self.blue,
    {
        self.blue
    }

    /// The alpha channel.
    pub fn a(&self) -> (v: u32)
        ensures
            v == self.alpha,
    {
        self.alpha
    }

    /// True exactly when the alpha channel is exactly 1.0.
    pub fn is_opaque(&self) -> (r: bool)
        ensures
            r == is_opaque_spec(*self),
    {
        self.alpha == COLOR_ONE
    }
}

impl Default for Color {
    /// The default color is opaque white.
    fn default() -> (c: Color)
        ensures
            c == (Color { red: COLOR_ONE, green: COLOR_ONE, blue: COLOR_ONE, alpha: COLOR_ONE }),
    {
        Color { red: COLOR_ONE, green: COLOR_ONE, blue: COLOR_ONE, alpha: COLOR_ONE }
    }
}

/// The color the frame target is cleared to before any batch is drawn.
#[derive(Clone, Copy, Debug, PartialEq, Eq, Structural)]
pub struct ClearColor(pub Color);

impl Default for ClearColor {
    /// Frames clear to opaque black unless the application overrides it.
    fn default() -> (c: ClearColor)
        ensures
            c == ClearColor(Color { red: 0, green: 0, blue: 0, alpha: COLOR_ONE }),
    {
        ClearColor(Color { red: 0, green: 0, blue: 0, alpha: COLOR_ONE })
    }
}

} // verus!
