//! Exact representation of normalized RGBA colors.
//!
//! Human-readable colors are given as red, green and blue in `0..=255` and an
//! alpha in `0..=100`; the normalized color is `(r/255, g/255, b/255, a/100)`,
//! each component in `[0, 1]`. To keep every component exact, a [`Color`]
//! stores the red, green and blue components as integer numerators over the
//! fixed denominator [`CHANNEL_DENOM`] (so a channel `c` becomes `100 * c`
//! over `25500`, the same rational as `c / 255`), and the alpha component as a
//! numerator over [`ALPHA_DENOM`]. The extra headroom in the channel
//! denominator makes the 0.7 darkening rule of pressed buttons exact as well:
//! `0.7 * (100 * c) = 70 * c`, an integer again.

use vstd::prelude::*;

verus! {

/// Denominator of the red, green and blue numerators of a [`Color`].
pub const CHANNEL_DENOM: u16 = 25500;

/// Denominator of the alpha numerator of a [`Color`].
pub const ALPHA_DENOM: u8 = 100;

/// A normalized RGBA color. The normalized value of each component is the
/// stored numerator divided by the fixed denominator: `r / 25500`,
/// `g / 25500`, `b / 25500`, `a / 100`.
#[derive(Clone, Copy, PartialEq, Eq, Structural, Debug)]
pub struct Color {
    pub r: u16,
    pub g: u16,
    pub b: u16,
    pub a: u8,
}

impl Color {
    /// A color is well formed when every numerator stays within its
    /// denominator, that is, every normalized component lies in `[0, 1]`.
    pub open spec fn wf(self) -> bool {
        &&& self.r <= CHANNEL_DENOM
        &&& self.g <= CHANNEL_DENOM
        &&& self.b <= CHANNEL_DENOM
        &&& self.a <= ALPHA_DENOM
    }
}

/// The color a human-readable RGBA tuple denotes: channel `c` in `0..=255`
/// becomes the numerator `100 * c` (the rational `c / 255`), alpha is kept
/// over its own denominator of `100`.
pub open spec fn spec_from_rgba(r: u8, g: u8, b: u8, a: u8) -> Color {
    Color {
        r: (100 * (r as int)) as u16,
        g: (100 * (g as int)) as u16,
        b: (100 * (b as int)) as u16,
        a: a,
    }
}

/// The color a human-readable RGB triple denotes: fully opaque.
pub open spec fn spec_from_rgb(r: u8, g: u8, b: u8) -> Color {
    spec_from_rgba(r, g, b, 100)
}

/// The fully transparent color.
pub open spec fn spec_transparent() -> Color {
    Color { r: 0, g: 0, b: 0, a: 0 }
}

/// Converts a human-readable RGBA tuple (`r`, `g`, `b` in `0..=255`, `a` in
/// `0..=100`) to its normalized [`Color`], the exact rational counterpart of
/// dividing the channels by 255 and the alpha by 100.
pub fn from_rgba(r: u8, g: u8, b: u8, a: u8) -> (c: Color)
    requires
        a <= 100,
    ensures
        c == spec_from_rgba(r, g, b, a),
        c.wf(),
{
    Color { r: 100u16 * (r as u16), g: 100u16 * (g as u16), b: 100u16 * (b as u16), a }
}

/// Converts a human-readable RGB triple to its normalized [`Color`], treating
/// the color as fully opaque.
pub fn from_rgb(r: u8, g: u8, b: u8) -> (c: Color)
    ensures
        c == spec_from_rgb(r, g, b),
        c.wf(),
{
    from_rgba(r, g, b, 100)
}

/// The fully transparent color.
pub fn transparent() -> (c: Color)
    ensures
        c == spec_transparent(),
        c.wf(),
{
    Color { r: 0, g: 0, b: 0, a: 0 }
}

/// A channel numerator multiplied by 0.7, rounded toward zero. On every
/// numerator produced by [`spec_from_rgba`] the product is a multiple of ten,
/// so no rounding happens (see [`lemma_darken_channel_exact`]).
pub open spec fn spec_darken_channel(c: u16) -> u16 {
    ((c as int) * 7 / 10) as u16
}

/// The color with each of red, green and blue darkened by the fixed 0.7
/// factor and the alpha kept: the pressed-button rule.
pub open spec fn spec_darken(c: Color) -> Color {
    Color {
        r: spec_darken_channel(c.r),
        g: spec_darken_channel(c.g),
        b: spec_darken_channel(c.b),
        a: c.a,
    }
}

/// Darkens red, green and blue by the fixed 0.7 factor and keeps the alpha.
pub fn darken(c: Color) -> (d: Color)
    ensures
        d == spec_darken(c),
        c.wf() ==> d.wf(),
{
    let r: u32 = (c.r as u32) * 7 / 10;
    let g: u32 = (c.g as u32) * 7 / 10;
    let b: u32 = (c.b as u32) * 7 / 10;
    Color { r: r as u16, g: g as u16, b: b as u16, a: c.a }
}

/// On a channel numerator that is a multiple of ten — every numerator built
/// by [`spec_from_rgba`] is one — the 0.7 darkening is exact: the darkened
/// numerator stands to the original exactly as 7 to 10.
pub proof fn lemma_darken_channel_exact(c: u16)
    requires
        c % 10 == 0,
    ensures
        10 * spec_darken_channel(c) == 7 * c,
{
    assert(10 * ((c as int) * 7 / 10) == 7 * c) by (nonlinear_arith)
        requires c % 10 == 0
    ;
}

} // verus!
