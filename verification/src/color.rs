//! Perceptual colors, their display form, and hex rendering.
use vstd::prelude::*;

use crate::floatbits::{f32_gt, gt_bits, HALF_BITS};
use palette::FromColor;

verus! {

/// A perceptual color: Oklch lightness, chroma and hue (degrees), each
/// stored as the bit pattern of the `f32` component value. Hue is only
/// meaningful for positive chroma; grayscale colors carry hue 0.
#[derive(Clone, Copy, Debug, PartialEq, Eq, Structural)]
pub struct PerceptualColor {
    pub l: u32,
    pub c: u32,
    pub h: u32,
}

/// An 8-bit-per-channel sRGB color, as produced by the gamut-clamping
/// conversion from a [`PerceptualColor`].
#[derive(Clone, Copy, Debug, PartialEq, Eq, Structural)]
pub struct DisplayColor {
    pub r: u8,
    pub g: u8,
    pub b: u8,
}

/// The 8-bit sRGB encoding (red, green, blue) of the Oklch color whose
/// component bit patterns are `l`, `c`, `h`. Uninterpreted name for the
/// conversion done by the `palette` crate: a fixed, pure function of the
/// three component bits, with out-of-gamut results clamped channel-wise.
pub uninterp spec fn srgb_of(l: u32, c: u32, h: u32) -> (u8, u8, u8);

/// The display form of a perceptual color.
pub open spec fn spec_display(pc: PerceptualColor) -> DisplayColor {
    DisplayColor {
        r: srgb_of(pc.l, pc.c, pc.h).0,
        g: srgb_of(pc.l, pc.c, pc.h).1,
        b: srgb_of(pc.l, pc.c, pc.h).2,
    }
}

/// Relies on the `palette` crate: `Srgb::from_color` converts Oklch to
/// sRGB (clamping out-of-gamut channels into [0, 1]) and `into_format`
/// rounds each channel to 8 bits. Pure color math: the result is a
/// function of the component bit patterns alone.
#[verifier::external_body]
pub(crate) fn to_display(pc: &PerceptualColor) -> (d: DisplayColor)
    ensures
        (d.r, d.g, d.b) == srgb_of(pc.l, pc.c, pc.h),
{
    let hue: palette::OklabHue = palette::OklabHue::new(bytemuck::cast(pc.h));
    let oklch: palette::Oklch = palette::Oklch::new(bytemuck::cast(pc.l), bytemuck::cast(pc.c), hue);
    let srgb: palette::Srgb<u8> = palette::Srgb::from_color(oklch).into_format::<u8>();
    let (r, g, b) = srgb.into_components();
    DisplayColor { r, g, b }
}

/// Ink chosen for legibility against a slot color: black for a light
/// source color (lightness strictly above 0.5), white otherwise.
pub open spec fn spec_ink(pc: PerceptualColor) -> DisplayColor {
    if f32_gt(pc.l, HALF_BITS) {
        DisplayColor { r: 0x00, g: 0x00, b: 0x00 }
    } else {
        DisplayColor { r: 0xFF, g: 0xFF, b: 0xFF }
    }
}

/// Picks the ink color for text shown against `pc`. The threshold is
/// strict: a lightness of exactly 0.5 gets white ink.
pub fn ink_for(pc: &PerceptualColor) -> (d: DisplayColor)
    ensures
        d == spec_ink(*pc),
        pc.l == HALF_BITS ==> d == (DisplayColor { r: 0xFF, g: 0xFF, b: 0xFF }),
{
    let t: u8 = if gt_bits(pc.l, HALF_BITS) {
        0x00
    } else {
        0xFF
    };
    DisplayColor { r: t, g: t, b: t }
}

} // verus!
