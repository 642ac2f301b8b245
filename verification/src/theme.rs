//! Palette generation from theme parameters.
use vstd::prelude::*;

use crate::color::{
    ink_for, spec_display, spec_ink, to_display, DisplayColor, PerceptualColor,
};
use crate::floatbits::{
    add_bits, div_bits, f32_add, f32_div, HALF_BITS, THIRTY_DEG_BITS, TWO_BITS,
};

verus! {

/// The eight theme parameters, each the bit pattern of an `f32` value:
/// foreground and background luminosity, then luminosity, chroma and hue
/// offset (degrees) for the normal and the bright tier.
#[derive(Clone, Copy, Debug, PartialEq, Eq, Structural)]
pub struct ThemeParameters {
    pub fg: u32,
    pub bg: u32,
    pub nl: u32,
    pub nc: u32,
    pub nho: u32,
    pub bl: u32,
    pub bc: u32,
    pub bho: u32,
}

/// The fixed display names of the eight slots of a palette group.
#[derive(Clone, Copy, Debug, PartialEq, Eq, Structural)]
pub enum ColorName {
    Black,
    Red,
    Yellow,
    Green,
    Cyan,
    Blue,
    Magenta,
    White,
}

/// One palette entry: its fixed name, the perceptual color it was computed
/// from, the 8-bit display color, and the ink color legible against it.
#[derive(Clone, Copy, Debug, PartialEq, Eq, Structural)]
pub struct PaletteSlot {
    pub name: ColorName,
    pub source: PerceptualColor,
    pub color: DisplayColor,
    pub ink: DisplayColor,
}

/// The full 16-color theme: 8 normal slots and 8 bright slots, each group
/// in the fixed order black, red, yellow, green, cyan, blue, magenta,
/// white.
#[derive(Debug)]
pub struct Palette {
    pub normal: Vec<PaletteSlot>,
    pub bright: Vec<PaletteSlot>,
}

/// A grayscale perceptual color: the given lightness, zero chroma
/// (bit pattern 0 is the `f32` value 0.0) and hue 0.
pub open spec fn gray_spec(l: u32) -> PerceptualColor {
    PerceptualColor { l: l, c: 0u32, h: 0u32 }
}

/// Grayscale helper: lightness `l`, chroma 0, hue 0.
pub fn gray(l: u32) -> (pc: PerceptualColor)
    ensures
        pc == gray_spec(l),
{
    PerceptualColor { l: l, c: 0, h: 0 }
}

/// The name of slot `i` of either group, in the fixed order.
pub open spec fn slot_name(i: int) -> ColorName {
    if i == 0 {
        ColorName::Black
    } else if i == 1 {
        ColorName::Red
    } else if i == 2 {
        ColorName::Yellow
    } else if i == 3 {
        ColorName::Green
    } else if i == 4 {
        ColorName::Cyan
    } else if i == 5 {
        ColorName::Blue
    } else if i == 6 {
        ColorName::Magenta
    } else {
        ColorName::White
    }
}

/// Bit pattern of the `f32` value `60.0 * k` for the six spectral indices.
/// Each product of 60.0 and a small integer is exactly representable, so
/// the multiplication the hue formula calls for reduces to these
/// constants.
pub open spec fn sixty_times_bits(k: int) -> u32 {
    if k == 0 {
        0x0000_0000u32  // 0.0
    } else if k == 1 {
        0x4270_0000u32  // 60.0
    } else if k == 2 {
        0x42F0_0000u32  // 120.0
    } else if k == 3 {
        0x4334_0000u32  // 180.0
    } else if k == 4 {
        0x4370_0000u32  // 240.0
    } else {
        0x4396_0000u32  // 300.0
    }
}

/// The hue of spectral color `k` of a tier with hue offset `offset`:
/// the `f32` computation `(30.0 + offset) + 60.0 * k`, in degrees.
pub open spec fn spec_hue(offset: u32, k: int) -> u32 {
    f32_add(f32_add(THIRTY_DEG_BITS, offset), sixty_times_bits(k))
}

/// The perceptual source color of normal slot `i`: the background gray for
/// black, the six normal-tier spectral colors in hue order, and the
/// normal-tier gray for white.
pub open spec fn spec_normal_source(p: ThemeParameters, i: int) -> PerceptualColor {
    if i == 0 {
        gray_spec(p.bg)
    } else if i == 7 {
        gray_spec(p.nl)
    } else {
        PerceptualColor { l: p.nl, c: p.nc, h: spec_hue(p.nho, i - 1) }
    }
}

/// The perceptual source color of bright slot `i`: the averaged gray
/// `(bg + nl) / 2` for black, the six bright-tier spectral colors in hue
/// order, and the foreground gray for white.
pub open spec fn spec_bright_source(p: ThemeParameters, i: int) -> PerceptualColor {
    if i == 0 {
        gray_spec(f32_div(f32_add(p.bg, p.nl), TWO_BITS))
    } else if i == 7 {
        gray_spec(p.fg)
    } else {
        PerceptualColor { l: p.bl, c: p.bc, h: spec_hue(p.bho, i - 1) }
    }
}

/// The finished slot for a name and a source color: the source converted
/// to its display form, with the legibility ink chosen from the source
/// lightness.
pub open spec fn spec_slot(name: ColorName, source: PerceptualColor) -> PaletteSlot {
    PaletteSlot { name: name, source: source, color: spec_display(source), ink: spec_ink(source) }
}

/// The normal group that `generate` owes: 8 slots, named in the fixed
/// order, each built from its source color.
pub open spec fn spec_normal(p: ThemeParameters) -> Seq<PaletteSlot> {
    Seq::new(8, |i: int| spec_slot(slot_name(i), spec_normal_source(p, i)))
}

/// The bright group that `generate` owes.
pub open spec fn spec_bright(p: ThemeParameters) -> Seq<PaletteSlot> {
    Seq::new(8, |i: int| spec_slot(slot_name(i), spec_bright_source(p, i)))
}

fn sixty_times(k: usize) -> (r: u32)
    requires
        k < 6,
    ensures
        r == sixty_times_bits(k as int),
{
    match k {
        0 => 0x0000_0000,
        1 => 0x4270_0000,
        2 => 0x42F0_0000,
        3 => 0x4334_0000,
        4 => 0x4370_0000,
        _ => 0x4396_0000,
    }
}

/// The hue, in degrees, of spectral color `k` under hue offset `offset`.
pub fn hue_bits(offset: u32, k: usize) -> (r: u32)
    requires
        k < 6,
    ensures
        r == spec_hue(offset, k as int),
{
    let base = add_bits(THIRTY_DEG_BITS, offset);
    add_bits(base, sixty_times(k))
}

fn name_at(i: usize) -> (n: ColorName)
    requires
        i < 8,
    ensures
        n == slot_name(i as int),
{
    match i {
        0 => ColorName::Black,
        1 => ColorName::Red,
        2 => ColorName::Yellow,
        3 => ColorName::Green,
        4 => ColorName::Cyan,
        5 => ColorName::Blue,
        6 => ColorName::Magenta,
        _ => ColorName::White,
    }
}

/// Law: every palette owed by `generate` has exactly 8 normal and 8 bright
/// slots, named in the fixed order black, red, yellow, green, cyan, blue,
/// magenta, white in both groups.
pub proof fn lemma_slot_layout(p: ThemeParameters)
    ensures
        spec_normal(p).len() == 8,
        spec_bright(p).len() == 8,
        forall|i: int| 0 <= i < 8 ==> (#[trigger] spec_normal(p)[i]).name == slot_name(i),
        forall|i: int| 0 <= i < 8 ==> (#[trigger] spec_bright(p)[i]).name == slot_name(i),
{
}

/// Law: generation is deterministic — two parameter sets with equal bits
/// give bit-identical palettes, so calling `generate` twice with the same
/// parameters yields identical display colors.
pub proof fn lemma_generate_deterministic(p1: ThemeParameters, p2: ThemeParameters)
    requires
        p1 == p2,
    ensures
        spec_normal(p1) == spec_normal(p2),
        spec_bright(p1) == spec_bright(p2),
{
}

/// Law: within each group the six spectral slots climb the fixed hue
/// ladder — slot `k` (red through magenta) carries the hue
/// `(30 + offset) + 60·(k−1)`, one 60-degree step past its predecessor,
/// with the tier's own luminosity and chroma.
pub proof fn lemma_hue_ladder(p: ThemeParameters)
    ensures
        forall|k: int|
            1 <= k < 7 ==> (#[trigger] spec_normal(p)[k]).source == (PerceptualColor {
                l: p.nl,
                c: p.nc,
                h: spec_hue(p.nho, k - 1),
            }),
        forall|k: int|
            1 <= k < 7 ==> (#[trigger] spec_bright(p)[k]).source == (PerceptualColor {
                l: p.bl,
                c: p.bc,
                h: spec_hue(p.bho, k - 1),
            }),
{
}

/// Law: every slot's ink follows the legibility rule — black exactly when
/// the slot's source perceptual lightness is strictly greater than 0.5,
/// else white (so a lightness of exactly 0.5 gets white ink).
pub proof fn lemma_ink_rule(p: ThemeParameters)
    ensures
        forall|i: int|
            0 <= i < 8 ==> (#[trigger] spec_normal(p)[i]).ink == spec_ink(
                spec_normal(p)[i].source,
            ),
        forall|i: int|
            0 <= i < 8 ==> (#[trigger] spec_bright(p)[i]).ink == spec_ink(
                spec_bright(p)[i].source,
            ),
{
}

/// Law: the grayscale anchors — normal black is the background gray and
/// bright white is the foreground gray, each with zero chroma whatever the
/// other parameters are, and each depending on its one luminosity alone.
pub proof fn lemma_grayscale_anchors(p: ThemeParameters)
    ensures
        spec_normal(p)[0].source == gray_spec(p.bg),
        spec_bright(p)[7].source == gray_spec(p.fg),
        spec_normal(p)[0].source.c == 0,
        spec_bright(p)[7].source.c == 0,
{
}

/// Law: cross-group coupling — bright black's source lightness is exactly
/// the `f32` average `(bg + nl) / 2`, for all `bg` and `nl`, and it stays
/// grayscale.
pub proof fn lemma_bright_black_coupling(p: ThemeParameters)
    ensures
        spec_bright(p)[0].source.l == f32_div(f32_add(p.bg, p.nl), TWO_BITS),
        spec_bright(p)[0].source.c == 0,
{
}

/// Builds the finished slot for a name and a source color.
fn make_slot(name: ColorName, source: PerceptualColor) -> (s: PaletteSlot)
    ensures
        s == spec_slot(name, source),
        source.l == HALF_BITS ==> s.ink == (DisplayColor { r: 0xFF, g: 0xFF, b: 0xFF }),
{
    let color = to_display(&source);
    let ink = ink_for(&source);
    PaletteSlot { name: name, source: source, color: color, ink: ink }
}

/// Produces the full 16-color palette for the given parameters.
///
/// Pure and total: the palette is a function of the parameter bits alone,
/// so two calls with equal parameters return equal palettes. Every input
/// is accepted; out-of-gamut results are clamped by the display
/// conversion.
pub fn generate(p: &ThemeParameters) -> (pal: Palette)
    ensures
        pal.normal@ == spec_normal(*p),
        pal.bright@ == spec_bright(*p),
        forall|i: int|
            0 <= i < 8 && (#[trigger] pal.normal@[i]).source.l == HALF_BITS ==> pal.normal@[i].ink
                == (DisplayColor { r: 0xFF, g: 0xFF, b: 0xFF }),
        forall|i: int|
            0 <= i < 8 && (#[trigger] pal.bright@[i]).source.l == HALF_BITS ==> pal.bright@[i].ink
                == (DisplayColor { r: 0xFF, g: 0xFF, b: 0xFF }),
{
    let mut normal: Vec<PaletteSlot> = Vec::new();
    normal.push(make_slot(ColorName::Black, gray(p.bg)));
    let mut k: usize = 0;
    while k < 6
        invariant
            k <= 6,
            normal@.len() == k + 1,
            forall|i: int|
                0 <= i < k + 1 ==> normal@[i] == spec_slot(slot_name(i), spec_normal_source(*p, i)),
            forall|i: int|
                0 <= i < k + 1 && (#[trigger] normal@[i]).source.l == HALF_BITS ==> normal@[i].ink
                    == (DisplayColor { r: 0xFF, g: 0xFF, b: 0xFF }),
        decreases 6 - k,
    {
        let hue = hue_bits(p.nho, k);
        normal.push(make_slot(name_at(k + 1), PerceptualColor { l: p.nl, c: p.nc, h: hue }));
        k += 1;
    }
    normal.push(make_slot(ColorName::White, gray(p.nl)));

    let mut bright: Vec<PaletteSlot> = Vec::new();
    bright.push(make_slot(ColorName::Black, gray(div_bits(add_bits(p.bg, p.nl), TWO_BITS))));
    let mut k: usize = 0;
    while k < 6
        invariant
            k <= 6,
            bright@.len() == k + 1,
            forall|i: int|
                0 <= i < k + 1 ==> bright@[i] == spec_slot(slot_name(i), spec_bright_source(*p, i)),
            forall|i: int|
                0 <= i < k + 1 && (#[trigger] bright@[i]).source.l == HALF_BITS ==> bright@[i].ink
                    == (DisplayColor { r: 0xFF, g: 0xFF, b: 0xFF }),
        decreases 6 - k,
    {
        let hue = hue_bits(p.bho, k);
        bright.push(make_slot(name_at(k + 1), PerceptualColor { l: p.bl, c: p.bc, h: hue }));
        k += 1;
    }
    bright.push(make_slot(ColorName::White, gray(p.fg)));

    proof {
        assert(normal@ =~= spec_normal(*p));
        assert(bright@ =~= spec_bright(*p));
    }
    Palette { normal: normal, bright: bright }
}

} // verus!
