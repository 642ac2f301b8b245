use oklch_theme::color::DisplayColor;
use oklch_theme::render::{hex_color, render};
use oklch_theme::theme::{generate, ThemeParameters};

use palette::{FromColor, Oklch, Srgb};

fn params(fg: f32, bg: f32, nl: f32, nc: f32, nho: f32, bl: f32, bc: f32, bho: f32) -> ThemeParameters {
    ThemeParameters {
        fg: fg.to_bits(),
        bg: bg.to_bits(),
        nl: nl.to_bits(),
        nc: nc.to_bits(),
        nho: nho.to_bits(),
        bl: bl.to_bits(),
        bc: bc.to_bits(),
        bho: bho.to_bits(),
    }
}

fn reference_rgb(l: f32, c: f32, h: f32) -> DisplayColor {
    let srgb: Srgb<u8> = Srgb::from_color(Oklch::new(l, c, h)).into_format::<u8>();
    let (r, g, b) = srgb.into_components();
    DisplayColor { r, g, b }
}

#[test]
fn hex_formatting() {
    assert_eq!(hex_color(&DisplayColor { r: 0xFF, g: 0x00, b: 0x10 }), "#ff0010");
    assert_eq!(hex_color(&DisplayColor { r: 0, g: 0, b: 0 }), "#000000");
    assert_eq!(hex_color(&DisplayColor { r: 0xAB, g: 0xCD, b: 0xEF }), "#abcdef");
    assert_eq!(hex_color(&DisplayColor { r: 9, g: 10, b: 0x7F }), "#090a7f");
}

#[test]
fn display_conversion_matches_color_library() {
    // The generated display colors must be exactly what the perceptual
    // color library computes for each slot's source color; in particular
    // the conversion is not the identity on the source bits.
    let nl = 0.75f32;
    let nc = 0.22f32;
    let pal = generate(&params(1.0, 0.0, nl, nc, 0.0, 0.9, 0.15, 0.0));
    for k in 0..6usize {
        let hue = 30.0 + 60.0 * k as f32;
        assert_eq!(pal.normal[k + 1].color, reference_rgb(nl, nc, hue));
        assert_eq!(pal.bright[k + 1].color, reference_rgb(0.9, 0.15, hue));
    }
    assert_eq!(pal.normal[0].color, reference_rgb(0.0, 0.0, 0.0));
    assert_eq!(pal.normal[7].color, reference_rgb(nl, 0.0, 0.0));
    assert_eq!(pal.bright[0].color, reference_rgb(nl / 2.0, 0.0, 0.0));
    assert_eq!(pal.bright[7].color, reference_rgb(1.0, 0.0, 0.0));
}

#[test]
fn rendered_text_layout() {
    let pal = generate(&params(1.0, 0.0, 0.75, 0.22, 0.0, 0.9, 0.15, 0.0));
    let text = render(&pal);

    let mut expected = String::new();
    expected.push_str("[colors.normal]\n");
    expected.push_str(&format!("black   = \"{}\"\n", hex_color(&pal.normal[0].color)));
    expected.push_str(&format!("red     = \"{}\"\n", hex_color(&pal.normal[1].color)));
    expected.push_str(&format!("yellow  = \"{}\"\n", hex_color(&pal.normal[2].color)));
    expected.push_str(&format!("green   = \"{}\"\n", hex_color(&pal.normal[3].color)));
    expected.push_str(&format!("cyan    = \"{}\"\n", hex_color(&pal.normal[4].color)));
    expected.push_str(&format!("blue    = \"{}\"\n", hex_color(&pal.normal[5].color)));
    expected.push_str(&format!("magenta = \"{}\"\n", hex_color(&pal.normal[6].color)));
    expected.push_str(&format!("white   = \"{}\"\n", hex_color(&pal.normal[7].color)));
    expected.push_str("\n[colors.bright]\n");
    expected.push_str(&format!("black   = \"{}\"\n", hex_color(&pal.bright[0].color)));
    expected.push_str(&format!("red     = \"{}\"\n", hex_color(&pal.bright[1].color)));
    expected.push_str(&format!("yellow  = \"{}\"\n", hex_color(&pal.bright[2].color)));
    expected.push_str(&format!("green   = \"{}\"\n", hex_color(&pal.bright[3].color)));
    expected.push_str(&format!("cyan    = \"{}\"\n", hex_color(&pal.bright[4].color)));
    expected.push_str(&format!("blue    = \"{}\"\n", hex_color(&pal.bright[5].color)));
    expected.push_str(&format!("magenta = \"{}\"\n", hex_color(&pal.bright[6].color)));
    expected.push_str(&format!("white   = \"{}\"\n", hex_color(&pal.bright[7].color)));

    assert_eq!(text, expected);
    assert!(text.contains("black   = \"#000000\""));
    assert!(text.contains("white   = \"#ffffff\""));
}

#[test]
fn out_of_range_inputs_are_accepted_and_clamped() {
    // Luminosity and chroma outside the nominal ranges are not rejected:
    // they flow into the conversion, which clamps out-of-gamut channels.
    let pal = generate(&params(1.4, -0.3, 1.2, 0.9, 400.0, 2.0, -0.1, -720.0));
    assert_eq!(pal.normal.len(), 8);
    assert_eq!(pal.bright.len(), 8);
    assert_eq!(pal.bright[7].color, reference_rgb(1.4, 0.0, 0.0));
    assert_eq!(pal.normal[0].color, reference_rgb(-0.3, 0.0, 0.0));
    for k in 0..6usize {
        let hue = (30.0 + 400.0) + 60.0 * k as f32;
        assert_eq!(pal.normal[k + 1].color, reference_rgb(1.2, 0.9, hue));
    }
    // Fully out-of-gamut anchors land on the clamp boundaries.
    assert_eq!(hex_color(&pal.bright[7].color), "#ffffff");
    assert_eq!(hex_color(&pal.normal[0].color), "#000000");
}
