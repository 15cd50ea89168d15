use ascii_art::{glyph_index, luminance, quantize, ramp_chars, Charset, LARGE_RAMP, SMALL_RAMP};
use image::Pixel;

#[test]
fn small_ramp_has_ten_glyphs() {
    let ramp = ramp_chars(Charset::Small);
    assert_eq!(ramp.len(), 10);
    let text: String = ramp.iter().collect();
    assert_eq!(text, "@%#*+=-:. ");
    assert_eq!(Charset::Small.as_str(), "@%#*+=-:. ");
    assert_eq!(SMALL_RAMP, "@%#*+=-:. ");
}

#[test]
fn ramps_hold_no_line_feed() {
    assert!(!SMALL_RAMP.contains('\n'));
    assert!(!LARGE_RAMP.contains('\n'));
    assert_eq!(LARGE_RAMP.chars().count(), 70);
    assert_eq!(Charset::Large.as_str(), LARGE_RAMP);
}

#[test]
fn large_ramp_has_seventy_glyphs() {
    let ramp = ramp_chars(Charset::Large);
    assert_eq!(ramp.len(), 70);
    assert_eq!(ramp[0], '$');
    assert_eq!(ramp[40], '/');
    assert_eq!(ramp[41], '\\');
    assert_eq!(ramp[64], '"');
    assert_eq!(ramp[69], ' ');
}

#[test]
fn charset_from_flag() {
    assert_eq!(Charset::from_flag(false), Charset::Small);
    assert_eq!(Charset::from_flag(true), Charset::Large);
}

#[test]
fn quantize_extremes() {
    assert_eq!(quantize(0, 10), 0);
    assert_eq!(quantize(255, 10), 9);
    assert_eq!(quantize(0, 70), 0);
    assert_eq!(quantize(255, 70), 69);
}

#[test]
fn quantize_exact_values() {
    assert_eq!(quantize(128, 10), 4);
    assert_eq!(quantize(85, 10), 3);
    assert_eq!(quantize(84, 10), 2);
    assert_eq!(quantize(170, 10), 6);
    assert_eq!(quantize(254, 10), 8);
    assert_eq!(quantize(28, 10), 0);
    assert_eq!(quantize(29, 10), 1);
    assert_eq!(quantize(128, 70), 34);
    assert_eq!(quantize(254, 70), 68);
    assert_eq!(quantize(4, 70), 1);
    assert_eq!(quantize(3, 70), 0);
}

#[test]
fn quantize_single_glyph_ramp() {
    for luma in 0..=255u8 {
        assert_eq!(quantize(luma, 1), 0);
    }
}

#[test]
fn quantize_is_in_range_for_every_sample() {
    for ramp_len in [1usize, 2, 10, 70, 256, 1000] {
        for luma in 0..=255u8 {
            assert!(quantize(luma, ramp_len) < ramp_len);
        }
    }
}

#[test]
fn quantize_is_monotonic() {
    for ramp_len in [10usize, 70] {
        for luma in 0..255u8 {
            assert!(quantize(luma, ramp_len) <= quantize(luma + 1, ramp_len));
        }
    }
}

#[test]
fn quantize_agrees_with_single_precision_scaling() {
    for ramp_len in [10usize, 70] {
        for luma in 0..=255u8 {
            let scaled = (luma as f32 / 255.0 * ((ramp_len - 1) as f32)) as usize;
            assert_eq!(quantize(luma, ramp_len), scaled);
        }
    }
}

#[test]
fn quantize_huge_ramp_does_not_overflow() {
    assert_eq!(quantize(255, usize::MAX), usize::MAX - 1);
    assert_eq!(quantize(0, usize::MAX), 0);
}

#[test]
fn luminance_of_primaries() {
    assert_eq!(luminance(0, 0, 0, 255), 0);
    assert_eq!(luminance(255, 255, 255, 255), 255);
    assert_eq!(luminance(255, 0, 0, 255), 54);
    assert_eq!(luminance(0, 255, 0, 255), 182);
    assert_eq!(luminance(0, 0, 255, 255), 18);
    assert_eq!(luminance(10, 200, 30, 255), 147);
}

#[test]
fn luminance_ignores_alpha() {
    assert_eq!(luminance(10, 200, 30, 0), luminance(10, 200, 30, 255));
    assert_eq!(luminance(0, 0, 0, 200), 0);
}

#[test]
fn luminance_follows_the_weights() {
    for r in (0..=255u32).step_by(5) {
        for g in (0..=255u32).step_by(5) {
            for b in (0..=255u32).step_by(5) {
                let expected = ((2126 * r + 7152 * g + 722 * b) / 10000) as u8;
                assert_eq!(luminance(r as u8, g as u8, b as u8, 255), expected);
            }
        }
    }
}

#[test]
fn luminance_agrees_with_the_image_crate() {
    for r in (0..=255u32).step_by(17) {
        for g in (0..=255u32).step_by(17) {
            for b in (0..=255u32).step_by(17) {
                let pixel = image::Rgba([r as u8, g as u8, b as u8, 77]);
                assert_eq!(luminance(r as u8, g as u8, b as u8, 77), pixel.to_luma().0[0]);
            }
        }
    }
}

#[test]
fn glyph_index_of_black_and_white() {
    assert_eq!(glyph_index(0, 0, 0, 255, 10), 0);
    assert_eq!(glyph_index(255, 255, 255, 255, 10), 9);
    assert_eq!(glyph_index(255, 255, 255, 255, 70), 69);
    assert_eq!(glyph_index(255, 0, 0, 255, 10), 1);
    assert_eq!(glyph_index(0, 255, 0, 255, 70), 49);
}
