//! Raster assembly and channel conversion.

use raytracer::color::{channel_to_byte, Rgb8, CHANNEL_ONE};
use raytracer::raster::Raster;

const BG: Rgb8 = Rgb8 {
    red: 50,
    green: 100,
    blue: 220,
};

const GREEN: Rgb8 = Rgb8 {
    red: 0,
    green: 255,
    blue: 0,
};

#[test]
fn new_raster_is_all_background() {
    let r = Raster::new(3, 2, BG);
    for y in 0..2 {
        for x in 0..3 {
            assert_eq!(r.get_pixel(x, y), BG);
        }
    }
}

#[test]
fn set_pixel_changes_exactly_one_pixel() {
    let mut r = Raster::new(4, 3, BG);
    r.set_pixel(2, 1, GREEN);
    for y in 0..3 {
        for x in 0..4 {
            if (x, y) == (2, 1) {
                assert_eq!(r.get_pixel(x, y), GREEN);
            } else {
                assert_eq!(r.get_pixel(x, y), BG);
            }
        }
    }
}

#[test]
fn empty_raster_has_no_bytes() {
    let r = Raster::new(0, 0, BG);
    assert_eq!(r.to_bytes().len(), 0);
}

#[test]
fn to_bytes_is_row_major_rgb() {
    let mut r = Raster::new(2, 2, BG);
    r.set_pixel(1, 0, GREEN);
    let bytes = r.to_bytes();
    assert_eq!(bytes.len(), 12);
    assert_eq!(&bytes[0..3], &[50, 100, 220]);
    assert_eq!(&bytes[3..6], &[0, 255, 0]);
    assert_eq!(&bytes[6..9], &[50, 100, 220]);
    assert_eq!(&bytes[9..12], &[50, 100, 220]);
}

#[test]
fn channel_conversion_matches_float_reference() {
    // the fixed-point input stands for the float channel value v / CHANNEL_ONE
    for &(v, expected) in &[
        (0.0f64, 0u8),
        (1.0, 255),
        (0.5, 128),
        (0.2, 51),
        (1.0 / 255.0, 1),
    ] {
        let fixed = (v * CHANNEL_ONE as f64) as i64;
        assert_eq!(channel_to_byte(fixed), expected, "channel {v}");
    }
}

#[test]
fn channel_conversion_saturates_instead_of_wrapping() {
    // over-bright and negative light must not wrap around
    assert_eq!(channel_to_byte(-1), 0);
    assert_eq!(channel_to_byte(i64::MIN), 0);
    assert_eq!(channel_to_byte(CHANNEL_ONE + 1), 255);
    assert_eq!(channel_to_byte(i64::MAX), 255);
}

#[test]
fn channel_conversion_rounds_to_nearest() {
    // 0.5 * 255 = 127.5 exactly; rounding goes up
    assert_eq!(channel_to_byte(CHANNEL_ONE / 2), 128);
    // just below the halfway point rounds down
    assert_eq!(channel_to_byte(CHANNEL_ONE / 2 - 1), 127);
}
