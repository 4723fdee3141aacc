//! Texture-coordinate wrapping and texture sampling.

use raytracer::color::Rgb8;
use raytracer::texture::{wrap, Texture};

#[test]
fn wrap_positive_in_range() {
    assert_eq!(wrap(0, 10), 0);
    assert_eq!(wrap(7, 10), 7);
    assert_eq!(wrap(9, 10), 9);
}

#[test]
fn wrap_positive_overflowing() {
    assert_eq!(wrap(10, 10), 0);
    assert_eq!(wrap(23, 10), 3);
    assert_eq!(wrap(1_000_000_007, 10), 7);
}

#[test]
fn wrap_negative_folds_back() {
    assert_eq!(wrap(-1, 10), 9);
    assert_eq!(wrap(-10, 10), 0);
    assert_eq!(wrap(-23, 10), 7);
    // i64::MIN = -(2^63), and 2^63 leaves remainder 2 modulo 3, so the
    // Euclidean fold lands on 1
    assert_eq!(wrap(i64::MIN, 3), 1);
}

#[test]
fn wrap_bound_one_is_constant_zero() {
    assert_eq!(wrap(-5, 1), 0);
    assert_eq!(wrap(0, 1), 0);
    assert_eq!(wrap(5, 1), 0);
}

#[test]
fn wrap_is_idempotent_on_samples() {
    for &coord in &[-1000i64, -17, -1, 0, 1, 17, 1000] {
        for &bound in &[1u32, 2, 7, 256] {
            let once = wrap(coord, bound);
            assert!(once < bound);
            assert_eq!(wrap(once as i64, bound), once);
        }
    }
}

fn texel(v: u8) -> Rgb8 {
    Rgb8 {
        red: v,
        green: v,
        blue: v,
    }
}

#[test]
fn texture_new_checks_dimensions() {
    let texels = vec![texel(0), texel(1), texel(2), texel(3)];
    assert!(Texture::new(2, 2, texels.clone()).is_some());
    assert!(Texture::new(4, 1, texels.clone()).is_some());
    assert!(Texture::new(3, 2, texels.clone()).is_none());
    assert!(Texture::new(0, 4, vec![]).is_none());
    assert!(Texture::new(4, 0, vec![]).is_none());
}

#[test]
fn texture_sample_wraps_both_axes() {
    // 2x2 grid, row-major: (0,0)=0 (1,0)=1 (0,1)=2 (1,1)=3
    let t = Texture::new(2, 2, vec![texel(0), texel(1), texel(2), texel(3)]).unwrap();
    assert_eq!(t.sample(0, 0), texel(0));
    assert_eq!(t.sample(1, 0), texel(1));
    assert_eq!(t.sample(0, 1), texel(2));
    assert_eq!(t.sample(1, 1), texel(3));
    // wrapping: one full period in either direction lands on the same texel
    assert_eq!(t.sample(2, 0), texel(0));
    assert_eq!(t.sample(-1, 0), texel(1));
    assert_eq!(t.sample(0, -1), texel(2));
    assert_eq!(t.sample(-1, -1), texel(3));
    assert_eq!(t.sample(-3, 5), texel(3));
}
