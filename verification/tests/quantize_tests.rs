//! The quantizer against a floating-point reference.

use planetgen::clamp;
use planetgen::quantize::{quantize, quantize_trunc};

/// Round-half-up of ((v + 1) / 2) * levels, bounded into [0, levels], on
/// values where the float computation is exact.
fn reference(v: f64, levels: u32) -> u32 {
    if v.is_nan() {
        return 0;
    }
    if v >= 1.0 {
        return levels;
    }
    if v <= -1.0 {
        return 0;
    }
    let x = ((v + 1.0) / 2.0) * levels as f64;
    (x + 0.5).floor() as u32
}

#[test]
fn grey8_endpoints() {
    assert_eq!(quantize((-1.0f64).to_bits(), 255), 0);
    assert_eq!(quantize(1.0f64.to_bits(), 255), 255);
    assert_eq!(quantize(f64::NEG_INFINITY.to_bits(), 255), 0);
    assert_eq!(quantize(f64::INFINITY.to_bits(), 255), 255);
    assert_eq!(quantize(f64::NAN.to_bits(), 255), 0);
    assert_eq!(quantize((-2.5f64).to_bits(), 255), 0);
    assert_eq!(quantize(7.25f64.to_bits(), 255), 255);
}

#[test]
fn grey8_midpoints() {
    // the midpoint 127.5 rounds up
    assert_eq!(quantize(0.0f64.to_bits(), 255), 128);
    assert_eq!(quantize((-0.0f64).to_bits(), 255), 128);
    // a hair below zero lands one step lower
    assert_eq!(quantize((-1.0e-300f64).to_bits(), 255), 127);
    assert_eq!(quantize(1.0e-300f64.to_bits(), 255), 128);
    assert_eq!(quantize((-0.5f64).to_bits(), 255), 64);
    assert_eq!(quantize(0.5f64.to_bits(), 255), 191);
}

#[test]
fn grey16_and_colour_depths_truncate() {
    // the deeper formats truncate, as greyscale-16 and colour-24 always did
    assert_eq!(quantize_trunc((-1.0f64).to_bits(), 65535), 0);
    assert_eq!(quantize_trunc(1.0f64.to_bits(), 65535), 65535);
    assert_eq!(quantize_trunc(0.0f64.to_bits(), 65535), 32767);
    assert_eq!(quantize_trunc((-1.0e-300f64).to_bits(), 65535), 32767);
    assert_eq!(quantize_trunc(1.0e-300f64.to_bits(), 65535), 32767);
    assert_eq!(quantize_trunc((-1.0f64).to_bits(), 16777215), 0);
    assert_eq!(quantize_trunc(1.0f64.to_bits(), 16777215), 16777215);
    assert_eq!(quantize_trunc(0.0f64.to_bits(), 16777215), 8388607);
    assert_eq!(quantize_trunc(0.25f64.to_bits(), 16777215), 10485759);
    assert_eq!(quantize_trunc(f64::NAN.to_bits(), 65535), 0);
}

#[test]
fn trunc_matches_float_reference() {
    let samples = [
        -1.0f64, -0.875, -0.75, -0.5, -0.375, -0.25, -0.125, -0.0625, 0.0, 0.0625, 0.125, 0.25,
        0.375, 0.5, 0.625, 0.75, 0.875, 1.0,
    ];
    for &v in samples.iter() {
        for &levels in [65535u32, 16777215].iter() {
            let want = if v >= 1.0 {
                levels
            } else if v <= -1.0 {
                0
            } else {
                (((v + 1.0) / 2.0) * levels as f64) as u32
            };
            assert_eq!(quantize_trunc(v.to_bits(), levels), want, "v={v} levels={levels}");
        }
    }
}

#[test]
fn matches_float_reference_on_exact_values() {
    let samples = [
        -1.0f64, -0.875, -0.75, -0.5, -0.375, -0.25, -0.125, -0.0625, 0.0, 0.0625, 0.125, 0.25,
        0.375, 0.5, 0.625, 0.75, 0.875, 1.0,
    ];
    for &v in samples.iter() {
        for &levels in [255u32, 65535, 16777215].iter() {
            assert_eq!(quantize(v.to_bits(), levels), reference(v, levels), "v={v} levels={levels}");
        }
    }
}

#[test]
fn monotone_in_elevation() {
    let mut samples: Vec<f64> = vec![
        f64::NEG_INFINITY,
        -2.0,
        -1.0,
        -0.99,
        -0.6,
        -0.30000001,
        -0.3,
        -1.0e-12,
        -1.0e-300,
        -0.0,
        0.0,
        1.0e-300,
        0.37,
        0.5,
        0.500001,
        0.99999,
        1.0,
        3.5,
        f64::INFINITY,
    ];
    samples.sort_by(|a, b| a.partial_cmp(b).unwrap());
    for &levels in [255u32, 65535, 16777215].iter() {
        let mut last = 0u32;
        let mut last_t = 0u32;
        for &v in samples.iter() {
            let q = quantize(v.to_bits(), levels);
            assert!(q >= last, "not monotone at v={v} levels={levels}");
            assert!(q <= levels);
            last = q;
            let t = quantize_trunc(v.to_bits(), levels);
            assert!(t >= last_t, "trunc not monotone at v={v} levels={levels}");
            assert!(t <= levels);
            last_t = t;
        }
    }
}

#[test]
fn integer_clamp_bounds() {
    assert_eq!(clamp(-7, 0, 255), 0);
    assert_eq!(clamp(300, 0, 255), 255);
    assert_eq!(clamp(128, 0, 255), 128);
    assert_eq!(clamp(0, 0, 65535), 0);
    assert_eq!(clamp(70000, 0, 65535), 65535);
}
