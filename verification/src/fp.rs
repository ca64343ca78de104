//! Scalar values and the primitive numeric operations of the elevation field.
//!
//! Throughout the library a scalar is carried as the 64-bit pattern of an
//! IEEE 754 double (`u64`). The operations below are the only places where
//! those patterns are handed to the hardware float unit or to the outside
//! noise generators; everything built on top of them is verified against the
//! names they return.

use vstd::prelude::*;
use byteorder::ByteOrder;
use noise::MultiFractal;
use noise::NoiseFn;

verus! {

/// Largest seed a fractal source may carry: keeps the per-octave seeds that
/// the generator derives (`seed + octave`) inside `u32` for every octave count
/// the library accepts.
pub const SEED_LIMIT: u32 = 0x7FFF_FFFF;

/// Mask applied to every seed a graph node stores, folding it into the range
/// every generator accepts with room for the per-axis offsets turbulence adds.
pub const SEED_MASK: u32 = 0x3FFF_FFFF;

/// Mask that clears the sign bit of a scalar's bit pattern.
pub const ABS_MASK: u64 = 0x7FFF_FFFF_FFFF_FFFF;

/// Bit pattern of 0.0.
pub const F_ZERO: u64 = 0x0000_0000_0000_0000;

/// Bit pattern of -0.0.
pub const F_NEG_ZERO: u64 = 0x8000_0000_0000_0000;

/// Bit pattern of 0.5.
pub const F_HALF: u64 = 0x3FE0_0000_0000_0000;

/// Bit pattern of 1.0.
pub const F_ONE: u64 = 0x3FF0_0000_0000_0000;

/// Bit pattern of 2.0.
pub const F_TWO: u64 = 0x4000_0000_0000_0000;

/// Bit pattern of 3.0.
pub const F_THREE: u64 = 0x4008_0000_0000_0000;

/// Bit pattern of -1.0.
pub const F_NEG_ONE: u64 = 0xBFF0_0000_0000_0000;

/// The bit pattern of the IEEE sum of the values encoded by `a` and `b`.
pub uninterp spec fn add_of(a: u64, b: u64) -> u64;

/// The bit pattern of the IEEE difference of the values encoded by `a` and `b`.
pub uninterp spec fn sub_of(a: u64, b: u64) -> u64;

/// The bit pattern of the IEEE product of the values encoded by `a` and `b`.
pub uninterp spec fn mul_of(a: u64, b: u64) -> u64;

/// The bit pattern of the IEEE quotient of the values encoded by `a` and `b`.
pub uninterp spec fn div_of(a: u64, b: u64) -> u64;

/// The bit pattern of the IEEE square root of the value encoded by `a`.
pub uninterp spec fn sqrt_of(a: u64) -> u64;

/// The bit pattern of the cosine of the value encoded by `a` (radians).
pub uninterp spec fn cos_of(a: u64) -> u64;

/// The bit pattern of the sine of the value encoded by `a` (radians).
pub uninterp spec fn sin_of(a: u64) -> u64;

/// The bit pattern of the value encoded by `a` raised to the value encoded by `e`.
pub uninterp spec fn powf_of(a: u64, e: u64) -> u64;

/// Whether the value encoded by `a` is strictly below the value encoded by `b`.
pub uninterp spec fn lt_of(a: u64, b: u64) -> bool;

/// The bit pattern of `x` converted exactly to a 64-bit float.
pub uninterp spec fn of_u32(x: u32) -> u64;

/// Clearing the sign bit of a pattern is exactly the float `abs` operation,
/// so no trusted call is needed for it.
pub open spec fn abs_of(a: u64) -> u64 {
    a & ABS_MASK
}

/// Flipping the sign bit of a pattern is exactly float negation, so no
/// trusted call is needed for it.
pub open spec fn neg_of(a: u64) -> u64 {
    a ^ F_NEG_ZERO
}

pub(crate) fn fp_neg(a: u64) -> (r: u64)
    ensures
        r == neg_of(a),
{
    a ^ F_NEG_ZERO
}

/// The sign bit of a scalar pattern.
pub open spec fn f_sign(v: u64) -> bool {
    v >> 63 == 1u64
}

/// The biased exponent field of a scalar pattern.
pub open spec fn f_expo(v: u64) -> u64 {
    (v >> 52) & 0x7FF
}

/// The mantissa field of a scalar pattern.
pub open spec fn f_mant(v: u64) -> u64 {
    v & 0x000F_FFFF_FFFF_FFFF
}

/// Whether the pattern encodes a NaN.
pub open spec fn is_nan_of(v: u64) -> bool {
    f_expo(v) == 0x7FF && f_mant(v) != 0
}

/// The smaller of two scalars, by the float order.
pub open spec fn fmin_of(a: u64, b: u64) -> u64 {
    if lt_of(a, b) {
        a
    } else {
        b
    }
}

/// The larger of two scalars, by the float order.
pub open spec fn fmax_of(a: u64, b: u64) -> u64 {
    if lt_of(b, a) {
        a
    } else {
        b
    }
}

/// A scalar bounded into `[lower, upper]`.
pub open spec fn fclamp_of(v: u64, lower: u64, upper: u64) -> u64 {
    if lt_of(v, lower) {
        lower
    } else if lt_of(upper, v) {
        upper
    } else {
        v
    }
}

/// Whether the pattern encodes a zero of either sign.
pub open spec fn is_zero_of(v: u64) -> bool {
    v == F_ZERO || v == F_NEG_ZERO
}

pub(crate) fn fp_min(a: u64, b: u64) -> (r: u64)
    ensures
        r == fmin_of(a, b),
{
    if fp_lt(a, b) {
        a
    } else {
        b
    }
}

pub(crate) fn fp_max(a: u64, b: u64) -> (r: u64)
    ensures
        r == fmax_of(a, b),
{
    if fp_lt(b, a) {
        a
    } else {
        b
    }
}

pub(crate) fn fp_abs(a: u64) -> (r: u64)
    ensures
        r == abs_of(a),
{
    a & ABS_MASK
}

/// Bounds a scalar into `[lower_bound, upper_bound]` by the float order. A
/// NaN compares below nothing and above nothing, so it passes through
/// unchanged.
pub fn f64_clamp(value: u64, lower_bound: u64, upper_bound: u64) -> (r: u64)
    ensures
        r == fclamp_of(value, lower_bound, upper_bound),
        is_nan_of(value) ==> r == value,
{
    if fp_lt(value, lower_bound) {
        lower_bound
    } else if fp_lt(upper_bound, value) {
        upper_bound
    } else {
        value
    }
}

/// Relies on core's `+` for 64-bit binary floats.
#[verifier::external_body]
pub(crate) fn fp_add(a: u64, b: u64) -> (r: u64)
    ensures
        r == add_of(a, b),
{
    (byteorder::LE::read_f64(&a.to_le_bytes()) + byteorder::LE::read_f64(&b.to_le_bytes()))
        .to_bits()
}

/// Relies on core's `-` for 64-bit binary floats.
#[verifier::external_body]
pub(crate) fn fp_sub(a: u64, b: u64) -> (r: u64)
    ensures
        r == sub_of(a, b),
{
    (byteorder::LE::read_f64(&a.to_le_bytes()) - byteorder::LE::read_f64(&b.to_le_bytes()))
        .to_bits()
}

/// Relies on core's `*` for 64-bit binary floats.
#[verifier::external_body]
pub(crate) fn fp_mul(a: u64, b: u64) -> (r: u64)
    ensures
        r == mul_of(a, b),
{
    (byteorder::LE::read_f64(&a.to_le_bytes()) * byteorder::LE::read_f64(&b.to_le_bytes()))
        .to_bits()
}

/// Relies on core's `/` for 64-bit binary floats (total: yields infinities or
/// NaN rather than failing).
#[verifier::external_body]
pub(crate) fn fp_div(a: u64, b: u64) -> (r: u64)
    ensures
        r == div_of(a, b),
{
    (byteorder::LE::read_f64(&a.to_le_bytes()) / byteorder::LE::read_f64(&b.to_le_bytes()))
        .to_bits()
}

/// Relies on std's `sqrt` for 64-bit binary floats.
#[verifier::external_body]
pub(crate) fn fp_sqrt(a: u64) -> (r: u64)
    ensures
        r == sqrt_of(a),
{
    byteorder::LE::read_f64(&a.to_le_bytes()).sqrt().to_bits()
}

/// Relies on std's `cos` for 64-bit binary floats. Its precision is not
/// pinned by the language; the name stands for what the one math library
/// linked into this build computes.
#[verifier::external_body]
pub(crate) fn fp_cos(a: u64) -> (r: u64)
    ensures
        r == cos_of(a),
{
    byteorder::LE::read_f64(&a.to_le_bytes()).cos().to_bits()
}

/// Relies on std's `sin` for 64-bit binary floats. Its precision is not
/// pinned by the language; the name stands for what the one math library
/// linked into this build computes.
#[verifier::external_body]
pub(crate) fn fp_sin(a: u64) -> (r: u64)
    ensures
        r == sin_of(a),
{
    byteorder::LE::read_f64(&a.to_le_bytes()).sin().to_bits()
}

/// Relies on std's `powf` for 64-bit binary floats. Its precision is not
/// pinned by the language; the name stands for what the one math library
/// linked into this build computes.
#[verifier::external_body]
pub(crate) fn fp_powf(a: u64, e: u64) -> (r: u64)
    ensures
        r == powf_of(a, e),
{
    byteorder::LE::read_f64(&a.to_le_bytes())
        .powf(byteorder::LE::read_f64(&e.to_le_bytes()))
        .to_bits()
}

/// Relies on core's `<` for 64-bit binary floats: a total comparison that is
/// false whenever either operand is a NaN.
#[verifier::external_body]
pub(crate) fn fp_lt(a: u64, b: u64) -> (r: bool)
    ensures
        r == lt_of(a, b),
        is_nan_of(a) || is_nan_of(b) ==> !r,
{
    byteorder::LE::read_f64(&a.to_le_bytes()) < byteorder::LE::read_f64(&b.to_le_bytes())
}

/// Relies on core's exact widening conversion from `u32` to a 64-bit float.
#[verifier::external_body]
pub(crate) fn fp_of_u32(x: u32) -> (r: u64)
    ensures
        r == of_u32(x),
{
    let mut buf = [0u8; 8];
    byteorder::LE::write_f64(&mut buf, x.into());
    u64::from_le_bytes(buf)
}

/// The value of the multi-octave Perlin source for the given parameters at
/// the given point.
pub uninterp spec fn perlin_of(
    seed: u32,
    frequency: u64,
    persistence: u64,
    lacunarity: u64,
    octaves: u32,
    x: u64,
    y: u64,
    z: u64,
) -> u64;

/// The value of the ridged-multifractal source for the given parameters at
/// the given point.
pub uninterp spec fn ridged_of(
    seed: u32,
    frequency: u64,
    lacunarity: u64,
    octaves: u32,
    x: u64,
    y: u64,
    z: u64,
) -> u64;

/// The value of the billow source for the given parameters at the given point.
pub uninterp spec fn billow_of(
    seed: u32,
    frequency: u64,
    persistence: u64,
    lacunarity: u64,
    octaves: u32,
    x: u64,
    y: u64,
    z: u64,
) -> u64;

/// The value of the cellular source for the given parameters at the given
/// point; `distance` selects distance-to-cell-border output over per-cell
/// values.
pub uninterp spec fn voronoi_of(seed: u32, frequency: u64, distance: bool, x: u64, y: u64, z: u64) -> u64;

/// Relies on noise's `Fbm<Perlin>`: multi-octave coherent noise that is a
/// pure function of the listed parameters and the query point.
#[verifier::external_body]
pub(crate) fn fp_perlin(
    seed: u32,
    frequency: u64,
    persistence: u64,
    lacunarity: u64,
    octaves: u32,
    x: u64,
    y: u64,
    z: u64,
) -> (r: u64)
    requires
        seed <= SEED_LIMIT,
        1 <= octaves <= 32,
    ensures
        r == perlin_of(seed, frequency, persistence, lacunarity, octaves, x, y, z),
{
    let m = noise::Fbm::<noise::Perlin>::new(seed)
        .set_frequency(byteorder::LE::read_f64(&frequency.to_le_bytes()))
        .set_persistence(byteorder::LE::read_f64(&persistence.to_le_bytes()))
        .set_lacunarity(byteorder::LE::read_f64(&lacunarity.to_le_bytes()))
        .set_octaves(octaves as usize);
    m.get([
        byteorder::LE::read_f64(&x.to_le_bytes()),
        byteorder::LE::read_f64(&y.to_le_bytes()),
        byteorder::LE::read_f64(&z.to_le_bytes()),
    ])
        .to_bits()
}

/// Relies on noise's `RidgedMulti<Perlin>` with its default persistence and
/// attenuation: ridged multifractal noise, a pure function of the listed
/// parameters and the query point.
#[verifier::external_body]
pub(crate) fn fp_ridged(
    seed: u32,
    frequency: u64,
    lacunarity: u64,
    octaves: u32,
    x: u64,
    y: u64,
    z: u64,
) -> (r: u64)
    requires
        seed <= SEED_LIMIT,
        1 <= octaves <= 32,
    ensures
        r == ridged_of(seed, frequency, lacunarity, octaves, x, y, z),
{
    let m = noise::RidgedMulti::<noise::Perlin>::new(seed)
        .set_frequency(byteorder::LE::read_f64(&frequency.to_le_bytes()))
        .set_lacunarity(byteorder::LE::read_f64(&lacunarity.to_le_bytes()))
        .set_octaves(octaves as usize);
    m.get([
        byteorder::LE::read_f64(&x.to_le_bytes()),
        byteorder::LE::read_f64(&y.to_le_bytes()),
        byteorder::LE::read_f64(&z.to_le_bytes()),
    ])
        .to_bits()
}

/// Relies on noise's `Billow<Perlin>`: multi-octave noise with absolute-valued
/// octaves, a pure function of the listed parameters and the query point.
#[verifier::external_body]
pub(crate) fn fp_billow(
    seed: u32,
    frequency: u64,
    persistence: u64,
    lacunarity: u64,
    octaves: u32,
    x: u64,
    y: u64,
    z: u64,
) -> (r: u64)
    requires
        seed <= SEED_LIMIT,
        1 <= octaves <= 32,
    ensures
        r == billow_of(seed, frequency, persistence, lacunarity, octaves, x, y, z),
{
    let m = noise::Billow::<noise::Perlin>::new(seed)
        .set_frequency(byteorder::LE::read_f64(&frequency.to_le_bytes()))
        .set_persistence(byteorder::LE::read_f64(&persistence.to_le_bytes()))
        .set_lacunarity(byteorder::LE::read_f64(&lacunarity.to_le_bytes()))
        .set_octaves(octaves as usize);
    m.get([
        byteorder::LE::read_f64(&x.to_le_bytes()),
        byteorder::LE::read_f64(&y.to_le_bytes()),
        byteorder::LE::read_f64(&z.to_le_bytes()),
    ])
        .to_bits()
}

/// Relies on noise's `Worley` generator with its default Euclidean distance
/// function: cellular noise, a pure function of the listed parameters and the
/// query point.
#[verifier::external_body]
pub(crate) fn fp_voronoi(seed: u32, frequency: u64, distance: bool, x: u64, y: u64, z: u64) -> (r:
    u64)
    ensures
        r == voronoi_of(seed, frequency, distance, x, y, z),
{
    let mut m = noise::Worley::new(seed).set_frequency(
        byteorder::LE::read_f64(&frequency.to_le_bytes()),
    );
    if distance {
        m = m.set_return_type(noise::core::worley::ReturnType::Distance);
    }
    m.get([
        byteorder::LE::read_f64(&x.to_le_bytes()),
        byteorder::LE::read_f64(&y.to_le_bytes()),
        byteorder::LE::read_f64(&z.to_le_bytes()),
    ])
        .to_bits()
}

} // verus!
