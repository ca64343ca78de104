//! Quantization of elevations into pixel sample values.
//!
//! An elevation is a 64-bit float bit pattern in `[-1, 1]`. Its sample value
//! for a depth of `levels` steps is `((v + 1) / 2) * levels` — rounded
//! half-up for the 8-bit grey format, truncated for the deeper formats —
//! bounded into `[0, levels]` and computed here exactly, in integer
//! arithmetic on the pattern itself, so the mapping's endpoints and
//! monotonicity are theorems.

use vstd::prelude::*;
use vstd::arithmetic::power2::{
    pow2, lemma_pow2_adds, lemma_pow2_strictly_increases, lemma2_to64, lemma2_to64_rest,
    lemma_pow2_pos,
};
use vstd::arithmetic::div_mod::{
    lemma_div_denominator, lemma_div_multiples_vanish, lemma_div_is_ordered, lemma_div_pos_is_pos,
    lemma_fundamental_div_mod_converse_div, lemma_multiply_divide_lt,
};
use vstd::arithmetic::mul::{
    lemma_mul_inequality, lemma_mul_strict_inequality, lemma_mul_upper_bound,
};
use crate::fp::{f_sign, f_expo, f_mant, is_nan_of};

verus! {

/// The full significand: the mantissa field with the implicit leading bit of
/// normal patterns.
pub open spec fn f_full_mant(v: u64) -> int {
    if f_expo(v) == 0 {
        f_mant(v) as int
    } else {
        f_mant(v) + pow2(52)
    }
}

/// The effective exponent field: subnormal patterns share the scale of the
/// lowest normal one.
pub open spec fn f_scale(v: u64) -> nat {
    if f_expo(v) == 0 {
        1
    } else {
        f_expo(v) as nat
    }
}

/// The numeric value of a finite scalar pattern, scaled by 2^1074 into an
/// integer: sign times significand times the power of two the exponent field
/// names. Infinite patterns land beyond the +-2^1074 marks of +-1.0, which is
/// all the quantizer asks of them.
pub open spec fn fixed_of(v: u64) -> int {
    let mag: int = f_full_mant(v) * pow2((f_scale(v) - 1) as nat);
    if f_sign(v) {
        -mag
    } else {
        mag
    }
}

/// What +1.0 becomes under the 2^1074 scaling.
pub open spec fn unit_scale() -> int {
    pow2(1074) as int
}

/// The sample value of elevation `v` at a depth of `levels` steps:
/// `((v + 1) / 2) * levels` computed exactly, rounded half-up when `round`
/// and truncated otherwise, bounded into `[0, levels]`; NaN quantizes to 0.
pub open spec fn sample_of(v: u64, levels: u32, round: bool) -> u32 {
    if is_nan_of(v) {
        0
    } else if fixed_of(v) >= unit_scale() {
        levels
    } else if fixed_of(v) <= -unit_scale() {
        0
    } else {
        (((unit_scale() + fixed_of(v)) * levels + if round {
            unit_scale()
        } else {
            0
        }) / (2 * unit_scale())) as u32
    }
}

/// The rounding sample map, used by the 8-bit grey format.
pub open spec fn quantize_of(v: u64, levels: u32) -> u32 {
    sample_of(v, levels, true)
}

/// The truncating sample map, used by the 16-bit grey and 24-bit colour
/// formats.
pub open spec fn trunc_of(v: u64, levels: u32) -> u32 {
    sample_of(v, levels, false)
}

/// The scaled numerator of the exact sample: for `-1 < v < 1`,
/// `((v + 1) / 2) * levels` scaled by 2^1075, plus half a step when
/// rounding.
spec fn mid_num(v: u64, levels: u32, round: bool) -> int {
    (unit_scale() + fixed_of(v)) * levels + if round {
        unit_scale()
    } else {
        0
    }
}

/// Field decomposition facts every proof below leans on.
proof fn lemma_fields(v: u64)
    ensures
        f_expo(v) <= 0x7FF,
        f_mant(v) < pow2(52),
        pow2(52) == 0x0010_0000_0000_0000,
        pow2(53) == 0x0020_0000_0000_0000,
        f_full_mant(v) < pow2(53),
        0 <= f_full_mant(v),
        1 <= f_scale(v) <= 0x7FF,
{
    lemma_pow2_adds(52, 1);
    assert((v >> 52) & 0x7FF <= 0x7FF) by (bit_vector);
    assert(v & 0x000F_FFFF_FFFF_FFFF < 0x0010_0000_0000_0000) by (bit_vector);
    lemma2_to64();
    lemma2_to64_rest();
}

/// A pattern whose exponent field reaches the exponent of 1.0 sits at or
/// beyond the +-1.0 marks; one below it sits strictly inside them.
proof fn lemma_magnitude(v: u64)
    ensures
        f_expo(v) >= 1023 ==> (if f_sign(v) {
            fixed_of(v) <= -unit_scale()
        } else {
            fixed_of(v) >= unit_scale()
        }),
        f_expo(v) <= 1022 ==> -unit_scale() < fixed_of(v) < unit_scale(),
{
    lemma_fields(v);
    let m = f_full_mant(v);
    let e = f_scale(v);
    lemma_pow2_pos(52);
    lemma_pow2_pos((e - 1) as nat);
    if f_expo(v) >= 1023 {
        assert(m >= pow2(52));
        if e - 1 > 1022 {
            lemma_pow2_strictly_increases(1022, (e - 1) as nat);
        }
        assert(pow2((e - 1) as nat) >= pow2(1022));
        assert(m * pow2((e - 1) as nat) >= pow2(52) * pow2(1022)) by {
            lemma_mul_inequality(pow2(52) as int, m, pow2((e - 1) as nat) as int);
            lemma_mul_inequality(pow2(1022) as int, pow2((e - 1) as nat) as int, pow2(52) as int);
            assert(pow2(52) * pow2((e - 1) as nat) == pow2((e - 1) as nat) * pow2(52));
        }
        lemma_pow2_adds(52, 1022);
    } else {
        assert(e - 1 <= 1021);
        if e - 1 < 1021 {
            lemma_pow2_strictly_increases((e - 1) as nat, 1021);
        }
        assert(pow2((e - 1) as nat) <= pow2(1021));
        assert(m * pow2((e - 1) as nat) < pow2(53) * pow2(1021)) by {
            lemma_mul_strict_inequality(m, pow2(53) as int, pow2((e - 1) as nat) as int);
            assert(m * pow2((e - 1) as nat) == pow2((e - 1) as nat) * m);
            assert(pow2(53) * pow2((e - 1) as nat) == pow2((e - 1) as nat) * pow2(53));
            lemma_mul_inequality(pow2((e - 1) as nat) as int, pow2(1021) as int, pow2(53) as int);
            lemma_pow2_pos((e - 1) as nat);
        }
        lemma_pow2_adds(53, 1021);
    }
}

/// The exact sample stays within the sample range.
proof fn lemma_mid_bounds(v: u64, levels: u32, round: bool)
    requires
        -unit_scale() < fixed_of(v) < unit_scale(),
    ensures
        0 <= mid_num(v, levels, round) / (2 * unit_scale()) <= levels,
{
    let s = unit_scale();
    let f = fixed_of(v);
    lemma_pow2_pos(1074);
    assert((s + f) * levels >= 0) by {
        lemma_mul_inequality(0, s + f, levels as int);
        assert(0 * levels == 0) by (nonlinear_arith);
    }
    lemma_div_pos_is_pos(mid_num(v, levels, round), 2 * s);
    assert(mid_num(v, levels, round) < (2 * s) * (levels + 1)) by {
        lemma_mul_inequality(s + f, 2 * s, levels as int);
        assert((2 * s) * (levels + 1) == (2 * s) * levels + 2 * s) by (nonlinear_arith);
    }
    lemma_multiply_divide_lt(mid_num(v, levels, round), 2 * s, levels + 1);
}

/// Either sample map is monotone: a lower elevation never yields a higher
/// sample.
proof fn lemma_sample_monotone(v1: u64, v2: u64, levels: u32, round: bool)
    requires
        !is_nan_of(v1),
        !is_nan_of(v2),
        fixed_of(v1) <= fixed_of(v2),
    ensures
        sample_of(v1, levels, round) <= sample_of(v2, levels, round),
{
    let s = unit_scale();
    lemma_pow2_pos(1074);
    if fixed_of(v1) >= s || fixed_of(v2) <= -s {
        // Both saturate on the same side.
    } else if fixed_of(v1) <= -s {
        // The lower one is pinned at zero.
        if -s < fixed_of(v2) < s {
            lemma_mid_bounds(v2, levels, round);
        }
    } else if fixed_of(v2) >= s {
        // The higher one is pinned at the top.
        lemma_mid_bounds(v1, levels, round);
    } else {
        lemma_mid_bounds(v1, levels, round);
        lemma_mid_bounds(v2, levels, round);
        assert((s + fixed_of(v1)) * levels <= (s + fixed_of(v2)) * levels) by {
            lemma_mul_inequality(s + fixed_of(v1), s + fixed_of(v2), levels as int);
        }
        lemma_div_is_ordered(mid_num(v1, levels, round), mid_num(v2, levels, round), 2 * s);
    }
}

/// The rounding map is monotone in the elevation.
pub proof fn lemma_quantize_monotone(v1: u64, v2: u64, levels: u32)
    requires
        !is_nan_of(v1),
        !is_nan_of(v2),
        fixed_of(v1) <= fixed_of(v2),
    ensures
        quantize_of(v1, levels) <= quantize_of(v2, levels),
{
    lemma_sample_monotone(v1, v2, levels, true);
}

/// The truncating map is monotone in the elevation.
pub proof fn lemma_trunc_monotone(v1: u64, v2: u64, levels: u32)
    requires
        !is_nan_of(v1),
        !is_nan_of(v2),
        fixed_of(v1) <= fixed_of(v2),
    ensures
        trunc_of(v1, levels) <= trunc_of(v2, levels),
{
    lemma_sample_monotone(v1, v2, levels, false);
}

/// -1.0 quantizes to 0 and +1.0 to the full depth, under both maps, at every
/// depth.
pub proof fn lemma_quantize_endpoints(levels: u32)
    ensures
        quantize_of(crate::fp::F_NEG_ONE, levels) == 0,
        quantize_of(crate::fp::F_ONE, levels) == levels,
        trunc_of(crate::fp::F_NEG_ONE, levels) == 0,
        trunc_of(crate::fp::F_ONE, levels) == levels,
{
    assert(0x3FF0_0000_0000_0000u64 >> 63 == 0) by (bit_vector);
    assert((0x3FF0_0000_0000_0000u64 >> 52) & 0x7FF == 0x3FF) by (bit_vector);
    assert(0x3FF0_0000_0000_0000u64 & 0x000F_FFFF_FFFF_FFFF == 0) by (bit_vector);
    assert(0xBFF0_0000_0000_0000u64 >> 63 == 1) by (bit_vector);
    assert((0xBFF0_0000_0000_0000u64 >> 52) & 0x7FF == 0x3FF) by (bit_vector);
    assert(0xBFF0_0000_0000_0000u64 & 0x000F_FFFF_FFFF_FFFF == 0) by (bit_vector);
    lemma_magnitude(crate::fp::F_NEG_ONE);
    lemma_magnitude(crate::fp::F_ONE);
    lemma_pow2_pos(1074);
}

fn pow2_u128(e: u32) -> (s: u128)
    requires
        e <= 100,
    ensures
        s == pow2(e as nat),
        s >= 1,
{
    proof {
        lemma2_to64();
    }
    let mut s: u128 = 1;
    let mut k: u32 = 0;
    while k < e
        invariant
            k <= e,
            e <= 100,
            s == pow2(k as nat),
        decreases e - k,
    {
        proof {
            lemma_pow2_adds(k as nat, 1);
            lemma2_to64();
            lemma_pow2_strictly_increases((k + 1) as nat, 128);
            lemma_pow2_adds(64, 64);
            lemma2_to64_rest();
        }
        s = s * 2;
        k = k + 1;
    }
    proof {
        lemma_pow2_pos(e as nat);
    }
    s
}

/// Computes a sample in `[0, levels]`, exactly per `sample_of`.
fn sample(v: u64, levels: u32, round: bool) -> (q: u32)
    requires
        1 <= levels <= 0x00FF_FFFF,
    ensures
        q == sample_of(v, levels, round),
        q <= levels,
{
    let sign = v >> 63 == 1;
    let expo = (v >> 52) & 0x7FF;
    let mant = v & 0x000F_FFFF_FFFF_FFFF;
    proof {
        lemma_fields(v);
        lemma_magnitude(v);
        lemma_pow2_pos(1074);
    }
    if expo == 0x7FF && mant != 0 {
        return 0;
    }
    if expo >= 1023 {
        if sign {
            return 0;
        } else {
            return levels;
        }
    }
    // Here the magnitude is below one. Work at the scale of the pattern's own
    // exponent, where the numerator fits machine words whenever the value is
    // large enough to matter.
    let m: u64 = if expo == 0 {
        mant
    } else {
        mant | 0x0010_0000_0000_0000
    };
    let e: u32 = if expo == 0 {
        1
    } else {
        expo as u32
    };
    let a: u32 = 1075 - e;
    proof {
        assert(mant | 0x0010_0000_0000_0000 == mant + 0x0010_0000_0000_0000) by (bit_vector)
            requires
                mant < 0x0010_0000_0000_0000,
        ;
        lemma2_to64();
        lemma2_to64_rest();
        assert(m == f_full_mant(v));
        assert(e == f_scale(v));
        assert(53 <= a <= 1074);
    }
    if a <= 77 {
        let s = pow2_u128(a);
        proof {
            if 53 < a {
                lemma_pow2_strictly_increases(53, a as nat);
            }
            if a < 77 {
                lemma_pow2_strictly_increases(a as nat, 77);
            }
            assert(m < pow2(53)) by {
                lemma_pow2_adds(52, 1);
            }
            // concrete sizes for the overflow bounds
            lemma_pow2_adds(64, 13);
            lemma_pow2_adds(64, 14);
            lemma_pow2_adds(64, 39);
            lemma_pow2_adds(64, 64);
        }
        let bias: u128 = if round {
            s
        } else {
            0
        };
        let num: u128 = if sign {
            proof {
                assert((s - m as u128) * levels as u128 + s <= pow2(78) * 0x00FF_FFFF + pow2(77))
                    by {
                    lemma_mul_upper_bound(
                        (s - m as u128) as int,
                        2 * pow2(77) as int,
                        levels as int,
                        0x00FF_FFFF,
                    );
                    lemma_pow2_adds(77, 1);
                }
            }
            (s - m as u128) * levels as u128 + bias
        } else {
            proof {
                assert((s + m as u128) * levels as u128 + s <= pow2(78) * 0x00FF_FFFF + pow2(77))
                    by {
                    lemma_mul_upper_bound(
                        (s + m as u128) as int,
                        2 * pow2(77) as int,
                        levels as int,
                        0x00FF_FFFF,
                    );
                    lemma_pow2_adds(77, 1);
                }
            }
            (s + m as u128) * levels as u128 + bias
        };
        proof {
            lemma_sample_scaling(v, levels, round);
            lemma_mid_bounds(v, levels, round);
        }
        let q128 = num / (2 * s);
        q128 as u32
    } else {
        // The value is too small to move the scaled sample across more than
        // one step boundary: the sample is the midpoint's, nudged one step
        // down where a negative value drops it below the boundary.
        proof {
            lemma_sample_scaling(v, levels, round);
            lemma_mid_bounds(v, levels, round);
            lemma_tiny_value(v, levels, round);
        }
        if round {
            if sign && m != 0 {
                levels / 2
            } else {
                (levels + 1) / 2
            }
        } else {
            if sign && m != 0 && levels % 2 == 0 {
                levels / 2 - 1
            } else {
                levels / 2
            }
        }
    }
}

/// The rounding sample map, used by the 8-bit grey format.
pub fn quantize(v: u64, levels: u32) -> (q: u32)
    requires
        1 <= levels <= 0x00FF_FFFF,
    ensures
        q == quantize_of(v, levels),
        q <= levels,
{
    sample(v, levels, true)
}

/// The truncating sample map, used by the 16-bit grey and 24-bit colour
/// formats.
pub fn quantize_trunc(v: u64, levels: u32) -> (q: u32)
    requires
        1 <= levels <= 0x00FF_FFFF,
    ensures
        q == trunc_of(v, levels),
        q <= levels,
{
    sample(v, levels, false)
}

/// The signed significand of a pattern.
spec fn signed_mant(v: u64) -> int {
    if f_sign(v) {
        -f_full_mant(v)
    } else {
        f_full_mant(v)
    }
}

/// The sample numerator at the scale of the pattern's own exponent.
spec fn small_num(v: u64, levels: u32, round: bool) -> int {
    let a = (1075 - f_scale(v)) as nat;
    (pow2(a) + signed_mant(v)) * levels + if round {
        pow2(a) as int
    } else {
        0
    }
}

/// The exact sample may be computed at the scale of the pattern's own
/// exponent: dividing numerator and denominator by 2^(scale - 1) changes
/// nothing.
proof fn lemma_sample_scaling(v: u64, levels: u32, round: bool)
    requires
        1 <= levels,
        f_expo(v) <= 1022,
    ensures
        mid_num(v, levels, round) / (2 * unit_scale()) == small_num(v, levels, round) / (2 * pow2(
            (1075 - f_scale(v)) as nat,
        ) as int),
{
    let e = f_scale(v);
    let a = (1075 - e) as nat;
    let fm = signed_mant(v);
    let c = pow2((e - 1) as nat) as int;
    let s = pow2(a) as int;
    lemma_pow2_pos(a);
    lemma_pow2_pos((e - 1) as nat);
    lemma_pow2_pos(1074);
    lemma_pow2_adds(a, (e - 1) as nat);
    assert(s * c == unit_scale());
    lemma_fields(v);
    assert(pow2(53) <= pow2(a)) by {
        if 53 < a {
            lemma_pow2_strictly_increases(53, a);
        }
    }
    assert((-f_full_mant(v)) * c == -(f_full_mant(v) * c)) by (nonlinear_arith);
    assert(fixed_of(v) == fm * c);
    let b: int = if round {
        1
    } else {
        0
    };
    let num = small_num(v, levels, round);
    assert(num == (s + fm) * levels + b * s) by (nonlinear_arith)
        requires
            num == (s + fm) * levels + (if round {
                s
            } else {
                0int
            }),
            b == (if round {
                1int
            } else {
                0int
            }),
            b * s == (if round {
                s
            } else {
                0int
            }),
    ;
    assert(num >= 0) by (nonlinear_arith)
        requires
            num == (s + fm) * levels + b * s,
            s + fm >= 0,
            levels >= 1,
            s >= 1,
            b >= 0,
    ;
    assert(c * num >= 0) by (nonlinear_arith)
        requires
            c >= 1,
            num >= 0,
    ;
    assert(mid_num(v, levels, round) == c * num) by (nonlinear_arith)
        requires
            mid_num(v, levels, round) == (s * c + fm * c) * levels + b * (s * c),
            num == (s + fm) * levels + b * s,
    ;
    lemma_div_denominator(c * num, c, 2 * s);
    assert((c * num) / c == num) by {
        lemma_div_multiples_vanish(num, c);
    }
    assert(c * (2 * s) == 2 * (s * c)) by (nonlinear_arith);
}

/// For patterns more than 2^53 times smaller than a step, the sample
/// collapses to the midpoint's, one step lower where truncation meets a
/// negative value at an even depth.
proof fn lemma_tiny_value(v: u64, levels: u32, round: bool)
    requires
        1 <= levels <= 0x00FF_FFFF,
        f_expo(v) <= 1022,
        1075 - f_scale(v) >= 78,
    ensures
        small_num(v, levels, round) / (2 * pow2((1075 - f_scale(v)) as nat) as int) == (if round {
            if f_sign(v) && f_full_mant(v) != 0 {
                (levels / 2) as int
            } else {
                ((levels + 1) / 2) as int
            }
        } else {
            if f_sign(v) && f_full_mant(v) != 0 && levels % 2 == 0 {
                (levels / 2) as int - 1
            } else {
                (levels / 2) as int
            }
        }),
{
    lemma_fields(v);
    let a = (1075 - f_scale(v)) as nat;
    let s = pow2(a) as int;
    let m = f_full_mant(v);
    let fm = signed_mant(v);
    let num = small_num(v, levels, round);
    lemma_pow2_pos(a);
    lemma_pow2_pos((a - 1) as nat);
    // The perturbation m * levels is under half the denominator.
    assert(m < pow2(53)) by {
        lemma_pow2_adds(52, 1);
        lemma2_to64();
    }
    assert(m * levels < pow2(77)) by {
        lemma_pow2_adds(53, 24);
        lemma2_to64();
        lemma_mul_upper_bound(m, pow2(53) as int - 1, levels as int, 0x00FF_FFFF);
    }
    assert(pow2(77) <= pow2((a - 1) as nat)) by {
        if 77 < a - 1 {
            lemma_pow2_strictly_increases(77, (a - 1) as nat);
        }
    }
    assert(2 * pow2((a - 1) as nat) == s) by {
        lemma_pow2_adds((a - 1) as nat, 1);
        lemma2_to64();
    }
    if round {
        let q = ((levels + 1) / 2) as int;
        let r = ((levels + 1) % 2) as int;
        assert(levels + 1 == 2 * q + r && 0 <= r < 2) by {
            vstd::arithmetic::div_mod::lemma_fundamental_div_mod((levels + 1) as int, 2);
        }
        assert(num == s * levels + fm * levels + s) by (nonlinear_arith)
            requires
                num == (s + fm) * levels + s,
        ;
        assert(s * levels + s == (2 * s) * q + s * r) by (nonlinear_arith)
            requires
                levels + 1 == 2 * q + r,
        ;
        if !f_sign(v) || m == 0 {
            assert(fm * levels >= 0 && fm * levels < pow2((a - 1) as nat)) by {
                if m == 0 {
                    assert(fm == 0);
                    assert(fm * levels == 0) by (nonlinear_arith)
                        requires
                            fm == 0,
                    ;
                } else {
                    lemma_mul_inequality(0, fm, levels as int);
                    assert(0 * levels == 0) by (nonlinear_arith);
                }
            }
            let rem = s * r + fm * levels;
            assert(num == (2 * s) * q + rem);
            assert(0 <= rem < 2 * s) by {
                assert(s * r <= s && s * r >= 0) by (nonlinear_arith)
                    requires
                        0 <= r < 2,
                        s * 1 == s,
                        0 < s,
                ;
            }
            lemma_fundamental_div_mod_converse_div(num, 2 * s, q, rem);
        } else {
            // Strictly negative perturbation: it drops just below the
            // midpoint.
            assert(m * levels > 0) by {
                lemma_mul_strict_inequality(0, m, levels as int);
                assert(0 * levels == 0) by (nonlinear_arith);
            }
            assert(fm * levels == -(m * levels)) by (nonlinear_arith)
                requires
                    fm == -m,
            ;
            if r == 1 {
                // Even depth: the midpoint sits between samples and the
                // nudge stays in the same slot.
                let rem = s - m * levels;
                assert(num == (2 * s) * q + rem);
                lemma_fundamental_div_mod_converse_div(num, 2 * s, q, rem);
                assert(levels == 2 * q);
                assert((levels / 2) as int == q) by {
                    lemma_div_multiples_vanish(q, 2);
                }
            } else {
                // Odd depth: the midpoint sits exactly on a sample and the
                // nudge drops below it.
                let rem = 2 * s - m * levels;
                assert(num == (2 * s) * (q - 1) + rem) by (nonlinear_arith)
                    requires
                        num == (2 * s) * q + s * 0 + fm * levels,
                        fm * levels == -(m * levels),
                        rem == 2 * s - m * levels,
                ;
                lemma_fundamental_div_mod_converse_div(num, 2 * s, q - 1, rem);
                assert(levels == 2 * q - 1);
                assert((levels / 2) as int == q - 1) by {
                    lemma_fundamental_div_mod_converse_div(levels as int, 2, q - 1, 1);
                }
            }
        }
    } else {
        let q = (levels / 2) as int;
        let r = (levels % 2) as int;
        assert(levels == 2 * q + r && 0 <= r < 2) by {
            vstd::arithmetic::div_mod::lemma_fundamental_div_mod(levels as int, 2);
        }
        assert(num == s * levels + fm * levels) by (nonlinear_arith)
            requires
                num == (s + fm) * levels + 0,
        ;
        assert(s * levels == (2 * s) * q + s * r) by (nonlinear_arith)
            requires
                levels == 2 * q + r,
        ;
        if !f_sign(v) || m == 0 {
            assert(fm * levels >= 0 && fm * levels < pow2((a - 1) as nat)) by {
                if m == 0 {
                    assert(fm == 0);
                    assert(fm * levels == 0) by (nonlinear_arith)
                        requires
                            fm == 0,
                    ;
                } else {
                    lemma_mul_inequality(0, fm, levels as int);
                    assert(0 * levels == 0) by (nonlinear_arith);
                }
            }
            let rem = s * r + fm * levels;
            assert(num == (2 * s) * q + rem);
            assert(0 <= rem < 2 * s) by {
                assert(s * r <= s && s * r >= 0) by (nonlinear_arith)
                    requires
                        0 <= r < 2,
                        s * 1 == s,
                        0 < s,
                ;
            }
            lemma_fundamental_div_mod_converse_div(num, 2 * s, q, rem);
        } else {
            assert(m * levels > 0) by {
                lemma_mul_strict_inequality(0, m, levels as int);
                assert(0 * levels == 0) by (nonlinear_arith);
            }
            assert(fm * levels == -(m * levels)) by (nonlinear_arith)
                requires
                    fm == -m,
            ;
            if r == 1 {
                // Odd depth: the sample sits half a step above the boundary,
                // so the nudge stays in the same slot.
                let rem = s - m * levels;
                assert(num == (2 * s) * q + rem);
                lemma_fundamental_div_mod_converse_div(num, 2 * s, q, rem);
            } else {
                // Even depth: the sample sits exactly on the boundary and
                // the nudge drops below it.
                let rem = 2 * s - m * levels;
                assert(num == (2 * s) * (q - 1) + rem) by (nonlinear_arith)
                    requires
                        num == (2 * s) * q + s * 0 + fm * levels,
                        fm * levels == -(m * levels),
                        rem == 2 * s - m * levels,
                ;
                lemma_fundamental_div_mod_converse_div(num, 2 * s, q - 1, rem);
            }
        }
    }
}

} // verus!
