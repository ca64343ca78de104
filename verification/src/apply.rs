//! Executable shaping rules, each proved equal to its spec in `eval`.

use vstd::prelude::*;
use crate::fp::{
    lt_of, fp_add, fp_sub, fp_mul, fp_div, fp_powf, fp_lt, fp_abs, f64_clamp, fp_perlin, F_ZERO,
    F_NEG_ZERO, F_HALF, F_ONE, F_TWO, F_THREE, SEED_LIMIT,
};
use crate::graph::ControlPoint;
use crate::eval::{
    scale_bias_of, lerp_of, scurve3_of, blend_of, exponent_of, select_of, cubic_of, curve_of,
    terrace_of, exact_match_from, first_above_from, terrace_above_from, iclamp, turb_warp_of,
    lemma_exact_match_from, lemma_first_above_from, lemma_terrace_above_from, Point3, TURB_X0,
    TURB_Y0, TURB_Z0, TURB_X1, TURB_Y1, TURB_Z1, TURB_X2, TURB_Y2, TURB_Z2,
};

verus! {

pub(crate) fn apply_scale_bias(v: u64, scale: u64, bias: u64) -> (r: u64)
    ensures
        r == scale_bias_of(v, scale, bias),
{
    fp_add(fp_mul(v, scale), bias)
}

pub(crate) fn apply_lerp(a: u64, b: u64, alpha: u64) -> (r: u64)
    ensures
        r == lerp_of(a, b, alpha),
{
    fp_add(fp_mul(fp_sub(F_ONE, alpha), a), fp_mul(alpha, b))
}

pub(crate) fn apply_scurve3(a: u64) -> (r: u64)
    ensures
        r == scurve3_of(a),
{
    fp_mul(fp_mul(a, a), fp_sub(F_THREE, fp_mul(F_TWO, a)))
}

pub(crate) fn apply_blend(v0: u64, v1: u64, control: u64) -> (r: u64)
    ensures
        r == blend_of(v0, v1, control),
{
    let alpha = f64_clamp(fp_div(fp_add(control, F_ONE), F_TWO), F_ZERO, F_ONE);
    apply_lerp(v0, v1, alpha)
}

pub(crate) fn apply_exponent(v: u64, exponent: u64) -> (r: u64)
    ensures
        r == exponent_of(v, exponent),
{
    let unit = fp_abs(fp_div(fp_add(v, F_ONE), F_TWO));
    fp_sub(fp_mul(fp_powf(unit, exponent), F_TWO), F_ONE)
}

pub(crate) fn apply_select(v0: u64, v1: u64, c: u64, lower: u64, upper: u64, falloff: u64) -> (r:
    u64)
    ensures
        r == select_of(v0, v1, c, lower, upper, falloff),
{
    if falloff == F_ZERO || falloff == F_NEG_ZERO {
        if fp_lt(c, lower) || fp_lt(upper, c) {
            v0
        } else {
            v1
        }
    } else {
        let ll = fp_sub(lower, falloff);
        let lu = fp_add(lower, falloff);
        let ul = fp_sub(upper, falloff);
        let uu = fp_add(upper, falloff);
        if fp_lt(c, ll) {
            v0
        } else if fp_lt(c, lu) {
            apply_lerp(v0, v1, apply_scurve3(fp_div(fp_sub(c, ll), fp_sub(lu, ll))))
        } else if fp_lt(c, ul) {
            v1
        } else if fp_lt(c, uu) {
            apply_lerp(v1, v0, apply_scurve3(fp_div(fp_sub(c, ul), fp_sub(uu, ul))))
        } else {
            v0
        }
    }
}

pub(crate) fn apply_cubic(n0: u64, n1: u64, n2: u64, n3: u64, alpha: u64) -> (r: u64)
    ensures
        r == cubic_of(n0, n1, n2, n3, alpha),
{
    let p = fp_sub(fp_sub(n3, n2), fp_sub(n0, n1));
    let q = fp_sub(fp_sub(n0, n1), p);
    let rr = fp_sub(n2, n0);
    let a2 = fp_mul(alpha, alpha);
    let a3 = fp_mul(a2, alpha);
    fp_add(fp_add(fp_add(fp_mul(p, a3), fp_mul(q, a2)), fp_mul(rr, alpha)), n1)
}

fn clamp_index(x: usize, shift_down: usize, n: usize) -> (r: usize)
    requires
        n >= 1,
    ensures
        r == iclamp(x - shift_down, 0, n - 1),
{
    if x <= shift_down {
        0
    } else if x - shift_down > n - 1 {
        n - 1
    } else {
        x - shift_down
    }
}

fn apply_segment(p0: ControlPoint, p1: ControlPoint, v: u64) -> (r: u64)
    ensures
        r == crate::eval::segment_of(p0, p1, v),
{
    apply_lerp(p0.output, p1.output, fp_div(fp_sub(v, p0.input), fp_sub(p1.input, p0.input)))
}

/// Looks up a curve table: exact control-point hits return that point's
/// output; values inside the table follow the spline through the four
/// nearest points, values outside it the extended boundary segment.
pub(crate) fn apply_curve(points: &Vec<ControlPoint>, v: u64) -> (r: u64)
    requires
        points@.len() >= 1,
    ensures
        r == curve_of(points@, v),
{
    let ghost ps = points@;
    let n = points.len();
    let mut j: usize = 0;
    while j < n
        invariant
            n == ps.len(),
            ps == points@,
            j <= n,
            forall|t: int| 0 <= t < j ==> ps[t].input != v,
        decreases n - j,
    {
        if points[j].input == v {
            proof {
                lemma_exact_match_from(ps, v, 0);
                assert(exact_match_from(ps, v, 0) == j);
            }
            return points[j].output;
        }
        j = j + 1;
    }
    proof {
        lemma_exact_match_from(ps, v, 0);
        assert(exact_match_from(ps, v, 0) == ps.len());
    }
    let mut ip: usize = 0;
    while ip < n && !fp_lt(v, points[ip].input)
        invariant
            n == ps.len(),
            ps == points@,
            ip <= n,
            forall|t: int| 0 <= t < ip ==> !lt_of(v, ps[t].input),
        decreases n - ip,
    {
        ip = ip + 1;
    }
    proof {
        lemma_first_above_from(ps, v, 0);
        assert(first_above_from(ps, v, 0) == ip);
    }
    if n < 2 {
        return points[0].output;
    }
    if ip == 0 {
        return apply_segment(points[0], points[1], v);
    }
    if ip == n {
        return apply_segment(points[n - 2], points[n - 1], v);
    }
    let i0 = clamp_index(ip, 2, n);
    let i3 = if ip >= n - 1 {
        n - 1
    } else {
        ip + 1
    };
    proof {
        assert(i3 == iclamp(ip + 1, 0, n - 1));
    }
    let alpha = fp_div(fp_sub(v, points[ip - 1].input), fp_sub(points[ip].input, points[ip - 1].input));
    apply_cubic(points[i0].output, points[ip - 1].output, points[ip].output, points[i3].output, alpha)
}

/// Looks up a terrace table: maps the value into its step band.
pub(crate) fn apply_terrace(values: &Vec<u64>, inverted: bool, v: u64) -> (r: u64)
    requires
        values@.len() >= 1,
    ensures
        r == terrace_of(values@, inverted, v),
{
    let ghost vs = values@;
    let n = values.len();
    let mut ip: usize = 0;
    while ip < n && !fp_lt(v, values[ip])
        invariant
            n == vs.len(),
            vs == values@,
            ip <= n,
            forall|t: int| 0 <= t < ip ==> !lt_of(v, vs[t]),
        decreases n - ip,
    {
        ip = ip + 1;
    }
    proof {
        lemma_terrace_above_from(vs, v, 0);
        assert(terrace_above_from(vs, v, 0) == ip);
    }
    let i0 = clamp_index(ip, 1, n);
    let i1 = clamp_index(ip, 0, n);
    if i0 == i1 {
        return values[i1];
    }
    let value0 = values[i0];
    let value1 = values[i1];
    let alpha0 = fp_div(fp_sub(v, value0), fp_sub(value1, value0));
    if inverted {
        let alpha = fp_mul(fp_sub(F_ONE, alpha0), fp_sub(F_ONE, alpha0));
        apply_lerp(value1, value0, alpha)
    } else {
        let alpha = fp_mul(alpha0, alpha0);
        apply_lerp(value0, value1, alpha)
    }
}

/// Warps a query point with the three turbulence distortion fields.
pub(crate) fn apply_turb_warp(seed: u32, frequency: u64, power: u64, roughness: u32, p: Point3) -> (q:
    Point3)
    requires
        seed <= SEED_LIMIT - 2,
        1 <= roughness <= 32,
    ensures
        q == turb_warp_of(seed, frequency, power, roughness, p),
{
    let dx = fp_perlin(
        seed,
        frequency,
        F_HALF,
        F_TWO,
        roughness,
        fp_add(p.x, TURB_X0),
        fp_add(p.y, TURB_Y0),
        fp_add(p.z, TURB_Z0),
    );
    let dy = fp_perlin(
        seed + 1,
        frequency,
        F_HALF,
        F_TWO,
        roughness,
        fp_add(p.x, TURB_X1),
        fp_add(p.y, TURB_Y1),
        fp_add(p.z, TURB_Z1),
    );
    let dz = fp_perlin(
        seed + 2,
        frequency,
        F_HALF,
        F_TWO,
        roughness,
        fp_add(p.x, TURB_X2),
        fp_add(p.y, TURB_Y2),
        fp_add(p.z, TURB_Z2),
    );
    Point3 {
        x: fp_add(p.x, fp_mul(dx, power)),
        y: fp_add(p.y, fp_mul(dy, power)),
        z: fp_add(p.z, fp_mul(dz, power)),
    }
}

} // verus!
