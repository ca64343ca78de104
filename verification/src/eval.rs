//! Semantics and evaluation of elevation-field graphs.
//!
//! `node_value` gives every node's value at a point as a mathematical
//! function of the graph alone, so it is one fixed value per (graph, index,
//! point) triple. `Session` evaluates a graph against that semantics while
//! memoizing cache nodes, so repeated queries are answered without
//! recomputation and provably without changing the result.

use vstd::prelude::*;
use vstd::pervasive::VecAdditionalExecFns;
use crate::fp::{
    add_of, sub_of, mul_of, div_of, powf_of, lt_of, abs_of, fmin_of, fmax_of, fclamp_of,
    is_zero_of, perlin_of, ridged_of, billow_of, voronoi_of, F_ZERO, F_HALF, F_ONE, F_TWO,
    F_THREE, fp_add, fp_mul, fp_min, fp_max, f64_clamp, fp_perlin, fp_ridged, fp_billow,
    fp_voronoi,
};
use crate::graph::{ControlPoint, Node, Graph, node_wf};

verus! {

/// A query point on (or near) the unit sphere, one scalar per axis.
#[derive(Clone, Copy, PartialEq, Eq, Structural, Debug)]
pub struct Point3 {
    pub x: u64,
    pub y: u64,
    pub z: u64,
}

/// Offsets added to the query point before sampling each turbulence
/// distortion field, decorrelating the three fields from one another: the
/// dyadic fractions 12414/65536, 65124/65536, 31337/65536 and their two
/// companion triples.
pub const TURB_X0: u64 = 0x3FC8_3F00_0000_0000;

pub const TURB_Y0: u64 = 0x3FEF_CC80_0000_0000;

pub const TURB_Z0: u64 = 0x3FDE_9A40_0000_0000;

pub const TURB_X1: u64 = 0x3FD9_E5C0_0000_0000;

pub const TURB_Y1: u64 = 0x3FD1_B400_0000_0000;

pub const TURB_Z1: u64 = 0x3FED_89A0_0000_0000;

pub const TURB_X2: u64 = 0x3FEA_4780_0000_0000;

pub const TURB_Y2: u64 = 0x3FC5_E680_0000_0000;

pub const TURB_Z2: u64 = 0x3FE5_E5A0_0000_0000;

/// Affine shaping: `v * scale + bias`.
pub open spec fn scale_bias_of(v: u64, scale: u64, bias: u64) -> u64 {
    add_of(mul_of(v, scale), bias)
}

/// Linear interpolation from `a` to `b` by `alpha`.
pub open spec fn lerp_of(a: u64, b: u64, alpha: u64) -> u64 {
    add_of(mul_of(sub_of(F_ONE, alpha), a), mul_of(alpha, b))
}

/// The cubic S-curve `a * a * (3 - 2 * a)`.
pub open spec fn scurve3_of(a: u64) -> u64 {
    mul_of(mul_of(a, a), sub_of(F_THREE, mul_of(F_TWO, a)))
}

/// Blend: interpolates from `v0` to `v1` by the control value remapped from
/// `[-1, 1]` to `[0, 1]` and bounded there, so a control outside `[-1, 1]`
/// yields a pure source rather than extrapolating past it.
pub open spec fn blend_of(v0: u64, v1: u64, control: u64) -> u64 {
    lerp_of(v0, v1, fclamp_of(div_of(add_of(control, F_ONE), F_TWO), F_ZERO, F_ONE))
}

/// Power-curve shaping of a value expected in `[-1, 1]`: the value is
/// remapped to `[0, 1]`, raised to `exponent`, and remapped back.
pub open spec fn exponent_of(v: u64, exponent: u64) -> u64 {
    sub_of(mul_of(powf_of(abs_of(div_of(add_of(v, F_ONE), F_TWO)), exponent), F_TWO), F_ONE)
}

/// Select: `v1` where the control value lies in `[lower, upper]` and `v0`
/// elsewhere. A falloff of zero (of either sign) gives a hard boundary;
/// otherwise an S-curve band of width `2 * falloff` around each bound blends
/// the two sources into a continuous transition.
pub open spec fn select_of(v0: u64, v1: u64, c: u64, lower: u64, upper: u64, falloff: u64) -> u64 {
    if is_zero_of(falloff) {
        if lt_of(c, lower) || lt_of(upper, c) {
            v0
        } else {
            v1
        }
    } else {
        let ll = sub_of(lower, falloff);
        let lu = add_of(lower, falloff);
        let ul = sub_of(upper, falloff);
        let uu = add_of(upper, falloff);
        if lt_of(c, ll) {
            v0
        } else if lt_of(c, lu) {
            lerp_of(v0, v1, scurve3_of(div_of(sub_of(c, ll), sub_of(lu, ll))))
        } else if lt_of(c, ul) {
            v1
        } else if lt_of(c, uu) {
            lerp_of(v1, v0, scurve3_of(div_of(sub_of(c, ul), sub_of(uu, ul))))
        } else {
            v0
        }
    }
}

/// The cubic interpolant through `n0..n3` at `alpha`, as used by curve nodes.
pub open spec fn cubic_of(n0: u64, n1: u64, n2: u64, n3: u64, alpha: u64) -> u64 {
    let p = sub_of(sub_of(n3, n2), sub_of(n0, n1));
    let q = sub_of(sub_of(n0, n1), p);
    let r = sub_of(n2, n0);
    let a2 = mul_of(alpha, alpha);
    let a3 = mul_of(a2, alpha);
    add_of(add_of(add_of(mul_of(p, a3), mul_of(q, a2)), mul_of(r, alpha)), n1)
}

/// The first index at or after `j` whose control point input equals `v`
/// exactly, or the table length when none does.
pub open spec fn exact_match_from(ps: Seq<ControlPoint>, v: u64, j: int) -> int
    decreases ps.len() - j,
{
    if j < 0 || j >= ps.len() {
        ps.len() as int
    } else if ps[j].input == v {
        j
    } else {
        exact_match_from(ps, v, j + 1)
    }
}

/// The first index at or after `j` whose control point input lies strictly
/// above `v`, or the table length when none does.
pub open spec fn first_above_from(ps: Seq<ControlPoint>, v: u64, j: int) -> int
    decreases ps.len() - j,
{
    if j < 0 || j >= ps.len() {
        ps.len() as int
    } else if lt_of(v, ps[j].input) {
        j
    } else {
        first_above_from(ps, v, j + 1)
    }
}

/// An index bounded into `[lo, hi]`.
pub open spec fn iclamp(x: int, lo: int, hi: int) -> int {
    if x < lo {
        lo
    } else if x > hi {
        hi
    } else {
        x
    }
}

/// Linear interpolation through a segment of two control points, driven by
/// where the value falls between their inputs; outside the segment the same
/// line extends it.
pub open spec fn segment_of(p0: ControlPoint, p1: ControlPoint, v: u64) -> u64 {
    lerp_of(p0.output, p1.output, div_of(sub_of(v, p0.input), sub_of(p1.input, p0.input)))
}

/// Curve: a value that equals a control point input exactly yields that
/// point's output; inside the table, the cubic spline through the four
/// control points nearest the value; outside it, the boundary segment
/// extended linearly.
pub open spec fn curve_of(ps: Seq<ControlPoint>, v: u64) -> u64 {
    let e = exact_match_from(ps, v, 0);
    if e < ps.len() {
        ps[e].output
    } else {
        let n = ps.len() as int;
        let ip = first_above_from(ps, v, 0);
        if n < 2 {
            ps[0].output
        } else if ip == 0 {
            segment_of(ps[0], ps[1], v)
        } else if ip == n {
            segment_of(ps[n - 2], ps[n - 1], v)
        } else {
            let i0 = iclamp(ip - 2, 0, n - 1);
            let i3 = iclamp(ip + 1, 0, n - 1);
            let alpha = div_of(sub_of(v, ps[ip - 1].input), sub_of(ps[ip].input, ps[ip - 1].input));
            cubic_of(ps[i0].output, ps[ip - 1].output, ps[ip].output, ps[i3].output, alpha)
        }
    }
}

/// The first terrace value at or after `j` lying strictly above `v`, or the
/// table length when none does.
pub open spec fn terrace_above_from(vs: Seq<u64>, v: u64, j: int) -> int
    decreases vs.len() - j,
{
    if j < 0 || j >= vs.len() {
        vs.len() as int
    } else if lt_of(v, vs[j]) {
        j
    } else {
        terrace_above_from(vs, v, j + 1)
    }
}

/// Terrace: maps the value into the step band it falls in, blending from the
/// band's lower to its upper control value by a squared (inverse-square
/// style) alpha; `inverted` flips the bias of each step.
pub open spec fn terrace_of(vs: Seq<u64>, inverted: bool, v: u64) -> u64 {
    let n = vs.len() as int;
    let ip = terrace_above_from(vs, v, 0);
    let i0 = iclamp(ip - 1, 0, n - 1);
    let i1 = iclamp(ip, 0, n - 1);
    if i0 == i1 {
        vs[i1]
    } else {
        let value0 = vs[i0];
        let value1 = vs[i1];
        let alpha0 = div_of(sub_of(v, value0), sub_of(value1, value0));
        if inverted {
            let alpha = mul_of(sub_of(F_ONE, alpha0), sub_of(F_ONE, alpha0));
            lerp_of(value1, value0, alpha)
        } else {
            let alpha = mul_of(alpha0, alpha0);
            lerp_of(value0, value1, alpha)
        }
    }
}

/// The warped query point a turbulence node feeds to its source: each axis
/// is displaced by an independent noise field scaled by `power`.
pub open spec fn turb_warp_of(seed: u32, frequency: u64, power: u64, roughness: u32, p: Point3) -> Point3 {
    let dx = perlin_of(
        seed,
        frequency,
        F_HALF,
        F_TWO,
        roughness,
        add_of(p.x, TURB_X0),
        add_of(p.y, TURB_Y0),
        add_of(p.z, TURB_Z0),
    );
    let dy = perlin_of(
        (seed + 1) as u32,
        frequency,
        F_HALF,
        F_TWO,
        roughness,
        add_of(p.x, TURB_X1),
        add_of(p.y, TURB_Y1),
        add_of(p.z, TURB_Z1),
    );
    let dz = perlin_of(
        (seed + 2) as u32,
        frequency,
        F_HALF,
        F_TWO,
        roughness,
        add_of(p.x, TURB_X2),
        add_of(p.y, TURB_Y2),
        add_of(p.z, TURB_Z2),
    );
    Point3 {
        x: add_of(p.x, mul_of(dx, power)),
        y: add_of(p.y, mul_of(dy, power)),
        z: add_of(p.z, mul_of(dz, power)),
    }
}

/// The value of node `i` of the arena at point `p`: the node's shaping or
/// combining rule applied to its sources' values at the same point (at a
/// warped point, for turbulence). A reference at or past `i` — which
/// well-formedness rules out — contributes zero.
pub open spec fn node_value(nodes: Seq<Node>, i: int, p: Point3) -> u64
    decreases i,
{
    if i < 0 || i >= nodes.len() {
        0
    } else {
        match nodes[i] {
            Node::Constant { value } => value,
            Node::Perlin { seed, frequency, persistence, lacunarity, octaves } => perlin_of(
                seed,
                frequency,
                persistence,
                lacunarity,
                octaves,
                p.x,
                p.y,
                p.z,
            ),
            Node::Ridged { seed, frequency, lacunarity, octaves } => ridged_of(
                seed,
                frequency,
                lacunarity,
                octaves,
                p.x,
                p.y,
                p.z,
            ),
            Node::Billow { seed, frequency, persistence, lacunarity, octaves } => billow_of(
                seed,
                frequency,
                persistence,
                lacunarity,
                octaves,
                p.x,
                p.y,
                p.z,
            ),
            Node::Voronoi { seed, frequency, distance } => voronoi_of(
                seed,
                frequency,
                distance,
                p.x,
                p.y,
                p.z,
            ),
            Node::ScaleBias { source, scale, bias } => {
                let v = if (source as int) < i {
                    node_value(nodes, source as int, p)
                } else {
                    0
                };
                scale_bias_of(v, scale, bias)
            },
            Node::Clamp { source, lower, upper } => {
                let v = if (source as int) < i {
                    node_value(nodes, source as int, p)
                } else {
                    0
                };
                fclamp_of(v, lower, upper)
            },
            Node::Curve { source, points } => {
                let v = if (source as int) < i {
                    node_value(nodes, source as int, p)
                } else {
                    0
                };
                curve_of(points@, v)
            },
            Node::Terrace { source, values, inverted } => {
                let v = if (source as int) < i {
                    node_value(nodes, source as int, p)
                } else {
                    0
                };
                terrace_of(values@, inverted, v)
            },
            Node::Exponent { source, exponent } => {
                let v = if (source as int) < i {
                    node_value(nodes, source as int, p)
                } else {
                    0
                };
                exponent_of(v, exponent)
            },
            Node::Turbulence { source, seed, frequency, power, roughness } => {
                let q = turb_warp_of(seed, frequency, power, roughness, p);
                if (source as int) < i {
                    node_value(nodes, source as int, q)
                } else {
                    0
                }
            },
            Node::Add { left, right } => {
                let a = if (left as int) < i {
                    node_value(nodes, left as int, p)
                } else {
                    0
                };
                let b = if (right as int) < i {
                    node_value(nodes, right as int, p)
                } else {
                    0
                };
                add_of(a, b)
            },
            Node::Multiply { left, right } => {
                let a = if (left as int) < i {
                    node_value(nodes, left as int, p)
                } else {
                    0
                };
                let b = if (right as int) < i {
                    node_value(nodes, right as int, p)
                } else {
                    0
                };
                mul_of(a, b)
            },
            Node::Min { left, right } => {
                let a = if (left as int) < i {
                    node_value(nodes, left as int, p)
                } else {
                    0
                };
                let b = if (right as int) < i {
                    node_value(nodes, right as int, p)
                } else {
                    0
                };
                fmin_of(a, b)
            },
            Node::Max { left, right } => {
                let a = if (left as int) < i {
                    node_value(nodes, left as int, p)
                } else {
                    0
                };
                let b = if (right as int) < i {
                    node_value(nodes, right as int, p)
                } else {
                    0
                };
                fmax_of(a, b)
            },
            Node::Blend { source0, source1, control } => {
                let a = if (source0 as int) < i {
                    node_value(nodes, source0 as int, p)
                } else {
                    0
                };
                let b = if (source1 as int) < i {
                    node_value(nodes, source1 as int, p)
                } else {
                    0
                };
                let c = if (control as int) < i {
                    node_value(nodes, control as int, p)
                } else {
                    0
                };
                blend_of(a, b, c)
            },
            Node::Select { source0, source1, control, lower, upper, falloff } => {
                let a = if (source0 as int) < i {
                    node_value(nodes, source0 as int, p)
                } else {
                    0
                };
                let b = if (source1 as int) < i {
                    node_value(nodes, source1 as int, p)
                } else {
                    0
                };
                let c = if (control as int) < i {
                    node_value(nodes, control as int, p)
                } else {
                    0
                };
                select_of(a, b, c, lower, upper, falloff)
            },
            Node::Cache { source } => {
                if (source as int) < i {
                    node_value(nodes, source as int, p)
                } else {
                    0
                }
            },
        }
    }
}


/// Two nodes that agree on everything evaluation can see: equal outright,
/// except that curve and terrace tables are compared by contents rather than
/// by vector identity.
pub open spec fn node_equivalent(a: Node, b: Node) -> bool {
    match (a, b) {
        (Node::Curve { source: s1, points: p1 }, Node::Curve { source: s2, points: p2 }) => {
            s1 == s2 && p1@ == p2@
        },
        (
            Node::Terrace { source: s1, values: v1, inverted: i1 },
            Node::Terrace { source: s2, values: v2, inverted: i2 },
        ) => { s1 == s2 && v1@ == v2@ && i1 == i2 },
        _ => a == b,
    }
}

/// Two arenas whose nodes are pairwise equivalent.
pub open spec fn graphs_equivalent(n1: Seq<Node>, n2: Seq<Node>) -> bool {
    &&& n1.len() == n2.len()
    &&& forall|i: int| 0 <= i < n1.len() ==> node_equivalent(#[trigger] n1[i], #[trigger] n2[i])
}

/// Evaluation cannot tell equivalent arenas apart: every node has the same
/// value at every point in both.
pub proof fn lemma_value_respects_equivalence(n1: Seq<Node>, n2: Seq<Node>, i: int, p: Point3)
    requires
        graphs_equivalent(n1, n2),
    ensures
        node_value(n1, i, p) == node_value(n2, i, p),
    decreases i,
{
    if 0 <= i < n1.len() {
        assert(node_equivalent(n1[i], n2[i]));
        match n1[i] {
            Node::Constant { .. } => {},
            Node::Perlin { .. } => {},
            Node::Ridged { .. } => {},
            Node::Billow { .. } => {},
            Node::Voronoi { .. } => {},
            Node::ScaleBias { source, .. } => {
                if (source as int) < i {
                    lemma_value_respects_equivalence(n1, n2, source as int, p);
                }
            },
            Node::Clamp { source, .. } => {
                if (source as int) < i {
                    lemma_value_respects_equivalence(n1, n2, source as int, p);
                }
            },
            Node::Curve { source, .. } => {
                if (source as int) < i {
                    lemma_value_respects_equivalence(n1, n2, source as int, p);
                }
            },
            Node::Terrace { source, .. } => {
                if (source as int) < i {
                    lemma_value_respects_equivalence(n1, n2, source as int, p);
                }
            },
            Node::Exponent { source, .. } => {
                if (source as int) < i {
                    lemma_value_respects_equivalence(n1, n2, source as int, p);
                }
            },
            Node::Turbulence { source, seed, frequency, power, roughness } => {
                let q = turb_warp_of(seed, frequency, power, roughness, p);
                if (source as int) < i {
                    lemma_value_respects_equivalence(n1, n2, source as int, q);
                }
            },
            Node::Add { left, right } => {
                if (left as int) < i {
                    lemma_value_respects_equivalence(n1, n2, left as int, p);
                }
                if (right as int) < i {
                    lemma_value_respects_equivalence(n1, n2, right as int, p);
                }
            },
            Node::Multiply { left, right } => {
                if (left as int) < i {
                    lemma_value_respects_equivalence(n1, n2, left as int, p);
                }
                if (right as int) < i {
                    lemma_value_respects_equivalence(n1, n2, right as int, p);
                }
            },
            Node::Min { left, right } => {
                if (left as int) < i {
                    lemma_value_respects_equivalence(n1, n2, left as int, p);
                }
                if (right as int) < i {
                    lemma_value_respects_equivalence(n1, n2, right as int, p);
                }
            },
            Node::Max { left, right } => {
                if (left as int) < i {
                    lemma_value_respects_equivalence(n1, n2, left as int, p);
                }
                if (right as int) < i {
                    lemma_value_respects_equivalence(n1, n2, right as int, p);
                }
            },
            Node::Blend { source0, source1, control } => {
                if (source0 as int) < i {
                    lemma_value_respects_equivalence(n1, n2, source0 as int, p);
                }
                if (source1 as int) < i {
                    lemma_value_respects_equivalence(n1, n2, source1 as int, p);
                }
                if (control as int) < i {
                    lemma_value_respects_equivalence(n1, n2, control as int, p);
                }
            },
            Node::Select { source0, source1, control, .. } => {
                if (source0 as int) < i {
                    lemma_value_respects_equivalence(n1, n2, source0 as int, p);
                }
                if (source1 as int) < i {
                    lemma_value_respects_equivalence(n1, n2, source1 as int, p);
                }
                if (control as int) < i {
                    lemma_value_respects_equivalence(n1, n2, control as int, p);
                }
            },
            Node::Cache { source } => {
                if (source as int) < i {
                    lemma_value_respects_equivalence(n1, n2, source as int, p);
                }
            },
        }
    }
}

/// One remembered query of a cache node.
#[derive(Clone, Copy, PartialEq, Eq, Structural, Debug)]
pub struct MemoEntry {
    pub point: Point3,
    pub value: u64,
}

/// A remembered entry always agrees with the semantics of its node.
pub open spec fn memo_ok(nodes: Seq<Node>, e: Option<MemoEntry>, j: int) -> bool {
    e matches Some(m) ==> m.value == node_value(nodes, j, m.point)
}

/// A plain copy of one node's scalar data, so a node can be examined without
/// holding a borrow of the arena across child evaluations.
#[derive(Clone, Copy)]
enum Shape {
    Constant { value: u64 },
    Perlin { seed: u32, frequency: u64, persistence: u64, lacunarity: u64, octaves: u32 },
    Ridged { seed: u32, frequency: u64, lacunarity: u64, octaves: u32 },
    Billow { seed: u32, frequency: u64, persistence: u64, lacunarity: u64, octaves: u32 },
    Voronoi { seed: u32, frequency: u64, distance: bool },
    ScaleBias { source: usize, scale: u64, bias: u64 },
    Clamp { source: usize, lower: u64, upper: u64 },
    Curve { source: usize },
    Terrace { source: usize, inverted: bool },
    Exponent { source: usize, exponent: u64 },
    Turbulence { source: usize, seed: u32, frequency: u64, power: u64, roughness: u32 },
    Add { left: usize, right: usize },
    Multiply { left: usize, right: usize },
    Min { left: usize, right: usize },
    Max { left: usize, right: usize },
    Blend { source0: usize, source1: usize, control: usize },
    Select { source0: usize, source1: usize, control: usize, lower: u64, upper: u64, falloff: u64 },
    Cache { source: usize },
}

spec fn shape_spec(n: Node) -> Shape {
    match n {
        Node::Constant { value } => Shape::Constant { value },
        Node::Perlin { seed, frequency, persistence, lacunarity, octaves } => Shape::Perlin {
            seed,
            frequency,
            persistence,
            lacunarity,
            octaves,
        },
        Node::Ridged { seed, frequency, lacunarity, octaves } => Shape::Ridged {
            seed,
            frequency,
            lacunarity,
            octaves,
        },
        Node::Billow { seed, frequency, persistence, lacunarity, octaves } => Shape::Billow {
            seed,
            frequency,
            persistence,
            lacunarity,
            octaves,
        },
        Node::Voronoi { seed, frequency, distance } => Shape::Voronoi { seed, frequency, distance },
        Node::ScaleBias { source, scale, bias } => Shape::ScaleBias { source, scale, bias },
        Node::Clamp { source, lower, upper } => Shape::Clamp { source, lower, upper },
        Node::Curve { source, .. } => Shape::Curve { source },
        Node::Terrace { source, inverted, .. } => Shape::Terrace { source, inverted },
        Node::Exponent { source, exponent } => Shape::Exponent { source, exponent },
        Node::Turbulence { source, seed, frequency, power, roughness } => Shape::Turbulence {
            source,
            seed,
            frequency,
            power,
            roughness,
        },
        Node::Add { left, right } => Shape::Add { left, right },
        Node::Multiply { left, right } => Shape::Multiply { left, right },
        Node::Min { left, right } => Shape::Min { left, right },
        Node::Max { left, right } => Shape::Max { left, right },
        Node::Blend { source0, source1, control } => Shape::Blend { source0, source1, control },
        Node::Select { source0, source1, control, lower, upper, falloff } => Shape::Select {
            source0,
            source1,
            control,
            lower,
            upper,
            falloff,
        },
        Node::Cache { source } => Shape::Cache { source },
    }
}

fn node_shape(n: &Node) -> (s: Shape)
    ensures
        s == shape_spec(*n),
{
    match n {
        Node::Constant { value } => Shape::Constant { value: *value },
        Node::Perlin { seed, frequency, persistence, lacunarity, octaves } => Shape::Perlin {
            seed: *seed,
            frequency: *frequency,
            persistence: *persistence,
            lacunarity: *lacunarity,
            octaves: *octaves,
        },
        Node::Ridged { seed, frequency, lacunarity, octaves } => Shape::Ridged {
            seed: *seed,
            frequency: *frequency,
            lacunarity: *lacunarity,
            octaves: *octaves,
        },
        Node::Billow { seed, frequency, persistence, lacunarity, octaves } => Shape::Billow {
            seed: *seed,
            frequency: *frequency,
            persistence: *persistence,
            lacunarity: *lacunarity,
            octaves: *octaves,
        },
        Node::Voronoi { seed, frequency, distance } => Shape::Voronoi {
            seed: *seed,
            frequency: *frequency,
            distance: *distance,
        },
        Node::ScaleBias { source, scale, bias } => Shape::ScaleBias {
            source: *source,
            scale: *scale,
            bias: *bias,
        },
        Node::Clamp { source, lower, upper } => Shape::Clamp {
            source: *source,
            lower: *lower,
            upper: *upper,
        },
        Node::Curve { source, .. } => Shape::Curve { source: *source },
        Node::Terrace { source, inverted, .. } => Shape::Terrace {
            source: *source,
            inverted: *inverted,
        },
        Node::Exponent { source, exponent } => Shape::Exponent {
            source: *source,
            exponent: *exponent,
        },
        Node::Turbulence { source, seed, frequency, power, roughness } => Shape::Turbulence {
            source: *source,
            seed: *seed,
            frequency: *frequency,
            power: *power,
            roughness: *roughness,
        },
        Node::Add { left, right } => Shape::Add { left: *left, right: *right },
        Node::Multiply { left, right } => Shape::Multiply { left: *left, right: *right },
        Node::Min { left, right } => Shape::Min { left: *left, right: *right },
        Node::Max { left, right } => Shape::Max { left: *left, right: *right },
        Node::Blend { source0, source1, control } => Shape::Blend {
            source0: *source0,
            source1: *source1,
            control: *control,
        },
        Node::Select { source0, source1, control, lower, upper, falloff } => Shape::Select {
            source0: *source0,
            source1: *source1,
            control: *control,
            lower: *lower,
            upper: *upper,
            falloff: *falloff,
        },
        Node::Cache { source } => Shape::Cache { source: *source },
    }
}

fn curve_value_at(nodes: &Vec<Node>, i: usize, v: u64) -> (r: u64)
    requires
        i < nodes@.len(),
        nodes@[i as int] matches Node::Curve { points, .. } && points@.len() >= 1,
    ensures
        nodes@[i as int] matches Node::Curve { points, .. } ==> r == curve_of(points@, v),
{
    match &nodes[i] {
        Node::Curve { points, .. } => crate::apply::apply_curve(points, v),
        _ => {
            proof {
                assert(false);
            }
            0
        },
    }
}

fn terrace_value_at(nodes: &Vec<Node>, i: usize, v: u64) -> (r: u64)
    requires
        i < nodes@.len(),
        nodes@[i as int] matches Node::Terrace { values, .. } && values@.len() >= 1,
    ensures
        nodes@[i as int] matches Node::Terrace { values, inverted, .. } ==> r == terrace_of(
            values@,
            inverted,
            v,
        ),
{
    match &nodes[i] {
        Node::Terrace { values, inverted, .. } => crate::apply::apply_terrace(values, *inverted, v),
        _ => {
            proof {
                assert(false);
            }
            0
        },
    }
}

/// What the exact-match search yields: the first matching index at or after
/// the start, every earlier candidate rejected.
pub proof fn lemma_exact_match_from(ps: Seq<ControlPoint>, v: u64, s: int)
    requires
        0 <= s <= ps.len(),
    ensures
        s <= exact_match_from(ps, v, s) <= ps.len(),
        exact_match_from(ps, v, s) < ps.len() ==> ps[exact_match_from(ps, v, s)].input == v,
        forall|t: int| s <= t < exact_match_from(ps, v, s) ==> ps[t].input != v,
    decreases ps.len() - s,
{
    if s < ps.len() && ps[s].input != v {
        lemma_exact_match_from(ps, v, s + 1);
    }
}

/// What the first-above search yields: the first index whose input lies
/// above the value, every earlier candidate rejected.
pub proof fn lemma_first_above_from(ps: Seq<ControlPoint>, v: u64, s: int)
    requires
        0 <= s <= ps.len(),
    ensures
        s <= first_above_from(ps, v, s) <= ps.len(),
        first_above_from(ps, v, s) < ps.len() ==> lt_of(v, ps[first_above_from(ps, v, s)].input),
        forall|t: int| s <= t < first_above_from(ps, v, s) ==> !lt_of(v, ps[t].input),
    decreases ps.len() - s,
{
    if s < ps.len() && !lt_of(v, ps[s].input) {
        lemma_first_above_from(ps, v, s + 1);
    }
}

pub proof fn lemma_terrace_above_from(vs: Seq<u64>, v: u64, s: int)
    requires
        0 <= s <= vs.len(),
    ensures
        s <= terrace_above_from(vs, v, s) <= vs.len(),
        terrace_above_from(vs, v, s) < vs.len() ==> lt_of(v, vs[terrace_above_from(vs, v, s)]),
        forall|t: int| s <= t < terrace_above_from(vs, v, s) ==> !lt_of(v, vs[t]),
    decreases vs.len() - s,
{
    if s < vs.len() && !lt_of(v, vs[s]) {
        lemma_terrace_above_from(vs, v, s + 1);
    }
}


/// A value that hits a control point exactly is mapped to exactly that
/// point's output: sweeping a curve's input through a control point
/// coordinate passes through the point itself.
pub proof fn lemma_curve_exact(ps: Seq<ControlPoint>, i: int, v: u64)
    requires
        crate::graph::curve_points_wf(ps),
        0 <= i < ps.len(),
        v == ps[i].input,
    ensures
        curve_of(ps, v) == ps[i].output,
{
    lemma_exact_match_from(ps, v, 0);
    let e = exact_match_from(ps, v, 0);
    assert(e <= i);
    assert(e == i);
}

/// With zero falloff width a select is a hard switch: exactly the second
/// source inside `[lower, upper]`, exactly the first outside it.
pub proof fn lemma_select_hard_boundary(v0: u64, v1: u64, c: u64, lower: u64, upper: u64, falloff: u64)
    requires
        is_zero_of(falloff),
    ensures
        !lt_of(c, lower) && !lt_of(upper, c) ==> select_of(v0, v1, c, lower, upper, falloff) == v1,
        lt_of(c, lower) || lt_of(upper, c) ==> select_of(v0, v1, c, lower, upper, falloff) == v0,
{
}

/// When a counter is incremented it saturates rather than wraps.
pub open spec fn sat_inc(w: u64) -> u64 {
    if w < u64::MAX {
        (w + 1) as u64
    } else {
        w
    }
}

/// Whether a query of node `i` at `p` would be answered from its memo slot.
pub open spec fn cache_hit(s: Session, i: int, p: Point3) -> bool {
    &&& s.graph.nodes@[i] is Cache
    &&& s.memo@[i] matches Some(m) && m.point == p
}

/// One generation session: a graph together with the per-node memo slots of
/// its cache nodes and a per-node count of how often each node's own rule has
/// been computed. Sessions are independent; evaluating one never touches
/// another, which is what lets callers run one session per worker.
pub struct Session {
    pub graph: Graph,
    pub memo: Vec<Option<MemoEntry>>,
    pub work: Vec<u64>,
}

impl Session {
    /// The session's graph is well-formed, its bookkeeping vectors match the
    /// arena, and every remembered value agrees with the semantics.
    pub open spec fn wf(self) -> bool {
        &&& self.graph.wf()
        &&& self.memo@.len() == self.graph.nodes@.len()
        &&& self.work@.len() == self.graph.nodes@.len()
        &&& forall|j: int|
            0 <= j < self.memo@.len() ==> memo_ok(self.graph.nodes@, #[trigger] self.memo@[j], j)
    }

    /// Starts a session with empty memo slots and zeroed counters.
    pub fn new(graph: Graph) -> (s: Session)
        requires
            graph.wf(),
        ensures
            s.wf(),
            s.graph == graph,
            forall|j: int| 0 <= j < s.memo@.len() ==> s.memo@[j] is None,
            forall|j: int| 0 <= j < s.work@.len() ==> s.work@[j] == 0,
    {
        let n = graph.nodes.len();
        let mut memo: Vec<Option<MemoEntry>> = Vec::new();
        let mut work: Vec<u64> = Vec::new();
        while memo.len() < n
            invariant
                memo@.len() <= n,
                work@.len() == memo@.len(),
                forall|j: int| 0 <= j < memo@.len() ==> memo@[j] is None,
                forall|j: int| 0 <= j < work@.len() ==> work@[j] == 0,
            decreases n - memo@.len(),
        {
            memo.push(None);
            work.push(0);
        }
        Session { graph, memo, work }
    }

    /// How many nodes the session's graph has.
    pub fn node_count(&self) -> (n: usize)
        ensures
            n == self.graph.nodes@.len(),
    {
        self.graph.nodes.len()
    }

    /// How often node `i` has recomputed its own rule so far: a cache hit
    /// leaves every count unchanged.
    pub fn work_count(&self, i: usize) -> (w: u64)
        requires
            i < self.work@.len(),
        ensures
            w == self.work@[i as int],
    {
        self.work[i]
    }

    fn note_work(&mut self, i: usize)
        requires
            i < old(self).work@.len(),
        ensures
            final(self).graph == old(self).graph,
            final(self).memo@ == old(self).memo@,
            final(self).work@ == old(self).work@.update(
                i as int,
                sat_inc(old(self).work@[i as int]),
            ),
    {
        let w = self.work[i];
        let w2 = if w < u64::MAX {
            w + 1
        } else {
            w
        };
        self.work.set(i, w2);
    }

    /// Evaluates node `i` at point `p`. The result is exactly the node's
    /// semantics — one fixed value per (graph, node, point), whatever the
    /// memo state — so two queries with the same point always agree
    /// bit-for-bit. A query answered from a cache node's memo changes
    /// nothing: no memo slot and no work counter moves.
    pub fn eval_at(&mut self, i: usize, p: Point3) -> (r: u64)
        requires
            old(self).wf(),
            i < old(self).graph.nodes@.len(),
        ensures
            final(self).wf(),
            final(self).graph == old(self).graph,
            final(self).memo@.len() == old(self).memo@.len(),
            final(self).work@.len() == old(self).work@.len(),
            r == node_value(old(self).graph.nodes@, i as int, p),
            cache_hit(*old(self), i as int, p) ==> (final(self).memo@ == old(self).memo@
                && final(self).work@ == old(self).work@),
            old(self).graph.nodes@[i as int] is Cache ==> final(self).memo@[i as int] == Some(
                MemoEntry { point: p, value: r },
            ),
        decreases i,
    {
        let ghost nodes = self.graph.nodes@;
        proof {
            assert(node_wf(nodes[i as int], i as int));
        }
        let shape = node_shape(&self.graph.nodes[i]);
        match shape {
            Shape::Constant { value } => {
                self.note_work(i);
                value
            },
            Shape::Perlin { seed, frequency, persistence, lacunarity, octaves } => {
                self.note_work(i);
                fp_perlin(seed, frequency, persistence, lacunarity, octaves, p.x, p.y, p.z)
            },
            Shape::Ridged { seed, frequency, lacunarity, octaves } => {
                self.note_work(i);
                fp_ridged(seed, frequency, lacunarity, octaves, p.x, p.y, p.z)
            },
            Shape::Billow { seed, frequency, persistence, lacunarity, octaves } => {
                self.note_work(i);
                fp_billow(seed, frequency, persistence, lacunarity, octaves, p.x, p.y, p.z)
            },
            Shape::Voronoi { seed, frequency, distance } => {
                self.note_work(i);
                fp_voronoi(seed, frequency, distance, p.x, p.y, p.z)
            },
            Shape::ScaleBias { source, scale, bias } => {
                self.note_work(i);
                let v = self.eval_at(source, p);
                crate::apply::apply_scale_bias(v, scale, bias)
            },
            Shape::Clamp { source, lower, upper } => {
                self.note_work(i);
                let v = self.eval_at(source, p);
                f64_clamp(v, lower, upper)
            },
            Shape::Curve { source } => {
                self.note_work(i);
                let v = self.eval_at(source, p);
                curve_value_at(&self.graph.nodes, i, v)
            },
            Shape::Terrace { source, inverted: _ } => {
                self.note_work(i);
                let v = self.eval_at(source, p);
                terrace_value_at(&self.graph.nodes, i, v)
            },
            Shape::Exponent { source, exponent } => {
                self.note_work(i);
                let v = self.eval_at(source, p);
                crate::apply::apply_exponent(v, exponent)
            },
            Shape::Turbulence { source, seed, frequency, power, roughness } => {
                self.note_work(i);
                let q = crate::apply::apply_turb_warp(seed, frequency, power, roughness, p);
                self.eval_at(source, q)
            },
            Shape::Add { left, right } => {
                self.note_work(i);
                let a = self.eval_at(left, p);
                let b = self.eval_at(right, p);
                fp_add(a, b)
            },
            Shape::Multiply { left, right } => {
                self.note_work(i);
                let a = self.eval_at(left, p);
                let b = self.eval_at(right, p);
                fp_mul(a, b)
            },
            Shape::Min { left, right } => {
                self.note_work(i);
                let a = self.eval_at(left, p);
                let b = self.eval_at(right, p);
                fp_min(a, b)
            },
            Shape::Max { left, right } => {
                self.note_work(i);
                let a = self.eval_at(left, p);
                let b = self.eval_at(right, p);
                fp_max(a, b)
            },
            Shape::Blend { source0, source1, control } => {
                self.note_work(i);
                let a = self.eval_at(source0, p);
                let b = self.eval_at(source1, p);
                let c = self.eval_at(control, p);
                crate::apply::apply_blend(a, b, c)
            },
            Shape::Select { source0, source1, control, lower, upper, falloff } => {
                self.note_work(i);
                let a = self.eval_at(source0, p);
                let b = self.eval_at(source1, p);
                let c = self.eval_at(control, p);
                crate::apply::apply_select(a, b, c, lower, upper, falloff)
            },
            Shape::Cache { source } => {
                if let Some(m) = self.memo[i] {
                    if m.point == p {
                        return m.value;
                    }
                }
                self.note_work(i);
                let v = self.eval_at(source, p);
                self.memo.set(i, Some(MemoEntry { point: p, value: v }));
                v
            },
        }
    }

    /// Evaluates the whole field — the root is the last node of the arena —
    /// at point `p`. A repeated query that the root's memo answers moves no
    /// memo slot and no work counter.
    pub fn evaluate(&mut self, p: Point3) -> (r: u64)
        requires
            old(self).wf(),
            old(self).graph.nodes@.len() > 0,
        ensures
            final(self).wf(),
            final(self).graph == old(self).graph,
            r == node_value(
                old(self).graph.nodes@,
                old(self).graph.nodes@.len() - 1,
                p,
            ),
            cache_hit(*old(self), old(self).graph.nodes@.len() - 1, p) ==> (final(self).memo@
                == old(self).memo@ && final(self).work@ == old(self).work@),
            old(self).graph.nodes@[old(self).graph.nodes@.len() - 1] is Cache
                ==> final(self).memo@[old(self).graph.nodes@.len() - 1] == Some(
                MemoEntry { point: p, value: r },
            ),
    {
        let root = self.graph.nodes.len() - 1;
        self.eval_at(root, p)
    }
}


} // verus!
