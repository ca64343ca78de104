//! Node semantics: small graphs evaluated against plain float arithmetic,
//! the memo behaviour of cache nodes, and the outside noise sources.

use noise::{MultiFractal, NoiseFn};
use planetgen::eval::{Point3, Session};
use planetgen::fp::f64_clamp;
use planetgen::graph::{ConfigError, ControlPoint, Graph};

fn pt(x: f64, y: f64, z: f64) -> Point3 {
    Point3 { x: x.to_bits(), y: y.to_bits(), z: z.to_bits() }
}

fn eval_root(g: Graph, p: Point3) -> f64 {
    let mut s = Session::new(g);
    f64::from_bits(s.evaluate(p))
}

#[test]
fn constant_and_scale_bias() {
    let mut g = Graph::new();
    let c = g.add_constant(0.5f64.to_bits());
    g.add_scale_bias(c, 0.5f64.to_bits(), 0.25f64.to_bits());
    assert_eq!(eval_root(g, pt(0.0, 0.0, 0.0)), 0.5 * 0.5 + 0.25);
}

#[test]
fn binary_combinators() {
    let mut g = Graph::new();
    let a = g.add_constant(0.75f64.to_bits());
    let b = g.add_constant((-0.5f64).to_bits());
    g.add_sum(a, b);
    assert_eq!(eval_root(g, pt(0.0, 0.0, 0.0)), 0.25);

    let mut g = Graph::new();
    let a = g.add_constant(0.75f64.to_bits());
    let b = g.add_constant((-0.5f64).to_bits());
    g.add_product(a, b);
    assert_eq!(eval_root(g, pt(0.0, 0.0, 0.0)), -0.375);

    let mut g = Graph::new();
    let a = g.add_constant(0.75f64.to_bits());
    let b = g.add_constant((-0.5f64).to_bits());
    g.add_min(a, b);
    assert_eq!(eval_root(g, pt(0.0, 0.0, 0.0)), -0.5);

    let mut g = Graph::new();
    let a = g.add_constant(0.75f64.to_bits());
    let b = g.add_constant((-0.5f64).to_bits());
    g.add_max(a, b);
    assert_eq!(eval_root(g, pt(0.0, 0.0, 0.0)), 0.75);
}

#[test]
fn clamp_node_and_f64_clamp() {
    let mut g = Graph::new();
    let a = g.add_constant(1.5f64.to_bits());
    g.add_clamp(a, (-1.0f64).to_bits(), 1.0f64.to_bits());
    assert_eq!(eval_root(g, pt(0.0, 0.0, 0.0)), 1.0);

    assert_eq!(f64::from_bits(f64_clamp((-3.0f64).to_bits(), (-1.0f64).to_bits(), 1.0f64.to_bits())), -1.0);
    assert_eq!(f64::from_bits(f64_clamp(0.25f64.to_bits(), (-1.0f64).to_bits(), 1.0f64.to_bits())), 0.25);
    assert_eq!(f64::from_bits(f64_clamp(9.0f64.to_bits(), (-1.0f64).to_bits(), 1.0f64.to_bits())), 1.0);

    // a NaN compares below nothing and above nothing: it passes through
    let nan = f64::NAN.to_bits();
    assert_eq!(f64_clamp(nan, (-1.0f64).to_bits(), 1.0f64.to_bits()), nan);
}

#[test]
fn blend_midpoint_and_clamped_control() {
    // control 0 mixes the sources evenly
    let mut g = Graph::new();
    let a = g.add_constant(0.0f64.to_bits());
    let b = g.add_constant(1.0f64.to_bits());
    let c = g.add_constant(0.0f64.to_bits());
    g.add_blend(a, b, c);
    assert_eq!(eval_root(g, pt(0.0, 0.0, 0.0)), 0.5);

    // control far above one is bounded to pure second source
    let mut g = Graph::new();
    let a = g.add_constant(0.25f64.to_bits());
    let b = g.add_constant(0.75f64.to_bits());
    let c = g.add_constant(9.0f64.to_bits());
    g.add_blend(a, b, c);
    assert_eq!(eval_root(g, pt(0.0, 0.0, 0.0)), 0.75);
}

#[test]
fn exponent_remap() {
    let mut g = Graph::new();
    let a = g.add_constant(0.0f64.to_bits());
    g.add_exponent(a, 2.0f64.to_bits());
    // ((0 + 1) / 2)^2 * 2 - 1
    assert_eq!(eval_root(g, pt(0.0, 0.0, 0.0)), -0.5);
}

fn curve_graph(input: f64) -> Graph {
    let mut g = Graph::new();
    let a = g.add_constant(input.to_bits());
    let pts = vec![
        ControlPoint { input: (-2.0f64).to_bits(), output: (-2.0f64).to_bits() },
        ControlPoint { input: (-1.0f64).to_bits(), output: (-0.5f64).to_bits() },
        ControlPoint { input: 0.0f64.to_bits(), output: 0.25f64.to_bits() },
        ControlPoint { input: 1.0f64.to_bits(), output: 0.5f64.to_bits() },
        ControlPoint { input: 2.0f64.to_bits(), output: 1.0f64.to_bits() },
    ];
    g.add_curve(a, pts).unwrap();
    g
}

#[test]
fn curve_passes_through_control_points() {
    // sweeping the input through each control point lands exactly on it
    let table = [(-2.0, -2.0), (-1.0, -0.5), (0.0, 0.25), (1.0, 0.5), (2.0, 1.0)];
    for &(i, o) in table.iter() {
        assert_eq!(eval_root(curve_graph(i), pt(0.0, 0.0, 0.0)), o, "at control point {i}");
    }
}

#[test]
fn curve_between_points_matches_cubic() {
    // the value between control points follows the cubic interpolant
    let (n0, n1, n2, n3) = (-0.5f64, 0.25f64, 0.5f64, 1.0f64);
    let v = 0.5f64;
    let alpha = (v - 0.0) / (1.0 - 0.0);
    let p = (n3 - n2) - (n0 - n1);
    let q = (n0 - n1) - p;
    let r = n2 - n0;
    let expected = p * (alpha * alpha * alpha) + q * (alpha * alpha) + r * alpha + n1;
    assert_eq!(eval_root(curve_graph(v), pt(0.0, 0.0, 0.0)), expected);
}

#[test]
fn curve_extrapolates_linearly() {
    // outside the table the boundary segment extends as a straight line
    let above = {
        let (in0, out0, in1, out1) = (1.0f64, 0.5f64, 2.0f64, 1.0f64);
        let alpha = (3.0 - in0) / (in1 - in0);
        (1.0 - alpha) * out0 + alpha * out1
    };
    assert_eq!(eval_root(curve_graph(3.0), pt(0.0, 0.0, 0.0)), above);
    let below = {
        let (in0, out0, in1, out1) = (-2.0f64, -2.0f64, -1.0f64, -0.5f64);
        let alpha = (-3.0 - in0) / (in1 - in0);
        (1.0 - alpha) * out0 + alpha * out1
    };
    assert_eq!(eval_root(curve_graph(-3.0), pt(0.0, 0.0, 0.0)), below);
}

#[test]
fn curve_validation() {
    let mut g = Graph::new();
    let a = g.add_constant(0.0f64.to_bits());
    let too_few = vec![
        ControlPoint { input: 0.0f64.to_bits(), output: 0.0f64.to_bits() },
        ControlPoint { input: 1.0f64.to_bits(), output: 1.0f64.to_bits() },
    ];
    assert_eq!(g.add_curve(a, too_few), Err(ConfigError::TooFewPoints));
    let not_increasing = vec![
        ControlPoint { input: 0.0f64.to_bits(), output: 0.0f64.to_bits() },
        ControlPoint { input: 2.0f64.to_bits(), output: 1.0f64.to_bits() },
        ControlPoint { input: 1.0f64.to_bits(), output: 1.0f64.to_bits() },
        ControlPoint { input: 3.0f64.to_bits(), output: 1.0f64.to_bits() },
    ];
    assert_eq!(g.add_curve(a, not_increasing), Err(ConfigError::NotIncreasing));
}

#[test]
fn terrace_steps() {
    // at a control value the terrace sits exactly on it
    let mut g = Graph::new();
    let a = g.add_constant((-1.0f64).to_bits());
    g.add_terrace(a, vec![(-1.0f64).to_bits(), 0.0f64.to_bits(), 1.0f64.to_bits()], false)
        .unwrap();
    assert_eq!(eval_root(g, pt(0.0, 0.0, 0.0)), -1.0);

    // between control values it blends with a squared alpha
    let mut g = Graph::new();
    let a = g.add_constant(0.5f64.to_bits());
    g.add_terrace(a, vec![0.0f64.to_bits(), 1.0f64.to_bits()], false).unwrap();
    let alpha = (0.5 - 0.0) / (1.0 - 0.0);
    let alpha = alpha * alpha;
    let expected = (1.0 - alpha) * 0.0 + alpha * 1.0;
    assert_eq!(eval_root(g, pt(0.0, 0.0, 0.0)), expected);

    // too short a table is refused
    let mut g = Graph::new();
    let a = g.add_constant(0.5f64.to_bits());
    assert_eq!(g.add_terrace(a, vec![0.0f64.to_bits()], false), Err(ConfigError::TooFewPoints));
}

fn select_graph(control: f64, falloff: f64) -> Graph {
    let mut g = Graph::new();
    let a = g.add_constant(0.25f64.to_bits());
    let b = g.add_constant(0.75f64.to_bits());
    let c = g.add_constant(control.to_bits());
    g.add_select(a, b, c, (-1.0f64).to_bits(), 1.0f64.to_bits(), falloff.to_bits());
    g
}

#[test]
fn select_hard_boundary() {
    // with zero falloff the switch is exact at the bounds
    assert_eq!(eval_root(select_graph(0.0, 0.0), pt(0.0, 0.0, 0.0)), 0.75);
    assert_eq!(eval_root(select_graph(-1.0, 0.0), pt(0.0, 0.0, 0.0)), 0.75);
    assert_eq!(eval_root(select_graph(1.0, 0.0), pt(0.0, 0.0, 0.0)), 0.75);
    assert_eq!(eval_root(select_graph(-1.0000001, 0.0), pt(0.0, 0.0, 0.0)), 0.25);
    assert_eq!(eval_root(select_graph(1.0000001, 0.0), pt(0.0, 0.0, 0.0)), 0.25);
    assert_eq!(eval_root(select_graph(-5.0, 0.0), pt(0.0, 0.0, 0.0)), 0.25);
    assert_eq!(eval_root(select_graph(5.0, 0.0), pt(0.0, 0.0, 0.0)), 0.25);
}

#[test]
fn select_negative_falloff_is_hard() {
    // a negative falloff width is bounded up to zero: a hard boundary, not
    // inverted blend bands
    assert_eq!(eval_root(select_graph(0.0, -0.5), pt(0.0, 0.0, 0.0)), 0.75);
    assert_eq!(eval_root(select_graph(2.0, -0.5), pt(0.0, 0.0, 0.0)), 0.25);
    assert_eq!(eval_root(select_graph(-2.0, -0.5), pt(0.0, 0.0, 0.0)), 0.25);
}

#[test]
fn select_smooth_falloff_is_continuous() {
    // with nonzero falloff, small control steps move the output only a little
    let falloff = 0.25;
    let mut last = f64::from_bits({
        let mut s = Session::new(select_graph(-2.0, falloff));
        s.evaluate(pt(0.0, 0.0, 0.0))
    });
    let steps = 400;
    for k in 1..=steps {
        let control = -2.0 + 4.0 * (k as f64) / (steps as f64);
        let v = eval_root(select_graph(control, falloff), pt(0.0, 0.0, 0.0));
        assert!((v - last).abs() < 0.02, "jump at control={control}: {last} -> {v}");
        last = v;
    }
}

#[test]
fn cache_remembers_one_point() {
    // a cache node recomputes its source only when the point changes
    let mut g = Graph::new();
    let src = g.add_perlin(7, 1.0f64.to_bits(), 0.5f64.to_bits(), 2.0f64.to_bits(), 4);
    let _root = g.add_cache(src);
    let mut s = Session::new(g);
    let p = pt(0.25, 0.5, -0.75);
    let q = pt(0.5, 0.5, 0.5);

    let v1 = s.evaluate(p);
    assert_eq!(s.work_count(0), 1);
    let v2 = s.evaluate(p);
    assert_eq!(s.work_count(0), 1, "second identical query must not recompute");
    assert_eq!(v1, v2, "identical queries agree bit for bit");

    let v3 = s.evaluate(q);
    assert_eq!(s.work_count(0), 2);
    let v4 = s.evaluate(p);
    assert_eq!(v1, v4, "the value at a point never drifts");
    assert_eq!(s.work_count(0), 3);
}

#[test]
fn perlin_matches_collaborator() {
    let mut g = Graph::new();
    g.add_perlin(42, 1.5f64.to_bits(), 0.5f64.to_bits(), 2.25f64.to_bits(), 6);
    let got = eval_root(g, pt(0.125, -0.5, 0.875));
    let m = noise::Fbm::<noise::Perlin>::new(42)
        .set_frequency(1.5)
        .set_persistence(0.5)
        .set_lacunarity(2.25)
        .set_octaves(6);
    let want = m.get([0.125, -0.5, 0.875]);
    assert_eq!(got.to_bits(), want.to_bits());
    assert_ne!(got.to_bits(), 0.125f64.to_bits(), "the source must transform its input");
}

#[test]
fn ridged_matches_collaborator() {
    let mut g = Graph::new();
    g.add_ridged(9, 2.0f64.to_bits(), 2.0f64.to_bits(), 4);
    let got = eval_root(g, pt(0.3, 0.6, -0.9));
    let m = noise::RidgedMulti::<noise::Perlin>::new(9)
        .set_frequency(2.0)
        .set_lacunarity(2.0)
        .set_octaves(4);
    let want = m.get([0.3, 0.6, -0.9]);
    assert_eq!(got.to_bits(), want.to_bits());
}

#[test]
fn billow_matches_collaborator() {
    let mut g = Graph::new();
    g.add_billow(11, 1.0f64.to_bits(), 0.5f64.to_bits(), 2.0f64.to_bits(), 5);
    let got = eval_root(g, pt(-0.7, 0.1, 0.4));
    let m = noise::Billow::<noise::Perlin>::new(11)
        .set_frequency(1.0)
        .set_persistence(0.5)
        .set_lacunarity(2.0)
        .set_octaves(5);
    let want = m.get([-0.7, 0.1, 0.4]);
    assert_eq!(got.to_bits(), want.to_bits());
}

#[test]
fn voronoi_matches_collaborator() {
    let mut g = Graph::new();
    g.add_voronoi(13, 4.0f64.to_bits(), true);
    let got = eval_root(g, pt(0.2, 0.9, -0.3));
    let m = noise::Worley::new(13)
        .set_frequency(4.0)
        .set_return_type(noise::core::worley::ReturnType::Distance);
    let want = m.get([0.2, 0.9, -0.3]);
    assert_eq!(got.to_bits(), want.to_bits());

    let mut g = Graph::new();
    g.add_voronoi(13, 4.0f64.to_bits(), false);
    let got_value = eval_root(g, pt(0.2, 0.9, -0.3));
    let m = noise::Worley::new(13).set_frequency(4.0);
    let want_value = m.get([0.2, 0.9, -0.3]);
    assert_eq!(got_value.to_bits(), want_value.to_bits());
    assert_ne!(got.to_bits(), got_value.to_bits());
}

#[test]
fn turbulence_warps_the_query() {
    // turbulence with zero power leaves the source untouched; with power it
    // moves the query point
    let mut g = Graph::new();
    let src = g.add_perlin(3, 1.0f64.to_bits(), 0.5f64.to_bits(), 2.0f64.to_bits(), 4);
    g.add_turbulence(src, 30, 1.0f64.to_bits(), 0.0f64.to_bits(), 3);
    let calm = eval_root(g, pt(0.25, 0.25, 0.25));

    let mut g = Graph::new();
    g.add_perlin(3, 1.0f64.to_bits(), 0.5f64.to_bits(), 2.0f64.to_bits(), 4);
    let plain = eval_root(g, pt(0.25, 0.25, 0.25));
    assert_eq!(calm.to_bits(), plain.to_bits());

    let mut g = Graph::new();
    let src = g.add_perlin(3, 1.0f64.to_bits(), 0.5f64.to_bits(), 2.0f64.to_bits(), 4);
    g.add_turbulence(src, 30, 1.0f64.to_bits(), 0.5f64.to_bits(), 3);
    let warped = eval_root(g, pt(0.25, 0.25, 0.25));
    assert_ne!(warped.to_bits(), plain.to_bits());
}
