//! The elevation-field graph: an arena of node descriptors.
//!
//! A field is a directed acyclic graph of nodes held in one vector; every
//! node refers to its inputs by index, and well-formedness demands that each
//! referenced index is smaller than the node's own, so evaluation by
//! structural recursion on the index always terminates. Scalars (frequencies,
//! biases, control points) are 64-bit float bit patterns.

use vstd::prelude::*;
use crate::fp::{lt_of, fmin_of, fmax_of, mul_of, sub_of, fp_min, fp_max, fp_mul, fp_sub, fp_lt, F_HALF, F_ZERO, SEED_LIMIT, SEED_MASK};


verus! {

/// One control point of a curve node: an (input, output) pair of scalars.
#[derive(Clone, Copy, PartialEq, Eq, Structural, Debug)]
pub struct ControlPoint {
    pub input: u64,
    pub output: u64,
}

/// A node descriptor. Source fields are arena indices of the node's inputs.
#[derive(Debug)]
pub enum Node {
    /// Always yields `value`.
    Constant { value: u64 },
    /// Multi-octave coherent noise from the outside generator.
    Perlin { seed: u32, frequency: u64, persistence: u64, lacunarity: u64, octaves: u32 },
    /// Ridged-multifractal noise from the outside generator.
    Ridged { seed: u32, frequency: u64, lacunarity: u64, octaves: u32 },
    /// Billowy noise (absolute-valued octaves) from the outside generator.
    Billow { seed: u32, frequency: u64, persistence: u64, lacunarity: u64, octaves: u32 },
    /// Cellular noise from the outside generator; `distance` selects
    /// distance-to-cell-border output.
    Voronoi { seed: u32, frequency: u64, distance: bool },
    /// Affine shaping: `source * scale + bias`.
    ScaleBias { source: usize, scale: u64, bias: u64 },
    /// Bounds the source into `[lower, upper]`.
    Clamp { source: usize, lower: u64, upper: u64 },
    /// Piecewise cubic spline through the control points, driven by the
    /// source value.
    Curve { source: usize, points: Vec<ControlPoint> },
    /// Stair-stepped remapping of the source between sorted control values.
    Terrace { source: usize, values: Vec<u64>, inverted: bool },
    /// Power-curve shaping of the source, which is expected in `[-1, 1]`.
    Exponent { source: usize, exponent: u64 },
    /// Evaluates the source at a query point warped by three auxiliary noise
    /// fields, one per axis, each scaled by `power`.
    Turbulence { source: usize, seed: u32, frequency: u64, power: u64, roughness: u32 },
    /// Sum of the two sources.
    Add { left: usize, right: usize },
    /// Product of the two sources.
    Multiply { left: usize, right: usize },
    /// The smaller of the two sources.
    Min { left: usize, right: usize },
    /// The larger of the two sources.
    Max { left: usize, right: usize },
    /// Linear interpolation from `source0` to `source1` by the control value
    /// remapped from `[-1, 1]` to `[0, 1]`.
    Blend { source0: usize, source1: usize, control: usize },
    /// Yields `source1` where the control value lies in `[lower, upper]` and
    /// `source0` elsewhere, with a smooth edge of width `falloff`.
    Select {
        source0: usize,
        source1: usize,
        control: usize,
        lower: u64,
        upper: u64,
        falloff: u64,
    },
    /// Remembers the most recent (point, value) pair of its source.
    Cache { source: usize },
}

/// Curve control points: at least four, strictly increasing by input, with
/// pairwise distinct input patterns.
pub open spec fn curve_points_wf(ps: Seq<ControlPoint>) -> bool {
    &&& ps.len() >= 4
    &&& forall|j: int| 0 <= j && j + 1 < ps.len() ==> #[trigger] lt_of(ps[j].input, ps[j + 1].input)
    &&& forall|j: int, k: int| 0 <= j < k < ps.len() ==> ps[j].input != ps[k].input
}

/// Terrace control values: at least two, strictly increasing, pairwise
/// distinct patterns.
pub open spec fn terrace_points_wf(ps: Seq<u64>) -> bool {
    &&& ps.len() >= 2
    &&& forall|j: int| 0 <= j && j + 1 < ps.len() ==> #[trigger] lt_of(ps[j], ps[j + 1])
    &&& forall|j: int, k: int| 0 <= j < k < ps.len() ==> ps[j] != ps[k]
}

/// Well-formedness of one node standing at index `i`: inputs come strictly
/// before it, seeds leave room for the octave offsets the generators add, and
/// control-point tables are valid.
pub open spec fn node_wf(n: Node, i: int) -> bool {
    match n {
        Node::Constant { .. } => true,
        Node::Perlin { seed, octaves, .. } => seed <= SEED_LIMIT && 1 <= octaves <= 32,
        Node::Ridged { seed, octaves, .. } => seed <= SEED_LIMIT && 1 <= octaves <= 32,
        Node::Billow { seed, octaves, .. } => seed <= SEED_LIMIT && 1 <= octaves <= 32,
        Node::Voronoi { .. } => true,
        Node::ScaleBias { source, .. } => (source as int) < i,
        Node::Clamp { source, .. } => (source as int) < i,
        Node::Curve { source, points } => (source as int) < i && curve_points_wf(points@),
        Node::Terrace { source, values, .. } => (source as int) < i && terrace_points_wf(values@),
        Node::Exponent { source, .. } => (source as int) < i,
        Node::Turbulence { source, seed, roughness, .. } => {
            (source as int) < i && seed <= SEED_LIMIT - 2 && 1 <= roughness <= 32
        },
        Node::Add { left, right } => (left as int) < i && (right as int) < i,
        Node::Multiply { left, right } => (left as int) < i && (right as int) < i,
        Node::Min { left, right } => (left as int) < i && (right as int) < i,
        Node::Max { left, right } => (left as int) < i && (right as int) < i,
        Node::Blend { source0, source1, control } => {
            (source0 as int) < i && (source1 as int) < i && (control as int) < i
        },
        Node::Select { source0, source1, control, .. } => {
            (source0 as int) < i && (source1 as int) < i && (control as int) < i
        },
        Node::Cache { source } => (source as int) < i,
    }
}

/// Well-formedness of a whole arena.
pub open spec fn graph_wf(nodes: Seq<Node>) -> bool {
    forall|i: int| 0 <= i < nodes.len() ==> node_wf(#[trigger] nodes[i], i)
}

/// An elevation-field graph under construction or ready for evaluation.
pub struct Graph {
    pub nodes: Vec<Node>,
}

/// A malformed configuration detected while building a graph.
#[derive(Clone, Copy, PartialEq, Eq, Structural, Debug)]
pub enum ConfigError {
    /// A control-point table was shorter than the node kind demands.
    TooFewPoints,
    /// A control-point table was not strictly increasing.
    NotIncreasing,
    /// A tunable constant violated the documented ordering constraints.
    BadConstants,
}

impl Graph {
    /// The arena is well-formed.
    pub open spec fn wf(self) -> bool {
        graph_wf(self.nodes@)
    }

    /// An empty graph.
    pub fn new() -> (g: Graph)
        ensures
            g.wf(),
            g.nodes@.len() == 0,
    {
        Graph { nodes: Vec::new() }
    }

    pub fn len(&self) -> (n: usize)
        ensures
            n == self.nodes@.len(),
    {
        self.nodes.len()
    }

    /// Appends a node already known to be well-formed at the next index.
    fn push_node(&mut self, n: Node) -> (i: usize)
        requires
            old(self).wf(),
            node_wf(n, old(self).nodes@.len() as int),
            old(self).nodes@.len() < usize::MAX,
        ensures
            final(self).wf(),
            final(self).nodes@ == old(self).nodes@.push(n),
            i == old(self).nodes@.len(),
    {
        let i = self.nodes.len();
        self.nodes.push(n);
        proof {
            assert forall|j: int| 0 <= j < self.nodes@.len() implies node_wf(
                #[trigger] self.nodes@[j],
                j,
            ) by {
                if j < i {
                    assert(self.nodes@[j] == old(self).nodes@[j]);
                }
            }
        }
        i
    }

    /// Appends a constant node.
    pub fn add_constant(&mut self, value: u64) -> (i: usize)
        requires
            old(self).wf(),
            old(self).nodes@.len() < usize::MAX,
        ensures
            final(self).wf(),
            final(self).nodes@ == old(self).nodes@.push(Node::Constant { value }),
            i == old(self).nodes@.len(),
    {
        self.push_node(Node::Constant { value })
    }

    /// Appends a Perlin source. The seed is masked and the octave count
    /// bounded into the range the generator accepts, exactly as the node will
    /// carry them.
    pub fn add_perlin(
        &mut self,
        seed: u32,
        frequency: u64,
        persistence: u64,
        lacunarity: u64,
        octaves: u32,
    ) -> (i: usize)
        requires
            old(self).wf(),
            old(self).nodes@.len() < usize::MAX,
        ensures
            final(self).wf(),
            final(self).nodes@ == old(self).nodes@.push(
                Node::Perlin {
                    seed: seed & SEED_MASK,
                    frequency,
                    persistence,
                    lacunarity,
                    octaves: clamp_octaves(octaves),
                },
            ),
            i == old(self).nodes@.len(),
    {
        let s = mask_seed(seed);
        let o = bound_octaves(octaves);
        self.push_node(Node::Perlin { seed: s, frequency, persistence, lacunarity, octaves: o })
    }

    /// Appends a ridged-multifractal source, with seed and octave count
    /// bounded as for `add_perlin`.
    pub fn add_ridged(
        &mut self,
        seed: u32,
        frequency: u64,
        lacunarity: u64,
        octaves: u32,
    ) -> (i: usize)
        requires
            old(self).wf(),
            old(self).nodes@.len() < usize::MAX,
        ensures
            final(self).wf(),
            final(self).nodes@ == old(self).nodes@.push(
                Node::Ridged {
                    seed: seed & SEED_MASK,
                    frequency,
                    lacunarity,
                    octaves: clamp_octaves(octaves),
                },
            ),
            i == old(self).nodes@.len(),
    {
        let s = mask_seed(seed);
        let o = bound_octaves(octaves);
        self.push_node(Node::Ridged { seed: s, frequency, lacunarity, octaves: o })
    }

    /// Appends a billow source, with seed and octave count bounded as for
    /// `add_perlin`.
    pub fn add_billow(
        &mut self,
        seed: u32,
        frequency: u64,
        persistence: u64,
        lacunarity: u64,
        octaves: u32,
    ) -> (i: usize)
        requires
            old(self).wf(),
            old(self).nodes@.len() < usize::MAX,
        ensures
            final(self).wf(),
            final(self).nodes@ == old(self).nodes@.push(
                Node::Billow {
                    seed: seed & SEED_MASK,
                    frequency,
                    persistence,
                    lacunarity,
                    octaves: clamp_octaves(octaves),
                },
            ),
            i == old(self).nodes@.len(),
    {
        let s = mask_seed(seed);
        let o = bound_octaves(octaves);
        self.push_node(Node::Billow { seed: s, frequency, persistence, lacunarity, octaves: o })
    }

    /// Appends a cellular source.
    pub fn add_voronoi(&mut self, seed: u32, frequency: u64, distance: bool) -> (i: usize)
        requires
            old(self).wf(),
            old(self).nodes@.len() < usize::MAX,
        ensures
            final(self).wf(),
            final(self).nodes@ == old(self).nodes@.push(Node::Voronoi { seed, frequency, distance }),
            i == old(self).nodes@.len(),
    {
        self.push_node(Node::Voronoi { seed, frequency, distance })
    }

    /// Appends an affine shaping node.
    pub fn add_scale_bias(&mut self, source: usize, scale: u64, bias: u64) -> (i: usize)
        requires
            old(self).wf(),
            source < old(self).nodes@.len(),
            old(self).nodes@.len() < usize::MAX,
        ensures
            final(self).wf(),
            final(self).nodes@ == old(self).nodes@.push(Node::ScaleBias { source, scale, bias }),
            i == old(self).nodes@.len(),
    {
        self.push_node(Node::ScaleBias { source, scale, bias })
    }

    /// Appends a clamping node.
    pub fn add_clamp(&mut self, source: usize, lower: u64, upper: u64) -> (i: usize)
        requires
            old(self).wf(),
            source < old(self).nodes@.len(),
            old(self).nodes@.len() < usize::MAX,
        ensures
            final(self).wf(),
            final(self).nodes@ == old(self).nodes@.push(Node::Clamp { source, lower, upper }),
            i == old(self).nodes@.len(),
    {
        self.push_node(Node::Clamp { source, lower, upper })
    }

    /// Appends a curve node after validating its control-point table, which
    /// is accepted exactly when it has at least four points, strictly
    /// increasing and pairwise distinct by input.
    pub fn add_curve(&mut self, source: usize, points: Vec<ControlPoint>) -> (r: Result<
        usize,
        ConfigError,
    >)
        requires
            old(self).wf(),
            source < old(self).nodes@.len(),
            old(self).nodes@.len() < usize::MAX,
        ensures
            final(self).wf(),
            r is Ok <==> curve_points_wf(points@),
            r matches Ok(i) ==> {
                &&& final(self).nodes@ == old(self).nodes@.push(Node::Curve { source, points })
                &&& i == old(self).nodes@.len()
            },
            r is Err ==> final(self).nodes@ == old(self).nodes@,
            points@.len() < 4 ==> r == Err::<usize, ConfigError>(ConfigError::TooFewPoints),
            r is Err ==> (r == Err::<usize, ConfigError>(ConfigError::TooFewPoints) || r
                == Err::<usize, ConfigError>(ConfigError::NotIncreasing)),
    {
        if points.len() < 4 {
            return Err(ConfigError::TooFewPoints);
        }
        if !control_inputs_valid(&points) {
            return Err(ConfigError::NotIncreasing);
        }
        Ok(self.push_node(Node::Curve { source, points }))
    }

    /// Appends a terrace node after validating its control values, which are
    /// accepted exactly when there are at least two, strictly increasing and
    /// pairwise distinct.
    pub fn add_terrace(&mut self, source: usize, values: Vec<u64>, inverted: bool) -> (r: Result<
        usize,
        ConfigError,
    >)
        requires
            old(self).wf(),
            source < old(self).nodes@.len(),
            old(self).nodes@.len() < usize::MAX,
        ensures
            final(self).wf(),
            r is Ok <==> terrace_points_wf(values@),
            r matches Ok(i) ==> {
                &&& final(self).nodes@ == old(self).nodes@.push(
                    Node::Terrace { source, values, inverted },
                )
                &&& i == old(self).nodes@.len()
            },
            r is Err ==> final(self).nodes@ == old(self).nodes@,
            values@.len() < 2 ==> r == Err::<usize, ConfigError>(ConfigError::TooFewPoints),
            r is Err ==> (r == Err::<usize, ConfigError>(ConfigError::TooFewPoints) || r
                == Err::<usize, ConfigError>(ConfigError::NotIncreasing)),
    {
        if values.len() < 2 {
            return Err(ConfigError::TooFewPoints);
        }
        if !terrace_inputs_valid(&values) {
            return Err(ConfigError::NotIncreasing);
        }
        Ok(self.push_node(Node::Terrace { source, values, inverted }))
    }

    /// Appends a power-curve shaping node.
    pub fn add_exponent(&mut self, source: usize, exponent: u64) -> (i: usize)
        requires
            old(self).wf(),
            source < old(self).nodes@.len(),
            old(self).nodes@.len() < usize::MAX,
        ensures
            final(self).wf(),
            final(self).nodes@ == old(self).nodes@.push(Node::Exponent { source, exponent }),
            i == old(self).nodes@.len(),
    {
        self.push_node(Node::Exponent { source, exponent })
    }

    /// Appends a turbulence node, with the seed masked and the roughness
    /// bounded as for the sources.
    pub fn add_turbulence(
        &mut self,
        source: usize,
        seed: u32,
        frequency: u64,
        power: u64,
        roughness: u32,
    ) -> (i: usize)
        requires
            old(self).wf(),
            source < old(self).nodes@.len(),
            old(self).nodes@.len() < usize::MAX,
        ensures
            final(self).wf(),
            final(self).nodes@ == old(self).nodes@.push(
                Node::Turbulence {
                    source,
                    seed: seed & SEED_MASK,
                    frequency,
                    power,
                    roughness: clamp_octaves(roughness),
                },
            ),
            i == old(self).nodes@.len(),
    {
        let s = mask_seed(seed);
        let o = bound_octaves(roughness);
        self.push_node(Node::Turbulence { source, seed: s, frequency, power, roughness: o })
    }

    /// Appends an addition combinator.
    pub fn add_sum(&mut self, left: usize, right: usize) -> (i: usize)
        requires
            old(self).wf(),
            left < old(self).nodes@.len(),
            right < old(self).nodes@.len(),
            old(self).nodes@.len() < usize::MAX,
        ensures
            final(self).wf(),
            final(self).nodes@ == old(self).nodes@.push(Node::Add { left, right }),
            i == old(self).nodes@.len(),
    {
        self.push_node(Node::Add { left, right })
    }

    /// Appends a multiplication combinator.
    pub fn add_product(&mut self, left: usize, right: usize) -> (i: usize)
        requires
            old(self).wf(),
            left < old(self).nodes@.len(),
            right < old(self).nodes@.len(),
            old(self).nodes@.len() < usize::MAX,
        ensures
            final(self).wf(),
            final(self).nodes@ == old(self).nodes@.push(Node::Multiply { left, right }),
            i == old(self).nodes@.len(),
    {
        self.push_node(Node::Multiply { left, right })
    }

    /// Appends a minimum combinator.
    pub fn add_min(&mut self, left: usize, right: usize) -> (i: usize)
        requires
            old(self).wf(),
            left < old(self).nodes@.len(),
            right < old(self).nodes@.len(),
            old(self).nodes@.len() < usize::MAX,
        ensures
            final(self).wf(),
            final(self).nodes@ == old(self).nodes@.push(Node::Min { left, right }),
            i == old(self).nodes@.len(),
    {
        self.push_node(Node::Min { left, right })
    }

    /// Appends a maximum combinator.
    pub fn add_max(&mut self, left: usize, right: usize) -> (i: usize)
        requires
            old(self).wf(),
            left < old(self).nodes@.len(),
            right < old(self).nodes@.len(),
            old(self).nodes@.len() < usize::MAX,
        ensures
            final(self).wf(),
            final(self).nodes@ == old(self).nodes@.push(Node::Max { left, right }),
            i == old(self).nodes@.len(),
    {
        self.push_node(Node::Max { left, right })
    }

    /// Appends a blend combinator.
    pub fn add_blend(&mut self, source0: usize, source1: usize, control: usize) -> (i: usize)
        requires
            old(self).wf(),
            source0 < old(self).nodes@.len(),
            source1 < old(self).nodes@.len(),
            control < old(self).nodes@.len(),
            old(self).nodes@.len() < usize::MAX,
        ensures
            final(self).wf(),
            final(self).nodes@ == old(self).nodes@.push(
                Node::Blend { source0, source1, control },
            ),
            i == old(self).nodes@.len(),
    {
        self.push_node(Node::Blend { source0, source1, control })
    }

    /// Appends a select combinator. The falloff width actually stored is
    /// bounded above by half the width of `[lower, upper]`, so that the two
    /// edge bands cannot overlap, and below by zero, so a negative (or NaN)
    /// width gives the hard boundary rather than inverted bands.
    pub fn add_select(
        &mut self,
        source0: usize,
        source1: usize,
        control: usize,
        lower: u64,
        upper: u64,
        falloff: u64,
    ) -> (i: usize)
        requires
            old(self).wf(),
            source0 < old(self).nodes@.len(),
            source1 < old(self).nodes@.len(),
            control < old(self).nodes@.len(),
            old(self).nodes@.len() < usize::MAX,
        ensures
            final(self).wf(),
            final(self).nodes@ == old(self).nodes@.push(
                Node::Select {
                    source0,
                    source1,
                    control,
                    lower,
                    upper,
                    falloff: fmax_of(fmin_of(falloff, mul_of(sub_of(upper, lower), F_HALF)), F_ZERO),
                },
            ),
            i == old(self).nodes@.len(),
    {
        let half_width = fp_mul(fp_sub(upper, lower), F_HALF);
        let eff = fp_max(fp_min(falloff, half_width), F_ZERO);
        self.push_node(
            Node::Select { source0, source1, control, lower, upper, falloff: eff },
        )
    }

    /// Appends a memoizing node.
    pub fn add_cache(&mut self, source: usize) -> (i: usize)
        requires
            old(self).wf(),
            source < old(self).nodes@.len(),
            old(self).nodes@.len() < usize::MAX,
        ensures
            final(self).wf(),
            final(self).nodes@ == old(self).nodes@.push(Node::Cache { source }),
            i == old(self).nodes@.len(),
    {
        self.push_node(Node::Cache { source })
    }
}

/// The octave count actually carried by a source node: bounded into the
/// range the outside generator accepts, mirroring its own behaviour.
pub open spec fn clamp_octaves(octaves: u32) -> u32 {
    if octaves < 1 {
        1
    } else if octaves > 32 {
        32
    } else {
        octaves
    }
}


/// Checks that curve inputs are strictly increasing and pairwise distinct.
fn control_inputs_valid(points: &Vec<ControlPoint>) -> (ok: bool)
    ensures
        ok <==> {
            &&& forall|j: int|
                0 <= j && j + 1 < points@.len() ==> #[trigger] lt_of(
                    points@[j].input,
                    points@[j + 1].input,
                )
            &&& forall|j: int, k: int|
                0 <= j < k < points@.len() ==> points@[j].input != points@[k].input
        },
{
    let n = points.len();
    let mut j: usize = 1;
    while j < n
        invariant
            n == points@.len(),
            1 <= j,
            forall|t: int|
                0 <= t && t + 1 < points@.len() && t + 1 < j ==> #[trigger] lt_of(
                    points@[t].input,
                    points@[t + 1].input,
                ),
        decreases n - j,
    {
        if !fp_lt(points[j - 1].input, points[j].input) {
            proof {
                let t0 = j as int - 1;
                assert(!lt_of(points@[t0].input, points@[t0 + 1].input));
            }
            return false;
        }
        j = j + 1;
    }
    let mut a: usize = 0;
    while a < n
        invariant
            n == points@.len(),
            a <= n,
            forall|t: int, u: int| 0 <= t < u < points@.len() && t < a ==> points@[t].input != points@[u].input,
            forall|t: int|
                0 <= t && t + 1 < points@.len() ==> #[trigger] lt_of(
                    points@[t].input,
                    points@[t + 1].input,
                ),
        decreases n - a,
    {
        let mut b: usize = a + 1;
        while b < n
            invariant
                n == points@.len(),
                a < n || a + 1 >= b,
                a + 1 <= b <= n || (a + 1 > n && b == a + 1),
                forall|u: int| a < u < b ==> points@[a as int].input != points@[u].input,
            decreases n - b,
        {
            if points[a].input == points[b].input {
                return false;
            }
            b = b + 1;
        }
        a = a + 1;
    }
    true
}

/// Checks that terrace values are strictly increasing and pairwise distinct.
fn terrace_inputs_valid(points: &Vec<u64>) -> (ok: bool)
    ensures
        ok <==> {
            &&& forall|j: int|
                0 <= j && j + 1 < points@.len() ==> #[trigger] lt_of(points@[j], points@[j + 1])
            &&& forall|j: int, k: int| 0 <= j < k < points@.len() ==> points@[j] != points@[k]
        },
{
    let n = points.len();
    let mut j: usize = 1;
    while j < n
        invariant
            n == points@.len(),
            1 <= j,
            forall|t: int|
                0 <= t && t + 1 < points@.len() && t + 1 < j ==> #[trigger] lt_of(
                    points@[t],
                    points@[t + 1],
                ),
        decreases n - j,
    {
        if !fp_lt(points[j - 1], points[j]) {
            proof {
                let t0 = j as int - 1;
                assert(!lt_of(points@[t0], points@[t0 + 1]));
            }
            return false;
        }
        j = j + 1;
    }
    let mut a: usize = 0;
    while a < n
        invariant
            n == points@.len(),
            a <= n,
            forall|t: int, u: int| 0 <= t < u < points@.len() && t < a ==> points@[t] != points@[u],
            forall|t: int|
                0 <= t && t + 1 < points@.len() ==> #[trigger] lt_of(points@[t], points@[t + 1]),
        decreases n - a,
    {
        let mut b: usize = a + 1;
        while b < n
            invariant
                n == points@.len(),
                a < n,
                a + 1 <= b <= n,
                forall|u: int| a < u < b ==> points@[a as int] != points@[u],
            decreases n - b,
        {
            if points[a] == points[b] {
                return false;
            }
            b = b + 1;
        }
        a = a + 1;
    }
    true
}

fn bound_octaves(octaves: u32) -> (o: u32)
    ensures
        o == clamp_octaves(octaves),
        1 <= o <= 32,
{
    if octaves < 1 {
        1
    } else if octaves > 32 {
        32
    } else {
        octaves
    }
}

fn mask_seed(seed: u32) -> (s: u32)
    ensures
        s == seed & SEED_MASK,
        s <= SEED_LIMIT - 2,
{
    proof {
        assert(seed & 0x3FFF_FFFFu32 <= 0x3FFF_FFFFu32) by (bit_vector);
    }
    seed & SEED_MASK
}

} // verus!
