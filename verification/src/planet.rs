//! Assembly of the planetary elevation field.
//!
//! One call builds the whole composition graph from a seed and a
//! configuration: continent definition, terrain-type definition, the
//! mountain, hill, plain and badland layers, river positions, the scaled
//! layers, and the final compositing, which bounds the elevation into
//! `[-1, 1]`. Every tunable scalar is a 64-bit float bit pattern, and the
//! finished arena is pinned node by node by `planet_graph_matches`, so the
//! field is provably one function of seed and configuration.

use vstd::prelude::*;
use crate::fp::{
    add_of, sub_of, mul_of, div_of, neg_of, fmin_of, fmax_of, lt_of, F_ZERO, F_HALF, F_ONE,
    F_TWO, F_NEG_ONE, SEED_MASK, fp_add, fp_sub, fp_mul, fp_div, fp_neg, fp_lt,
};
use crate::graph::{
    curve_points_wf, terrace_points_wf, ControlPoint, ConfigError, Graph, Node,
};
use crate::eval::{graphs_equivalent, lemma_value_respects_equivalence, node_equivalent,
    node_value, Point3, Session};

verus! {

/// The seed actually stored by a source node derived from the planet's base
/// seed and the node's fixed offset.
pub open spec fn derived_seed(seed: u32, offset: u32) -> u32 {
    ((seed + offset) as u32) & SEED_MASK
}

/// The tunable constants of a planet, as float bit patterns.
pub struct PlanetConfig {
    /// Frequency of the continents, in radians.
    pub continent_frequency: u64,
    /// Octave-to-octave frequency multiplier of the continents.
    pub continent_lacunarity: u64,
    /// Octave-to-octave frequency multiplier of the mountains.
    pub mountain_lacunarity: u64,
    /// Octave-to-octave frequency multiplier of the hills.
    pub hills_lacunarity: u64,
    /// Octave-to-octave frequency multiplier of the plains.
    pub plains_lacunarity: u64,
    /// Octave-to-octave frequency multiplier of the badlands.
    pub badlands_lacunarity: u64,
    /// Twistiness of the mountains.
    pub mountains_twist: u64,
    /// Twistiness of the hills.
    pub hills_twist: u64,
    /// Twistiness of the badlands.
    pub badlands_twist: u64,
    /// Sea level, in planetary elevation units.
    pub sea_level: u64,
    /// Level at which continental shelves appear; below sea level.
    pub shelf_level: u64,
    /// Share of the terrain covered in mountains, in [0, 1].
    pub mountains_amount: u64,
    /// Share of the terrain covered in hills; at least the mountainous share.
    pub hills_amount: u64,
    /// Share of the terrain covered in badlands, in [0, 1].
    pub badlands_amount: u64,
    /// Offset applied to the terrain type definition.
    pub terrain_offset: u64,
    /// Glaciation exponent on the mountains; slightly above one.
    pub mountain_glaciation: u64,
    /// Scaling of base continent elevations, in planetary elevation units.
    pub continent_height_scale: u64,
    /// Maximum river depth, in planetary elevation units.
    pub river_depth: u64,
}

/// The documented ordering of the tunables: the shelf sits below sea level,
/// the mountainous share does not exceed the hilly share, and the hilly
/// share does not exceed one.
pub open spec fn config_ok(c: PlanetConfig) -> bool {
    &&& lt_of(c.shelf_level, c.sea_level)
    &&& !lt_of(c.hills_amount, c.mountains_amount)
    &&& !lt_of(F_ONE, c.hills_amount)
}

/// The stock planet: the configuration every default rendering uses.
pub open spec fn standard_config() -> PlanetConfig {
    PlanetConfig {
        continent_frequency: 0x3FF0000000000000,  // 1.0
        continent_lacunarity: 0x4001AC0000000000,  // 2.208984375
        mountain_lacunarity: 0x4001240000000000,  // 2.142578125
        hills_lacunarity: 0x40014C0000000000,  // 2.162109375
        plains_lacunarity: 0x4002840000000000,  // 2.314453125
        badlands_lacunarity: 0x4001B40000000000,  // 2.212890625
        mountains_twist: 0x3FF0000000000000,  // 1.0
        hills_twist: 0x3FF0000000000000,  // 1.0
        badlands_twist: 0x3FF0000000000000,  // 1.0
        sea_level: 0x0000000000000000,  // 0.0
        shelf_level: 0xBFD8000000000000,  // -0.375
        mountains_amount: 0x3FE0000000000000,  // 0.5
        hills_amount: 0x3FE8000000000000,  // 0.75
        badlands_amount: 0x3FA0000000000000,  // 0.03125
        terrain_offset: 0x3FF0000000000000,  // 1.0
        mountain_glaciation: 0x3FF6000000000000,  // 1.375
        continent_height_scale: 0x3FD0000000000000,  // 0.25
        river_depth: 0x3F98000000000000,  // 0.0234375
    }
}

impl PlanetConfig {
    /// The stock planet: the configuration every default rendering uses.
    pub fn standard() -> (c: PlanetConfig)
        ensures
            c == standard_config(),
    {
        PlanetConfig {
            continent_frequency: 0x3FF0000000000000,  // 1.0
            continent_lacunarity: 0x4001AC0000000000,  // 2.208984375
            mountain_lacunarity: 0x4001240000000000,  // 2.142578125
            hills_lacunarity: 0x40014C0000000000,  // 2.162109375
            plains_lacunarity: 0x4002840000000000,  // 2.314453125
            badlands_lacunarity: 0x4001B40000000000,  // 2.212890625
            mountains_twist: 0x3FF0000000000000,  // 1.0
            hills_twist: 0x3FF0000000000000,  // 1.0
            badlands_twist: 0x3FF0000000000000,  // 1.0
            sea_level: 0x0000000000000000,  // 0.0
            shelf_level: 0xBFD8000000000000,  // -0.375
            mountains_amount: 0x3FE0000000000000,  // 0.5
            hills_amount: 0x3FE8000000000000,  // 0.75
            badlands_amount: 0x3FA0000000000000,  // 0.03125
            terrain_offset: 0x3FF0000000000000,  // 1.0
            mountain_glaciation: 0x3FF6000000000000,  // 1.375
            continent_height_scale: 0x3FD0000000000000,  // 0.25
            river_depth: 0x3F98000000000000,  // 0.0234375
        }
    }

    /// Checks the documented ordering of the tunables.
    pub fn valid(&self) -> (ok: bool)
        ensures
            ok <==> config_ok(*self),
    {
        fp_lt(self.shelf_level, self.sea_level) && !fp_lt(self.hills_amount, self.mountains_amount)
            && !fp_lt(F_ONE, self.hills_amount)
    }
}

/// The continent-shaping curve, each coordinate lifted by the sea level.
pub open spec fn base_continent_curve(cfg: PlanetConfig) -> Seq<ControlPoint> {
    seq![
        ControlPoint { input: add_of(0xC000000000000000, cfg.sea_level), output: add_of(0xBFFA000000000000, cfg.sea_level) },  // -2.0 -> -1.625
        ControlPoint { input: add_of(0xBFF0000000000000, cfg.sea_level), output: add_of(0xBFF6000000000000, cfg.sea_level) },  // -1.0 -> -1.375
        ControlPoint { input: add_of(0x0000000000000000, cfg.sea_level), output: add_of(0xBFD8000000000000, cfg.sea_level) },  // 0.0 -> -0.375
        ControlPoint { input: add_of(0x3FB0000000000000, cfg.sea_level), output: add_of(0x3FC0000000000000, cfg.sea_level) },  // 0.0625 -> 0.125
        ControlPoint { input: add_of(0x3FC0000000000000, cfg.sea_level), output: add_of(0x3FD0000000000000, cfg.sea_level) },  // 0.125 -> 0.25
        ControlPoint { input: add_of(0x3FD0000000000000, cfg.sea_level), output: add_of(0x3FF0000000000000, cfg.sea_level) },  // 0.25 -> 1.0
        ControlPoint { input: add_of(0x3FE0000000000000, cfg.sea_level), output: add_of(0x3FD0000000000000, cfg.sea_level) },  // 0.5 -> 0.25
        ControlPoint { input: add_of(0x3FE8000000000000, cfg.sea_level), output: add_of(0x3FD0000000000000, cfg.sea_level) },  // 0.75 -> 0.25
        ControlPoint { input: add_of(0x3FF0000000000000, cfg.sea_level), output: add_of(0x3FE0000000000000, cfg.sea_level) },  // 1.0 -> 0.5
        ControlPoint { input: add_of(0x4000000000000000, cfg.sea_level), output: add_of(0x3FE0000000000000, cfg.sea_level) },  // 2.0 -> 0.5
    ]
}

/// The terrace sharpening the terrain type definition near sea level.
pub open spec fn terrain_type_values(cfg: PlanetConfig) -> Seq<u64> {
    seq![
        0xBFF0000000000000u64,  // -1.0
        add_of(cfg.shelf_level, div_of(cfg.sea_level, F_TWO)),  // shelf + sea / 2
        0x3FF0000000000000u64,  // 1.0
    ]
}

/// The steep desert-cliff shaping curve.
pub open spec fn badlands_curve() -> Seq<ControlPoint> {
    seq![
        ControlPoint { input: 0xC000000000000000, output: 0xC000000000000000 },  // -2.0 -> -2.0
        ControlPoint { input: 0xBFF0000000000000, output: 0xBFF4000000000000 },  // -1.0 -> -1.25
        ControlPoint { input: 0x8000000000000000, output: 0xBFE8000000000000 },  // -0.0 -> -0.75
        ControlPoint { input: 0x3FE0000000000000, output: 0xBFD0000000000000 },  // 0.5 -> -0.25
        ControlPoint { input: 0x3FE4000000000000, output: 0x3FEC000000000000 },  // 0.625 -> 0.875
        ControlPoint { input: 0x3FE8000000000000, output: 0x3FF0000000000000 },  // 0.75 -> 1.0
        ControlPoint { input: 0x4000000000000000, output: 0x3FF4000000000000 },  // 2.0 -> 1.25
    ]
}

/// The terraced ledges below the badlands cliff transition.
pub open spec fn badlands_values() -> Seq<u64> {
    seq![
        0xBFF0000000000000u64,  // -1.0
        0xBFEC000000000000u64,  // -0.875
        0xBFE8000000000000u64,  // -0.75
        0xBFE0000000000000u64,  // -0.5
        0x0000000000000000u64,  // 0.0
        0x3FF0000000000000u64,  // 1.0
    ]
}

/// The curve inverting large-river ridges into riverbeds.
pub open spec fn large_river_curve() -> Seq<ControlPoint> {
    seq![
        ControlPoint { input: 0xC000000000000000, output: 0x4000000000000000 },  // -2.0 -> 2.0
        ControlPoint { input: 0xBFF0000000000000, output: 0x3FF0000000000000 },  // -1.0 -> 1.0
        ControlPoint { input: 0xBFC0000000000000, output: 0x3FEC000000000000 },  // -0.125 -> 0.875
        ControlPoint { input: 0x0000000000000000, output: 0xBFF0000000000000 },  // 0.0 -> -1.0
        ControlPoint { input: 0x3FF0000000000000, output: 0xBFF8000000000000 },  // 1.0 -> -1.5
        ControlPoint { input: 0x4000000000000000, output: 0xC000000000000000 },  // 2.0 -> -2.0
    ]
}

/// The curve inverting small-river ridges into shallow riverbeds.
pub open spec fn small_river_curve() -> Seq<ControlPoint> {
    seq![
        ControlPoint { input: 0xC000000000000000, output: 0x4000000000000000 },  // -2.0 -> 2.0
        ControlPoint { input: 0xBFF0000000000000, output: 0x3FF8000000000000 },  // -1.0 -> 1.5
        ControlPoint { input: 0xBFC0000000000000, output: 0x3FF7000000000000 },  // -0.125 -> 1.4375
        ControlPoint { input: 0x0000000000000000, output: 0x3FE0000000000000 },  // 0.0 -> 0.5
        ControlPoint { input: 0x3FF0000000000000, output: 0x3FD0000000000000 },  // 1.0 -> 0.25
        ControlPoint { input: 0x4000000000000000, output: 0x0000000000000000 },  // 2.0 -> 0.0
    ]
}

/// The terrace whose middle step becomes the continental shelf.
pub open spec fn shelf_values(cfg: PlanetConfig) -> Seq<u64> {
    seq![
        0xBFF0000000000000u64,  // -1.0
        0xBFE8000000000000u64,  // -0.75
        cfg.shelf_level,  // the shelf level
        0x3FF0000000000000u64,  // 1.0
    ]
}

/// Extra mountain height that grows with the continent elevation.
pub open spec fn mountains_curve(cfg: PlanetConfig) -> Seq<ControlPoint> {
    seq![
        ControlPoint { input: 0xBFF0000000000000, output: 0xBFB0000000000000 },  // -1.0 -> -0.0625
        ControlPoint { input: 0x0000000000000000, output: 0x0000000000000000 },  // 0.0 -> 0.0
        ControlPoint { input: sub_of(F_ONE, cfg.mountains_amount), output: 0x3FB0000000000000 },  // 1 - mountains share -> 0.0625
        ControlPoint { input: 0x3FF0000000000000, output: 0x3FD0000000000000 },  // 1.0 -> 0.25
    ]
}

/// Every control table of the planet graph is well-formed: the curves hold
/// at least four strictly increasing, pairwise distinct inputs and the
/// terraces at least two such values. Exactly this decides whether a build
/// succeeds once the configuration ordering holds.
pub open spec fn planet_tables_ok(cfg: PlanetConfig) -> bool {
    &&& curve_points_wf(base_continent_curve(cfg))
    &&& terrace_points_wf(terrain_type_values(cfg))
    &&& curve_points_wf(badlands_curve())
    &&& terrace_points_wf(badlands_values())
    &&& curve_points_wf(large_river_curve())
    &&& curve_points_wf(small_river_curve())
    &&& terrace_points_wf(shelf_values(cfg))
    &&& curve_points_wf(mountains_curve(cfg))
}

/// The nodes this stage appends, pinned at their positions from `base`.
pub open spec fn base_continent_def_built(nodes: Seq<Node>, base: int, seed: u32, cfg: PlanetConfig) -> bool {
    &&& base + 7 <= nodes.len()
    &&& nodes[base + 0] == (Node::Perlin {
        seed: derived_seed(seed, 0),
        frequency: cfg.continent_frequency,
        persistence: F_HALF,
        lacunarity: cfg.continent_lacunarity,
        octaves: 14,
    })
    &&& nodes[base + 1] matches Node::Curve { source, points } && source == base + 0
        && points@ == base_continent_curve(cfg)
    &&& nodes[base + 2] == (Node::Perlin {
        seed: derived_seed(seed, 1),
        frequency: mul_of(cfg.continent_frequency, 0x4011600000000000),  // 4.34375
        persistence: F_HALF,
        lacunarity: cfg.continent_lacunarity,
        octaves: 11,
    })
    &&& nodes[base + 3] == (Node::ScaleBias {
        source: ((base + 2) as usize),
        scale: 0x3FD8000000000000,  // 0.375
        bias: 0x3FE4000000000000,  // 0.625
    })
    &&& nodes[base + 4] == (Node::Min {
        left: ((base + 3) as usize),
        right: ((base + 1) as usize),
    })
    &&& nodes[base + 5] == (Node::Clamp {
        source: ((base + 4) as usize),
        lower: F_NEG_ONE,
        upper: F_ONE,
    })
    &&& nodes[base + 6] == (Node::Cache {
        source: ((base + 5) as usize),
    })
}

/// Base continent definition: positions and base elevations of the continents.
fn base_continent_def(g: &mut Graph, seed: u32, cfg: &PlanetConfig) -> (r: Result<usize, ConfigError>)
    requires
        old(g).wf(),
        old(g).nodes@.len() + 16 <= usize::MAX,
        seed <= SEED_MASK,
    ensures
        final(g).wf(),
        old(g).nodes@.len() <= final(g).nodes@.len(),
        final(g).nodes@.len() <= old(g).nodes@.len() + 7,
        final(g).nodes@.take(old(g).nodes@.len() as int) =~= old(g).nodes@,
        r is Ok <==> curve_points_wf(base_continent_curve(*cfg)),
        r matches Ok(i) ==> ({
            &&& final(g).nodes@.len() == old(g).nodes@.len() + 7
            &&& i == old(g).nodes@.len() + 6
            &&& base_continent_def_built(final(g).nodes@, old(g).nodes@.len() as int, seed, *cfg)
        }),
        r is Err ==> (r == Err::<usize, ConfigError>(ConfigError::TooFewPoints) || r
            == Err::<usize, ConfigError>(ConfigError::NotIncreasing)),
{
    let ghost base = g.nodes@.len() as int;
    let ghost orig = g.nodes@;
    // Continent module: high-octave coherent noise for visible detail.
    let pe0 = g.add_perlin(seed + 0, cfg.continent_frequency, F_HALF, cfg.continent_lacunarity, 14);
    // Continent-with-ranges: pulls high values towards sea level, placing the mountain ranges.
    let pts = vec![
        (ControlPoint { input: fp_add(0xC000000000000000, cfg.sea_level), output: fp_add(0xBFFA000000000000, cfg.sea_level) }),  // -2.0 -> -1.625
        (ControlPoint { input: fp_add(0xBFF0000000000000, cfg.sea_level), output: fp_add(0xBFF6000000000000, cfg.sea_level) }),  // -1.0 -> -1.375
        (ControlPoint { input: fp_add(0x0000000000000000, cfg.sea_level), output: fp_add(0xBFD8000000000000, cfg.sea_level) }),  // 0.0 -> -0.375
        (ControlPoint { input: fp_add(0x3FB0000000000000, cfg.sea_level), output: fp_add(0x3FC0000000000000, cfg.sea_level) }),  // 0.0625 -> 0.125
        (ControlPoint { input: fp_add(0x3FC0000000000000, cfg.sea_level), output: fp_add(0x3FD0000000000000, cfg.sea_level) }),  // 0.125 -> 0.25
        (ControlPoint { input: fp_add(0x3FD0000000000000, cfg.sea_level), output: fp_add(0x3FF0000000000000, cfg.sea_level) }),  // 0.25 -> 1.0
        (ControlPoint { input: fp_add(0x3FE0000000000000, cfg.sea_level), output: fp_add(0x3FD0000000000000, cfg.sea_level) }),  // 0.5 -> 0.25
        (ControlPoint { input: fp_add(0x3FE8000000000000, cfg.sea_level), output: fp_add(0x3FD0000000000000, cfg.sea_level) }),  // 0.75 -> 0.25
        (ControlPoint { input: fp_add(0x3FF0000000000000, cfg.sea_level), output: fp_add(0x3FE0000000000000, cfg.sea_level) }),  // 1.0 -> 0.5
        (ControlPoint { input: fp_add(0x4000000000000000, cfg.sea_level), output: fp_add(0x3FE0000000000000, cfg.sea_level) }),  // 2.0 -> 0.5
    ];
    proof {
        assert(pts@ =~= base_continent_curve(*cfg));
    }
    let cu = g.add_curve(pe0, pts)?;
    // Carver: higher-frequency noise that cuts passes into the ranges.
    let pe1 = g.add_perlin(
        seed + 1,
        fp_mul(cfg.continent_frequency, 0x4011600000000000),  // 4.34375
        F_HALF,
        cfg.continent_lacunarity,
        11,
    );
    let sb = g.add_scale_bias(
        pe1,
        0x3FD8000000000000,  // 0.375
        0x3FE4000000000000,  // 0.625
    );
    // Carved continent: keep the lower of carver and ranges.
    let mi = g.add_min(sb, cu);
    let cl = g.add_clamp(mi, F_NEG_ONE, F_ONE);
    let out = g.add_cache(cl);
    proof {
        assert(g.nodes@.take(base) =~= orig);
        assert(base_continent_def_built(g.nodes@, base, seed, *cfg));
    }
    Ok(out)
}

/// The nodes this stage appends, pinned at their positions from `base`.
pub open spec fn continent_def_built(nodes: Seq<Node>, base: int, base_def: usize, seed: u32, cfg: PlanetConfig) -> bool {
    &&& base + 5 <= nodes.len()
    &&& nodes[base + 0] == (Node::Turbulence {
        source: base_def,
        seed: derived_seed(seed, 10),
        frequency: mul_of(cfg.continent_frequency, 0x402E800000000000),  // 15.25
        power: div_of(cfg.continent_frequency, 0x405C700000000000),  // 113.75
        roughness: 13,
    })
    &&& nodes[base + 1] == (Node::Turbulence {
        source: ((base + 0) as usize),
        seed: derived_seed(seed, 11),
        frequency: mul_of(cfg.continent_frequency, 0x4047A00000000000),  // 47.25
        power: div_of(cfg.continent_frequency, 0x407B1C0000000000),  // 433.75
        roughness: 12,
    })
    &&& nodes[base + 2] == (Node::Turbulence {
        source: ((base + 1) as usize),
        seed: derived_seed(seed, 12),
        frequency: mul_of(cfg.continent_frequency, 0x4057D00000000000),  // 95.25
        power: div_of(cfg.continent_frequency, 0x408FDE0000000000),  // 1019.75
        roughness: 11,
    })
    &&& nodes[base + 3] == (Node::Select {
        source0: base_def,
        source1: ((base + 2) as usize),
        control: base_def,
        lower: sub_of(cfg.sea_level, 0x3FA3333333333333),  // 0.0375
        upper: add_of(cfg.sea_level, 0x408F404CCCCCCCCD),  // 1000.0375
        falloff: fmax_of(fmin_of(0x3FB0000000000000, mul_of(sub_of(add_of(cfg.sea_level, 0x408F404CCCCCCCCD), sub_of(cfg.sea_level, 0x3FA3333333333333)), F_HALF)), F_ZERO),  // 0.0625, 1000.0375, 0.0375
    })
    &&& nodes[base + 4] == (Node::Cache {
        source: ((base + 3) as usize),
    })
}

/// Continent definition: warps the base continents into lumpier terrain, leaving coasts and oceans unwarped.
fn continent_def(g: &mut Graph, seed: u32, cfg: &PlanetConfig, base_def: usize) -> (i: usize)
    requires
        old(g).wf(),
        old(g).nodes@.len() + 16 <= usize::MAX,
        seed <= SEED_MASK,
        base_def < old(g).nodes@.len(),
    ensures
        final(g).wf(),
        old(g).nodes@.len() <= final(g).nodes@.len(),
        final(g).nodes@.len() <= old(g).nodes@.len() + 5,
        final(g).nodes@.take(old(g).nodes@.len() as int) =~= old(g).nodes@,
        final(g).nodes@.len() == old(g).nodes@.len() + 5,
        i == old(g).nodes@.len() + 4,
        continent_def_built(final(g).nodes@, old(g).nodes@.len() as int, base_def, seed, *cfg),
{
    let ghost base = g.nodes@.len() as int;
    let ghost orig = g.nodes@;
    // Three turbulence passes of rising frequency and falling power.
    let tu0 = g.add_turbulence(
        base_def,
        seed + 10,
        fp_mul(cfg.continent_frequency, 0x402E800000000000),  // 15.25
        fp_div(cfg.continent_frequency, 0x405C700000000000),  // 113.75
        13,
    );
    let tu1 = g.add_turbulence(
        tu0,
        seed + 11,
        fp_mul(cfg.continent_frequency, 0x4047A00000000000),  // 47.25
        fp_div(cfg.continent_frequency, 0x407B1C0000000000),  // 433.75
        12,
    );
    let tu2 = g.add_turbulence(
        tu1,
        seed + 12,
        fp_mul(cfg.continent_frequency, 0x4057D00000000000),  // 95.25
        fp_div(cfg.continent_frequency, 0x408FDE0000000000),  // 1019.75
        11,
    );
    // Only land above sea level keeps the warp.
    let se = g.add_select(
        base_def,
        tu2,
        base_def,
        fp_sub(cfg.sea_level, 0x3FA3333333333333),  // 0.0375
        fp_add(cfg.sea_level, 0x408F404CCCCCCCCD),  // 1000.0375
        0x3FB0000000000000,  // 0.0625
    );
    let out = g.add_cache(se);
    proof {
        assert(g.nodes@.take(base) =~= orig);
        assert(continent_def_built(g.nodes@, base, base_def, seed, *cfg));
    }
    out
}

/// The nodes this stage appends, pinned at their positions from `base`.
pub open spec fn terrain_type_def_built(nodes: Seq<Node>, base: int, continents: usize, seed: u32, cfg: PlanetConfig) -> bool {
    &&& base + 3 <= nodes.len()
    &&& nodes[base + 0] == (Node::Turbulence {
        source: continents,
        seed: derived_seed(seed, 20),
        frequency: mul_of(cfg.continent_frequency, 0x4032200000000000),  // 18.125
        power: mul_of(div_of(cfg.continent_frequency, 0x4034980000000000), cfg.terrain_offset),  // 20.59375
        roughness: 3,
    })
    &&& nodes[base + 1] matches Node::Terrace { source, values, inverted } && source == base + 0
        && values@ == terrain_type_values(cfg) && inverted == false
    &&& nodes[base + 2] == (Node::Cache {
        source: ((base + 1) as usize),
    })
}

/// Terrain type definition: where plains, hills and mountains may appear.
fn terrain_type_def(g: &mut Graph, seed: u32, cfg: &PlanetConfig, continents: usize) -> (r: Result<usize, ConfigError>)
    requires
        old(g).wf(),
        old(g).nodes@.len() + 16 <= usize::MAX,
        seed <= SEED_MASK,
        continents < old(g).nodes@.len(),
    ensures
        final(g).wf(),
        old(g).nodes@.len() <= final(g).nodes@.len(),
        final(g).nodes@.len() <= old(g).nodes@.len() + 3,
        final(g).nodes@.take(old(g).nodes@.len() as int) =~= old(g).nodes@,
        r is Ok <==> terrace_points_wf(terrain_type_values(*cfg)),
        r matches Ok(i) ==> ({
            &&& final(g).nodes@.len() == old(g).nodes@.len() + 3
            &&& i == old(g).nodes@.len() + 2
            &&& terrain_type_def_built(final(g).nodes@, old(g).nodes@.len() as int, continents, seed, *cfg)
        }),
        r is Err ==> (r == Err::<usize, ConfigError>(ConfigError::TooFewPoints) || r
            == Err::<usize, ConfigError>(ConfigError::NotIncreasing)),
{
    let ghost base = g.nodes@.len() as int;
    let ghost orig = g.nodes@;
    // Slight warp, so rough terrain is not tied to elevation alone.
    let tu = g.add_turbulence(
        continents,
        seed + 20,
        fp_mul(cfg.continent_frequency, 0x4032200000000000),  // 18.125
        fp_mul(fp_div(cfg.continent_frequency, 0x4034980000000000), cfg.terrain_offset),  // 20.59375
        3,
    );
    // Sharpen near sea level, flattening the slope above it.
    let vals = vec![
        0xBFF0000000000000u64,  // -1.0
        fp_add(cfg.shelf_level, fp_div(cfg.sea_level, F_TWO)),  // shelf + sea / 2
        0x3FF0000000000000u64,  // 1.0
    ];
    proof {
        assert(vals@ =~= terrain_type_values(*cfg));
    }
    let te = g.add_terrace(tu, vals, false)?;
    let out = g.add_cache(te);
    proof {
        assert(g.nodes@.take(base) =~= orig);
        assert(terrain_type_def_built(g.nodes@, base, continents, seed, *cfg));
    }
    Ok(out)
}

/// The nodes this stage appends, pinned at their positions from `base`.
pub open spec fn mountain_base_def_built(nodes: Seq<Node>, base: int, seed: u32, cfg: PlanetConfig) -> bool {
    &&& base + 9 <= nodes.len()
    &&& nodes[base + 0] == (Node::Ridged {
        seed: derived_seed(seed, 30),
        frequency: 0x409AEC0000000000,  // 1723.0
        lacunarity: cfg.mountain_lacunarity,
        octaves: 4,
    })
    &&& nodes[base + 1] == (Node::ScaleBias {
        source: ((base + 0) as usize),
        scale: F_HALF,
        bias: 0x3FD8000000000000,  // 0.375
    })
    &&& nodes[base + 2] == (Node::Ridged {
        seed: derived_seed(seed, 31),
        frequency: 0x4076F00000000000,  // 367.0
        lacunarity: cfg.mountain_lacunarity,
        octaves: 1,
    })
    &&& nodes[base + 3] == (Node::ScaleBias {
        source: ((base + 2) as usize),
        scale: 0xC000000000000000,  // -2.0
        bias: 0xBFE0000000000000,  // -0.5
    })
    &&& nodes[base + 4] == (Node::Constant {
        value: F_NEG_ONE,
    })
    &&& nodes[base + 5] == (Node::Blend {
        source0: ((base + 4) as usize),
        source1: ((base + 1) as usize),
        control: ((base + 3) as usize),
    })
    &&& nodes[base + 6] == (Node::Turbulence {
        source: ((base + 5) as usize),
        seed: derived_seed(seed, 32),
        frequency: 0x4094E40000000000,  // 1337.0
        power: mul_of(0x3F2379CCB9530013, cfg.mountains_twist),  // 0.00014858841010401187
        roughness: 4,
    })
    &&& nodes[base + 7] == (Node::Turbulence {
        source: ((base + 6) as usize),
        seed: derived_seed(seed, 33),
        frequency: 0x40D4B94000000000,  // 21221.0
        power: mul_of(0x3EE174141A94A81E, cfg.mountains_twist),  // 8.322444801384855e-06
        roughness: 6,
    })
    &&& nodes[base + 8] == (Node::Cache {
        source: ((base + 7) as usize),
    })
}

/// Mountain base definition: ridges and river valleys the other mountain layers build on.
fn mountain_base_def(g: &mut Graph, seed: u32, cfg: &PlanetConfig) -> (i: usize)
    requires
        old(g).wf(),
        old(g).nodes@.len() + 16 <= usize::MAX,
        seed <= SEED_MASK,
    ensures
        final(g).wf(),
        old(g).nodes@.len() <= final(g).nodes@.len(),
        final(g).nodes@.len() <= old(g).nodes@.len() + 9,
        final(g).nodes@.take(old(g).nodes@.len() as int) =~= old(g).nodes@,
        final(g).nodes@.len() == old(g).nodes@.len() + 9,
        i == old(g).nodes@.len() + 8,
        mountain_base_def_built(final(g).nodes@, old(g).nodes@.len() as int, seed, *cfg),
{
    let ghost base = g.nodes@.len() as int;
    let ghost orig = g.nodes@;
    let rm0 = g.add_ridged(
        seed + 30,
        0x409AEC0000000000,  // 1723.0
        cfg.mountain_lacunarity,
        4,
    );
    let sb0 = g.add_scale_bias(
        rm0,
        F_HALF,
        0x3FD8000000000000,  // 0.375
    );
    // One-octave ridges at low frequency become the river valleys.
    let rm1 = g.add_ridged(
        seed + 31,
        0x4076F00000000000,  // 367.0
        cfg.mountain_lacunarity,
        1,
    );
    let sb1 = g.add_scale_bias(
        rm1,
        0xC000000000000000,  // -2.0
        0xBFE0000000000000,  // -0.5
    );
    let co = g.add_constant(F_NEG_ONE);
    // Valleys stay smooth and low; ridges rise between them.
    let bl = g.add_blend(co, sb0, sb1);
    let tu0 = g.add_turbulence(
        bl,
        seed + 32,
        0x4094E40000000000,  // 1337.0
        fp_mul(0x3F2379CCB9530013, cfg.mountains_twist),  // 0.00014858841010401187
        4,
    );
    let tu1 = g.add_turbulence(
        tu0,
        seed + 33,
        0x40D4B94000000000,  // 21221.0
        fp_mul(0x3EE174141A94A81E, cfg.mountains_twist),  // 8.322444801384855e-06
        6,
    );
    let out = g.add_cache(tu1);
    proof {
        assert(g.nodes@.take(base) =~= orig);
        assert(mountain_base_def_built(g.nodes@, base, seed, *cfg));
    }
    out
}

/// The nodes this stage appends, pinned at their positions from `base`.
pub open spec fn mountainous_high_built(nodes: Seq<Node>, base: int, seed: u32, cfg: PlanetConfig) -> bool {
    &&& base + 5 <= nodes.len()
    &&& nodes[base + 0] == (Node::Ridged {
        seed: derived_seed(seed, 40),
        frequency: 0x40A2860000000000,  // 2371.0
        lacunarity: cfg.mountain_lacunarity,
        octaves: 3,
    })
    &&& nodes[base + 1] == (Node::Ridged {
        seed: derived_seed(seed, 41),
        frequency: 0x40A24A0000000000,  // 2341.0
        lacunarity: cfg.mountain_lacunarity,
        octaves: 3,
    })
    &&& nodes[base + 2] == (Node::Max {
        left: ((base + 0) as usize),
        right: ((base + 1) as usize),
    })
    &&& nodes[base + 3] == (Node::Turbulence {
        source: ((base + 2) as usize),
        seed: derived_seed(seed, 42),
        frequency: 0x40DEC5C000000000,  // 31511.0
        power: mul_of(0x3ED740F66F73A320, cfg.mountains_twist),  // 5.5441284907219006e-06
        roughness: 4,
    })
    &&& nodes[base + 4] == (Node::Cache {
        source: ((base + 3) as usize),
    })
}

/// High mountainous terrain: the peaks that rise inside the ridges.
fn mountainous_high(g: &mut Graph, seed: u32, cfg: &PlanetConfig) -> (i: usize)
    requires
        old(g).wf(),
        old(g).nodes@.len() + 16 <= usize::MAX,
        seed <= SEED_MASK,
    ensures
        final(g).wf(),
        old(g).nodes@.len() <= final(g).nodes@.len(),
        final(g).nodes@.len() <= old(g).nodes@.len() + 5,
        final(g).nodes@.take(old(g).nodes@.len() as int) =~= old(g).nodes@,
        final(g).nodes@.len() == old(g).nodes@.len() + 5,
        i == old(g).nodes@.len() + 4,
        mountainous_high_built(final(g).nodes@, old(g).nodes@.len() as int, seed, *cfg),
{
    let ghost base = g.nodes@.len() as int;
    let ghost orig = g.nodes@;
    let rm0 = g.add_ridged(
        seed + 40,
        0x40A2860000000000,  // 2371.0
        cfg.mountain_lacunarity,
        3,
    );
    let rm1 = g.add_ridged(
        seed + 41,
        0x40A24A0000000000,  // 2341.0
        cfg.mountain_lacunarity,
        3,
    );
    let ma = g.add_max(rm0, rm1);
    let tu = g.add_turbulence(
        ma,
        seed + 42,
        0x40DEC5C000000000,  // 31511.0
        fp_mul(0x3ED740F66F73A320, cfg.mountains_twist),  // 5.5441284907219006e-06
        4,
    );
    let out = g.add_cache(tu);
    proof {
        assert(g.nodes@.take(base) =~= orig);
        assert(mountainous_high_built(g.nodes@, base, seed, *cfg));
    }
    out
}

/// The nodes this stage appends, pinned at their positions from `base`.
pub open spec fn mountainous_low_built(nodes: Seq<Node>, base: int, seed: u32, cfg: PlanetConfig) -> bool {
    &&& base + 4 <= nodes.len()
    &&& nodes[base + 0] == (Node::Ridged {
        seed: derived_seed(seed, 50),
        frequency: 0x4095940000000000,  // 1381.0
        lacunarity: cfg.mountain_lacunarity,
        octaves: 8,
    })
    &&& nodes[base + 1] == (Node::Ridged {
        seed: derived_seed(seed, 51),
        frequency: 0x40964C0000000000,  // 1427.0
        lacunarity: cfg.mountain_lacunarity,
        octaves: 8,
    })
    &&& nodes[base + 2] == (Node::Multiply {
        left: ((base + 0) as usize),
        right: ((base + 1) as usize),
    })
    &&& nodes[base + 3] == (Node::Cache {
        source: ((base + 2) as usize),
    })
}

/// Low mountainous terrain: cracked, flat-and-ridged floors of the valleys.
fn mountainous_low(g: &mut Graph, seed: u32, cfg: &PlanetConfig) -> (i: usize)
    requires
        old(g).wf(),
        old(g).nodes@.len() + 16 <= usize::MAX,
        seed <= SEED_MASK,
    ensures
        final(g).wf(),
        old(g).nodes@.len() <= final(g).nodes@.len(),
        final(g).nodes@.len() <= old(g).nodes@.len() + 4,
        final(g).nodes@.take(old(g).nodes@.len() as int) =~= old(g).nodes@,
        final(g).nodes@.len() == old(g).nodes@.len() + 4,
        i == old(g).nodes@.len() + 3,
        mountainous_low_built(final(g).nodes@, old(g).nodes@.len() as int, seed, *cfg),
{
    let ghost base = g.nodes@.len() as int;
    let ghost orig = g.nodes@;
    let rm0 = g.add_ridged(
        seed + 50,
        0x4095940000000000,  // 1381.0
        cfg.mountain_lacunarity,
        8,
    );
    let rm1 = g.add_ridged(
        seed + 51,
        0x40964C0000000000,  // 1427.0
        cfg.mountain_lacunarity,
        8,
    );
    let mu = g.add_product(rm0, rm1);
    let out = g.add_cache(mu);
    proof {
        assert(g.nodes@.take(base) =~= orig);
        assert(mountainous_low_built(g.nodes@, base, seed, *cfg));
    }
    out
}

/// The nodes this stage appends, pinned at their positions from `base`.
pub open spec fn mountainous_terrain_built(nodes: Seq<Node>, base: int, low: usize, high: usize, mountain_root: usize, cfg: PlanetConfig) -> bool {
    &&& base + 7 <= nodes.len()
    &&& nodes[base + 0] == (Node::ScaleBias {
        source: low,
        scale: 0x3FA0000000000000,  // 0.03125
        bias: 0xBFEF000000000000,  // -0.96875
    })
    &&& nodes[base + 1] == (Node::ScaleBias {
        source: high,
        scale: 0x3FD0000000000000,  // 0.25
        bias: 0x3FD0000000000000,  // 0.25
    })
    &&& nodes[base + 2] == (Node::Add {
        left: ((base + 1) as usize),
        right: mountain_root,
    })
    &&& nodes[base + 3] == (Node::Select {
        source0: ((base + 0) as usize),
        source1: ((base + 2) as usize),
        control: mountain_root,
        lower: 0xBFE0000000000000,  // -0.5
        upper: 0x408F3C0000000000,  // 999.5
        falloff: fmax_of(fmin_of(F_HALF, mul_of(sub_of(0x408F3C0000000000, 0xBFE0000000000000), F_HALF)), F_ZERO),  // 999.5, -0.5
    })
    &&& nodes[base + 4] == (Node::ScaleBias {
        source: ((base + 3) as usize),
        scale: 0x3FE999999999999A,  // 0.8
        bias: F_ZERO,
    })
    &&& nodes[base + 5] == (Node::Exponent {
        source: ((base + 4) as usize),
        exponent: cfg.mountain_glaciation,
    })
    &&& nodes[base + 6] == (Node::Cache {
        source: ((base + 5) as usize),
    })
}

/// Mountainous terrain: high terrain on the ridges, low terrain in the valleys, glaciated towards the peaks.
fn mountainous_terrain(g: &mut Graph, cfg: &PlanetConfig, low: usize, high: usize, mountain_root: usize) -> (i: usize)
    requires
        old(g).wf(),
        old(g).nodes@.len() + 16 <= usize::MAX,
        low < old(g).nodes@.len(),
        high < old(g).nodes@.len(),
        mountain_root < old(g).nodes@.len(),
    ensures
        final(g).wf(),
        old(g).nodes@.len() <= final(g).nodes@.len(),
        final(g).nodes@.len() <= old(g).nodes@.len() + 7,
        final(g).nodes@.take(old(g).nodes@.len() as int) =~= old(g).nodes@,
        final(g).nodes@.len() == old(g).nodes@.len() + 7,
        i == old(g).nodes@.len() + 6,
        mountainous_terrain_built(final(g).nodes@, old(g).nodes@.len() as int, low, high, mountain_root, *cfg),
{
    let ghost base = g.nodes@.len() as int;
    let ghost orig = g.nodes@;
    let sb0 = g.add_scale_bias(
        low,
        0x3FA0000000000000,  // 0.03125
        0xBFEF000000000000,  // -0.96875
    );
    let sb1 = g.add_scale_bias(
        high,
        0x3FD0000000000000,  // 0.25
        0x3FD0000000000000,  // 0.25
    );
    let ad = g.add_sum(sb1, mountain_root);
    // High terrain only above the base definition's midline.
    let se = g.add_select(
        sb0,
        ad,
        mountain_root,
        0xBFE0000000000000,  // -0.5
        0x408F3C0000000000,  // 999.5
        F_HALF,
    );
    let sb2 = g.add_scale_bias(
        se,
        0x3FE999999999999A,  // 0.8
        F_ZERO,
    );
    let ex = g.add_exponent(sb2, cfg.mountain_glaciation);
    let out = g.add_cache(ex);
    proof {
        assert(g.nodes@.take(base) =~= orig);
        assert(mountainous_terrain_built(g.nodes@, base, low, high, mountain_root, *cfg));
    }
    out
}

/// The nodes this stage appends, pinned at their positions from `base`.
pub open spec fn hilly_terrain_built(nodes: Seq<Node>, base: int, seed: u32, cfg: PlanetConfig) -> bool {
    &&& base + 11 <= nodes.len()
    &&& nodes[base + 0] == (Node::Billow {
        seed: derived_seed(seed, 60),
        frequency: 0x4099FC0000000000,  // 1663.0
        persistence: F_HALF,
        lacunarity: cfg.hills_lacunarity,
        octaves: 6,
    })
    &&& nodes[base + 1] == (Node::ScaleBias {
        source: ((base + 0) as usize),
        scale: F_HALF,
        bias: F_HALF,
    })
    &&& nodes[base + 2] == (Node::Ridged {
        seed: derived_seed(seed, 61),
        frequency: 0x4076F80000000000,  // 367.5
        lacunarity: cfg.hills_lacunarity,
        octaves: 1,
    })
    &&& nodes[base + 3] == (Node::ScaleBias {
        source: ((base + 2) as usize),
        scale: 0xC000000000000000,  // -2.0
        bias: 0xBFE0000000000000,  // -0.5
    })
    &&& nodes[base + 4] == (Node::Constant {
        value: F_NEG_ONE,
    })
    &&& nodes[base + 5] == (Node::Blend {
        source0: ((base + 4) as usize),
        source1: ((base + 3) as usize),
        control: ((base + 1) as usize),
    })
    &&& nodes[base + 6] == (Node::ScaleBias {
        source: ((base + 5) as usize),
        scale: 0x3FE8000000000000,  // 0.75
        bias: 0xBFD0000000000000,  // -0.25
    })
    &&& nodes[base + 7] == (Node::Exponent {
        source: ((base + 6) as usize),
        exponent: 0x3FF6000000000000,  // 1.375
    })
    &&& nodes[base + 8] == (Node::Turbulence {
        source: ((base + 7) as usize),
        seed: derived_seed(seed, 62),
        frequency: 0x4097EC0000000000,  // 1531.0
        power: mul_of(0x3F0EFC0562CEEFAD, cfg.hills_twist),  // 5.9098162047160334e-05
        roughness: 4,
    })
    &&& nodes[base + 9] == (Node::Turbulence {
        source: ((base + 8) as usize),
        seed: derived_seed(seed, 63),
        frequency: 0x40D51C4000000000,  // 21617.0
        power: mul_of(0x3EE1D7FC9A1EA5A7, cfg.hills_twist),  // 8.508538318202317e-06
        roughness: 6,
    })
    &&& nodes[base + 10] == (Node::Cache {
        source: ((base + 9) as usize),
    })
}

/// Hilly terrain: billowy hills between one-octave river valleys.
fn hilly_terrain(g: &mut Graph, seed: u32, cfg: &PlanetConfig) -> (i: usize)
    requires
        old(g).wf(),
        old(g).nodes@.len() + 16 <= usize::MAX,
        seed <= SEED_MASK,
    ensures
        final(g).wf(),
        old(g).nodes@.len() <= final(g).nodes@.len(),
        final(g).nodes@.len() <= old(g).nodes@.len() + 11,
        final(g).nodes@.take(old(g).nodes@.len() as int) =~= old(g).nodes@,
        final(g).nodes@.len() == old(g).nodes@.len() + 11,
        i == old(g).nodes@.len() + 10,
        hilly_terrain_built(final(g).nodes@, old(g).nodes@.len() as int, seed, *cfg),
{
    let ghost base = g.nodes@.len() as int;
    let ghost orig = g.nodes@;
    let bi = g.add_billow(
        seed + 60,
        0x4099FC0000000000,  // 1663.0
        F_HALF,
        cfg.hills_lacunarity,
        6,
    );
    let sb0 = g.add_scale_bias(bi, F_HALF, F_HALF);
    let rm = g.add_ridged(
        seed + 61,
        0x4076F80000000000,  // 367.5
        cfg.hills_lacunarity,
        1,
    );
    let sb1 = g.add_scale_bias(
        rm,
        0xC000000000000000,  // -2.0
        0xBFE0000000000000,  // -0.5
    );
    let co = g.add_constant(F_NEG_ONE);
    let bl = g.add_blend(co, sb1, sb0);
    let sb2 = g.add_scale_bias(
        bl,
        0x3FE8000000000000,  // 0.75
        0xBFD0000000000000,  // -0.25
    );
    let ex = g.add_exponent(
        sb2,
        0x3FF6000000000000,  // 1.375
    );
    let tu0 = g.add_turbulence(
        ex,
        seed + 62,
        0x4097EC0000000000,  // 1531.0
        fp_mul(0x3F0EFC0562CEEFAD, cfg.hills_twist),  // 5.9098162047160334e-05
        4,
    );
    let tu1 = g.add_turbulence(
        tu0,
        seed + 63,
        0x40D51C4000000000,  // 21617.0
        fp_mul(0x3EE1D7FC9A1EA5A7, cfg.hills_twist),  // 8.508538318202317e-06
        6,
    );
    let out = g.add_cache(tu1);
    proof {
        assert(g.nodes@.take(base) =~= orig);
        assert(hilly_terrain_built(g.nodes@, base, seed, *cfg));
    }
    out
}

/// The nodes this stage appends, pinned at their positions from `base`.
pub open spec fn plains_terrain_built(nodes: Seq<Node>, base: int, seed: u32, cfg: PlanetConfig) -> bool {
    &&& base + 7 <= nodes.len()
    &&& nodes[base + 0] == (Node::Billow {
        seed: derived_seed(seed, 70),
        frequency: 0x4091260000000000,  // 1097.5
        persistence: F_HALF,
        lacunarity: cfg.plains_lacunarity,
        octaves: 8,
    })
    &&& nodes[base + 1] == (Node::ScaleBias {
        source: ((base + 0) as usize),
        scale: F_HALF,
        bias: F_HALF,
    })
    &&& nodes[base + 2] == (Node::Billow {
        seed: derived_seed(seed, 71),
        frequency: 0x40949E0000000000,  // 1319.5
        persistence: F_HALF,
        lacunarity: cfg.plains_lacunarity,
        octaves: 8,
    })
    &&& nodes[base + 3] == (Node::ScaleBias {
        source: ((base + 2) as usize),
        scale: F_HALF,
        bias: F_HALF,
    })
    &&& nodes[base + 4] == (Node::Multiply {
        left: ((base + 1) as usize),
        right: ((base + 3) as usize),
    })
    &&& nodes[base + 5] == (Node::ScaleBias {
        source: ((base + 4) as usize),
        scale: F_TWO,
        bias: F_NEG_ONE,
    })
    &&& nodes[base + 6] == (Node::Cache {
        source: ((base + 5) as usize),
    })
}

/// Plains terrain: two positive billow fields multiplied into gentle variation.
fn plains_terrain(g: &mut Graph, seed: u32, cfg: &PlanetConfig) -> (i: usize)
    requires
        old(g).wf(),
        old(g).nodes@.len() + 16 <= usize::MAX,
        seed <= SEED_MASK,
    ensures
        final(g).wf(),
        old(g).nodes@.len() <= final(g).nodes@.len(),
        final(g).nodes@.len() <= old(g).nodes@.len() + 7,
        final(g).nodes@.take(old(g).nodes@.len() as int) =~= old(g).nodes@,
        final(g).nodes@.len() == old(g).nodes@.len() + 7,
        i == old(g).nodes@.len() + 6,
        plains_terrain_built(final(g).nodes@, old(g).nodes@.len() as int, seed, *cfg),
{
    let ghost base = g.nodes@.len() as int;
    let ghost orig = g.nodes@;
    let bi0 = g.add_billow(
        seed + 70,
        0x4091260000000000,  // 1097.5
        F_HALF,
        cfg.plains_lacunarity,
        8,
    );
    let sb0 = g.add_scale_bias(bi0, F_HALF, F_HALF);
    let bi1 = g.add_billow(
        seed + 71,
        0x40949E0000000000,  // 1319.5
        F_HALF,
        cfg.plains_lacunarity,
        8,
    );
    let sb1 = g.add_scale_bias(bi1, F_HALF, F_HALF);
    let mu = g.add_product(sb0, sb1);
    // Back from [0, 1] to [-1, 1].
    let sb2 = g.add_scale_bias(mu, F_TWO, F_NEG_ONE);
    let out = g.add_cache(sb2);
    proof {
        assert(g.nodes@.take(base) =~= orig);
        assert(plains_terrain_built(g.nodes@, base, seed, *cfg));
    }
    out
}

/// The nodes this stage appends, pinned at their positions from `base`.
pub open spec fn badlands_sand_built(nodes: Seq<Node>, base: int, seed: u32, cfg: PlanetConfig) -> bool {
    &&& base + 6 <= nodes.len()
    &&& nodes[base + 0] == (Node::Ridged {
        seed: derived_seed(seed, 80),
        frequency: 0x40B8138000000000,  // 6163.5
        lacunarity: cfg.badlands_lacunarity,
        octaves: 1,
    })
    &&& nodes[base + 1] == (Node::ScaleBias {
        source: ((base + 0) as usize),
        scale: 0x3FEC000000000000,  // 0.875
        bias: F_ZERO,
    })
    &&& nodes[base + 2] == (Node::Voronoi {
        seed: ((seed + 81) as u32),
        frequency: 0x40CF9BA000000000,  // 16183.25
        distance: true,
    })
    &&& nodes[base + 3] == (Node::ScaleBias {
        source: ((base + 2) as usize),
        scale: 0x3FD0000000000000,  // 0.25
        bias: 0x3FD0000000000000,  // 0.25
    })
    &&& nodes[base + 4] == (Node::Add {
        left: ((base + 1) as usize),
        right: ((base + 3) as usize),
    })
    &&& nodes[base + 5] == (Node::Cache {
        source: ((base + 4) as usize),
    })
}

/// Badlands sand: smooth one-octave dunes with cellular pit detail.
fn badlands_sand(g: &mut Graph, seed: u32, cfg: &PlanetConfig) -> (i: usize)
    requires
        old(g).wf(),
        old(g).nodes@.len() + 16 <= usize::MAX,
        seed <= SEED_MASK,
    ensures
        final(g).wf(),
        old(g).nodes@.len() <= final(g).nodes@.len(),
        final(g).nodes@.len() <= old(g).nodes@.len() + 6,
        final(g).nodes@.take(old(g).nodes@.len() as int) =~= old(g).nodes@,
        final(g).nodes@.len() == old(g).nodes@.len() + 6,
        i == old(g).nodes@.len() + 5,
        badlands_sand_built(final(g).nodes@, old(g).nodes@.len() as int, seed, *cfg),
{
    let ghost base = g.nodes@.len() as int;
    let ghost orig = g.nodes@;
    let rm = g.add_ridged(
        seed + 80,
        0x40B8138000000000,  // 6163.5
        cfg.badlands_lacunarity,
        1,
    );
    let sb0 = g.add_scale_bias(
        rm,
        0x3FEC000000000000,  // 0.875
        F_ZERO,
    );
    let vo = g.add_voronoi(
        seed + 81,
        0x40CF9BA000000000,  // 16183.25
        true,
    );
    let sb1 = g.add_scale_bias(
        vo,
        0x3FD0000000000000,  // 0.25
        0x3FD0000000000000,  // 0.25
    );
    let ad = g.add_sum(sb0, sb1);
    let out = g.add_cache(ad);
    proof {
        assert(g.nodes@.take(base) =~= orig);
        assert(badlands_sand_built(g.nodes@, base, seed, *cfg));
    }
    out
}

/// The nodes this stage appends, pinned at their positions from `base`.
pub open spec fn badlands_cliffs_built(nodes: Seq<Node>, base: int, seed: u32, cfg: PlanetConfig) -> bool {
    &&& base + 7 <= nodes.len()
    &&& nodes[base + 0] == (Node::Perlin {
        seed: derived_seed(seed, 90),
        frequency: mul_of(cfg.continent_frequency, 0x408A380000000000),  // 839.0
        persistence: F_HALF,
        lacunarity: cfg.badlands_lacunarity,
        octaves: 6,
    })
    &&& nodes[base + 1] matches Node::Curve { source, points } && source == base + 0
        && points@ == badlands_curve()
    &&& nodes[base + 2] == (Node::Clamp {
        source: ((base + 1) as usize),
        lower: 0xC08F390000000000,  // -999.125
        upper: 0x3FEC000000000000,  // 0.875
    })
    &&& nodes[base + 3] matches Node::Terrace { source, values, inverted } && source == base + 2
        && values@ == badlands_values() && inverted == false
    &&& nodes[base + 4] == (Node::Turbulence {
        source: ((base + 3) as usize),
        seed: derived_seed(seed, 91),
        frequency: 0x40CF778000000000,  // 16111.0
        power: mul_of(0x3EDDA230C7C41C57, cfg.badlands_twist),  // 7.06519051286218e-06
        roughness: 3,
    })
    &&& nodes[base + 5] == (Node::Turbulence {
        source: ((base + 4) as usize),
        seed: derived_seed(seed, 92),
        frequency: 0x40E1A16000000000,  // 36107.0
        power: mul_of(0x3ED3D3C2F47432FC, cfg.badlands_twist),  // 4.727171307961029e-06
        roughness: 3,
    })
    &&& nodes[base + 6] == (Node::Cache {
        source: ((base + 5) as usize),
    })
}

/// Badlands cliffs: a steep shaping curve, flattened tops, terraced ledges and two warps.
fn badlands_cliffs(g: &mut Graph, seed: u32, cfg: &PlanetConfig) -> (r: Result<usize, ConfigError>)
    requires
        old(g).wf(),
        old(g).nodes@.len() + 16 <= usize::MAX,
        seed <= SEED_MASK,
    ensures
        final(g).wf(),
        old(g).nodes@.len() <= final(g).nodes@.len(),
        final(g).nodes@.len() <= old(g).nodes@.len() + 7,
        final(g).nodes@.take(old(g).nodes@.len() as int) =~= old(g).nodes@,
        r is Ok <==> curve_points_wf(badlands_curve()) && terrace_points_wf(badlands_values()),
        r matches Ok(i) ==> ({
            &&& final(g).nodes@.len() == old(g).nodes@.len() + 7
            &&& i == old(g).nodes@.len() + 6
            &&& badlands_cliffs_built(final(g).nodes@, old(g).nodes@.len() as int, seed, *cfg)
        }),
        r is Err ==> (r == Err::<usize, ConfigError>(ConfigError::TooFewPoints) || r
            == Err::<usize, ConfigError>(ConfigError::NotIncreasing)),
{
    let ghost base = g.nodes@.len() as int;
    let ghost orig = g.nodes@;
    let pe = g.add_perlin(
        seed + 90,
        fp_mul(cfg.continent_frequency, 0x408A380000000000),  // 839.0
        F_HALF,
        cfg.badlands_lacunarity,
        6,
    );
    let pts = vec![
        (ControlPoint { input: 0xC000000000000000, output: 0xC000000000000000 }),  // -2.0 -> -2.0
        (ControlPoint { input: 0xBFF0000000000000, output: 0xBFF4000000000000 }),  // -1.0 -> -1.25
        (ControlPoint { input: 0x8000000000000000, output: 0xBFE8000000000000 }),  // -0.0 -> -0.75
        (ControlPoint { input: 0x3FE0000000000000, output: 0xBFD0000000000000 }),  // 0.5 -> -0.25
        (ControlPoint { input: 0x3FE4000000000000, output: 0x3FEC000000000000 }),  // 0.625 -> 0.875
        (ControlPoint { input: 0x3FE8000000000000, output: 0x3FF0000000000000 }),  // 0.75 -> 1.0
        (ControlPoint { input: 0x4000000000000000, output: 0x3FF4000000000000 }),  // 2.0 -> 1.25
    ];
    proof {
        assert(pts@ =~= badlands_curve());
    }
    let cu = g.add_curve(pe, pts)?;
    let cl = g.add_clamp(
        cu,
        0xC08F390000000000,  // -999.125
        0x3FEC000000000000,  // 0.875
    );
    let vals = vec![
        0xBFF0000000000000u64,  // -1.0
        0xBFEC000000000000u64,  // -0.875
        0xBFE8000000000000u64,  // -0.75
        0xBFE0000000000000u64,  // -0.5
        0x0000000000000000u64,  // 0.0
        0x3FF0000000000000u64,  // 1.0
    ];
    proof {
        assert(vals@ =~= badlands_values());
    }
    let te = g.add_terrace(cl, vals, false)?;
    let tu0 = g.add_turbulence(
        te,
        seed + 91,
        0x40CF778000000000,  // 16111.0
        fp_mul(0x3EDDA230C7C41C57, cfg.badlands_twist),  // 7.06519051286218e-06
        3,
    );
    let tu1 = g.add_turbulence(
        tu0,
        seed + 92,
        0x40E1A16000000000,  // 36107.0
        fp_mul(0x3ED3D3C2F47432FC, cfg.badlands_twist),  // 4.727171307961029e-06
        3,
    );
    let out = g.add_cache(tu1);
    proof {
        assert(g.nodes@.take(base) =~= orig);
        assert(badlands_cliffs_built(g.nodes@, base, seed, *cfg));
    }
    Ok(out)
}

/// The nodes this stage appends, pinned at their positions from `base`.
pub open spec fn badlands_terrain_built(nodes: Seq<Node>, base: int, sand: usize, cliffs: usize) -> bool {
    &&& base + 3 <= nodes.len()
    &&& nodes[base + 0] == (Node::ScaleBias {
        source: sand,
        scale: 0x3FD0000000000000,  // 0.25
        bias: 0xBFE8000000000000,  // -0.75
    })
    &&& nodes[base + 1] == (Node::Max {
        left: cliffs,
        right: ((base + 0) as usize),
    })
    &&& nodes[base + 2] == (Node::Cache {
        source: ((base + 1) as usize),
    })
}

/// Badlands terrain: dunes in the low areas, cliffs in the high ones.
fn badlands_terrain(g: &mut Graph, sand: usize, cliffs: usize) -> (i: usize)
    requires
        old(g).wf(),
        old(g).nodes@.len() + 16 <= usize::MAX,
        sand < old(g).nodes@.len(),
        cliffs < old(g).nodes@.len(),
    ensures
        final(g).wf(),
        old(g).nodes@.len() <= final(g).nodes@.len(),
        final(g).nodes@.len() <= old(g).nodes@.len() + 3,
        final(g).nodes@.take(old(g).nodes@.len() as int) =~= old(g).nodes@,
        final(g).nodes@.len() == old(g).nodes@.len() + 3,
        i == old(g).nodes@.len() + 2,
        badlands_terrain_built(final(g).nodes@, old(g).nodes@.len() as int, sand, cliffs),
{
    let ghost base = g.nodes@.len() as int;
    let ghost orig = g.nodes@;
    let sb = g.add_scale_bias(
        sand,
        0x3FD0000000000000,  // 0.25
        0xBFE8000000000000,  // -0.75
    );
    let ma = g.add_max(cliffs, sb);
    let out = g.add_cache(ma);
    proof {
        assert(g.nodes@.take(base) =~= orig);
        assert(badlands_terrain_built(g.nodes@, base, sand, cliffs));
    }
    out
}

/// The nodes this stage appends, pinned at their positions from `base`.
pub open spec fn river_positions_built(nodes: Seq<Node>, base: int, seed: u32, cfg: PlanetConfig) -> bool {
    &&& base + 7 <= nodes.len()
    &&& nodes[base + 0] == (Node::Ridged {
        seed: derived_seed(seed, 100),
        frequency: 0x4032C00000000000,  // 18.75
        lacunarity: cfg.continent_lacunarity,
        octaves: 1,
    })
    &&& nodes[base + 1] matches Node::Curve { source, points } && source == base + 0
        && points@ == large_river_curve()
    &&& nodes[base + 2] == (Node::Ridged {
        seed: derived_seed(seed, 101),
        frequency: 0x4045A00000000000,  // 43.25
        lacunarity: cfg.continent_lacunarity,
        octaves: 1,
    })
    &&& nodes[base + 3] matches Node::Curve { source, points } && source == base + 2
        && points@ == small_river_curve()
    &&& nodes[base + 4] == (Node::Min {
        left: ((base + 1) as usize),
        right: ((base + 3) as usize),
    })
    &&& nodes[base + 5] == (Node::Turbulence {
        source: ((base + 4) as usize),
        seed: derived_seed(seed, 102),
        frequency: 0x4022800000000000,  // 9.25
        power: 0x3F91BB4A4046ED29,  // 0.017316017316017316
        roughness: 6,
    })
    &&& nodes[base + 6] == (Node::Cache {
        source: ((base + 5) as usize),
    })
}

/// River positions: large and small inverted ridges, twisted by turbulence.
fn river_positions(g: &mut Graph, seed: u32, cfg: &PlanetConfig) -> (r: Result<usize, ConfigError>)
    requires
        old(g).wf(),
        old(g).nodes@.len() + 16 <= usize::MAX,
        seed <= SEED_MASK,
    ensures
        final(g).wf(),
        old(g).nodes@.len() <= final(g).nodes@.len(),
        final(g).nodes@.len() <= old(g).nodes@.len() + 7,
        final(g).nodes@.take(old(g).nodes@.len() as int) =~= old(g).nodes@,
        r is Ok <==> curve_points_wf(large_river_curve()) && curve_points_wf(small_river_curve()),
        r matches Ok(i) ==> ({
            &&& final(g).nodes@.len() == old(g).nodes@.len() + 7
            &&& i == old(g).nodes@.len() + 6
            &&& river_positions_built(final(g).nodes@, old(g).nodes@.len() as int, seed, *cfg)
        }),
        r is Err ==> (r == Err::<usize, ConfigError>(ConfigError::TooFewPoints) || r
            == Err::<usize, ConfigError>(ConfigError::NotIncreasing)),
{
    let ghost base = g.nodes@.len() as int;
    let ghost orig = g.nodes@;
    let rm0 = g.add_ridged(
        seed + 100,
        0x4032C00000000000,  // 18.75
        cfg.continent_lacunarity,
        1,
    );
    let pts = vec![
        (ControlPoint { input: 0xC000000000000000, output: 0x4000000000000000 }),  // -2.0 -> 2.0
        (ControlPoint { input: 0xBFF0000000000000, output: 0x3FF0000000000000 }),  // -1.0 -> 1.0
        (ControlPoint { input: 0xBFC0000000000000, output: 0x3FEC000000000000 }),  // -0.125 -> 0.875
        (ControlPoint { input: 0x0000000000000000, output: 0xBFF0000000000000 }),  // 0.0 -> -1.0
        (ControlPoint { input: 0x3FF0000000000000, output: 0xBFF8000000000000 }),  // 1.0 -> -1.5
        (ControlPoint { input: 0x4000000000000000, output: 0xC000000000000000 }),  // 2.0 -> -2.0
    ];
    proof {
        assert(pts@ =~= large_river_curve());
    }
    let cu0 = g.add_curve(rm0, pts)?;
    let rm1 = g.add_ridged(
        seed + 101,
        0x4045A00000000000,  // 43.25
        cfg.continent_lacunarity,
        1,
    );
    let pts = vec![
        (ControlPoint { input: 0xC000000000000000, output: 0x4000000000000000 }),  // -2.0 -> 2.0
        (ControlPoint { input: 0xBFF0000000000000, output: 0x3FF8000000000000 }),  // -1.0 -> 1.5
        (ControlPoint { input: 0xBFC0000000000000, output: 0x3FF7000000000000 }),  // -0.125 -> 1.4375
        (ControlPoint { input: 0x0000000000000000, output: 0x3FE0000000000000 }),  // 0.0 -> 0.5
        (ControlPoint { input: 0x3FF0000000000000, output: 0x3FD0000000000000 }),  // 1.0 -> 0.25
        (ControlPoint { input: 0x4000000000000000, output: 0x0000000000000000 }),  // 2.0 -> 0.0
    ];
    proof {
        assert(pts@ =~= small_river_curve());
    }
    let cu1 = g.add_curve(rm1, pts)?;
    // Small rivers cut into the large ones.
    let mi = g.add_min(cu0, cu1);
    let tu = g.add_turbulence(
        mi,
        seed + 102,
        0x4022800000000000,  // 9.25
        0x3F91BB4A4046ED29,  // 0.017316017316017316
        6,
    );
    let out = g.add_cache(tu);
    proof {
        assert(g.nodes@.take(base) =~= orig);
        assert(river_positions_built(g.nodes@, base, seed, *cfg));
    }
    Ok(out)
}

/// The nodes this stage appends, pinned at their positions from `base`.
pub open spec fn scaled_mountainous_terrain_built(nodes: Seq<Node>, base: int, mountains: usize, seed: u32, cfg: PlanetConfig) -> bool {
    &&& base + 6 <= nodes.len()
    &&& nodes[base + 0] == (Node::ScaleBias {
        source: mountains,
        scale: 0x3FC0000000000000,  // 0.125
        bias: 0x3FC0000000000000,  // 0.125
    })
    &&& nodes[base + 1] == (Node::Perlin {
        seed: derived_seed(seed, 110),
        frequency: 0x402D000000000000,  // 14.5
        persistence: F_HALF,
        lacunarity: cfg.mountain_lacunarity,
        octaves: 6,
    })
    &&& nodes[base + 2] == (Node::Exponent {
        source: ((base + 1) as usize),
        exponent: 0x3FF4000000000000,  // 1.25
    })
    &&& nodes[base + 3] == (Node::ScaleBias {
        source: ((base + 2) as usize),
        scale: 0x3FD0000000000000,  // 0.25
        bias: F_ONE,
    })
    &&& nodes[base + 4] == (Node::Multiply {
        left: ((base + 0) as usize),
        right: ((base + 3) as usize),
    })
    &&& nodes[base + 5] == (Node::Cache {
        source: ((base + 4) as usize),
    })
}

/// Scaled mountainous terrain: mountains in planetary units, peaks modulated so a few stand much higher.
fn scaled_mountainous_terrain(g: &mut Graph, seed: u32, cfg: &PlanetConfig, mountains: usize) -> (i: usize)
    requires
        old(g).wf(),
        old(g).nodes@.len() + 16 <= usize::MAX,
        seed <= SEED_MASK,
        mountains < old(g).nodes@.len(),
    ensures
        final(g).wf(),
        old(g).nodes@.len() <= final(g).nodes@.len(),
        final(g).nodes@.len() <= old(g).nodes@.len() + 6,
        final(g).nodes@.take(old(g).nodes@.len() as int) =~= old(g).nodes@,
        final(g).nodes@.len() == old(g).nodes@.len() + 6,
        i == old(g).nodes@.len() + 5,
        scaled_mountainous_terrain_built(final(g).nodes@, old(g).nodes@.len() as int, mountains, seed, *cfg),
{
    let ghost base = g.nodes@.len() as int;
    let ghost orig = g.nodes@;
    let sb0 = g.add_scale_bias(
        mountains,
        0x3FC0000000000000,  // 0.125
        0x3FC0000000000000,  // 0.125
    );
    let pe = g.add_perlin(
        seed + 110,
        0x402D000000000000,  // 14.5
        F_HALF,
        cfg.mountain_lacunarity,
        6,
    );
    let ex = g.add_exponent(
        pe,
        0x3FF4000000000000,  // 1.25
    );
    let sb1 = g.add_scale_bias(
        ex,
        0x3FD0000000000000,  // 0.25
        F_ONE,
    );
    let mu = g.add_product(sb0, sb1);
    let out = g.add_cache(mu);
    proof {
        assert(g.nodes@.take(base) =~= orig);
        assert(scaled_mountainous_terrain_built(g.nodes@, base, mountains, seed, *cfg));
    }
    out
}

/// The nodes this stage appends, pinned at their positions from `base`.
pub open spec fn scaled_hilly_terrain_built(nodes: Seq<Node>, base: int, hills: usize, seed: u32, cfg: PlanetConfig) -> bool {
    &&& base + 6 <= nodes.len()
    &&& nodes[base + 0] == (Node::ScaleBias {
        source: hills,
        scale: 0x3FB0000000000000,  // 0.0625
        bias: 0x3FB0000000000000,  // 0.0625
    })
    &&& nodes[base + 1] == (Node::Perlin {
        seed: derived_seed(seed, 120),
        frequency: 0x402B000000000000,  // 13.5
        persistence: F_HALF,
        lacunarity: cfg.hills_lacunarity,
        octaves: 6,
    })
    &&& nodes[base + 2] == (Node::Exponent {
        source: ((base + 1) as usize),
        exponent: 0x3FF4000000000000,  // 1.25
    })
    &&& nodes[base + 3] == (Node::ScaleBias {
        source: ((base + 2) as usize),
        scale: F_HALF,
        bias: 0x3FF8000000000000,  // 1.5
    })
    &&& nodes[base + 4] == (Node::Multiply {
        left: ((base + 0) as usize),
        right: ((base + 3) as usize),
    })
    &&& nodes[base + 5] == (Node::Cache {
        source: ((base + 4) as usize),
    })
}

/// Scaled hilly terrain: hills in planetary units at half the mountain scale, hilltops modulated.
fn scaled_hilly_terrain(g: &mut Graph, seed: u32, cfg: &PlanetConfig, hills: usize) -> (i: usize)
    requires
        old(g).wf(),
        old(g).nodes@.len() + 16 <= usize::MAX,
        seed <= SEED_MASK,
        hills < old(g).nodes@.len(),
    ensures
        final(g).wf(),
        old(g).nodes@.len() <= final(g).nodes@.len(),
        final(g).nodes@.len() <= old(g).nodes@.len() + 6,
        final(g).nodes@.take(old(g).nodes@.len() as int) =~= old(g).nodes@,
        final(g).nodes@.len() == old(g).nodes@.len() + 6,
        i == old(g).nodes@.len() + 5,
        scaled_hilly_terrain_built(final(g).nodes@, old(g).nodes@.len() as int, hills, seed, *cfg),
{
    let ghost base = g.nodes@.len() as int;
    let ghost orig = g.nodes@;
    let sb0 = g.add_scale_bias(
        hills,
        0x3FB0000000000000,  // 0.0625
        0x3FB0000000000000,  // 0.0625
    );
    let pe = g.add_perlin(
        seed + 120,
        0x402B000000000000,  // 13.5
        F_HALF,
        cfg.hills_lacunarity,
        6,
    );
    let ex = g.add_exponent(
        pe,
        0x3FF4000000000000,  // 1.25
    );
    let sb1 = g.add_scale_bias(
        ex,
        F_HALF,
        0x3FF8000000000000,  // 1.5
    );
    let mu = g.add_product(sb0, sb1);
    let out = g.add_cache(mu);
    proof {
        assert(g.nodes@.take(base) =~= orig);
        assert(scaled_hilly_terrain_built(g.nodes@, base, hills, seed, *cfg));
    }
    out
}

/// The nodes this stage appends, pinned at their positions from `base`.
pub open spec fn scaled_plains_terrain_built(nodes: Seq<Node>, base: int, plains: usize) -> bool {
    &&& base + 2 <= nodes.len()
    &&& nodes[base + 0] == (Node::ScaleBias {
        source: plains,
        scale: 0x3F70000000000000,  // 0.00390625
        bias: 0x3F80000000000000,  // 0.0078125
    })
    &&& nodes[base + 1] == (Node::Cache {
        source: ((base + 0) as usize),
    })
}

/// Scaled plains terrain: plains flattened into planetary units.
fn scaled_plains_terrain(g: &mut Graph, plains: usize) -> (i: usize)
    requires
        old(g).wf(),
        old(g).nodes@.len() + 16 <= usize::MAX,
        plains < old(g).nodes@.len(),
    ensures
        final(g).wf(),
        old(g).nodes@.len() <= final(g).nodes@.len(),
        final(g).nodes@.len() <= old(g).nodes@.len() + 2,
        final(g).nodes@.take(old(g).nodes@.len() as int) =~= old(g).nodes@,
        final(g).nodes@.len() == old(g).nodes@.len() + 2,
        i == old(g).nodes@.len() + 1,
        scaled_plains_terrain_built(final(g).nodes@, old(g).nodes@.len() as int, plains),
{
    let ghost base = g.nodes@.len() as int;
    let ghost orig = g.nodes@;
    let sb = g.add_scale_bias(
        plains,
        0x3F70000000000000,  // 0.00390625
        0x3F80000000000000,  // 0.0078125
    );
    let out = g.add_cache(sb);
    proof {
        assert(g.nodes@.take(base) =~= orig);
        assert(scaled_plains_terrain_built(g.nodes@, base, plains));
    }
    out
}

/// The nodes this stage appends, pinned at their positions from `base`.
pub open spec fn scaled_badlands_terrain_built(nodes: Seq<Node>, base: int, badlands: usize) -> bool {
    &&& base + 2 <= nodes.len()
    &&& nodes[base + 0] == (Node::ScaleBias {
        source: badlands,
        scale: 0x3FB0000000000000,  // 0.0625
        bias: 0x3FB0000000000000,  // 0.0625
    })
    &&& nodes[base + 1] == (Node::Cache {
        source: ((base + 0) as usize),
    })
}

/// Scaled badlands terrain: badlands brought into planetary units.
fn scaled_badlands_terrain(g: &mut Graph, badlands: usize) -> (i: usize)
    requires
        old(g).wf(),
        old(g).nodes@.len() + 16 <= usize::MAX,
        badlands < old(g).nodes@.len(),
    ensures
        final(g).wf(),
        old(g).nodes@.len() <= final(g).nodes@.len(),
        final(g).nodes@.len() <= old(g).nodes@.len() + 2,
        final(g).nodes@.take(old(g).nodes@.len() as int) =~= old(g).nodes@,
        final(g).nodes@.len() == old(g).nodes@.len() + 2,
        i == old(g).nodes@.len() + 1,
        scaled_badlands_terrain_built(final(g).nodes@, old(g).nodes@.len() as int, badlands),
{
    let ghost base = g.nodes@.len() as int;
    let ghost orig = g.nodes@;
    let sb = g.add_scale_bias(
        badlands,
        0x3FB0000000000000,  // 0.0625
        0x3FB0000000000000,  // 0.0625
    );
    let out = g.add_cache(sb);
    proof {
        assert(g.nodes@.take(base) =~= orig);
        assert(scaled_badlands_terrain_built(g.nodes@, base, badlands));
    }
    out
}

/// The nodes this stage appends, pinned at their positions from `base`.
pub open spec fn continental_shelf_built(nodes: Seq<Node>, base: int, continents: usize, seed: u32, cfg: PlanetConfig) -> bool {
    &&& base + 6 <= nodes.len()
    &&& nodes[base + 0] matches Node::Terrace { source, values, inverted } && source == continents
        && values@ == shelf_values(cfg) && inverted == false
    &&& nodes[base + 1] == (Node::Ridged {
        seed: derived_seed(seed, 130),
        frequency: mul_of(cfg.continent_frequency, 0x4011800000000000),  // 4.375
        lacunarity: cfg.continent_lacunarity,
        octaves: 16,
    })
    &&& nodes[base + 2] == (Node::ScaleBias {
        source: ((base + 1) as usize),
        scale: 0xBFC0000000000000,  // -0.125
        bias: 0xBFC0000000000000,  // -0.125
    })
    &&& nodes[base + 3] == (Node::Clamp {
        source: ((base + 0) as usize),
        lower: 0xBFE8000000000000,  // -0.75
        upper: cfg.sea_level,
    })
    &&& nodes[base + 4] == (Node::Add {
        left: ((base + 2) as usize),
        right: ((base + 3) as usize),
    })
    &&& nodes[base + 5] == (Node::Cache {
        source: ((base + 4) as usize),
    })
}

/// Continental shelf: a terrace at the shelf level with oceanic trenches carved below.
fn continental_shelf(g: &mut Graph, seed: u32, cfg: &PlanetConfig, continents: usize) -> (r: Result<usize, ConfigError>)
    requires
        old(g).wf(),
        old(g).nodes@.len() + 16 <= usize::MAX,
        seed <= SEED_MASK,
        continents < old(g).nodes@.len(),
    ensures
        final(g).wf(),
        old(g).nodes@.len() <= final(g).nodes@.len(),
        final(g).nodes@.len() <= old(g).nodes@.len() + 6,
        final(g).nodes@.take(old(g).nodes@.len() as int) =~= old(g).nodes@,
        r is Ok <==> terrace_points_wf(shelf_values(*cfg)),
        r matches Ok(i) ==> ({
            &&& final(g).nodes@.len() == old(g).nodes@.len() + 6
            &&& i == old(g).nodes@.len() + 5
            &&& continental_shelf_built(final(g).nodes@, old(g).nodes@.len() as int, continents, seed, *cfg)
        }),
        r is Err ==> (r == Err::<usize, ConfigError>(ConfigError::TooFewPoints) || r
            == Err::<usize, ConfigError>(ConfigError::NotIncreasing)),
{
    let ghost base = g.nodes@.len() as int;
    let ghost orig = g.nodes@;
    let vals = vec![
        0xBFF0000000000000u64,  // -1.0
        0xBFE8000000000000u64,  // -0.75
        cfg.shelf_level,  // the shelf level
        0x3FF0000000000000u64,  // 1.0
    ];
    proof {
        assert(vals@ =~= shelf_values(*cfg));
    }
    let te = g.add_terrace(continents, vals, false)?;
    let rm = g.add_ridged(
        seed + 130,
        fp_mul(cfg.continent_frequency, 0x4011800000000000),  // 4.375
        cfg.continent_lacunarity,
        16,
    );
    let sb = g.add_scale_bias(
        rm,
        0xBFC0000000000000,  // -0.125
        0xBFC0000000000000,  // -0.125
    );
    let cl = g.add_clamp(
        te,
        0xBFE8000000000000,  // -0.75
        cfg.sea_level,
    );
    let ad = g.add_sum(sb, cl);
    let out = g.add_cache(ad);
    proof {
        assert(g.nodes@.take(base) =~= orig);
        assert(continental_shelf_built(g.nodes@, base, continents, seed, *cfg));
    }
    Ok(out)
}

/// The nodes this stage appends, pinned at their positions from `base`.
pub open spec fn base_continent_elev_built(nodes: Seq<Node>, base: int, continents: usize, shelf: usize, cfg: PlanetConfig) -> bool {
    &&& base + 3 <= nodes.len()
    &&& nodes[base + 0] == (Node::ScaleBias {
        source: continents,
        scale: cfg.continent_height_scale,
        bias: F_ZERO,
    })
    &&& nodes[base + 1] == (Node::Select {
        source0: ((base + 0) as usize),
        source1: shelf,
        control: continents,
        lower: sub_of(cfg.shelf_level, 0x408F400000000000),  // 1000.0
        upper: cfg.shelf_level,
        falloff: fmax_of(fmin_of(0x3FA0000000000000, mul_of(sub_of(cfg.shelf_level, sub_of(cfg.shelf_level, 0x408F400000000000)), F_HALF)), F_ZERO),  // 0.03125, 1000.0
    })
    &&& nodes[base + 2] == (Node::Cache {
        source: ((base + 1) as usize),
    })
}

/// Base continent elevations: continents in planetary units, with the shelves applied below the shelf level.
fn base_continent_elev(g: &mut Graph, cfg: &PlanetConfig, continents: usize, shelf: usize) -> (i: usize)
    requires
        old(g).wf(),
        old(g).nodes@.len() + 16 <= usize::MAX,
        continents < old(g).nodes@.len(),
        shelf < old(g).nodes@.len(),
    ensures
        final(g).wf(),
        old(g).nodes@.len() <= final(g).nodes@.len(),
        final(g).nodes@.len() <= old(g).nodes@.len() + 3,
        final(g).nodes@.take(old(g).nodes@.len() as int) =~= old(g).nodes@,
        final(g).nodes@.len() == old(g).nodes@.len() + 3,
        i == old(g).nodes@.len() + 2,
        base_continent_elev_built(final(g).nodes@, old(g).nodes@.len() as int, continents, shelf, *cfg),
{
    let ghost base = g.nodes@.len() as int;
    let ghost orig = g.nodes@;
    let sb = g.add_scale_bias(continents, cfg.continent_height_scale, F_ZERO);
    let se = g.add_select(
        sb,
        shelf,
        continents,
        fp_sub(cfg.shelf_level, 0x408F400000000000),  // 1000.0
        cfg.shelf_level,
        0x3FA0000000000000,  // 0.03125
    );
    let out = g.add_cache(se);
    proof {
        assert(g.nodes@.take(base) =~= orig);
        assert(base_continent_elev_built(g.nodes@, base, continents, shelf, *cfg));
    }
    out
}

/// The nodes this stage appends, pinned at their positions from `base`.
pub open spec fn continents_with_plains_built(nodes: Seq<Node>, base: int, base_elev: usize, plains: usize) -> bool {
    &&& base + 2 <= nodes.len()
    &&& nodes[base + 0] == (Node::Add {
        left: base_elev,
        right: plains,
    })
    &&& nodes[base + 1] == (Node::Cache {
        source: ((base + 0) as usize),
    })
}

/// Continents with plains: the scaled plains stamped onto the base elevations.
fn continents_with_plains(g: &mut Graph, base_elev: usize, plains: usize) -> (i: usize)
    requires
        old(g).wf(),
        old(g).nodes@.len() + 16 <= usize::MAX,
        base_elev < old(g).nodes@.len(),
        plains < old(g).nodes@.len(),
    ensures
        final(g).wf(),
        old(g).nodes@.len() <= final(g).nodes@.len(),
        final(g).nodes@.len() <= old(g).nodes@.len() + 2,
        final(g).nodes@.take(old(g).nodes@.len() as int) =~= old(g).nodes@,
        final(g).nodes@.len() == old(g).nodes@.len() + 2,
        i == old(g).nodes@.len() + 1,
        continents_with_plains_built(final(g).nodes@, old(g).nodes@.len() as int, base_elev, plains),
{
    let ghost base = g.nodes@.len() as int;
    let ghost orig = g.nodes@;
    let ad = g.add_sum(base_elev, plains);
    let out = g.add_cache(ad);
    proof {
        assert(g.nodes@.take(base) =~= orig);
        assert(continents_with_plains_built(g.nodes@, base, base_elev, plains));
    }
    out
}

/// The nodes this stage appends, pinned at their positions from `base`.
pub open spec fn continents_with_hills_built(nodes: Seq<Node>, base: int, with_plains: usize, base_elev: usize, hills: usize, terrain_type: usize, cfg: PlanetConfig) -> bool {
    &&& base + 3 <= nodes.len()
    &&& nodes[base + 0] == (Node::Add {
        left: base_elev,
        right: hills,
    })
    &&& nodes[base + 1] == (Node::Select {
        source0: with_plains,
        source1: ((base + 0) as usize),
        control: terrain_type,
        lower: sub_of(F_ONE, cfg.hills_amount),
        upper: sub_of(0x408F480000000000, cfg.hills_amount),  // 1001.0
        falloff: fmax_of(fmin_of(0x3FD0000000000000, mul_of(sub_of(sub_of(0x408F480000000000, cfg.hills_amount), sub_of(F_ONE, cfg.hills_amount)), F_HALF)), F_ZERO),  // 0.25, 1001.0
    })
    &&& nodes[base + 2] == (Node::Cache {
        source: ((base + 1) as usize),
    })
}

/// Continents with hills: hills stamped where the terrain type is hilly enough.
fn continents_with_hills(g: &mut Graph, cfg: &PlanetConfig, with_plains: usize, base_elev: usize, hills: usize, terrain_type: usize) -> (i: usize)
    requires
        old(g).wf(),
        old(g).nodes@.len() + 16 <= usize::MAX,
        with_plains < old(g).nodes@.len(),
        base_elev < old(g).nodes@.len(),
        hills < old(g).nodes@.len(),
        terrain_type < old(g).nodes@.len(),
    ensures
        final(g).wf(),
        old(g).nodes@.len() <= final(g).nodes@.len(),
        final(g).nodes@.len() <= old(g).nodes@.len() + 3,
        final(g).nodes@.take(old(g).nodes@.len() as int) =~= old(g).nodes@,
        final(g).nodes@.len() == old(g).nodes@.len() + 3,
        i == old(g).nodes@.len() + 2,
        continents_with_hills_built(final(g).nodes@, old(g).nodes@.len() as int, with_plains, base_elev, hills, terrain_type, *cfg),
{
    let ghost base = g.nodes@.len() as int;
    let ghost orig = g.nodes@;
    let ad = g.add_sum(base_elev, hills);
    let se = g.add_select(
        with_plains,
        ad,
        terrain_type,
        fp_sub(F_ONE, cfg.hills_amount),
        fp_sub(0x408F480000000000, cfg.hills_amount),  // 1001.0
        0x3FD0000000000000,  // 0.25
    );
    let out = g.add_cache(se);
    proof {
        assert(g.nodes@.take(base) =~= orig);
        assert(continents_with_hills_built(g.nodes@, base, with_plains, base_elev, hills, terrain_type, *cfg));
    }
    out
}

/// The nodes this stage appends, pinned at their positions from `base`.
pub open spec fn continents_with_mountains_built(nodes: Seq<Node>, base: int, with_hills: usize, base_elev: usize, mountains: usize, terrain_type: usize, continents: usize, cfg: PlanetConfig) -> bool {
    &&& base + 5 <= nodes.len()
    &&& nodes[base + 0] == (Node::Add {
        left: base_elev,
        right: mountains,
    })
    &&& nodes[base + 1] matches Node::Curve { source, points } && source == continents
        && points@ == mountains_curve(cfg)
    &&& nodes[base + 2] == (Node::Add {
        left: ((base + 0) as usize),
        right: ((base + 1) as usize),
    })
    &&& nodes[base + 3] == (Node::Select {
        source0: with_hills,
        source1: ((base + 2) as usize),
        control: terrain_type,
        lower: sub_of(F_ONE, cfg.mountains_amount),
        upper: sub_of(0x408F480000000000, cfg.mountains_amount),  // 1001.0
        falloff: fmax_of(fmin_of(0x3FD0000000000000, mul_of(sub_of(sub_of(0x408F480000000000, cfg.mountains_amount), sub_of(F_ONE, cfg.mountains_amount)), F_HALF)), F_ZERO),  // 0.25, 1001.0
    })
    &&& nodes[base + 4] == (Node::Cache {
        source: ((base + 3) as usize),
    })
}

/// Continents with mountains: mountains stamped on the roughest terrain, higher on higher continents.
fn continents_with_mountains(g: &mut Graph, cfg: &PlanetConfig, with_hills: usize, base_elev: usize, mountains: usize, terrain_type: usize, continents: usize) -> (r: Result<usize, ConfigError>)
    requires
        old(g).wf(),
        old(g).nodes@.len() + 16 <= usize::MAX,
        with_hills < old(g).nodes@.len(),
        base_elev < old(g).nodes@.len(),
        mountains < old(g).nodes@.len(),
        terrain_type < old(g).nodes@.len(),
        continents < old(g).nodes@.len(),
    ensures
        final(g).wf(),
        old(g).nodes@.len() <= final(g).nodes@.len(),
        final(g).nodes@.len() <= old(g).nodes@.len() + 5,
        final(g).nodes@.take(old(g).nodes@.len() as int) =~= old(g).nodes@,
        r is Ok <==> curve_points_wf(mountains_curve(*cfg)),
        r matches Ok(i) ==> ({
            &&& final(g).nodes@.len() == old(g).nodes@.len() + 5
            &&& i == old(g).nodes@.len() + 4
            &&& continents_with_mountains_built(final(g).nodes@, old(g).nodes@.len() as int, with_hills, base_elev, mountains, terrain_type, continents, *cfg)
        }),
        r is Err ==> (r == Err::<usize, ConfigError>(ConfigError::TooFewPoints) || r
            == Err::<usize, ConfigError>(ConfigError::NotIncreasing)),
{
    let ghost base = g.nodes@.len() as int;
    let ghost orig = g.nodes@;
    let ad0 = g.add_sum(base_elev, mountains);
    // Extra height that grows with the continent elevation.
    let pts = vec![
        (ControlPoint { input: 0xBFF0000000000000, output: 0xBFB0000000000000 }),  // -1.0 -> -0.0625
        (ControlPoint { input: 0x0000000000000000, output: 0x0000000000000000 }),  // 0.0 -> 0.0
        (ControlPoint { input: fp_sub(F_ONE, cfg.mountains_amount), output: 0x3FB0000000000000 }),  // 1 - mountains share -> 0.0625
        (ControlPoint { input: 0x3FF0000000000000, output: 0x3FD0000000000000 }),  // 1.0 -> 0.25
    ];
    proof {
        assert(pts@ =~= mountains_curve(*cfg));
    }
    let cu = g.add_curve(continents, pts)?;
    let ad1 = g.add_sum(ad0, cu);
    let se = g.add_select(
        with_hills,
        ad1,
        terrain_type,
        fp_sub(F_ONE, cfg.mountains_amount),
        fp_sub(0x408F480000000000, cfg.mountains_amount),  // 1001.0
        0x3FD0000000000000,  // 0.25
    );
    let out = g.add_cache(se);
    proof {
        assert(g.nodes@.take(base) =~= orig);
        assert(continents_with_mountains_built(g.nodes@, base, with_hills, base_elev, mountains, terrain_type, continents, *cfg));
    }
    Ok(out)
}

/// The nodes this stage appends, pinned at their positions from `base`.
pub open spec fn continents_with_badlands_built(nodes: Seq<Node>, base: int, with_mountains: usize, base_elev: usize, badlands: usize, seed: u32, cfg: PlanetConfig) -> bool {
    &&& base + 5 <= nodes.len()
    &&& nodes[base + 0] == (Node::Perlin {
        seed: derived_seed(seed, 140),
        frequency: 0x4030800000000000,  // 16.5
        persistence: F_HALF,
        lacunarity: cfg.continent_lacunarity,
        octaves: 2,
    })
    &&& nodes[base + 1] == (Node::Add {
        left: base_elev,
        right: badlands,
    })
    &&& nodes[base + 2] == (Node::Select {
        source0: with_mountains,
        source1: ((base + 1) as usize),
        control: ((base + 0) as usize),
        lower: sub_of(F_ONE, cfg.badlands_amount),
        upper: sub_of(0x408F480000000000, cfg.badlands_amount),  // 1001.0
        falloff: fmax_of(fmin_of(0x3FD0000000000000, mul_of(sub_of(sub_of(0x408F480000000000, cfg.badlands_amount), sub_of(F_ONE, cfg.badlands_amount)), F_HALF)), F_ZERO),  // 0.25, 1001.0
    })
    &&& nodes[base + 3] == (Node::Max {
        left: with_mountains,
        right: ((base + 2) as usize),
    })
    &&& nodes[base + 4] == (Node::Cache {
        source: ((base + 3) as usize),
    })
}

/// Continents with badlands: badlands poke out at randomly chosen spots.
fn continents_with_badlands(g: &mut Graph, seed: u32, cfg: &PlanetConfig, with_mountains: usize, base_elev: usize, badlands: usize) -> (i: usize)
    requires
        old(g).wf(),
        old(g).nodes@.len() + 16 <= usize::MAX,
        seed <= SEED_MASK,
        with_mountains < old(g).nodes@.len(),
        base_elev < old(g).nodes@.len(),
        badlands < old(g).nodes@.len(),
    ensures
        final(g).wf(),
        old(g).nodes@.len() <= final(g).nodes@.len(),
        final(g).nodes@.len() <= old(g).nodes@.len() + 5,
        final(g).nodes@.take(old(g).nodes@.len() as int) =~= old(g).nodes@,
        final(g).nodes@.len() == old(g).nodes@.len() + 5,
        i == old(g).nodes@.len() + 4,
        continents_with_badlands_built(final(g).nodes@, old(g).nodes@.len() as int, with_mountains, base_elev, badlands, seed, *cfg),
{
    let ghost base = g.nodes@.len() as int;
    let ghost orig = g.nodes@;
    let pe = g.add_perlin(
        seed + 140,
        0x4030800000000000,  // 16.5
        F_HALF,
        cfg.continent_lacunarity,
        2,
    );
    let ad = g.add_sum(base_elev, badlands);
    let se = g.add_select(
        with_mountains,
        ad,
        pe,
        fp_sub(F_ONE, cfg.badlands_amount),
        fp_sub(0x408F480000000000, cfg.badlands_amount),  // 1001.0
        0x3FD0000000000000,  // 0.25
    );
    let ma = g.add_max(with_mountains, se);
    let out = g.add_cache(ma);
    proof {
        assert(g.nodes@.take(base) =~= orig);
        assert(continents_with_badlands_built(g.nodes@, base, with_mountains, base_elev, badlands, seed, *cfg));
    }
    out
}

/// The nodes this stage appends, pinned at their positions from `base`.
pub open spec fn continents_with_rivers_built(nodes: Seq<Node>, base: int, with_badlands: usize, rivers: usize, cfg: PlanetConfig) -> bool {
    &&& base + 4 <= nodes.len()
    &&& nodes[base + 0] == (Node::ScaleBias {
        source: rivers,
        scale: div_of(cfg.river_depth, F_TWO),
        bias: neg_of(div_of(cfg.river_depth, F_TWO)),
    })
    &&& nodes[base + 1] == (Node::Add {
        left: with_badlands,
        right: ((base + 0) as usize),
    })
    &&& nodes[base + 2] == (Node::Select {
        source0: with_badlands,
        source1: ((base + 1) as usize),
        control: with_badlands,
        lower: cfg.sea_level,
        upper: add_of(cfg.continent_height_scale, cfg.sea_level),
        falloff: fmax_of(fmin_of(sub_of(cfg.continent_height_scale, cfg.sea_level), mul_of(sub_of(add_of(cfg.continent_height_scale, cfg.sea_level), cfg.sea_level), F_HALF)), F_ZERO),
    })
    &&& nodes[base + 3] == (Node::Cache {
        source: ((base + 2) as usize),
    })
}

/// Continents with rivers: rivers carved in, deep near sea level and shallow in high terrain.
fn continents_with_rivers(g: &mut Graph, cfg: &PlanetConfig, with_badlands: usize, rivers: usize) -> (i: usize)
    requires
        old(g).wf(),
        old(g).nodes@.len() + 16 <= usize::MAX,
        with_badlands < old(g).nodes@.len(),
        rivers < old(g).nodes@.len(),
    ensures
        final(g).wf(),
        old(g).nodes@.len() <= final(g).nodes@.len(),
        final(g).nodes@.len() <= old(g).nodes@.len() + 4,
        final(g).nodes@.take(old(g).nodes@.len() as int) =~= old(g).nodes@,
        final(g).nodes@.len() == old(g).nodes@.len() + 4,
        i == old(g).nodes@.len() + 3,
        continents_with_rivers_built(final(g).nodes@, old(g).nodes@.len() as int, with_badlands, rivers, *cfg),
{
    let ghost base = g.nodes@.len() as int;
    let ghost orig = g.nodes@;
    let sb = g.add_scale_bias(rivers, fp_div(cfg.river_depth, F_TWO), fp_neg(fp_div(cfg.river_depth, F_TWO)));
    let ad = g.add_sum(with_badlands, sb);
    // Deep rivers near sea level, shallower ones in higher terrain.
    let se = g.add_select(with_badlands, ad, with_badlands, cfg.sea_level, fp_add(cfg.continent_height_scale, cfg.sea_level), fp_sub(cfg.continent_height_scale, cfg.sea_level));
    let out = g.add_cache(se);
    proof {
        assert(g.nodes@.take(base) =~= orig);
        assert(continents_with_rivers_built(g.nodes@, base, with_badlands, rivers, *cfg));
    }
    out
}
/// The whole planetary arena, pinned node by node: 127 nodes, every
/// stage at its fixed position, the root a cache over the final `[-1, 1]`
/// clamp. Two graphs matching one (seed, configuration) pair are equivalent
/// for evaluation, so the field is one function of seed and configuration.
pub open spec fn planet_graph_matches(nodes: Seq<Node>, seed: u32, cfg: PlanetConfig) -> bool {
    &&& nodes.len() == 127
    &&& base_continent_def_built(nodes, 0, seed, cfg)
    &&& continent_def_built(nodes, 7, 6, seed, cfg)
    &&& terrain_type_def_built(nodes, 12, 11, seed, cfg)
    &&& mountain_base_def_built(nodes, 15, seed, cfg)
    &&& mountainous_high_built(nodes, 24, seed, cfg)
    &&& mountainous_low_built(nodes, 29, seed, cfg)
    &&& mountainous_terrain_built(nodes, 33, 32, 28, 23, cfg)
    &&& hilly_terrain_built(nodes, 40, seed, cfg)
    &&& plains_terrain_built(nodes, 51, seed, cfg)
    &&& badlands_sand_built(nodes, 58, seed, cfg)
    &&& badlands_cliffs_built(nodes, 64, seed, cfg)
    &&& badlands_terrain_built(nodes, 71, 63, 70)
    &&& river_positions_built(nodes, 74, seed, cfg)
    &&& scaled_mountainous_terrain_built(nodes, 81, 39, seed, cfg)
    &&& scaled_hilly_terrain_built(nodes, 87, 50, seed, cfg)
    &&& scaled_plains_terrain_built(nodes, 93, 57)
    &&& scaled_badlands_terrain_built(nodes, 95, 73)
    &&& continental_shelf_built(nodes, 97, 11, seed, cfg)
    &&& base_continent_elev_built(nodes, 103, 11, 102, cfg)
    &&& continents_with_plains_built(nodes, 106, 105, 94)
    &&& continents_with_hills_built(nodes, 108, 107, 105, 92, 14, cfg)
    &&& continents_with_mountains_built(nodes, 111, 110, 105, 86, 14, 11, cfg)
    &&& continents_with_badlands_built(nodes, 116, 115, 105, 96, seed, cfg)
    &&& continents_with_rivers_built(nodes, 121, 120, 80, cfg)
    &&& nodes[125] == (Node::Clamp { source: 124, lower: F_NEG_ONE, upper: F_ONE })
    &&& nodes[126] == (Node::Cache { source: 125 })
}

/// The root node of a finished planet graph is a cache over a final clamp
/// into `[-1, 1]`.
pub open spec fn root_clamped(g: Graph) -> bool {
    &&& g.nodes@.len() >= 2
    &&& g.nodes@[g.nodes@.len() - 1] matches Node::Cache { source } && source + 1
        == g.nodes@.len() - 1
    &&& g.nodes@[g.nodes@.len() - 2] matches Node::Clamp { lower, upper, .. } && lower == F_NEG_ONE
        && upper == F_ONE
}

/// Elevations of a clamped root stay inside `[-1, 1]`: every value is -1, 1,
/// or neither below -1 nor above 1 in the float order.
pub open spec fn in_unit(r: u64) -> bool {
    r == F_NEG_ONE || r == F_ONE || (!lt_of(r, F_NEG_ONE) && !lt_of(F_ONE, r))
}

/// Boundedness of the composited field: whatever the graph computes below the
/// final compositing stage, the root's value lies in `[-1, 1]`.
pub proof fn lemma_root_bounded(g: Graph, p: Point3)
    requires
        root_clamped(g),
    ensures
        in_unit(node_value(g.nodes@, g.nodes@.len() - 1, p)),
{
    let nodes = g.nodes@;
    let n = nodes.len() as int;
    assert(node_value(nodes, n - 1, p) == node_value(nodes, n - 2, p));
}

/// Builds the full planetary elevation graph for a seed and a configuration.
///
/// Fails fast — before any node is built — when the configuration breaks the
/// documented orderings, and while building when a control-point table is
/// malformed; it succeeds exactly when the configuration and every control
/// table are in order, which holds of the standard configuration. The
/// returned arena is pinned whole by `planet_graph_matches`.
#[verifier::rlimit(100)]
pub fn build_planet(seed: i32, cfg: &PlanetConfig) -> (r: Result<Graph, ConfigError>)
    ensures
        r matches Ok(g) ==> g.wf() && root_clamped(g),
        r matches Ok(g) ==> planet_graph_matches(g.nodes@, (seed as u32) & SEED_MASK, *cfg),
        r is Ok <==> config_ok(*cfg) && planet_tables_ok(*cfg),
        (r matches Err(e) && e == ConfigError::BadConstants) ==> !config_ok(*cfg),
        !config_ok(*cfg) ==> (r matches Err(e) && e == ConfigError::BadConstants),
{
    if !cfg.valid() {
        return Err(ConfigError::BadConstants);
    }
    let s = (seed as u32) & SEED_MASK;
    proof {
        assert((seed as u32) & 0x3FFF_FFFFu32 <= 0x3FFF_FFFFu32) by (bit_vector);
    }
    let mut g = Graph::new();

    let base_continents = base_continent_def(&mut g, s, cfg)?;
    let ghost q1 = g.nodes@;
    let continents = continent_def(&mut g, s, cfg, base_continents);
    let ghost q2 = g.nodes@;
    let terrain_type = terrain_type_def(&mut g, s, cfg, continents)?;
    let ghost q3 = g.nodes@;
    let mountain_base = mountain_base_def(&mut g, s, cfg);
    let ghost q4 = g.nodes@;
    let high = mountainous_high(&mut g, s, cfg);
    let ghost q5 = g.nodes@;
    let low = mountainous_low(&mut g, s, cfg);
    let ghost q6 = g.nodes@;
    let mountains = mountainous_terrain(&mut g, cfg, low, high, mountain_base);
    let ghost q7 = g.nodes@;
    let hills = hilly_terrain(&mut g, s, cfg);
    let ghost q8 = g.nodes@;
    let plains = plains_terrain(&mut g, s, cfg);
    let ghost q9 = g.nodes@;
    let sand = badlands_sand(&mut g, s, cfg);
    let ghost q10 = g.nodes@;
    let cliffs = badlands_cliffs(&mut g, s, cfg)?;
    let ghost q11 = g.nodes@;
    let badlands = badlands_terrain(&mut g, sand, cliffs);
    let ghost q12 = g.nodes@;
    let rivers = river_positions(&mut g, s, cfg)?;
    let ghost q13 = g.nodes@;
    let scaled_mountains = scaled_mountainous_terrain(&mut g, s, cfg, mountains);
    let ghost q14 = g.nodes@;
    let scaled_hills = scaled_hilly_terrain(&mut g, s, cfg, hills);
    let ghost q15 = g.nodes@;
    let scaled_plains = scaled_plains_terrain(&mut g, plains);
    let ghost q16 = g.nodes@;
    let scaled_badlands = scaled_badlands_terrain(&mut g, badlands);
    let ghost q17 = g.nodes@;
    let shelf = continental_shelf(&mut g, s, cfg, continents)?;
    let ghost q18 = g.nodes@;
    let base_elev = base_continent_elev(&mut g, cfg, continents, shelf);
    let ghost q19 = g.nodes@;
    let with_plains = continents_with_plains(&mut g, base_elev, scaled_plains);
    let ghost q20 = g.nodes@;
    let with_hills = continents_with_hills(&mut g, cfg, with_plains, base_elev, scaled_hills, terrain_type);
    let ghost q21 = g.nodes@;
    let with_mountains = continents_with_mountains(&mut g, cfg, with_hills, base_elev, scaled_mountains, terrain_type, continents)?;
    let ghost q22 = g.nodes@;
    let with_badlands = continents_with_badlands(&mut g, s, cfg, with_mountains, base_elev, scaled_badlands);
    let ghost q23 = g.nodes@;
    let with_rivers = continents_with_rivers(&mut g, cfg, with_badlands, rivers);
    let ghost q24 = g.nodes@;

    // Final compositing: bound the elevation into planetary units and cache
    // the root.
    let bounded = g.add_clamp(with_rivers, F_NEG_ONE, F_ONE);
    let root = g.add_cache(bounded);
    proof {
        assert(g.nodes@.take(125) =~= q24);
        assert(g.nodes@.take(121) =~= q23);
        assert(g.nodes@.take(116) =~= q22);
        assert(g.nodes@.take(111) =~= q21);
        assert(g.nodes@.take(108) =~= q20);
        assert(g.nodes@.take(106) =~= q19);
        assert(g.nodes@.take(103) =~= q18);
        assert(g.nodes@.take(97) =~= q17);
        assert(g.nodes@.take(95) =~= q16);
        assert(g.nodes@.take(93) =~= q15);
        assert(g.nodes@.take(87) =~= q14);
        assert(g.nodes@.take(81) =~= q13);
        assert(g.nodes@.take(74) =~= q12);
        assert(g.nodes@.take(71) =~= q11);
        assert(g.nodes@.take(64) =~= q10);
        assert(g.nodes@.take(58) =~= q9);
        assert(g.nodes@.take(51) =~= q8);
        assert(g.nodes@.take(40) =~= q7);
        assert(g.nodes@.take(33) =~= q6);
        assert(g.nodes@.take(29) =~= q5);
        assert(g.nodes@.take(24) =~= q4);
        assert(g.nodes@.take(15) =~= q3);
        assert(g.nodes@.take(12) =~= q2);
        assert(g.nodes@.take(7) =~= q1);
        assert(base_continent_def_built(g.nodes@, 0, s, *cfg));
        assert(continent_def_built(g.nodes@, 7, base_continents, s, *cfg));
        assert(terrain_type_def_built(g.nodes@, 12, continents, s, *cfg));
        assert(mountain_base_def_built(g.nodes@, 15, s, *cfg));
        assert(mountainous_high_built(g.nodes@, 24, s, *cfg));
        assert(mountainous_low_built(g.nodes@, 29, s, *cfg));
        assert(mountainous_terrain_built(g.nodes@, 33, low, high, mountain_base, *cfg));
        assert(hilly_terrain_built(g.nodes@, 40, s, *cfg));
        assert(plains_terrain_built(g.nodes@, 51, s, *cfg));
        assert(badlands_sand_built(g.nodes@, 58, s, *cfg));
        assert(badlands_cliffs_built(g.nodes@, 64, s, *cfg));
        assert(badlands_terrain_built(g.nodes@, 71, sand, cliffs));
        assert(river_positions_built(g.nodes@, 74, s, *cfg));
        assert(scaled_mountainous_terrain_built(g.nodes@, 81, mountains, s, *cfg));
        assert(scaled_hilly_terrain_built(g.nodes@, 87, hills, s, *cfg));
        assert(scaled_plains_terrain_built(g.nodes@, 93, plains));
        assert(scaled_badlands_terrain_built(g.nodes@, 95, badlands));
        assert(continental_shelf_built(g.nodes@, 97, continents, s, *cfg));
        assert(base_continent_elev_built(g.nodes@, 103, continents, shelf, *cfg));
        assert(continents_with_plains_built(g.nodes@, 106, base_elev, scaled_plains));
        assert(continents_with_hills_built(g.nodes@, 108, with_plains, base_elev, scaled_hills, terrain_type, *cfg));
        assert(continents_with_mountains_built(g.nodes@, 111, with_hills, base_elev, scaled_mountains, terrain_type, continents, *cfg));
        assert(continents_with_badlands_built(g.nodes@, 116, with_mountains, base_elev, scaled_badlands, s, *cfg));
        assert(continents_with_rivers_built(g.nodes@, 121, with_badlands, rivers, *cfg));
        assert(g.nodes@[125] == (Node::Clamp { source: 124, lower: F_NEG_ONE, upper: F_ONE }));
        assert(g.nodes@[126] == (Node::Cache { source: 125 }));
        assert(planet_graph_matches(g.nodes@, s, *cfg));
        assert(root + 1 == g.nodes@.len() - 1 + 1);
    }
    Ok(g)
}

/// Two arenas built from one seed and configuration are equivalent node by
/// node: vector identity aside, the build has exactly one outcome.
#[verifier::rlimit(100)]
pub proof fn lemma_planet_matches_unique(n1: Seq<Node>, n2: Seq<Node>, seed: u32, cfg: PlanetConfig)
    requires
        planet_graph_matches(n1, seed, cfg),
        planet_graph_matches(n2, seed, cfg),
    ensures
        graphs_equivalent(n1, n2),
{
    assert forall|i: int|
        0 <= i < n1.len() implies node_equivalent(#[trigger] n1[i], #[trigger] n2[i]) by {
        assert(0 <= i < 127);
    }
}

/// The elevation field is one function of seed and configuration: any two
/// planet graphs built from them agree at every node and every point.
pub proof fn lemma_planet_deterministic(
    n1: Seq<Node>,
    n2: Seq<Node>,
    seed: u32,
    cfg: PlanetConfig,
    p: Point3,
)
    requires
        planet_graph_matches(n1, seed, cfg),
        planet_graph_matches(n2, seed, cfg),
    ensures
        node_value(n1, n1.len() - 1, p) == node_value(n2, n2.len() - 1, p),
{
    lemma_planet_matches_unique(n1, n2, seed, cfg);
    lemma_value_respects_equivalence(n1, n2, 127 - 1, p);
}

/// A generation session over the standard planetary field: one fully built
/// graph plus its seed's memo state. Each worker owns its own `Planet`.
pub struct Planet {
    pub session: Session,
}

impl Planet {
    pub open spec fn wf(self) -> bool {
        &&& self.session.wf()
        &&& root_clamped(self.session.graph)
    }

    /// Builds the graph for `seed` and wraps it in a fresh session. Succeeds
    /// exactly when `build_planet` does, and the session's graph is pinned
    /// the same way.
    pub fn new(seed: i32, cfg: &PlanetConfig) -> (r: Result<Planet, ConfigError>)
        ensures
            r matches Ok(pl) ==> pl.wf(),
            r matches Ok(pl) ==> planet_graph_matches(
                pl.session.graph.nodes@,
                (seed as u32) & SEED_MASK,
                *cfg,
            ),
            r is Ok <==> config_ok(*cfg) && planet_tables_ok(*cfg),
            (r matches Err(e) && e == ConfigError::BadConstants) ==> !config_ok(*cfg),
            !config_ok(*cfg) ==> (r matches Err(e) && e == ConfigError::BadConstants),
    {
        let g = build_planet(seed, cfg)?;
        Ok(Planet { session: Session::new(g) })
    }

    /// The composited elevation at a point: a pure function of the graph and
    /// the point, always inside `[-1, 1]`.
    pub fn elevation(&mut self, p: Point3) -> (r: u64)
        requires
            old(self).wf(),
        ensures
            final(self).wf(),
            final(self).session.graph == old(self).session.graph,
            r == node_value(
                old(self).session.graph.nodes@,
                old(self).session.graph.nodes@.len() - 1,
                p,
            ),
            in_unit(r),
    {
        proof {
            lemma_root_bounded(self.session.graph, p);
        }
        self.session.evaluate(p)
    }
}

} // verus!