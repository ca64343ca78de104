//! Rendering: sampling the elevation field over every pixel of an output
//! tile and encoding the samples.
//!
//! Buffers are row-major with a vertical flip: the first written row holds
//! the highest grid coordinate. Cube mode renders six face tiles, rect mode
//! one equirectangular tile of half its width in height.

use vstd::prelude::*;
use vstd::arithmetic::div_mod::{
    lemma_fundamental_div_mod_converse_div, lemma_fundamental_div_mod_converse_mod,
};
use vstd::arithmetic::mul::lemma_mul_inequality;
use crate::graph::{ConfigError, Node};
use crate::eval::{node_value};
use crate::planet::{
    config_ok, in_unit, planet_graph_matches, planet_tables_ok, standard_config, Planet,
    PlanetConfig,
};
use crate::project::{
    coord_to_pos, normalize, rect_point, rect_point_of, sphere_point_of, Plane,
};
use crate::codec::{encode_image, image_png_of, CodecError, OutputFormat};

verus! {

/// Building or sampling a planet failed: the configuration or a control
/// table was malformed, or the image container refused the pixel data.
#[derive(Clone, Copy, PartialEq, Eq, Structural, Debug)]
pub enum RenderError {
    Config(ConfigError),
    Codec(CodecError),
}

/// The elevation buffer of a rect tile: row-major, vertically flipped, pixel
/// `i` sampling grid column `i % width` and grid row `height - 1 - i / width`.
pub open spec fn rect_buffer_of(nodes: Seq<Node>, width: int, height: int) -> Seq<u64> {
    Seq::new(
        (width * height) as nat,
        |i: int|
            node_value(
                nodes,
                nodes.len() - 1,
                rect_point_of(
                    (i % width) as u32,
                    (height - 1 - i / width) as u32,
                    width as u32,
                    height as u32,
                ),
            ),
    )
}

/// The elevation buffer of one cube face: row-major, vertically flipped.
pub open spec fn face_buffer_of(nodes: Seq<Node>, plane: Plane, size: int) -> Seq<u64> {
    Seq::new(
        (size * size) as nat,
        |i: int|
            node_value(
                nodes,
                nodes.len() - 1,
                sphere_point_of(
                    plane,
                    (i % size) as u32,
                    (size - 1 - i / size) as u32,
                    (size - 1) as u32,
                ),
            ),
    )
}

/// A rect tile is one function of seed and configuration: any two planet
/// graphs built from the same pair sample it identically, pixel for pixel.
pub proof fn lemma_rect_buffer_deterministic(
    n1: Seq<Node>,
    n2: Seq<Node>,
    seed: u32,
    cfg: PlanetConfig,
    width: int,
    height: int,
)
    requires
        planet_graph_matches(n1, seed, cfg),
        planet_graph_matches(n2, seed, cfg),
    ensures
        rect_buffer_of(n1, width, height) == rect_buffer_of(n2, width, height),
{
    let b1 = rect_buffer_of(n1, width, height);
    let b2 = rect_buffer_of(n2, width, height);
    assert forall|i: int| 0 <= i < b1.len() implies b1[i] == b2[i] by {
        crate::planet::lemma_planet_deterministic(
            n1,
            n2,
            seed,
            cfg,
            rect_point_of(
                (i % width) as u32,
                (height - 1 - i / width) as u32,
                width as u32,
                height as u32,
            ),
        );
    }
    assert(b1 =~= b2);
}

/// A cube face tile is one function of seed and configuration, face and
/// size: any two planet graphs built from the same pair sample it
/// identically, pixel for pixel.
pub proof fn lemma_face_buffer_deterministic(
    n1: Seq<Node>,
    n2: Seq<Node>,
    seed: u32,
    cfg: PlanetConfig,
    plane: Plane,
    size: int,
)
    requires
        planet_graph_matches(n1, seed, cfg),
        planet_graph_matches(n2, seed, cfg),
    ensures
        face_buffer_of(n1, plane, size) == face_buffer_of(n2, plane, size),
{
    let b1 = face_buffer_of(n1, plane, size);
    let b2 = face_buffer_of(n2, plane, size);
    assert forall|i: int| 0 <= i < b1.len() implies b1[i] == b2[i] by {
        crate::planet::lemma_planet_deterministic(
            n1,
            n2,
            seed,
            cfg,
            sphere_point_of(
                plane,
                (i % size) as u32,
                (size - 1 - i / size) as u32,
                (size - 1) as u32,
            ),
        );
    }
    assert(b1 =~= b2);
}

proof fn lemma_row_major(r: int, c: int, w: int)
    requires
        0 <= r,
        0 <= c < w,
    ensures
        (r * w + c) / w == r,
        (r * w + c) % w == c,
{
    lemma_fundamental_div_mod_converse_div(r * w + c, w, r, c);
    lemma_fundamental_div_mod_converse_mod(r * w + c, w, r, c);
}

/// Samples the field over a rect tile. Each entry is the field's one value
/// at that pixel's sphere point, inside `[-1, 1]`.
pub fn render_rect(planet: &mut Planet, width: usize, height: usize) -> (buf: Vec<u64>)
    requires
        old(planet).wf(),
        1 <= width <= u32::MAX,
        1 <= height <= u32::MAX,
        width * height <= usize::MAX,
    ensures
        final(planet).wf(),
        final(planet).session.graph == old(planet).session.graph,
        buf@ == rect_buffer_of(old(planet).session.graph.nodes@, width as int, height as int),
        forall|i: int| 0 <= i < buf@.len() ==> in_unit(#[trigger] buf@[i]),
{
    let ghost g0 = planet.session.graph;
    let ghost nodes = planet.session.graph.nodes@;
    let ghost want = rect_buffer_of(nodes, width as int, height as int);
    let mut buf: Vec<u64> = Vec::new();
    let mut r: usize = 0;
    while r < height
        invariant
            planet.wf(),
            planet.session.graph == g0,
            planet.session.graph.nodes@ == nodes,
            1 <= width <= u32::MAX,
            1 <= height <= u32::MAX,
            width * height <= usize::MAX,
            r <= height,
            want == rect_buffer_of(nodes, width as int, height as int),
            buf@.len() == r * width,
            forall|j: int| 0 <= j < buf@.len() ==> buf@[j] == want[j] && in_unit(#[trigger] buf@[j]),
        decreases height - r,
    {
        proof {
            lemma_mul_inequality(r + 1 as int, height as int, width as int);
        }
        let mut c: usize = 0;
        while c < width
            invariant
                planet.wf(),
                planet.session.graph == g0,
            planet.session.graph.nodes@ == nodes,
                1 <= width <= u32::MAX,
                1 <= height <= u32::MAX,
                width * height <= usize::MAX,
                r < height,
                c <= width,
                (r + 1) * width <= height * width,
                want == rect_buffer_of(nodes, width as int, height as int),
                buf@.len() == r * width + c,
                forall|j: int|
                    0 <= j < buf@.len() ==> buf@[j] == want[j] && in_unit(#[trigger] buf@[j]),
            decreases width - c,
        {
            let p = rect_point(c, height - 1 - r, width, height);
            let v = planet.elevation(p);
            buf.push(v);
            proof {
                lemma_row_major(r as int, c as int, width as int);
                assert((r + 1) * width == r * width + width) by (nonlinear_arith);
                assert(want[r * width + c] == v);
            }
            c = c + 1;
        }
        proof {
            assert((r + 1) * width == r * width + width) by (nonlinear_arith);
        }
        r = r + 1;
    }
    proof {
        assert(height * width == width * height) by (nonlinear_arith);
        assert(buf@ =~= want);
    }
    buf
}

/// Samples the field over one cube face tile.
pub fn render_face(planet: &mut Planet, plane: Plane, size: usize) -> (buf: Vec<u64>)
    requires
        old(planet).wf(),
        1 <= size <= u32::MAX,
        size * size <= usize::MAX,
    ensures
        final(planet).wf(),
        final(planet).session.graph == old(planet).session.graph,
        buf@ == face_buffer_of(old(planet).session.graph.nodes@, plane, size as int),
        forall|i: int| 0 <= i < buf@.len() ==> in_unit(#[trigger] buf@[i]),
{
    let ghost g0 = planet.session.graph;
    let ghost nodes = planet.session.graph.nodes@;
    let ghost want = face_buffer_of(nodes, plane, size as int);
    let mut buf: Vec<u64> = Vec::new();
    let mut r: usize = 0;
    while r < size
        invariant
            planet.wf(),
            planet.session.graph == g0,
            planet.session.graph.nodes@ == nodes,
            1 <= size <= u32::MAX,
            size * size <= usize::MAX,
            r <= size,
            want == face_buffer_of(nodes, plane, size as int),
            buf@.len() == r * size,
            forall|j: int| 0 <= j < buf@.len() ==> buf@[j] == want[j] && in_unit(#[trigger] buf@[j]),
        decreases size - r,
    {
        proof {
            lemma_mul_inequality(r + 1 as int, size as int, size as int);
        }
        let mut c: usize = 0;
        while c < size
            invariant
                planet.wf(),
                planet.session.graph == g0,
            planet.session.graph.nodes@ == nodes,
                1 <= size <= u32::MAX,
                size * size <= usize::MAX,
                r < size,
                c <= size,
                (r + 1) * size <= size * size,
                want == face_buffer_of(nodes, plane, size as int),
                buf@.len() == r * size + c,
                forall|j: int|
                    0 <= j < buf@.len() ==> buf@[j] == want[j] && in_unit(#[trigger] buf@[j]),
            decreases size - c,
        {
            let b = size - 1 - r;
            let p = normalize(coord_to_pos(plane, c, b, size - 1));
            let v = planet.elevation(p);
            buf.push(v);
            proof {
                lemma_row_major(r as int, c as int, size as int);
                assert((r + 1) * size == r * size + size) by (nonlinear_arith);
                assert(want[r * size + c] == v);
            }
            c = c + 1;
        }
        proof {
            assert((r + 1) * size == r * size + size) by (nonlinear_arith);
        }
        r = r + 1;
    }
    proof {
        assert(buf@ =~= want);
    }
    buf
}

/// Renders a rect tile of the given planet and encodes it.
pub fn rect_image(planet: &mut Planet, width: usize, height: usize, format: OutputFormat) -> (r:
    Result<Vec<u8>, CodecError>)
    requires
        old(planet).wf(),
        1 <= width <= u32::MAX,
        1 <= height <= u32::MAX,
        width * height * 3 <= usize::MAX,
    ensures
        final(planet).wf(),
        final(planet).session.graph == old(planet).session.graph,
        r matches Ok(png) ==> png@ == image_png_of(
            rect_buffer_of(old(planet).session.graph.nodes@, width as int, height as int),
            width as u32,
            height as u32,
            format,
        ),
        r is Ok,
{
    proof {
        assert(width * height <= width * height * 3) by (nonlinear_arith)
            requires
                width >= 1 && height >= 1,
        ;
    }
    let buf = render_rect(planet, width, height);
    encode_image(&buf, width as u32, height as u32, format)
}

/// Renders one cube face tile of the given planet and encodes it.
pub fn face_png(planet: &mut Planet, plane: Plane, size: usize, format: OutputFormat) -> (r: Result<
    Vec<u8>,
    CodecError,
>)
    requires
        old(planet).wf(),
        1 <= size <= u32::MAX,
        size * size * 3 <= usize::MAX,
    ensures
        final(planet).wf(),
        final(planet).session.graph == old(planet).session.graph,
        r matches Ok(png) ==> png@ == image_png_of(
            face_buffer_of(old(planet).session.graph.nodes@, plane, size as int),
            size as u32,
            size as u32,
            format,
        ),
        r is Ok,
{
    proof {
        assert(size * size <= size * size * 3) by (nonlinear_arith)
            requires
                size >= 1,
        ;
    }
    let buf = render_face(planet, plane, size);
    encode_image(&buf, size as u32, size as u32, format)
}

/// The face rendered as tile `k` of a cube run, in output order.
pub open spec fn plane_of(k: int) -> Plane {
    if k == 0 {
        Plane::XP
    } else if k == 1 {
        Plane::XN
    } else if k == 2 {
        Plane::YP
    } else if k == 3 {
        Plane::YN
    } else if k == 4 {
        Plane::ZP
    } else {
        Plane::ZN
    }
}

fn plane_of_index(k: usize) -> (p: Plane)
    requires
        k < 6,
    ensures
        p == plane_of(k as int),
{
    if k == 0 {
        Plane::XP
    } else if k == 1 {
        Plane::XN
    } else if k == 2 {
        Plane::YP
    } else if k == 3 {
        Plane::YN
    } else if k == 4 {
        Plane::ZP
    } else {
        Plane::ZN
    }
}

/// The output file name of a cube face tile.
pub fn face_filename(plane: Plane) -> (s: String)
    ensures
        plane == Plane::XP ==> s@ == "xp.png"@,
        plane == Plane::XN ==> s@ == "xn.png"@,
        plane == Plane::YP ==> s@ == "yp.png"@,
        plane == Plane::YN ==> s@ == "yn.png"@,
        plane == Plane::ZP ==> s@ == "zp.png"@,
        plane == Plane::ZN ==> s@ == "zn.png"@,
{
    match plane {
        Plane::XP => "xp.png".to_owned(),
        Plane::XN => "xn.png".to_owned(),
        Plane::YP => "yp.png".to_owned(),
        Plane::YN => "yn.png".to_owned(),
        Plane::ZP => "zp.png".to_owned(),
        Plane::ZN => "zn.png".to_owned(),
    }
}

/// The output file name of the rect tile.
pub fn rect_filename() -> (s: String)
    ensures
        s@ == "lat_lon.png"@,
{
    "lat_lon.png".to_owned()
}

/// One finished cube face: which face it is, the session that sampled it,
/// and its encoded image.
pub struct FaceImage {
    pub plane: Plane,
    pub planet: Planet,
    pub png: Vec<u8>,
}

/// Renders and encodes all six cube faces for a seed, each face sampled by a
/// session of its own, in the order XP, XN, YP, YN, ZP, ZN.
#[verifier::rlimit(60)]
pub fn output_cube(seed: i32, size: usize, output_format: OutputFormat) -> (r: Result<
    Vec<FaceImage>,
    RenderError,
>)
    requires
        1 <= size <= u32::MAX,
        size * size * 3 <= usize::MAX,
    ensures
        r is Ok <==> config_ok(standard_config()) && planet_tables_ok(standard_config()),
        r matches Ok(faces) ==> {
            &&& faces@.len() == 6
            &&& forall|k: int|
                0 <= k < 6 ==> {
                    &&& (#[trigger] faces@[k]).plane == plane_of(k)
                    &&& faces@[k].planet.wf()
                    &&& planet_graph_matches(
                        faces@[k].planet.session.graph.nodes@,
                        (seed as u32) & crate::fp::SEED_MASK,
                        standard_config(),
                    )
                    &&& faces@[k].png@ == image_png_of(
                        face_buffer_of(
                            faces@[k].planet.session.graph.nodes@,
                            plane_of(k),
                            size as int,
                        ),
                        size as u32,
                        size as u32,
                        output_format,
                    )
                }
        },
{
    let cfg = PlanetConfig::standard();
    let mut faces: Vec<FaceImage> = Vec::new();
    let mut k: usize = 0;
    while k < 6
        invariant
            1 <= size <= u32::MAX,
            size * size * 3 <= usize::MAX,
            k <= 6,
            faces@.len() == k,
            cfg == standard_config(),
            forall|j: int|
                0 <= j < k ==> {
                    &&& (#[trigger] faces@[j]).plane == plane_of(j)
                    &&& faces@[j].planet.wf()
                    &&& planet_graph_matches(
                        faces@[j].planet.session.graph.nodes@,
                        (seed as u32) & crate::fp::SEED_MASK,
                        standard_config(),
                    )
                    &&& faces@[j].png@ == image_png_of(
                        face_buffer_of(
                            faces@[j].planet.session.graph.nodes@,
                            plane_of(j),
                            size as int,
                        ),
                        size as u32,
                        size as u32,
                        output_format,
                    )
                },
            k >= 1 ==> config_ok(standard_config()) && planet_tables_ok(standard_config()),
        decreases 6 - k,
    {
        let plane = plane_of_index(k);
        let mut planet = match Planet::new(seed, &cfg) {
            Ok(p) => p,
            Err(e) => {
                return Err(RenderError::Config(e));
            },
        };
        let png = match face_png(&mut planet, plane, size, output_format) {
            Ok(b) => b,
            Err(e) => {
                return Err(RenderError::Codec(e));
            },
        };
        faces.push(FaceImage { plane, planet, png });
        k = k + 1;
    }
    Ok(faces)
}

/// Renders and encodes the rect tile for a seed: a width x (width / 2) map.
/// Returns the session used alongside the image, so the caller can see the
/// graph the pixels were sampled from.
pub fn output_rect(seed: i32, width: usize, output_format: OutputFormat) -> (r: Result<
    (Planet, Vec<u8>),
    RenderError,
>)
    requires
        2 <= width <= u32::MAX,
        width * width * 3 <= usize::MAX,
    ensures
        r is Ok <==> config_ok(standard_config()) && planet_tables_ok(standard_config()),
        r matches Ok(out) ==> {
            &&& out.0.wf()
            &&& planet_graph_matches(
                out.0.session.graph.nodes@,
                (seed as u32) & crate::fp::SEED_MASK,
                standard_config(),
            )
            &&& out.1@ == image_png_of(
                rect_buffer_of(
                    out.0.session.graph.nodes@,
                    width as int,
                    (width / 2) as int,
                ),
                width as u32,
                (width / 2) as u32,
                output_format,
            )
        },
{
    let cfg = PlanetConfig::standard();
    let height = width / 2;
    let mut planet = match Planet::new(seed, &cfg) {
        Ok(p) => p,
        Err(e) => {
            return Err(RenderError::Config(e));
        },
    };
    proof {
        vstd::arithmetic::div_mod::lemma_div_nonincreasing(width as int, 2);
        vstd::arithmetic::div_mod::lemma_div_is_ordered(2, width as int, 2);
        assert(width * height * 3 <= width * width * 3) by (nonlinear_arith)
            requires
                height <= width,
                width >= 0,
        ;
    }
    let png = match rect_image(&mut planet, width, height, output_format) {
        Ok(b) => b,
        Err(e) => {
            return Err(RenderError::Codec(e));
        },
    };
    Ok((planet, png))
}

} // verus!
