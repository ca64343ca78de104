//! The assembled planet: boundedness, reproducibility, projections, output
//! images and the configuration checks.

use planetgen::codec::{encode_image, grey8_pixels, parse_output_format, CodecError, OutputFormat};
use planetgen::eval::Point3;
use planetgen::graph::ConfigError;
use planetgen::planet::{build_planet, Planet, PlanetConfig};
use planetgen::project::{coord_to_pos, lat_lon_to_pos, normalize, rect_point, Plane};
use planetgen::render::{face_filename, output_cube, output_rect, rect_filename, render_rect};

fn pt(x: f64, y: f64, z: f64) -> Point3 {
    Point3 { x: x.to_bits(), y: y.to_bits(), z: z.to_bits() }
}

fn unit(p: Point3) -> Point3 {
    let (x, y, z) = (f64::from_bits(p.x), f64::from_bits(p.y), f64::from_bits(p.z));
    let m = (x * x + y * y + z * z).sqrt();
    pt(x / m, y / m, z / m)
}

#[test]
fn elevation_is_bounded() {
    let cfg = PlanetConfig::standard();
    let mut planet = Planet::new(0, &cfg).unwrap();
    let probes = [
        (1.0, 0.0, 0.0),
        (0.0, 1.0, 0.0),
        (0.0, 0.0, -1.0),
        (0.3, -0.4, 0.87),
        (-0.6, 0.6, 0.52),
        (0.1, 0.2, 0.97),
    ];
    for &(x, y, z) in probes.iter() {
        let v = f64::from_bits(planet.elevation(unit(pt(x, y, z))));
        assert!((-1.0..=1.0).contains(&v), "elevation {v} out of range at ({x},{y},{z})");
    }
}

#[test]
fn elevation_is_pure() {
    let cfg = PlanetConfig::standard();
    let mut planet = Planet::new(12345, &cfg).unwrap();
    let p = unit(pt(0.3, -0.4, 0.87));
    let first = planet.elevation(p);
    let second = planet.elevation(p);
    assert_eq!(first, second, "identical queries must agree bit for bit");

    // an independent session over the same seed agrees too
    let mut other = Planet::new(12345, &cfg).unwrap();
    assert_eq!(other.elevation(p), first);

    // a different seed gives a different planet
    let mut changed = Planet::new(12346, &cfg).unwrap();
    assert_ne!(changed.elevation(p), first);
}

#[test]
fn seeds_reach_every_subgroup() {
    // the planet graph builds and differs across seeds even at one point
    let cfg = PlanetConfig::standard();
    let p = unit(pt(-0.2, 0.9, 0.4));
    let mut values = Vec::new();
    for seed in [0, 1, 7, -3] {
        let mut planet = Planet::new(seed, &cfg).unwrap();
        values.push(planet.elevation(p));
    }
    values.dedup();
    assert_eq!(values.len(), 4);
}

#[test]
fn bad_configuration_fails_fast() {
    // a shelf at or above sea level is refused before any node is built
    let mut cfg = PlanetConfig::standard();
    cfg.shelf_level = 0.5f64.to_bits();
    assert!(matches!(build_planet(0, &cfg), Err(ConfigError::BadConstants)));

    // a mountainous share above the hilly share is refused
    let mut cfg = PlanetConfig::standard();
    cfg.mountains_amount = 0.9f64.to_bits();
    cfg.hills_amount = 0.1f64.to_bits();
    assert!(matches!(build_planet(0, &cfg), Err(ConfigError::BadConstants)));

    // a hilly share above one is refused
    let mut cfg = PlanetConfig::standard();
    cfg.hills_amount = 1.5f64.to_bits();
    assert!(matches!(build_planet(0, &cfg), Err(ConfigError::BadConstants)));

    assert!(build_planet(0, &PlanetConfig::standard()).is_ok());
}

#[test]
fn cube_corners_hit_the_cube() {
    // the four corners of each face map onto corners of [-1,1]^3
    let planes = [Plane::XP, Plane::XN, Plane::YP, Plane::YN, Plane::ZP, Plane::ZN];
    let max = 16usize;
    for &plane in planes.iter() {
        for &(a, b) in [(0usize, 0usize), (0, max), (max, 0), (max, max)].iter() {
            let p = coord_to_pos(plane, a, b, max);
            let (x, y, z) = (f64::from_bits(p.x), f64::from_bits(p.y), f64::from_bits(p.z));
            for v in [x, y, z] {
                assert!(v == -1.0 || v == 1.0, "corner coordinate {v} of {plane:?} ({a},{b})");
            }
        }
    }
    // the fixed axis of each face points the right way
    let p = coord_to_pos(Plane::XP, 0, 0, max);
    assert_eq!(f64::from_bits(p.x), 1.0);
    let p = coord_to_pos(Plane::XN, 0, 0, max);
    assert_eq!(f64::from_bits(p.x), -1.0);
    let p = coord_to_pos(Plane::YP, 0, 0, max);
    assert_eq!(f64::from_bits(p.y), 1.0);
    let p = coord_to_pos(Plane::YN, 0, 0, max);
    assert_eq!(f64::from_bits(p.y), -1.0);
    let p = coord_to_pos(Plane::ZP, 0, 0, max);
    assert_eq!(f64::from_bits(p.z), 1.0);
    let p = coord_to_pos(Plane::ZN, 0, 0, max);
    assert_eq!(f64::from_bits(p.z), -1.0);
}

#[test]
fn normalized_directions_have_unit_magnitude() {
    let max = 31usize;
    for a in (0..=max).step_by(5) {
        for b in (0..=max).step_by(5) {
            let p = normalize(coord_to_pos(Plane::YP, a, b, max));
            let (x, y, z) = (f64::from_bits(p.x), f64::from_bits(p.y), f64::from_bits(p.z));
            let m = (x * x + y * y + z * z).sqrt();
            assert!((m - 1.0).abs() < 1e-9, "magnitude {m} at ({a},{b})");
        }
    }
}

#[test]
fn rect_grid_spans_the_globe() {
    let (w, h) = (8usize, 4usize);
    // pixel (0,0) sits at the minimum latitude/longitude corner
    let p = rect_point(0, 0, w, h);
    let want = lat_lon_to_pos((-90.0f64).to_bits(), (-180.0f64).to_bits());
    assert_eq!(p, want);
    // the last pixel sits one grid step short of the maximum corner
    let p = rect_point(w - 1, h - 1, w, h);
    let lat = -90.0 + ((h - 1) as f64 / h as f64) * 180.0;
    let lon = -180.0 + ((w - 1) as f64 / w as f64) * 360.0;
    assert!(90.0 - lat <= 180.0 / h as f64 + 1e-12);
    assert!(180.0 - lon <= 360.0 / w as f64 + 1e-12);
    let want = lat_lon_to_pos(lat.to_bits(), lon.to_bits());
    assert_eq!(p, want);
}

#[test]
fn rect_render_snapshot() {
    // seed 0, rect mode, width 4: a fixed, reproducible 8-byte buffer
    let cfg = PlanetConfig::standard();
    let mut planet = Planet::new(0, &cfg).unwrap();
    let buf = render_rect(&mut planet, 4, 2);
    assert_eq!(buf.len(), 8);
    let bytes = grey8_pixels(&buf);
    let again = {
        let mut planet = Planet::new(0, &cfg).unwrap();
        grey8_pixels(&render_rect(&mut planet, 4, 2))
    };
    assert_eq!(bytes, again, "the rendering must be reproducible");
    assert_eq!(bytes, vec![131u8, 49, 50, 125, 124, 124, 124, 124], "snapshot of the fixed seed-0 buffer");
}

#[test]
fn rect_image_is_a_png() {
    let (planet, png) = output_rect(0, 4, OutputFormat::Greyscale8).unwrap();
    assert!(planet.session.graph.nodes.len() > 80);
    assert_eq!(&png[..8], &[0x89, 0x50, 0x4E, 0x47, 0x0D, 0x0A, 0x1A, 0x0A]);

    // the container holds exactly the greyscale pixels that were rendered
    let cfg = PlanetConfig::standard();
    let mut again = Planet::new(0, &cfg).unwrap();
    let pixels = grey8_pixels(&render_rect(&mut again, 4, 2));
    let decoded = image::load_from_memory(&png).unwrap();
    let grey = decoded.to_luma8();
    assert_eq!(grey.width(), 4);
    assert_eq!(grey.height(), 2);
    assert_eq!(grey.as_raw(), &pixels);
}

#[test]
fn repeated_runs_are_byte_identical() {
    // two independent runs over one seed produce the same container bytes
    let (_, png1) = output_rect(7, 8, OutputFormat::Greyscale8).unwrap();
    let (_, png2) = output_rect(7, 8, OutputFormat::Greyscale8).unwrap();
    assert_eq!(png1, png2);
    let (_, png3) = output_rect(8, 8, OutputFormat::Greyscale8).unwrap();
    assert_ne!(png1, png3, "different seeds give different planets");
}

#[test]
fn cube_renders_six_faces() {
    let faces = output_cube(0, 4, OutputFormat::Greyscale8).unwrap();
    assert_eq!(faces.len(), 6);
    let planes: Vec<Plane> = faces.iter().map(|f| f.plane).collect();
    assert_eq!(
        planes,
        vec![Plane::XP, Plane::XN, Plane::YP, Plane::YN, Plane::ZP, Plane::ZN],
    );
    for f in faces.iter() {
        assert_eq!(&f.png[..4], &[0x89, 0x50, 0x4E, 0x47]);
    }
}

#[test]
fn sixteen_bit_and_colour_outputs_encode() {
    let (_, png) = output_rect(0, 4, OutputFormat::Greyscale16).unwrap();
    let decoded = image::load_from_memory(&png).unwrap();
    assert_eq!(decoded.color(), image::ColorType::L16);

    // the 16-bit samples survive the container byte for byte
    let cfg = PlanetConfig::standard();
    let mut again = Planet::new(0, &cfg).unwrap();
    let words = planetgen::codec::grey16_pixels(&render_rect(&mut again, 4, 2));
    assert_eq!(decoded.to_luma16().as_raw(), &words);

    let (_, png) = output_rect(0, 4, OutputFormat::Colour24).unwrap();
    let decoded = image::load_from_memory(&png).unwrap();
    assert_eq!(decoded.color(), image::ColorType::Rgb8);
}

#[test]
fn encoder_refusal_is_reported() {
    // the container cannot hold a zero-sized image
    let empty: Vec<u64> = Vec::new();
    assert_eq!(encode_image(&empty, 0, 0, OutputFormat::Greyscale8), Err(CodecError::Encode));
}

#[test]
fn output_names() {
    assert_eq!(face_filename(Plane::XP), "xp.png");
    assert_eq!(face_filename(Plane::XN), "xn.png");
    assert_eq!(face_filename(Plane::YP), "yp.png");
    assert_eq!(face_filename(Plane::YN), "yn.png");
    assert_eq!(face_filename(Plane::ZP), "zp.png");
    assert_eq!(face_filename(Plane::ZN), "zn.png");
    assert_eq!(rect_filename(), "lat_lon.png");
}

#[test]
fn format_names() {
    assert_eq!(parse_output_format(&"greyscale8".to_owned()), Some(OutputFormat::Greyscale8));
    assert_eq!(parse_output_format(&"greyscale16".to_owned()), Some(OutputFormat::Greyscale16));
    assert_eq!(parse_output_format(&"colour24".to_owned()), Some(OutputFormat::Colour24));
    assert_eq!(parse_output_format(&"tiff".to_owned()), None);
    assert_eq!(parse_output_format(&"".to_owned()), None);
}

#[test]
fn planet_root_is_cached() {
    // the whole composited field memoizes its last query
    let cfg = PlanetConfig::standard();
    let mut planet = Planet::new(5, &cfg).unwrap();
    let n = planet.session.node_count();
    let p = unit(pt(0.5, 0.5, 0.7));
    planet.elevation(p);
    let after_first: Vec<u64> = (0..n).map(|i| planet.session.work_count(i)).collect();
    planet.elevation(p);
    let after_second: Vec<u64> = (0..n).map(|i| planet.session.work_count(i)).collect();
    assert_eq!(after_first, after_second, "a repeated query must do no work");
}
