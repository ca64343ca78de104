//! The scalar bit-pattern constants against the values they stand for.

use planetgen::eval::{
    TURB_X0, TURB_X1, TURB_X2, TURB_Y0, TURB_Y1, TURB_Y2, TURB_Z0, TURB_Z1, TURB_Z2,
};
use planetgen::fp::{F_HALF, F_NEG_ONE, F_NEG_ZERO, F_ONE, F_THREE, F_TWO, F_ZERO};
use planetgen::planet::PlanetConfig;
use planetgen::project::lat_lon_to_pos;
use planetgen::project::{F_180, F_360, F_NEG_180, F_NEG_90, RAD_PER_DEG};

#[test]
fn scalar_constants_decode() {
    assert_eq!(F_ZERO, 0.0f64.to_bits());
    assert_eq!(F_NEG_ZERO, (-0.0f64).to_bits());
    assert_eq!(F_HALF, 0.5f64.to_bits());
    assert_eq!(F_ONE, 1.0f64.to_bits());
    assert_eq!(F_TWO, 2.0f64.to_bits());
    assert_eq!(F_THREE, 3.0f64.to_bits());
    assert_eq!(F_NEG_ONE, (-1.0f64).to_bits());
}

#[test]
fn projection_constants_decode() {
    assert_eq!(RAD_PER_DEG, (std::f64::consts::PI / 180.0).to_bits());
    assert_eq!(F_NEG_90, (-90.0f64).to_bits());
    assert_eq!(F_180, 180.0f64.to_bits());
    assert_eq!(F_NEG_180, (-180.0f64).to_bits());
    assert_eq!(F_360, 360.0f64.to_bits());
}

#[test]
fn turbulence_offsets_decode() {
    assert_eq!(TURB_X0, (12414.0f64 / 65536.0).to_bits());
    assert_eq!(TURB_Y0, (65124.0f64 / 65536.0).to_bits());
    assert_eq!(TURB_Z0, (31337.0f64 / 65536.0).to_bits());
    assert_eq!(TURB_X1, (26519.0f64 / 65536.0).to_bits());
    assert_eq!(TURB_Y1, (18128.0f64 / 65536.0).to_bits());
    assert_eq!(TURB_Z1, (60493.0f64 / 65536.0).to_bits());
    assert_eq!(TURB_X2, (53820.0f64 / 65536.0).to_bits());
    assert_eq!(TURB_Y2, (11213.0f64 / 65536.0).to_bits());
    assert_eq!(TURB_Z2, (44845.0f64 / 65536.0).to_bits());
}

#[test]
fn standard_configuration_decodes() {
    let c = PlanetConfig::standard();
    assert_eq!(c.continent_frequency, 1.0f64.to_bits());
    assert_eq!(c.continent_lacunarity, 2.208984375f64.to_bits());
    assert_eq!(c.mountain_lacunarity, 2.142578125f64.to_bits());
    assert_eq!(c.hills_lacunarity, 2.162109375f64.to_bits());
    assert_eq!(c.plains_lacunarity, 2.314453125f64.to_bits());
    assert_eq!(c.badlands_lacunarity, 2.212890625f64.to_bits());
    assert_eq!(c.mountains_twist, 1.0f64.to_bits());
    assert_eq!(c.hills_twist, 1.0f64.to_bits());
    assert_eq!(c.badlands_twist, 1.0f64.to_bits());
    assert_eq!(c.sea_level, 0.0f64.to_bits());
    assert_eq!(c.shelf_level, (-0.375f64).to_bits());
    assert_eq!(c.mountains_amount, 0.5f64.to_bits());
    assert_eq!(c.hills_amount, ((1.0 + 0.5f64) / 2.0).to_bits());
    assert_eq!(c.badlands_amount, 0.03125f64.to_bits());
    assert_eq!(c.terrain_offset, 1.0f64.to_bits());
    assert_eq!(c.mountain_glaciation, 1.375f64.to_bits());
    assert_eq!(c.continent_height_scale, ((1.0 - 0.0f64) / 4.0).to_bits());
    assert_eq!(c.river_depth, 0.0234375f64.to_bits());
}

#[test]
fn cardinal_directions() {
    // the equator at the date line and the poles land on the axes
    let p = lat_lon_to_pos(0.0f64.to_bits(), 0.0f64.to_bits());
    assert_eq!(f64::from_bits(p.x), 1.0);
    assert_eq!(f64::from_bits(p.y), 0.0);
    assert_eq!(f64::from_bits(p.z), 0.0);
    let p = lat_lon_to_pos(90.0f64.to_bits(), 0.0f64.to_bits());
    assert_eq!(f64::from_bits(p.y), 1.0);
    let p = lat_lon_to_pos((-90.0f64).to_bits(), 0.0f64.to_bits());
    assert_eq!(f64::from_bits(p.y), -1.0);
}
