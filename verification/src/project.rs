//! Projection of raster coordinates onto the unit sphere.
//!
//! Cube mode maps a grid cell of one of six faces into `[-1, 1]^3` and
//! normalizes the result onto the sphere; rect mode maps a pixel of a
//! width x height grid linearly to latitude and longitude and converts to
//! Cartesian coordinates.

use vstd::prelude::*;
use crate::fp::{
    add_of, sub_of, mul_of, div_of, sqrt_of, cos_of, sin_of, of_u32, F_TWO, F_NEG_ONE, fp_add,
    fp_mul, fp_div, fp_sqrt, fp_cos, fp_sin, fp_of_u32,
};
use crate::eval::Point3;

verus! {

/// One of the six cube faces, named for the axis it holds constant and the
/// sign of that axis.
#[derive(Clone, Copy, PartialEq, Eq, Structural, Debug)]
pub enum Plane {
    XP,
    XN,
    YP,
    YN,
    ZP,
    ZN,
}

/// Bit pattern of pi / 180: what converting degrees to radians multiplies by.
pub const RAD_PER_DEG: u64 = 0x3F91DF46A2529D39;

/// Bit pattern of -90.0.
pub const F_NEG_90: u64 = 0xC056800000000000;

/// Bit pattern of 180.0.
pub const F_180: u64 = 0x4066800000000000;

/// Bit pattern of -180.0.
pub const F_NEG_180: u64 = 0xC066800000000000;

/// Bit pattern of 360.0.
pub const F_360: u64 = 0x4076800000000000;

/// The grid coordinates of cell (a, b) of a face, on a cube of side
/// `max + 1` cells: one axis pinned to 0 or `max`, the other two walked in
/// the face's own orientation.
pub open spec fn face_grid_of(plane: Plane, a: int, b: int, max: int) -> (int, int, int) {
    match plane {
        Plane::XP => (max, b, max - a),
        Plane::XN => (0, b, a),
        Plane::YP => (a, max, max - b),
        Plane::YN => (a, 0, b),
        Plane::ZP => (a, b, max),
        Plane::ZN => (max - a, b, 0),
    }
}

/// A grid coordinate mapped linearly into `[-1, 1]`: `-1 + g * 2 / max`.
pub open spec fn axis_coord_of(g: u32, max: u32) -> u64 {
    add_of(F_NEG_ONE, div_of(mul_of(of_u32(g), F_TWO), of_u32(max)))
}

/// Cell (a, b) of a face mapped into the cube `[-1, 1]^3`.
pub open spec fn cube_point_of(plane: Plane, a: u32, b: u32, max: u32) -> Point3 {
    let (gx, gy, gz) = face_grid_of(plane, a as int, b as int, max as int);
    Point3 {
        x: axis_coord_of(gx as u32, max),
        y: axis_coord_of(gy as u32, max),
        z: axis_coord_of(gz as u32, max),
    }
}

/// A point scaled by the reciprocal of its magnitude, projecting it onto the
/// unit sphere.
pub open spec fn norm_of(p: Point3) -> Point3 {
    let m = sqrt_of(add_of(add_of(mul_of(p.x, p.x), mul_of(p.y, p.y)), mul_of(p.z, p.z)));
    Point3 { x: div_of(p.x, m), y: div_of(p.y, m), z: div_of(p.z, m) }
}

/// Cell (a, b) of a cube face projected onto the unit sphere.
pub open spec fn sphere_point_of(plane: Plane, a: u32, b: u32, max: u32) -> Point3 {
    norm_of(cube_point_of(plane, a, b, max))
}

/// The unit vector at a latitude and longitude given in degrees.
pub open spec fn lat_lon_point_of(lat: u64, lon: u64) -> Point3 {
    let latr = mul_of(lat, RAD_PER_DEG);
    let lonr = mul_of(lon, RAD_PER_DEG);
    let r = cos_of(latr);
    Point3 { x: mul_of(r, cos_of(lonr)), y: sin_of(latr), z: mul_of(r, sin_of(lonr)) }
}

/// Row `y` of a rect grid mapped linearly to latitude: -90 at row zero, one
/// grid step short of +90 at the last row.
pub open spec fn rect_lat_of(y: u32, height: u32) -> u64 {
    add_of(F_NEG_90, mul_of(div_of(of_u32(y), of_u32(height)), F_180))
}

/// Column `x` of a rect grid mapped linearly to longitude: -180 at column
/// zero, one grid step short of +180 at the last column.
pub open spec fn rect_lon_of(x: u32, width: u32) -> u64 {
    add_of(F_NEG_180, mul_of(div_of(of_u32(x), of_u32(width)), F_360))
}

/// Pixel (x, y) of a rect grid projected onto the unit sphere.
pub open spec fn rect_point_of(x: u32, y: u32, width: u32, height: u32) -> Point3 {
    lat_lon_point_of(rect_lat_of(y, height), rect_lon_of(x, width))
}

fn axis_coord(g: u32, max: u32) -> (r: u64)
    ensures
        r == axis_coord_of(g, max),
{
    fp_add(F_NEG_ONE, fp_div(fp_mul(fp_of_u32(g), F_TWO), fp_of_u32(max)))
}

/// Maps cell (a, b) of a cube face into `[-1, 1]^3`; `max_coord` is the face's
/// last cell index.
pub fn coord_to_pos(plane: Plane, a: usize, b: usize, max_coord: usize) -> (p: Point3)
    requires
        a <= max_coord,
        b <= max_coord,
        max_coord <= u32::MAX,
    ensures
        p == cube_point_of(plane, a as u32, b as u32, max_coord as u32),
{
    let m = max_coord as u32;
    let aa = a as u32;
    let bb = b as u32;
    let (gx, gy, gz): (u32, u32, u32) = match plane {
        Plane::XP => (m, bb, m - aa),
        Plane::XN => (0, bb, aa),
        Plane::YP => (aa, m, m - bb),
        Plane::YN => (aa, 0, bb),
        Plane::ZP => (aa, bb, m),
        Plane::ZN => (m - aa, bb, 0),
    };
    Point3 { x: axis_coord(gx, m), y: axis_coord(gy, m), z: axis_coord(gz, m) }
}

/// Projects a point onto the unit sphere by dividing by its magnitude.
pub fn normalize(p: Point3) -> (q: Point3)
    ensures
        q == norm_of(p),
{
    let m = fp_sqrt(fp_add(fp_add(fp_mul(p.x, p.x), fp_mul(p.y, p.y)), fp_mul(p.z, p.z)));
    Point3 { x: fp_div(p.x, m), y: fp_div(p.y, m), z: fp_div(p.z, m) }
}

/// The unit vector at a latitude and longitude given in degrees (as scalar
/// bit patterns).
pub fn lat_lon_to_pos(lat: u64, lon: u64) -> (p: Point3)
    ensures
        p == lat_lon_point_of(lat, lon),
{
    let latr = fp_mul(lat, RAD_PER_DEG);
    let lonr = fp_mul(lon, RAD_PER_DEG);
    let r = fp_cos(latr);
    Point3 { x: fp_mul(r, fp_cos(lonr)), y: fp_sin(latr), z: fp_mul(r, fp_sin(lonr)) }
}

/// Projects pixel (x, y) of a rect grid onto the unit sphere.
pub fn rect_point(x: usize, y: usize, width: usize, height: usize) -> (p: Point3)
    requires
        x < width,
        y < height,
        width <= u32::MAX,
        height <= u32::MAX,
    ensures
        p == rect_point_of(x as u32, y as u32, width as u32, height as u32),
{
    let lat = fp_add(F_NEG_90, fp_mul(fp_div(fp_of_u32(y as u32), fp_of_u32(height as u32)), F_180));
    let lon = fp_add(
        F_NEG_180,
        fp_mul(fp_div(fp_of_u32(x as u32), fp_of_u32(width as u32)), F_360),
    );
    lat_lon_to_pos(lat, lon)
}

} // verus!
