//! Geographic positions and the spherical-Earth conversions between the
//! local planar working frame and latitude/longitude: haversine distance,
//! initial bearing, destination points, and georeferenced Dubins paths.
//!
//! Positions are (latitude, longitude) in fixed-point WGS84 degrees; the
//! great-circle work uses the haversine formula on a sphere of radius
//! 6371008.8 m, with the squares of the small half-angle sines carried at
//! double precision (Q64.64) so that short distances keep their accuracy.

use vstd::prelude::*;
use crate::fx::{
    fx_add, fx_div, fx_hypot, fx_mul, fx_sub, iabs, lemma_abs_mul, quot_toward_zero, spec_add,
    spec_div, spec_hypot, spec_mul, spec_sub, sqrt_floor, FX_DEG_PER_RAD, FX_HALF_PI, FX_ONE,
    FX_RAD_PER_DEG, FX_SCALE, FX_TWO,
};
use crate::geom::{Point, DubinPath, Arc, Tangent, Direction, spec_raw_angle};
use crate::trig::{cos_bits, fx_atan2, fx_cos, fx_sin, sin_bits, spec_atan2};

verus! {

/// Mean Earth radius, 6371008.8 m, in fixed-point meters.
pub const FX_EARTH_RADIUS: i64 = 27363274438528204;

/// 45 degrees in fixed point.
pub const FX_DEG_45: i64 = 193273528320;

/// 90 degrees in fixed point.
pub const FX_DEG_90: i64 = 386547056640;

/// 180 degrees in fixed point.
pub const FX_DEG_180: i64 = 773094113280;

/// 360 degrees in fixed point.
pub const FX_DEG_360: i64 = 1546188226560;

/// A geographic position is well-formed when the latitude lies in
/// [-90, 90] degrees and the longitude in [-180, 180] degrees.
pub open spec fn spec_geo_wf(p: GeoPoint) -> bool {
    &&& -(FX_DEG_90 as int) <= p.lat as int <= FX_DEG_90 as int
    &&& -(FX_DEG_180 as int) <= p.lon as int <= FX_DEG_180 as int
}

/// A geographic position: latitude and longitude in fixed-point degrees.
#[derive(Clone, Copy, PartialEq, Eq, Structural, Debug)]
pub struct GeoPoint {
    pub lat: i64,
    pub lon: i64,
}

impl GeoPoint {
    /// Builds a geographic position from fixed-point degrees.
    pub fn new(lat: i64, lon: i64) -> (r: GeoPoint)
        ensures
            r == (GeoPoint { lat, lon }),
    {
        GeoPoint { lat, lon }
    }
}

/// Degrees to radians, in fixed point.
pub open spec fn spec_deg_to_rad(v: int) -> int {
    spec_mul(v, FX_RAD_PER_DEG as int)
}

/// Degrees to radians, in fixed point.
pub fn deg_to_rad(v: i64) -> (r: i64)
    ensures
        r as int == spec_deg_to_rad(v as int),
{
    fx_mul(v, FX_RAD_PER_DEG)
}

/// Radians to degrees, in fixed point.
pub open spec fn spec_rad_to_deg(v: int) -> int {
    spec_mul(v, FX_DEG_PER_RAD as int)
}

/// Radians to degrees, in fixed point.
pub fn rad_to_deg(v: i64) -> (r: i64)
    ensures
        r as int == spec_rad_to_deg(v as int),
{
    fx_mul(v, FX_DEG_PER_RAD)
}

/// A value clamped into [-1, 1] in fixed point.
pub open spec fn spec_clamp_unit(v: int) -> int {
    if v > FX_ONE as int {
        FX_ONE as int
    } else if v < -(FX_ONE as int) {
        -(FX_ONE as int)
    } else {
        v
    }
}

fn clamp_unit(v: i64) -> (r: i64)
    ensures
        r as int == spec_clamp_unit(v as int),
{
    if v > FX_ONE {
        FX_ONE
    } else if v < -FX_ONE {
        -FX_ONE
    } else {
        v
    }
}

/// A value clamped into [0, 1] in fixed point.
pub open spec fn spec_clamp_unit_pos(v: int) -> int {
    if v > FX_ONE as int {
        FX_ONE as int
    } else if v < 0 {
        0
    } else {
        v
    }
}

fn clamp_unit_pos(v: i64) -> (r: i64)
    ensures
        r as int == spec_clamp_unit_pos(v as int),
{
    if v > FX_ONE {
        FX_ONE
    } else if v < 0 {
        0
    } else {
        v
    }
}

/// The haversine quantity `s1^2 + cc * s2^2` in Q64.64, from clamped
/// Q32.32 inputs; `s1`, `s2` are the half-angle sines, `cc` the product of
/// the latitude cosines clamped into [0, 1].
pub open spec fn spec_hav_sum(s1: int, s2: int, cc: int) -> int {
    s1 * s1 + (cc * (s2 * s2)) / (FX_SCALE as int)
}

/// The Q64.64 haversine quantity clamped into [0, 1].
pub open spec fn spec_hav_clamped(s1: int, s2: int, cc: int) -> int {
    let a = spec_hav_sum(s1, s2, cc);
    let one_q64 = (FX_SCALE as int) * (FX_SCALE as int);
    if a > one_q64 {
        one_q64
    } else {
        a
    }
}

/// The central angle of the haversine formula:
/// `2 * atan2(sqrt(a), sqrt(1 - a))`, with the square roots taken on the
/// Q64.64 quantity so short distances keep full precision.
pub open spec fn spec_hav_angle(s1: int, s2: int, cc: int) -> int {
    let a = spec_hav_clamped(s1, s2, cc);
    let one_q64 = (FX_SCALE as int) * (FX_SCALE as int);
    spec_mul(
        FX_TWO as int,
        spec_atan2(sqrt_floor(a), sqrt_floor(one_q64 - a)),
    )
}

/// The haversine great-circle distance between two positions, in
/// fixed-point meters.
#[verifier::opaque]
pub open spec fn spec_haversine_distance(a: GeoPoint, b: GeoPoint) -> int {
    let phi1 = spec_deg_to_rad(a.lat as int);
    let phi2 = spec_deg_to_rad(b.lat as int);
    let dphi = spec_deg_to_rad(spec_sub(b.lat as int, a.lat as int));
    let dlam = spec_deg_to_rad(spec_sub(b.lon as int, a.lon as int));
    let s1 = spec_clamp_unit(sin_bits(spec_div(dphi, FX_TWO as int)));
    let s2 = spec_clamp_unit(sin_bits(spec_div(dlam, FX_TWO as int)));
    let cc = spec_clamp_unit_pos(spec_mul(cos_bits(phi1), cos_bits(phi2)));
    spec_mul(FX_EARTH_RADIUS as int, spec_hav_angle(s1, s2, cc))
}

/// Computes the haversine square-root pair and central angle from the
/// clamped half-angle sines and cosine product.
fn hav_angle(s1: i64, s2: i64, cc: i64) -> (r: i64)
    requires
        -(FX_ONE as int) <= s1 as int <= FX_ONE as int,
        -(FX_ONE as int) <= s2 as int <= FX_ONE as int,
        0 <= cc as int <= FX_ONE as int,
    ensures
        r as int == spec_hav_angle(s1 as int, s2 as int, cc as int),
{
    let s1m: u128 = if s1 < 0 {
        (-(s1 as i128)) as u128
    } else {
        s1 as u128
    };
    let s2m: u128 = if s2 < 0 {
        (-(s2 as i128)) as u128
    } else {
        s2 as u128
    };
    proof {
        lemma_abs_mul(s1 as int, s1 as int);
        lemma_abs_mul(s2 as int, s2 as int);
        vstd::arithmetic::mul::lemma_mul_upper_bound(
            s1m as int,
            FX_ONE as int,
            s1m as int,
            FX_ONE as int,
        );
        vstd::arithmetic::mul::lemma_mul_upper_bound(
            s2m as int,
            FX_ONE as int,
            s2m as int,
            FX_ONE as int,
        );
        assert((FX_ONE as int) * (FX_ONE as int) == 0x1_0000_0000_0000_0000int);
        vstd::arithmetic::mul::lemma_mul_upper_bound(
            cc as int,
            FX_ONE as int,
            (s2m as int) * (s2m as int),
            0x1_0000_0000_0000_0000,
        );
        assert((FX_ONE as int) * 0x1_0000_0000_0000_0000int == 0x1_0000_0000_0000_0000_0000_0000int);
        vstd::arithmetic::mul::lemma_mul_nonnegative(cc as int, (s2m as int) * (s2m as int));
        vstd::arithmetic::div_mod::lemma_div_pos_is_pos(
            (cc as int) * ((s2m as int) * (s2m as int)),
            FX_SCALE as int,
        );
        vstd::arithmetic::div_mod::lemma_div_is_ordered(
            (cc as int) * ((s2m as int) * (s2m as int)),
            0x1_0000_0000_0000_0000_0000_0000,
            FX_SCALE as int,
        );
        assert(0x1_0000_0000_0000_0000_0000_0000int / (FX_SCALE as int)
            == 0x1_0000_0000_0000_0000int);
    }
    let a_raw: u128 = s1m * s1m + (cc as u128) * (s2m * s2m) / (FX_SCALE as u128);
    let one_q64: u128 = 0x1_0000_0000_0000_0000u128;
    let a: u128 = if a_raw > one_q64 {
        one_q64
    } else {
        a_raw
    };
    proof {
        assert((s1m as int) * (s1m as int) == (s1 as int) * (s1 as int));
        assert((s2m as int) * (s2m as int) == (s2 as int) * (s2 as int));
        assert(a as int == spec_hav_clamped(s1 as int, s2 as int, cc as int));
    }
    let sa = crate::fx::isqrt_small(a);
    let sb = crate::fx::isqrt_small(one_q64 - a);
    fx_mul(FX_TWO, fx_atan2(sa, sb))
}

/// The haversine great-circle distance in fixed-point meters.
pub fn haversine_distance(a: &GeoPoint, b: &GeoPoint) -> (r: i64)
    requires
        spec_geo_wf(*a),
        spec_geo_wf(*b),
    ensures
        r as int == spec_haversine_distance(*a, *b),
{
    proof {
        reveal(spec_haversine_distance);
    }
    let phi1 = deg_to_rad(a.lat);
    let phi2 = deg_to_rad(b.lat);
    let dphi = deg_to_rad(fx_sub(b.lat, a.lat));
    let dlam = deg_to_rad(fx_sub(b.lon, a.lon));
    proof {
        lemma_rad_small(a.lat as int);
        lemma_rad_small(b.lat as int);
        lemma_rad_small(spec_sub(b.lat as int, a.lat as int));
        lemma_rad_small(spec_sub(b.lon as int, a.lon as int));
    }
    let s1 = clamp_unit(fx_sin(fx_div(dphi, FX_TWO)));
    let s2 = clamp_unit(fx_sin(fx_div(dlam, FX_TWO)));
    let cc = clamp_unit_pos(fx_mul(fx_cos(phi1), fx_cos(phi2)));
    fx_mul(FX_EARTH_RADIUS, hav_angle(s1, s2, cc))
}

/// A bounded degree value scaled by the radian factor stays well inside
/// the sine and cosine wrappers' working range, and so does its half.
pub proof fn lemma_rad_small(v: int)
    requires
        iabs(v) <= 2 * (FX_DEG_360 as int),
    ensures
        -8 * (crate::fx::FX_TWO_PI as int) <= spec_deg_to_rad(v) <= 8 * (
        crate::fx::FX_TWO_PI as int),
        -8 * (crate::fx::FX_TWO_PI as int) <= spec_div(spec_deg_to_rad(v), FX_TWO as int) <= 8 * (
        crate::fx::FX_TWO_PI as int),
{
    let p = v * (FX_RAD_PER_DEG as int);
    lemma_abs_mul(v, FX_RAD_PER_DEG as int);
    vstd::arithmetic::mul::lemma_mul_upper_bound(
        iabs(v),
        2 * (FX_DEG_360 as int),
        FX_RAD_PER_DEG as int,
        FX_RAD_PER_DEG as int,
    );
    assert(2 * (FX_DEG_360 as int) * (FX_RAD_PER_DEG as int) == 0xc90fdab5000000000int);
    vstd::arithmetic::div_mod::lemma_div_pos_is_pos(iabs(p), FX_SCALE as int);
    vstd::arithmetic::div_mod::lemma_div_is_ordered(
        iabs(p),
        0xc90fdab5000000000,
        FX_SCALE as int,
    );
    assert(0xc90fdab5000000000int / (FX_SCALE as int) == 0xc90fdab50int);
    let h = spec_deg_to_rad(v);
    assert(iabs(h) <= 0xc90fdab50);
    lemma_abs_mul(h, FX_SCALE as int);
    vstd::arithmetic::mul::lemma_mul_upper_bound(
        iabs(h),
        0xc90fdab50,
        FX_SCALE as int,
        FX_SCALE as int,
    );
    assert(0xc90fdab50int * (FX_SCALE as int) == 0xc90fdab5000000000int);
    vstd::arithmetic::div_mod::lemma_div_pos_is_pos(iabs(h * (FX_SCALE as int)), FX_TWO as int);
    vstd::arithmetic::div_mod::lemma_div_is_ordered(
        iabs(h * (FX_SCALE as int)),
        0xc90fdab5000000000,
        FX_TWO as int,
    );
    assert(0xc90fdab5000000000int / (FX_TWO as int) == 0x6487ed5a8int);
}

/// A degree value within eight full turns scaled by the radian factor
/// stays inside the sine and cosine wrappers' working range.
pub proof fn lemma_rad_small_wide(v: int)
    requires
        iabs(v) <= 8 * (FX_DEG_360 as int),
    ensures
        -16 * (crate::fx::FX_TWO_PI as int) <= spec_deg_to_rad(v) <= 16 * (
        crate::fx::FX_TWO_PI as int),
{
    let p = v * (FX_RAD_PER_DEG as int);
    lemma_abs_mul(v, FX_RAD_PER_DEG as int);
    vstd::arithmetic::mul::lemma_mul_upper_bound(
        iabs(v),
        8 * (FX_DEG_360 as int),
        FX_RAD_PER_DEG as int,
        FX_RAD_PER_DEG as int,
    );
    assert(8 * (FX_DEG_360 as int) * (FX_RAD_PER_DEG as int) == 0x3243f6ad4000000000int);
    vstd::arithmetic::div_mod::lemma_div_pos_is_pos(iabs(p), FX_SCALE as int);
    vstd::arithmetic::div_mod::lemma_div_is_ordered(
        iabs(p),
        0x3243f6ad4000000000,
        FX_SCALE as int,
    );
    assert(0x3243f6ad4000000000int / (FX_SCALE as int) == 0x3243f6ad40int);
    let q = quot_toward_zero(p, FX_SCALE as int);
    assert(iabs(q) <= 0x3243f6ad40);
}

/// A radian value within five half-turns converts to at most three full
/// turns of fixed-point degrees in magnitude.
pub proof fn lemma_deg_of_wide_angle_bounded(theta: int)
    requires
        iabs(theta) <= 10 * (FX_HALF_PI as int),
    ensures
        iabs(spec_rad_to_deg(theta)) <= 3 * (FX_DEG_360 as int),
{
    lemma_abs_mul(theta, FX_DEG_PER_RAD as int);
    vstd::arithmetic::mul::lemma_mul_upper_bound(
        iabs(theta),
        10 * (FX_HALF_PI as int),
        FX_DEG_PER_RAD as int,
        FX_DEG_PER_RAD as int,
    );
    vstd::arithmetic::div_mod::lemma_div_pos_is_pos(
        iabs(theta * (FX_DEG_PER_RAD as int)),
        FX_SCALE as int,
    );
    vstd::arithmetic::div_mod::lemma_div_is_ordered(
        iabs(theta * (FX_DEG_PER_RAD as int)),
        10 * (FX_HALF_PI as int) * (FX_DEG_PER_RAD as int),
        FX_SCALE as int,
    );
    assert((10 * (FX_HALF_PI as int) * (FX_DEG_PER_RAD as int)) / (FX_SCALE as int) < 3 * (
    FX_DEG_360 as int));
}

/// The initial great-circle bearing from `a` to `b`, in fixed-point
/// degrees within [-270, 270] (mathematically within (-180, 180]).
#[verifier::opaque]
pub open spec fn spec_bearing(a: GeoPoint, b: GeoPoint) -> int {
    let phi1 = spec_deg_to_rad(a.lat as int);
    let phi2 = spec_deg_to_rad(b.lat as int);
    let dlam = spec_deg_to_rad(spec_sub(b.lon as int, a.lon as int));
    let y = spec_mul(sin_bits(dlam), cos_bits(phi2));
    let x = spec_sub(
        spec_mul(cos_bits(phi1), sin_bits(phi2)),
        spec_mul(spec_mul(sin_bits(phi1), cos_bits(phi2)), cos_bits(dlam)),
    );
    spec_rad_to_deg(spec_atan2(y, x))
}

/// The initial great-circle bearing in fixed-point degrees.
pub fn bearing(a: &GeoPoint, b: &GeoPoint) -> (r: i64)
    requires
        spec_geo_wf(*a),
        spec_geo_wf(*b),
    ensures
        r as int == spec_bearing(*a, *b),
        iabs(r as int) <= FX_DEG_360 as int,
{
    proof {
        reveal(spec_bearing);
        lemma_rad_small(a.lat as int);
        lemma_rad_small(b.lat as int);
        lemma_rad_small(spec_sub(b.lon as int, a.lon as int));
    }
    let phi1 = deg_to_rad(a.lat);
    let phi2 = deg_to_rad(b.lat);
    let dlam = deg_to_rad(fx_sub(b.lon, a.lon));
    let y = fx_mul(fx_sin(dlam), fx_cos(phi2));
    let x = fx_sub(
        fx_mul(fx_cos(phi1), fx_sin(phi2)),
        fx_mul(fx_mul(fx_sin(phi1), fx_cos(phi2)), fx_cos(dlam)),
    );
    let theta = fx_atan2(y, x);
    let r = rad_to_deg(theta);
    proof {
        lemma_deg_of_angle_bounded(theta as int);
    }
    r
}

/// An angle within [-3/2 pi, 3/2 pi] radians converts to at most 360
/// fixed-point degrees in magnitude.
pub proof fn lemma_deg_of_angle_bounded(theta: int)
    requires
        iabs(theta) <= (crate::fx::FX_PI as int) + (FX_HALF_PI as int),
    ensures
        iabs(spec_rad_to_deg(theta)) <= FX_DEG_360 as int,
{
    lemma_abs_mul(theta, FX_DEG_PER_RAD as int);
    vstd::arithmetic::mul::lemma_mul_upper_bound(
        iabs(theta),
        (crate::fx::FX_PI as int) + (FX_HALF_PI as int),
        FX_DEG_PER_RAD as int,
        FX_DEG_PER_RAD as int,
    );
    vstd::arithmetic::div_mod::lemma_div_pos_is_pos(
        iabs(theta * (FX_DEG_PER_RAD as int)),
        FX_SCALE as int,
    );
    vstd::arithmetic::div_mod::lemma_div_is_ordered(
        iabs(theta * (FX_DEG_PER_RAD as int)),
        ((crate::fx::FX_PI as int) + (FX_HALF_PI as int)) * (FX_DEG_PER_RAD as int),
        FX_SCALE as int,
    );
    assert((((crate::fx::FX_PI as int) + (FX_HALF_PI as int)) * (FX_DEG_PER_RAD as int)) / (
    FX_SCALE as int) < FX_DEG_360 as int);
}

/// A value clamped into a closed interval.
pub open spec fn spec_clamp(v: int, lo: int, hi: int) -> int {
    if v > hi {
        hi
    } else if v < lo {
        lo
    } else {
        v
    }
}

/// The destination reached from an origin on a given initial compass
/// bearing (fixed-point degrees) after a given great-circle distance
/// (fixed-point meters). The angular distance is clamped to one turn and
/// the result is clamped to the valid coordinate ranges rather than
/// wrapped at the antimeridian.
#[verifier::opaque]
pub open spec fn spec_haversine_destination(origin: GeoPoint, bearing_deg: int, distance: int)
    -> GeoPoint {
    let phi1 = spec_deg_to_rad(origin.lat as int);
    let lam1 = spec_deg_to_rad(origin.lon as int);
    let theta = spec_deg_to_rad(bearing_deg);
    let delta = spec_clamp(
        spec_div(distance, FX_EARTH_RADIUS as int),
        -(crate::fx::FX_TWO_PI as int),
        crate::fx::FX_TWO_PI as int,
    );
    let sin_phi2 = spec_clamp_unit(
        spec_add(
            spec_mul(sin_bits(phi1), cos_bits(delta)),
            spec_mul(spec_mul(cos_bits(phi1), sin_bits(delta)), cos_bits(theta)),
        ),
    );
    let phi2 = crate::trig::spec_asin(sin_phi2);
    let dlam = spec_atan2(
        spec_mul(spec_mul(sin_bits(theta), sin_bits(delta)), cos_bits(phi1)),
        spec_sub(cos_bits(delta), spec_mul(sin_bits(phi1), sin_phi2)),
    );
    GeoPoint {
        lat: spec_clamp(spec_rad_to_deg(phi2), -(FX_DEG_90 as int), FX_DEG_90 as int) as i64,
        lon: spec_clamp(
            spec_rad_to_deg(spec_add(lam1, dlam)),
            -(FX_DEG_180 as int),
            FX_DEG_180 as int,
        ) as i64,
    }
}

/// The haversine destination point.
pub fn haversine_destination(origin: &GeoPoint, bearing_deg: i64, distance: i64) -> (r: GeoPoint)
    requires
        spec_geo_wf(*origin),
        iabs(bearing_deg as int) <= 2 * (FX_DEG_360 as int),
    ensures
        r == spec_haversine_destination(*origin, bearing_deg as int, distance as int),
        spec_geo_wf(r),
{
    proof {
        reveal(spec_haversine_destination);
        lemma_rad_small(origin.lat as int);
        lemma_rad_small(origin.lon as int);
        lemma_rad_small(bearing_deg as int);
    }
    let phi1 = deg_to_rad(origin.lat);
    let lam1 = deg_to_rad(origin.lon);
    let theta = deg_to_rad(bearing_deg);
    let delta_raw = fx_div(distance, FX_EARTH_RADIUS);
    let delta: i64 = if delta_raw > crate::fx::FX_TWO_PI {
        crate::fx::FX_TWO_PI
    } else if delta_raw < -crate::fx::FX_TWO_PI {
        -crate::fx::FX_TWO_PI
    } else {
        delta_raw
    };
    let sin_phi2 = clamp_unit(
        fx_add(
            fx_mul(fx_sin(phi1), fx_cos(delta)),
            fx_mul(fx_mul(fx_cos(phi1), fx_sin(delta)), fx_cos(theta)),
        ),
    );
    let phi2 = crate::trig::fx_asin(sin_phi2);
    let dlam = fx_atan2(
        fx_mul(fx_mul(fx_sin(theta), fx_sin(delta)), fx_cos(phi1)),
        fx_sub(fx_cos(delta), fx_mul(fx_sin(phi1), sin_phi2)),
    );
    let lat_deg = rad_to_deg(phi2);
    let lon_deg = rad_to_deg(fx_add(lam1, dlam));
    let lat: i64 = if lat_deg > FX_DEG_90 {
        FX_DEG_90
    } else if lat_deg < -FX_DEG_90 {
        -FX_DEG_90
    } else {
        lat_deg
    };
    let lon: i64 = if lon_deg > FX_DEG_180 {
        FX_DEG_180
    } else if lon_deg < -FX_DEG_180 {
        -FX_DEG_180
    } else {
        lon_deg
    };
    GeoPoint { lat, lon }
}

/// The local planar position of a geographic point relative to a target
/// taken as the origin: the great-circle bearing converted to a
/// mathematical angle and the haversine distance laid out along it.
pub open spec fn spec_relative_position(p: GeoPoint, target: GeoPoint) -> Point {
    let theta = spec_sub(spec_deg_to_rad(spec_bearing(target, p)), FX_HALF_PI as int);
    let d = spec_haversine_distance(target, p);
    Point { x: spec_mul(cos_bits(theta), d) as i64, y: spec_mul(sin_bits(theta), d) as i64 }
}

/// Maps a geographic point into the local frame around a target.
pub fn relative_geometric_position_of(p: &GeoPoint, target: &GeoPoint) -> (r: Point)
    requires
        spec_geo_wf(*p),
        spec_geo_wf(*target),
    ensures
        r == spec_relative_position(*p, *target),
{
    let b = bearing(target, p);
    proof {
        lemma_rad_small(b as int);
    }
    let theta = fx_sub(deg_to_rad(b), FX_HALF_PI);
    let d = haversine_distance(target, p);
    Point { x: fx_mul(fx_cos(theta), d), y: fx_mul(fx_sin(theta), d) }
}

/// The geographic point of a local planar position around a geographic
/// origin: the inverse of the relative mapping, through a haversine
/// destination step.
pub open spec fn spec_point_to_geographic(point: Point, origin: GeoPoint) -> GeoPoint {
    if point.x == 0 && point.y == 0 {
        origin
    } else {
        let b = spec_rad_to_deg(
            spec_add(spec_atan2(point.y as int, point.x as int), FX_HALF_PI as int),
        );
        spec_haversine_destination(origin, b, spec_hypot(point.x as int, point.y as int))
    }
}

/// Maps a local planar position back to geographic coordinates.
pub fn geometric_point_to_geographic(point: Point, origin: &GeoPoint) -> (r: GeoPoint)
    requires
        spec_geo_wf(*origin),
    ensures
        r == spec_point_to_geographic(point, *origin),
        spec_geo_wf(r),
{
    if point.x == 0 && point.y == 0 {
        return *origin;
    }
    let a = fx_atan2(point.y, point.x);
    let b = rad_to_deg(fx_add(a, FX_HALF_PI));
    proof {
        lemma_deg_of_rot_bounded(a as int);
    }
    let d = fx_hypot(point.x, point.y);
    haversine_destination(origin, b, d)
}

/// An arc-tangent shifted a quarter turn converts to at most 720
/// fixed-point degrees in magnitude.
proof fn lemma_deg_of_rot_bounded(a: int)
    requires
        iabs(a) <= (crate::fx::FX_PI as int) + (FX_HALF_PI as int),
    ensures
        iabs(spec_rad_to_deg(spec_add(a, FX_HALF_PI as int))) <= 2 * (FX_DEG_360 as int),
{
    let w = spec_add(a, FX_HALF_PI as int);
    assert(iabs(w) <= (crate::fx::FX_PI as int) + 2 * (FX_HALF_PI as int));
    lemma_abs_mul(w, FX_DEG_PER_RAD as int);
    vstd::arithmetic::mul::lemma_mul_upper_bound(
        iabs(w),
        (crate::fx::FX_PI as int) + 2 * (FX_HALF_PI as int),
        FX_DEG_PER_RAD as int,
        FX_DEG_PER_RAD as int,
    );
    vstd::arithmetic::div_mod::lemma_div_pos_is_pos(
        iabs(w * (FX_DEG_PER_RAD as int)),
        FX_SCALE as int,
    );
    vstd::arithmetic::div_mod::lemma_div_is_ordered(
        iabs(w * (FX_DEG_PER_RAD as int)),
        ((crate::fx::FX_PI as int) + 2 * (FX_HALF_PI as int)) * (FX_DEG_PER_RAD as int),
        FX_SCALE as int,
    );
    assert((((crate::fx::FX_PI as int) + 2 * (FX_HALF_PI as int)) * (FX_DEG_PER_RAD as int)) / (
    FX_SCALE as int) < 2 * (FX_DEG_360 as int));
}

/// A straight segment of a path, in geographic coordinates.
#[derive(Clone, Copy, PartialEq, Eq, Structural, Debug)]
pub struct GeographicTangent {
    pub start: GeoPoint,
    pub end: GeoPoint,
}

impl GeographicTangent {
    /// The great-circle length of the segment in fixed-point meters.
    pub fn length(&self) -> (r: i64)
        requires
            spec_geo_wf(self.start),
            spec_geo_wf(self.end),
        ensures
            r as int == spec_haversine_distance(self.start, self.end),
    {
        haversine_distance(&self.start, &self.end)
    }
}

/// An arc of a path, in geographic coordinates, keeping its planar form
/// and the frame origin for further rendering.
#[derive(Clone, Copy, PartialEq, Eq, Structural, Debug)]
pub struct GeographicArc {
    pub start: GeoPoint,
    pub end: GeoPoint,
    pub theta: i64,
    pub center: GeoPoint,
    pub radius: i64,
    pub direction: Direction,
    pub geometric_arc: Arc,
    pub geographic_origin: GeoPoint,
}

impl GeographicArc {
    /// Renders the arc as a trail of geographic points, one per whole
    /// degree swept, ordered from the arc's far end back to its start.
    pub fn points(&self) -> (r: Vec<GeoPoint>)
        requires
            spec_geo_wf(self.geographic_origin),
        ensures
            r@.len() == crate::geom::spec_arc_degree_steps(self.geometric_arc),
            forall|k: int|
                0 <= k < r@.len() ==> r@[k] == spec_point_to_geographic(
                    crate::geom::spec_arc_point(self.geometric_arc, r@.len() - 1 - k),
                    self.geographic_origin,
                ),
    {
        let planar = self.geometric_arc.points();
        let mut out: Vec<GeoPoint> = Vec::new();
        let total = planar.len();
        let mut k: usize = 0;
        while k < total
            invariant
                spec_geo_wf(self.geographic_origin),
                total == planar@.len(),
                k <= total,
                planar@.len() == crate::geom::spec_arc_degree_steps(self.geometric_arc),
                forall|j: int|
                    0 <= j < planar@.len() ==> planar@[j] == crate::geom::spec_arc_point(
                        self.geometric_arc,
                        j,
                    ),
                out@.len() == k as int,
                forall|j: int|
                    0 <= j < k as int ==> out@[j] == spec_point_to_geographic(
                        crate::geom::spec_arc_point(
                            self.geometric_arc,
                            planar@.len() - 1 - j,
                        ),
                        self.geographic_origin,
                    ),
            decreases total - k,
        {
            let p = planar[total - 1 - k];
            out.push(geometric_point_to_geographic(p, &self.geographic_origin));
            k = k + 1;
        }
        out
    }
}

/// A Dubins path in geographic coordinates.
#[derive(Clone, Copy, PartialEq, Eq, Structural, Debug)]
pub enum GeographicDubinPath {
    CSC(GeographicArc, GeographicTangent, GeographicArc),
    CCC(GeographicArc, GeographicArc, GeographicArc),
}

/// A planar tangent mapped around a geographic origin.
pub open spec fn spec_tangent_to_geographic(t: Tangent, origin: GeoPoint) -> GeographicTangent {
    GeographicTangent {
        start: spec_point_to_geographic(t.start, origin),
        end: spec_point_to_geographic(t.end, origin),
    }
}

/// A planar arc mapped around a geographic origin.
pub open spec fn spec_arc_to_geographic(a: Arc, origin: GeoPoint) -> GeographicArc {
    GeographicArc {
        start: spec_point_to_geographic(a.start, origin),
        end: spec_point_to_geographic(a.end, origin),
        theta: spec_raw_angle(a) as i64,
        center: spec_point_to_geographic(a.circle.center, origin),
        radius: a.circle.radius,
        direction: a.circle.direction,
        geometric_arc: a,
        geographic_origin: origin,
    }
}

/// A planar path mapped around a geographic origin.
pub open spec fn spec_path_to_geographic(p: DubinPath, origin: GeoPoint) -> GeographicDubinPath {
    match p {
        DubinPath::CSC(a1, t, a2) => GeographicDubinPath::CSC(
            spec_arc_to_geographic(a1, origin),
            spec_tangent_to_geographic(t, origin),
            spec_arc_to_geographic(a2, origin),
        ),
        DubinPath::CCC(a1, a2, a3) => GeographicDubinPath::CCC(
            spec_arc_to_geographic(a1, origin),
            spec_arc_to_geographic(a2, origin),
            spec_arc_to_geographic(a3, origin),
        ),
    }
}

fn arc_to_geographic(a: &Arc, origin: &GeoPoint) -> (r: GeographicArc)
    requires
        spec_geo_wf(*origin),
    ensures
        r == spec_arc_to_geographic(*a, *origin),
{
    GeographicArc {
        start: geometric_point_to_geographic(a.start, origin),
        end: geometric_point_to_geographic(a.end, origin),
        theta: a.raw_angle(),
        center: geometric_point_to_geographic(a.circle.center, origin),
        radius: a.circle.radius,
        direction: a.circle.direction,
        geometric_arc: *a,
        geographic_origin: *origin,
    }
}

fn geometric_dubin_path_to_geographic(p: &DubinPath, origin: &GeoPoint) -> (r: GeographicDubinPath)
    requires
        spec_geo_wf(*origin),
    ensures
        r == spec_path_to_geographic(*p, *origin),
{
    match p {
        DubinPath::CSC(a1, t, a2) => GeographicDubinPath::CSC(
            arc_to_geographic(a1, origin),
            GeographicTangent {
                start: geometric_point_to_geographic(t.start, origin),
                end: geometric_point_to_geographic(t.end, origin),
            },
            arc_to_geographic(a2, origin),
        ),
        DubinPath::CCC(a1, a2, a3) => GeographicDubinPath::CCC(
            arc_to_geographic(a1, origin),
            arc_to_geographic(a2, origin),
            arc_to_geographic(a3, origin),
        ),
    }
}

/// The mathematical planar angle of a compass bearing given in
/// fixed-point degrees: the bearing in radians less a quarter turn.
pub open spec fn spec_bearing_to_angle(bearing_deg: int) -> int {
    spec_sub(spec_deg_to_rad(bearing_deg), FX_HALF_PI as int)
}

/// All candidate Dubins paths between two geographic poses, mapped back
/// into geographic coordinates around the end point.
#[verifier::opaque]
pub open spec fn spec_georef_candidates(
    start: GeoPoint,
    end: GeoPoint,
    start_bearing_deg: int,
    end_bearing_deg: int,
    radius: i64,
) -> Seq<GeographicDubinPath> {
    let gs = spec_relative_position(start, end);
    let sa = crate::trig::spec_normalize_angle(spec_bearing_to_angle(start_bearing_deg));
    let ea = crate::trig::spec_normalize_angle(spec_bearing_to_angle(end_bearing_deg));
    crate::dubin::spec_dubin_candidates(
        crate::geom::DirectedPoint { point: gs, angle: sa as i64 },
        crate::geom::DirectedPoint { point: Point { x: 0, y: 0 }, angle: ea as i64 },
        radius,
    ).map_values(|p: DubinPath| spec_path_to_geographic(p, end))
}

/// Computes every feasible Dubins path between two geographic poses given
/// by position and compass bearing (fixed-point degrees), at the given
/// turning radius, in geographic coordinates.
pub fn calculate_georeferenced_dubin_path_candidates(
    start: GeoPoint,
    end: GeoPoint,
    start_bearing_deg: i64,
    end_bearing_deg: i64,
    radius: i64,
) -> (r: Vec<GeographicDubinPath>)
    requires
        spec_geo_wf(start),
        spec_geo_wf(end),
    ensures
        r@ == spec_georef_candidates(
            start,
            end,
            start_bearing_deg as int,
            end_bearing_deg as int,
            radius,
        ),
{
    let start_angle = fx_sub(deg_to_rad(start_bearing_deg), FX_HALF_PI);
    let end_angle = fx_sub(deg_to_rad(end_bearing_deg), FX_HALF_PI);
    let geometric_start = relative_geometric_position_of(&start, &end);
    let geometric_end = Point { x: 0, y: 0 };
    let candidates = crate::dubin::calculate_dubin_path_candidates(
        geometric_start,
        geometric_end,
        start_angle,
        end_angle,
        radius,
    );
    let mut out: Vec<GeographicDubinPath> = Vec::new();
    let mut i: usize = 0;
    while i < candidates.len()
        invariant
            spec_geo_wf(end),
            i <= candidates.len(),
            out@.len() == i as int,
            forall|j: int|
                0 <= j < i as int ==> out@[j] == spec_path_to_geographic(candidates@[j], end),
        decreases candidates.len() - i,
    {
        let g = geometric_dubin_path_to_geographic(&candidates[i], &end);
        out.push(g);
        i = i + 1;
    }
    proof {
        reveal(spec_georef_candidates);
        assert(out@ =~= spec_georef_candidates(
            start,
            end,
            start_bearing_deg as int,
            end_bearing_deg as int,
            radius,
        ));
    }
    out
}

/// A haversine destination always carries valid coordinates, by the final
/// clamps of the formula.
pub proof fn lemma_destination_wf(origin: GeoPoint, bearing_deg: int, distance: int)
    ensures
        spec_geo_wf(spec_haversine_destination(origin, bearing_deg, distance)),
{
    reveal(spec_haversine_destination);
}

/// A planar point mapped back to geographic coordinates around a valid
/// origin carries valid coordinates.
pub proof fn lemma_point_to_geographic_wf(p: Point, origin: GeoPoint)
    requires
        spec_geo_wf(origin),
    ensures
        spec_geo_wf(spec_point_to_geographic(p, origin)),
{
    if !(p.x == 0 && p.y == 0) {
        lemma_destination_wf(
            origin,
            spec_rad_to_deg(spec_add(spec_atan2(p.y as int, p.x as int), FX_HALF_PI as int)),
            spec_hypot(p.x as int, p.y as int),
        );
    }
}

} // verus!
