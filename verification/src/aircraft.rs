//! The aircraft performance model: raw figures as given in handbooks
//! (feet, knots, feet per minute, pounds), exact rational conversions into
//! fixed-point SI units, and the glide-energy model that turns geometry
//! into height loss.

use vstd::prelude::*;
use crate::fx::{
    fx_abs, fx_add, fx_div, fx_mul, fx_hypot, fx_sat, iabs, quot_toward_zero, spec_abs, spec_add,
    spec_div, spec_hypot, spec_mul, FX_ONE, FX_SCALE, FX_TWO_PI,
};
use crate::geom::{spec_raw_angle, spec_tangent_length, DubinPath};
use crate::trig::{cos_bits, fx_cos, fx_sin, sin_bits};

verus! {

/// Airspeed multiplier applied in turns to stay away from the stall.
pub const TURN_AIRSPEED_SAFETY_FACTOR_NUM: u64 = 3;

/// Denominator of the turn airspeed multiplier (the factor is 3/2).
pub const TURN_AIRSPEED_SAFETY_FACTOR_DEN: u64 = 2;

/// Standard gravity, 9.81 m/s^2, in fixed point.
pub const FX_GRAVITY: i64 = 42133629174;

/// `fx_sat((v * num * 2^32) / den)`: a raw handbook figure scaled by an
/// exact rational conversion factor into fixed point.
pub open spec fn spec_scaled(v: int, num: int, den: int) -> int {
    fx_sat((v * num * (FX_SCALE as int)) / den)
}

/// Scales a raw figure by an exact rational factor into fixed point.
pub fn scaled(v: u64, num: u64, den: u64) -> (r: i64)
    requires
        0 < num <= 0x1_0000_0000,
        den > 0,
    ensures
        r as int == spec_scaled(v as int, num as int, den as int),
        r >= 0,
{
    proof {
        vstd::arithmetic::mul::lemma_mul_upper_bound(
            v as int,
            0xffff_ffff_ffff_ffff,
            num as int,
            0x1_0000_0000,
        );
        assert(0xffff_ffff_ffff_ffffint * 0x1_0000_0000int == 0xffff_ffff_ffff_ffff_0000_0000int);
        vstd::arithmetic::mul::lemma_mul_upper_bound(
            (v as int) * (num as int),
            0xffff_ffff_ffff_ffff_0000_0000,
            FX_SCALE as int,
            0x1_0000_0000,
        );
        assert(0xffff_ffff_ffff_ffff_0000_0000int * 0x1_0000_0000int
            == 0xffff_ffff_ffff_ffff_0000_0000_0000_0000int);
        vstd::arithmetic::mul::lemma_mul_nonnegative(v as int, num as int);
        vstd::arithmetic::mul::lemma_mul_nonnegative((v as int) * (num as int), FX_SCALE as int);
        vstd::arithmetic::div_mod::lemma_div_pos_is_pos(
            (v as int) * (num as int) * (FX_SCALE as int),
            den as int,
        );
    }
    let wide: u128 = (v as u128) * (num as u128) * (FX_SCALE as u128) / (den as u128);
    if wide > i64::MAX as u128 {
        i64::MAX
    } else {
        wide as i64
    }
}

/// Feet to fixed-point meters: one foot is exactly 381/1250 m.
pub open spec fn spec_feet_to_m(ft: int) -> int {
    spec_scaled(ft, 381, 1250)
}

/// Feet to fixed-point meters.
pub fn feet_to_m(ft: u64) -> (r: i64)
    ensures
        r as int == spec_feet_to_m(ft as int),
        r >= 0,
{
    scaled(ft, 381, 1250)
}

/// Knots to fixed-point meters per second: one knot is exactly 463/900 m/s.
pub open spec fn spec_knots_to_ms(kt: int) -> int {
    spec_scaled(kt, 463, 900)
}

/// Knots to fixed-point meters per second.
pub fn knots_to_ms(kt: u64) -> (r: i64)
    ensures
        r as int == spec_knots_to_ms(kt as int),
        r >= 0,
{
    scaled(kt, 463, 900)
}

/// Feet per minute to fixed-point meters per second: exactly 127/25000.
pub open spec fn spec_fpm_to_ms(fpm: int) -> int {
    spec_scaled(fpm, 127, 25000)
}

/// Feet per minute to fixed-point meters per second.
pub fn fpm_to_ms(fpm: u64) -> (r: i64)
    ensures
        r as int == spec_fpm_to_ms(fpm as int),
        r >= 0,
{
    scaled(fpm, 127, 25000)
}

/// Pounds to fixed-point kilograms: one pound is exactly
/// 45359237/100000000 kg.
pub open spec fn spec_pounds_to_kg(lb: int) -> int {
    spec_scaled(lb, 45359237, 100000000)
}

/// Pounds to fixed-point kilograms.
pub fn pounds_to_kg(lb: u64) -> (r: i64)
    ensures
        r as int == spec_pounds_to_kg(lb as int),
        r >= 0,
{
    scaled(lb, 45359237, 100000000)
}

/// Fixed-point meters back to whole meters, rounded to nearest.
pub open spec fn spec_fx_to_whole(v: int) -> int {
    if v < 0 {
        0
    } else {
        (v + 0x8000_0000) / (FX_SCALE as int)
    }
}

/// Fixed-point value rounded to the nearest whole unit; negative values
/// give zero.
pub fn fx_to_whole(v: i64) -> (r: u64)
    ensures
        r as int == spec_fx_to_whole(v as int),
{
    if v < 0 {
        0
    } else {
        (((v as u128) + 0x8000_0000u128) / (FX_SCALE as u128)) as u64
    }
}

/// Fixed-point meters to fixed-point feet: one meter is exactly
/// 1250/381 ft.
pub open spec fn spec_m_to_feet_fx(v: int) -> int {
    fx_sat(quot_toward_zero(v * 1250, 381))
}

/// Fixed-point meters to fixed-point feet.
pub fn m_to_feet_fx(v: i64) -> (r: i64)
    ensures
        r as int == spec_m_to_feet_fx(v as int),
{
    proof {
        crate::fx::lemma_abs_mul(v as int, 1250);
        vstd::arithmetic::mul::lemma_mul_upper_bound(
            iabs(v as int),
            0x8000_0000_0000_0000,
            1250,
            1250,
        );
    }
    let neg = v < 0;
    let m: u128 = if v < 0 {
        ((-(v as i128)) as u128) * 1250u128
    } else {
        (v as u128) * 1250u128
    };
    let q: u128 = m / 381u128;
    proof {
        vstd::arithmetic::div_mod::lemma_div_pos_is_pos(m as int, 381);
        if neg && q > 0 {
            assert(quot_toward_zero((v as int) * 1250, 381) == -(q as int));
        } else {
            assert(quot_toward_zero((v as int) * 1250, 381) == q as int);
        }
    }
    if neg {
        if q > 0x8000_0000_0000_0000u128 {
            i64::MIN
        } else {
            (-(q as i128)) as i64
        }
    } else {
        if q > i64::MAX as u128 {
            i64::MAX
        } else {
            q as i64
        }
    }
}

/// Takeoff figures: ground roll and total distance over the 50 ft obstacle
/// (feet), and the speed at the obstacle (knots).
#[derive(Clone, Copy, PartialEq, Eq, Structural, Debug)]
pub struct TakeoffPerformance {
    pub ground_roll: u64,
    pub total_distance: u64,
    pub speed: u64,
}

/// Takeoff figures are well-formed when the ground roll does not exceed
/// the total distance and the speed is positive.
pub open spec fn spec_takeoff_wf(t: TakeoffPerformance) -> bool {
    t.ground_roll <= t.total_distance && t.speed > 0
}

impl TakeoffPerformance {
    /// Builds takeoff figures from handbook values.
    pub fn new(ground_roll: u64, total_distance: u64, speed: u64) -> (r: TakeoffPerformance)
        requires
            ground_roll <= total_distance,
            speed > 0,
        ensures
            r == (TakeoffPerformance { ground_roll, total_distance, speed }),
            spec_takeoff_wf(r),
    {
        TakeoffPerformance { ground_roll, total_distance, speed }
    }

    /// Ground roll in fixed-point meters.
    pub fn ground_roll(&self) -> (r: i64)
        ensures
            r as int == spec_feet_to_m(self.ground_roll as int),
    {
        feet_to_m(self.ground_roll)
    }

    /// Total distance over the obstacle in fixed-point meters.
    pub fn total_distance(&self) -> (r: i64)
        ensures
            r as int == spec_feet_to_m(self.total_distance as int),
    {
        feet_to_m(self.total_distance)
    }
}

/// Climb figures: best-rate speed (knots) and best rate of climb
/// (feet per minute).
#[derive(Clone, Copy, PartialEq, Eq, Structural, Debug)]
pub struct ClimbPerformance {
    pub speed: u64,
    pub rate: u64,
}

/// Climb figures are well-formed when both are positive.
pub open spec fn spec_climb_wf(c: ClimbPerformance) -> bool {
    c.speed > 0 && c.rate > 0
}

/// Ground track covered per unit of height gained in a best-rate climb:
/// the hypotenuse of one second of flight over the height gained in it.
pub open spec fn spec_climb_ratio(c: ClimbPerformance) -> int {
    let speed = spec_knots_to_ms(c.speed as int);
    let rate = spec_fpm_to_ms(c.rate as int);
    spec_div(spec_hypot(speed, rate), rate)
}

impl ClimbPerformance {
    /// Builds climb figures from handbook values.
    pub fn new(speed: u64, rate: u64) -> (r: ClimbPerformance)
        requires
            speed > 0,
            rate > 0,
        ensures
            r == (ClimbPerformance { speed, rate }),
            spec_climb_wf(r),
    {
        ClimbPerformance { speed, rate }
    }

    /// Rate of climb in feet per minute.
    pub fn rate(&self) -> (r: u64)
        ensures
            r == self.rate,
    {
        self.rate
    }

    /// Ground track covered while gaining a given height in a best-rate
    /// climb.
    pub fn ground_track_for_height_gained(&self, height: i64) -> (r: i64)
        ensures
            r as int == spec_mul(height as int, spec_climb_ratio(*self)),
    {
        fx_mul(height, self.ratio())
    }

    /// Factor which multiplied by the height gained yields the ground
    /// track covered.
    pub fn ratio(&self) -> (r: i64)
        ensures
            r as int == spec_climb_ratio(*self),
    {
        let speed = knots_to_ms(self.speed);
        let rate = fpm_to_ms(self.rate);
        fx_div(fx_hypot(speed, rate), rate)
    }
}

/// Glide figures: ground distance covered per 1000 ft of height lost
/// (fixed-point nautical miles) and best-glide speed (knots).
#[derive(Clone, Copy, PartialEq, Eq, Structural, Debug)]
pub struct GlidePerformance {
    pub distance: i64,
    pub speed: u64,
}

/// Glide figures are well-formed when both are strictly positive.
pub open spec fn spec_glide_wf(g: GlidePerformance) -> bool {
    g.distance > 0 && g.speed > 0
}

/// The dimensionless glide ratio: meters of ground track per meter of
/// height lost. One nautical mile per 1000 ft is exactly 2315/381.
pub open spec fn spec_glide_ratio(g: GlidePerformance) -> int {
    fx_sat(quot_toward_zero((g.distance as int) * 2315, 381))
}

/// Airspeed held in a gliding turn: one and a half times best-glide speed,
/// in fixed-point meters per second (exactly `kt * 463 / 600` per knot).
pub open spec fn spec_turn_speed(g: GlidePerformance) -> int {
    spec_scaled(g.speed as int, (463 * 3) as int, (900 * 2) as int)
}

/// Turn radius at a bank angle: `v^2 / (g * tan(bank))`.
pub open spec fn spec_turn_radius(g: GlidePerformance, bank: int) -> int {
    let v = spec_turn_speed(g);
    let tan = spec_div(sin_bits(bank), cos_bits(bank));
    spec_div(spec_mul(v, v), spec_mul(FX_GRAVITY as int, tan))
}

/// Height lost over a straight ground track: the track over the ratio.
pub open spec fn spec_height_for_track(g: GlidePerformance, track: int) -> int {
    spec_div(track, spec_glide_ratio(g))
}

/// Height lost in a turn at a given radius, ratio and bank penalty:
/// the arc distance over the ratio, times the penalty.
pub open spec fn spec_turn_height_with(angle: int, radius: int, ratio: int, penalty: int) -> int {
    spec_mul(spec_div(spec_abs(spec_mul(angle, radius)), ratio), penalty)
}

/// The bank penalty `1 / cos(bank)`: the load-factor-driven extra sink.
pub open spec fn spec_bank_penalty(bank: int) -> int {
    spec_div(FX_ONE as int, cos_bits(bank))
}

/// Height lost in a turn of a signed angle at a bank: the turn is flown at
/// the bank's turn radius and costs the bank penalty over straight flight.
pub open spec fn spec_height_in_turn(g: GlidePerformance, angle: int, bank: int) -> int {
    spec_turn_height_with(angle, spec_turn_radius(g, bank), spec_glide_ratio(g), spec_bank_penalty(bank))
}

/// Height lost over a whole path: each arc costs a turn at the path bank,
/// each straight costs its track over the ratio.
pub open spec fn spec_height_over_path(g: GlidePerformance, p: DubinPath, bank: int) -> int {
    match p {
        DubinPath::CSC(a1, t, a2) => spec_add(
            spec_add(
                spec_height_in_turn(g, spec_raw_angle(a1), bank),
                spec_height_for_track(g, spec_tangent_length(t)),
            ),
            spec_height_in_turn(g, spec_raw_angle(a2), bank),
        ),
        DubinPath::CCC(a1, a2, a3) => spec_add(
            spec_add(
                spec_height_in_turn(g, spec_raw_angle(a1), bank),
                spec_height_in_turn(g, spec_raw_angle(a2), bank),
            ),
            spec_height_in_turn(g, spec_raw_angle(a3), bank),
        ),
    }
}

impl GlidePerformance {
    /// Builds glide figures from handbook values; the distance is in
    /// fixed-point nautical miles per 1000 ft.
    pub fn new(distance: i64, speed: u64) -> (r: GlidePerformance)
        requires
            distance > 0,
            speed > 0,
        ensures
            r == (GlidePerformance { distance, speed }),
            spec_glide_wf(r),
    {
        GlidePerformance { distance, speed }
    }

    /// The dimensionless glide ratio: ground track per height lost.
    pub fn ratio(&self) -> (r: i64)
        requires
            spec_glide_wf(*self),
        ensures
            r as int == spec_glide_ratio(*self),
            r >= 0,
    {
        proof {
            crate::fx::lemma_abs_mul(self.distance as int, 2315);
            vstd::arithmetic::mul::lemma_mul_upper_bound(
                self.distance as int,
                0x8000_0000_0000_0000,
                2315,
                2315,
            );
            vstd::arithmetic::div_mod::lemma_div_pos_is_pos(
                (self.distance as int) * 2315,
                381,
            );
        }
        let wide: u128 = (self.distance as u128) * 2315u128 / 381u128;
        if wide > i64::MAX as u128 {
            i64::MAX
        } else {
            wide as i64
        }
    }

    /// Airspeed held in gliding turns, in fixed-point meters per second.
    pub fn turn_speed(&self) -> (r: i64)
        ensures
            r as int == spec_turn_speed(*self),
            r >= 0,
    {
        scaled(self.speed, 463 * TURN_AIRSPEED_SAFETY_FACTOR_NUM, 900 * TURN_AIRSPEED_SAFETY_FACTOR_DEN)
    }

    /// Turn radius in fixed-point meters while gliding at the given bank
    /// (radians).
    pub fn turn_radius(&self, bank: i64) -> (r: i64)
        requires
            -(FX_TWO_PI as int) <= bank as int <= FX_TWO_PI as int,
        ensures
            r as int == spec_turn_radius(*self, bank as int),
    {
        let v = self.turn_speed();
        let tan = fx_div(fx_sin(bank), fx_cos(bank));
        fx_div(fx_mul(v, v), fx_mul(FX_GRAVITY, tan))
    }

    /// Ground track covered per height lost, inverted: height lost over a
    /// straight ground track in fixed-point meters.
    pub fn height_lost_for_ground_track(&self, track: i64) -> (r: i64)
        requires
            spec_glide_wf(*self),
        ensures
            r as int == spec_height_for_track(*self, track as int),
    {
        fx_div(track, self.ratio())
    }

    /// Ground track that can be covered for a given height lost.
    pub fn ground_track_for_height_lost(&self, height: i64) -> (r: i64)
        requires
            spec_glide_wf(*self),
        ensures
            r as int == spec_mul(height as int, spec_glide_ratio(*self)),
    {
        fx_mul(height, self.ratio())
    }

    /// Height lost while turning through a signed angle (radians) at the
    /// given bank (radians).
    pub fn height_lost_in_turn(&self, angle: i64, bank: i64) -> (r: i64)
        requires
            spec_glide_wf(*self),
            -(FX_TWO_PI as int) <= bank as int <= FX_TWO_PI as int,
        ensures
            r as int == spec_height_in_turn(*self, angle as int, bank as int),
    {
        let radius = self.turn_radius(bank);
        let distance = fx_abs(fx_mul(angle, radius));
        let safety_factor = fx_div(FX_ONE, fx_cos(bank));
        fx_mul(fx_div(distance, self.ratio()), safety_factor)
    }

    /// Height lost over a full Dubins path at the given bank.
    pub fn height_loss_over_geometric_path(&self, path: &DubinPath, bank: i64) -> (r: i64)
        requires
            spec_glide_wf(*self),
            -(FX_TWO_PI as int) <= bank as int <= FX_TWO_PI as int,
        ensures
            r as int == spec_height_over_path(*self, *path, bank as int),
    {
        match path {
            DubinPath::CSC(a1, t, a2) => fx_add(
                fx_add(
                    self.height_lost_in_turn(a1.raw_angle(), bank),
                    self.height_lost_for_ground_track(t.raw_length()),
                ),
                self.height_lost_in_turn(a2.raw_angle(), bank),
            ),
            DubinPath::CCC(a1, a2, a3) => fx_add(
                fx_add(
                    self.height_lost_in_turn(a1.raw_angle(), bank),
                    self.height_lost_in_turn(a2.raw_angle(), bank),
                ),
                self.height_lost_in_turn(a3.raw_angle(), bank),
            ),
        }
    }
}

/// Landing figures: ground roll, total distance over the 50 ft obstacle
/// (feet), threshold speed (knots) and maximum stabilized descent rate in
/// dirty configuration (feet per minute).
#[derive(Clone, Copy, PartialEq, Eq, Structural, Debug)]
pub struct LandingPerformance {
    pub ground_roll: u64,
    pub total_distance: u64,
    pub speed: u64,
    pub descent_rate: u64,
}

/// Landing figures are well-formed when the ground roll does not exceed
/// the total distance and the rates are positive.
pub open spec fn spec_landing_wf(l: LandingPerformance) -> bool {
    l.ground_roll <= l.total_distance && l.speed > 0 && l.descent_rate > 0
}

impl LandingPerformance {
    /// Builds landing figures from handbook values.
    pub fn new(ground_roll: u64, total_distance: u64, speed: u64, descent_rate: u64) -> (r:
        LandingPerformance)
        requires
            ground_roll <= total_distance,
            speed > 0,
            descent_rate > 0,
        ensures
            r == (LandingPerformance { ground_roll, total_distance, speed, descent_rate }),
            spec_landing_wf(r),
    {
        LandingPerformance { ground_roll, total_distance, speed, descent_rate }
    }

    /// Ground roll in fixed-point meters.
    pub fn ground_roll(&self) -> (r: i64)
        ensures
            r as int == spec_feet_to_m(self.ground_roll as int),
            r >= 0,
    {
        feet_to_m(self.ground_roll)
    }

    /// Total distance over the obstacle in fixed-point meters.
    pub fn total_distance(&self) -> (r: i64)
        ensures
            r as int == spec_feet_to_m(self.total_distance as int),
            r >= 0,
    {
        feet_to_m(self.total_distance)
    }

    /// Factor which multiplied by the height lost yields the ground track
    /// covered in a dirty-configuration descent.
    pub fn descend_ratio(&self) -> (r: i64)
        ensures
            r as int == spec_div(
                spec_hypot(spec_knots_to_ms(self.speed as int), spec_fpm_to_ms(self.descent_rate as int)),
                spec_fpm_to_ms(self.descent_rate as int),
            ),
    {
        let speed = knots_to_ms(self.speed);
        let rate = fpm_to_ms(self.descent_rate);
        fx_div(fx_hypot(speed, rate), rate)
    }
}

/// An aircraft: identity plus its four performance blocks.
#[derive(Clone, Debug)]
pub struct Aircraft {
    pub id: String,
    pub name: String,
    pub raw_mtow: u64,
    pub takeoff: TakeoffPerformance,
    pub climb: ClimbPerformance,
    pub glide: GlidePerformance,
    pub landing: LandingPerformance,
}

/// An aircraft record is well-formed when all its blocks are.
pub open spec fn spec_aircraft_wf(a: Aircraft) -> bool {
    spec_takeoff_wf(a.takeoff) && spec_climb_wf(a.climb) && spec_glide_wf(a.glide)
        && spec_landing_wf(a.landing)
}

impl Aircraft {
    /// Builds an aircraft record from validated blocks.
    pub fn new(
        id: String,
        name: String,
        raw_mtow: u64,
        takeoff: TakeoffPerformance,
        climb: ClimbPerformance,
        glide: GlidePerformance,
        landing: LandingPerformance,
    ) -> (r: Aircraft)
        requires
            spec_takeoff_wf(takeoff),
            spec_climb_wf(climb),
            spec_glide_wf(glide),
            spec_landing_wf(landing),
        ensures
            spec_aircraft_wf(r),
            r.raw_mtow == raw_mtow,
            r.takeoff == takeoff,
            r.climb == climb,
            r.glide == glide,
            r.landing == landing,
            r.id@ == id@,
            r.name@ == name@,
    {
        Aircraft { id, name, raw_mtow, takeoff, climb, glide, landing }
    }

    /// Maximum takeoff weight in fixed-point kilograms.
    pub fn mtow(&self) -> (r: i64)
        ensures
            r as int == spec_pounds_to_kg(self.raw_mtow as int),
            r >= 0,
    {
        pounds_to_kg(self.raw_mtow)
    }
}

/// Glide numbers derived from the handbook figures, in whole units for
/// display: turn radius (meters) and the height lost in a full turn (feet).
#[derive(Clone, Copy, PartialEq, Eq, Structural, Debug)]
pub struct DerivedAircraftGlidePerformance {
    pub turn_radius: u64,
    pub full_turn_height_loss: u64,
}

impl DerivedAircraftGlidePerformance {
    /// Derives display glide numbers at a bank angle (radians).
    pub fn new(glide: &GlidePerformance, bank: i64) -> (r: DerivedAircraftGlidePerformance)
        requires
            spec_glide_wf(*glide),
            -(FX_TWO_PI as int) <= bank as int <= FX_TWO_PI as int,
        ensures
            r.turn_radius as int == spec_fx_to_whole(spec_turn_radius(*glide, bank as int)),
            r.full_turn_height_loss as int == spec_fx_to_whole(
                spec_m_to_feet_fx(spec_height_in_turn(*glide, FX_TWO_PI as int, bank as int)),
            ),
    {
        DerivedAircraftGlidePerformance {
            turn_radius: fx_to_whole(glide.turn_radius(bank)),
            full_turn_height_loss: fx_to_whole(
                m_to_feet_fx(glide.height_lost_in_turn(FX_TWO_PI, bank)),
            ),
        }
    }
}

/// Landing distances over the obstacle per surface, in whole meters for
/// display.
#[derive(Clone, Copy, PartialEq, Eq, Structural, Debug)]
pub struct DerivedAircraftLandingPerformance {
    pub on_asphalt: u64,
    pub on_gras: u64,
    pub on_water: u64,
}

impl DerivedAircraftLandingPerformance {
    /// Derives the display landing distances of an aircraft.
    pub fn new(landing: &LandingPerformance) -> (r: DerivedAircraftLandingPerformance)
        ensures
            r.on_asphalt as int == spec_fx_to_whole(
                crate::location::spec_total_distance_on_surface(
                    *landing,
                    crate::location::SurfaceType::Asphalt,
                ),
            ),
            r.on_gras as int == spec_fx_to_whole(
                crate::location::spec_total_distance_on_surface(
                    *landing,
                    crate::location::SurfaceType::Gras,
                ),
            ),
            r.on_water as int == spec_fx_to_whole(
                crate::location::spec_total_distance_on_surface(
                    *landing,
                    crate::location::SurfaceType::Water,
                ),
            ),
    {
        DerivedAircraftLandingPerformance {
            on_asphalt: fx_to_whole(
                landing.total_distance_on_surface(&crate::location::SurfaceType::Asphalt),
            ),
            on_gras: fx_to_whole(
                landing.total_distance_on_surface(&crate::location::SurfaceType::Gras),
            ),
            on_water: fx_to_whole(
                landing.total_distance_on_surface(&crate::location::SurfaceType::Water),
            ),
        }
    }
}

/// For one path geometry and glide ratio, a larger bank penalty never
/// loses less height: the penalty enters each turn's cost monotonically.
pub proof fn lemma_height_monotone_in_penalty(
    g: GlidePerformance,
    p: DubinPath,
    radius: int,
    f1: int,
    f2: int,
)
    requires
        spec_glide_wf(g),
        0 <= f1 <= f2,
    ensures
        spec_path_height_with(g, p, radius, f1) <= spec_path_height_with(g, p, radius, f2),
{
    assert(spec_glide_ratio(g) >= 0) by {
        vstd::arithmetic::mul::lemma_mul_nonnegative(g.distance as int, 2315);
        vstd::arithmetic::div_mod::lemma_div_pos_is_pos(iabs((g.distance as int) * 2315), 381);
    }
    match p {
        DubinPath::CSC(a1, t, a2) => {
            lemma_turn_height_monotone(spec_raw_angle(a1), radius, spec_glide_ratio(g), f1, f2);
            lemma_turn_height_monotone(spec_raw_angle(a2), radius, spec_glide_ratio(g), f1, f2);
        },
        DubinPath::CCC(a1, a2, a3) => {
            lemma_turn_height_monotone(spec_raw_angle(a1), radius, spec_glide_ratio(g), f1, f2);
            lemma_turn_height_monotone(spec_raw_angle(a2), radius, spec_glide_ratio(g), f1, f2);
            lemma_turn_height_monotone(spec_raw_angle(a3), radius, spec_glide_ratio(g), f1, f2);
        },
    }
}

/// Height lost over a path at a fixed turn radius, glide ratio and bank
/// penalty: the form of the glide model with the bank influence isolated
/// in the penalty and the radius.
pub open spec fn spec_path_height_with(g: GlidePerformance, p: DubinPath, radius: int, penalty: int)
    -> int {
    match p {
        DubinPath::CSC(a1, t, a2) => spec_add(
            spec_add(
                spec_turn_height_with(spec_raw_angle(a1), radius, spec_glide_ratio(g), penalty),
                spec_height_for_track(g, spec_tangent_length(t)),
            ),
            spec_turn_height_with(spec_raw_angle(a2), radius, spec_glide_ratio(g), penalty),
        ),
        DubinPath::CCC(a1, a2, a3) => spec_add(
            spec_add(
                spec_turn_height_with(spec_raw_angle(a1), radius, spec_glide_ratio(g), penalty),
                spec_turn_height_with(spec_raw_angle(a2), radius, spec_glide_ratio(g), penalty),
            ),
            spec_turn_height_with(spec_raw_angle(a3), radius, spec_glide_ratio(g), penalty),
        ),
    }
}

/// The engine's path height loss is the fixed-radius form evaluated at
/// the bank's own turn radius and bank penalty: the bank enters the cost
/// only through those two quantities.
pub proof fn lemma_path_height_decomposition(g: GlidePerformance, p: DubinPath, bank: int)
    ensures
        spec_height_over_path(g, p, bank) == spec_path_height_with(
            g,
            p,
            spec_turn_radius(g, bank),
            spec_bank_penalty(bank),
        ),
{
}

/// One turn's height loss is monotone in the bank penalty.
proof fn lemma_turn_height_monotone(angle: int, radius: int, ratio: int, f1: int, f2: int)
    requires
        0 <= f1 <= f2,
        0 <= ratio,
    ensures
        spec_turn_height_with(angle, radius, ratio, f1) <= spec_turn_height_with(
            angle,
            radius,
            ratio,
            f2,
        ),
{
    let dist = spec_abs(spec_mul(angle, radius));
    let u = spec_div(dist, ratio);
    assert(dist >= 0);
    if ratio == 0 {
        assert(u >= 0);
    } else {
        vstd::arithmetic::mul::lemma_mul_nonnegative(dist, FX_SCALE as int);
        vstd::arithmetic::div_mod::lemma_div_pos_is_pos(iabs(dist * (FX_SCALE as int)), iabs(ratio));
        assert(u >= 0);
    }
    lemma_spec_mul_monotone(u, f1, f2);
}

/// `spec_mul` is monotone in its second argument when the first is
/// non-negative.
proof fn lemma_spec_mul_monotone(u: int, f1: int, f2: int)
    requires
        u >= 0,
        0 <= f1 <= f2,
    ensures
        spec_mul(u, f1) <= spec_mul(u, f2),
{
    vstd::arithmetic::mul::lemma_mul_inequality(f1, f2, u);
    vstd::arithmetic::mul::lemma_mul_is_commutative(u, f1);
    vstd::arithmetic::mul::lemma_mul_is_commutative(u, f2);
    vstd::arithmetic::mul::lemma_mul_nonnegative(u, f1);
    vstd::arithmetic::mul::lemma_mul_nonnegative(u, f2);
    vstd::arithmetic::div_mod::lemma_div_is_ordered(u * f1, u * f2, FX_SCALE as int);
    vstd::arithmetic::div_mod::lemma_div_pos_is_pos(u * f1, FX_SCALE as int);
}

} // verus!
