//! The reachability calculator: pilot preferences, per-site risk
//! assessment, the worst-case range profile of an aircraft at an altitude,
//! per-site range polygons, the risk-ordered polygon composition, and the
//! landing-option search from a current aircraft state.

use vstd::prelude::*;
use crate::fx::{
    fx_add, fx_mul, fx_neg, fx_sub, iabs, spec_add, spec_mul, spec_neg, spec_sub, FX_HALF_PI,
    FX_TWO, FX_TWO_PI,
};
use crate::aircraft::{
    scaled, spec_glide_ratio, spec_glide_wf, spec_height_in_turn, spec_height_for_track,
    spec_scaled, spec_turn_radius, Aircraft, GlidePerformance,
};
use crate::geom::{spec_point_plus, DirectedPoint, DubinPath, Point};
use crate::dubin::{calculate_dubin_path_candidates, spec_dubin_candidates};
use crate::geographic::{
    deg_to_rad, spec_deg_to_rad, spec_geo_wf, GeoPoint,
};
use crate::location::{
    spec_landing_headroom, spec_location_wf, spec_risk_max, HumanPresenceCategory, Location,
    RiskClassification, SurfaceType,
};
use crate::trig::{cos_bits, fx_cos, fx_sin, sin_bits};

verus! {

/// Pilot preferences: bank angle (radians), binary-search precision
/// (meters), the two landing-headroom thresholds (dimensionless fractions)
/// and how event-only and densely crowded sites are classified. All
/// numeric fields are fixed point.
#[derive(Clone, Copy, PartialEq, Eq, Structural, Debug)]
pub struct Preferences {
    pub bank: i64,
    pub epsilon: i64,
    pub unsafe_landing_headroom: i64,
    pub risky_landing_headroom: i64,
    pub event_location_classification: RiskClassification,
    pub densely_crowded_classification: RiskClassification,
}

/// Preferences are well-formed when the bank is strictly between level
/// flight and a knife edge, and the precision is at least two raw steps,
/// so that the binary search always narrows its interval.
pub open spec fn spec_preferences_wf(p: Preferences) -> bool {
    &&& 0 < p.bank < FX_HALF_PI as int
    &&& p.epsilon >= 2
}

impl Preferences {
    /// Builds preferences from validated values.
    pub fn new(
        bank: i64,
        epsilon: i64,
        unsafe_landing_headroom: i64,
        risky_landing_headroom: i64,
        event_location_classification: RiskClassification,
        densely_crowded_classification: RiskClassification,
    ) -> (r: Preferences)
        requires
            0 < bank < FX_HALF_PI as int,
            epsilon >= 2,
        ensures
            r == (Preferences {
                bank,
                epsilon,
                unsafe_landing_headroom,
                risky_landing_headroom,
                event_location_classification,
                densely_crowded_classification,
            }),
            spec_preferences_wf(r),
    {
        Preferences {
            bank,
            epsilon,
            unsafe_landing_headroom,
            risky_landing_headroom,
            event_location_classification,
            densely_crowded_classification,
        }
    }
}

impl Default for Preferences {
    /// The stock preferences: a 45 degree bank, a decimeter of precision,
    /// and the usual headroom thresholds of -0.15 and -0.05.
    fn default() -> (r: Preferences)
        ensures
            r == (Preferences {
                bank: 3373259426i64,
                epsilon: 429496730i64,
                unsafe_landing_headroom: -644245094i64,
                risky_landing_headroom: -214748365i64,
                event_location_classification: RiskClassification::Risky,
                densely_crowded_classification: RiskClassification::Risky,
            }),
            spec_preferences_wf(r),
    {
        Preferences {
            bank: 3373259426,
            epsilon: 429496730,
            unsafe_landing_headroom: -644245094,
            risky_landing_headroom: -214748365,
            event_location_classification: RiskClassification::Risky,
            densely_crowded_classification: RiskClassification::Risky,
        }
    }
}

/// A risk assessment: the overall risk and its three ingredients.
#[derive(Clone, Copy, PartialEq, Eq, Structural, Debug)]
pub struct RiskAssessment {
    pub overall: RiskClassification,
    pub surface: RiskClassification,
    pub headroom: RiskClassification,
    pub humans: RiskClassification,
}

/// The surface ingredient of the risk: water is unsafe, all else safe.
pub open spec fn spec_surface_risk(l: Location) -> RiskClassification {
    match l.surface {
        SurfaceType::Water => RiskClassification::Unsafe,
        _ => RiskClassification::Safe,
    }
}

/// The headroom ingredient: below the unsafe threshold the site is
/// unsafe, below the risky threshold risky, otherwise safe.
pub open spec fn spec_headroom_risk(p: Preferences, l: Location, a: Aircraft)
    -> RiskClassification {
    let h = spec_landing_headroom(l, a);
    if h < p.unsafe_landing_headroom as int {
        RiskClassification::Unsafe
    } else if h < p.risky_landing_headroom as int {
        RiskClassification::Risky
    } else {
        RiskClassification::Safe
    }
}

/// The human-presence ingredient: event-only and densely crowded sites
/// take the preferred classification when it is risky or unsafe; sparse
/// and unlikely presence is safe.
pub open spec fn spec_humans_risk(p: Preferences, l: Location) -> RiskClassification {
    match l.human_presence {
        HumanPresenceCategory::EventOnly => {
            if p.event_location_classification == RiskClassification::Risky {
                RiskClassification::Risky
            } else if p.event_location_classification == RiskClassification::Unsafe {
                RiskClassification::Unsafe
            } else {
                RiskClassification::Safe
            }
        },
        HumanPresenceCategory::Dense => {
            if p.densely_crowded_classification == RiskClassification::Risky {
                RiskClassification::Risky
            } else if p.densely_crowded_classification == RiskClassification::Unsafe {
                RiskClassification::Unsafe
            } else {
                RiskClassification::Safe
            }
        },
        _ => RiskClassification::Safe,
    }
}

/// The whole assessment: each ingredient, and the overall risk as their
/// maximum under Safe < Risky < Unsafe.
pub open spec fn spec_assess_risk(p: Preferences, l: Location, a: Aircraft) -> RiskAssessment {
    let surface = spec_surface_risk(l);
    let headroom = spec_headroom_risk(p, l, a);
    let humans = spec_humans_risk(p, l);
    RiskAssessment {
        overall: spec_risk_max(spec_risk_max(surface, headroom), humans),
        surface,
        headroom,
        humans,
    }
}

/// Assesses the risk of landing at a site with a given aircraft.
pub fn assess_risk(preferences: &Preferences, location: &Location, aircraft: &Aircraft) -> (r:
    RiskAssessment)
    requires
        spec_location_wf(*location),
    ensures
        r == spec_assess_risk(*preferences, *location, *aircraft),
{
    let surface = match location.surface {
        SurfaceType::Water => RiskClassification::Unsafe,
        _ => RiskClassification::Safe,
    };
    let h = location.landing_headroom(aircraft);
    let headroom = if h < preferences.unsafe_landing_headroom {
        RiskClassification::Unsafe
    } else if h < preferences.risky_landing_headroom {
        RiskClassification::Risky
    } else {
        RiskClassification::Safe
    };
    let humans = match location.human_presence {
        HumanPresenceCategory::EventOnly => {
            if matches!(preferences.event_location_classification, RiskClassification::Risky) {
                RiskClassification::Risky
            } else if matches!(
                preferences.event_location_classification,
                RiskClassification::Unsafe,
            ) {
                RiskClassification::Unsafe
            } else {
                RiskClassification::Safe
            }
        },
        HumanPresenceCategory::Dense => {
            if matches!(preferences.densely_crowded_classification, RiskClassification::Risky) {
                RiskClassification::Risky
            } else if matches!(
                preferences.densely_crowded_classification,
                RiskClassification::Unsafe,
            ) {
                RiskClassification::Unsafe
            } else {
                RiskClassification::Safe
            }
        },
        _ => RiskClassification::Safe,
    };
    let overall = surface.combine(headroom).combine(humans);
    RiskAssessment { overall, surface, headroom, humans }
}

/// The composition order for reachability polygons: each risk group,
/// ascending, together with the groups that must be subtracted from it so
/// that higher-risk regions never overlap lower-risk ones on the map.
pub fn composition_plan() -> (r: Vec<(RiskClassification, Vec<RiskClassification>)>)
    ensures
        r@.len() == 3,
        r@[0].0 == RiskClassification::Safe && r@[0].1@ =~= Seq::<RiskClassification>::empty(),
        r@[1].0 == RiskClassification::Risky && r@[1].1@ =~= seq![RiskClassification::Safe],
        r@[2].0 == RiskClassification::Unsafe && r@[2].1@ =~= seq![
            RiskClassification::Safe,
            RiskClassification::Risky,
        ],
{
    let mut risky_minus: Vec<RiskClassification> = Vec::new();
    risky_minus.push(RiskClassification::Safe);
    let mut unsafe_minus: Vec<RiskClassification> = Vec::new();
    unsafe_minus.push(RiskClassification::Safe);
    unsafe_minus.push(RiskClassification::Risky);
    let mut plan: Vec<(RiskClassification, Vec<RiskClassification>)> = Vec::new();
    plan.push((RiskClassification::Safe, Vec::new()));
    plan.push((RiskClassification::Risky, risky_minus));
    plan.push((RiskClassification::Unsafe, unsafe_minus));
    plan
}

/// After composition in ascending risk order, the three regions are
/// pairwise disjoint: the risky region loses the safe one, and the unsafe
/// region loses both lower-risk regions as they were before composition,
/// whatever point sets the three groups cover.
pub proof fn lemma_risk_composition_disjoint<A>(safe: Set<A>, risky: Set<A>, uns: Set<A>)
    ensures
        safe.intersect(risky.difference(safe)) =~= Set::<A>::empty(),
        safe.intersect(uns.difference(safe).difference(risky)) =~= Set::<A>::empty(),
        (risky.difference(safe)).intersect(uns.difference(safe).difference(risky)) =~= Set::<
            A,
        >::empty(),
{
}

/// The point a given distance out along a ray.
pub open spec fn spec_ray_point(origin: Point, ray: int, d: int) -> Point {
    spec_point_plus(
        origin,
        Point {
            x: spec_mul(d, cos_bits(ray)) as i64,
            y: spec_mul(d, sin_bits(ray)) as i64,
        },
    )
}

/// The point a given distance out along a ray.
fn ray_point(origin: Point, ray: i64, d: i64) -> (r: Point)
    requires
        -16 * (FX_TWO_PI as int) <= ray as int <= 16 * (FX_TWO_PI as int),
    ensures
        r == spec_ray_point(origin, ray as int, d as int),
{
    origin.plus(Point { x: fx_mul(d, fx_cos(ray)), y: fx_mul(d, fx_sin(ray)) })
}

/// Whether, from a position at one start heading (whole degrees), some
/// Dubins candidate into the origin (approached along +y) fits the height
/// budget.
pub open spec fn spec_heading_ok(
    g: GlidePerformance,
    bank: i64,
    pos: Point,
    radius: i64,
    altitude: i64,
    alpha_deg: int,
) -> bool {
    let heading = spec_deg_to_rad(spec_scaled(alpha_deg, 1, 1));
    let s = DirectedPoint {
        point: pos,
        angle: crate::trig::spec_normalize_angle(heading) as i64,
    };
    let e = DirectedPoint {
        point: Point { x: 0, y: 0 },
        angle: crate::trig::spec_normalize_angle(FX_HALF_PI as int) as i64,
    };
    let cands = spec_dubin_candidates(s, e, radius);
    exists|k: int|
        0 <= k < cands.len() && crate::aircraft::spec_height_over_path(g, cands[k], bank as int)
            <= altitude as int
}

/// Whether a position is reachable under the worst-case start heading:
/// every heading, sampled at whole degrees, must offer a candidate within
/// the height budget.
pub open spec fn spec_position_reachable(
    g: GlidePerformance,
    bank: i64,
    pos: Point,
    radius: i64,
    altitude: i64,
) -> bool {
    forall|alpha: int| 0 <= alpha < 360 ==> spec_heading_ok(g, bank, pos, radius, altitude, alpha)
}

fn exists_path_within(
    g: &GlidePerformance,
    bank: i64,
    cands: &Vec<DubinPath>,
    altitude: i64,
) -> (r: bool)
    requires
        spec_glide_wf(*g),
        -(FX_TWO_PI as int) <= bank as int <= FX_TWO_PI as int,
    ensures
        r == exists|k: int|
            0 <= k < cands@.len() && crate::aircraft::spec_height_over_path(
                *g,
                cands@[k],
                bank as int,
            ) <= altitude as int,
{
    let mut k: usize = 0;
    while k < cands.len()
        invariant
            spec_glide_wf(*g),
            -(FX_TWO_PI as int) <= bank as int <= FX_TWO_PI as int,
            k <= cands@.len(),
            forall|j: int|
                0 <= j < k as int ==> crate::aircraft::spec_height_over_path(
                    *g,
                    cands@[j],
                    bank as int,
                ) > altitude as int,
        decreases cands@.len() - k as int,
    {
        let h = g.height_loss_over_geometric_path(&cands[k], bank);
        if h <= altitude {
            return true;
        }
        k = k + 1;
    }
    false
}

/// Tests worst-case reachability of a position by scanning every whole
/// degree of start heading.
pub fn position_reachable(
    g: &GlidePerformance,
    bank: i64,
    pos: Point,
    radius: i64,
    altitude: i64,
) -> (r: bool)
    requires
        spec_glide_wf(*g),
        -(FX_TWO_PI as int) <= bank as int <= FX_TWO_PI as int,
    ensures
        r == spec_position_reachable(*g, bank, pos, radius, altitude),
{
    let mut alpha: u64 = 0;
    while alpha < 360
        invariant
            spec_glide_wf(*g),
            -(FX_TWO_PI as int) <= bank as int <= FX_TWO_PI as int,
            alpha <= 360,
            forall|a: int|
                0 <= a < alpha as int ==> spec_heading_ok(*g, bank, pos, radius, altitude, a),
        decreases 360 - alpha,
    {
        let heading = deg_to_rad(scaled(alpha, 1, 1));
        let cands = calculate_dubin_path_candidates(
            pos,
            Point { x: 0, y: 0 },
            heading,
            FX_HALF_PI,
            radius,
        );
        let ok = exists_path_within(g, bank, &cands, altitude);
        if !ok {
            proof {
                assert(!spec_heading_ok(*g, bank, pos, radius, altitude, alpha as int));
            }
            return false;
        }
        alpha = alpha + 1;
    }
    true
}

/// The distance the binary search settles on: it halves the interval
/// toward the far edge of reachability until it is narrower than the
/// precision, then takes the middle.
pub open spec fn spec_range_search(
    g: GlidePerformance,
    bank: i64,
    ray_origin: Point,
    ray: i64,
    radius: i64,
    altitude: i64,
    eps: i64,
    low: int,
    high: int,
) -> int
    decreases high - low,
{
    if eps < 2 || high - low < eps {
        low + (high - low) / 2
    } else {
        let mid = low + (high - low) / 2;
        if spec_position_reachable(
            g,
            bank,
            spec_ray_point(ray_origin, ray as int, mid),
            radius,
            altitude,
        ) {
            spec_range_search(g, bank, ray_origin, ray, radius, altitude, eps, mid, high)
        } else {
            spec_range_search(g, bank, ray_origin, ray, radius, altitude, eps, low, mid)
        }
    }
}

/// Binary search along a ray for the farthest worst-case-reachable
/// distance, to the given precision.
fn range_search(
    g: &GlidePerformance,
    bank: i64,
    ray_origin: Point,
    ray: i64,
    radius: i64,
    altitude: i64,
    eps: i64,
    low0: i64,
    high0: i64,
) -> (r: i64)
    requires
        spec_glide_wf(*g),
        -(FX_TWO_PI as int) <= bank as int <= FX_TWO_PI as int,
        -16 * (FX_TWO_PI as int) <= ray as int <= 16 * (FX_TWO_PI as int),
        eps >= 2,
        0 <= low0 <= high0,
    ensures
        r as int == spec_range_search(
            *g,
            bank,
            ray_origin,
            ray,
            radius,
            altitude,
            eps,
            low0 as int,
            high0 as int,
        ),
{
    let mut low = low0;
    let mut high = high0;
    while high - low >= eps
        invariant
            spec_glide_wf(*g),
            -(FX_TWO_PI as int) <= bank as int <= FX_TWO_PI as int,
            -16 * (FX_TWO_PI as int) <= ray as int <= 16 * (FX_TWO_PI as int),
            eps >= 2,
            0 <= low <= high,
            spec_range_search(
                *g,
                bank,
                ray_origin,
                ray,
                radius,
                altitude,
                eps,
                low as int,
                high as int,
            ) == spec_range_search(
                *g,
                bank,
                ray_origin,
                ray,
                radius,
                altitude,
                eps,
                low0 as int,
                high0 as int,
            ),
        decreases high - low,
    {
        let span = (high - low) as u64;
        let mid = low + ((span / 2) as i64);
        let target = ray_point(ray_origin, ray, mid);
        if position_reachable(g, bank, target, radius, altitude) {
            low = mid;
        } else {
            high = mid;
        }
    }
    let span = (high - low) as u64;
    low + ((span / 2) as i64)
}

/// The worst-case reachable positions of an aircraft around a single
/// landing endpoint, one per ray: the far edge of reachability along rays
/// swept every ten degrees over the approach-side half circle.
pub struct AircraftRangeProfile(pub Vec<Point>);

/// The ray angle of a profile slot: minus ten degrees per slot, in
/// fixed-point radians.
pub open spec fn spec_profile_angle(i: int) -> int {
    spec_deg_to_rad(spec_neg(spec_scaled(i * 10, 1, 1)))
}

/// The origin of a profile ray: the point of the right-hand approach
/// circle (centered one turn radius to the -x side of the landing point)
/// at the slot's ray angle.
pub open spec fn spec_profile_ray_origin(radius: int, i: int) -> Point {
    spec_point_plus(
        Point { x: spec_neg(radius) as i64, y: 0 },
        Point {
            x: spec_mul(radius, cos_bits(spec_profile_angle(i))) as i64,
            y: spec_mul(radius, sin_bits(spec_profile_angle(i))) as i64,
        },
    )
}

/// One slot of the aircraft range profile: the binary-searched farthest
/// worst-case-reachable point along the slot's ray, which points a quarter
/// turn clockwise of the slot angle.
pub open spec fn spec_profile_point(
    g: GlidePerformance,
    bank: i64,
    eps: i64,
    altitude: i64,
    i: int,
) -> Point {
    let maximum_range = spec_mul(spec_mul(spec_glide_ratio(g), altitude as int), FX_TWO as int);
    let radius = spec_turn_radius(g, bank as int);
    let angle = spec_profile_angle(i);
    let ray_origin = spec_profile_ray_origin(radius, i);
    let ray = spec_sub(angle, FX_HALF_PI as int);
    let d = spec_range_search(
        g,
        bank,
        ray_origin,
        ray as i64,
        radius as i64,
        altitude,
        eps,
        0,
        maximum_range,
    );
    spec_ray_point(ray_origin, ray, d)
}

/// Computes the aircraft range profile at an altitude: for each of the 18
/// rays, the farthest point from which the landing origin stays reachable
/// under the worst-case heading within the altitude budget.
pub fn aircraft_range_profile(
    preferences: &Preferences,
    aircraft: &Aircraft,
    altitude: i64,
) -> (r: AircraftRangeProfile)
    requires
        spec_preferences_wf(*preferences),
        crate::aircraft::spec_aircraft_wf(*aircraft),
        altitude >= 0,
    ensures
        r.0@.len() == 18,
        forall|i: int|
            0 <= i < 18 ==> r.0@[i] == spec_profile_point(
                aircraft.glide,
                preferences.bank,
                preferences.epsilon,
                altitude,
                i,
            ),
{
    let g = &aircraft.glide;
    let maximum_range = fx_mul(fx_mul(g.ratio(), altitude), FX_TWO);
    proof {
        crate::fx::lemma_spec_mul_nonneg(spec_glide_ratio(aircraft.glide), altitude as int);
        crate::fx::lemma_spec_mul_nonneg(
            spec_mul(spec_glide_ratio(aircraft.glide), altitude as int),
            FX_TWO as int,
        );
    }
    let radius = g.turn_radius(preferences.bank);
    let circle_origin = Point { x: fx_neg(radius), y: 0 };
    let mut points: Vec<Point> = Vec::new();
    let mut i: u64 = 0;
    while i < 18
        invariant
            spec_preferences_wf(*preferences),
            crate::aircraft::spec_aircraft_wf(*aircraft),
            altitude >= 0,
            i <= 18,
            g == aircraft.glide,
            maximum_range as int == spec_mul(
                spec_mul(spec_glide_ratio(aircraft.glide), altitude as int),
                FX_TWO as int,
            ),
            maximum_range >= 0,
            radius as int == spec_turn_radius(aircraft.glide, preferences.bank as int),
            circle_origin == (Point { x: spec_neg(radius as int) as i64, y: 0 }),
            points@.len() == i as int,
            forall|j: int|
                0 <= j < i as int ==> points@[j] == spec_profile_point(
                    aircraft.glide,
                    preferences.bank,
                    preferences.epsilon,
                    altitude,
                    j,
                ),
        decreases 18 - i,
    {
        let angle = deg_to_rad(fx_neg(scaled(i * 10, 1, 1)));
        proof {
            lemma_profile_angle_small(i as int);
        }
        let ray_origin = circle_origin.plus(
            Point { x: fx_mul(radius, fx_cos(angle)), y: fx_mul(radius, fx_sin(angle)) },
        );
        let ray = fx_sub(angle, FX_HALF_PI);
        let d = range_search(
            g,
            preferences.bank,
            ray_origin,
            ray,
            radius,
            altitude,
            preferences.epsilon,
            0,
            maximum_range,
        );
        let p = ray_point(ray_origin, ray, d);
        points.push(p);
        i = i + 1;
    }
    AircraftRangeProfile(points)
}

/// The profile slot angles and rays stay well inside the trigonometric
/// wrappers' working range.
proof fn lemma_profile_angle_small(i: int)
    requires
        0 <= i < 18,
    ensures
        -8 * (FX_TWO_PI as int) <= spec_profile_angle(i) <= 8 * (FX_TWO_PI as int),
        -16 * (FX_TWO_PI as int) <= spec_sub(spec_profile_angle(i), FX_HALF_PI as int) <= 16 * (
        FX_TWO_PI as int),
{
    crate::geographic::lemma_rad_small(spec_neg(spec_scaled(i * 10, 1, 1)));
}

/// The range profile transferred to one site: the worst-case reachable
/// points around its landing run.
pub struct LocationRangeProfile(pub Vec<Point>);

/// One slot of a site's range profile. The approach-end half (slots 0-8)
/// is the aircraft profile as is. The far half (slots 9-17) is the
/// mirrored aircraft profile shifted along the run by the landable inset
/// for one-way sites, and the flipped near half shifted by the full run
/// length for reversible ones.
pub open spec fn spec_site_profile_point(
    l: Location,
    a: Aircraft,
    profile: Seq<Point>,
    i: int,
) -> Point {
    if 0 <= i < 9 {
        profile[i]
    } else {
        if !l.reversible {
            let p = profile[i];
            Point { x: p.x, y: spec_add(p.y as int, crate::location::spec_inset(l, a)) as i64 }
        } else {
            let p = profile[17 - i];
            Point {
                x: p.x,
                y: spec_add(spec_neg(p.y as int), crate::location::spec_length(l)) as i64,
            }
        }
    }
}

/// Builds a site's range profile from the aircraft range profile.
pub fn location_range_profile(
    location: &Location,
    aircraft: &Aircraft,
    aircraft_range_profile: &AircraftRangeProfile,
) -> (r: LocationRangeProfile)
    requires
        spec_location_wf(*location),
        aircraft_range_profile.0@.len() == 18,
    ensures
        r.0@.len() == 18,
        forall|i: int|
            0 <= i < 18 ==> r.0@[i] == spec_site_profile_point(
                *location,
                *aircraft,
                aircraft_range_profile.0@,
                i,
            ),
{
    let inset = location.inset(aircraft);
    let length = location.length();
    let mut points: Vec<Point> = Vec::new();
    let mut i: usize = 0;
    while i < 9
        invariant
            aircraft_range_profile.0@.len() == 18,
            i <= 9,
            points@.len() == i as int,
            forall|j: int| 0 <= j < i as int ==> points@[j] == aircraft_range_profile.0@[j],
        decreases 9 - i,
    {
        points.push(aircraft_range_profile.0[i]);
        i = i + 1;
    }
    let mut k: usize = 9;
    while k < 18
        invariant
            spec_location_wf(*location),
            aircraft_range_profile.0@.len() == 18,
            9 <= k <= 18,
            inset as int == crate::location::spec_inset(*location, *aircraft),
            length as int == crate::location::spec_length(*location),
            points@.len() == k as int,
            forall|j: int|
                0 <= j < k as int ==> points@[j] == spec_site_profile_point(
                    *location,
                    *aircraft,
                    aircraft_range_profile.0@,
                    j,
                ),
        decreases 18 - k,
    {
        if !location.reversible {
            let p = aircraft_range_profile.0[k];
            points.push(Point { x: p.x, y: fx_add(p.y, inset) });
        } else {
            let p = aircraft_range_profile.0[17 - k];
            points.push(Point { x: p.x, y: fx_add(fx_neg(p.y), length) });
        }
        k = k + 1;
    }
    LocationRangeProfile(points)
}

/// One vertex of a site's full range polygon, before georeferencing: the
/// 36 vertices are the 18 profile slots followed by their mirror images
/// across the y axis in reverse slot order.
pub open spec fn spec_polygon_planar_vertex(site: Seq<Point>, j: int) -> Point {
    if 0 <= j < 18 {
        site[j]
    } else {
        let p = site[35 - j];
        Point { x: spec_neg(p.x as int) as i64, y: p.y }
    }
}

/// A planar point rotated counterclockwise about the origin by an angle.
pub open spec fn spec_rotate(p: Point, theta: int) -> Point {
    Point {
        x: spec_sub(spec_mul(p.x as int, cos_bits(theta)), spec_mul(p.y as int, sin_bits(theta)))
            as i64,
        y: spec_add(spec_mul(p.x as int, sin_bits(theta)), spec_mul(p.y as int, cos_bits(theta)))
            as i64,
    }
}

/// One geographic vertex of a site's range polygon: the planar vertex
/// rotated by the site bearing, then laid out from the site start by its
/// planar polar coordinates.
pub open spec fn spec_polygon_vertex(l: Location, site: Seq<Point>, j: int) -> GeoPoint {
    let rotated = spec_rotate(
        spec_polygon_planar_vertex(site, j),
        spec_deg_to_rad(crate::geographic::spec_bearing(l.start, l.end)),
    );
    let out_bearing = spec_sub(
        crate::geographic::spec_rad_to_deg(
            crate::trig::spec_atan2(rotated.y as int, rotated.x as int),
        ),
        crate::geographic::FX_DEG_90 as int,
    );
    let distance = crate::fx::spec_hypot(rotated.x as int, rotated.y as int);
    crate::geographic::spec_haversine_destination(l.start, out_bearing, distance)
}

/// Builds the 36-vertex geographic range polygon of a site from its range
/// profile: the profile and its mirror image, rotated to the site bearing
/// and georeferenced from the site start.
pub fn location_range_polygon(
    location: &Location,
    aircraft: &Aircraft,
    aircraft_range_profile: &AircraftRangeProfile,
) -> (r: Vec<GeoPoint>)
    requires
        spec_location_wf(*location),
        aircraft_range_profile.0@.len() == 18,
    ensures
        r@.len() == 36,
        forall|j: int|
            0 <= j < 36 ==> r@[j] == spec_polygon_vertex(
                *location,
                Seq::new(18, |i: int| spec_site_profile_point(
                    *location,
                    *aircraft,
                    aircraft_range_profile.0@,
                    i,
                )),
                j,
            ),
{
    let profile = location_range_profile(location, aircraft, aircraft_range_profile);
    let ghost site = Seq::new(18, |i: int| spec_site_profile_point(
        *location,
        *aircraft,
        aircraft_range_profile.0@,
        i,
    ));
    proof {
        assert(profile.0@ =~= site);
    }
    let b = location.bearing();
    proof {
        crate::geographic::lemma_rad_small(b as int);
    }
    let theta = deg_to_rad(b);
    let ct = fx_cos(theta);
    let st = fx_sin(theta);
    let mut out: Vec<GeoPoint> = Vec::new();
    let mut j: usize = 0;
    while j < 36
        invariant
            spec_location_wf(*location),
            profile.0@ == site,
            site.len() == 18,
            j <= 36,
            b as int == crate::geographic::spec_bearing(location.start, location.end),
            iabs(b as int) <= crate::geographic::FX_DEG_360 as int,
            theta as int == spec_deg_to_rad(b as int),
            ct as int == cos_bits(theta as int),
            st as int == sin_bits(theta as int),
            out@.len() == j as int,
            forall|m: int| 0 <= m < j as int ==> out@[m] == spec_polygon_vertex(*location, site, m),
        decreases 36 - j,
    {
        let p: Point = if j < 18 {
            profile.0[j]
        } else {
            let q = profile.0[35 - j];
            Point { x: fx_neg(q.x), y: q.y }
        };
        let rx = fx_sub(fx_mul(p.x, ct), fx_mul(p.y, st));
        let ry = fx_add(fx_mul(p.x, st), fx_mul(p.y, ct));
        let a = crate::trig::fx_atan2(ry, rx);
        let out_bearing = fx_sub(crate::geographic::rad_to_deg(a), crate::geographic::FX_DEG_90);
        proof {
            crate::geographic::lemma_deg_of_angle_bounded(a as int);
        }
        let distance = crate::fx::fx_hypot(rx, ry);
        let v = crate::geographic::haversine_destination(&location.start, out_bearing, distance);
        out.push(v);
        j = j + 1;
    }
    out
}

/// For a reversible site whose values stay clear of the saturation range,
/// the site range profile is symmetric about the perpendicular bisector of
/// its run: slot 17-i mirrors slot i across the line halfway along the
/// run, before the final bearing rotation.
pub proof fn lemma_reversible_profile_symmetry(l: Location, a: Aircraft, profile: Seq<Point>)
    requires
        l.reversible,
        profile.len() == 18,
        forall|i: int| 0 <= i < 18 ==> iabs((#[trigger] profile[i]).y as int) < 0x2000_0000_0000_0000,
        iabs(crate::location::spec_length(l)) < 0x2000_0000_0000_0000,
    ensures
        forall|i: int|
            0 <= i < 18 ==> #[trigger] spec_site_profile_point(l, a, profile, 17 - i)
                == (Point {
                x: spec_site_profile_point(l, a, profile, i).x,
                y: (crate::location::spec_length(l) - spec_site_profile_point(
                    l,
                    a,
                    profile,
                    i,
                ).y as int) as i64,
            }),
{
    assert forall|i: int| 0 <= i < 18 implies #[trigger] spec_site_profile_point(
        l,
        a,
        profile,
        17 - i,
    ) == (Point {
        x: spec_site_profile_point(l, a, profile, i).x,
        y: (crate::location::spec_length(l) - spec_site_profile_point(l, a, profile, i).y as int)
            as i64,
    }) by {
        let length = crate::location::spec_length(l);
        if i < 9 {
            assert(spec_site_profile_point(l, a, profile, 17 - i) == (Point {
                x: profile[i].x,
                y: spec_add(spec_neg(profile[i].y as int), length) as i64,
            }));
        } else {
            assert(spec_site_profile_point(l, a, profile, i) == (Point {
                x: profile[17 - i].x,
                y: spec_add(spec_neg(profile[17 - i].y as int), length) as i64,
            }));
        }
    }
}

/// One ranked landing option: the index of the site in the catalog, the
/// flown path, and the height it consumes.
#[derive(Clone, Copy, PartialEq, Eq, Structural, Debug)]
pub struct LandingOption {
    pub location_index: usize,
    pub path: crate::geographic::GeographicDubinPath,
    pub height_loss: i64,
}

/// Height lost over a georeferenced path: each arc costs a turn through
/// its angle at the bank, the straight costs its great-circle ground
/// track.
pub open spec fn spec_height_over_geographic_path(
    g: GlidePerformance,
    p: crate::geographic::GeographicDubinPath,
    bank: int,
) -> int {
    match p {
        crate::geographic::GeographicDubinPath::CSC(a1, t, a2) => spec_add(
            spec_add(
                spec_height_in_turn(g, a1.theta as int, bank),
                spec_height_for_track(g, crate::geographic::spec_haversine_distance(t.start, t.end)),
            ),
            spec_height_in_turn(g, a2.theta as int, bank),
        ),
        crate::geographic::GeographicDubinPath::CCC(a1, a2, a3) => spec_add(
            spec_add(
                spec_height_in_turn(g, a1.theta as int, bank),
                spec_height_in_turn(g, a2.theta as int, bank),
            ),
            spec_height_in_turn(g, a3.theta as int, bank),
        ),
    }
}

/// Height lost over a georeferenced path at a bank.
pub fn height_loss_over_geographic_path(
    g: &GlidePerformance,
    path: &crate::geographic::GeographicDubinPath,
    bank: i64,
) -> (r: i64)
    requires
        spec_glide_wf(*g),
        -(FX_TWO_PI as int) <= bank as int <= FX_TWO_PI as int,
        spec_geographic_path_wf(*path),
    ensures
        r as int == spec_height_over_geographic_path(*g, *path, bank as int),
{
    match path {
        crate::geographic::GeographicDubinPath::CSC(a1, t, a2) => fx_add(
            fx_add(
                g.height_lost_in_turn(a1.theta, bank),
                g.height_lost_for_ground_track(t.length()),
            ),
            g.height_lost_in_turn(a2.theta, bank),
        ),
        crate::geographic::GeographicDubinPath::CCC(a1, a2, a3) => fx_add(
            fx_add(
                g.height_lost_in_turn(a1.theta, bank),
                g.height_lost_in_turn(a2.theta, bank),
            ),
            g.height_lost_in_turn(a3.theta, bank),
        ),
    }
}

/// A georeferenced path is well-formed when all its geographic points
/// carry valid coordinates.
pub open spec fn spec_geographic_path_wf(p: crate::geographic::GeographicDubinPath) -> bool {
    match p {
        crate::geographic::GeographicDubinPath::CSC(a1, t, a2) => spec_geo_wf(t.start)
            && spec_geo_wf(t.end),
        crate::geographic::GeographicDubinPath::CCC(a1, a2, a3) => true,
    }
}

/// The candidate paths from an aircraft state to one touchdown candidate
/// of a site.
pub open spec fn spec_site_cands(
    position: GeoPoint,
    heading_deg: i64,
    radius: i64,
    l: Location,
    a: Aircraft,
    resolution: i64,
    j: int,
) -> Seq<crate::geographic::GeographicDubinPath> {
    let lp = crate::location::spec_landable_points(l, a, resolution);
    crate::geographic::spec_georef_candidates(
        position,
        lp[j].0,
        heading_deg as int,
        lp[j].1 as int,
        radius,
    )
}

/// Whether a path is one of the candidates from the aircraft state to
/// some touchdown candidate of the site.
pub open spec fn spec_is_site_candidate(
    position: GeoPoint,
    heading_deg: i64,
    radius: i64,
    l: Location,
    a: Aircraft,
    resolution: i64,
    path: crate::geographic::GeographicDubinPath,
) -> bool {
    exists|j: int, k: int|
        0 <= j < crate::location::spec_landable_points(l, a, resolution).len() && 0 <= k
            < spec_site_cands(position, heading_deg, radius, l, a, resolution, j).len() && path
            == spec_site_cands(position, heading_deg, radius, l, a, resolution, j)[k]
}

/// Whether some candidate to the site fits strictly inside the altitude
/// budget.
pub open spec fn spec_site_reachable(
    g: GlidePerformance,
    bank: i64,
    altitude: i64,
    position: GeoPoint,
    heading_deg: i64,
    radius: i64,
    l: Location,
    a: Aircraft,
    resolution: i64,
) -> bool {
    exists|j: int, k: int|
        0 <= j < crate::location::spec_landable_points(l, a, resolution).len() && 0 <= k
            < spec_site_cands(position, heading_deg, radius, l, a, resolution, j).len()
            && spec_height_over_geographic_path(
            g,
            spec_site_cands(position, heading_deg, radius, l, a, resolution, j)[k],
            bank as int,
        ) < altitude as int
}

/// Whether a height beats (or ties) every candidate to the site that fits
/// the altitude budget.
pub open spec fn spec_beats_site(
    g: GlidePerformance,
    bank: i64,
    altitude: i64,
    position: GeoPoint,
    heading_deg: i64,
    radius: i64,
    l: Location,
    a: Aircraft,
    resolution: i64,
    h: int,
) -> bool {
    forall|j: int, k: int|
        0 <= j < crate::location::spec_landable_points(l, a, resolution).len() && 0 <= k
            < spec_site_cands(position, heading_deg, radius, l, a, resolution, j).len()
            ==> spec_height_over_geographic_path(
            g,
            #[trigger] spec_site_cands(position, heading_deg, radius, l, a, resolution, j)[k],
            bank as int,
        ) >= h || spec_height_over_geographic_path(
            g,
            spec_site_cands(position, heading_deg, radius, l, a, resolution, j)[k],
            bank as int,
        ) >= altitude as int
}

/// The best landing option a site offers for the current aircraft state:
/// among all candidates to all its touchdown points, the one of least
/// height loss strictly inside the altitude budget; none when every
/// candidate costs at least the whole altitude.
pub fn best_landing_option_for_site(
    preferences: &Preferences,
    position: GeoPoint,
    heading_deg: i64,
    altitude: i64,
    aircraft: &Aircraft,
    location: &Location,
    resolution: i64,
) -> (r: Option<(crate::geographic::GeographicDubinPath, i64)>)
    requires
        spec_preferences_wf(*preferences),
        crate::aircraft::spec_aircraft_wf(*aircraft),
        spec_geo_wf(position),
        spec_location_wf(*location),
        resolution > 0,
    ensures
        ({
            let radius = spec_turn_radius(aircraft.glide, preferences.bank as int) as i64;
            match r {
                Option::Some((path, h)) => {
                    &&& spec_is_site_candidate(
                        position,
                        heading_deg,
                        radius,
                        *location,
                        *aircraft,
                        resolution,
                        path,
                    )
                    &&& h as int == spec_height_over_geographic_path(
                        aircraft.glide,
                        path,
                        preferences.bank as int,
                    )
                    &&& (h as int) < altitude as int
                    &&& spec_beats_site(
                        aircraft.glide,
                        preferences.bank,
                        altitude,
                        position,
                        heading_deg,
                        radius,
                        *location,
                        *aircraft,
                        resolution,
                        h as int,
                    )
                    &&& spec_site_reachable(
                        aircraft.glide,
                        preferences.bank,
                        altitude,
                        position,
                        heading_deg,
                        radius,
                        *location,
                        *aircraft,
                        resolution,
                    )
                },
                Option::None => !spec_site_reachable(
                    aircraft.glide,
                    preferences.bank,
                    altitude,
                    position,
                    heading_deg,
                    radius,
                    *location,
                    *aircraft,
                    resolution,
                ),
            }
        }),
{
    let radius = aircraft.glide.turn_radius(preferences.bank);
    let lp = location.landable_points(aircraft, resolution);
    let mut best: Option<(crate::geographic::GeographicDubinPath, i64)> = Option::None;
    let mut j: usize = 0;
    while j < lp.len()
        invariant
            spec_preferences_wf(*preferences),
            crate::aircraft::spec_aircraft_wf(*aircraft),
            spec_geo_wf(position),
            spec_location_wf(*location),
            resolution > 0,
            radius as int == spec_turn_radius(aircraft.glide, preferences.bank as int),
            lp@ == crate::location::spec_landable_points(*location, *aircraft, resolution),
            forall|m: int| 0 <= m < lp@.len() ==> spec_geo_wf((#[trigger] lp@[m]).0),
            j <= lp@.len(),
            match best {
                Option::Some((path, h)) => {
                    &&& spec_is_site_candidate(
                        position,
                        heading_deg,
                        radius,
                        *location,
                        *aircraft,
                        resolution,
                        path,
                    )
                    &&& h as int == spec_height_over_geographic_path(
                        aircraft.glide,
                        path,
                        preferences.bank as int,
                    )
                    &&& (h as int) < altitude as int
                    &&& forall|j2: int, k2: int|
                        0 <= j2 < j as int && 0 <= k2 < spec_site_cands(
                            position,
                            heading_deg,
                            radius,
                            *location,
                            *aircraft,
                            resolution,
                            j2,
                        ).len() ==> spec_height_over_geographic_path(
                            aircraft.glide,
                            #[trigger] spec_site_cands(
                                position,
                                heading_deg,
                                radius,
                                *location,
                                *aircraft,
                                resolution,
                                j2,
                            )[k2],
                            preferences.bank as int,
                        ) >= h as int || spec_height_over_geographic_path(
                            aircraft.glide,
                            spec_site_cands(
                                position,
                                heading_deg,
                                radius,
                                *location,
                                *aircraft,
                                resolution,
                                j2,
                            )[k2],
                            preferences.bank as int,
                        ) >= altitude as int
                },
                Option::None => forall|j2: int, k2: int|
                    0 <= j2 < j as int && 0 <= k2 < spec_site_cands(
                        position,
                        heading_deg,
                        radius,
                        *location,
                        *aircraft,
                        resolution,
                        j2,
                    ).len() ==> spec_height_over_geographic_path(
                        aircraft.glide,
                        #[trigger] spec_site_cands(
                            position,
                            heading_deg,
                            radius,
                            *location,
                            *aircraft,
                            resolution,
                            j2,
                        )[k2],
                        preferences.bank as int,
                    ) >= altitude as int,
            },
        decreases lp@.len() - j as int,
    {
        let (target, target_bearing) = lp[j];
        let cands = crate::geographic::calculate_georeferenced_dubin_path_candidates(
            position,
            target,
            heading_deg,
            target_bearing,
            radius,
        );
        proof {
            assert(cands@ == spec_site_cands(
                position,
                heading_deg,
                radius,
                *location,
                *aircraft,
                resolution,
                j as int,
            ));
        }
        let mut k: usize = 0;
        while k < cands.len()
            invariant
                spec_preferences_wf(*preferences),
                crate::aircraft::spec_aircraft_wf(*aircraft),
                spec_geo_wf(position),
                spec_location_wf(*location),
                resolution > 0,
                radius as int == spec_turn_radius(aircraft.glide, preferences.bank as int),
                lp@ == crate::location::spec_landable_points(*location, *aircraft, resolution),
                j < lp@.len(),
                spec_geo_wf(lp@[j as int].0),
                cands@ == spec_site_cands(
                    position,
                    heading_deg,
                    radius,
                    *location,
                    *aircraft,
                    resolution,
                    j as int,
                ),
                k <= cands@.len(),
                match best {
                    Option::Some((path, h)) => {
                        &&& spec_is_site_candidate(
                            position,
                            heading_deg,
                            radius,
                            *location,
                            *aircraft,
                            resolution,
                            path,
                        )
                        &&& h as int == spec_height_over_geographic_path(
                            aircraft.glide,
                            path,
                            preferences.bank as int,
                        )
                        &&& (h as int) < altitude as int
                        &&& forall|j2: int, k2: int|
                            (0 <= j2 < j as int && 0 <= k2 < spec_site_cands(
                                position,
                                heading_deg,
                                radius,
                                *location,
                                *aircraft,
                                resolution,
                                j2,
                            ).len()) || (j2 == j as int && 0 <= k2 < k as int)
                                ==> spec_height_over_geographic_path(
                                aircraft.glide,
                                #[trigger] spec_site_cands(
                                    position,
                                    heading_deg,
                                    radius,
                                    *location,
                                    *aircraft,
                                    resolution,
                                    j2,
                                )[k2],
                                preferences.bank as int,
                            ) >= h as int || spec_height_over_geographic_path(
                                aircraft.glide,
                                spec_site_cands(
                                    position,
                                    heading_deg,
                                    radius,
                                    *location,
                                    *aircraft,
                                    resolution,
                                    j2,
                                )[k2],
                                preferences.bank as int,
                            ) >= altitude as int
                    },
                    Option::None => forall|j2: int, k2: int|
                        (0 <= j2 < j as int && 0 <= k2 < spec_site_cands(
                            position,
                            heading_deg,
                            radius,
                            *location,
                            *aircraft,
                            resolution,
                            j2,
                        ).len()) || (j2 == j as int && 0 <= k2 < k as int)
                            ==> spec_height_over_geographic_path(
                            aircraft.glide,
                            #[trigger] spec_site_cands(
                                position,
                                heading_deg,
                                radius,
                                *location,
                                *aircraft,
                                resolution,
                                j2,
                            )[k2],
                            preferences.bank as int,
                        ) >= altitude as int,
                },
            decreases cands@.len() - k as int,
        {
            let path = cands[k];
            proof {
                lemma_candidate_path_wf(position, lp@[j as int].0, heading_deg as int,
                    lp@[j as int].1 as int, radius, k as int);
            }
            let h = height_loss_over_geographic_path(&aircraft.glide, &path, preferences.bank);
            let replace: bool = if h < altitude {
                match &best {
                    Option::Some((_, bh)) => h <= *bh,
                    Option::None => true,
                }
            } else {
                false
            };
            if replace {
                best = Option::Some((path, h));
            }
            k = k + 1;
        }
        j = j + 1;
    }
    best
}

/// Every georeferenced candidate is a well-formed geographic path: its
/// tangent endpoints carry valid coordinates.
proof fn lemma_candidate_path_wf(
    position: GeoPoint,
    target: GeoPoint,
    heading_deg: int,
    target_bearing: int,
    radius: i64,
    k: int,
)
    requires
        spec_geo_wf(target),
        0 <= k < crate::geographic::spec_georef_candidates(
            position,
            target,
            heading_deg,
            target_bearing,
            radius,
        ).len(),
    ensures
        spec_geographic_path_wf(
            crate::geographic::spec_georef_candidates(
                position,
                target,
                heading_deg,
                target_bearing,
                radius,
            )[k],
        ),
{
    reveal(crate::geographic::spec_georef_candidates);
    let gs = crate::geographic::spec_relative_position(position, target);
    let sa = crate::trig::spec_normalize_angle(
        crate::geographic::spec_bearing_to_angle(heading_deg),
    );
    let ea = crate::trig::spec_normalize_angle(
        crate::geographic::spec_bearing_to_angle(target_bearing),
    );
    let planar = spec_dubin_candidates(
        DirectedPoint { point: gs, angle: sa as i64 },
        DirectedPoint { point: Point { x: 0, y: 0 }, angle: ea as i64 },
        radius,
    );
    let p = crate::geographic::spec_georef_candidates(
        position,
        target,
        heading_deg,
        target_bearing,
        radius,
    )[k];
    assert(p == crate::geographic::spec_path_to_geographic(planar[k], target));
    match planar[k] {
        DubinPath::CSC(a1, t, a2) => {
            crate::geographic::lemma_point_to_geographic_wf(t.start, target);
            crate::geographic::lemma_point_to_geographic_wf(t.end, target);
        },
        DubinPath::CCC(a1, a2, a3) => {},
    }
}

/// The properties of one landing option entry for a site catalog.
pub open spec fn spec_option_valid(
    p: Preferences,
    position: GeoPoint,
    heading_deg: i64,
    altitude: i64,
    a: Aircraft,
    locations: Seq<Location>,
    resolution: i64,
    o: LandingOption,
) -> bool {
    let radius = spec_turn_radius(a.glide, p.bank as int) as i64;
    &&& (o.location_index as int) < locations.len()
    &&& spec_is_site_candidate(
        position,
        heading_deg,
        radius,
        locations[o.location_index as int],
        a,
        resolution,
        o.path,
    )
    &&& o.height_loss as int == spec_height_over_geographic_path(a.glide, o.path, p.bank as int)
    &&& (o.height_loss as int) < altitude as int
    &&& spec_beats_site(
        a.glide,
        p.bank,
        altitude,
        position,
        heading_deg,
        radius,
        locations[o.location_index as int],
        a,
        resolution,
        o.height_loss as int,
    )
}

/// The stock touchdown-candidate spacing of the landing-option search:
/// ten meters, in fixed point.
pub const OPTION_RESOLUTION: i64 = 42949672960;

/// Ranks the landing options of a whole site catalog for the current
/// aircraft state: one entry per site that is reachable within the
/// altitude budget, in catalog order, each carrying the site's
/// least-height-loss candidate path.
pub fn landing_options(
    preferences: &Preferences,
    position: GeoPoint,
    heading_deg: i64,
    altitude: i64,
    aircraft: &Aircraft,
    locations: &Vec<Location>,
    resolution: i64,
) -> (r: Vec<LandingOption>)
    requires
        spec_preferences_wf(*preferences),
        crate::aircraft::spec_aircraft_wf(*aircraft),
        spec_geo_wf(position),
        forall|s: int| 0 <= s < locations@.len() ==> spec_location_wf(#[trigger] locations@[s]),
        resolution > 0,
    ensures
        forall|m: int|
            0 <= m < r@.len() ==> spec_option_valid(
                *preferences,
                position,
                heading_deg,
                altitude,
                *aircraft,
                locations@,
                resolution,
                #[trigger] r@[m],
            ),
        forall|m1: int, m2: int|
            0 <= m1 < m2 < r@.len() ==> (#[trigger] r@[m1]).location_index < (
            #[trigger] r@[m2]).location_index,
        forall|s: int|
            0 <= s < locations@.len() ==> (spec_site_reachable(
                aircraft.glide,
                preferences.bank,
                altitude,
                position,
                heading_deg,
                spec_turn_radius(aircraft.glide, preferences.bank as int) as i64,
                #[trigger] locations@[s],
                *aircraft,
                resolution,
            ) <==> exists|m: int| 0 <= m < r@.len() && (#[trigger] r@[m]).location_index == s),
{
    let ghost radius = spec_turn_radius(aircraft.glide, preferences.bank as int) as i64;
    let mut out: Vec<LandingOption> = Vec::new();
    let mut i: usize = 0;
    while i < locations.len()
        invariant
            spec_preferences_wf(*preferences),
            crate::aircraft::spec_aircraft_wf(*aircraft),
            spec_geo_wf(position),
            forall|s: int| 0 <= s < locations@.len() ==> spec_location_wf(#[trigger] locations@[s]),
            resolution > 0,
            radius == spec_turn_radius(aircraft.glide, preferences.bank as int) as i64,
            i <= locations@.len(),
            forall|m: int|
                0 <= m < out@.len() ==> spec_option_valid(
                    *preferences,
                    position,
                    heading_deg,
                    altitude,
                    *aircraft,
                    locations@,
                    resolution,
                    #[trigger] out@[m],
                ),
            forall|m: int| 0 <= m < out@.len() ==> (#[trigger] out@[m]).location_index < i,
            forall|m1: int, m2: int|
                0 <= m1 < m2 < out@.len() ==> (#[trigger] out@[m1]).location_index < (
                #[trigger] out@[m2]).location_index,
            forall|s: int|
                0 <= s < i as int ==> (spec_site_reachable(
                    aircraft.glide,
                    preferences.bank,
                    altitude,
                    position,
                    heading_deg,
                    radius,
                    #[trigger] locations@[s],
                    *aircraft,
                    resolution,
                ) <==> exists|m: int|
                    0 <= m < out@.len() && (#[trigger] out@[m]).location_index == s),
        decreases locations@.len() - i as int,
    {
        let best = best_landing_option_for_site(
            preferences,
            position,
            heading_deg,
            altitude,
            aircraft,
            &locations[i],
            resolution,
        );
        match best {
            Option::Some((path, h)) => {
                let ghost old_out = out@;
                out.push(LandingOption { location_index: i, path, height_loss: h });
                proof {
                    assert(out@[out@.len() - 1].location_index == i as int);
                    assert forall|s: int| 0 <= s < i as int + 1 implies (spec_site_reachable(
                        aircraft.glide,
                        preferences.bank,
                        altitude,
                        position,
                        heading_deg,
                        radius,
                        #[trigger] locations@[s],
                        *aircraft,
                        resolution,
                    ) <==> exists|m: int|
                        0 <= m < out@.len() && (#[trigger] out@[m]).location_index == s) by {
                        if s < i as int {
                            assert(forall|m: int|
                                0 <= m < old_out.len() ==> out@[m] == #[trigger] old_out[m]);
                            if exists|m: int|
                                0 <= m < old_out.len() && (#[trigger] old_out[m]).location_index
                                    == s {
                                let m = choose|m: int|
                                    0 <= m < old_out.len() && (
                                    #[trigger] old_out[m]).location_index == s;
                                assert(out@[m].location_index == s);
                            }
                        } else {
                            assert(out@[out@.len() - 1].location_index == s);
                        }
                    }
                }
            },
            Option::None => {
                proof {
                    assert forall|s: int| 0 <= s < i as int + 1 implies (spec_site_reachable(
                        aircraft.glide,
                        preferences.bank,
                        altitude,
                        position,
                        heading_deg,
                        radius,
                        #[trigger] locations@[s],
                        *aircraft,
                        resolution,
                    ) <==> exists|m: int|
                        0 <= m < out@.len() && (#[trigger] out@[m]).location_index == s) by {
                    }
                }
            },
        }
        i = i + 1;
    }
    out
}

} // verus!
