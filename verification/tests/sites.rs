//! Exercises the geographic conversions, the site model, risk
//! classification, range profiles and the landing-option search.

use elsa::aircraft::{
    Aircraft, ClimbPerformance, GlidePerformance, LandingPerformance, TakeoffPerformance,
};
use elsa::calculator::{
    aircraft_range_profile, assess_risk, composition_plan, landing_options,
    location_range_profile, location_range_polygon, Preferences,
};
use elsa::geographic::{
    geometric_point_to_geographic, haversine_destination, haversine_distance,
    relative_geometric_position_of, GeoPoint,
};
use elsa::location::{
    HumanPresenceCategory, Location, RiskClassification, SurfaceType, UsageType,
};

const FX: f64 = 4294967296.0;
const M_PER_DEG: f64 = 6371008.8 * std::f64::consts::PI / 180.0;

fn fx_of(x: f64) -> i64 {
    (x * FX).round() as i64
}

fn to_f64(v: i64) -> f64 {
    (v as f64) / FX
}

fn geo(lat: f64, lon: f64) -> GeoPoint {
    GeoPoint::new(fx_of(lat), fx_of(lon))
}

fn glider() -> Aircraft {
    Aircraft::new(
        String::from("ac-1"),
        String::from("Test Single"),
        2400,
        TakeoffPerformance::new(900, 1500, 60),
        ClimbPerformance::new(75, 700),
        GlidePerformance::new(fx_of(1.52), 65),
        // 984 ft over the obstacle is very nearly 300 m.
        LandingPerformance::new(500, 984, 62, 900),
    )
}

/// A site running north from (47, 11), of roughly the given length.
fn site(length_m: f64, reversible: bool, surface: SurfaceType) -> Location {
    let dlat = length_m / M_PER_DEG;
    Location::new(
        String::from("Test Field"),
        reversible,
        surface,
        HumanPresenceCategory::Unlikely,
        UsageType::Agricultural,
        1500,
        geo(47.0, 11.0),
        geo(47.0 + dlat, 11.0),
        String::from("2024-05-01"),
        None,
    )
}

fn prefs() -> Preferences {
    Preferences::new(
        fx_of(45.0f64.to_radians()),
        fx_of(0.1),
        fx_of(-0.15),
        fx_of(-0.05),
        RiskClassification::Risky,
        RiskClassification::Risky,
    )
}

#[test]
fn haversine_length_of_a_short_run() {
    let l = site(500.0, false, SurfaceType::Gras);
    let length = to_f64(l.length());
    assert!((length - 500.0).abs() < 0.5, "length {length}");
}

#[test]
fn bearing_of_cardinal_runs() {
    let north = site(500.0, false, SurfaceType::Gras);
    let b = to_f64(north.bearing());
    assert!(b.abs() < 0.05, "north bearing {b}");
    let east = Location::new(
        String::from("East Field"),
        true,
        SurfaceType::Asphalt,
        HumanPresenceCategory::Sparse,
        UsageType::Park,
        0,
        geo(47.0, 11.0),
        geo(47.0, 11.0 + 500.0 / (M_PER_DEG * 47.0f64.to_radians().cos())),
        String::from("2024-05-01"),
        None,
    );
    let be = to_f64(east.bearing());
    assert!((be - 90.0).abs() < 0.2, "east bearing {be}");
    let rb = to_f64(east.reverse_bearing());
    assert!((rb + 90.0).abs() < 0.2 || (rb - 270.0).abs() < 0.2, "reverse {rb}");
}

#[test]
fn geographic_round_trip_stays_close() {
    let origin = geo(47.0, 11.0);
    let p = haversine_destination(&origin, fx_of(30.0), fx_of(10000.0));
    let rel = relative_geometric_position_of(&p, &origin);
    let back = geometric_point_to_geographic(rel, &origin);
    let dlat = (to_f64(back.lat) - to_f64(p.lat)) * M_PER_DEG;
    let dlon = (to_f64(back.lon) - to_f64(p.lon)) * M_PER_DEG * 47.0f64.to_radians().cos();
    let err = (dlat * dlat + dlon * dlon).sqrt();
    assert!(err < 0.1, "round trip error {err} m");
}

#[test]
fn destination_lands_at_the_right_distance() {
    let origin = geo(47.0, 11.0);
    let p = haversine_destination(&origin, fx_of(135.0), fx_of(2000.0));
    let d = to_f64(haversine_distance(&origin, &p));
    assert!((d - 2000.0).abs() < 0.1, "distance {d}");
}

#[test]
fn inset_is_length_minus_required_distance() {
    let a = glider();
    let l = site(500.0, false, SurfaceType::Asphalt);
    let length = to_f64(l.length());
    let required = to_f64(a.landing.total_distance_on_surface(&SurfaceType::Asphalt));
    assert!((required - 299.923).abs() < 0.01, "required {required}");
    let inset = to_f64(l.inset(&a));
    assert!((inset - (length - required)).abs() < 1e-6, "inset {inset}");
    assert!((inset - 200.0).abs() < 0.6, "inset {inset}");
}

#[test]
fn grass_costs_twenty_percent_more_roll() {
    let a = glider();
    let asphalt = to_f64(a.landing.total_distance_on_surface(&SurfaceType::Asphalt));
    let grass = to_f64(a.landing.total_distance_on_surface(&SurfaceType::Gras));
    let roll = to_f64(a.landing.ground_roll());
    assert!((grass - asphalt - 0.2 * roll).abs() < 1e-6);
}

#[test]
fn water_is_always_unsafe() {
    let a = glider();
    let l = site(800.0, false, SurfaceType::Water);
    let r = assess_risk(&prefs(), &l, &a);
    assert_eq!(r.surface, RiskClassification::Unsafe);
    assert_eq!(r.overall, RiskClassification::Unsafe);
}

#[test]
fn headroom_thresholds_grade_the_risk() {
    let a = glider();
    // Required distance is about 300 m on asphalt.
    let safe = assess_risk(&prefs(), &site(500.0, false, SurfaceType::Asphalt), &a);
    assert_eq!(safe.headroom, RiskClassification::Safe);
    assert_eq!(safe.overall, RiskClassification::Safe);
    // 280 m available: headroom about -0.066, risky but not unsafe.
    let risky = assess_risk(&prefs(), &site(280.0, false, SurfaceType::Asphalt), &a);
    assert_eq!(risky.headroom, RiskClassification::Risky);
    assert_eq!(risky.overall, RiskClassification::Risky);
    // 250 m available: headroom about -0.167, below the unsafe threshold.
    let uns = assess_risk(&prefs(), &site(250.0, false, SurfaceType::Asphalt), &a);
    assert_eq!(uns.headroom, RiskClassification::Unsafe);
    assert_eq!(uns.overall, RiskClassification::Unsafe);
}

#[test]
fn event_sites_take_the_preferred_classification() {
    let a = glider();
    let mut l = site(500.0, false, SurfaceType::Asphalt);
    l.human_presence = HumanPresenceCategory::EventOnly;
    let r = assess_risk(&prefs(), &l, &a);
    assert_eq!(r.humans, RiskClassification::Risky);
    assert_eq!(r.overall, RiskClassification::Risky);
    let mut p = prefs();
    p.event_location_classification = RiskClassification::Unsafe;
    let r2 = assess_risk(&p, &l, &a);
    assert_eq!(r2.humans, RiskClassification::Unsafe);
    assert_eq!(r2.overall, RiskClassification::Unsafe);
    l.human_presence = HumanPresenceCategory::Sparse;
    let r3 = assess_risk(&p, &l, &a);
    assert_eq!(r3.humans, RiskClassification::Safe);
}

#[test]
fn risk_combination_takes_the_maximum() {
    let safe = RiskClassification::Safe;
    let risky = RiskClassification::Risky;
    let not_safe = RiskClassification::Unsafe;
    assert_eq!(safe.combine(risky), risky);
    assert_eq!(risky.combine(safe), risky);
    assert_eq!(not_safe.combine(risky), not_safe);
    assert_eq!(safe.combine(safe), safe);
    assert_eq!(RiskClassification::from_level(2), not_safe);
    assert_eq!(not_safe.level(), 2);
}

#[test]
fn composition_subtracts_lower_risks_from_higher() {
    let plan = composition_plan();
    assert_eq!(plan.len(), 3);
    assert_eq!(plan[0].0, RiskClassification::Safe);
    assert!(plan[0].1.is_empty());
    assert_eq!(plan[1].0, RiskClassification::Risky);
    assert_eq!(plan[1].1, vec![RiskClassification::Safe]);
    assert_eq!(plan[2].0, RiskClassification::Unsafe);
    assert_eq!(plan[2].1, vec![RiskClassification::Safe, RiskClassification::Risky]);
}

#[test]
fn site_ids_are_stable_and_distinct() {
    let a = site(500.0, false, SurfaceType::Gras);
    let b = site(500.0, false, SurfaceType::Gras);
    let c = site(600.0, false, SurfaceType::Gras);
    assert_eq!(a.id(), b.id());
    assert_ne!(a.id(), c.id());
    assert!(!a.id().is_empty());
    assert!(a.id().chars().all(|ch| ch.is_ascii_hexdigit() && !ch.is_ascii_uppercase()));
}

#[test]
fn landable_points_step_in_from_the_ends() {
    let a = glider();
    let one_way = site(500.0, false, SurfaceType::Asphalt);
    // The inset is just over 200 m; at 50 m resolution that is 4 steps.
    let points = one_way.landable_points(&a, fx_of(50.0));
    assert_eq!(points.len(), 1 + 4);
    let both_ways = site(500.0, true, SurfaceType::Asphalt);
    let points2 = both_ways.landable_points(&a, fx_of(50.0));
    assert_eq!(points2.len(), 2 + 2 * 4);
    // The first inset candidate sits one step along the run.
    let d = to_f64(haversine_distance(&one_way.start(), &points[1].0));
    assert!((d - 50.0).abs() < 0.1, "step {d}");
}

#[test]
fn hitbox_corners_sit_at_the_spacing_distance() {
    let l = site(500.0, false, SurfaceType::Gras);
    let corners = l.spaced_polygon(fx_of(30.0));
    assert_eq!(corners.len(), 4);
    for corner in &corners {
        let near_start = to_f64(haversine_distance(&l.start(), corner));
        let near_end = to_f64(haversine_distance(&l.end(), corner));
        let d = near_start.min(near_end);
        assert!((d - 30.0).abs() < 0.2, "corner distance {d}");
    }
}

#[test]
fn range_profile_rays_stay_within_maximum_range() {
    let a = glider();
    let p = prefs();
    let altitude = fx_of(600.0);
    let profile = aircraft_range_profile(&p, &a, altitude);
    assert_eq!(profile.0.len(), 18);
    let ratio = 1.52 * 1852.0 / 304.8;
    let max_range = 2.0 * ratio * 600.0;
    for point in &profile.0 {
        let d = (to_f64(point.x).powi(2) + to_f64(point.y).powi(2)).sqrt();
        assert!(d <= max_range + 1.0, "point distance {d}");
    }
    // Straight ahead of the runway the aircraft must reach further than
    // half of its no-turn glide range.
    let first = &profile.0[0];
    let d0 = (to_f64(first.x).powi(2) + to_f64(first.y).powi(2)).sqrt();
    assert!(d0 > ratio * 600.0 / 2.0, "first ray {d0}");
}

#[test]
fn one_way_far_half_shifts_by_the_inset() {
    let a = glider();
    let p = prefs();
    let l = site(500.0, false, SurfaceType::Asphalt);
    let profile = aircraft_range_profile(&p, &a, fx_of(600.0));
    let sp = location_range_profile(&l, &a, &profile);
    assert_eq!(sp.0.len(), 18);
    let inset = l.inset(&a);
    for i in 0..9 {
        assert_eq!(sp.0[i], profile.0[i]);
    }
    for i in 9..18 {
        assert_eq!(sp.0[i].x, profile.0[i].x);
        assert_eq!(sp.0[i].y, profile.0[i].y + inset);
    }
}

#[test]
fn reversible_far_half_mirrors_across_the_run_middle() {
    let a = glider();
    let p = prefs();
    let l = site(500.0, true, SurfaceType::Asphalt);
    let profile = aircraft_range_profile(&p, &a, fx_of(600.0));
    let sp = location_range_profile(&l, &a, &profile);
    let length = l.length();
    for i in 0..18 {
        assert_eq!(sp.0[17 - i].x, sp.0[i].x);
        assert_eq!(sp.0[17 - i].y, length - sp.0[i].y);
    }
}

#[test]
fn range_polygon_has_thirty_six_vertices_around_the_site() {
    let a = glider();
    let p = prefs();
    let l = site(500.0, true, SurfaceType::Asphalt);
    let profile = aircraft_range_profile(&p, &a, fx_of(600.0));
    let polygon = location_range_polygon(&l, &a, &profile);
    assert_eq!(polygon.len(), 36);
    let ratio = 1.52 * 1852.0 / 304.8;
    let max_range = 2.0 * ratio * 600.0 + 600.0;
    for v in &polygon {
        let d = to_f64(haversine_distance(&l.start(), v));
        assert!(d <= max_range, "vertex at {d}");
    }
}

#[test]
fn landing_options_rank_reachable_sites() {
    let a = glider();
    let p = prefs();
    let l = site(500.0, false, SurfaceType::Asphalt);
    let sites = vec![l];
    // 3 km out at 500 m: comfortably reachable.
    let position = geo(47.0 - 3000.0 / M_PER_DEG, 11.0);
    let options = landing_options(&p, position, 0, fx_of(500.0), &a, &sites, elsa::calculator::OPTION_RESOLUTION);
    assert_eq!(options.len(), 1);
    assert_eq!(options[0].location_index, 0);
    let loss = to_f64(options[0].height_loss);
    let ratio = 1.52 * 1852.0 / 304.8;
    assert!(loss > 3000.0 / ratio / 2.0 && loss < 500.0, "loss {loss}");
    // At 40 m of altitude nothing is reachable.
    let none = landing_options(&p, position, 0, fx_of(40.0), &a, &sites, elsa::calculator::OPTION_RESOLUTION);
    assert!(none.is_empty());
}

#[test]
fn closest_location_picks_the_nearest_centroid() {
    let near = site(500.0, false, SurfaceType::Gras);
    let far = Location::new(
        String::from("Far Field"),
        false,
        SurfaceType::Gras,
        HumanPresenceCategory::Unlikely,
        UsageType::Nature,
        0,
        geo(47.5, 11.5),
        geo(47.5 + 500.0 / M_PER_DEG, 11.5),
        String::from("2024-05-01"),
        None,
    );
    let catalog = vec![far.clone(), near.clone(), far];
    let point = geo(47.001, 11.0);
    let found = elsa::location::closest_location(&catalog, &point);
    assert_eq!(found, Some(1));
    let empty: Vec<Location> = Vec::new();
    assert_eq!(elsa::location::closest_location(&empty, &point), None);
}

#[test]
fn derived_landing_distances_follow_the_surface() {
    let a = glider();
    let derived =
        elsa::aircraft::DerivedAircraftLandingPerformance::new(&a.landing);
    assert_eq!(derived.on_asphalt, 300);
    assert_eq!(derived.on_water, 300);
    // Grass adds twenty percent of the 500 ft ground roll.
    let expected = 299.923 + 0.2 * 500.0 * 0.3048;
    assert!((derived.on_gras as f64 - expected).abs() < 1.0);
}

#[test]
fn path_names_spell_the_word() {
    let paths = elsa::dubin::calculate_dubin_path_candidates(
        elsa::geom::Point::new(0, 0),
        elsa::geom::Point::new(fx_of(1000.0), 0),
        0,
        0,
        fx_of(100.0),
    );
    let names: Vec<&str> = paths.iter().map(|p| p.name()).collect();
    assert_eq!(names, vec!["LSL", "LSR", "RSL", "RSR"]);
}

#[test]
fn very_short_distances_keep_their_precision() {
    let origin = geo(47.0, 11.0);
    let p = haversine_destination(&origin, fx_of(77.0), fx_of(5.0));
    let d = to_f64(haversine_distance(&origin, &p));
    assert!((d - 5.0).abs() < 0.05, "distance {d}");
}
