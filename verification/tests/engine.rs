//! Exercises the fixed-point core, the Dubins engine and the glide model
//! on concrete values.

use elsa::aircraft::{
    feet_to_m, Aircraft, ClimbPerformance, DerivedAircraftGlidePerformance, GlidePerformance,
    LandingPerformance, TakeoffPerformance,
};
use elsa::dubin::calculate_dubin_path_candidates;
use elsa::fx::{fx_abs, fx_add, fx_div, fx_hypot, fx_mul, fx_sqrt, FX_HALF_PI, FX_ONE, FX_PI, FX_TWO_PI};
use elsa::trig::{fx_acos, fx_asin, fx_atan2, fx_normalize_angle};
use elsa::geom::{Arc, Circle, Direction, DubinPath, Point, Tangent};

const FX: f64 = 4294967296.0;

fn fx_of(x: f64) -> i64 {
    (x * FX).round() as i64
}

fn to_f64(v: i64) -> f64 {
    (v as f64) / FX
}

fn test_aircraft() -> Aircraft {
    Aircraft::new(
        String::from("ac-1"),
        String::from("Test Single"),
        2400,
        TakeoffPerformance::new(900, 1500, 60),
        ClimbPerformance::new(75, 700),
        GlidePerformance::new(fx_of(1.52), 65),
        LandingPerformance::new(500, 984, 62, 900),
    )
}

#[test]
fn mtow_converts_pounds_to_kilograms() {
    let aircraft = test_aircraft();
    let kg = to_f64(aircraft.mtow());
    assert!((kg - 1088.62).abs() < 0.01, "mtow {kg}");
}

#[test]
fn feet_convert_exactly() {
    let m = feet_to_m(1000);
    let expected: i64 = (1000u128 * 381 * 4294967296 / 1250) as i64;
    assert_eq!(m, expected);
    assert!((to_f64(m) - 304.8).abs() < 1e-6);
}

#[test]
fn glide_ratio_matches_handbook_slope() {
    let aircraft = test_aircraft();
    let ratio = to_f64(aircraft.glide.ratio());
    assert!((ratio - 9.2357).abs() < 0.001, "ratio {ratio}");
    let height = to_f64(aircraft.glide.height_lost_for_ground_track(fx_of(1000.0)));
    assert!((height - 108.275).abs() < 0.05, "height {height}");
}

#[test]
fn turn_radius_at_forty_five_degrees() {
    let aircraft = test_aircraft();
    let bank = fx_of(45.0f64.to_radians());
    let radius = to_f64(aircraft.glide.turn_radius(bank));
    // v = 1.5 * 65 kt = 50.154 m/s; r = v^2 / (9.81 * tan 45)
    let v = 65.0 * 1852.0 / 3600.0 * 1.5;
    let expected = v * v / 9.81;
    assert!((radius - expected).abs() < 1.0, "radius {radius} expected {expected}");
}

#[test]
fn full_turn_height_loss_at_forty_five_degrees() {
    let aircraft = test_aircraft();
    let bank = fx_of(45.0f64.to_radians());
    let loss = to_f64(aircraft.glide.height_lost_in_turn(FX_TWO_PI, bank));
    let v = 65.0 * 1852.0 / 3600.0 * 1.5;
    let radius = v * v / 9.81;
    let ratio = 1.52 * 1852.0 / 304.8;
    let expected = 2.0 * std::f64::consts::PI * radius / ratio * 2.0f64.sqrt();
    assert!((loss - expected).abs() < 2.0, "loss {loss} expected {expected}");
}

#[test]
fn derived_glide_numbers_round_to_whole_units() {
    let aircraft = test_aircraft();
    let bank = fx_of(45.0f64.to_radians());
    let derived = DerivedAircraftGlidePerformance::new(&aircraft.glide, bank);
    let v = 65.0 * 1852.0 / 3600.0 * 1.5;
    let radius = v * v / 9.81;
    assert!((derived.turn_radius as f64 - radius).abs() < 2.0);
    let ratio = 1.52 * 1852.0 / 304.8;
    let loss_ft = 2.0 * std::f64::consts::PI * radius / ratio * 2.0f64.sqrt() / 0.3048;
    assert!((derived.full_turn_height_loss as f64 - loss_ft).abs() < 6.0);
}

#[test]
fn fixed_point_square_roots_are_exact() {
    assert_eq!(fx_sqrt(fx_of(4.0)), fx_of(2.0));
    assert_eq!(fx_sqrt(fx_of(1.0)), fx_of(1.0));
    assert_eq!(fx_sqrt(-5), 0);
    assert_eq!(fx_hypot(fx_of(3.0), fx_of(4.0)), fx_of(5.0));
    assert_eq!(fx_hypot(fx_of(-3.0), fx_of(4.0)), fx_of(5.0));
}

#[test]
fn fixed_point_arithmetic_saturates() {
    assert_eq!(fx_add(i64::MAX, i64::MAX), i64::MAX);
    assert_eq!(fx_add(i64::MIN, i64::MIN), i64::MIN);
    assert_eq!(fx_mul(i64::MAX, fx_of(2.0)), i64::MAX);
    assert_eq!(fx_div(fx_of(1.0), 0), i64::MAX);
    assert_eq!(fx_div(fx_of(-1.0), 0), i64::MIN);
    assert_eq!(fx_div(0, 0), 0);
}

fn find_rsr(paths: &[DubinPath]) -> &DubinPath {
    paths
        .iter()
        .find(|p| match p {
            DubinPath::CSC(a1, _, a2) => {
                a1.circle.direction == Direction::Right && a2.circle.direction == Direction::Right
            },
            _ => false,
        })
        .expect("an RSR word")
}

#[test]
fn straight_east_word_has_straight_tangent() {
    // start (0,0) heading 0, end (1000,0) heading 0, radius 100: the RSR
    // word is a straight 1000 m tangent with (near) zero arc angles; the
    // residue comes only from the last bits of the trigonometric tables.
    let paths = calculate_dubin_path_candidates(
        Point::new(0, 0),
        Point::new(fx_of(1000.0), 0),
        0,
        0,
        fx_of(100.0),
    );
    assert_eq!(paths.len(), 4);
    match find_rsr(&paths) {
        DubinPath::CSC(a1, t, a2) => {
            assert!(to_f64(a1.raw_angle()).abs() < 1e-6);
            assert!(to_f64(a2.raw_angle()).abs() < 1e-6);
            assert!((to_f64(t.raw_length()) - 1000.0).abs() < 1e-3);
            assert!(to_f64(t.start.x).abs() < 1e-3 && to_f64(t.start.y).abs() < 1e-3);
            assert!((to_f64(t.end.x) - 1000.0).abs() < 1e-3 && to_f64(t.end.y).abs() < 1e-3);
        },
        _ => panic!("expected a CSC word"),
    }
}

#[test]
fn straight_word_height_loss_is_track_over_ratio() {
    let aircraft = test_aircraft();
    let bank = fx_of(45.0f64.to_radians());
    let paths = calculate_dubin_path_candidates(
        Point::new(0, 0),
        Point::new(fx_of(1000.0), 0),
        0,
        0,
        aircraft.glide.turn_radius(bank),
    );
    let rsr = find_rsr(&paths);
    let loss = to_f64(aircraft.glide.height_loss_over_geometric_path(rsr, bank));
    let straight = to_f64(aircraft.glide.height_lost_for_ground_track(fx_of(1000.0)));
    assert!((loss - straight).abs() < 1e-3, "loss {loss} straight {straight}");
}

#[test]
fn candidate_count_stays_within_word_bounds() {
    let cases: [(f64, f64, f64, f64, f64); 4] = [
        (1000.0, 0.0, 0.0, 0.0, 100.0),
        (100.0, 50.0, 1.0, 2.0, 100.0),
        (2000.0, -300.0, 3.0, -1.0, 250.0),
        (10.0, 10.0, 0.5, 0.5, 100.0),
    ];
    for (x, y, sa, ea, r) in cases {
        let paths = calculate_dubin_path_candidates(
            Point::new(0, 0),
            Point::new(fx_of(x), fx_of(y)),
            fx_of(sa),
            fx_of(ea),
            fx_of(r),
        );
        assert!(paths.len() >= 1 && paths.len() <= 6, "count {}", paths.len());
    }
}

#[test]
fn csc_words_connect_arcs_and_tangent() {
    let paths = calculate_dubin_path_candidates(
        Point::new(0, 0),
        Point::new(fx_of(700.0), fx_of(150.0)),
        fx_of(0.3),
        fx_of(-1.2),
        fx_of(120.0),
    );
    assert!(!paths.is_empty());
    for p in &paths {
        match p {
            DubinPath::CSC(a1, t, a2) => {
                assert_eq!(a1.end, t.start);
                assert_eq!(t.end, a2.start);
            },
            DubinPath::CCC(a1, a2, a3) => {
                assert_eq!(a1.end, a2.start);
                assert_eq!(a2.end, a3.start);
            },
        }
    }
}

#[test]
fn ccc_words_appear_exactly_when_circles_are_close() {
    // Same poses, two radii: centers 100 m apart, so CCC exists for
    // radius 100 (100 < 400) but not for radius 20 (100 >= 80).
    let near = calculate_dubin_path_candidates(
        Point::new(0, 0),
        Point::new(fx_of(100.0), 0),
        0,
        0,
        fx_of(100.0),
    );
    let has_ccc = near.iter().any(|p| matches!(p, DubinPath::CCC(_, _, _)));
    assert!(has_ccc);
    let far = calculate_dubin_path_candidates(
        Point::new(0, 0),
        Point::new(fx_of(100.0), 0),
        0,
        0,
        fx_of(20.0),
    );
    let has_far_ccc = far.iter().any(|p| matches!(p, DubinPath::CCC(_, _, _)));
    assert!(!has_far_ccc);
}

#[test]
fn arc_length_is_angle_times_radius() {
    let circle = Circle {
        center: Point::new(0, 0),
        radius: fx_of(100.0),
        direction: Direction::Left,
    };
    let arc = Arc::new(Point::new(fx_of(100.0), 0), Point::new(0, fx_of(100.0)), circle);
    let length = arc.raw_length();
    assert_eq!(length, fx_mul(fx_abs(arc.raw_angle()), circle.radius));
    // A left-turning arc carries a negative angle; the quarter turn taken
    // the long way round is three quarters of the circumference.
    assert!(arc.raw_angle() < 0);
    let expected = 1.5 * std::f64::consts::PI * 100.0;
    assert!((to_f64(length) - expected).abs() < 0.01);
}

#[test]
fn direction_opposite_swaps_sides() {
    assert_eq!(Direction::Left.opposite(), Direction::Right);
    assert_eq!(Direction::Right.opposite(), Direction::Left);
    let t = Tangent::new(Point::new(0, 0), Point::new(fx_of(3.0), fx_of(4.0)));
    assert_eq!(t.raw_length(), fx_of(5.0));
}

#[test]
fn path_length_sums_components() {
    let paths = calculate_dubin_path_candidates(
        Point::new(0, 0),
        Point::new(fx_of(800.0), fx_of(-50.0)),
        fx_of(1.0),
        fx_of(0.2),
        fx_of(150.0),
    );
    for p in &paths {
        let total = p.length();
        let sum = match p {
            DubinPath::CSC(a1, t, a2) => fx_add(
                fx_add(a1.raw_length(), t.raw_length()),
                a2.raw_length(),
            ),
            DubinPath::CCC(a1, a2, a3) => fx_add(
                fx_add(a1.raw_length(), a2.raw_length()),
                a3.raw_length(),
            ),
        };
        assert_eq!(total, sum);
        assert!(total >= 0);
    }
}

#[test]
fn angles_normalize_into_one_turn() {
    // The same pose expressed with a heading shifted by full turns gives
    // the same candidates.
    let a = calculate_dubin_path_candidates(
        Point::new(0, 0),
        Point::new(fx_of(500.0), fx_of(100.0)),
        fx_of(0.4),
        fx_of(-0.3),
        fx_of(100.0),
    );
    let b = calculate_dubin_path_candidates(
        Point::new(0, 0),
        Point::new(fx_of(500.0), fx_of(100.0)),
        fx_add(fx_of(0.4), fx_mul(fx_of(2.0), FX_TWO_PI)),
        fx_add(fx_of(-0.3), fx_mul(fx_of(-1.0), FX_TWO_PI)),
        fx_of(100.0),
    );
    assert_eq!(a.len(), b.len());
    for (x, y) in a.iter().zip(b.iter()) {
        assert_eq!(x, y);
    }
}

#[test]
fn trig_constants_are_consistent() {
    assert_eq!(FX_PI, 13493037705);
    assert!((to_f64(FX_HALF_PI) - std::f64::consts::FRAC_PI_2).abs() < 1e-8);
    assert!((to_f64(FX_TWO_PI) - std::f64::consts::TAU).abs() < 1e-8);
}

#[test]
fn arc_tangent_covers_all_quadrants() {
    let quarter = std::f64::consts::FRAC_PI_4;
    assert!((to_f64(fx_atan2(FX_ONE, FX_ONE)) - quarter).abs() < 1e-6);
    assert!((to_f64(fx_atan2(FX_ONE, -FX_ONE)) - 3.0 * quarter).abs() < 1e-6);
    assert!((to_f64(fx_atan2(-FX_ONE, -FX_ONE)) + 3.0 * quarter).abs() < 1e-6);
    assert!((to_f64(fx_atan2(-FX_ONE, FX_ONE)) + quarter).abs() < 1e-6);
    assert_eq!(fx_atan2(0, -FX_ONE), FX_PI);
    assert_eq!(fx_atan2(-FX_ONE, 0), -FX_HALF_PI);
    assert_eq!(fx_atan2(0, FX_ONE), 0);
}

#[test]
fn arc_sine_and_cosine_match_their_inverses() {
    assert!((to_f64(fx_asin(FX_ONE)) - std::f64::consts::FRAC_PI_2).abs() < 1e-4);
    assert!(to_f64(fx_asin(0)).abs() < 1e-6);
    assert!((to_f64(fx_acos(0)) - std::f64::consts::FRAC_PI_2).abs() < 1e-6);
    assert!((to_f64(fx_acos(fx_of(0.5))) - std::f64::consts::FRAC_PI_3).abs() < 1e-4);
    // Inputs beyond the unit range are clamped before the inverse is taken.
    assert!(to_f64(fx_acos(fx_of(3.0))).abs() < 1e-4);
}

#[test]
fn angle_normalization_lands_in_one_turn() {
    let x = fx_of(1.1);
    let wrapped = fx_add(x, fx_mul(fx_of(3.0), FX_TWO_PI));
    let normalized = fx_normalize_angle(wrapped);
    assert!((to_f64(normalized) - 1.1).abs() < 1e-6);
    let half_turns = fx_normalize_angle(fx_mul(fx_of(5.0), FX_PI));
    assert!((to_f64(half_turns).abs() - std::f64::consts::PI).abs() < 1e-6);
}

#[test]
fn arc_renders_one_point_per_degree() {
    let circle = Circle {
        center: Point::new(0, 0),
        radius: fx_of(100.0),
        direction: Direction::Left,
    };
    let arc = Arc::new(Point::new(fx_of(100.0), 0), Point::new(0, fx_of(100.0)), circle);
    // The left arc sweeps three quarter turns the long way round.
    let trail = arc.points();
    assert_eq!(trail.len(), 270);
    let first = trail[0];
    assert!((to_f64(first.x)).abs() < 0.01 && (to_f64(first.y) - 100.0).abs() < 0.01);
    let last = trail[trail.len() - 1];
    let expected_x = 100.0 * (-1.0f64).to_radians().cos();
    let expected_y = 100.0 * (-1.0f64).to_radians().sin();
    assert!((to_f64(last.x) - expected_x).abs() < 0.01);
    assert!((to_f64(last.y) - expected_y).abs() < 0.01);
}
