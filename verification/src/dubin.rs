//! The planar Dubins engine: the four approach/departure circles of a pose
//! pair, tangent computation, and the CSC and CCC path families.
//!
//! All derivations follow the classical constructions: an outer tangent for
//! same-direction circle pairs, an inner tangent otherwise, and a third
//! tangent circle for the CCC words, which exists exactly when the circle
//! centers are closer than four radii.

use vstd::prelude::*;
use crate::fx::{
    fx_add, fx_div, fx_mul, fx_sqrt, fx_sub, spec_add, spec_div, spec_mul, spec_sqrt, spec_sub,
    FX_FOUR, FX_ONE, FX_TWO, FX_TWO_PI,
};
use crate::geom::{
    spec_distance, spec_opposite, spec_point_minus, spec_point_plus, Arc, Circle, Direction,
    DirectedPoint, DubinPath, Point, Tangent,
};
use crate::trig::{cos_bits, fx_cos, fx_sin, sin_bits, spec_atan2, fx_atan2, spec_acos, fx_acos};

verus! {

/// The four circles of radius `r` tangent to the start and end poses: at
/// each pose, one for a left turn and one for a right turn.
#[derive(Clone, Copy, PartialEq, Eq, Structural, Debug)]
pub struct CircleSet {
    pub start_left: Circle,
    pub start_right: Circle,
    pub end_left: Circle,
    pub end_right: Circle,
}

/// The turning circle tangent to a pose: its center sits one radius to the
/// side of the pose, at the heading turned a quarter turn right (for a left
/// circle) or left (for a right circle).
pub open spec fn spec_offset_circle(p: DirectedPoint, radius: i64, d: Direction) -> Circle {
    let offset_angle = match d {
        Direction::Left => spec_sub(p.angle as int, crate::fx::FX_HALF_PI as int),
        Direction::Right => spec_add(p.angle as int, crate::fx::FX_HALF_PI as int),
    };
    Circle {
        center: spec_point_plus(
            p.point,
            Point {
                x: spec_mul(radius as int, cos_bits(offset_angle)) as i64,
                y: spec_mul(radius as int, sin_bits(offset_angle)) as i64,
            },
        ),
        radius,
        direction: d,
    }
}

/// The four turning circles of a start and end pose at one radius.
pub open spec fn spec_circle_set(start: DirectedPoint, end: DirectedPoint, radius: i64)
    -> CircleSet {
    CircleSet {
        start_left: spec_offset_circle(start, radius, Direction::Left),
        start_right: spec_offset_circle(start, radius, Direction::Right),
        end_left: spec_offset_circle(end, radius, Direction::Left),
        end_right: spec_offset_circle(end, radius, Direction::Right),
    }
}

fn offset_circle(p: &DirectedPoint, radius: i64, d: Direction) -> (r: Circle)
    requires
        -(FX_TWO_PI as int) <= p.angle as int <= FX_TWO_PI as int,
    ensures
        r == spec_offset_circle(*p, radius, d),
{
    let offset_angle = match d {
        Direction::Left => fx_sub(p.angle, crate::fx::FX_HALF_PI),
        Direction::Right => fx_add(p.angle, crate::fx::FX_HALF_PI),
    };
    Circle {
        center: p.point.plus(
            Point { x: fx_mul(radius, fx_cos(offset_angle)), y: fx_mul(radius, fx_sin(offset_angle)) },
        ),
        radius,
        direction: d,
    }
}

impl CircleSet {
    /// Builds the four turning circles for a pair of poses. The headings
    /// must already be normalized to one turn.
    pub fn new(start: &DirectedPoint, end: &DirectedPoint, radius: i64) -> (r: CircleSet)
        requires
            -(FX_TWO_PI as int) <= start.angle as int <= FX_TWO_PI as int,
            -(FX_TWO_PI as int) <= end.angle as int <= FX_TWO_PI as int,
        ensures
            r == spec_circle_set(*start, *end, radius),
    {
        CircleSet {
            start_left: offset_circle(start, radius, Direction::Left),
            start_right: offset_circle(start, radius, Direction::Right),
            end_left: offset_circle(end, radius, Direction::Left),
            end_right: offset_circle(end, radius, Direction::Right),
        }
    }
}

/// The tangent segment from one turning circle to another of the same
/// radius: an outer tangent for same-direction pairs, an inner tangent for
/// opposite-direction pairs, none when the centers coincide or the circles
/// overlap too much for the wanted tangent to exist.
#[verifier::opaque]
pub open spec fn spec_tangent_to(c1: Circle, c2: Circle) -> Option<Tangent> {
    let dv = spec_point_minus(c2.center, c1.center);
    let d = spec_distance(c1.center, c2.center);
    if d == 0 {
        Option::None
    } else {
        let ux = spec_div(dv.x as int, d);
        let uy = spec_div(dv.y as int, d);
        let same = c1.direction == c2.direction;
        let c_first = if same {
            spec_div(spec_sub(c1.radius as int, c2.radius as int), d)
        } else {
            spec_div(spec_add(c1.radius as int, c2.radius as int), d)
        };
        let fallback = spec_mul(c_first, c_first) > FX_ONE as int;
        let cv = if fallback {
            spec_div(spec_add(c1.radius as int, c2.radius as int), d)
        } else {
            c_first
        };
        let sign1_pos = same || fallback;
        if spec_mul(cv, cv) > FX_ONE as int {
            Option::None
        } else {
            let h = spec_sqrt(spec_sub(FX_ONE as int, spec_mul(cv, cv)));
            let sign2_pos = c1.direction == Direction::Left;
            let nx = if sign2_pos {
                spec_sub(spec_mul(ux, cv), spec_mul(h, uy))
            } else {
                spec_add(spec_mul(ux, cv), spec_mul(h, uy))
            };
            let ny = if sign2_pos {
                spec_add(spec_mul(uy, cv), spec_mul(h, ux))
            } else {
                spec_sub(spec_mul(uy, cv), spec_mul(h, ux))
            };
            let start = spec_point_plus(
                c1.center,
                Point {
                    x: spec_mul(c1.radius as int, nx) as i64,
                    y: spec_mul(c1.radius as int, ny) as i64,
                },
            );
            let ex = if sign1_pos {
                spec_mul(c2.radius as int, nx)
            } else {
                spec_mul(crate::fx::spec_neg(c2.radius as int), nx)
            };
            let ey = if sign1_pos {
                spec_mul(c2.radius as int, ny)
            } else {
                spec_mul(crate::fx::spec_neg(c2.radius as int), ny)
            };
            let end = spec_point_plus(c2.center, Point { x: ex as i64, y: ey as i64 });
            Option::Some(Tangent { start, end })
        }
    }
}

impl Circle {
    /// The tangent segment to another circle of the same radius, if one
    /// exists for the directions involved.
    pub fn tangent_to(&self, other: &Circle) -> (r: Option<Tangent>)
        requires
            self.radius == other.radius,
        ensures
            r == spec_tangent_to(*self, *other),
    {
        proof {
            reveal(spec_tangent_to);
        }
        let dv = other.center.minus(self.center);
        let d = self.center.distance_to(&other.center);
        if d == 0 {
            return Option::None;
        }
        let ux = fx_div(dv.x, d);
        let uy = fx_div(dv.y, d);
        let same = self.direction == other.direction;
        let c_first: i64 = if same {
            fx_div(fx_sub(self.radius, other.radius), d)
        } else {
            fx_div(fx_add(self.radius, other.radius), d)
        };
        let fallback = fx_mul(c_first, c_first) > FX_ONE;
        let cv: i64 = if fallback {
            fx_div(fx_add(self.radius, other.radius), d)
        } else {
            c_first
        };
        let sign1_pos = same || fallback;
        if fx_mul(cv, cv) > FX_ONE {
            return Option::None;
        }
        let h = fx_sqrt(fx_sub(FX_ONE, fx_mul(cv, cv)));
        let sign2_pos = matches!(self.direction, Direction::Left);
        let nx: i64 = if sign2_pos {
            fx_sub(fx_mul(ux, cv), fx_mul(h, uy))
        } else {
            fx_add(fx_mul(ux, cv), fx_mul(h, uy))
        };
        let ny: i64 = if sign2_pos {
            fx_add(fx_mul(uy, cv), fx_mul(h, ux))
        } else {
            fx_sub(fx_mul(uy, cv), fx_mul(h, ux))
        };
        let start = self.center.plus(Point { x: fx_mul(self.radius, nx), y: fx_mul(self.radius, ny) });
        let end = if sign1_pos {
            other.center.plus(Point { x: fx_mul(other.radius, nx), y: fx_mul(other.radius, ny) })
        } else {
            other.center.plus(
                Point { x: fx_mul(crate::fx::fx_neg(other.radius), nx), y: fx_mul(crate::fx::fx_neg(other.radius), ny) },
            )
        };
        Option::Some(Tangent { start, end })
    }
}

/// The CSC path over one start circle and one end circle: the tangent
/// between them, an arc from the start pose to the tangent start, and an
/// arc from the tangent end to the end pose. None when no tangent exists.
pub open spec fn spec_csc_path(
    start: DirectedPoint,
    end: DirectedPoint,
    c1: Circle,
    c2: Circle,
) -> Option<DubinPath> {
    match spec_tangent_to(c1, c2) {
        Option::Some(t) => Option::Some(
            DubinPath::CSC(
                Arc { circle: c1, start: start.point, end: t.start },
                t,
                Arc { circle: c2, start: t.end, end: end.point },
            ),
        ),
        Option::None => Option::None,
    }
}

fn csc_path(start: &DirectedPoint, end: &DirectedPoint, c1: &Circle, c2: &Circle) -> (r: Option<
    DubinPath,
>)
    requires
        c1.radius == c2.radius,
    ensures
        r == spec_csc_path(*start, *end, *c1, *c2),
{
    match c1.tangent_to(c2) {
        Option::Some(t) => Option::Some(
            DubinPath::CSC(
                Arc::new(start.point, t.start, *c1),
                t,
                Arc::new(t.end, end.point, *c2),
            ),
        ),
        Option::None => Option::None,
    }
}

/// The CCC path over a same-direction circle pair: a third circle of the
/// opposite direction tangent to both, entered and left at the midpoints
/// between the centers. Defined exactly when the centers are closer than
/// four radii.
#[verifier::opaque]
pub open spec fn spec_ccc_path(
    start: DirectedPoint,
    end: DirectedPoint,
    c1: Circle,
    c2: Circle,
    radius: i64,
) -> Option<DubinPath> {
    let d = spec_distance(c1.center, c2.center);
    if d >= spec_mul(FX_FOUR as int, radius as int) {
        Option::None
    } else {
        let dv = spec_point_minus(c2.center, c1.center);
        let theta0 = spec_acos(spec_div(d, spec_mul(FX_FOUR as int, radius as int)));
        let delta = spec_atan2(dv.y as int, dv.x as int);
        let alpha = match c1.direction {
            Direction::Left => spec_sub(delta, theta0),
            Direction::Right => spec_add(theta0, delta),
        };
        let two_r = spec_mul(FX_TWO as int, radius as int);
        let center = spec_point_plus(
            c1.center,
            Point {
                x: spec_mul(two_r, cos_bits(alpha)) as i64,
                y: spec_mul(two_r, sin_bits(alpha)) as i64,
            },
        );
        let middle = Circle { center, radius, direction: spec_opposite(c1.direction) };
        let first = spec_midpoint(center, c1.center);
        let second = spec_midpoint(center, c2.center);
        Option::Some(
            DubinPath::CCC(
                Arc { circle: c1, start: start.point, end: first },
                Arc { circle: middle, start: first, end: second },
                Arc { circle: c2, start: second, end: end.point },
            ),
        )
    }
}

/// The midpoint of two points, componentwise.
pub open spec fn spec_midpoint(a: Point, b: Point) -> Point {
    Point {
        x: spec_div(spec_add(a.x as int, b.x as int), FX_TWO as int) as i64,
        y: spec_div(spec_add(a.y as int, b.y as int), FX_TWO as int) as i64,
    }
}

fn midpoint(a: Point, b: Point) -> (r: Point)
    ensures
        r == spec_midpoint(a, b),
{
    Point { x: fx_div(fx_add(a.x, b.x), FX_TWO), y: fx_div(fx_add(a.y, b.y), FX_TWO) }
}

fn ccc_path(
    start: &DirectedPoint,
    end: &DirectedPoint,
    c1: &Circle,
    c2: &Circle,
    radius: i64,
) -> (r: Option<DubinPath>)
    ensures
        r == spec_ccc_path(*start, *end, *c1, *c2, radius),
{
    proof {
        reveal(spec_ccc_path);
    }
    let d = c1.center.distance_to(&c2.center);
    if d >= fx_mul(FX_FOUR, radius) {
        return Option::None;
    }
    let dv = c2.center.minus(c1.center);
    let theta0 = fx_acos(fx_div(d, fx_mul(FX_FOUR, radius)));
    let delta = fx_atan2(dv.y, dv.x);
    let alpha = match c1.direction {
        Direction::Left => fx_sub(delta, theta0),
        Direction::Right => fx_add(theta0, delta),
    };
    let two_r = fx_mul(FX_TWO, radius);
    let center = c1.center.plus(
        Point { x: fx_mul(two_r, fx_cos(alpha)), y: fx_mul(two_r, fx_sin(alpha)) },
    );
    let middle = Circle { center, radius, direction: c1.direction.opposite() };
    let first = midpoint(center, c1.center);
    let second = midpoint(center, c2.center);
    Option::Some(
        DubinPath::CCC(
            Arc::new(start.point, first, *c1),
            Arc::new(first, second, middle),
            Arc::new(second, end.point, *c2),
        ),
    )
}

/// Appends an optional path to a candidate sequence.
pub open spec fn push_opt(s: Seq<DubinPath>, o: Option<DubinPath>) -> Seq<DubinPath> {
    match o {
        Option::Some(p) => s.push(p),
        Option::None => s,
    }
}

/// All candidate paths for a pose pair at one radius, in word order
/// LSL, LSR, RSL, RSR, LRL, RLR; infeasible words are left out.
#[verifier::opaque]
pub open spec fn spec_dubin_candidates(
    start: DirectedPoint,
    end: DirectedPoint,
    radius: i64,
) -> Seq<DubinPath> {
    let cs = spec_circle_set(start, end, radius);
    push_opt(
        push_opt(
            push_opt(
                push_opt(
                    push_opt(
                        push_opt(
                            Seq::empty(),
                            spec_csc_path(start, end, cs.start_left, cs.end_left),
                        ),
                        spec_csc_path(start, end, cs.start_left, cs.end_right),
                    ),
                    spec_csc_path(start, end, cs.start_right, cs.end_left),
                ),
                spec_csc_path(start, end, cs.start_right, cs.end_right),
            ),
            spec_ccc_path(start, end, cs.start_left, cs.end_left, radius),
        ),
        spec_ccc_path(start, end, cs.start_right, cs.end_right, radius),
    )
}

fn push_path(v: &mut Vec<DubinPath>, o: Option<DubinPath>)
    ensures
        final (v)@ == push_opt(old(v)@, o),
{
    match o {
        Option::Some(p) => v.push(p),
        Option::None => (),
    }
}

/// Computes every feasible Dubins path between two poses at the given
/// turning radius. Headings are taken in radians (mathematical convention)
/// and are normalized before use, so any heading is accepted.
#[verifier::rlimit(100)]
pub fn calculate_dubin_path_candidates(
    start: Point,
    end: Point,
    start_angle: i64,
    end_angle: i64,
    radius: i64,
) -> (r: Vec<DubinPath>)
    ensures
        r@ == spec_dubin_candidates(
            DirectedPoint { point: start, angle: crate::trig::spec_normalize_angle(start_angle as int) as i64 },
            DirectedPoint { point: end, angle: crate::trig::spec_normalize_angle(end_angle as int) as i64 },
            radius,
        ),
{
    let s = DirectedPoint { point: start, angle: crate::trig::fx_normalize_angle(start_angle) };
    let e = DirectedPoint { point: end, angle: crate::trig::fx_normalize_angle(end_angle) };
    proof {
        assert(s == DirectedPoint {
            point: start,
            angle: crate::trig::spec_normalize_angle(start_angle as int) as i64,
        });
        assert(e == DirectedPoint {
            point: end,
            angle: crate::trig::spec_normalize_angle(end_angle as int) as i64,
        });
    }
    proof {
        reveal(spec_dubin_candidates);
    }
    let circles = CircleSet::new(&s, &e, radius);
    let mut paths: Vec<DubinPath> = Vec::new();
    proof {
        assert(paths@ == Seq::<DubinPath>::empty());
    }
    push_path(&mut paths, csc_path(&s, &e, &circles.start_left, &circles.end_left));
    push_path(&mut paths, csc_path(&s, &e, &circles.start_left, &circles.end_right));
    push_path(&mut paths, csc_path(&s, &e, &circles.start_right, &circles.end_left));
    push_path(&mut paths, csc_path(&s, &e, &circles.start_right, &circles.end_right));
    push_path(&mut paths, ccc_path(&s, &e, &circles.start_left, &circles.end_left, radius));
    push_path(&mut paths, ccc_path(&s, &e, &circles.start_right, &circles.end_right, radius));
    proof {
        assert(paths@ == spec_dubin_candidates(s, e, radius));
    }
    paths
}

/// A path is connected when each component begins exactly where the
/// previous one ends.
pub open spec fn spec_connected(p: DubinPath) -> bool {
    match p {
        DubinPath::CSC(a1, t, a2) => a1.end == t.start && t.end == a2.start,
        DubinPath::CCC(a1, a2, a3) => a1.end == a2.start && a2.end == a3.start,
    }
}

proof fn lemma_push_opt_connected(s: Seq<DubinPath>, o: Option<DubinPath>)
    requires
        forall|i: int| 0 <= i < s.len() ==> spec_connected(#[trigger] s[i]),
        o matches Option::Some(p) ==> spec_connected(p),
    ensures
        forall|i: int|
            0 <= i < push_opt(s, o).len() ==> spec_connected(#[trigger] push_opt(s, o)[i]),
{
}

/// Every candidate is internally connected, exactly: in a CSC path the
/// first arc ends where the tangent starts and the tangent ends where the
/// second arc starts; in a CCC path the arcs chain through the crossovers.
pub proof fn lemma_tangent_roundtrip(start: DirectedPoint, end: DirectedPoint, radius: i64)
    ensures
        forall|i: int|
            0 <= i < spec_dubin_candidates(start, end, radius).len() ==> spec_connected(
                #[trigger] spec_dubin_candidates(start, end, radius)[i],
            ),
{
    reveal(spec_dubin_candidates);
    reveal(spec_ccc_path);
    let cs = spec_circle_set(start, end, radius);
    let o1 = spec_csc_path(start, end, cs.start_left, cs.end_left);
    let o2 = spec_csc_path(start, end, cs.start_left, cs.end_right);
    let o3 = spec_csc_path(start, end, cs.start_right, cs.end_left);
    let o4 = spec_csc_path(start, end, cs.start_right, cs.end_right);
    let o5 = spec_ccc_path(start, end, cs.start_left, cs.end_left, radius);
    let o6 = spec_ccc_path(start, end, cs.start_right, cs.end_right, radius);
    let s0 = Seq::<DubinPath>::empty();
    let s1 = push_opt(s0, o1);
    let s2 = push_opt(s1, o2);
    let s3 = push_opt(s2, o3);
    let s4 = push_opt(s3, o4);
    let s5 = push_opt(s4, o5);
    let s6 = push_opt(s5, o6);
    lemma_push_opt_connected(s0, o1);
    lemma_push_opt_connected(s1, o2);
    lemma_push_opt_connected(s2, o3);
    lemma_push_opt_connected(s3, o4);
    lemma_push_opt_connected(s4, o5);
    lemma_push_opt_connected(s5, o6);
    assert(spec_dubin_candidates(start, end, radius) == s6);
}

/// For same-direction start and end circles, a CCC path exists exactly
/// when the distance between the centers is below four radii.
pub proof fn lemma_ccc_feasibility(
    start: DirectedPoint,
    end: DirectedPoint,
    c1: Circle,
    c2: Circle,
    radius: i64,
)
    requires
        c1.direction == c2.direction,
    ensures
        spec_ccc_path(start, end, c1, c2, radius) is Some <==> spec_distance(c1.center, c2.center)
            < spec_mul(FX_FOUR as int, radius as int),
{
    reveal(spec_ccc_path);
}

/// Between one and six candidate words exist whenever one of the
/// same-direction circle pairs has distinct centers: the outer tangent of
/// equal-radius circles always exists. The six-word bound holds always.
pub proof fn lemma_candidate_count(start: DirectedPoint, end: DirectedPoint, radius: i64)
    ensures
        spec_dubin_candidates(start, end, radius).len() <= 6,
        (spec_distance(
            spec_circle_set(start, end, radius).start_right.center,
            spec_circle_set(start, end, radius).end_right.center,
        ) != 0 || spec_distance(
            spec_circle_set(start, end, radius).start_left.center,
            spec_circle_set(start, end, radius).end_left.center,
        ) != 0) ==> spec_dubin_candidates(start, end, radius).len() >= 1,
{
    reveal(spec_dubin_candidates);
    let cs = spec_circle_set(start, end, radius);
    let dr = spec_distance(cs.start_right.center, cs.end_right.center);
    let dl = spec_distance(cs.start_left.center, cs.end_left.center);
    if dr != 0 {
        reveal(spec_tangent_to);
        let rr = spec_csc_path(start, end, cs.start_right, cs.end_right);
        assert(spec_sub(cs.start_right.radius as int, cs.end_right.radius as int) == 0);
        assert(spec_div(0, dr) == 0);
        assert(spec_mul(0, 0) == 0);
        assert(rr is Some);
    } else if dl != 0 {
        reveal(spec_tangent_to);
        let ll = spec_csc_path(start, end, cs.start_left, cs.end_left);
        assert(spec_sub(cs.start_left.radius as int, cs.end_left.radius as int) == 0);
        assert(spec_div(0, dl) == 0);
        assert(spec_mul(0, 0) == 0);
        assert(ll is Some);
    }
}

} // verus!
