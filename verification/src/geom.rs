//! Planar geometric primitives of the engine: points, directed points,
//! circles, arcs, tangents and the two Dubins path shapes, all over Q32.32
//! fixed-point meters and radians.

use vstd::prelude::*;
use crate::fx::{
    fx_abs, fx_add, fx_hypot, fx_mul, fx_sub, spec_abs, spec_add, spec_hypot, spec_mul, spec_sub,
};
use crate::trig::{fx_atan2, spec_atan2};

verus! {

/// Magnitude below which an arc angle counts as zero when it is normalized
/// against the circle direction (about 1e-6 radians).
pub const FX_ANGLE_EPS: i64 = 4295;

/// The sense of travel along a circle.
#[derive(Clone, Copy, PartialEq, Eq, Structural, Debug)]
pub enum Direction {
    Left,
    Right,
}

/// The opposite sense of travel.
pub open spec fn spec_opposite(d: Direction) -> Direction {
    match d {
        Direction::Left => Direction::Right,
        Direction::Right => Direction::Left,
    }
}

impl Direction {
    /// The opposite sense of travel.
    pub fn opposite(&self) -> (r: Direction)
        ensures
            r == spec_opposite(*self),
    {
        match self {
            Direction::Left => Direction::Right,
            Direction::Right => Direction::Left,
        }
    }
}

/// A position on the local plane, in fixed-point meters.
#[derive(Clone, Copy, PartialEq, Eq, Structural, Debug)]
pub struct Point {
    pub x: i64,
    pub y: i64,
}

/// Componentwise saturating vector sum.
pub open spec fn spec_point_plus(a: Point, b: Point) -> Point {
    Point { x: spec_add(a.x as int, b.x as int) as i64, y: spec_add(a.y as int, b.y as int) as i64 }
}

/// Componentwise saturating vector difference.
pub open spec fn spec_point_minus(a: Point, b: Point) -> Point {
    Point { x: spec_sub(a.x as int, b.x as int) as i64, y: spec_sub(a.y as int, b.y as int) as i64 }
}

/// The distance between two points, rounded down.
pub open spec fn spec_distance(a: Point, b: Point) -> int {
    spec_hypot(spec_sub(b.x as int, a.x as int), spec_sub(b.y as int, a.y as int))
}

impl Point {
    /// Builds a point from its coordinates.
    pub fn new(x: i64, y: i64) -> (r: Point)
        ensures
            r == (Point { x, y }),
    {
        Point { x, y }
    }

    /// Componentwise saturating vector sum.
    pub fn plus(self, o: Point) -> (r: Point)
        ensures
            r == spec_point_plus(self, o),
    {
        Point { x: fx_add(self.x, o.x), y: fx_add(self.y, o.y) }
    }

    /// Componentwise saturating vector difference.
    pub fn minus(self, o: Point) -> (r: Point)
        ensures
            r == spec_point_minus(self, o),
    {
        Point { x: fx_sub(self.x, o.x), y: fx_sub(self.y, o.y) }
    }

    /// The Euclidean distance to another point, rounded down.
    pub fn distance_to(&self, o: &Point) -> (r: i64)
        ensures
            r as int == spec_distance(*self, *o),
            r >= 0,
    {
        fx_hypot(fx_sub(o.x, self.x), fx_sub(o.y, self.y))
    }
}

/// A pose: a position together with a heading in radians
/// (mathematical convention, zero along +x, counterclockwise positive).
#[derive(Clone, Copy, PartialEq, Eq, Structural, Debug)]
pub struct DirectedPoint {
    pub point: Point,
    pub angle: i64,
}

impl DirectedPoint {
    /// Builds a pose from a position and a heading.
    pub fn new(point: Point, angle: i64) -> (r: DirectedPoint)
        ensures
            r == (DirectedPoint { point, angle }),
    {
        DirectedPoint { point, angle }
    }
}

/// A turning circle: center, radius and sense of travel.
#[derive(Clone, Copy, PartialEq, Eq, Structural, Debug)]
pub struct Circle {
    pub center: Point,
    pub radius: i64,
    pub direction: Direction,
}

/// A straight segment between points on two circles.
#[derive(Clone, Copy, PartialEq, Eq, Structural, Debug)]
pub struct Tangent {
    pub start: Point,
    pub end: Point,
}

/// Length of a tangent segment: the distance between its endpoints.
pub open spec fn spec_tangent_length(t: Tangent) -> int {
    spec_distance(t.start, t.end)
}

impl Tangent {
    /// Builds a tangent segment.
    pub fn new(start: Point, end: Point) -> (r: Tangent)
        ensures
            r == (Tangent { start, end }),
    {
        Tangent { start, end }
    }

    /// The straight-line length of the segment.
    pub fn raw_length(&self) -> (r: i64)
        ensures
            r as int == spec_tangent_length(*self),
            r >= 0,
    {
        self.start.distance_to(&self.end)
    }
}

/// A portion of a circle from one point on it to another.
#[derive(Clone, Copy, PartialEq, Eq, Structural, Debug)]
pub struct Arc {
    pub circle: Circle,
    pub start: Point,
    pub end: Point,
}

/// The signed arc angle: the difference of the polar angles of the two
/// endpoints around the center, shifted by one turn when its sign
/// disagrees with the circle direction by more than the tolerance.
pub open spec fn spec_raw_angle(a: Arc) -> int {
    let sv = spec_point_minus(a.start, a.circle.center);
    let ev = spec_point_minus(a.end, a.circle.center);
    let theta = spec_sub(
        spec_atan2(ev.y as int, ev.x as int),
        spec_atan2(sv.y as int, sv.x as int),
    );
    if theta < -(FX_ANGLE_EPS as int) && a.circle.direction == Direction::Right {
        spec_add(theta, crate::fx::FX_TWO_PI as int)
    } else if theta > FX_ANGLE_EPS as int && a.circle.direction == Direction::Left {
        spec_sub(theta, crate::fx::FX_TWO_PI as int)
    } else {
        theta
    }
}

/// The arc length: magnitude of the arc angle times the radius.
pub open spec fn spec_raw_length(a: Arc) -> int {
    spec_mul(spec_abs(spec_raw_angle(a)), a.circle.radius as int)
}

impl Arc {
    /// Builds an arc of a circle from one point to another.
    pub fn new(from: Point, to: Point, circle: Circle) -> (r: Arc)
        ensures
            r == (Arc { circle, start: from, end: to }),
    {
        Arc { circle, start: from, end: to }
    }

    /// The signed angle swept by the arc, in radians; its sign matches the
    /// circle direction except within the tolerance around zero.
    pub fn raw_angle(&self) -> (r: i64)
        ensures
            r as int == spec_raw_angle(*self),
            crate::fx::iabs(r as int) <= 10 * (crate::fx::FX_HALF_PI as int),
    {
        let sv = self.start.minus(self.circle.center);
        let ev = self.end.minus(self.circle.center);
        let theta = fx_sub(fx_atan2(ev.y, ev.x), fx_atan2(sv.y, sv.x));
        if theta < -FX_ANGLE_EPS && matches!(self.circle.direction, Direction::Right) {
            fx_add(theta, crate::fx::FX_TWO_PI)
        } else if theta > FX_ANGLE_EPS && matches!(self.circle.direction, Direction::Left) {
            fx_sub(theta, crate::fx::FX_TWO_PI)
        } else {
            theta
        }
    }

    /// The length of the arc: magnitude of its angle times the radius.
    pub fn raw_length(&self) -> (r: i64)
        ensures
            r as int == spec_raw_length(*self),
    {
        fx_mul(fx_abs(self.raw_angle()), self.circle.radius)
    }
}

/// The polar angle of the arc's end point around the center, normalized
/// against the circle direction like the arc angle: the rotation at which
/// a sweep of the arc ends.
pub open spec fn spec_start_angle(a: Arc) -> int {
    let ev = spec_point_minus(a.end, a.circle.center);
    let theta = spec_atan2(ev.y as int, ev.x as int);
    if theta < -(FX_ANGLE_EPS as int) && a.circle.direction == Direction::Right {
        spec_add(theta, crate::fx::FX_TWO_PI as int)
    } else if theta > FX_ANGLE_EPS as int && a.circle.direction == Direction::Left {
        spec_sub(theta, crate::fx::FX_TWO_PI as int)
    } else {
        theta
    }
}

/// How many whole degrees the arc sweeps: the arc angle in degrees,
/// rounded toward zero, in magnitude.
pub open spec fn spec_arc_degree_steps(a: Arc) -> int {
    crate::fx::iabs(
        crate::fx::quot_toward_zero(
            spec_mul(spec_raw_angle(a), crate::fx::FX_DEG_PER_RAD as int),
            crate::fx::FX_SCALE as int,
        ),
    )
}

/// One rendered point of an arc: the circle point one whole degree per
/// step from the normalized end rotation, stepping counterclockwise on a
/// left circle and clockwise on a right one.
pub open spec fn spec_arc_point(a: Arc, k: int) -> Point {
    let start_deg = spec_mul(spec_start_angle(a), crate::fx::FX_DEG_PER_RAD as int);
    let step = crate::aircraft::spec_scaled(k, 1, 1);
    let rot_deg = match a.circle.direction {
        Direction::Left => spec_add(start_deg, step),
        Direction::Right => spec_sub(start_deg, step),
    };
    let rot = spec_mul(rot_deg, crate::fx::FX_RAD_PER_DEG as int);
    spec_point_plus(
        a.circle.center,
        Point {
            x: spec_mul(a.circle.radius as int, crate::trig::cos_bits(rot)) as i64,
            y: spec_mul(a.circle.radius as int, crate::trig::sin_bits(rot)) as i64,
        },
    )
}

impl Arc {
    /// The rotation at which a sweep of the arc ends, normalized against
    /// the circle direction.
    pub fn start_angle(&self) -> (r: i64)
        ensures
            r as int == spec_start_angle(*self),
            crate::fx::iabs(r as int) <= 7 * (crate::fx::FX_HALF_PI as int),
    {
        let ev = self.end.minus(self.circle.center);
        let theta = fx_atan2(ev.y, ev.x);
        if theta < -FX_ANGLE_EPS && matches!(self.circle.direction, Direction::Right) {
            fx_add(theta, crate::fx::FX_TWO_PI)
        } else if theta > FX_ANGLE_EPS && matches!(self.circle.direction, Direction::Left) {
            fx_sub(theta, crate::fx::FX_TWO_PI)
        } else {
            theta
        }
    }

    /// Renders the arc as a trail of points, one per whole degree swept.
    pub fn points(&self) -> (r: Vec<Point>)
        ensures
            r@.len() == spec_arc_degree_steps(*self),
            forall|k: int| 0 <= k < r@.len() ==> r@[k] == spec_arc_point(*self, k),
    {
        let raw = self.raw_angle();
        let whole = crate::fx::fx_trunc(crate::geographic::rad_to_deg(raw));
        proof {
            crate::geographic::lemma_deg_of_wide_angle_bounded(raw as int);
            lemma_degree_steps_bounded(spec_mul(raw as int, crate::fx::FX_DEG_PER_RAD as int));
        }
        let count: u64 = if whole < 0 {
            (-(whole as i128)) as u64
        } else {
            whole as u64
        };
        let start_deg = crate::geographic::rad_to_deg(self.start_angle());
        proof {
            crate::geographic::lemma_deg_of_wide_angle_bounded(spec_start_angle(*self));
        }
        let mut out: Vec<Point> = Vec::new();
        let mut k: u64 = 0;
        while k < count
            invariant
                k <= count,
                count as int == spec_arc_degree_steps(*self),
                count <= 1080,
                start_deg as int == spec_mul(
                    spec_start_angle(*self),
                    crate::fx::FX_DEG_PER_RAD as int,
                ),
                crate::fx::iabs(start_deg as int) <= 3 * (crate::geographic::FX_DEG_360 as int),
                out@.len() == k as int,
                forall|j: int| 0 <= j < k as int ==> out@[j] == spec_arc_point(*self, j),
            decreases count - k,
        {
            let step = crate::aircraft::scaled(k, 1, 1);
            let rot_deg: i64 = match self.circle.direction {
                Direction::Left => fx_add(start_deg, step),
                Direction::Right => fx_sub(start_deg, step),
            };
            proof {
                assert(crate::aircraft::spec_scaled(k as int, 1, 1) <= 1080 * (
                crate::fx::FX_SCALE as int));
                crate::geographic::lemma_rad_small_wide(rot_deg as int);
            }
            let rot = crate::geographic::deg_to_rad(rot_deg);
            let p = self.circle.center.plus(
                Point {
                    x: fx_mul(self.circle.radius, crate::trig::fx_cos(rot)),
                    y: fx_mul(self.circle.radius, crate::trig::fx_sin(rot)),
                },
            );
            out.push(p);
            k = k + 1;
        }
        out
    }
}

/// A radian value within five half-turns gives at most 1080 whole degrees.
proof fn lemma_degree_steps_bounded(deg: int)
    requires
        crate::fx::iabs(crate::fx::fx_sat(crate::fx::quot_toward_zero(
            deg,
            crate::fx::FX_SCALE as int,
        ))) <= 3 * (crate::geographic::FX_DEG_360 as int),
    ensures
        crate::fx::iabs(
            crate::fx::quot_toward_zero(
                crate::fx::fx_sat(crate::fx::quot_toward_zero(deg, crate::fx::FX_SCALE as int)),
                crate::fx::FX_SCALE as int,
            ),
        ) <= 1080,
{
    let d = crate::fx::fx_sat(crate::fx::quot_toward_zero(deg, crate::fx::FX_SCALE as int));
    vstd::arithmetic::div_mod::lemma_div_pos_is_pos(crate::fx::iabs(d), crate::fx::FX_SCALE as int);
    vstd::arithmetic::div_mod::lemma_div_is_ordered(
        crate::fx::iabs(d),
        3 * (crate::geographic::FX_DEG_360 as int),
        crate::fx::FX_SCALE as int,
    );
    assert((3 * (crate::geographic::FX_DEG_360 as int)) / (crate::fx::FX_SCALE as int) == 1080);
}

/// The arc length equals the magnitude of the arc angle times the circle
/// radius, exactly in the fixed-point arithmetic.
pub proof fn lemma_arc_length_identity(a: Arc)
    ensures
        spec_raw_length(a) == spec_mul(spec_abs(spec_raw_angle(a)), a.circle.radius as int),
{
}

/// A Dubins path: either curve-straight-curve or curve-curve-curve.
#[derive(Clone, Copy, PartialEq, Eq, Structural, Debug)]
pub enum DubinPath {
    CSC(Arc, Tangent, Arc),
    CCC(Arc, Arc, Arc),
}

/// Total length of a path: the sum of its component lengths.
pub open spec fn spec_path_length(p: DubinPath) -> int {
    match p {
        DubinPath::CSC(a1, t, a2) => spec_add(
            spec_add(spec_raw_length(a1), spec_tangent_length(t)),
            spec_raw_length(a2),
        ),
        DubinPath::CCC(a1, a2, a3) => spec_add(
            spec_add(spec_raw_length(a1), spec_raw_length(a2)),
            spec_raw_length(a3),
        ),
    }
}

impl DubinPath {
    /// The total length of the path.
    pub fn length(&self) -> (r: i64)
        ensures
            r as int == spec_path_length(*self),
    {
        match self {
            DubinPath::CSC(a1, t, a2) => fx_add(
                fx_add(a1.raw_length(), t.raw_length()),
                a2.raw_length(),
            ),
            DubinPath::CCC(a1, a2, a3) => fx_add(
                fx_add(a1.raw_length(), a2.raw_length()),
                a3.raw_length(),
            ),
        }
    }
}

/// The word of a path: one letter per curve direction, S for the straight.
pub open spec fn spec_path_name(p: DubinPath) -> Seq<char> {
    match p {
        DubinPath::CSC(a1, _, a2) => seq![
            spec_direction_letter(a1.circle.direction),
            'S',
            spec_direction_letter(a2.circle.direction),
        ],
        DubinPath::CCC(a1, a2, a3) => seq![
            spec_direction_letter(a1.circle.direction),
            spec_direction_letter(a2.circle.direction),
            spec_direction_letter(a3.circle.direction),
        ],
    }
}

/// The letter of a curve direction.
pub open spec fn spec_direction_letter(d: Direction) -> char {
    match d {
        Direction::Left => 'L',
        Direction::Right => 'R',
    }
}

impl DubinPath {
    /// The word naming the path, such as LSR or RLR.
    pub fn name(&self) -> (r: &'static str)
        ensures
            r@ == spec_path_name(*self),
    {
        proof {
            reveal_strlit("LSL");
            reveal_strlit("LSR");
            reveal_strlit("RSL");
            reveal_strlit("RSR");
            reveal_strlit("LLL");
            reveal_strlit("LLR");
            reveal_strlit("LRL");
            reveal_strlit("LRR");
            reveal_strlit("RLL");
            reveal_strlit("RLR");
            reveal_strlit("RRL");
            reveal_strlit("RRR");
        }
        match self {
            DubinPath::CSC(a1, _, a2) => {
                match (a1.circle.direction, a2.circle.direction) {
                    (Direction::Left, Direction::Left) => "LSL",
                    (Direction::Left, Direction::Right) => "LSR",
                    (Direction::Right, Direction::Left) => "RSL",
                    (Direction::Right, Direction::Right) => "RSR",
                }
            },
            DubinPath::CCC(a1, a2, a3) => {
                match (a1.circle.direction, a2.circle.direction, a3.circle.direction) {
                    (Direction::Left, Direction::Left, Direction::Left) => "LLL",
                    (Direction::Left, Direction::Left, Direction::Right) => "LLR",
                    (Direction::Left, Direction::Right, Direction::Left) => "LRL",
                    (Direction::Left, Direction::Right, Direction::Right) => "LRR",
                    (Direction::Right, Direction::Left, Direction::Left) => "RLL",
                    (Direction::Right, Direction::Left, Direction::Right) => "RLR",
                    (Direction::Right, Direction::Right, Direction::Left) => "RRL",
                    (Direction::Right, Direction::Right, Direction::Right) => "RRR",
                }
            },
        }
    }
}

} // verus!
