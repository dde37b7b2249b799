//! The landing-site model: surface, usage and human-presence categories,
//! risk classification, the site record with its derived geometry, and the
//! landable touchdown points of a site for a given aircraft.

use vstd::prelude::*;
use crate::fx::{
    fx_add, fx_div, fx_mul, fx_sub, iabs, spec_add, spec_div, spec_mul, spec_sub, FX_SCALE,
};
use crate::aircraft::{
    scaled, spec_feet_to_m, spec_scaled, Aircraft, LandingPerformance,
};
use crate::geographic::{
    bearing, haversine_destination, haversine_distance, spec_bearing, spec_geo_wf,
    spec_haversine_destination, spec_haversine_distance, GeoPoint, FX_DEG_90, FX_DEG_180,
};
use vstd::string::StringExecFns;

verus! {

/// Kind of surface at a site.
#[derive(Clone, Copy, PartialEq, Eq, Structural, Debug, Hash)]
pub enum SurfaceType {
    Asphalt,
    Gras,
    Water,
}

/// What a site is used for.
#[derive(Clone, Copy, PartialEq, Eq, Structural, Debug, Hash)]
pub enum UsageType {
    Agricultural,
    Aeronautical,
    Nature,
    Waterway,
    Event,
    Park,
}

/// Whether and how humans are expected at a site.
#[derive(Clone, Copy, PartialEq, Eq, Structural, Debug, Hash)]
pub enum HumanPresenceCategory {
    Dense,
    Sparse,
    EventOnly,
    Unlikely,
}

impl Default for HumanPresenceCategory {
    /// Absent better knowledge, humans are taken as unlikely.
    fn default() -> (r: HumanPresenceCategory)
        ensures
            r == HumanPresenceCategory::Unlikely,
    {
        HumanPresenceCategory::Unlikely
    }
}

/// The risk of landing at a site, ordered Safe < Risky < Unsafe.
#[derive(Clone, Copy, PartialEq, Eq, Structural, Debug, Hash)]
pub enum RiskClassification {
    Safe,
    Risky,
    Unsafe,
}

/// The numeric level of a risk: Safe 0, Risky 1, Unsafe 2.
pub open spec fn spec_risk_level(r: RiskClassification) -> int {
    match r {
        RiskClassification::Safe => 0,
        RiskClassification::Risky => 1,
        RiskClassification::Unsafe => 2,
    }
}

/// The worse of two risks under the order Safe < Risky < Unsafe.
pub open spec fn spec_risk_max(a: RiskClassification, b: RiskClassification)
    -> RiskClassification {
    if spec_risk_level(a) >= spec_risk_level(b) {
        a
    } else {
        b
    }
}

impl RiskClassification {
    /// The numeric level of the risk: Safe 0, Risky 1, Unsafe 2.
    pub fn level(&self) -> (r: u8)
        ensures
            r as int == spec_risk_level(*self),
    {
        match self {
            RiskClassification::Safe => 0,
            RiskClassification::Risky => 1,
            RiskClassification::Unsafe => 2,
        }
    }

    /// The risk of a numeric level.
    pub fn from_level(level: u8) -> (r: RiskClassification)
        requires
            level <= 2,
        ensures
            spec_risk_level(r) == level as int,
    {
        if level == 0 {
            RiskClassification::Safe
        } else if level == 1 {
            RiskClassification::Risky
        } else {
            RiskClassification::Unsafe
        }
    }

    /// Combines two risks into the worse of the two.
    pub fn combine(self, other: RiskClassification) -> (r: RiskClassification)
        ensures
            r == spec_risk_max(self, other),
    {
        if self.level() >= other.level() {
            self
        } else {
            other
        }
    }

    /// The three risks in ascending order of severity.
    pub fn ascending() -> (r: Vec<RiskClassification>)
        ensures
            r@ == seq![
                RiskClassification::Safe,
                RiskClassification::Risky,
                RiskClassification::Unsafe,
            ],
    {
        let mut v: Vec<RiskClassification> = Vec::new();
        v.push(RiskClassification::Safe);
        v.push(RiskClassification::Risky);
        v.push(RiskClassification::Unsafe);
        proof {
            assert(v@ =~= seq![
                RiskClassification::Safe,
                RiskClassification::Risky,
                RiskClassification::Unsafe,
            ]);
        }
        v
    }
}

/// Ground roll on a surface, in fixed-point meters: grass costs twenty
/// percent extra roll (exactly 2286/6250 m per foot); water is kept at the
/// paved figure, since water sites are classified unsafe anyway.
pub open spec fn spec_ground_roll_on_surface(l: LandingPerformance, s: SurfaceType) -> int {
    match s {
        SurfaceType::Asphalt => spec_feet_to_m(l.ground_roll as int),
        SurfaceType::Gras => spec_scaled(l.ground_roll as int, 2286, 6250),
        SurfaceType::Water => spec_feet_to_m(l.ground_roll as int),
    }
}

/// Total landing distance over the obstacle on a surface: the airborne
/// clearance part plus the surface-adjusted ground roll.
pub open spec fn spec_total_distance_on_surface(l: LandingPerformance, s: SurfaceType) -> int {
    spec_add(
        spec_sub(spec_feet_to_m(l.total_distance as int), spec_feet_to_m(l.ground_roll as int)),
        spec_ground_roll_on_surface(l, s),
    )
}

impl LandingPerformance {
    /// Ground roll adjusted for the surface, in fixed-point meters.
    pub fn ground_roll_on_surface(&self, surface: &SurfaceType) -> (r: i64)
        ensures
            r as int == spec_ground_roll_on_surface(*self, *surface),
    {
        match surface {
            SurfaceType::Asphalt => self.ground_roll(),
            SurfaceType::Gras => scaled(self.ground_roll, 2286, 6250),
            SurfaceType::Water => self.ground_roll(),
        }
    }

    /// Total landing distance over the obstacle on a surface.
    pub fn total_distance_on_surface(&self, surface: &SurfaceType) -> (r: i64)
        ensures
            r as int == spec_total_distance_on_surface(*self, *surface),
    {
        let clearance = fx_sub(self.total_distance(), self.ground_roll());
        fx_add(clearance, self.ground_roll_on_surface(surface))
    }
}

/// A candidate landing site: identity, usability flags and the geographic
/// endpoints of its usable run.
#[derive(Clone, Debug)]
pub struct Location {
    pub name: String,
    pub reversible: bool,
    pub surface: SurfaceType,
    pub human_presence: HumanPresenceCategory,
    pub usage: UsageType,
    pub elevation: u64,
    pub start: GeoPoint,
    pub end: GeoPoint,
    pub survey_date: String,
    pub remarks: Option<String>,
}

/// A site record is well-formed when both endpoints carry valid
/// coordinates.
pub open spec fn spec_location_wf(l: Location) -> bool {
    spec_geo_wf(l.start) && spec_geo_wf(l.end)
}

/// The centroid of a site: the coordinatewise midpoint of its endpoints.
pub open spec fn spec_centroid(l: Location) -> GeoPoint {
    GeoPoint {
        lat: spec_div(spec_add(l.start.lat as int, l.end.lat as int), crate::fx::FX_TWO as int) as i64,
        lon: spec_div(spec_add(l.start.lon as int, l.end.lon as int), crate::fx::FX_TWO as int) as i64,
    }
}

/// The usable length of a site: the great-circle distance between its
/// endpoints, in fixed-point meters.
pub open spec fn spec_length(l: Location) -> int {
    spec_haversine_distance(l.start, l.end)
}

/// The along-run distance by which the usable length exceeds what the
/// aircraft needs to land on this surface.
pub open spec fn spec_inset(l: Location, a: Aircraft) -> int {
    spec_sub(spec_length(l), spec_total_distance_on_surface(a.landing, l.surface))
}

/// The landing headroom: the fraction of the required distance available
/// beyond the full requirement; negative when the site is too short.
pub open spec fn spec_landing_headroom(l: Location, a: Aircraft) -> int {
    let required = spec_total_distance_on_surface(a.landing, l.surface);
    spec_div(spec_sub(spec_length(l), required), required)
}

impl Location {
    /// Builds a site record from validated fields.
    pub fn new(
        name: String,
        reversible: bool,
        surface: SurfaceType,
        human_presence: HumanPresenceCategory,
        usage: UsageType,
        elevation: u64,
        start: GeoPoint,
        end: GeoPoint,
        survey_date: String,
        remarks: Option<String>,
    ) -> (r: Location)
        requires
            spec_geo_wf(start),
            spec_geo_wf(end),
        ensures
            spec_location_wf(r),
            r.name@ == name@,
            r.reversible == reversible,
            r.surface == surface,
            r.human_presence == human_presence,
            r.usage == usage,
            r.elevation == elevation,
            r.start == start,
            r.end == end,
    {
        Location {
            name,
            reversible,
            surface,
            human_presence,
            usage,
            elevation,
            start,
            end,
            survey_date,
            remarks,
        }
    }

    /// Beginning of the usable run.
    pub fn start(&self) -> (r: GeoPoint)
        ensures
            r == self.start,
    {
        self.start
    }

    /// End of the usable run.
    pub fn end(&self) -> (r: GeoPoint)
        ensures
            r == self.end,
    {
        self.end
    }

    /// Center of the usable run.
    pub fn centroid(&self) -> (r: GeoPoint)
        requires
            spec_location_wf(*self),
        ensures
            r == spec_centroid(*self),
            spec_geo_wf(r),
    {
        proof {
            lemma_half_stays_bounded(self.start.lat as int, self.end.lat as int, FX_DEG_90 as int);
            lemma_half_stays_bounded(self.start.lon as int, self.end.lon as int, FX_DEG_180 as int);
        }
        GeoPoint {
            lat: fx_div(fx_add(self.start.lat, self.end.lat), crate::fx::FX_TWO),
            lon: fx_div(fx_add(self.start.lon, self.end.lon), crate::fx::FX_TWO),
        }
    }

    /// Usable length of the run in fixed-point meters.
    pub fn length(&self) -> (r: i64)
        requires
            spec_location_wf(*self),
        ensures
            r as int == spec_length(*self),
    {
        haversine_distance(&self.start, &self.end)
    }

    /// Initial compass bearing of the run in fixed-point degrees.
    pub fn bearing(&self) -> (r: i64)
        requires
            spec_location_wf(*self),
        ensures
            r as int == spec_bearing(self.start, self.end),
            iabs(r as int) <= crate::geographic::FX_DEG_360 as int,
    {
        bearing(&self.start, &self.end)
    }

    /// Compass bearing of the reverse direction; only reversible sites
    /// have one.
    pub fn reverse_bearing(&self) -> (r: i64)
        requires
            spec_location_wf(*self),
            self.reversible,
        ensures
            r as int == spec_bearing(self.end, self.start),
            iabs(r as int) <= crate::geographic::FX_DEG_360 as int,
    {
        bearing(&self.end, &self.start)
    }

    /// The distance by which the usable length exceeds the required
    /// landing distance, in fixed-point meters.
    pub fn inset(&self, aircraft: &Aircraft) -> (r: i64)
        requires
            spec_location_wf(*self),
        ensures
            r as int == spec_inset(*self, *aircraft),
    {
        let required = aircraft.landing.total_distance_on_surface(&self.surface);
        fx_sub(self.length(), required)
    }

    /// The fraction of the required landing distance available beyond the
    /// requirement.
    pub fn landing_headroom(&self, aircraft: &Aircraft) -> (r: i64)
        requires
            spec_location_wf(*self),
        ensures
            r as int == spec_landing_headroom(*self, *aircraft),
    {
        let required = aircraft.landing.total_distance_on_surface(&self.surface);
        fx_div(fx_sub(self.length(), required), required)
    }
}

/// One step of the site-id hash: fold a 64-bit word into the running
/// state by xor and a wrapping multiply with the FNV prime.
pub open spec fn spec_id_step(h: u64, w: u64) -> u64 {
    (h ^ w).wrapping_mul(0x100000001b3)
}

/// The 64-bit site id hash over the four coordinate words, in order
/// start longitude, start latitude, end longitude, end latitude, starting
/// from the FNV offset basis.
pub open spec fn spec_site_hash(l: Location) -> u64 {
    spec_id_step(
        spec_id_step(
            spec_id_step(
                spec_id_step(0xcbf29ce484222325u64, l.start.lon as u64),
                l.start.lat as u64,
            ),
            l.end.lon as u64,
        ),
        l.end.lat as u64,
    )
}

/// The lowercase hex digit of a value below sixteen.
pub open spec fn spec_hex_digit(d: int) -> char {
    if d == 0 {
        '0'
    } else if d == 1 {
        '1'
    } else if d == 2 {
        '2'
    } else if d == 3 {
        '3'
    } else if d == 4 {
        '4'
    } else if d == 5 {
        '5'
    } else if d == 6 {
        '6'
    } else if d == 7 {
        '7'
    } else if d == 8 {
        '8'
    } else if d == 9 {
        '9'
    } else if d == 10 {
        'a'
    } else if d == 11 {
        'b'
    } else if d == 12 {
        'c'
    } else if d == 13 {
        'd'
    } else if d == 14 {
        'e'
    } else {
        'f'
    }
}

/// The lowercase hex rendering of a value, without leading zeros.
pub open spec fn spec_hex_chars(v: int) -> Seq<char>
    decreases v,
{
    if v < 16 {
        seq![spec_hex_digit(v)]
    } else {
        spec_hex_chars(v / 16).push(spec_hex_digit(v % 16))
    }
}

fn append_hex_digit(s: &mut String, d: u64)
    requires
        d < 16,
    ensures
        final (s)@ == old(s)@.push(spec_hex_digit(d as int)),
{
    proof {
        reveal_strlit("0");
        reveal_strlit("1");
        reveal_strlit("2");
        reveal_strlit("3");
        reveal_strlit("4");
        reveal_strlit("5");
        reveal_strlit("6");
        reveal_strlit("7");
        reveal_strlit("8");
        reveal_strlit("9");
        reveal_strlit("a");
        reveal_strlit("b");
        reveal_strlit("c");
        reveal_strlit("d");
        reveal_strlit("e");
        reveal_strlit("f");
    }
    let digit: &str = if d == 0 {
        "0"
    } else if d == 1 {
        "1"
    } else if d == 2 {
        "2"
    } else if d == 3 {
        "3"
    } else if d == 4 {
        "4"
    } else if d == 5 {
        "5"
    } else if d == 6 {
        "6"
    } else if d == 7 {
        "7"
    } else if d == 8 {
        "8"
    } else if d == 9 {
        "9"
    } else if d == 10 {
        "a"
    } else if d == 11 {
        "b"
    } else if d == 12 {
        "c"
    } else if d == 13 {
        "d"
    } else if d == 14 {
        "e"
    } else {
        "f"
    };
    s.append(digit);
    proof {
        assert(final (s)@ =~= old(s)@.push(spec_hex_digit(d as int)));
    }
}

fn push_hex(s: &mut String, v: u64)
    ensures
        final (s)@ == old(s)@ + spec_hex_chars(v as int),
    decreases v,
{
    if v < 16 {
        append_hex_digit(s, v);
        proof {
            assert(final (s)@ =~= old(s)@ + spec_hex_chars(v as int));
        }
    } else {
        push_hex(s, v / 16);
        append_hex_digit(s, v % 16);
        proof {
            assert(final (s)@ =~= old(s)@ + spec_hex_chars(v as int));
        }
    }
}

/// How many inset steps of a given resolution fit into a site's landable
/// inset for an aircraft.
pub open spec fn spec_step_count(l: Location, a: Aircraft, resolution: i64) -> int {
    let inset = spec_inset(l, a);
    if inset > 0 {
        spec_div(inset, resolution as int) / (FX_SCALE as int)
    } else {
        0
    }
}

/// The pair of touchdown candidates one inset step from each approach end:
/// always the one stepped in from the start; for reversible sites also the
/// one stepped in from the end.
pub open spec fn spec_inset_pair(l: Location, resolution: i64, i: int) -> Seq<(GeoPoint, i64)> {
    let d = spec_mul(resolution as int, spec_scaled(i, 1, 1));
    let b = spec_bearing(l.start, l.end);
    let first = (spec_haversine_destination(l.start, b, d), b as i64);
    if l.reversible {
        let rb = spec_bearing(l.end, l.start);
        seq![first, (spec_haversine_destination(l.end, rb, d), rb as i64)]
    } else {
        seq![first]
    }
}

/// All touchdown candidates up to a number of inset steps, in step order.
pub open spec fn spec_inset_points(l: Location, resolution: i64, count: int) -> Seq<
    (GeoPoint, i64),
>
    decreases count,
{
    if count <= 0 {
        Seq::empty()
    } else {
        spec_inset_points(l, resolution, count - 1) + spec_inset_pair(l, resolution, count)
    }
}

/// Every touchdown candidate of a site for an aircraft: the site ends with
/// their target bearings, then the inset candidates at each step of the
/// resolution that still leaves the required stopping distance.
pub open spec fn spec_landable_points(l: Location, a: Aircraft, resolution: i64) -> Seq<
    (GeoPoint, i64),
> {
    spec_landable_base(l) + spec_inset_points(l, resolution, spec_step_count(l, a, resolution))
}

impl Location {
    /// A deterministic identifier derived from the endpoint coordinates:
    /// a 64-bit hash of the four coordinate words rendered as lowercase
    /// hex. Stable across restarts.
    pub fn id(&self) -> (r: String)
        ensures
            r@ == spec_hex_chars(spec_site_hash(*self) as int),
    {
        let mut h: u64 = 0xcbf29ce484222325;
        h = (h ^ (self.start.lon as u64)).wrapping_mul(0x100000001b3);
        h = (h ^ (self.start.lat as u64)).wrapping_mul(0x100000001b3);
        h = (h ^ (self.end.lon as u64)).wrapping_mul(0x100000001b3);
        h = (h ^ (self.end.lat as u64)).wrapping_mul(0x100000001b3);
        let mut s = String::new();
        push_hex(&mut s, h);
        proof {
            assert(s@ =~= spec_hex_chars(spec_site_hash(*self) as int));
        }
        s
    }

    /// A four-cornered polygon spaced a given distance off the run ends at
    /// 45 degrees off-axis, used as a selection hitbox around the site.
    pub fn spaced_polygon(&self, distance: i64) -> (r: Vec<GeoPoint>)
        requires
            spec_location_wf(*self),
        ensures
            r@.len() == 4,
            r@[0] == spec_haversine_destination(
                self.start,
                spec_add(spec_bearing(self.end, self.start), crate::geographic::FX_DEG_45 as int),
                distance as int,
            ),
            r@[1] == spec_haversine_destination(
                self.start,
                spec_sub(spec_bearing(self.end, self.start), crate::geographic::FX_DEG_45 as int),
                distance as int,
            ),
            r@[2] == spec_haversine_destination(
                self.end,
                spec_add(spec_bearing(self.start, self.end), crate::geographic::FX_DEG_45 as int),
                distance as int,
            ),
            r@[3] == spec_haversine_destination(
                self.end,
                spec_sub(spec_bearing(self.start, self.end), crate::geographic::FX_DEG_45 as int),
                distance as int,
            ),
    {
        let b = bearing(&self.start, &self.end);
        let rb = bearing(&self.end, &self.start);
        let a_pt = haversine_destination(&self.start, fx_add(rb, crate::geographic::FX_DEG_45), distance);
        let b_pt = haversine_destination(&self.start, fx_sub(rb, crate::geographic::FX_DEG_45), distance);
        let c_pt = haversine_destination(&self.end, fx_add(b, crate::geographic::FX_DEG_45), distance);
        let d_pt = haversine_destination(&self.end, fx_sub(b, crate::geographic::FX_DEG_45), distance);
        let mut v: Vec<GeoPoint> = Vec::new();
        v.push(a_pt);
        v.push(b_pt);
        v.push(c_pt);
        v.push(d_pt);
        v
    }

    /// Every touchdown candidate of the site for an aircraft at a given
    /// inset resolution (fixed-point meters, positive): geographic point
    /// and target compass bearing.
    pub fn landable_points(&self, aircraft: &Aircraft, resolution: i64) -> (r: Vec<
        (GeoPoint, i64),
    >)
        requires
            spec_location_wf(*self),
            resolution > 0,
        ensures
            r@ == spec_landable_points(*self, *aircraft, resolution),
            forall|j: int| 0 <= j < r@.len() ==> spec_geo_wf((#[trigger] r@[j]).0),
    {
        let b = self.bearing();
        let mut points: Vec<(GeoPoint, i64)> = Vec::new();
        points.push((self.start, b));
        if self.reversible {
            let rb = self.reverse_bearing();
            points.push((self.end, rb));
        }
        let inset = self.inset(aircraft);
        let count: u64 = if inset > 0 {
            let q = fx_div(inset, resolution);
            proof {
                vstd::arithmetic::mul::lemma_mul_nonnegative(inset as int, FX_SCALE as int);
                vstd::arithmetic::div_mod::lemma_div_pos_is_pos(
                    iabs((inset as int) * (FX_SCALE as int)),
                    resolution as int,
                );
            }
            (q as u64) / (FX_SCALE as u64)
        } else {
            0
        };
        proof {
            assert(count as int == spec_step_count(*self, *aircraft, resolution));
            assert(points@ =~= spec_landable_base(*self) + spec_inset_points(
                *self,
                resolution,
                0,
            ));
        }
        let mut i: u64 = 0;
        while i < count
            invariant
                spec_location_wf(*self),
                resolution > 0,
                i <= count,
                b as int == spec_bearing(self.start, self.end),
                iabs(b as int) <= crate::geographic::FX_DEG_360 as int,
                count as int == spec_step_count(*self, *aircraft, resolution),
                points@ == spec_landable_base(*self) + spec_inset_points(
                    *self,
                    resolution,
                    i as int,
                ),
                forall|j: int| 0 <= j < points@.len() ==> spec_geo_wf((#[trigger] points@[j]).0),
            decreases count - i,
        {
            let step = fx_mul(resolution, scaled(i + 1, 1, 1));
            let p1 = haversine_destination(&self.start, b, step);
            points.push((p1, b));
            if self.reversible {
                let rb = self.reverse_bearing();
                let p2 = haversine_destination(&self.end, rb, step);
                points.push((p2, rb));
            }
            proof {
                assert(points@ =~= spec_landable_base(*self) + spec_inset_points(
                    *self,
                    resolution,
                    i as int + 1,
                ));
            }
            i = i + 1;
        }
        proof {
            assert(points@ =~= spec_landable_points(*self, *aircraft, resolution));
        }
        points
    }
}

/// The site-end touchdown candidates that every site offers.
pub open spec fn spec_landable_base(l: Location) -> Seq<(GeoPoint, i64)> {
    let b = spec_bearing(l.start, l.end);
    if l.reversible {
        seq![
            (l.start, b as i64),
            (l.end, spec_bearing(l.end, l.start) as i64),
        ]
    } else {
        seq![(l.start, b as i64)]
    }
}

/// The index of the site whose centroid lies closest to a point: the
/// first index attaining the least great-circle distance; none for an
/// empty catalog.
pub fn closest_location(locations: &Vec<Location>, point: &GeoPoint) -> (r: Option<usize>)
    requires
        spec_geo_wf(*point),
        forall|s: int| 0 <= s < locations@.len() ==> spec_location_wf(#[trigger] locations@[s]),
    ensures
        match r {
            Option::Some(i) => {
                &&& (i as int) < locations@.len()
                &&& forall|j: int|
                    0 <= j < locations@.len() ==> spec_haversine_distance(
                        spec_centroid(#[trigger] locations@[j]),
                        *point,
                    ) >= spec_haversine_distance(spec_centroid(locations@[i as int]), *point)
                &&& forall|j: int|
                    0 <= j < i as int ==> spec_haversine_distance(
                        spec_centroid(#[trigger] locations@[j]),
                        *point,
                    ) > spec_haversine_distance(spec_centroid(locations@[i as int]), *point)
            },
            Option::None => locations@.len() == 0,
        },
{
    let mut best: Option<usize> = Option::None;
    let mut best_distance: i64 = 0;
    let mut i: usize = 0;
    while i < locations.len()
        invariant
            spec_geo_wf(*point),
            forall|s: int| 0 <= s < locations@.len() ==> spec_location_wf(#[trigger] locations@[s]),
            i <= locations@.len(),
            match best {
                Option::Some(b) => {
                    &&& (b as int) < i as int
                    &&& best_distance as int == spec_haversine_distance(
                        spec_centroid(locations@[b as int]),
                        *point,
                    )
                    &&& forall|j: int|
                        0 <= j < i as int ==> spec_haversine_distance(
                            spec_centroid(#[trigger] locations@[j]),
                            *point,
                        ) >= best_distance as int
                    &&& forall|j: int|
                        0 <= j < b as int ==> spec_haversine_distance(
                            spec_centroid(#[trigger] locations@[j]),
                            *point,
                        ) > best_distance as int
                },
                Option::None => i == 0,
            },
        decreases locations@.len() - i as int,
    {
        let centroid = locations[i].centroid();
        let d = haversine_distance(&centroid, point);
        let replace: bool = match &best {
            Option::Some(_) => d < best_distance,
            Option::None => true,
        };
        if replace {
            best = Option::Some(i);
            best_distance = d;
        }
        i = i + 1;
    }
    best
}

/// The midpoint of two bounded values stays within the bound.
proof fn lemma_half_stays_bounded(a: int, b: int, l: int)
    requires
        0 <= l,
        iabs(a) <= l,
        iabs(b) <= l,
    ensures
        iabs(spec_div(spec_add(a, b), crate::fx::FX_TWO as int)) <= l,
{
    let s = spec_add(a, b);
    let two_s = crate::fx::FX_TWO as int;
    assert(iabs(s) <= 2 * l);
    crate::fx::lemma_abs_mul(s, FX_SCALE as int);
    vstd::arithmetic::mul::lemma_mul_upper_bound(iabs(s), 2 * l, FX_SCALE as int, FX_SCALE as int);
    assert(2 * l * (FX_SCALE as int) == two_s * l) by (nonlinear_arith)
        requires
            two_s == 2 * (FX_SCALE as int),
    ;
    vstd::arithmetic::div_mod::lemma_div_pos_is_pos(iabs(s * (FX_SCALE as int)), two_s);
    vstd::arithmetic::div_mod::lemma_div_is_ordered(
        iabs(s * (FX_SCALE as int)),
        two_s * l,
        two_s,
    );
    vstd::arithmetic::div_mod::lemma_div_multiples_vanish(l, two_s);
}

} // verus!
