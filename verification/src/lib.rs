//! A reachability-and-path engine for engine-out landings of small
//! general-aviation aircraft: Dubins shortest-path geometry over the CSC
//! and CCC families, a glide-energy model, worst-case range profiles and
//! risk-classified range polygons per landing site, and a ranked
//! landing-option search.
//!
//! All quantities are carried in Q32.32 fixed-point arithmetic on `i64`
//! (meters, meters per second, radians), so every computation is exact
//! integer arithmetic with a stated rounding rule; the trigonometric
//! primitives come from the `cordic` crate through a small trusted layer
//! whose results the contracts name.

pub mod aircraft;
pub mod calculator;
pub mod dubin;
pub mod fx;
pub mod geographic;
pub mod geom;
pub mod location;
pub mod trig;
