//! Verified core of a polygon-boundary visualization pipeline.
//!
//! A polygon boundary arrives as an ordered point sequence in some source
//! reference frame, either once from a configuration store or repeatedly from
//! a live stream. The caller looks up a rigid transform into a fixed target
//! ("static") frame and maps the points; this library turns the mapped points
//! into render-ready 2D line segments and manages the shared, lock-protected
//! segment cache that drives the two access patterns (pull and push).
//!
//! Coordinates are carried as opaque 64-bit scalar codes (for instance
//! IEEE-754 bit patterns); the library never interprets them, it only moves
//! them from points into segments.

pub mod geometry;
pub mod message;
pub mod polygon;
