//! A throughput-adaptive status-line engine for network speed indicators.
//!
//! The library turns raw byte counters into a rendered status line: it
//! estimates upload/download speed from counter deltas, formats the speeds
//! in human-readable bits-per-second units, advances a pair of animation
//! phases at a speed-derived rate, and adapts the frame delay so the
//! animation neither judders at high speed nor busy-spins at low speed.
//! All phase and rate arithmetic is fixed-point: one icon step is
//! `PHASE_SCALE` phase units.

pub mod anim;
pub mod engine;
pub mod pacer;
pub mod speed;
pub mod units;

pub use units::display_speed_unit;
