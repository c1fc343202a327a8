//! Verified interaction and simulation logic for an orbit-camera scene viewer.
//!
//! Every quantity is a fixed-point integer; each field documents its unit.
//! The rendering host owns all floating-point work (trigonometry, projection)
//! and hands this crate integer snapshots once per frame.

pub mod clock;
pub mod emitter;
pub mod frame;
pub mod geometry;
pub mod orbit;
pub mod panel;
pub mod picking;
pub mod slider;
pub mod text;
