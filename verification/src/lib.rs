//! Observational facts about celestial objects — position, distance,
//! brightness, phase — resolved into typed values and rendered as fixed-width
//! text tiles.
//!
//! The astronomical quantities themselves (positions, magnitudes, phase
//! angles, rise and set instants) are supplied by the caller as plain
//! fixed-point integers; this crate owns the property-resolution rules, the
//! reference-table bracketing, the crescent silhouette geometry and the tile
//! layout, and proves their contracts.

pub mod strfmt;
pub mod text;
pub mod tile;
pub mod trig;
pub mod query;
pub mod render;
pub mod value;
