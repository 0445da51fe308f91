//! A falling-sand particle sandbox: particles are spawned at a cursor
//! position and fall under a constant step-wise gravity until they rest on
//! the floor or on top of another particle.
//!
//! Coordinates are integers in a fixed sub-pixel unit (see
//! [`physics::UNITS_PER_PIXEL`]), the vertical axis grows upward and the
//! origin is the middle of the playfield.

pub mod particle;
pub mod store;
pub mod physics;
pub mod laws;
