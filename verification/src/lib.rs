//! Core control logic of a 2D pinball table.
//!
//! The playfield holds static obstacles (walls, a lane obstruction, three
//! bumpers) and a few player-driven mechanisms: two flippers, a spring-loaded
//! launcher, and a single ball that is recycled when it falls past the bottom
//! sensor. The physics solver, the renderer and the input devices are outside
//! collaborators: this crate only decides, once per fixed simulation tick,
//! what each mechanism does next, from plain values handed in by the driver
//! (collision-start events, input flags, the simulation clock).
//!
//! All quantities are fixed-point integers so that every decision is exact:
//! lengths in thousandths of a metre, angles in thousandths of a radian,
//! times in milliseconds. The driver converts to the physics solver's units
//! at the boundary.

pub mod ball;
pub mod bumpers;
pub mod events;
pub mod flippers;
pub mod geom;
pub mod launcher;
pub mod playfield;
