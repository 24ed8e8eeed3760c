//! A wraparound (toroidal) two-dimensional grid together with the pieces of a
//! terminal-rendered simulation built on it: coordinates with wraparound
//! neighbor and distance computation, dense row-major cell storage, a camera
//! that projects a viewport onto the grid, a world of drawable cells, and the
//! state machine of a real-time render/input/resize loop.
//!
//! Terminal input and output themselves are left to an unverified shell
//! around this crate; every function here works on plain values.

pub mod address;
pub mod camera;
pub mod cause;
pub mod cell;
pub mod centered_camera;
pub mod direction;
pub mod drawable;
pub mod flow;
pub mod game;
pub mod occupant;
pub mod size;
pub mod space;
pub mod torus;
