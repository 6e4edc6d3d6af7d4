//! Phase-space portraits of a damped pendulum, rendered deterministically.
//!
//! The library integrates a family of pendulum-like vector fields with a
//! fixed-step fourth-order Runge-Kutta scheme, wraps the angular position
//! into a periodic interval, projects trajectories from phase space into
//! pixel space, colour-codes them by momentum magnitude, and produces the
//! list of line segments that make up each animation frame.
//!
//! All arithmetic is fixed-point over scaled 64-bit integers (see
//! [`fixed`]), so every stage of the pipeline has an exact contract and a
//! frame is a pure function of its index and the configuration constants.
//! Drawing the segments onto a raster canvas and encoding image files is
//! left to a thin unverified shell around this crate.

pub mod fixed;
pub mod trig;
pub mod dynamics;
pub mod project;
pub mod render;
pub mod frame;
