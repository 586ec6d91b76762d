//! Animation core for a terminal "dancing cow" renderer: a pose interpolator
//! and the choreography state machine that drives a rotation transform one
//! frame at a time.
//!
//! Angles are held in fixed-point units of 1/100 radian, so every constant of
//! the choreography (the 0.2 spin increment, the 6.28 full turn, the 0.01
//! convergence threshold and the whip target poses) is an exact integer.
//! The host loop converts to its renderer's floating-point angles at the edge.

pub mod choreo;
pub mod interp;
pub mod rotation;
