//! Core logic of a terminal pet: mood state driven by fixed-rate ticks and
//! user actions, hit-testing of pointer events against the rendered panel,
//! deterministic synthesis of the squeak tone, and dispatch of input events
//! to actions. All continuous quantities (happiness, animation phase) are
//! held in fixed point, as millionths of a unit, so every transition is
//! exact integer arithmetic.

pub mod art;
pub mod audio;
pub mod input;
pub mod mood;
pub mod region;
pub mod state;
