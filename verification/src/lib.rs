//! A time-stepped model of a water rocket: a bottle of pressurised air and
//! water that expels the water through a nozzle and then flies ballistically.
//!
//! Every number is held as a [`scalar::Scalar`], the bit pattern of an
//! IEEE-754 double.  The library compares such numbers and writes them in
//! text itself; whatever has to be calculated is asked of an evaluator that
//! the caller supplies (see [`arithmetic`]).  The order of the stages of a
//! step, the guards against non-physical states, the floors, the logs and
//! their table in text are this library's own, and hold whatever the
//! evaluator answers (see [`laws`]).

pub mod arithmetic;
pub mod constants;
pub mod csv;
pub mod decimal;
pub mod laws;
pub mod logs;
pub mod math_utils;
pub mod physics;
pub mod scalar;
pub mod simulation;
pub mod state;
