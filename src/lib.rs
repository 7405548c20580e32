//! A three-valued (ternary) logic kernel: a state with an explicit
//! "uncertain" value, Kleene connectives over it, and two ways of turning a
//! continuous signal into a state.
//!
//! Continuous quantities (signals, confidences, tolerances) are fixed-point
//! integers: `UNIT` stands for 1.0, so `UNIT / 2` is the midpoint 0.5.

pub mod state;
pub mod logic;
pub mod resolve;
pub mod adapter;
