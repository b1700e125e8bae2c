//! A small calculator core: the operator tags of its keypad and the state
//! that tracks the running value against an expected line.
pub mod calculator;
pub mod functions;
