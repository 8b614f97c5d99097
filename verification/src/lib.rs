//! Decision core of a sensor-to-actuator control loop.
//!
//! A microcontroller loop samples one or two analog inputs, applies threshold
//! rules, and drives a digital output either as a binary indicator or as a
//! variable-rate blink signal.  This crate holds everything that loop decides:
//! the threshold policy over raw readings, the lifecycle of the shared
//! analog-to-digital converter cell, and the per-iteration state machine that
//! turns readings into actuation.  The hardware itself — pins, converter,
//! delays, critical sections — stays with the firmware that wires this core
//! to a board.

pub mod cell;
pub mod controller;
pub mod thresholds;
