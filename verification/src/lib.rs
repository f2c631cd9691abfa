//! Core of a gateway between a KNX serial bus (FT1.2 framed link carrying
//! cEMI telegrams) and external blind-control clients.
//!
//! The library holds the verified logic: the FT1.2 frame codec and checksum,
//! the cEMI group-write constructor and accessors, the link-layer parity and
//! initialization state machine, the blind address model, the time-based
//! position estimator, and the motion planner. Serial, TCP and broker I/O
//! live outside the library and talk to it through plain values.

use vstd::prelude::*;

pub mod cemi;
pub mod commands;
pub mod frame;
pub mod link;
pub mod planner;
pub mod telegram;
pub mod tracking;
pub mod types;

verus! {

/// Nanoseconds a blind needs to travel the full way from top to bottom
/// (or back). A physical calibration constant.
pub const FULL_TRAVEL_TIME_NS: u64 = 63_500_000_000;

/// Nanoseconds a blind needs to swing its slats across the full angle range.
/// A physical calibration constant.
pub const FULL_TURN_TIME_NS: u64 = 2_000_000_000;

} // verus!
