//! Orchestration logic for a wireless ranging beacon: a peripheral that
//! advertises over a command/response wireless transport, exposes a distance
//! sensor through a small attribute table, and serves fresh measurements to a
//! connected host on demand.
//!
//! The crate holds the decision logic only: address derivation, the fixed
//! bring-up command sequence, the resource-bootstrap protocol, the calibration
//! retry policy, and the steady-state event dispatcher. The surrounding
//! program performs the transport and sensor I/O and feeds the outcomes back
//! in as plain values.

pub mod address;
pub mod bootstrap;
pub mod bringup;
pub mod calibration;
pub mod dispatch;
pub mod protocol;
