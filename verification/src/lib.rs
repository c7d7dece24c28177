//! Hardware-control layer of a small differential-drive robot: a dual
//! H-bridge motor driver, a pan-servo controller with a validated linear
//! angle-to-duty mapping, and a pair of bumper event latches that bridge an
//! asynchronous edge handler into a cooperatively scheduled polling loop.
//!
//! The drivers consume, and never implement, two platform capabilities: a
//! binary output (a line driven high or low) and a duty-cycle output (a
//! periodic signal with a caller-controlled on-fraction). Both are modelled
//! as traits whose contracts record the history of successful writes, so
//! every driver states exactly which levels and duty fractions it puts on
//! which line, and in which outcomes. The `recording` module supplies
//! verified in-memory implementations of both capabilities for tests and
//! host-side runs.

pub mod actuator;
pub mod bumper;
pub mod capability;
pub mod recording;
