use vstd::prelude::*;

use crate::capability::{BinaryOutput, DutyCycleOutput, Level};

verus! {

/// The error a recording capability issues when it was told to refuse
/// writes.
#[derive(Clone, Copy, Debug, PartialEq, Eq, Structural)]
pub struct RecordingError;

/// An in-memory binary output for tests and host-side runs: it records
/// every level written to it, and can be built to refuse all writes so that
/// failure handling can be exercised. Its `writes` history is exactly its
/// recorded log.
pub struct RecordingPin {
    log: Vec<Level>,
    fail: bool,
}

impl RecordingPin {
    /// A pin that accepts every write, with an empty history.
    pub fn new() -> (pin: RecordingPin)
        ensures
            pin.writes() == Seq::<Level>::empty(),
    {
        RecordingPin { log: Vec::new(), fail: false }
    }

    /// A pin that refuses every write, with an empty history.
    pub fn failing() -> (pin: RecordingPin)
        ensures
            pin.writes() == Seq::<Level>::empty(),
    {
        RecordingPin { log: Vec::new(), fail: true }
    }

    /// The recorded writes, oldest first.
    pub fn log(&self) -> (log: &Vec<Level>)
        ensures
            log@ == self.writes(),
    {
        &self.log
    }
}

impl BinaryOutput for RecordingPin {
    type Error = RecordingError;

    closed spec fn writes(&self) -> Seq<Level> {
        self.log@
    }

    fn set_low(&mut self) -> (r: Result<(), RecordingError>) {
        if self.fail {
            Err(RecordingError)
        } else {
            self.log.push(Level::Low);
            Ok(())
        }
    }

    fn set_high(&mut self) -> (r: Result<(), RecordingError>) {
        if self.fail {
            Err(RecordingError)
        } else {
            self.log.push(Level::High);
            Ok(())
        }
    }
}

/// An in-memory duty-cycle output for tests and host-side runs, the
/// counterpart of `RecordingPin`: it records every duty fraction written to
/// it, and can be built to refuse all writes.
pub struct RecordingPwm {
    log: Vec<(u16, u16)>,
    fail: bool,
}

impl RecordingPwm {
    /// An output that accepts every write, with an empty history.
    pub fn new() -> (pwm: RecordingPwm)
        ensures
            pwm.writes() == Seq::<(u16, u16)>::empty(),
    {
        RecordingPwm { log: Vec::new(), fail: false }
    }

    /// An output that refuses every write, with an empty history.
    pub fn failing() -> (pwm: RecordingPwm)
        ensures
            pwm.writes() == Seq::<(u16, u16)>::empty(),
    {
        RecordingPwm { log: Vec::new(), fail: true }
    }

    /// The recorded writes, oldest first.
    pub fn log(&self) -> (log: &Vec<(u16, u16)>)
        ensures
            log@ == self.writes(),
    {
        &self.log
    }
}

impl DutyCycleOutput for RecordingPwm {
    type Error = RecordingError;

    closed spec fn writes(&self) -> Seq<(u16, u16)> {
        self.log@
    }

    fn set_duty_fraction(&mut self, num: u16, denom: u16) -> (r: Result<(), RecordingError>) {
        if self.fail {
            Err(RecordingError)
        } else {
            self.log.push((num, denom));
            Ok(())
        }
    }
}

} // verus!
