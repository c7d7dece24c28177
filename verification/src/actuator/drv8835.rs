use vstd::prelude::*;

use crate::capability::{BinaryOutput, DutyCycleOutput, Level};

verus! {

/// A motor's commanded drive state, with the speed stored as a value
/// between 0 and 255.
#[derive(Clone, Copy, Debug, PartialEq, Eq, Structural)]
pub enum MotorState {
    Forward(u8),
    Backward(u8),
}

impl MotorState {
    /// The level a drive command puts on the direction line: the H-bridge is
    /// wired so that LOW drives forward and HIGH drives backward.
    pub open spec fn direction_level(self) -> Level {
        match self {
            MotorState::Forward(_) => Level::Low,
            MotorState::Backward(_) => Level::High,
        }
    }

    /// The commanded speed, between 0 and 255.
    pub open spec fn speed(self) -> u8 {
        match self {
            MotorState::Forward(speed) => speed,
            MotorState::Backward(speed) => speed,
        }
    }

    /// The fraction a drive command writes to the duty-cycle output:
    /// `speed / 255` of full scale.
    pub open spec fn duty_fraction(self) -> (u16, u16) {
        (self.speed() as u16, 255u16)
    }
}

impl Default for MotorState {
    /// The default state is stopped with forward polarity.
    fn default() -> (r: Self)
        ensures
            r == MotorState::Forward(0u8),
    {
        MotorState::Forward(0)
    }
}

/// Why a drive command failed. The direction write and the duty-cycle write
/// are independent failure channels, told apart so that a caller can tell a
/// direction problem from a magnitude problem.
#[derive(Debug)]
pub enum SetMotorStateError<DirError, SpeedError> {
    DirError(DirError),
    SpeedError(SpeedError),
}

/// The relation one drive command establishes between a channel's write
/// histories (direction line and duty-cycle output) and its result: on `Ok`
/// the direction level and then the duty fraction were written; on a
/// direction failure nothing was written; on a duty failure only the
/// direction level was written. The command is aborted at the first failure,
/// so the duty-cycle output is never touched unless the direction write
/// succeeded first.
pub open spec fn drive_transition<DirError, SpeedError>(
    state: MotorState,
    dir_before: Seq<Level>,
    dir_after: Seq<Level>,
    duty_before: Seq<(u16, u16)>,
    duty_after: Seq<(u16, u16)>,
    r: Result<(), SetMotorStateError<DirError, SpeedError>>,
) -> bool {
    match r {
        Ok(()) => dir_after == dir_before.push(state.direction_level())
            && duty_after == duty_before.push(state.duty_fraction()),
        Err(SetMotorStateError::DirError(_)) => dir_after == dir_before
            && duty_after == duty_before,
        Err(SetMotorStateError::SpeedError(_)) => dir_after
            == dir_before.push(state.direction_level()) && duty_after == duty_before,
    }
}

/// Driver for a dual H-bridge: two independent motor channels, each with its
/// own direction line and duty-cycle (speed) output.
#[derive(Debug)]
pub struct Drv8835<LeftSpeedPin, LeftDirPin, RightSpeedPin, RightDirPin> {
    left_speed_pin: LeftSpeedPin,
    left_dir_pin: LeftDirPin,
    right_speed_pin: RightSpeedPin,
    right_dir_pin: RightDirPin,
}

impl<LeftSpeedPin, LeftDirPin, RightSpeedPin, RightDirPin> Drv8835<
    LeftSpeedPin,
    LeftDirPin,
    RightSpeedPin,
    RightDirPin,
> where
    LeftSpeedPin: DutyCycleOutput,
    LeftDirPin: BinaryOutput,
    RightSpeedPin: DutyCycleOutput,
    RightDirPin: BinaryOutput,
 {
    /// History of duty fractions written to the left speed output.
    pub closed spec fn left_speed_writes(&self) -> Seq<(u16, u16)> {
        self.left_speed_pin.writes()
    }

    /// History of levels written to the left direction line.
    pub closed spec fn left_dir_writes(&self) -> Seq<Level> {
        self.left_dir_pin.writes()
    }

    /// History of duty fractions written to the right speed output.
    pub closed spec fn right_speed_writes(&self) -> Seq<(u16, u16)> {
        self.right_speed_pin.writes()
    }

    /// History of levels written to the right direction line.
    pub closed spec fn right_dir_writes(&self) -> Seq<Level> {
        self.right_dir_pin.writes()
    }

    /// Takes ownership of the four capability handles, one speed output and
    /// one direction line per side.
    pub fn new(
        left_speed_pin: LeftSpeedPin,
        left_dir_pin: LeftDirPin,
        right_speed_pin: RightSpeedPin,
        right_dir_pin: RightDirPin,
    ) -> (driver: Self)
        ensures
            driver.left_speed_writes() == left_speed_pin.writes(),
            driver.left_dir_writes() == left_dir_pin.writes(),
            driver.right_speed_writes() == right_speed_pin.writes(),
            driver.right_dir_writes() == right_dir_pin.writes(),
    {
        Self { left_speed_pin, left_dir_pin, right_speed_pin, right_dir_pin }
    }

    /// Consumes the driver and hands the four capability handles back, in
    /// the order they were given to `new`.
    pub fn release(self) -> (pins: (LeftSpeedPin, LeftDirPin, RightSpeedPin, RightDirPin))
        ensures
            pins.0.writes() == self.left_speed_writes(),
            pins.1.writes() == self.left_dir_writes(),
            pins.2.writes() == self.right_speed_writes(),
            pins.3.writes() == self.right_dir_writes(),
    {
        (self.left_speed_pin, self.left_dir_pin, self.right_speed_pin, self.right_dir_pin)
    }

    /// Applies `state` to the left motor: the direction line is set first
    /// (LOW for forward, HIGH for backward), then the duty cycle is written
    /// as `speed / 255` of full scale, so a direction change never briefly
    /// drives the motor at the old duty in the new direction. The command is
    /// aborted at the first failure; the right channel is never touched.
    pub fn drive_left_motor(&mut self, state: MotorState) -> (r: Result<
        (),
        SetMotorStateError<LeftDirPin::Error, LeftSpeedPin::Error>,
    >)
        ensures
            drive_transition(
                state,
                old(self).left_dir_writes(),
                final(self).left_dir_writes(),
                old(self).left_speed_writes(),
                final(self).left_speed_writes(),
                r,
            ),
            final(self).right_dir_writes() == old(self).right_dir_writes(),
            final(self).right_speed_writes() == old(self).right_speed_writes(),
    {
        let dir_result = match state {
            // Set low to drive forward: a property of the H-bridge wiring.
            MotorState::Forward(_) => self.left_dir_pin.set_low(),
            MotorState::Backward(_) => self.left_dir_pin.set_high(),
        };
        if let Err(error) = dir_result {
            return Err(SetMotorStateError::DirError(error));
        }
        let speed = match state {
            MotorState::Forward(speed) => speed,
            MotorState::Backward(speed) => speed,
        };
        match self.left_speed_pin.set_duty_fraction(speed as u16, 255) {
            Ok(()) => Ok(()),
            Err(error) => Err(SetMotorStateError::SpeedError(error)),
        }
    }

    /// Applies `state` to the right motor; same ordering and failure
    /// behaviour as `drive_left_motor`, on the right channel's handles.
    pub fn drive_right_motor(&mut self, state: MotorState) -> (r: Result<
        (),
        SetMotorStateError<RightDirPin::Error, RightSpeedPin::Error>,
    >)
        ensures
            drive_transition(
                state,
                old(self).right_dir_writes(),
                final(self).right_dir_writes(),
                old(self).right_speed_writes(),
                final(self).right_speed_writes(),
                r,
            ),
            final(self).left_dir_writes() == old(self).left_dir_writes(),
            final(self).left_speed_writes() == old(self).left_speed_writes(),
    {
        let dir_result = match state {
            // Set low to drive forward: a property of the H-bridge wiring.
            MotorState::Forward(_) => self.right_dir_pin.set_low(),
            MotorState::Backward(_) => self.right_dir_pin.set_high(),
        };
        if let Err(error) = dir_result {
            return Err(SetMotorStateError::DirError(error));
        }
        let speed = match state {
            MotorState::Forward(speed) => speed,
            MotorState::Backward(speed) => speed,
        };
        match self.right_speed_pin.set_duty_fraction(speed as u16, 255) {
            Ok(()) => Ok(()),
            Err(error) => Err(SetMotorStateError::SpeedError(error)),
        }
    }
}

/// The direction write always precedes the duty-cycle write: in every
/// outcome of a drive command in which the duty-cycle history changed at
/// all, the direction line already carries the commanded level as its latest
/// write; and if the direction write failed, the duty-cycle write was never
/// attempted.
pub proof fn lemma_direction_precedes_duty<DirError, SpeedError>(
    state: MotorState,
    dir_before: Seq<Level>,
    dir_after: Seq<Level>,
    duty_before: Seq<(u16, u16)>,
    duty_after: Seq<(u16, u16)>,
    r: Result<(), SetMotorStateError<DirError, SpeedError>>,
)
    requires
        drive_transition(state, dir_before, dir_after, duty_before, duty_after, r),
    ensures
        duty_after != duty_before ==> dir_after == dir_before.push(state.direction_level()),
        r matches Err(SetMotorStateError::DirError(_)) ==> duty_after == duty_before,
{
}

/// Driving is idempotent: two successful drive commands with the same motor
/// state append the same direction level and the same duty fraction each
/// time; there is no hidden state that could make the second command write
/// anything else.
pub proof fn lemma_drive_idempotent<DirError, SpeedError>(
    state: MotorState,
    dir0: Seq<Level>,
    dir1: Seq<Level>,
    dir2: Seq<Level>,
    duty0: Seq<(u16, u16)>,
    duty1: Seq<(u16, u16)>,
    duty2: Seq<(u16, u16)>,
    r1: Result<(), SetMotorStateError<DirError, SpeedError>>,
    r2: Result<(), SetMotorStateError<DirError, SpeedError>>,
)
    requires
        r1 is Ok,
        r2 is Ok,
        drive_transition(state, dir0, dir1, duty0, duty1, r1),
        drive_transition(state, dir1, dir2, duty1, duty2, r2),
    ensures
        dir2 == dir0.push(state.direction_level()).push(state.direction_level()),
        duty2 == duty0.push(state.duty_fraction()).push(state.duty_fraction()),
        dir1.last() == dir2.last(),
        duty1.last() == duty2.last(),
{
}

} // verus!
