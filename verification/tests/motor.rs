use hackpack::actuator::drv8835::{Drv8835, MotorState, SetMotorStateError};
use hackpack::capability::{BinaryOutput, DutyCycleOutput, Level};
use hackpack::recording::{RecordingError, RecordingPin, RecordingPwm};
use std::cell::RefCell;
use std::rc::Rc;

/// One entry in a log shared by every capability of a driver, so that the
/// order of calls across the separate capabilities is observable.
#[derive(Debug, PartialEq, Eq, Clone, Copy)]
enum SharedCall {
    Dir(Level),
    Duty(u16, u16),
}

#[derive(Debug, PartialEq, Eq)]
struct SharedError;

struct SharedLogPin {
    log: Rc<RefCell<Vec<SharedCall>>>,
}

impl BinaryOutput for SharedLogPin {
    type Error = SharedError;

    // Ghost member of the capability trait: erased from compiled code and
    // never callable at run time.
    fn writes(&self) -> vstd::seq::Seq<Level> {
        panic!()
    }

    fn set_low(&mut self) -> Result<(), SharedError> {
        self.log.borrow_mut().push(SharedCall::Dir(Level::Low));
        Ok(())
    }

    fn set_high(&mut self) -> Result<(), SharedError> {
        self.log.borrow_mut().push(SharedCall::Dir(Level::High));
        Ok(())
    }
}

struct SharedLogPwm {
    log: Rc<RefCell<Vec<SharedCall>>>,
}

impl DutyCycleOutput for SharedLogPwm {
    type Error = SharedError;

    // Ghost member of the capability trait: erased from compiled code and
    // never callable at run time.
    fn writes(&self) -> vstd::seq::Seq<(u16, u16)> {
        panic!()
    }

    fn set_duty_fraction(&mut self, num: u16, denom: u16) -> Result<(), SharedError> {
        self.log.borrow_mut().push(SharedCall::Duty(num, denom));
        Ok(())
    }
}

fn fresh_driver() -> Drv8835<RecordingPwm, RecordingPin, RecordingPwm, RecordingPin> {
    Drv8835::new(RecordingPwm::new(), RecordingPin::new(), RecordingPwm::new(), RecordingPin::new())
}

#[test]
fn drive_forward_sets_low_then_duty_fraction() {
    for speed in [0u8, 1, 127, 254, 255] {
        let mut driver = fresh_driver();
        let r = driver.drive_left_motor(MotorState::Forward(speed));
        assert!(r.is_ok());
        let (left_speed, left_dir, _, _) = driver.release();
        assert_eq!(*left_dir.log(), vec![Level::Low]);
        assert_eq!(*left_speed.log(), vec![(speed as u16, 255)]);
    }
}

#[test]
fn drive_backward_sets_high_then_duty_fraction() {
    for speed in [0u8, 1, 127, 254, 255] {
        let mut driver = fresh_driver();
        let r = driver.drive_left_motor(MotorState::Backward(speed));
        assert!(r.is_ok());
        let (left_speed, left_dir, _, _) = driver.release();
        assert_eq!(*left_dir.log(), vec![Level::High]);
        assert_eq!(*left_speed.log(), vec![(speed as u16, 255)]);
    }
}

#[test]
fn drive_right_motor_leaves_left_channel_alone() {
    let mut driver = fresh_driver();
    let r = driver.drive_right_motor(MotorState::Backward(200));
    assert!(r.is_ok());
    let (left_speed, left_dir, right_speed, right_dir) = driver.release();
    assert!(left_dir.log().is_empty());
    assert!(left_speed.log().is_empty());
    assert_eq!(*right_dir.log(), vec![Level::High]);
    assert_eq!(*right_speed.log(), vec![(200, 255)]);
}

#[test]
fn direction_write_precedes_duty_write_in_call_order() {
    let log = Rc::new(RefCell::new(Vec::new()));
    let mut driver = Drv8835::new(
        SharedLogPwm { log: Rc::clone(&log) },
        SharedLogPin { log: Rc::clone(&log) },
        SharedLogPwm { log: Rc::clone(&log) },
        SharedLogPin { log: Rc::clone(&log) },
    );
    driver.drive_left_motor(MotorState::Forward(90)).unwrap();
    driver.drive_right_motor(MotorState::Backward(40)).unwrap();
    assert_eq!(
        *log.borrow(),
        vec![
            SharedCall::Dir(Level::Low),
            SharedCall::Duty(90, 255),
            SharedCall::Dir(Level::High),
            SharedCall::Duty(40, 255),
        ]
    );
}

#[test]
fn direction_failure_aborts_before_duty_write() {
    let mut driver = Drv8835::new(
        RecordingPwm::new(),
        RecordingPin::failing(),
        RecordingPwm::new(),
        RecordingPin::new(),
    );
    let r = driver.drive_left_motor(MotorState::Forward(128));
    assert!(matches!(r, Err(SetMotorStateError::DirError(RecordingError))));
    let (left_speed, left_dir, _, _) = driver.release();
    assert!(left_dir.log().is_empty());
    assert!(left_speed.log().is_empty());
}

#[test]
fn duty_failure_reported_after_direction_write() {
    let mut driver = Drv8835::new(
        RecordingPwm::failing(),
        RecordingPin::new(),
        RecordingPwm::new(),
        RecordingPin::new(),
    );
    let r = driver.drive_left_motor(MotorState::Backward(128));
    assert!(matches!(r, Err(SetMotorStateError::SpeedError(RecordingError))));
    let (left_speed, left_dir, _, _) = driver.release();
    assert_eq!(*left_dir.log(), vec![Level::High]);
    assert!(left_speed.log().is_empty());
}

#[test]
fn driving_twice_with_same_state_repeats_the_same_writes() {
    let mut driver = fresh_driver();
    driver.drive_left_motor(MotorState::Forward(73)).unwrap();
    driver.drive_left_motor(MotorState::Forward(73)).unwrap();
    let (left_speed, left_dir, _, _) = driver.release();
    assert_eq!(*left_dir.log(), vec![Level::Low, Level::Low]);
    assert_eq!(*left_speed.log(), vec![(73, 255), (73, 255)]);
}

#[test]
fn motor_state_default_is_stopped_forward() {
    assert_eq!(MotorState::default(), MotorState::Forward(0));
}
