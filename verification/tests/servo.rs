use hackpack::actuator::servo::{Servo, ServoConfig};
use hackpack::recording::{RecordingError, RecordingPwm};

fn head_config() -> ServoConfig {
    ServoConfig::new(156, 21, 0, 180).unwrap()
}

#[test]
fn servo_config_new_accepts_ordered_ranges() {
    assert!(ServoConfig::new(156, 21, 0, 180).is_some());
    assert!(ServoConfig::new(2, 1, 10, 11).is_some());
}

#[test]
fn servo_config_new_rejects_unordered_ranges() {
    // Swapped duty bounds.
    assert!(ServoConfig::new(21, 156, 0, 180).is_none());
    // Equal duty bounds.
    assert!(ServoConfig::new(100, 100, 0, 180).is_none());
    // Equal angle bounds.
    assert!(ServoConfig::new(156, 21, 90, 90).is_none());
    // Swapped angle bounds.
    assert!(ServoConfig::new(156, 21, 180, 0).is_none());
}

#[test]
fn servo_config_getters_echo_construction() {
    let config = head_config();
    assert_eq!(config.get_max_duty(), 156);
    assert_eq!(config.get_min_duty(), 21);
    assert_eq!(config.get_min_angle(), 0);
    assert_eq!(config.get_max_angle(), 180);
}

#[test]
fn set_angle_maps_endpoints_and_midpoint() {
    let mut servo = Servo::new(RecordingPwm::new(), head_config());
    servo.set_angle(0).unwrap();
    servo.set_angle(180).unwrap();
    // Midpoint: 0.5 * 135 = 67.5 duty steps; halves round up, so 68 steps
    // above the minimum duty of 21.
    servo.set_angle(90).unwrap();
    assert_eq!(*servo.pwm.log(), vec![(21, 255), (156, 255), (89, 255)]);
}

#[test]
fn set_angle_clamps_out_of_range_angles() {
    let config = ServoConfig::new(156, 21, 10, 170).unwrap();
    let mut servo = Servo::new(RecordingPwm::new(), config);
    // Below the calibrated range: clamped to the minimum angle.
    servo.set_angle(0).unwrap();
    // Above the calibrated range: clamped to the maximum angle.
    servo.set_angle(200).unwrap();
    assert_eq!(*servo.pwm.log(), vec![(21, 255), (156, 255)]);
}

#[test]
fn set_angle_propagates_output_failure() {
    let mut servo = Servo::new(RecordingPwm::failing(), head_config());
    assert_eq!(servo.set_angle(90), Err(RecordingError));
    assert!(servo.pwm.log().is_empty());
}

#[test]
fn duty_for_stays_within_duty_range() {
    let config = head_config();
    for angle in 0..=255u16 {
        let duty = config.duty_for(angle as u8);
        assert!((21..=156).contains(&duty));
    }
}

#[test]
fn duty_for_is_monotone_in_the_angle() {
    let config = head_config();
    let mut previous = config.duty_for(0);
    for angle in 1..=255u16 {
        let duty = config.duty_for(angle as u8);
        assert!(duty >= previous);
        previous = duty;
    }
}
