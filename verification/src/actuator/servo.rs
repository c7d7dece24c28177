use vstd::prelude::*;

use crate::capability::DutyCycleOutput;

verus! {

/// `angle` clamped to the closed range `[lo, hi]`.
pub open spec fn clamped(angle: u8, lo: u8, hi: u8) -> u8 {
    if angle < lo {
        lo
    } else if angle > hi {
        hi
    } else {
        angle
    }
}

/// The duty value a calibration assigns to an angle. The angle is clamped to
/// `[min_angle, max_angle]`, and the duty range `[min_duty, max_duty]` is
/// interpolated linearly over the angle range, rounding to the nearest duty
/// step with halves rounding up:
/// `duty = min_duty + round((angle - min_angle) / (max_angle - min_angle)
///                          * (max_duty - min_duty))`.
pub open spec fn duty_for_angle(
    min_duty: u8,
    max_duty: u8,
    min_angle: u8,
    max_angle: u8,
    angle: u8,
) -> int {
    let a = clamped(angle, min_angle, max_angle) as int;
    let duty_span = max_duty - min_duty;
    let angle_span = max_angle - min_angle;
    min_duty + (2 * (a - min_angle) * duty_span + angle_span) / (2 * angle_span)
}

/// Calibration for a servo: the duty range `[min_duty, max_duty]` that the
/// horn's angle range `[min_angle, max_angle]` maps onto linearly. Both
/// ranges are non-empty by construction; an instance can only be built
/// through `new`, which rejects anything else.
#[derive(Clone, Copy, Debug)]
pub struct ServoConfig {
    max_duty: u8,
    min_duty: u8,
    min_angle: u8,
    max_angle: u8,
}

impl ServoConfig {
    /// Valid calibrations have a non-empty duty range and angle range.
    #[verifier::type_invariant]
    spec fn wf(self) -> bool {
        self.min_duty < self.max_duty && self.min_angle < self.max_angle
    }

    /// The largest duty value the calibration maps to.
    pub closed spec fn spec_max_duty(self) -> u8 {
        self.max_duty
    }

    /// The smallest duty value the calibration maps to.
    pub closed spec fn spec_min_duty(self) -> u8 {
        self.min_duty
    }

    /// The smallest angle the calibration accepts without clamping.
    pub closed spec fn spec_min_angle(self) -> u8 {
        self.min_angle
    }

    /// The largest angle the calibration accepts without clamping.
    pub closed spec fn spec_max_angle(self) -> u8 {
        self.max_angle
    }

    /// The duty value this calibration assigns to `angle`.
    pub open spec fn spec_duty_for(self, angle: u8) -> int {
        duty_for_angle(
            self.spec_min_duty(),
            self.spec_max_duty(),
            self.spec_min_angle(),
            self.spec_max_angle(),
            angle,
        )
    }

    /// Creates a new servo calibration. Returns no value whenever a minimum
    /// is greater than or equal to its maximum, so no invalid configuration
    /// can ever be constructed.
    pub fn new(max_duty: u8, min_duty: u8, min_angle: u8, max_angle: u8) -> (r: Option<
        ServoConfig,
    >)
        ensures
            (r is Some) <==> (min_duty < max_duty && min_angle < max_angle),
            r matches Some(config) ==> config.spec_max_duty() == max_duty
                && config.spec_min_duty() == min_duty && config.spec_min_angle() == min_angle
                && config.spec_max_angle() == max_angle,
    {
        if (min_duty >= max_duty) || (min_angle >= max_angle) {
            return None;
        }
        Some(ServoConfig { max_duty, min_duty, min_angle, max_angle })
    }

    /// The duty value this calibration assigns to `angle_deg`, always within
    /// `[min_duty, max_duty]`.
    pub fn duty_for(&self, angle_deg: u8) -> (duty: u8)
        ensures
            duty == self.spec_duty_for(angle_deg),
            self.spec_min_duty() <= duty <= self.spec_max_duty(),
    {
        proof {
            use_type_invariant(self);
        }
        let lo = self.min_angle;
        let hi = self.max_angle;
        let a: u8 = if angle_deg < lo {
            lo
        } else if angle_deg > hi {
            hi
        } else {
            angle_deg
        };
        let duty_span: u32 = (self.max_duty - self.min_duty) as u32;
        let angle_span: u32 = (hi - lo) as u32;
        let delta: u32 = (a - lo) as u32;
        proof {
            assert(2 * delta * duty_span + angle_span < 0x1_0000_0000) by (nonlinear_arith)
                requires
                    delta <= 255,
                    duty_span <= 255,
                    angle_span <= 255,
            ;
        }
        let num: u32 = 2 * delta * duty_span + angle_span;
        let den: u32 = 2 * angle_span;
        proof {
            assert(num / den <= duty_span) by (nonlinear_arith)
                requires
                    num == 2 * delta * duty_span + angle_span,
                    den == 2 * angle_span,
                    delta <= angle_span,
                    0 < angle_span,
            ;
        }
        let duty: u32 = (self.min_duty as u32) + num / den;
        duty as u8
    }

    pub fn get_max_duty(&self) -> (r: u8)
        ensures
            r == self.spec_max_duty(),
    {
        self.max_duty
    }

    pub fn get_min_duty(&self) -> (r: u8)
        ensures
            r == self.spec_min_duty(),
    {
        self.min_duty
    }

    pub fn get_max_angle(&self) -> (r: u8)
        ensures
            r == self.spec_max_angle(),
    {
        self.max_angle
    }

    pub fn get_min_angle(&self) -> (r: u8)
        ensures
            r == self.spec_min_angle(),
    {
        self.min_angle
    }
}

/// Controller for one servo: a duty-cycle output plus the calibration that
/// maps angles onto it.
pub struct Servo<PWM> {
    pub pwm: PWM,
    config: ServoConfig,
}

impl<PWM: DutyCycleOutput> Servo<PWM> {
    /// The calibration this controller maps angles with.
    pub closed spec fn spec_config(&self) -> ServoConfig {
        self.config
    }

    /// History of duty fractions written to the servo's duty-cycle output.
    pub closed spec fn pwm_writes(&self) -> Seq<(u16, u16)> {
        self.pwm.writes()
    }

    /// Takes ownership of the duty-cycle output and the calibration to map
    /// angles with.
    pub fn new(pin: PWM, config: ServoConfig) -> (servo: Servo<PWM>)
        ensures
            servo.pwm_writes() == pin.writes(),
            servo.spec_config() == config,
    {
        Servo { pwm: pin, config }
    }

    /// Positions the servo at `angle_deg` degrees by writing the calibrated
    /// duty value as a fraction of 255 full scale. Angles outside the
    /// calibrated range are clamped to it rather than extrapolated. A
    /// failure of the duty-cycle output is propagated unchanged.
    pub fn set_angle(&mut self, angle_deg: u8) -> (r: Result<(), PWM::Error>)
        ensures
            final(self).spec_config() == old(self).spec_config(),
            r is Ok ==> final(self).pwm_writes() == old(self).pwm_writes().push(
                (old(self).spec_config().spec_duty_for(angle_deg) as u16, 255u16),
            ),
            r is Err ==> final(self).pwm_writes() == old(self).pwm_writes(),
    {
        let duty = self.config.duty_for(angle_deg);
        self.pwm.set_duty_fraction(duty as u16, 255)
    }
}

/// The mapped duty never leaves the calibrated duty range, whatever the
/// angle.
pub proof fn lemma_duty_in_range(
    min_duty: u8,
    max_duty: u8,
    min_angle: u8,
    max_angle: u8,
    angle: u8,
)
    requires
        min_duty < max_duty,
        min_angle < max_angle,
    ensures
        min_duty <= duty_for_angle(min_duty, max_duty, min_angle, max_angle, angle) <= max_duty,
{
    let a = clamped(angle, min_angle, max_angle) as int;
    let duty_span = max_duty - min_duty;
    let angle_span = max_angle - min_angle;
    assert(0 <= (2 * (a - min_angle) * duty_span + angle_span) / (2 * angle_span) <= duty_span)
        by (nonlinear_arith)
        requires
            min_angle <= a <= max_angle,
            duty_span == max_duty - min_duty,
            angle_span == max_angle - min_angle,
            0 < duty_span,
            0 < angle_span,
    ;
}

/// The endpoints of the calibrated angle range map exactly: the minimum
/// angle yields the minimum duty and the maximum angle the maximum duty.
pub proof fn lemma_duty_endpoints(min_duty: u8, max_duty: u8, min_angle: u8, max_angle: u8)
    requires
        min_duty < max_duty,
        min_angle < max_angle,
    ensures
        duty_for_angle(min_duty, max_duty, min_angle, max_angle, min_angle) == min_duty,
        duty_for_angle(min_duty, max_duty, min_angle, max_angle, max_angle) == max_duty,
{
    let duty_span = max_duty - min_duty;
    let angle_span = max_angle - min_angle;
    assert(angle_span / (2 * angle_span) == 0) by (nonlinear_arith)
        requires
            0 < angle_span,
    ;
    assert((2 * angle_span * duty_span + angle_span) / (2 * angle_span) == duty_span)
        by (nonlinear_arith)
        requires
            0 < angle_span,
            0 <= duty_span,
    ;
}

} // verus!
