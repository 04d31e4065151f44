//! The aiming servo: from a stick axis to an angle, from an angle to the
//! compare value of the PWM counter.

use vstd::prelude::*;
use vstd::arithmetic::div_mod::lemma_div_is_ordered;

use crate::config::{SERVO_MAX_ANGLE, SERVO_PWM_DIVIDER, SERVO_PWM_HZ};

verus! {

/// Servo angle for a raw stick axis: 0 to 255 mapped linearly onto 0 to 180
/// degrees, rounded down.
pub open spec fn servo_angle_spec(raw: u8) -> int {
    (raw * 180) / 255
}

/// Maps a raw stick axis to a servo angle.
pub fn servo_angle(raw: u8) -> (angle: u8)
    ensures
        angle == servo_angle_spec(raw),
        angle <= 180,
{
    let scaled: u16 = raw as u16 * 180 / 255;
    scaled as u8
}

/// The angle mapping never decreases when the raw value grows.
pub proof fn servo_angle_monotonic(a: u8, b: u8)
    requires
        a <= b,
    ensures
        servo_angle_spec(a) <= servo_angle_spec(b),
{
}

/// The ends of the axis give the ends of the travel, and every raw value
/// gives an angle within the travel.
pub proof fn servo_angle_range(raw: u8)
    ensures
        servo_angle_spec(0) == 0,
        servo_angle_spec(255) == 180,
        0 <= servo_angle_spec(raw) <= 180,
{
}

/// Shortest and longest pulse of the servo, as compare values for a counter
/// that wraps at `max_duty`: a twentieth and a tenth of the period.
pub open spec fn min_duty(max_duty: u16) -> int {
    max_duty as int / 20
}

pub open spec fn max_pulse_duty(max_duty: u16) -> int {
    max_duty as int / 10
}

/// Compare value for an angle: linear between the shortest pulse at 0
/// degrees and the longest at 180, rounded down. Angles beyond 180 give the
/// longest pulse.
pub open spec fn servo_duty_spec(max_duty: u16, angle: u8) -> int {
    let held: int = if angle > SERVO_MAX_ANGLE {
        SERVO_MAX_ANGLE as int
    } else {
        angle as int
    };
    min_duty(max_duty) + ((max_pulse_duty(max_duty) - min_duty(max_duty)) * held) / 180
}

/// Computes the compare value that holds the servo at `angle`.
pub fn servo_duty(max_duty: u16, angle: u8) -> (duty: u16)
    ensures
        duty == servo_duty_spec(max_duty, angle),
        min_duty(max_duty) <= duty <= max_pulse_duty(max_duty),
        duty <= max_duty,
{
    let held: u32 = if angle > SERVO_MAX_ANGLE {
        SERVO_MAX_ANGLE as u32
    } else {
        angle as u32
    };
    let shortest: u16 = max_duty / 20;
    let longest: u16 = max_duty / 10;
    let range: u32 = (longest - shortest) as u32;
    assert(range * held <= range * 180) by (nonlinear_arith)
        requires
            held <= 180,
            range >= 0,
    ;
    let offset: u32 = range * held / 180;
    shortest + offset as u16
}

/// The compare value never decreases when the angle grows.
pub proof fn servo_duty_monotonic(max_duty: u16, a: u8, b: u8)
    requires
        a <= b,
    ensures
        servo_duty_spec(max_duty, a) <= servo_duty_spec(max_duty, b),
{
    let range: int = max_pulse_duty(max_duty) - min_duty(max_duty);
    let held_a: int = if a > SERVO_MAX_ANGLE { SERVO_MAX_ANGLE as int } else { a as int };
    let held_b: int = if b > SERVO_MAX_ANGLE { SERVO_MAX_ANGLE as int } else { b as int };
    assert(range * held_a <= range * held_b) by (nonlinear_arith)
        requires
            range >= 0,
            held_a <= held_b,
    ;
    lemma_div_is_ordered(range * held_a, range * held_b, 180);
}

/// The ends of the travel give exactly the shortest and the longest pulse.
pub proof fn servo_duty_ends(max_duty: u16)
    ensures
        servo_duty_spec(max_duty, 0) == min_duty(max_duty),
        servo_duty_spec(max_duty, 180) == max_pulse_duty(max_duty),
{
    let range: int = max_pulse_duty(max_duty) - min_duty(max_duty);
    assert(range * 0 == 0) by (nonlinear_arith);
    assert((range * 180) / 180 == range) by (nonlinear_arith);
}

/// Wrap value of the servo's PWM counter for a system clock: the counter
/// runs at the clock divided by the servo divider and has to wrap at the
/// servo's pulse rate. `None` where no 16-bit wrap value gives that rate.
pub open spec fn servo_pwm_top_spec(clock_freq_hz: u32) -> Option<u16> {
    let ticks: int = clock_freq_hz as int / (SERVO_PWM_HZ * SERVO_PWM_DIVIDER);
    if 1 <= ticks <= 65536 {
        Some((ticks - 1) as u16)
    } else {
        None
    }
}

/// Computes the wrap value of the servo's PWM counter.
pub fn servo_pwm_top(clock_freq_hz: u32) -> (top: Option<u16>)
    ensures
        top == servo_pwm_top_spec(clock_freq_hz),
{
    let ticks: u32 = clock_freq_hz / (SERVO_PWM_HZ * SERVO_PWM_DIVIDER as u32);
    if 1 <= ticks && ticks <= 65536 {
        Some((ticks - 1) as u16)
    } else {
        None
    }
}

/// The servo driver: the wrap value of its counter and the compare value
/// last written.
pub struct ServoController {
    max_duty: u16,
    duty: u16,
}

impl ServoController {
    #[verifier::type_invariant]
    spec fn in_window(self) -> bool {
        min_duty(self.max_duty) <= self.duty <= max_pulse_duty(self.max_duty)
    }

    /// Wrap value of the counter.
    pub closed spec fn max_duty_cycle(self) -> u16 {
        self.max_duty
    }

    /// Compare value last written.
    pub closed spec fn duty_cycle(self) -> u16 {
        self.duty
    }

    /// A servo on a counter that wraps at `max_duty`, at the shortest pulse.
    pub fn new(max_duty: u16) -> (servo: ServoController)
        ensures
            servo.max_duty_cycle() == max_duty,
            servo.duty_cycle() == min_duty(max_duty),
    {
        ServoController { max_duty, duty: max_duty / 20 }
    }

    /// Moves the servo to `angle` degrees.
    pub fn set_angle(&mut self, angle: u8)
        ensures
            final(self).max_duty_cycle() == old(self).max_duty_cycle(),
            final(self).duty_cycle() == servo_duty_spec(old(self).max_duty_cycle(), angle),
    {
        self.duty = servo_duty(self.max_duty, angle);
    }

    /// Moves the servo to the angle that a raw stick axis asks for.
    pub fn control_from_stick(&mut self, stick_x: u8)
        ensures
            final(self).max_duty_cycle() == old(self).max_duty_cycle(),
            final(self).duty_cycle() == servo_duty_spec(
                old(self).max_duty_cycle(),
                servo_angle_spec(stick_x) as u8,
            ),
    {
        let angle: u8 = servo_angle(stick_x);
        self.set_angle(angle);
    }

    /// Wrap value of the counter.
    pub fn max_duty(&self) -> (max_duty: u16)
        ensures
            max_duty == self.max_duty_cycle(),
    {
        self.max_duty
    }

    /// Compare value to write to the counter: always inside the pulse window.
    pub fn duty(&self) -> (duty: u16)
        ensures
            duty == self.duty_cycle(),
            min_duty(self.max_duty_cycle()) <= duty <= max_pulse_duty(self.max_duty_cycle()),
            duty <= self.max_duty_cycle(),
    {
        proof {
            use_type_invariant(self);
        }
        self.duty
    }
}

} // verus!
