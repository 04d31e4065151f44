//! Tunables of the robot, gathered in one place.

use vstd::prelude::*;

verus! {

/// Clock of the serial link to the gamepad, in Hz.
pub const PS2_SPI_FREQUENCY: u32 = 10_000;

/// Raw stick values from `STICK_DEAD_ZONE_LOW` to `STICK_DEAD_ZONE_HIGH`
/// (both included) count as "stick at rest".
pub const STICK_DEAD_ZONE_LOW: u8 = 118;

pub const STICK_DEAD_ZONE_HIGH: u8 = 138;

/// A normalized rotation input beyond this magnitude selects spin mode.
pub const SPIN_THRESHOLD: i8 = 20;

/// Polling rate of the control loop, in Hz, and its period in milliseconds.
pub const CONTROL_LOOP_HZ: u32 = 60;

pub const CONTROL_LOOP_PERIOD_MS: u64 = 16;

/// Trigger pressure from which the large feedback motor starts to run.
pub const RUMBLE_THRESHOLD: u8 = 30;

/// Pressure taken off before the feedback intensity is scaled.
pub const RUMBLE_MAX_SUBTRACT: u8 = 30;

/// Pressure span that is scaled onto the full intensity range.
pub const RUMBLE_MAX_DIVISOR: u16 = 225;

/// Trigger pressure above which an armed robot enters combat.
pub const COMBAT_MODE_PRESSURE: u8 = 100;

/// Depth of every command channel and of the status channel.
pub const COMMAND_CHANNEL_SIZE: usize = 8;

pub const STATUS_CHANNEL_SIZE: usize = 4;

/// Length of the pulse that shows a good poll on the link light.
pub const LED_BLINK_MS: u64 = 10;

/// Pause after a failed poll before the next one.
pub const CONTROLLER_TIMEOUT_MS: u64 = 100;

/// Toggle periods of the status light.
pub const FAST_BLINK_MS: u64 = 100;

pub const SLOW_BLINK_MS: u64 = 500;

/// Stack of the second core, in bytes.
pub const CORE1_STACK_SIZE: usize = 8192;

/// Counter settings of the motor PWM slices: 1 MHz count rate, 10 kHz period.
pub const MOTOR_PWM_DIVIDER: u8 = 125;

pub const MOTOR_PWM_TOP: u16 = 100;

/// Counter settings of the servo PWM slice.
pub const SERVO_PWM_DIVIDER: u8 = 64;

pub const SERVO_PWM_HZ: u32 = 50;

/// Largest angle the servo is asked for, in degrees.
pub const SERVO_MAX_ANGLE: u8 = 180;

/// Largest speed of a motor command, in percent.
pub const MAX_SPEED: u8 = 100;

} // verus!
