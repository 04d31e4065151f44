//! From a gamepad sample to the commands of one control cycle.

use vstd::prelude::*;

use crate::config::{SPIN_THRESHOLD, STICK_DEAD_ZONE_HIGH, STICK_DEAD_ZONE_LOW};
use crate::events::{ServoEvent, TankDriveEvent};
use crate::hardware::servo_controller::{servo_angle, servo_angle_spec};
use crate::input::{
    normalize, normalize_endpoints, normalize_in_range, normalize_spec, ControllerData,
};

verus! {

/// Normalized value of a stick axis under the configured dead zone.
pub open spec fn stick(raw: u8) -> i8 {
    normalize_spec(raw, STICK_DEAD_ZONE_LOW, STICK_DEAD_ZONE_HIGH) as i8
}

/// The selection rule of the drive: a rotation input beyond the spin
/// threshold takes the cycle for itself; without it, a resting stick gives
/// the explicit stop and anything else a move. Spin and move are never
/// blended.
pub open spec fn drive_choice(x: i8, y: i8, turn: i8) -> TankDriveEvent {
    if turn > SPIN_THRESHOLD || turn < -SPIN_THRESHOLD {
        TankDriveEvent::Spin(turn)
    } else if x == 0 && y == 0 {
        TankDriveEvent::Stop
    } else {
        TankDriveEvent::Move { x, y }
    }
}

/// The drive command of a sample. The left stick moves the robot (pushing
/// it away from the pilot, toward raw 0, drives forward), the horizontal
/// axis of the right stick rotates it.
pub open spec fn movement(data: ControllerData) -> TankDriveEvent {
    drive_choice(
        stick(data.left_stick_x),
        (-stick(data.left_stick_y)) as i8,
        stick(data.right_stick_x),
    )
}

/// The servo command of a sample: the vertical axis of the right stick,
/// mapped linearly and without a dead zone.
pub open spec fn aim(data: ControllerData) -> ServoEvent {
    ServoEvent::SetAngle(servo_angle_spec(data.right_stick_y) as u8)
}

/// Chooses between spin, stop and move for normalized inputs.
pub fn select_drive(x: i8, y: i8, turn: i8) -> (event: TankDriveEvent)
    ensures
        event == drive_choice(x, y, turn),
{
    if turn > SPIN_THRESHOLD || turn < -SPIN_THRESHOLD {
        TankDriveEvent::Spin(turn)
    } else if x == 0 && y == 0 {
        TankDriveEvent::Stop
    } else {
        TankDriveEvent::Move { x, y }
    }
}

/// Derives the drive command of one cycle from a sample.
pub fn process_movement(data: &ControllerData) -> (event: TankDriveEvent)
    ensures
        event == movement(*data),
        event.valid(),
{
    let x: i8 = normalize(data.left_stick_x, STICK_DEAD_ZONE_LOW, STICK_DEAD_ZONE_HIGH);
    let y: i8 = -normalize(data.left_stick_y, STICK_DEAD_ZONE_LOW, STICK_DEAD_ZONE_HIGH);
    let turn: i8 = normalize(data.right_stick_x, STICK_DEAD_ZONE_LOW, STICK_DEAD_ZONE_HIGH);
    select_drive(x, y, turn)
}

/// Derives the servo command of one cycle from a sample.
pub fn process_servo(data: &ControllerData) -> (event: ServoEvent)
    ensures
        event == aim(*data),
        event.valid(),
{
    ServoEvent::SetAngle(servo_angle(data.right_stick_y))
}

/// The drive command of any sample carries magnitudes in [-100, 100].
pub proof fn movement_valid(data: ControllerData)
    ensures
        movement(data).valid(),
{
    stick_in_range(data.left_stick_x);
    stick_in_range(data.left_stick_y);
    stick_in_range(data.right_stick_x);
}

/// A normalized stick value lies in [-100, 100].
pub proof fn stick_in_range(raw: u8)
    ensures
        -100 <= stick(raw) <= 100,
        stick(raw) == normalize_spec(raw, STICK_DEAD_ZONE_LOW, STICK_DEAD_ZONE_HIGH),
{
    normalize_in_range(raw, STICK_DEAD_ZONE_LOW, STICK_DEAD_ZONE_HIGH);
}

/// Under the configured dead zone the ends of an axis give exactly -100 and
/// +100 and its center gives 0.
pub proof fn stick_ends()
    ensures
        stick(0) == -100,
        stick(128) == 0,
        stick(255) == 100,
{
    normalize_endpoints(STICK_DEAD_ZONE_LOW, STICK_DEAD_ZONE_HIGH);
}

/// With all three sticks inside the dead zone the drive command is the
/// explicit stop, never a move by zero.
pub proof fn resting_sticks_stop(data: ControllerData)
    requires
        STICK_DEAD_ZONE_LOW <= data.left_stick_x <= STICK_DEAD_ZONE_HIGH,
        STICK_DEAD_ZONE_LOW <= data.left_stick_y <= STICK_DEAD_ZONE_HIGH,
        STICK_DEAD_ZONE_LOW <= data.right_stick_x <= STICK_DEAD_ZONE_HIGH,
    ensures
        movement(data) == TankDriveEvent::Stop,
{
}

} // verus!
