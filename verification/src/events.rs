//! Commands that the decision engine hands to the three actuation tasks.

use vstd::prelude::*;

verus! {

/// Command for the pair of track motors.
#[derive(Clone, Copy, Debug, PartialEq, Eq, Structural)]
pub enum TankDriveEvent {
    /// Move: `x` turns (left to right), `y` drives (backward to forward),
    /// each from -100 to 100.
    Move { x: i8, y: i8 },
    /// Rotate in place, from -100 (counter-clockwise) to 100 (clockwise).
    Spin(i8),
    /// Let both motors coast to a halt.
    Stop,
    /// Release the standby line, after an emergency.
    Enable,
    /// Pull the standby line, for an emergency.
    Disable,
}

impl TankDriveEvent {
    /// Every magnitude the command carries lies in [-100, 100].
    pub open spec fn valid(self) -> bool {
        match self {
            TankDriveEvent::Move { x, y } => -100 <= x <= 100 && -100 <= y <= 100,
            TankDriveEvent::Spin(speed) => -100 <= speed <= 100,
            _ => true,
        }
    }
}

/// Command for the aiming servo.
#[derive(Clone, Copy, Debug, PartialEq, Eq, Structural)]
pub enum ServoEvent {
    /// Go to an angle from 0 to 180 degrees.
    SetAngle(u8),
}

impl ServoEvent {
    /// The angle lies in [0, 180].
    pub open spec fn valid(self) -> bool {
        match self {
            ServoEvent::SetAngle(angle) => angle <= 180,
        }
    }
}

/// Pattern for the status light.
#[derive(Clone, Copy, Debug, PartialEq, Eq, Structural)]
pub enum LedEvent {
    /// Dark: the robot is idle.
    Off,
    /// Slow blink: armed.
    SlowBlink,
    /// Fast blink: combat.
    FastBlink,
    /// Steady light: emergency.
    Solid,
}

} // verus!
