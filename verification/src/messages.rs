//! Messages of the single-channel layout: one multiplexed command channel
//! toward the actuation side and one status channel back.

use vstd::prelude::*;

pub use crate::control::BotState;
pub use crate::input::ControllerData;

verus! {

/// Direction and duty of one motor.
#[derive(Clone, Copy, Debug, PartialEq, Eq, Structural)]
pub enum MotorCommand {
    /// Both direction inputs low: the motor coasts.
    Stop,
    /// Forward at 0 to 100 percent duty.
    Forward(u8),
    /// Backward at 0 to 100 percent duty.
    Backward(u8),
    /// Both direction inputs high: the motor is shorted and brakes.
    Brake,
}

impl MotorCommand {
    /// The duty, where the command carries one, is at most 100 percent.
    pub open spec fn valid(self) -> bool {
        match self {
            MotorCommand::Forward(speed) => speed <= 100,
            MotorCommand::Backward(speed) => speed <= 100,
            _ => true,
        }
    }

    /// The command makes the motor turn.
    pub open spec fn is_active(self) -> bool {
        self is Forward || self is Backward
    }
}

/// Target of the aiming servo: 0 to 180 degrees.
#[derive(Clone, Copy, Debug, PartialEq, Eq, Structural)]
pub struct ServoCommand {
    pub angle: u8,
}

/// Mode change ordered by the controller side.
#[derive(Clone, Copy, Debug, PartialEq, Eq, Structural)]
pub enum SystemCommand {
    Emergency,
    Resume,
    SetState(BotState),
}

/// Anything the controller side can send to the actuation side.
#[derive(Clone, Copy, Debug, PartialEq, Eq, Structural)]
pub enum Core1Command {
    Motor(MotorCommand),
    Servo(ServoCommand),
    System(SystemCommand),
}

/// What the actuation side reports back after a mode change.
#[derive(Clone, Copy, Debug, PartialEq, Eq, Structural)]
pub struct StatusReport {
    pub state: BotState,
    pub motor_active: bool,
    pub servo_position: u8,
}

} // verus!
