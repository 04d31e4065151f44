//! A single motor behind the driver chip, with the standby line.

use vstd::prelude::*;

use crate::config::{MAX_SPEED, STICK_DEAD_ZONE_HIGH, STICK_DEAD_ZONE_LOW};
use crate::input::{normalize, normalize_spec};
use crate::messages::MotorCommand;

verus! {

/// Reason for which the driver refuses a command.
#[derive(Clone, Copy, Debug, PartialEq, Eq, Structural)]
pub enum MotorFault {
    /// The command carries a duty above 100 percent.
    InvalidSpeed,
}

/// What the motor driver puts out: the command of the motor and the level of
/// the standby line.
#[derive(Clone, Copy, Debug, PartialEq, Eq, Structural)]
pub struct MotorOutput {
    pub command: MotorCommand,
    /// Standby line released: the driver chip passes the command on.
    pub enabled: bool,
}

impl MotorOutput {
    /// After bring-up: motor stopped, driver enabled.
    pub open spec fn initial() -> MotorOutput {
        MotorOutput { command: MotorCommand::Stop, enabled: true }
    }

    /// A command within range replaces the current one; one out of range is
    /// refused and changes nothing.
    pub open spec fn drive(self, command: MotorCommand) -> MotorOutput {
        if command.valid() {
            MotorOutput { command, enabled: self.enabled }
        } else {
            self
        }
    }

    pub open spec fn stop(self) -> MotorOutput {
        MotorOutput { command: MotorCommand::Stop, enabled: self.enabled }
    }

    pub open spec fn brake(self) -> MotorOutput {
        MotorOutput { command: MotorCommand::Brake, enabled: self.enabled }
    }

    /// Pulls the standby line and keeps the command.
    pub open spec fn disable(self) -> MotorOutput {
        MotorOutput { command: self.command, enabled: false }
    }

    /// Releases the standby line and keeps the command.
    pub open spec fn enable(self) -> MotorOutput {
        MotorOutput { command: self.command, enabled: true }
    }
}

/// Motor command for the raw vertical axis of a stick: below the dead zone
/// (stick pushed away) forward, above it backward, each at the magnitude of
/// the normalized stick value, and stop inside it.
pub open spec fn stick_command(stick_y: u8) -> MotorCommand {
    let value: int = normalize_spec(stick_y, STICK_DEAD_ZONE_LOW, STICK_DEAD_ZONE_HIGH);
    if stick_y < STICK_DEAD_ZONE_LOW {
        MotorCommand::Forward((-value) as u8)
    } else if stick_y > STICK_DEAD_ZONE_HIGH {
        MotorCommand::Backward(value as u8)
    } else {
        MotorCommand::Stop
    }
}

/// Computes the motor command for the raw vertical axis of a stick.
pub fn command_from_stick(stick_y: u8) -> (command: MotorCommand)
    ensures
        command == stick_command(stick_y),
        command.valid(),
{
    let value: i8 = normalize(stick_y, STICK_DEAD_ZONE_LOW, STICK_DEAD_ZONE_HIGH);
    if stick_y < STICK_DEAD_ZONE_LOW {
        MotorCommand::Forward((-value) as u8)
    } else if stick_y > STICK_DEAD_ZONE_HIGH {
        MotorCommand::Backward(value as u8)
    } else {
        MotorCommand::Stop
    }
}

/// Stopping twice is stopping once, and so is disabling.
pub proof fn motor_stop_is_idempotent(output: MotorOutput)
    ensures
        output.stop().stop() == output.stop(),
        output.disable().disable() == output.disable(),
{
}

/// The single motor as the motor task holds it.
pub struct MotorController {
    motor: MotorCommand,
    standby: bool,
}

impl View for MotorController {
    type V = MotorOutput;

    closed spec fn view(&self) -> MotorOutput {
        MotorOutput { command: self.motor, enabled: self.standby }
    }
}

impl MotorController {
    #[verifier::type_invariant]
    spec fn duty_in_range(self) -> bool {
        self.motor.valid()
    }

    /// Motor stopped, driver enabled.
    pub fn new() -> (controller: MotorController)
        ensures
            controller@ == MotorOutput::initial(),
    {
        MotorController { motor: MotorCommand::Stop, standby: true }
    }

    /// Applies a command, or refuses it where its duty is above 100 percent.
    /// A refused command leaves the motor as it was.
    pub fn drive(&mut self, command: MotorCommand) -> (outcome: Result<(), MotorFault>)
        ensures
            final(self)@ == old(self)@.drive(command),
            outcome is Ok <==> command.valid(),
            outcome is Err ==> outcome == Err::<(), MotorFault>(MotorFault::InvalidSpeed),
    {
        let speed: u8 = match command {
            MotorCommand::Forward(s) => s,
            MotorCommand::Backward(s) => s,
            _ => 0,
        };
        if speed > MAX_SPEED {
            return Err(MotorFault::InvalidSpeed);
        }
        self.motor = command;
        Ok(())
    }

    /// Runs the motor forward at `speed` percent.
    pub fn drive_forward(&mut self, speed: u8) -> (outcome: Result<(), MotorFault>)
        ensures
            final(self)@ == old(self)@.drive(MotorCommand::Forward(speed)),
            outcome is Ok <==> speed <= 100,
            outcome is Err ==> outcome == Err::<(), MotorFault>(MotorFault::InvalidSpeed),
    {
        self.drive(MotorCommand::Forward(speed))
    }

    /// Runs the motor backward at `speed` percent.
    pub fn drive_backward(&mut self, speed: u8) -> (outcome: Result<(), MotorFault>)
        ensures
            final(self)@ == old(self)@.drive(MotorCommand::Backward(speed)),
            outcome is Ok <==> speed <= 100,
            outcome is Err ==> outcome == Err::<(), MotorFault>(MotorFault::InvalidSpeed),
    {
        self.drive(MotorCommand::Backward(speed))
    }

    /// Drives the motor from the raw vertical axis of a stick.
    pub fn control_from_stick(&mut self, stick_y: u8)
        ensures
            final(self)@ == (MotorOutput {
                command: stick_command(stick_y),
                enabled: old(self)@.enabled,
            }),
    {
        self.motor = command_from_stick(stick_y);
    }

    /// Lets the motor coast.
    pub fn stop(&mut self)
        ensures
            final(self)@ == old(self)@.stop(),
    {
        self.motor = MotorCommand::Stop;
    }

    /// Brakes the motor.
    pub fn brake(&mut self)
        ensures
            final(self)@ == old(self)@.brake(),
    {
        self.motor = MotorCommand::Brake;
    }

    /// Pulls the standby line.
    pub fn disable(&mut self)
        ensures
            final(self)@ == old(self)@.disable(),
    {
        proof {
            use_type_invariant(&*self);
        }
        self.standby = false;
    }

    /// Releases the standby line.
    pub fn enable(&mut self)
        ensures
            final(self)@ == old(self)@.enable(),
    {
        proof {
            use_type_invariant(&*self);
        }
        self.standby = true;
    }

    /// The command the motor is running under.
    pub fn current_drive_command(&self) -> (command: MotorCommand)
        ensures
            command == self@.command,
            command.valid(),
    {
        proof {
            use_type_invariant(self);
        }
        self.motor
    }

    /// Level of the standby line: `true` while the driver is enabled.
    pub fn is_enabled(&self) -> (enabled: bool)
        ensures
            enabled == self@.enabled,
    {
        self.standby
    }
}

} // verus!
