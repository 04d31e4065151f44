//! The tank drive: two track motors behind one driver chip with a shared
//! standby line.

use vstd::prelude::*;

use crate::events::TankDriveEvent;
use crate::messages::MotorCommand;
use crate::mixer::{clamp_speed, clamp_to_speed, mix, mix_spec, spin, spin_spec};

verus! {

/// Motor command for a signed track speed: forward for a positive speed,
/// backward for a negative one, each with the magnitude held to 100, and a
/// plain stop for zero.
pub open spec fn side_command_spec(speed: i8) -> MotorCommand {
    if speed > 0 {
        MotorCommand::Forward(clamp_speed(speed as int) as u8)
    } else if speed < 0 {
        MotorCommand::Backward((-clamp_speed(speed as int)) as u8)
    } else {
        MotorCommand::Stop
    }
}

/// Turns the signed speed of one track into the command for its motor.
pub fn side_command(speed: i8) -> (command: MotorCommand)
    ensures
        command == side_command_spec(speed),
        command.valid(),
{
    let held: i8 = clamp_to_speed(speed as i16);
    if speed > 0 {
        MotorCommand::Forward(held as u8)
    } else if speed < 0 {
        MotorCommand::Backward((-held) as u8)
    } else {
        MotorCommand::Stop
    }
}

/// What the tank drive puts out: the command of each track motor and the
/// level of the standby line.
#[derive(Clone, Copy, Debug, PartialEq, Eq, Structural)]
pub struct TankDriveOutput {
    /// Front left motor: the left track.
    pub left: MotorCommand,
    /// Back right motor: the right track.
    pub right: MotorCommand,
    /// Standby line released: the driver chip passes the commands on.
    pub enabled: bool,
}

impl TankDriveOutput {
    /// Both commands carry a duty of at most 100 percent.
    pub open spec fn valid(self) -> bool {
        self.left.valid() && self.right.valid()
    }

    /// Neither motor is asked to turn.
    pub open spec fn halted(self) -> bool {
        self.left == MotorCommand::Stop && self.right == MotorCommand::Stop
    }

    /// After bring-up: both motors stopped, driver enabled.
    pub open spec fn initial() -> TankDriveOutput {
        TankDriveOutput { left: MotorCommand::Stop, right: MotorCommand::Stop, enabled: true }
    }

    /// Mixed movement; the standby line is left alone.
    pub open spec fn drive(self, x: i8, y: i8) -> TankDriveOutput {
        TankDriveOutput {
            left: side_command_spec(mix_spec(x, y).0 as i8),
            right: side_command_spec(mix_spec(x, y).1 as i8),
            enabled: self.enabled,
        }
    }

    /// Rotation in place; the standby line is left alone.
    pub open spec fn spin(self, speed: i8) -> TankDriveOutput {
        TankDriveOutput {
            left: side_command_spec(spin_spec(speed).0 as i8),
            right: side_command_spec(spin_spec(speed).1 as i8),
            enabled: self.enabled,
        }
    }

    pub open spec fn stop(self) -> TankDriveOutput {
        TankDriveOutput {
            left: MotorCommand::Stop,
            right: MotorCommand::Stop,
            enabled: self.enabled,
        }
    }

    pub open spec fn brake(self) -> TankDriveOutput {
        TankDriveOutput {
            left: MotorCommand::Brake,
            right: MotorCommand::Brake,
            enabled: self.enabled,
        }
    }

    /// Pulls the standby line and touches neither motor.
    pub open spec fn disable(self) -> TankDriveOutput {
        TankDriveOutput { left: self.left, right: self.right, enabled: false }
    }

    /// Releases the standby line and touches neither motor.
    pub open spec fn enable(self) -> TankDriveOutput {
        TankDriveOutput { left: self.left, right: self.right, enabled: true }
    }

    /// The output after one drive command.
    pub open spec fn apply(self, event: TankDriveEvent) -> TankDriveOutput {
        match event {
            TankDriveEvent::Move { x, y } => self.drive(x, y),
            TankDriveEvent::Spin(speed) => self.spin(speed),
            TankDriveEvent::Stop => self.stop(),
            TankDriveEvent::Enable => self.enable(),
            TankDriveEvent::Disable => self.disable(),
        }
    }

    /// The output after a sequence of drive commands, applied in order.
    pub open spec fn apply_all(self, events: Seq<TankDriveEvent>) -> TankDriveOutput
        decreases events.len(),
    {
        if events.len() == 0 {
            self
        } else {
            self.apply(events[0]).apply_all(events.skip(1))
        }
    }

    /// The output after the same drive command `times` times in a row.
    pub open spec fn apply_times(self, event: TankDriveEvent, times: nat) -> TankDriveOutput
        decreases times,
    {
        if times == 0 {
            self
        } else {
            self.apply(event).apply_times(event, (times - 1) as nat)
        }
    }
}

/// Whatever the drive puts out and whatever command arrives, the duty of
/// each motor afterwards is at most 100 percent.
pub proof fn apply_keeps_valid(output: TankDriveOutput, event: TankDriveEvent)
    requires
        output.valid(),
    ensures
        output.apply(event).valid(),
{
}

/// Stop is idempotent: however often it is issued in a row, the output is
/// what it was after the first.
pub proof fn stop_is_idempotent(output: TankDriveOutput, times: nat)
    requires
        times >= 1,
    ensures
        output.apply_times(TankDriveEvent::Stop, times) == output.apply(TankDriveEvent::Stop),
        output.apply(TankDriveEvent::Stop).halted(),
    decreases times,
{
    if times > 1 {
        stop_is_idempotent(output.apply(TankDriveEvent::Stop), (times - 1) as nat);
    } else {
        assert(output.apply(TankDriveEvent::Stop).apply_times(TankDriveEvent::Stop, 0)
            == output.apply(TankDriveEvent::Stop));
    }
}

/// A second Disable right after a Disable changes nothing.
pub proof fn disable_is_idempotent(output: TankDriveOutput)
    ensures
        output.apply(TankDriveEvent::Disable).apply(TankDriveEvent::Disable) == output.apply(
            TankDriveEvent::Disable,
        ),
        !output.apply(TankDriveEvent::Disable).enabled,
{
}

/// Enable and Disable gate the standby line and keep both motor commands.
pub proof fn standby_keeps_motors(output: TankDriveOutput)
    ensures
        output.apply(TankDriveEvent::Enable).left == output.left,
        output.apply(TankDriveEvent::Enable).right == output.right,
        output.apply(TankDriveEvent::Enable).enabled,
        output.apply(TankDriveEvent::Disable).left == output.left,
        output.apply(TankDriveEvent::Disable).right == output.right,
        !output.apply(TankDriveEvent::Disable).enabled,
{
}

/// The tank drive as the driver task holds it.
pub struct TankDriveController {
    motor_br: MotorCommand,
    motor_fl: MotorCommand,
    standby: bool,
}

impl View for TankDriveController {
    type V = TankDriveOutput;

    closed spec fn view(&self) -> TankDriveOutput {
        TankDriveOutput { left: self.motor_fl, right: self.motor_br, enabled: self.standby }
    }
}

impl TankDriveController {
    #[verifier::type_invariant]
    spec fn duties_in_range(self) -> bool {
        self.motor_br.valid() && self.motor_fl.valid()
    }

    /// Both motors stopped, driver enabled.
    pub fn new() -> (controller: TankDriveController)
        ensures
            controller@ == TankDriveOutput::initial(),
    {
        TankDriveController {
            motor_br: MotorCommand::Stop,
            motor_fl: MotorCommand::Stop,
            standby: true,
        }
    }

    /// Drives with turn intent `x` and drive intent `y`, each from -100 to
    /// 100: the left track gets `y + x`, the right track `y - x`, each held to
    /// [-100, 100].
    pub fn drive(&mut self, x: i8, y: i8)
        ensures
            final(self)@ == old(self)@.drive(x, y),
    {
        let sides: (i8, i8) = mix(x, y);
        *self = TankDriveController {
            motor_br: side_command(sides.1),
            motor_fl: side_command(sides.0),
            standby: self.standby,
        };
    }

    /// Lets both motors coast.
    pub fn stop(&mut self)
        ensures
            final(self)@ == old(self)@.stop(),
    {
        *self = TankDriveController {
            motor_br: MotorCommand::Stop,
            motor_fl: MotorCommand::Stop,
            standby: self.standby,
        };
    }

    /// Brakes both motors.
    pub fn brake(&mut self)
        ensures
            final(self)@ == old(self)@.brake(),
    {
        *self = TankDriveController {
            motor_br: MotorCommand::Brake,
            motor_fl: MotorCommand::Brake,
            standby: self.standby,
        };
    }

    /// Pulls the standby line.
    pub fn disable(&mut self)
        ensures
            final(self)@ == old(self)@.disable(),
    {
        proof {
            use_type_invariant(&*self);
        }
        self.standby = false;
    }

    /// Releases the standby line.
    pub fn enable(&mut self)
        ensures
            final(self)@ == old(self)@.enable(),
    {
        proof {
            use_type_invariant(&*self);
        }
        self.standby = true;
    }

    /// Rotates in place at `speed`, from -100 (counter-clockwise) to 100
    /// (clockwise).
    pub fn spin(&mut self, speed: i8)
        ensures
            final(self)@ == old(self)@.spin(speed),
    {
        let sides: (i8, i8) = spin(speed);
        *self = TankDriveController {
            motor_br: side_command(sides.1),
            motor_fl: side_command(sides.0),
            standby: self.standby,
        };
    }

    /// Command of the front left motor.
    pub fn left(&self) -> (command: MotorCommand)
        ensures
            command == self@.left,
            command.valid(),
    {
        proof {
            use_type_invariant(self);
        }
        self.motor_fl
    }

    /// Command of the back right motor.
    pub fn right(&self) -> (command: MotorCommand)
        ensures
            command == self@.right,
            command.valid(),
    {
        proof {
            use_type_invariant(self);
        }
        self.motor_br
    }

    /// Level of the standby line: `true` while the driver is enabled.
    pub fn is_enabled(&self) -> (enabled: bool)
        ensures
            enabled == self@.enabled,
    {
        self.standby
    }
}

} // verus!
