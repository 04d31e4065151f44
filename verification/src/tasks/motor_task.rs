//! The actuation side of the single-channel layout.

use vstd::prelude::*;

use crate::config::SERVO_MAX_ANGLE;
use crate::control::{select_held, start_held, state_after, BotState};
use crate::hardware::motor_controller::{MotorController, MotorOutput};
use crate::hardware::servo_controller::{min_duty, servo_duty_spec, ServoController};
use crate::input::{ControllerData, PollOutcome};
use crate::messages::{Core1Command, MotorCommand, StatusReport, SystemCommand};
use crate::tasks::controller_task::commands_of;

verus! {

/// Angle the servo is taken to rest at before the first command, in degrees.
pub const SERVO_REST_ANGLE: u8 = 90;

/// The actuation side as its task holds it.
pub struct Actuators {
    pub motor: MotorController,
    pub servo: ServoController,
    /// The mode as this side knows it.
    pub current_state: BotState,
    /// Angle of the last servo command, in degrees.
    pub servo_position: u8,
}

/// The motor command is one the driver refuses.
pub open spec fn faults(command: Core1Command) -> bool {
    command matches Core1Command::Motor(motor) && !motor.valid()
}

/// The command is answered with a status report: every system command is,
/// and so is a motor command that the driver refuses.
pub open spec fn reports(command: Core1Command) -> bool {
    command is System || faults(command)
}

/// The mode after a command. A refused motor command is an emergency.
pub open spec fn state_on(state: BotState, command: Core1Command) -> BotState {
    match command {
        Core1Command::System(SystemCommand::Emergency) => BotState::Emergency,
        Core1Command::System(SystemCommand::Resume) => BotState::Idle,
        Core1Command::System(SystemCommand::SetState(next)) => next,
        Core1Command::Motor(motor) => if motor.valid() {
            state
        } else {
            BotState::Emergency
        },
        Core1Command::Servo(_) => state,
    }
}

/// The motor output after a command. An emergency, ordered or caused by a
/// refused command, stops and disables; Resume enables.
pub open spec fn motor_on(output: MotorOutput, command: Core1Command) -> MotorOutput {
    match command {
        Core1Command::Motor(motor) => if motor.valid() {
            output.drive(motor)
        } else {
            output.stop().disable()
        },
        Core1Command::System(SystemCommand::Emergency) => output.stop().disable(),
        Core1Command::System(SystemCommand::Resume) => output.enable(),
        _ => output,
    }
}

/// The servo angle on record after a command: that of a servo command, held
/// to 180 degrees.
pub open spec fn position_on(position: u8, command: Core1Command) -> u8 {
    match command {
        Core1Command::Servo(servo) => if servo.angle > SERVO_MAX_ANGLE {
            SERVO_MAX_ANGLE
        } else {
            servo.angle
        },
        _ => position,
    }
}

/// The compare value of the servo after a command.
pub open spec fn duty_on(max_duty: u16, duty: u16, command: Core1Command) -> int {
    match command {
        Core1Command::Servo(servo) => servo_duty_spec(max_duty, servo.angle),
        _ => duty as int,
    }
}

impl Actuators {
    /// The actuation side after bring-up: idle, motor stopped and enabled,
    /// servo at the shortest pulse of a counter that wraps at
    /// `servo_max_duty`.
    pub fn new(servo_max_duty: u16) -> (actuators: Actuators)
        ensures
            actuators.current_state == BotState::Idle,
            actuators.motor@ == MotorOutput::initial(),
            actuators.servo.max_duty_cycle() == servo_max_duty,
            actuators.servo.duty_cycle() == min_duty(servo_max_duty),
            actuators.servo_position == SERVO_REST_ANGLE,
    {
        Actuators {
            motor: MotorController::new(),
            servo: ServoController::new(servo_max_duty),
            current_state: BotState::Idle,
            servo_position: SERVO_REST_ANGLE,
        }
    }

    /// The report of the present state: the mode, whether the motor is asked
    /// to turn, and the servo angle on record.
    pub fn status(&self) -> (report: StatusReport)
        ensures
            report == (StatusReport {
                state: self.current_state,
                motor_active: self.motor@.command.is_active(),
                servo_position: self.servo_position,
            }),
    {
        let active: bool = match self.motor.current_drive_command() {
            MotorCommand::Forward(_) => true,
            MotorCommand::Backward(_) => true,
            _ => false,
        };
        StatusReport {
            state: self.current_state,
            motor_active: active,
            servo_position: self.servo_position,
        }
    }
}

/// One step of the actuation task: applies one command and returns the
/// status report to offer to the controller, if the command calls for one.
///
/// A motor command that the driver refuses does not stop the task: the motor
/// is stopped and disabled, the mode becomes Emergency, and the report says
/// so.
pub fn motor_task(actuators: &mut Actuators, command: Core1Command) -> (report: Option<
    StatusReport,
>)
    ensures
        final(actuators).current_state == state_on(old(actuators).current_state, command),
        final(actuators).motor@ == motor_on(old(actuators).motor@, command),
        final(actuators).servo.max_duty_cycle() == old(actuators).servo.max_duty_cycle(),
        final(actuators).servo.duty_cycle() == duty_on(
            old(actuators).servo.max_duty_cycle(),
            old(actuators).servo.duty_cycle(),
            command,
        ),
        final(actuators).servo_position == position_on(old(actuators).servo_position, command),
        report == if reports(command) {
            Some(
                StatusReport {
                    state: final(actuators).current_state,
                    motor_active: final(actuators).motor@.command.is_active(),
                    servo_position: final(actuators).servo_position,
                },
            )
        } else {
            None
        },
{
    match command {
        Core1Command::Motor(motor) => {
            match actuators.motor.drive(motor) {
                Ok(_) => None,
                Err(_) => {
                    actuators.motor.stop();
                    actuators.motor.disable();
                    actuators.current_state = BotState::Emergency;
                    Some(actuators.status())
                },
            }
        },
        Core1Command::Servo(servo) => {
            actuators.servo.set_angle(servo.angle);
            actuators.servo_position = if servo.angle > SERVO_MAX_ANGLE {
                SERVO_MAX_ANGLE
            } else {
                servo.angle
            };
            None
        },
        Core1Command::System(system) => {
            match system {
                SystemCommand::Emergency => {
                    actuators.motor.stop();
                    actuators.motor.disable();
                    actuators.current_state = BotState::Emergency;
                },
                SystemCommand::Resume => {
                    actuators.motor.enable();
                    actuators.current_state = BotState::Idle;
                },
                SystemCommand::SetState(state) => {
                    actuators.current_state = state;
                },
            }
            Some(actuators.status())
        },
    }
}

/// A motor never runs out of an emergency: after a command that ends in
/// Emergency by order or by fault, the motor is stopped and disabled.
pub proof fn emergency_stops_motor(output: MotorOutput, command: Core1Command)
    requires
        command == Core1Command::System(SystemCommand::Emergency) || faults(command),
    ensures
        motor_on(output, command).command == MotorCommand::Stop,
        !motor_on(output, command).enabled,
        !motor_on(output, command).command.is_active(),
{
}

/// The motor output after a sequence of commands, applied in order.
pub open spec fn motor_after(output: MotorOutput, commands: Seq<Core1Command>) -> MotorOutput
    decreases commands.len(),
{
    if commands.len() == 0 {
        output
    } else {
        motor_after(motor_on(output, commands[0]), commands.skip(1))
    }
}

/// The two sides together keep the motor still outside the active states:
/// after the commands of any cycle that is not skipped and that the
/// controller starts or ends in Idle or Emergency, the motor is stopped,
/// whatever it did before.
pub proof fn motor_halted_when_inactive(output: MotorOutput, state: BotState, poll: PollOutcome)
    requires
        poll != PollOutcome::UnexpectedDevice,
        !state.is_active() || !state_after(state, poll).is_active(),
    ensures
        motor_after(output, commands_of(state, poll)).command == MotorCommand::Stop,
{
    let commands = commands_of(state, poll);
    reveal_with_fuel(motor_after, 3);
    if commands.len() == 1 {
        assert(commands.skip(1).len() == 0);
    } else if commands.len() == 2 {
        assert(commands.skip(1)[0] == commands[1]);
        assert(commands.skip(1).skip(1).len() == 0);
    }
}

/// The mode of the actuation side after a sequence of commands, applied in
/// order.
pub open spec fn state_after_all(state: BotState, commands: Seq<Core1Command>) -> BotState
    decreases commands.len(),
{
    if commands.len() == 0 {
        state
    } else {
        state_after_all(state_on(state, commands[0]), commands.skip(1))
    }
}

/// Every cycle that brings a sample to a controller in Emergency and does not
/// clear it stops the motor and pulls the standby line: after the commands of
/// the cycle the motor is stopped, the driver is disabled and the actuation
/// side is in Emergency, whatever either was before.
pub proof fn emergency_cycle_disables(
    output: MotorOutput,
    mode: BotState,
    data: ControllerData,
)
    requires
        !(start_held(data) && select_held(data)),
    ensures
        commands_of(BotState::Emergency, PollOutcome::Sample(data)) == seq![
            Core1Command::Motor(MotorCommand::Stop),
            Core1Command::System(SystemCommand::Emergency),
        ],
        motor_after(output, commands_of(BotState::Emergency, PollOutcome::Sample(data)))
            == (MotorOutput { command: MotorCommand::Stop, enabled: false }),
        state_after_all(mode, commands_of(BotState::Emergency, PollOutcome::Sample(data)))
            == BotState::Emergency,
        state_after(BotState::Emergency, PollOutcome::Sample(data)) == BotState::Emergency,
{
    let commands = commands_of(BotState::Emergency, PollOutcome::Sample(data));
    reveal_with_fuel(motor_after, 3);
    reveal_with_fuel(state_after_all, 3);
    assert(commands.skip(1)[0] == commands[1]);
    assert(commands.skip(1).skip(1).len() == 0);
}

/// The cycle that clears the emergency leaves the motor stopped and the
/// driver enabled, and the actuation side in Idle.
pub proof fn clearing_cycle_enables(
    output: MotorOutput,
    mode: BotState,
    data: ControllerData,
)
    requires
        start_held(data) && select_held(data),
    ensures
        motor_after(output, commands_of(BotState::Emergency, PollOutcome::Sample(data)))
            == (MotorOutput { command: MotorCommand::Stop, enabled: true }),
        state_after_all(mode, commands_of(BotState::Emergency, PollOutcome::Sample(data)))
            == BotState::Idle,
        state_after(BotState::Emergency, PollOutcome::Sample(data)) == BotState::Idle,
{
    let commands = commands_of(BotState::Emergency, PollOutcome::Sample(data));
    reveal_with_fuel(motor_after, 3);
    reveal_with_fuel(state_after_all, 3);
    assert(commands.skip(1)[0] == commands[1]);
    assert(commands.skip(1).skip(1).len() == 0);
}

} // verus!
