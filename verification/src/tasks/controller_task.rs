//! The controller side of the single-channel layout.

use vstd::prelude::*;

use crate::batch::Batch;
use crate::config::{COMBAT_MODE_PRESSURE, CONTROLLER_TIMEOUT_MS, CONTROL_LOOP_PERIOD_MS};
use crate::control::{
    combat_pull, next_state, select_held, start_held, state_after, BotState,
};
use crate::hardware::motor_controller::{command_from_stick, stick_command};
use crate::hardware::servo_controller::{servo_angle, servo_angle_spec};
use crate::input::{
    bits_to_buttons, next_feedback, wait_after, ControllerData, Feedback, PollOutcome,
};
use crate::messages::{Core1Command, MotorCommand, ServoCommand, StatusReport, SystemCommand};
use crate::utils::stick_in_range;

verus! {

/// What the controller does in one cycle, besides moving its state and the
/// feedback.
#[derive(Debug)]
pub struct ControllerCycle {
    /// Commands for the actuation side, in the order to send them.
    pub commands: Batch<Core1Command>,
    /// Pulse the link light: the read went through.
    pub link_led: bool,
    /// Look for a status report and reconcile with it.
    pub check_status: bool,
    /// Pause before the next poll, in milliseconds.
    pub wait_ms: u64,
}

/// Motor command of a sample: the vertical axis of the left stick.
pub open spec fn motor_of(data: ControllerData) -> MotorCommand {
    stick_command(data.left_stick_y)
}

/// Servo command of a sample: the horizontal axis of the right stick, mapped
/// linearly and without a dead zone.
pub open spec fn servo_of(data: ControllerData) -> ServoCommand {
    ServoCommand { angle: servo_angle_spec(data.right_stick_x) as u8 }
}

/// The two movement commands of a sample, motor first.
pub open spec fn movement_commands(data: ControllerData) -> Seq<Core1Command> {
    seq![Core1Command::Motor(motor_of(data)), Core1Command::Servo(servo_of(data))]
}

/// Commands of a cycle that brought a sample, in the order of emission.
///
/// Idle and Emergency send Stop in every cycle and never a movement, and
/// Emergency, as long as it is not cleared, orders the emergency again after
/// the Stop: that is the command that pulls the standby line on the other
/// side. Armed and Combat send the movement of the sample, except that
/// "select" in Armed stops instead. Every change of state is announced; the
/// way out of Emergency is announced as Resume.
pub open spec fn commands_for_sample(state: BotState, data: ControllerData) -> Seq<Core1Command> {
    let stop = Core1Command::Motor(MotorCommand::Stop);
    match state {
        BotState::Idle => if start_held(data) {
            seq![stop, Core1Command::System(SystemCommand::SetState(BotState::Armed))]
        } else {
            seq![stop]
        },
        BotState::Armed => if select_held(data) {
            seq![Core1Command::System(SystemCommand::SetState(BotState::Idle)), stop]
        } else if combat_pull(data) {
            movement_commands(data).push(
                Core1Command::System(SystemCommand::SetState(BotState::Combat)),
            )
        } else {
            movement_commands(data)
        },
        BotState::Combat => if select_held(data) {
            movement_commands(data).push(
                Core1Command::System(SystemCommand::SetState(BotState::Armed)),
            )
        } else {
            movement_commands(data)
        },
        BotState::Emergency => if start_held(data) && select_held(data) {
            seq![stop, Core1Command::System(SystemCommand::Resume)]
        } else {
            seq![stop, Core1Command::System(SystemCommand::Emergency)]
        },
    }
}

/// Commands of a polling cycle. A failed read sends Stop and nothing else;
/// an unexpected device sends nothing.
pub open spec fn commands_of(state: BotState, poll: PollOutcome) -> Seq<Core1Command> {
    match poll {
        PollOutcome::Sample(data) => commands_for_sample(state, data),
        PollOutcome::ReadFailure => seq![Core1Command::Motor(MotorCommand::Stop)],
        PollOutcome::UnexpectedDevice => Seq::empty(),
    }
}

/// Derives the motor and the servo command of one cycle from a sample.
pub fn process_movement(data: &ControllerData) -> (commands: (MotorCommand, ServoCommand))
    ensures
        commands.0 == motor_of(*data),
        commands.1 == servo_of(*data),
        commands.0.valid(),
        commands.1.angle <= 180,
{
    (command_from_stick(data.left_stick_y), ServoCommand { angle: servo_angle(data.right_stick_x) })
}

fn movement_batch(data: &ControllerData, announce: Option<BotState>) -> (commands: Batch<
    Core1Command,
>)
    ensures
        commands@ == match announce {
            Some(state) => movement_commands(*data).push(
                Core1Command::System(SystemCommand::SetState(state)),
            ),
            None => movement_commands(*data),
        },
{
    let pair: (MotorCommand, ServoCommand) = process_movement(data);
    match announce {
        Some(state) => {
            assert(movement_commands(*data).push(
                Core1Command::System(SystemCommand::SetState(state)),
            ) =~= seq![
                Core1Command::Motor(pair.0),
                Core1Command::Servo(pair.1),
                Core1Command::System(SystemCommand::SetState(state)),
            ]);
            Batch::three(
                Core1Command::Motor(pair.0),
                Core1Command::Servo(pair.1),
                Core1Command::System(SystemCommand::SetState(state)),
            )
        },
        None => Batch::two(Core1Command::Motor(pair.0), Core1Command::Servo(pair.1)),
    }
}

fn commands_on_sample(current_state: &mut BotState, data: &ControllerData) -> (commands: Batch<
    Core1Command,
>)
    ensures
        *final(current_state) == next_state(*old(current_state), *data),
        commands@ == commands_for_sample(*old(current_state), *data),
{
    let stop = Core1Command::Motor(MotorCommand::Stop);
    let buttons = bits_to_buttons(data.buttons);
    match *current_state {
        BotState::Idle => {
            if buttons.start() {
                *current_state = BotState::Armed;
                Batch::two(stop, Core1Command::System(SystemCommand::SetState(BotState::Armed)))
            } else {
                Batch::one(stop)
            }
        },
        BotState::Armed => {
            if buttons.select() {
                *current_state = BotState::Idle;
                Batch::two(Core1Command::System(SystemCommand::SetState(BotState::Idle)), stop)
            } else if data.l2_pressure > COMBAT_MODE_PRESSURE {
                *current_state = BotState::Combat;
                movement_batch(data, Some(BotState::Combat))
            } else {
                movement_batch(data, None)
            }
        },
        BotState::Combat => {
            if buttons.select() {
                *current_state = BotState::Armed;
                movement_batch(data, Some(BotState::Armed))
            } else {
                movement_batch(data, None)
            }
        },
        BotState::Emergency => {
            if buttons.start() && buttons.select() {
                *current_state = BotState::Idle;
                Batch::two(stop, Core1Command::System(SystemCommand::Resume))
            } else {
                Batch::two(stop, Core1Command::System(SystemCommand::Emergency))
            }
        },
    }
}

/// One cycle of the controller.
///
/// Takes the outcome of the poll, moves `current_state` along the transition
/// table, sets the feedback for the next poll and returns what to send and
/// how to go on. A failed read sends Stop, silences the feedback and moves
/// nothing; an unexpected device changes nothing at all.
pub fn controller_task(
    current_state: &mut BotState,
    feedback: &mut Feedback,
    poll: &PollOutcome,
) -> (cycle: ControllerCycle)
    ensures
        *final(current_state) == state_after(*old(current_state), *poll),
        *final(feedback) == next_feedback(*old(feedback), *poll),
        cycle.commands@ == commands_of(*old(current_state), *poll),
        cycle.link_led == !(*poll is ReadFailure),
        cycle.check_status == (*poll is Sample),
        cycle.wait_ms == wait_after(*poll),
{
    match poll {
        PollOutcome::Sample(data) => {
            let commands = commands_on_sample(current_state, data);
            *feedback = Feedback::from_sample(data);
            ControllerCycle {
                commands,
                link_led: true,
                check_status: true,
                wait_ms: CONTROL_LOOP_PERIOD_MS,
            }
        },
        PollOutcome::ReadFailure => {
            *feedback = Feedback::silent();
            ControllerCycle {
                commands: Batch::one(Core1Command::Motor(MotorCommand::Stop)),
                link_led: false,
                check_status: false,
                wait_ms: CONTROLLER_TIMEOUT_MS,
            }
        },
        PollOutcome::UnexpectedDevice => ControllerCycle {
            commands: Batch::empty(),
            link_led: true,
            check_status: false,
            wait_ms: 0,
        },
    }
}

/// The state after a status report: the reported one. The actuation side
/// can enter Emergency on its own, and this is how the controller learns it.
pub open spec fn reconciled(state: BotState, status: StatusReport) -> BotState {
    status.state
}

/// Takes over the state that the actuation side reports.
pub fn reconcile_status(current_state: &mut BotState, status: &StatusReport) -> (changed: bool)
    ensures
        *final(current_state) == reconciled(*old(current_state), *status),
        changed == (status.state != *old(current_state)),
{
    if status.state != *current_state {
        *current_state = status.state;
        true
    } else {
        false
    }
}

/// A failed read, in Combat as in any other state, sends exactly one Stop,
/// silences both feedback motors and leaves the state where it was.
pub proof fn read_failure_is_safe(state: BotState, feedback: Feedback)
    ensures
        commands_of(state, PollOutcome::ReadFailure) == seq![
            Core1Command::Motor(MotorCommand::Stop),
        ],
        next_feedback(feedback, PollOutcome::ReadFailure) == Feedback::off(),
        !Feedback::off().small_motor && Feedback::off().big_motor == 0,
        state_after(state, PollOutcome::ReadFailure) == state,
{
}

/// In Idle and in Emergency every cycle that is not skipped sends Stop first
/// and no movement, whatever the input holds.
pub proof fn inactive_states_send_stop(state: BotState, poll: PollOutcome)
    requires
        !state.is_active(),
        poll != PollOutcome::UnexpectedDevice,
    ensures
        commands_of(state, poll).len() >= 1,
        commands_of(state, poll)[0] == Core1Command::Motor(MotorCommand::Stop),
        forall|i: int|
            0 <= i < commands_of(state, poll).len() ==> (#[trigger] commands_of(state, poll)[i]
                matches Core1Command::Motor(command) ==> command == MotorCommand::Stop)
                && !(commands_of(state, poll)[i] is Servo),
{
}

/// Every command the controller sends is within range: a motor duty of at
/// most 100 percent, a servo angle of at most 180 degrees.
pub proof fn sent_commands_in_range(state: BotState, poll: PollOutcome, i: int)
    requires
        0 <= i < commands_of(state, poll).len(),
    ensures
        match commands_of(state, poll)[i] {
            Core1Command::Motor(motor) => motor.valid(),
            Core1Command::Servo(servo) => servo.angle <= 180,
            Core1Command::System(_) => true,
        },
{
    if let PollOutcome::Sample(data) = poll {
        stick_in_range(data.left_stick_y);
    }
}

} // verus!
