//! The decision engine and the three actuation steps.
//!
//! The engine is the single authority over the operating mode. Once per
//! polling cycle it takes the outcome of the poll, moves the mode along the
//! transition table and emits the commands for the drive, the servo and the
//! status light. Each actuation step applies one command to the part it
//! alone owns.

use vstd::prelude::*;

use crate::batch::Batch;
use crate::config::{COMBAT_MODE_PRESSURE, FAST_BLINK_MS, SLOW_BLINK_MS};
use crate::events::{LedEvent, ServoEvent, TankDriveEvent};
use crate::hardware::servo_controller::{servo_duty_spec, ServoController};
use crate::hardware::tank_drive_controller::{TankDriveController, TankDriveOutput};
use crate::input::{bits_to_buttons, held, ControllerData, PollOutcome, BUTTON_SELECT, BUTTON_START};
use crate::utils::{aim, movement, movement_valid, process_movement, process_servo};

verus! {

/// Operating mode of the robot. The decision engine owns the one instance.
#[derive(Clone, Copy, Debug, PartialEq, Eq, Structural)]
pub enum BotState {
    /// Motors halted, waiting for "start".
    Idle,
    /// Driving allowed; a firm pull of the left trigger enters combat.
    Armed,
    /// Full control.
    Combat,
    /// Halted and disabled until cleared by "start" and "select" together.
    Emergency,
}

impl BotState {
    /// Armed and Combat are the states in which the pilot's movement is
    /// handed on to the actuators.
    pub open spec fn is_active(self) -> bool {
        self is Armed || self is Combat
    }
}

/// "start" is held in the sample.
pub open spec fn start_held(data: ControllerData) -> bool {
    held(data.buttons, BUTTON_START)
}

/// "select" is held in the sample.
pub open spec fn select_held(data: ControllerData) -> bool {
    held(data.buttons, BUTTON_SELECT)
}

/// The left trigger is pulled beyond the combat threshold.
pub open spec fn combat_pull(data: ControllerData) -> bool {
    data.l2_pressure > COMBAT_MODE_PRESSURE
}

/// The transition table for a sample. Every pair of state and input that no
/// line names keeps the state.
pub open spec fn next_state(state: BotState, data: ControllerData) -> BotState {
    match state {
        BotState::Idle => if start_held(data) {
            BotState::Armed
        } else {
            BotState::Idle
        },
        BotState::Armed => if select_held(data) {
            BotState::Idle
        } else if combat_pull(data) {
            BotState::Combat
        } else {
            BotState::Armed
        },
        BotState::Combat => if select_held(data) {
            BotState::Armed
        } else {
            BotState::Combat
        },
        BotState::Emergency => if start_held(data) && select_held(data) {
            BotState::Idle
        } else {
            BotState::Emergency
        },
    }
}

/// The state after a polling cycle. Only a sample can move it.
pub open spec fn state_after(state: BotState, poll: PollOutcome) -> BotState {
    match poll {
        PollOutcome::Sample(data) => next_state(state, data),
        _ => state,
    }
}

/// An active state hands the pilot's movement on in this cycle: it stays
/// active and no transition takes the cycle.
pub open spec fn forwards_movement(state: BotState, data: ControllerData) -> bool {
    match state {
        BotState::Armed => !select_held(data) && !combat_pull(data),
        BotState::Combat => !select_held(data),
        _ => false,
    }
}

/// The commands that halt the drive in a state: Stop, and for Emergency
/// Disable after it.
pub open spec fn halt_commands(state: BotState) -> Seq<TankDriveEvent> {
    if state is Emergency {
        seq![TankDriveEvent::Stop, TankDriveEvent::Disable]
    } else {
        seq![TankDriveEvent::Stop]
    }
}

/// Drive commands of a cycle that brought a sample, in the order of emission.
pub open spec fn drive_for_sample(state: BotState, data: ControllerData) -> Seq<TankDriveEvent> {
    match state {
        BotState::Idle => halt_commands(state),
        BotState::Armed => if select_held(data) {
            seq![TankDriveEvent::Stop]
        } else if combat_pull(data) {
            Seq::empty()
        } else {
            seq![movement(data)]
        },
        BotState::Combat => if select_held(data) {
            Seq::empty()
        } else {
            seq![movement(data)]
        },
        BotState::Emergency => if start_held(data) && select_held(data) {
            halt_commands(state).push(TankDriveEvent::Enable)
        } else {
            halt_commands(state)
        },
    }
}

/// Drive commands of a polling cycle. A failed read halts the drive instead
/// of holding the last command; an unexpected device emits nothing.
pub open spec fn drive_commands(state: BotState, poll: PollOutcome) -> Seq<TankDriveEvent> {
    match poll {
        PollOutcome::Sample(data) => drive_for_sample(state, data),
        PollOutcome::ReadFailure => halt_commands(state),
        PollOutcome::UnexpectedDevice => Seq::empty(),
    }
}

/// Servo command of a polling cycle: present exactly when the movement is
/// handed on.
pub open spec fn servo_command(state: BotState, poll: PollOutcome) -> Option<ServoEvent> {
    match poll {
        PollOutcome::Sample(data) => if forwards_movement(state, data) {
            Some(aim(data))
        } else {
            None
        },
        _ => None,
    }
}

/// The pattern that shows a state on the status light.
pub open spec fn pattern_of(state: BotState) -> LedEvent {
    match state {
        BotState::Idle => LedEvent::Off,
        BotState::Armed => LedEvent::SlowBlink,
        BotState::Combat => LedEvent::FastBlink,
        BotState::Emergency => LedEvent::Solid,
    }
}

/// Status light command of a polling cycle: the pattern of the state the
/// cycle ends in, sent on every transition and, in Idle and in Emergency, in
/// every cycle that brought a sample. An active state that stays as it is
/// sends none, and neither does a cycle without a sample.
pub open spec fn led_command(state: BotState, poll: PollOutcome) -> Option<LedEvent> {
    match poll {
        PollOutcome::Sample(data) => if next_state(state, data) != state || !state.is_active() {
            Some(pattern_of(next_state(state, data)))
        } else {
            None
        },
        _ => None,
    }
}

/// Everything the engine emits in one cycle.
#[derive(Debug)]
pub struct Emission {
    /// Commands for the drive task, in the order to send them.
    pub drive: Batch<TankDriveEvent>,
    /// Command for the servo task.
    pub servo: Option<ServoEvent>,
    /// Command for the status light task.
    pub led: Option<LedEvent>,
}

fn halt(state: BotState) -> (drive: Batch<TankDriveEvent>)
    ensures
        drive@ == halt_commands(state),
{
    match state {
        BotState::Emergency => Batch::two(TankDriveEvent::Stop, TankDriveEvent::Disable),
        _ => Batch::one(TankDriveEvent::Stop),
    }
}

fn forward(data: &ControllerData) -> (emission: Emission)
    ensures
        emission.drive@ == seq![movement(*data)],
        emission.servo == Some(aim(*data)),
        emission.led == None::<LedEvent>,
{
    Emission {
        drive: Batch::one(process_movement(data)),
        servo: Some(process_servo(data)),
        led: None,
    }
}

/// One cycle of the decision engine.
///
/// Takes the outcome of the poll, moves `current_state` along the transition
/// table and returns the commands of the cycle. A failed read emits the
/// halting commands and moves nothing; an unexpected device emits nothing
/// and moves nothing.
pub fn state_controller_task(current_state: &mut BotState, poll: &PollOutcome) -> (emission:
    Emission)
    ensures
        *final(current_state) == state_after(*old(current_state), *poll),
        emission.drive@ == drive_commands(*old(current_state), *poll),
        emission.servo == servo_command(*old(current_state), *poll),
        emission.led == led_command(*old(current_state), *poll),
{
    let state: BotState = *current_state;
    match poll {
        PollOutcome::Sample(data) => {
            let buttons = bits_to_buttons(data.buttons);
            match state {
                BotState::Idle => {
                    if buttons.start() {
                        *current_state = BotState::Armed;
                        Emission { drive: halt(state), servo: None, led: Some(LedEvent::SlowBlink) }
                    } else {
                        Emission { drive: halt(state), servo: None, led: Some(LedEvent::Off) }
                    }
                },
                BotState::Armed => {
                    if buttons.select() {
                        *current_state = BotState::Idle;
                        Emission {
                            drive: halt(BotState::Idle),
                            servo: None,
                            led: Some(LedEvent::Off),
                        }
                    } else if data.l2_pressure > COMBAT_MODE_PRESSURE {
                        *current_state = BotState::Combat;
                        Emission {
                            drive: Batch::empty(),
                            servo: None,
                            led: Some(LedEvent::FastBlink),
                        }
                    } else {
                        forward(data)
                    }
                },
                BotState::Combat => {
                    if buttons.select() {
                        *current_state = BotState::Armed;
                        Emission {
                            drive: Batch::empty(),
                            servo: None,
                            led: Some(LedEvent::SlowBlink),
                        }
                    } else {
                        forward(data)
                    }
                },
                BotState::Emergency => {
                    if buttons.start() && buttons.select() {
                        *current_state = BotState::Idle;
                        assert(halt_commands(state).push(TankDriveEvent::Enable) =~= seq![
                            TankDriveEvent::Stop,
                            TankDriveEvent::Disable,
                            TankDriveEvent::Enable,
                        ]);
                        Emission {
                            drive: Batch::three(
                                TankDriveEvent::Stop,
                                TankDriveEvent::Disable,
                                TankDriveEvent::Enable,
                            ),
                            servo: None,
                            led: Some(LedEvent::Off),
                        }
                    } else {
                        Emission { drive: halt(state), servo: None, led: Some(LedEvent::Solid) }
                    }
                },
            }
        },
        PollOutcome::ReadFailure => Emission { drive: halt(state), servo: None, led: None },
        PollOutcome::UnexpectedDevice => Emission { drive: Batch::empty(), servo: None, led: None },
    }
}

/// An emergency signalled from outside the engine: whatever the state, the
/// engine goes to Emergency, halts and disables the drive and shows the
/// steady light.
pub fn emergency_stop(current_state: &mut BotState) -> (emission: Emission)
    ensures
        *final(current_state) == BotState::Emergency,
        emission.drive@ == halt_commands(BotState::Emergency),
        emission.servo == None::<ServoEvent>,
        emission.led == Some(LedEvent::Solid),
{
    *current_state = BotState::Emergency;
    Emission { drive: halt(BotState::Emergency), servo: None, led: Some(LedEvent::Solid) }
}

/// One step of the drive task: applies one command to the tank drive.
pub fn tank_driver_task(tank_drive: &mut TankDriveController, event: TankDriveEvent)
    ensures
        final(tank_drive)@ == old(tank_drive)@.apply(event),
{
    match event {
        TankDriveEvent::Move { x, y } => {
            tank_drive.drive(x, y);
        },
        TankDriveEvent::Spin(speed) => {
            tank_drive.spin(speed);
        },
        TankDriveEvent::Stop => {
            tank_drive.stop();
        },
        TankDriveEvent::Enable => {
            tank_drive.enable();
        },
        TankDriveEvent::Disable => {
            tank_drive.disable();
        },
    }
}

/// One step of the servo task: applies one command to the servo.
pub fn servo_driver_task(servo: &mut ServoController, event: ServoEvent)
    ensures
        final(servo).max_duty_cycle() == old(servo).max_duty_cycle(),
        event matches ServoEvent::SetAngle(angle) && final(servo).duty_cycle() == servo_duty_spec(
            old(servo).max_duty_cycle(),
            angle,
        ),
{
    match event {
        ServoEvent::SetAngle(angle) => {
            servo.set_angle(angle);
        },
    }
}

/// The status light as its task holds it: the pattern in force, the level of
/// the output and the period of the timer.
#[derive(Clone, Copy, Debug, PartialEq, Eq, Structural)]
pub struct LedState {
    pub pattern: LedEvent,
    /// Level of the output: `true` while the light is on.
    pub lit: bool,
    /// Time from one tick of the timer to the next, in milliseconds.
    pub period_ms: u64,
}

/// Timer period under a pattern: slow for the slow blink, fast for all else.
pub open spec fn period_of(pattern: LedEvent) -> u64 {
    if pattern is SlowBlink {
        SLOW_BLINK_MS
    } else {
        FAST_BLINK_MS
    }
}

impl LedState {
    /// At start: dark, at the fast period.
    pub open spec fn initial() -> LedState {
        LedState { pattern: LedEvent::Off, lit: false, period_ms: FAST_BLINK_MS }
    }

    /// A new pattern takes over and sets the period of the timer. The level
    /// is left to the next tick.
    pub open spec fn observe(self, pattern: LedEvent) -> LedState {
        LedState { pattern, lit: self.lit, period_ms: period_of(pattern) }
    }

    /// One tick under the pattern in force: Off and Solid set the level, the
    /// two blinks toggle it. The period is not touched.
    pub open spec fn tick(self) -> LedState {
        LedState {
            pattern: self.pattern,
            lit: match self.pattern {
                LedEvent::Off => false,
                LedEvent::Solid => true,
                _ => !self.lit,
            },
            period_ms: self.period_ms,
        }
    }

    /// One round of the task: take the new pattern, if one has arrived, then
    /// tick.
    pub open spec fn step(self, event: Option<LedEvent>) -> LedState {
        match event {
            Some(pattern) => self.observe(pattern).tick(),
            None => self.tick(),
        }
    }

    /// The light at start.
    pub fn new() -> (led: LedState)
        ensures
            led == LedState::initial(),
    {
        LedState { pattern: LedEvent::Off, lit: false, period_ms: FAST_BLINK_MS }
    }

    /// Puts a new pattern in force.
    pub fn set_pattern(&mut self, pattern: LedEvent)
        ensures
            *final(self) == old(self).observe(pattern),
    {
        self.pattern = pattern;
        self.period_ms = match pattern {
            LedEvent::SlowBlink => SLOW_BLINK_MS,
            _ => FAST_BLINK_MS,
        };
    }
}

/// One round of the status light task. `event` is the pattern that arrived
/// since the last round, if any. Afterwards `led.lit` is the level to put
/// out and `led.period_ms` the period of the timer; the result says whether
/// the timer is to be set to that period anew, which is the case exactly in
/// a round in which a pattern arrived.
pub fn led_driver_task(led: &mut LedState, event: Option<LedEvent>) -> (retime: bool)
    ensures
        *final(led) == old(led).step(event),
        retime == event is Some,
{
    match event {
        Some(pattern) => {
            led.set_pattern(pattern);
        },
        None => {},
    }
    match led.pattern {
        LedEvent::Off => {
            led.lit = false;
        },
        LedEvent::Solid => {
            led.lit = true;
        },
        _ => {
            led.lit = !led.lit;
        },
    }
    event.is_some()
}

/// The period of the timer changes only in a round in which a pattern
/// arrives, and then to the period of that pattern.
pub proof fn period_follows_pattern(led: LedState, event: Option<LedEvent>)
    ensures
        event is None ==> led.step(event).period_ms == led.period_ms,
        event matches Some(pattern) ==> led.step(event).period_ms == period_of(pattern)
            && led.step(event).pattern == pattern,
{
}

/// The status light shows the state: if the task's pattern is that of the
/// engine's state before a cycle, then after the task has taken the light
/// command of the cycle, if there is one, its pattern is that of the state
/// the cycle ends in.
pub proof fn light_shows_state(led: LedState, state: BotState, poll: PollOutcome)
    requires
        led.pattern == pattern_of(state),
    ensures
        led.step(led_command(state, poll)).pattern == pattern_of(state_after(state, poll)),
        led.step(led_command(state, poll)).period_ms == if led_command(state, poll) is Some {
            period_of(pattern_of(state_after(state, poll)))
        } else {
            led.period_ms
        },
{
}

/// Under a pattern that shows Idle or Emergency, a tick puts out the level
/// of that state: dark for Idle, lit for Emergency.
pub proof fn steady_light_levels(led: LedState, state: BotState)
    requires
        led.pattern == pattern_of(state),
        !state.is_active(),
    ensures
        led.tick().lit == (state is Emergency),
{
}

/// The transition table, line by line, and its closure: a state changes
/// only as one of the lines says.
pub proof fn transition_table(state: BotState, data: ControllerData)
    ensures
        start_held(data) ==> next_state(BotState::Idle, data) == BotState::Armed,
        select_held(data) ==> next_state(BotState::Armed, data) == BotState::Idle,
        !select_held(data) && combat_pull(data) ==> next_state(BotState::Armed, data)
            == BotState::Combat,
        select_held(data) ==> next_state(BotState::Combat, data) == BotState::Armed,
        start_held(data) && select_held(data) ==> next_state(BotState::Emergency, data)
            == BotState::Idle,
        next_state(state, data) != state ==> {
            ||| state == BotState::Idle && start_held(data)
            ||| state == BotState::Armed && (select_held(data) || combat_pull(data))
            ||| state == BotState::Combat && select_held(data)
            ||| state == BotState::Emergency && start_held(data) && select_held(data)
        },
{
}

/// What each line of the transition table emits.
pub proof fn transition_emissions(data: ControllerData)
    ensures
        start_held(data) ==> drive_for_sample(BotState::Idle, data) == seq![TankDriveEvent::Stop]
            && led_command(BotState::Idle, PollOutcome::Sample(data)) == Some(
            LedEvent::SlowBlink,
        ),
        !start_held(data) ==> drive_for_sample(BotState::Idle, data) == seq![TankDriveEvent::Stop]
            && led_command(BotState::Idle, PollOutcome::Sample(data)) == Some(LedEvent::Off),
        select_held(data) ==> drive_for_sample(BotState::Armed, data) == seq![
            TankDriveEvent::Stop,
        ] && led_command(BotState::Armed, PollOutcome::Sample(data)) == Some(LedEvent::Off),
        !select_held(data) && combat_pull(data) ==> led_command(
            BotState::Armed,
            PollOutcome::Sample(data),
        ) == Some(LedEvent::FastBlink),
        select_held(data) ==> led_command(BotState::Combat, PollOutcome::Sample(data)) == Some(
            LedEvent::SlowBlink,
        ),
        !select_held(data) ==> drive_for_sample(BotState::Combat, data) == seq![movement(data)]
            && servo_command(BotState::Combat, PollOutcome::Sample(data)) == Some(aim(data)),
        start_held(data) && select_held(data) ==> drive_for_sample(BotState::Emergency, data)
            == seq![TankDriveEvent::Stop, TankDriveEvent::Disable, TankDriveEvent::Enable]
            && led_command(BotState::Emergency, PollOutcome::Sample(data)) == Some(LedEvent::Off),
        !(start_held(data) && select_held(data)) ==> drive_for_sample(BotState::Emergency, data)
            == seq![TankDriveEvent::Stop, TankDriveEvent::Disable] && led_command(
            BotState::Emergency,
            PollOutcome::Sample(data),
        ) == Some(LedEvent::Solid),
        !select_held(data) && !combat_pull(data) ==> led_command(
            BotState::Armed,
            PollOutcome::Sample(data),
        ) is None,
        !select_held(data) ==> led_command(BotState::Combat, PollOutcome::Sample(data)) is None,
{
    assert(seq![TankDriveEvent::Stop, TankDriveEvent::Disable].push(TankDriveEvent::Enable)
        =~= seq![TankDriveEvent::Stop, TankDriveEvent::Disable, TankDriveEvent::Enable]);
}

/// In Idle and in Emergency every cycle that is not skipped starts by
/// emitting Stop, whatever the input holds; in Emergency Disable follows.
/// Neither state ever hands on a movement or a servo command.
pub proof fn inactive_states_halt(state: BotState, poll: PollOutcome)
    requires
        !state.is_active(),
        poll != PollOutcome::UnexpectedDevice,
    ensures
        drive_commands(state, poll).len() >= 1,
        drive_commands(state, poll)[0] == TankDriveEvent::Stop,
        state is Emergency ==> drive_commands(state, poll).len() >= 2 && drive_commands(
            state,
            poll,
        )[1] == TankDriveEvent::Disable,
        forall|i: int|
            0 <= i < drive_commands(state, poll).len() ==> !(#[trigger] drive_commands(
                state,
                poll,
            )[i] is Move) && !(drive_commands(state, poll)[i] is Spin),
        servo_command(state, poll) is None,
{
}

/// A failed read, in any state, emits Stop first, emits no servo or status
/// light command and leaves the state where it was.
pub proof fn read_failure_halts(state: BotState)
    ensures
        state_after(state, PollOutcome::ReadFailure) == state,
        drive_commands(state, PollOutcome::ReadFailure)[0] == TankDriveEvent::Stop,
        servo_command(state, PollOutcome::ReadFailure) is None,
        led_command(state, PollOutcome::ReadFailure) is None,
{
}

/// An unexpected device skips the cycle: nothing is emitted, nothing moves.
pub proof fn unexpected_device_skips(state: BotState)
    ensures
        state_after(state, PollOutcome::UnexpectedDevice) == state,
        drive_commands(state, PollOutcome::UnexpectedDevice).len() == 0,
        servo_command(state, PollOutcome::UnexpectedDevice) is None,
        led_command(state, PollOutcome::UnexpectedDevice) is None,
{
}

/// Every drive command the engine emits carries magnitudes in [-100, 100].
pub proof fn emitted_commands_valid(state: BotState, poll: PollOutcome, i: int)
    requires
        0 <= i < drive_commands(state, poll).len(),
    ensures
        drive_commands(state, poll)[i].valid(),
{
    if let PollOutcome::Sample(data) = poll {
        movement_valid(data);
    }
}

/// Actuator output reflects the safety state: after any cycle that is not
/// skipped and that starts or ends in Idle or Emergency, both motors are
/// stopped, whatever the drive put out before; and after a cycle that ends in
/// Emergency the driver is disabled.
pub proof fn drive_halted_when_inactive(output: TankDriveOutput, state: BotState, poll: PollOutcome)
    requires
        poll != PollOutcome::UnexpectedDevice,
        !state.is_active() || !state_after(state, poll).is_active(),
    ensures
        output.apply_all(drive_commands(state, poll)).halted(),
        state_after(state, poll) is Emergency ==> !output.apply_all(
            drive_commands(state, poll),
        ).enabled,
{
    let commands = drive_commands(state, poll);
    reveal_with_fuel(TankDriveOutput::apply_all, 4);
    if commands.len() == 1 {
        assert(commands.skip(1).len() == 0);
    } else if commands.len() == 2 {
        assert(commands.skip(1)[0] == commands[1]);
        assert(commands.skip(1).skip(1).len() == 0);
    } else if commands.len() == 3 {
        assert(commands.skip(1)[0] == commands[1]);
        assert(commands.skip(1).skip(1)[0] == commands[2]);
        assert(commands.skip(1).skip(1).skip(1).len() == 0);
    }
}

} // verus!
