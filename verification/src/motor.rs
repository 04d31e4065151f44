//! The whole actuation side in one task: the decision engine together with
//! the drive, the servo and the status light it commands.

use vstd::prelude::*;

pub use crate::control::BotState;

use crate::batch::Batch;
use crate::control::{
    drive_commands, emergency_stop, led_command, led_driver_task, pattern_of, servo_command,
    servo_driver_task, state_after, state_controller_task, tank_driver_task, Emission, LedState,
};
use crate::events::{LedEvent, ServoEvent, TankDriveEvent};
use crate::hardware::servo_controller::{min_duty, servo_duty_spec, ServoController};
use crate::hardware::tank_drive_controller::{TankDriveController, TankDriveOutput};
use crate::input::PollOutcome;

verus! {

/// Control cycles from one toggle of the status light to the next.
pub const SLOW_BLINK_CYCLES: u32 = 30;

pub const FAST_BLINK_CYCLES: u32 = 6;

/// Control cycles from one tick of the status light to the next under a
/// pattern. The single task has no timer for the light: it counts cycles.
pub open spec fn cycles_per_tick(pattern: LedEvent) -> u32 {
    match pattern {
        LedEvent::SlowBlink => SLOW_BLINK_CYCLES,
        LedEvent::FastBlink => FAST_BLINK_CYCLES,
        _ => 1,
    }
}

/// The status light and its cycle counter after a control cycle.
///
/// A light command puts its pattern in force and restarts the counter; Off
/// and Solid show at once, a blink starts from the level it finds. Idle and
/// Emergency send their pattern with every sample, so there the light is
/// set anew in each such cycle. Without a command the counter runs, and each
/// time it completes the cycles of the pattern in force the light ticks.
pub open spec fn light_after(led: LedState, timer: u32, command: Option<LedEvent>) -> (
    LedState,
    u32,
) {
    match command {
        Some(pattern) => if pattern is SlowBlink || pattern is FastBlink {
            (led.observe(pattern), 0u32)
        } else {
            (led.observe(pattern).tick(), 0u32)
        },
        None => if timer >= cycles_per_tick(led.pattern) - 1 {
            (led.tick(), 0u32)
        } else {
            (led, (timer + 1) as u32)
        },
    }
}

/// The robot as the single task holds it.
pub struct Robot {
    pub current_state: BotState,
    pub tank_drive: TankDriveController,
    pub servo: ServoController,
    pub state_led: LedState,
    /// Control cycles since the status light last ticked or changed pattern.
    pub led_timer: u32,
}

impl Robot {
    /// The robot after bring-up: idle, motors stopped and enabled, servo at
    /// the shortest pulse of a counter that wraps at `servo_max_duty`, light
    /// off.
    pub fn new(servo_max_duty: u16) -> (robot: Robot)
        ensures
            robot.current_state == BotState::Idle,
            robot.tank_drive@ == TankDriveOutput::initial(),
            robot.servo.max_duty_cycle() == servo_max_duty,
            robot.servo.duty_cycle() == min_duty(servo_max_duty),
            robot.state_led == LedState::initial(),
            robot.led_timer == 0,
    {
        Robot {
            current_state: BotState::Idle,
            tank_drive: TankDriveController::new(),
            servo: ServoController::new(servo_max_duty),
            state_led: LedState::new(),
            led_timer: 0,
        }
    }
}

fn cycles_for(pattern: LedEvent) -> (cycles: u32)
    ensures
        cycles == cycles_per_tick(pattern),
{
    match pattern {
        LedEvent::SlowBlink => SLOW_BLINK_CYCLES,
        LedEvent::FastBlink => FAST_BLINK_CYCLES,
        _ => 1,
    }
}

fn update_light(led: &mut LedState, timer: &mut u32, command: Option<LedEvent>)
    ensures
        (*final(led), *final(timer)) == light_after(*old(led), *old(timer), command),
{
    match command {
        Some(pattern) => {
            led.set_pattern(pattern);
            *timer = 0;
            match pattern {
                LedEvent::SlowBlink => {},
                LedEvent::FastBlink => {},
                _ => {
                    let _ = led_driver_task(led, None);
                },
            }
        },
        None => {
            if *timer >= cycles_for(led.pattern) - 1 {
                let _ = led_driver_task(led, None);
                *timer = 0;
            } else {
                *timer = *timer + 1;
            }
        },
    }
}

fn apply_drive(tank_drive: &mut TankDriveController, events: &Batch<TankDriveEvent>)
    ensures
        final(tank_drive)@ == old(tank_drive)@.apply_all(events@),
{
    let ghost before: TankDriveOutput = tank_drive@;
    let count: usize = events.len();
    let mut i: usize = 0;
    assert(events@.skip(0) =~= events@);
    while i < count
        invariant
            i <= count,
            count == events@.len(),
            before.apply_all(events@) == tank_drive@.apply_all(events@.skip(i as int)),
        decreases count - i,
    {
        assert(events@.skip(i as int).skip(1) =~= events@.skip(i + 1));
        match events.get(i) {
            Some(event) => {
                tank_driver_task(tank_drive, event);
            },
            None => {},
        }
        i = i + 1;
    }
}

/// One cycle of the single task: runs the decision engine on the outcome of
/// the poll and applies every command it emits, the drive commands in their
/// order. A cycle with an unexpected device is skipped and changes nothing.
pub fn motor_task(robot: &mut Robot, poll: &PollOutcome)
    ensures
        final(robot).current_state == state_after(old(robot).current_state, *poll),
        final(robot).tank_drive@ == old(robot).tank_drive@.apply_all(
            drive_commands(old(robot).current_state, *poll),
        ),
        final(robot).servo.max_duty_cycle() == old(robot).servo.max_duty_cycle(),
        final(robot).servo.duty_cycle() == match servo_command(old(robot).current_state, *poll) {
            Some(ServoEvent::SetAngle(angle)) => servo_duty_spec(
                old(robot).servo.max_duty_cycle(),
                angle,
            ) as u16,
            None => old(robot).servo.duty_cycle(),
        },
        (final(robot).state_led, final(robot).led_timer) == if *poll is UnexpectedDevice {
            (old(robot).state_led, old(robot).led_timer)
        } else {
            light_after(
                old(robot).state_led,
                old(robot).led_timer,
                led_command(old(robot).current_state, *poll),
            )
        },
{
    let emission: Emission = state_controller_task(&mut robot.current_state, poll);
    apply_drive(&mut robot.tank_drive, &emission.drive);
    match emission.servo {
        Some(event) => {
            servo_driver_task(&mut robot.servo, event);
        },
        None => {},
    }
    match poll {
        PollOutcome::UnexpectedDevice => {},
        _ => {
            update_light(&mut robot.state_led, &mut robot.led_timer, emission.led);
        },
    }
}

/// An emergency signalled from outside: whatever the robot was doing, it
/// ends in Emergency with both motors stopped, the driver disabled and the
/// steady light on. The servo stays where it is.
pub fn emergency(robot: &mut Robot)
    ensures
        final(robot).current_state == BotState::Emergency,
        final(robot).tank_drive@ == old(robot).tank_drive@.stop().disable(),
        final(robot).tank_drive@.halted() && !final(robot).tank_drive@.enabled,
        final(robot).servo == old(robot).servo,
        final(robot).state_led == old(robot).state_led.observe(LedEvent::Solid).tick(),
        final(robot).state_led.lit,
        final(robot).led_timer == 0,
{
    let emission: Emission = emergency_stop(&mut robot.current_state);
    proof {
        let commands = emission.drive@;
        reveal_with_fuel(TankDriveOutput::apply_all, 3);
        assert(commands.skip(1)[0] == commands[1]);
        assert(commands.skip(1).skip(1).len() == 0);
    }
    apply_drive(&mut robot.tank_drive, &emission.drive);
    update_light(&mut robot.state_led, &mut robot.led_timer, emission.led);
}

/// The status light of the single task shows the state: if its pattern is
/// that of the state before a cycle, then after the cycle its pattern is
/// that of the state the cycle ends in; and where that state is Idle or
/// Emergency and the cycle brought a sample, the level is that of the state
/// as well.
pub proof fn robot_light_shows_state(led: LedState, timer: u32, state: BotState, poll: PollOutcome)
    requires
        led.pattern == pattern_of(state),
    ensures
        light_after(led, timer, led_command(state, poll)).0.pattern == pattern_of(
            state_after(state, poll),
        ),
        poll is Sample && !state_after(state, poll).is_active() ==> light_after(
            led,
            timer,
            led_command(state, poll),
        ).0.lit == (state_after(state, poll) is Emergency),
{
}

} // verus!
