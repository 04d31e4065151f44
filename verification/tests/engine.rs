use battlebot::batch::Batch;
use battlebot::control::{
    emergency_stop, led_driver_task, state_controller_task, tank_driver_task, BotState, LedState,
};
use battlebot::events::{LedEvent, ServoEvent, TankDriveEvent};
use battlebot::hardware::TankDriveController;
use battlebot::input::{ControllerData, PollOutcome};
use battlebot::messages::MotorCommand;
use battlebot::motor::{emergency, motor_task, Robot};

const NONE: u16 = 0xffff;
const START: u16 = 0xfff7;
const SELECT: u16 = 0xfffe;
const BOTH: u16 = 0xfff6;

fn pad(buttons: u16, l2: u8) -> PollOutcome {
    PollOutcome::Sample(ControllerData {
        left_stick_x: 128,
        left_stick_y: 59,
        right_stick_x: 128,
        right_stick_y: 255,
        l2_pressure: l2,
        r2_pressure: 0,
        buttons,
    })
}

fn list(batch: &Batch<TankDriveEvent>) -> Vec<TankDriveEvent> {
    let mut items = Vec::new();
    while let Some(item) = batch.get(items.len()) {
        items.push(item);
    }
    assert_eq!(items.len(), batch.len());
    items
}

const FORWARD: TankDriveEvent = TankDriveEvent::Move { x: 0, y: 50 };

#[test]
fn idle_start_arms() {
    let mut state = BotState::Idle;
    let out = state_controller_task(&mut state, &pad(START, 0));
    assert_eq!(state, BotState::Armed);
    assert_eq!(list(&out.drive), vec![TankDriveEvent::Stop]);
    assert_eq!(out.servo, None);
    assert_eq!(out.led, Some(LedEvent::SlowBlink));
}

#[test]
fn idle_holds_and_stops_every_cycle() {
    let mut state = BotState::Idle;
    for poll in [pad(NONE, 0), pad(SELECT, 0), pad(NONE, 255)] {
        let out = state_controller_task(&mut state, &poll);
        assert_eq!(state, BotState::Idle);
        assert_eq!(list(&out.drive), vec![TankDriveEvent::Stop]);
        assert_eq!(out.servo, None);
        assert_eq!(out.led, Some(LedEvent::Off));
    }
}

#[test]
fn armed_select_goes_idle_with_stop() {
    let mut state = BotState::Armed;
    let out = state_controller_task(&mut state, &pad(SELECT, 0));
    assert_eq!(state, BotState::Idle);
    assert_eq!(list(&out.drive), vec![TankDriveEvent::Stop]);
    assert_eq!(out.servo, None);
    assert_eq!(out.led, Some(LedEvent::Off));
}

#[test]
fn armed_select_wins_over_trigger() {
    let mut state = BotState::Armed;
    let out = state_controller_task(&mut state, &pad(SELECT, 255));
    assert_eq!(state, BotState::Idle);
    assert_eq!(list(&out.drive), vec![TankDriveEvent::Stop]);
}

#[test]
fn armed_trigger_enters_combat() {
    let mut state = BotState::Armed;
    let out = state_controller_task(&mut state, &pad(NONE, 150));
    assert_eq!(state, BotState::Combat);
    assert_eq!(list(&out.drive), vec![]);
    assert_eq!(out.servo, None);
    assert_eq!(out.led, Some(LedEvent::FastBlink));
}

#[test]
fn armed_trigger_at_threshold_stays_armed() {
    let mut state = BotState::Armed;
    let out = state_controller_task(&mut state, &pad(NONE, 100));
    assert_eq!(state, BotState::Armed);
    assert_eq!(list(&out.drive), vec![FORWARD]);
    let out = state_controller_task(&mut state, &pad(NONE, 101));
    assert_eq!(state, BotState::Combat);
    assert_eq!(list(&out.drive), vec![]);
}

#[test]
fn armed_forwards_movement() {
    let mut state = BotState::Armed;
    let out = state_controller_task(&mut state, &pad(START, 0));
    assert_eq!(state, BotState::Armed);
    assert_eq!(list(&out.drive), vec![FORWARD]);
    assert_eq!(out.servo, Some(ServoEvent::SetAngle(180)));
    assert_eq!(out.led, None);
}

#[test]
fn combat_select_goes_armed() {
    let mut state = BotState::Combat;
    let out = state_controller_task(&mut state, &pad(SELECT, 0));
    assert_eq!(state, BotState::Armed);
    assert_eq!(list(&out.drive), vec![]);
    assert_eq!(out.servo, None);
    assert_eq!(out.led, Some(LedEvent::SlowBlink));
}

#[test]
fn combat_forwards_movement() {
    let mut state = BotState::Combat;
    for poll in [pad(NONE, 0), pad(START, 0), pad(NONE, 255)] {
        let out = state_controller_task(&mut state, &poll);
        assert_eq!(state, BotState::Combat);
        assert_eq!(list(&out.drive), vec![FORWARD]);
        assert_eq!(out.servo, Some(ServoEvent::SetAngle(180)));
        assert_eq!(out.led, None);
    }
}

#[test]
fn emergency_holds_and_disables_every_cycle() {
    let mut state = BotState::Emergency;
    for poll in [pad(NONE, 0), pad(START, 0), pad(SELECT, 0), pad(NONE, 255)] {
        let out = state_controller_task(&mut state, &poll);
        assert_eq!(state, BotState::Emergency);
        assert_eq!(list(&out.drive), vec![TankDriveEvent::Stop, TankDriveEvent::Disable]);
        assert_eq!(out.servo, None);
        assert_eq!(out.led, Some(LedEvent::Solid));
    }
}

#[test]
fn emergency_clears_with_start_and_select() {
    let mut state = BotState::Emergency;
    let out = state_controller_task(&mut state, &pad(BOTH, 0));
    assert_eq!(state, BotState::Idle);
    assert_eq!(
        list(&out.drive),
        vec![TankDriveEvent::Stop, TankDriveEvent::Disable, TankDriveEvent::Enable]
    );
    assert_eq!(out.servo, None);
    assert_eq!(out.led, Some(LedEvent::Off));
}

#[test]
fn read_failure_stops_without_transition() {
    for start in [BotState::Idle, BotState::Armed, BotState::Combat] {
        let mut state = start;
        let out = state_controller_task(&mut state, &PollOutcome::ReadFailure);
        assert_eq!(state, start);
        assert_eq!(list(&out.drive), vec![TankDriveEvent::Stop]);
        assert_eq!(out.servo, None);
        assert_eq!(out.led, None);
    }
    let mut state = BotState::Emergency;
    let out = state_controller_task(&mut state, &PollOutcome::ReadFailure);
    assert_eq!(state, BotState::Emergency);
    assert_eq!(list(&out.drive), vec![TankDriveEvent::Stop, TankDriveEvent::Disable]);
}

#[test]
fn unexpected_device_skips_the_cycle() {
    for start in [BotState::Idle, BotState::Armed, BotState::Combat, BotState::Emergency] {
        let mut state = start;
        let out = state_controller_task(&mut state, &PollOutcome::UnexpectedDevice);
        assert_eq!(state, start);
        assert_eq!(list(&out.drive), vec![]);
        assert_eq!(out.servo, None);
        assert_eq!(out.led, None);
    }
}

#[test]
fn emergency_signal_from_any_state() {
    for start in [BotState::Idle, BotState::Armed, BotState::Combat, BotState::Emergency] {
        let mut state = start;
        let out = emergency_stop(&mut state);
        assert_eq!(state, BotState::Emergency);
        assert_eq!(list(&out.drive), vec![TankDriveEvent::Stop, TankDriveEvent::Disable]);
        assert_eq!(out.servo, None);
        assert_eq!(out.led, Some(LedEvent::Solid));
    }
}

#[test]
fn led_starts_dark() {
    let led = LedState::new();
    assert_eq!(led, LedState { pattern: LedEvent::Off, lit: false, period_ms: 100 });
}

#[test]
fn led_static_patterns() {
    let mut led = LedState::new();
    led_driver_task(&mut led, Some(LedEvent::Solid));
    assert_eq!(led, LedState { pattern: LedEvent::Solid, lit: true, period_ms: 100 });
    led_driver_task(&mut led, None);
    assert_eq!(led, LedState { pattern: LedEvent::Solid, lit: true, period_ms: 100 });
    led_driver_task(&mut led, Some(LedEvent::Off));
    assert_eq!(led, LedState { pattern: LedEvent::Off, lit: false, period_ms: 100 });
}

#[test]
fn led_blinks_toggle_each_tick() {
    let mut led = LedState::new();
    led_driver_task(&mut led, Some(LedEvent::SlowBlink));
    assert_eq!(led, LedState { pattern: LedEvent::SlowBlink, lit: true, period_ms: 500 });
    led_driver_task(&mut led, None);
    assert_eq!(led, LedState { pattern: LedEvent::SlowBlink, lit: false, period_ms: 500 });
    led_driver_task(&mut led, Some(LedEvent::FastBlink));
    assert_eq!(led, LedState { pattern: LedEvent::FastBlink, lit: true, period_ms: 100 });
    led_driver_task(&mut led, None);
    assert_eq!(led, LedState { pattern: LedEvent::FastBlink, lit: false, period_ms: 100 });
}

#[test]
fn led_period_changes_only_with_a_command() {
    let mut led = LedState { pattern: LedEvent::SlowBlink, lit: false, period_ms: 250 };
    assert!(!led_driver_task(&mut led, None));
    assert_eq!(led.period_ms, 250);
    assert!(led_driver_task(&mut led, Some(LedEvent::SlowBlink)));
    assert_eq!(led.period_ms, 500);
    led.set_pattern(LedEvent::Solid);
    assert_eq!(led, LedState { pattern: LedEvent::Solid, lit: false, period_ms: 100 });
}

fn motors(robot: &Robot) -> (MotorCommand, MotorCommand, bool) {
    (robot.tank_drive.left(), robot.tank_drive.right(), robot.tank_drive.is_enabled())
}

#[test]
fn robot_starts_idle_and_halted() {
    let robot = Robot::new(39061);
    assert_eq!(robot.current_state, BotState::Idle);
    assert_eq!(motors(&robot), (MotorCommand::Stop, MotorCommand::Stop, true));
    assert_eq!(robot.servo.duty(), 1953);
    assert_eq!(robot.state_led, LedState::new());
    assert_eq!(robot.led_timer, 0);
}

#[test]
fn robot_light_blinks_by_cycles() {
    let mut robot = Robot::new(39061);
    motor_task(&mut robot, &pad(START, 0));
    assert_eq!(robot.state_led, LedState { pattern: LedEvent::SlowBlink, lit: false, period_ms: 500 });
    for cycle in 1..30 {
        motor_task(&mut robot, &pad(NONE, 0));
        assert!(!robot.state_led.lit);
        assert_eq!(robot.led_timer, cycle);
    }
    motor_task(&mut robot, &pad(NONE, 0));
    assert!(robot.state_led.lit);
    assert_eq!(robot.led_timer, 0);
    motor_task(&mut robot, &PollOutcome::UnexpectedDevice);
    assert_eq!(robot.led_timer, 0);
    motor_task(&mut robot, &PollOutcome::ReadFailure);
    assert_eq!(robot.led_timer, 1);

    motor_task(&mut robot, &pad(NONE, 150));
    assert_eq!(robot.state_led, LedState { pattern: LedEvent::FastBlink, lit: true, period_ms: 100 });
    assert_eq!(robot.led_timer, 0);
    for _ in 1..6 {
        motor_task(&mut robot, &pad(NONE, 0));
        assert!(robot.state_led.lit);
    }
    motor_task(&mut robot, &pad(NONE, 0));
    assert!(!robot.state_led.lit);

    motor_task(&mut robot, &pad(SELECT, 0));
    motor_task(&mut robot, &pad(SELECT, 0));
    assert_eq!(robot.state_led, LedState { pattern: LedEvent::Off, lit: false, period_ms: 100 });
}

#[test]
fn robot_drives_only_while_active() {
    let mut robot = Robot::new(39061);
    motor_task(&mut robot, &pad(NONE, 0));
    assert_eq!(robot.current_state, BotState::Idle);
    assert_eq!(motors(&robot), (MotorCommand::Stop, MotorCommand::Stop, true));
    assert_eq!(robot.servo.duty(), 1953);

    motor_task(&mut robot, &pad(START, 0));
    assert_eq!(robot.current_state, BotState::Armed);
    assert_eq!(robot.state_led.pattern, LedEvent::SlowBlink);
    assert_eq!(robot.state_led.period_ms, 500);
    assert_eq!(motors(&robot), (MotorCommand::Stop, MotorCommand::Stop, true));

    motor_task(&mut robot, &pad(NONE, 0));
    assert_eq!(robot.current_state, BotState::Armed);
    assert_eq!(motors(&robot), (MotorCommand::Forward(50), MotorCommand::Forward(50), true));
    assert_eq!(robot.servo.duty(), 3906);

    motor_task(&mut robot, &pad(NONE, 150));
    assert_eq!(robot.current_state, BotState::Combat);
    assert_eq!(robot.state_led.pattern, LedEvent::FastBlink);
    assert_eq!(robot.state_led.period_ms, 100);

    motor_task(&mut robot, &PollOutcome::ReadFailure);
    assert_eq!(robot.current_state, BotState::Combat);
    assert_eq!(motors(&robot), (MotorCommand::Stop, MotorCommand::Stop, true));
    assert_eq!(robot.servo.duty(), 3906);

    motor_task(&mut robot, &pad(NONE, 0));
    assert_eq!(motors(&robot), (MotorCommand::Forward(50), MotorCommand::Forward(50), true));

    motor_task(&mut robot, &PollOutcome::UnexpectedDevice);
    assert_eq!(robot.current_state, BotState::Combat);
    assert_eq!(motors(&robot), (MotorCommand::Forward(50), MotorCommand::Forward(50), true));

    motor_task(&mut robot, &pad(SELECT, 0));
    assert_eq!(robot.current_state, BotState::Armed);
    motor_task(&mut robot, &pad(SELECT, 0));
    assert_eq!(robot.current_state, BotState::Idle);
    assert_eq!(motors(&robot), (MotorCommand::Stop, MotorCommand::Stop, true));
    assert_eq!(robot.state_led.pattern, LedEvent::Off);
}

#[test]
fn robot_emergency_disables_until_cleared() {
    let mut robot = Robot::new(39061);
    motor_task(&mut robot, &pad(START, 0));
    motor_task(&mut robot, &pad(NONE, 0));
    assert_eq!(motors(&robot), (MotorCommand::Forward(50), MotorCommand::Forward(50), true));
    emergency(&mut robot);
    assert_eq!(robot.current_state, BotState::Emergency);
    assert_eq!(motors(&robot), (MotorCommand::Stop, MotorCommand::Stop, false));
    assert_eq!(robot.state_led, LedState { pattern: LedEvent::Solid, lit: true, period_ms: 100 });
    assert_eq!(robot.servo.duty(), 3906);
    robot.tank_drive.drive(0, 80);
    motor_task(&mut robot, &pad(NONE, 0));
    assert_eq!(robot.current_state, BotState::Emergency);
    assert_eq!(motors(&robot), (MotorCommand::Stop, MotorCommand::Stop, false));
    assert_eq!(robot.state_led, LedState { pattern: LedEvent::Solid, lit: true, period_ms: 100 });
    motor_task(&mut robot, &pad(BOTH, 0));
    assert_eq!(robot.current_state, BotState::Idle);
    assert_eq!(motors(&robot), (MotorCommand::Stop, MotorCommand::Stop, true));
    assert_eq!(robot.state_led.pattern, LedEvent::Off);
}

#[test]
fn emitted_commands_halt_the_drive() {
    let mut tank = TankDriveController::new();
    tank.drive(40, 40);
    let mut state = BotState::Combat;
    let out = emergency_stop(&mut state);
    for event in list(&out.drive) {
        tank_driver_task(&mut tank, event);
    }
    assert_eq!(tank.left(), MotorCommand::Stop);
    assert_eq!(tank.right(), MotorCommand::Stop);
    assert!(!tank.is_enabled());
}
