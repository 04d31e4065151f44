use battlebot::control::{servo_driver_task, tank_driver_task};
use battlebot::events::{ServoEvent, TankDriveEvent};
use battlebot::hardware::motor_controller::{command_from_stick, MotorFault};
use battlebot::hardware::servo_controller::{servo_angle, servo_duty, servo_pwm_top};
use battlebot::hardware::tank_drive_controller::side_command;
use battlebot::hardware::{MotorController, ServoController, TankDriveController};
use battlebot::input::{ControllerData, BUTTONS_RELEASED};
use battlebot::messages::MotorCommand;
use battlebot::mixer::{clamp_to_speed, mix, spin};
use battlebot::utils::{process_movement, process_servo, select_drive};

fn sticks(lx: u8, ly: u8, rx: u8, ry: u8) -> ControllerData {
    ControllerData {
        left_stick_x: lx,
        left_stick_y: ly,
        right_stick_x: rx,
        right_stick_y: ry,
        l2_pressure: 0,
        r2_pressure: 0,
        buttons: BUTTONS_RELEASED,
    }
}

fn output(tank: &TankDriveController) -> (MotorCommand, MotorCommand, bool) {
    (tank.left(), tank.right(), tank.is_enabled())
}

#[test]
fn mix_exact_values() {
    assert_eq!(mix(0, 50), (50, 50));
    assert_eq!(mix(30, 50), (80, 20));
    assert_eq!(mix(-20, -40), (-60, -20));
    assert_eq!(mix(50, 0), (50, -50));
    assert_eq!(mix(0, 0), (0, 0));
}

#[test]
fn mix_saturates() {
    assert_eq!(mix(100, 100), (100, 0));
    assert_eq!(mix(-100, 100), (0, 100));
    assert_eq!(mix(100, -100), (0, -100));
    assert_eq!(mix(60, 70), (100, 10));
    assert_eq!(mix(127, 127), (100, 0));
    assert_eq!(mix(-128, -128), (-100, 0));
    assert_eq!(mix(-128, 127), (-1, 100));
}

#[test]
fn mix_stays_in_range() {
    for x in i8::MIN..=i8::MAX {
        for y in i8::MIN..=i8::MAX {
            let (left, right) = mix(x, y);
            assert!((-100..=100).contains(&left));
            assert!((-100..=100).contains(&right));
        }
    }
}

#[test]
fn clamp_to_speed_holds_the_range() {
    assert_eq!(clamp_to_speed(0), 0);
    assert_eq!(clamp_to_speed(100), 100);
    assert_eq!(clamp_to_speed(101), 100);
    assert_eq!(clamp_to_speed(-100), -100);
    assert_eq!(clamp_to_speed(-101), -100);
    assert_eq!(clamp_to_speed(i16::MAX), 100);
    assert_eq!(clamp_to_speed(i16::MIN), -100);
}

#[test]
fn spin_exact_values() {
    assert_eq!(spin(50), (50, -50));
    assert_eq!(spin(-30), (-30, 30));
    assert_eq!(spin(0), (0, 0));
    assert_eq!(spin(100), (100, -100));
}

#[test]
fn spin_holds_the_magnitude() {
    assert_eq!(spin(127), (100, -100));
    assert_eq!(spin(-128), (-100, 100));
}

#[test]
fn side_command_by_sign() {
    assert_eq!(side_command(0), MotorCommand::Stop);
    assert_eq!(side_command(50), MotorCommand::Forward(50));
    assert_eq!(side_command(-50), MotorCommand::Backward(50));
    assert_eq!(side_command(1), MotorCommand::Forward(1));
    assert_eq!(side_command(127), MotorCommand::Forward(100));
    assert_eq!(side_command(-128), MotorCommand::Backward(100));
}

#[test]
fn select_drive_spin_overrides_translation() {
    assert_eq!(select_drive(40, 60, 21), TankDriveEvent::Spin(21));
    assert_eq!(select_drive(40, 60, -21), TankDriveEvent::Spin(-21));
    assert_eq!(select_drive(40, 60, 20), TankDriveEvent::Move { x: 40, y: 60 });
    assert_eq!(select_drive(40, 60, -20), TankDriveEvent::Move { x: 40, y: 60 });
}

#[test]
fn select_drive_rest_is_an_explicit_stop() {
    assert_eq!(select_drive(0, 0, 0), TankDriveEvent::Stop);
    assert_eq!(select_drive(0, 0, 20), TankDriveEvent::Stop);
    assert_eq!(select_drive(0, 1, 0), TankDriveEvent::Move { x: 0, y: 1 });
    assert_eq!(select_drive(-1, 0, 0), TankDriveEvent::Move { x: -1, y: 0 });
}

#[test]
fn process_movement_from_sticks() {
    assert_eq!(process_movement(&sticks(128, 128, 128, 128)), TankDriveEvent::Stop);
    assert_eq!(process_movement(&sticks(255, 0, 128, 0)), TankDriveEvent::Move { x: 100, y: 100 });
    assert_eq!(process_movement(&sticks(0, 255, 128, 0)), TankDriveEvent::Move { x: -100, y: -100 });
    assert_eq!(process_movement(&sticks(128, 59, 128, 0)), TankDriveEvent::Move { x: 0, y: 50 });
    assert_eq!(process_movement(&sticks(200, 128, 128, 0)), TankDriveEvent::Move { x: 52, y: 0 });
}

#[test]
fn process_movement_spin_threshold() {
    assert_eq!(process_movement(&sticks(255, 0, 162, 0)), TankDriveEvent::Move { x: 100, y: 100 });
    assert_eq!(process_movement(&sticks(255, 0, 163, 0)), TankDriveEvent::Spin(21));
    assert_eq!(process_movement(&sticks(128, 128, 255, 0)), TankDriveEvent::Spin(100));
    assert_eq!(process_movement(&sticks(128, 128, 0, 0)), TankDriveEvent::Spin(-100));
    assert_eq!(process_movement(&sticks(128, 128, 94, 0)), TankDriveEvent::Stop);
    assert_eq!(process_movement(&sticks(128, 128, 93, 0)), TankDriveEvent::Spin(-21));
}

#[test]
fn process_servo_uses_the_right_stick() {
    assert_eq!(process_servo(&sticks(0, 0, 0, 0)), ServoEvent::SetAngle(0));
    assert_eq!(process_servo(&sticks(0, 0, 0, 255)), ServoEvent::SetAngle(180));
    assert_eq!(process_servo(&sticks(0, 0, 0, 128)), ServoEvent::SetAngle(90));
}

#[test]
fn servo_angle_ends_and_range() {
    assert_eq!(servo_angle(0), 0);
    assert_eq!(servo_angle(255), 180);
    assert_eq!(servo_angle(128), 90);
    assert_eq!(servo_angle(1), 0);
    assert_eq!(servo_angle(2), 1);
    assert_eq!(servo_angle(254), 179);
    let mut last = 0;
    for raw in 0..=255u8 {
        let angle = servo_angle(raw);
        assert!(angle <= 180);
        assert!(last <= angle);
        last = angle;
    }
}

#[test]
fn servo_duty_interpolates() {
    assert_eq!(servo_duty(39061, 0), 1953);
    assert_eq!(servo_duty(39061, 180), 3906);
    assert_eq!(servo_duty(39061, 90), 2929);
    assert_eq!(servo_duty(39061, 1), 1963);
    assert_eq!(servo_duty(0, 90), 0);
    assert_eq!(servo_duty(65535, 180), 6553);
}

#[test]
fn servo_duty_holds_the_angle() {
    assert_eq!(servo_duty(39061, 181), 3906);
    assert_eq!(servo_duty(39061, 255), 3906);
}

#[test]
fn servo_pwm_top_for_clocks() {
    assert_eq!(servo_pwm_top(125_000_000), Some(39061));
    assert_eq!(servo_pwm_top(3200), Some(0));
    assert_eq!(servo_pwm_top(3199), None);
    assert_eq!(servo_pwm_top(0), None);
    assert_eq!(servo_pwm_top(209_715_200), Some(65535));
    assert_eq!(servo_pwm_top(209_718_400), None);
    assert_eq!(servo_pwm_top(u32::MAX), None);
}

#[test]
fn servo_controller_follows_commands() {
    let mut servo = ServoController::new(39061);
    assert_eq!(servo.max_duty(), 39061);
    assert_eq!(servo.duty(), 1953);
    servo.set_angle(180);
    assert_eq!(servo.duty(), 3906);
    servo.control_from_stick(128);
    assert_eq!(servo.duty(), 2929);
    servo_driver_task(&mut servo, ServoEvent::SetAngle(0));
    assert_eq!(servo.duty(), 1953);
    servo_driver_task(&mut servo, ServoEvent::SetAngle(250));
    assert_eq!(servo.duty(), 3906);
    assert_eq!(servo.max_duty(), 39061);
}

#[test]
fn tank_drive_starts_stopped_and_enabled() {
    let tank = TankDriveController::new();
    assert_eq!(output(&tank), (MotorCommand::Stop, MotorCommand::Stop, true));
}

#[test]
fn tank_drive_mixes() {
    let mut tank = TankDriveController::new();
    tank.drive(30, 50);
    assert_eq!(output(&tank), (MotorCommand::Forward(80), MotorCommand::Forward(20), true));
    tank.drive(-20, -40);
    assert_eq!(output(&tank), (MotorCommand::Backward(60), MotorCommand::Backward(20), true));
    tank.drive(50, 0);
    assert_eq!(output(&tank), (MotorCommand::Forward(50), MotorCommand::Backward(50), true));
    tank.drive(50, 50);
    assert_eq!(output(&tank), (MotorCommand::Forward(100), MotorCommand::Stop, true));
    tank.drive(127, 127);
    assert_eq!(output(&tank), (MotorCommand::Forward(100), MotorCommand::Stop, true));
}

#[test]
fn tank_drive_spins() {
    let mut tank = TankDriveController::new();
    tank.spin(50);
    assert_eq!(output(&tank), (MotorCommand::Forward(50), MotorCommand::Backward(50), true));
    tank.spin(-30);
    assert_eq!(output(&tank), (MotorCommand::Backward(30), MotorCommand::Forward(30), true));
    tank.spin(0);
    assert_eq!(output(&tank), (MotorCommand::Stop, MotorCommand::Stop, true));
    tank.spin(-128);
    assert_eq!(output(&tank), (MotorCommand::Backward(100), MotorCommand::Forward(100), true));
}

#[test]
fn tank_drive_brake_and_stop() {
    let mut tank = TankDriveController::new();
    tank.drive(10, 10);
    tank.brake();
    assert_eq!(output(&tank), (MotorCommand::Brake, MotorCommand::Brake, true));
    tank.stop();
    assert_eq!(output(&tank), (MotorCommand::Stop, MotorCommand::Stop, true));
}

#[test]
fn tank_drive_standby_leaves_motors_alone() {
    let mut tank = TankDriveController::new();
    tank.drive(0, 40);
    tank.disable();
    assert_eq!(output(&tank), (MotorCommand::Forward(40), MotorCommand::Forward(40), false));
    tank.stop();
    assert_eq!(output(&tank), (MotorCommand::Stop, MotorCommand::Stop, false));
    tank.drive(10, 40);
    assert_eq!(output(&tank), (MotorCommand::Forward(50), MotorCommand::Forward(30), false));
    tank.enable();
    assert_eq!(output(&tank), (MotorCommand::Forward(50), MotorCommand::Forward(30), true));
}

#[test]
fn stop_is_idempotent() {
    let mut tank = TankDriveController::new();
    tank_driver_task(&mut tank, TankDriveEvent::Move { x: 30, y: 50 });
    tank_driver_task(&mut tank, TankDriveEvent::Stop);
    let first = output(&tank);
    assert_eq!(first, (MotorCommand::Stop, MotorCommand::Stop, true));
    for _ in 0..5 {
        tank_driver_task(&mut tank, TankDriveEvent::Stop);
        assert_eq!(output(&tank), first);
    }
}

#[test]
fn disable_is_idempotent() {
    let mut tank = TankDriveController::new();
    tank_driver_task(&mut tank, TankDriveEvent::Spin(70));
    tank_driver_task(&mut tank, TankDriveEvent::Disable);
    let first = output(&tank);
    assert_eq!(first, (MotorCommand::Forward(70), MotorCommand::Backward(70), false));
    tank_driver_task(&mut tank, TankDriveEvent::Disable);
    assert_eq!(output(&tank), first);
    tank_driver_task(&mut tank, TankDriveEvent::Stop);
    tank_driver_task(&mut tank, TankDriveEvent::Disable);
    assert_eq!(output(&tank), (MotorCommand::Stop, MotorCommand::Stop, false));
    tank_driver_task(&mut tank, TankDriveEvent::Disable);
    assert_eq!(output(&tank), (MotorCommand::Stop, MotorCommand::Stop, false));
}

#[test]
fn tank_driver_applies_each_event() {
    let mut tank = TankDriveController::new();
    tank_driver_task(&mut tank, TankDriveEvent::Move { x: 30, y: 50 });
    assert_eq!(output(&tank), (MotorCommand::Forward(80), MotorCommand::Forward(20), true));
    tank_driver_task(&mut tank, TankDriveEvent::Spin(-30));
    assert_eq!(output(&tank), (MotorCommand::Backward(30), MotorCommand::Forward(30), true));
    tank_driver_task(&mut tank, TankDriveEvent::Disable);
    assert_eq!(output(&tank), (MotorCommand::Backward(30), MotorCommand::Forward(30), false));
    tank_driver_task(&mut tank, TankDriveEvent::Stop);
    assert_eq!(output(&tank), (MotorCommand::Stop, MotorCommand::Stop, false));
    tank_driver_task(&mut tank, TankDriveEvent::Enable);
    assert_eq!(output(&tank), (MotorCommand::Stop, MotorCommand::Stop, true));
}

#[test]
fn motor_command_from_stick() {
    assert_eq!(command_from_stick(0), MotorCommand::Forward(100));
    assert_eq!(command_from_stick(59), MotorCommand::Forward(50));
    assert_eq!(command_from_stick(117), MotorCommand::Forward(0));
    assert_eq!(command_from_stick(118), MotorCommand::Stop);
    assert_eq!(command_from_stick(128), MotorCommand::Stop);
    assert_eq!(command_from_stick(138), MotorCommand::Stop);
    assert_eq!(command_from_stick(139), MotorCommand::Backward(0));
    assert_eq!(command_from_stick(200), MotorCommand::Backward(52));
    assert_eq!(command_from_stick(255), MotorCommand::Backward(100));
}

#[test]
fn motor_controller_applies_commands() {
    let mut motor = MotorController::new();
    assert_eq!(motor.current_drive_command(), MotorCommand::Stop);
    assert!(motor.is_enabled());
    assert_eq!(motor.drive_forward(100), Ok(()));
    assert_eq!(motor.current_drive_command(), MotorCommand::Forward(100));
    assert_eq!(motor.drive_backward(0), Ok(()));
    assert_eq!(motor.current_drive_command(), MotorCommand::Backward(0));
    motor.brake();
    assert_eq!(motor.current_drive_command(), MotorCommand::Brake);
    motor.control_from_stick(0);
    assert_eq!(motor.current_drive_command(), MotorCommand::Forward(100));
    motor.stop();
    assert_eq!(motor.current_drive_command(), MotorCommand::Stop);
    assert_eq!(motor.drive(MotorCommand::Brake), Ok(()));
    assert_eq!(motor.current_drive_command(), MotorCommand::Brake);
}

#[test]
fn motor_controller_refuses_an_invalid_speed() {
    let mut motor = MotorController::new();
    assert_eq!(motor.drive_forward(40), Ok(()));
    assert_eq!(motor.drive_forward(101), Err(MotorFault::InvalidSpeed));
    assert_eq!(motor.current_drive_command(), MotorCommand::Forward(40));
    assert_eq!(motor.drive_backward(255), Err(MotorFault::InvalidSpeed));
    assert_eq!(motor.drive(MotorCommand::Backward(101)), Err(MotorFault::InvalidSpeed));
    assert_eq!(motor.current_drive_command(), MotorCommand::Forward(40));
    assert!(motor.is_enabled());
}

#[test]
fn motor_controller_standby() {
    let mut motor = MotorController::new();
    assert_eq!(motor.drive_forward(40), Ok(()));
    motor.disable();
    assert_eq!(motor.current_drive_command(), MotorCommand::Forward(40));
    assert!(!motor.is_enabled());
    motor.disable();
    assert_eq!(motor.current_drive_command(), MotorCommand::Forward(40));
    assert!(!motor.is_enabled());
    motor.enable();
    assert_eq!(motor.current_drive_command(), MotorCommand::Forward(40));
    assert!(motor.is_enabled());
}
