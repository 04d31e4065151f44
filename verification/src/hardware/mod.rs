//! Models of the actuator drivers. Each holds what was last commanded; the
//! caller copies that onto the pins.

pub mod motor_controller;
pub mod servo_controller;
pub mod tank_drive_controller;

pub use motor_controller::MotorController;
pub use servo_controller::ServoController;
pub use tank_drive_controller::TankDriveController;
