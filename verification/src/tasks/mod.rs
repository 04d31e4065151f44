//! The single-channel layout: the controller side decides and sends one
//! stream of commands; the actuation side applies them to one motor and the
//! servo and reports each mode change back.

pub mod controller_task;
pub mod motor_task;
