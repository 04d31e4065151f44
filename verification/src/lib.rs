//! Decision and actuation core of a remotely piloted, track-driven robot.
//!
//! One side polls a gamepad and decides the operating mode; the other side
//! drives two track motors, an aiming servo and a status light. Everything
//! here is a step function over small values: the caller owns the hardware
//! and the message channels, hands in what it read and carries out what
//! comes back. Nothing here allocates.
//!
//! - `input`: the sample of one poll, the button table, stick normalization
//!   and the feedback mapping, and the step of the gamepad reader.
//! - `mixer`: differential drive mixing.
//! - `utils`: from a sample to the drive and servo commands of a cycle.
//! - `control`: the decision engine and the steps of the drive, servo and
//!   status light tasks.
//! - `hardware`: what the tank drive, the single motor and the servo put out.
//! - `motor`: engine and actuators in one task.
//! - `tasks`: the layout with one command channel and a status channel back.
//! - `events`, `messages`: what travels on the channels.
//! - `batch`: the commands of one cycle, in order.
//! - `config`: the tunables.

pub mod batch;
pub mod config;
pub mod control;
pub mod events;
pub mod hardware;
pub mod input;
pub mod messages;
pub mod mixer;
pub mod motor;
pub mod tasks;
pub mod utils;
