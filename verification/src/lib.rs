//! Verified control logic of the meowbox: a small interactive device with two
//! lit push-buttons, two rotary encoders, a buzzer, five status LEDs and a
//! monochrome display.
//!
//! The crate holds the decisions only. Everything that touches a pin, a timer
//! or the scheduler is handed back to the caller as a list of [`tasks::Action`]
//! values to perform in order.

pub mod bounded;
pub mod hardware;
pub mod physics;
pub mod quadrature;
pub mod signal;
pub mod simulation;
pub mod states;
pub mod tasks;
