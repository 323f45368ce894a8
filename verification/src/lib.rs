//! Control logic of a pomodoro timer for a 5x5 LED matrix board.
//!
//! The crate holds the timer's state machine, the row-scanning display
//! buffer, the wire format of the configuration message and the stored
//! configuration record. Everything that touches a peripheral is left to the
//! caller, which hands events in and carries actions out.

pub mod display;
pub mod flash_storage;
pub mod message;
pub mod pomodoro;
pub mod provisioning;
pub mod record;
pub mod types;
