//! Typed pin handles over a microcontroller's pin-control runtime.
//!
//! A pin is named by a small number. The same number can be viewed as a
//! generic [`Pin`] (mode and interrupt control) or as one of the capability
//! views [`DigitalPin`], [`AnalogPin`] and [`TonePin`]. Converting between
//! them is a relabeling: no check is made that the pin is configured for
//! the capability that a view offers; that stays the caller's duty.
//!
//! Every operation is described as a [`Command`] for the runtime's call
//! surface, so that the same code can drive real hardware or the in-process
//! [`Board`] model, whose behaviour is stated and proved here.
pub mod signal;
pub mod pin;
pub mod command;
pub mod board;
pub mod laws;

pub use signal::{Mode, DigitalValue};
pub use pin::{Pin, DigitalPin, AnalogPin, TonePin};
pub use board::{Board, BoardModel};
pub use command::{Command, Reply, init, analog_reference, analog_read_resolution, analog_write_resolution, millis, micros, delay, delay_micros};
