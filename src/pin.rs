//! Pin identities and their capability views.
//!
//! All four types hold the same pin number. Converting one into another
//! keeps the number and performs no check of the pin's configured mode:
//! a view states what the caller means to do with the pin, nothing more.
use vstd::prelude::*;
use crate::signal::{Mode, DigitalValue};
use crate::command::Command;

verus! {

/// A pin, for mode configuration and interrupts.
#[derive(Clone, Copy, Debug, PartialEq, Eq, Structural)]
pub struct Pin(pub u8);

/// A pin used for two-valued reads and writes.
#[derive(Clone, Copy, Debug, PartialEq, Eq, Structural)]
pub struct DigitalPin(pub u8);

/// A pin used for analog samples and analog (PWM) writes.
#[derive(Clone, Copy, Debug, PartialEq, Eq, Structural)]
pub struct AnalogPin(pub u8);

/// A pin used to emit square-wave tones.
#[derive(Clone, Copy, Debug, PartialEq, Eq, Structural)]
pub struct TonePin(pub u8);

impl DigitalPin {
    /// The call that writes `value` to this pin.
    pub fn write(self, value: DigitalValue) -> (c: Command)
        ensures
            c == (Command::DigitalWrite { pin: self.0, value }),
    {
        Command::DigitalWrite { pin: self.0, value }
    }

    /// The call that reads this pin; its raw answer is understood by
    /// `DigitalValue::from_raw`.
    pub fn read(self) -> (c: Command)
        ensures
            c == (Command::DigitalRead { pin: self.0 }),
    {
        Command::DigitalRead { pin: self.0 }
    }
}

impl AnalogPin {
    /// The call that writes `value` to this pin. Its range depends on the
    /// write resolution in force and is not checked here.
    pub fn write(self, value: i32) -> (c: Command)
        ensures
            c == (Command::AnalogWrite { pin: self.0, value }),
    {
        Command::AnalogWrite { pin: self.0, value }
    }

    /// The call that samples this pin, at the read resolution in force.
    pub fn read(self) -> (c: Command)
        ensures
            c == (Command::AnalogRead { pin: self.0 }),
    {
        Command::AnalogRead { pin: self.0 }
    }
}

impl TonePin {
    /// The call that emits a tone of `freq` hertz for `dur` milliseconds
    /// (0: until stopped) from this pin.
    pub fn tone(self, freq: u32, dur: u32) -> (c: Command)
        ensures
            c == (Command::Tone { pin: self.0, frequency: freq, duration: dur }),
    {
        Command::Tone { pin: self.0, frequency: freq, duration: dur }
    }

    /// The call that stops any tone on this pin.
    pub fn no_tone(self) -> (c: Command)
        ensures
            c == (Command::NoTone { pin: self.0 }),
    {
        Command::NoTone { pin: self.0 }
    }
}

impl Pin {
    /// The call that puts this pin in mode `mode`.
    pub fn mode(self, mode: Mode) -> (c: Command)
        ensures
            c == (Command::PinMode { pin: self.0, mode }),
    {
        Command::PinMode { pin: self.0, mode }
    }

    /// The call that registers an interrupt on this pin, fired as trigger
    /// code `mode` says. It replaces any interrupt already registered there.
    pub fn attach_interrupt(self, mode: u32) -> (c: Command)
        ensures
            c == (Command::AttachInterrupt { pin: self.0, mode }),
    {
        Command::AttachInterrupt { pin: self.0, mode }
    }

    /// The call that removes any interrupt registered on this pin.
    pub fn detach_interrupt(self) -> (c: Command)
        ensures
            c == (Command::DetachInterrupt { pin: self.0 }),
    {
        Command::DetachInterrupt { pin: self.0 }
    }
}

impl From<DigitalPin> for Pin {
    fn from(v: DigitalPin) -> (r: Pin)
        ensures
            r.0 == v.0,
    {
        Pin(v.0)
    }
}

impl vstd::std_specs::convert::FromSpecImpl<DigitalPin> for Pin {
    open spec fn obeys_from_spec() -> bool {
        true
    }

    open spec fn from_spec(v: DigitalPin) -> Pin {
        Pin(v.0)
    }
}

impl From<Pin> for DigitalPin {
    fn from(v: Pin) -> (r: DigitalPin)
        ensures
            r.0 == v.0,
    {
        DigitalPin(v.0)
    }
}

impl vstd::std_specs::convert::FromSpecImpl<Pin> for DigitalPin {
    open spec fn obeys_from_spec() -> bool {
        true
    }

    open spec fn from_spec(v: Pin) -> DigitalPin {
        DigitalPin(v.0)
    }
}

impl From<AnalogPin> for Pin {
    fn from(v: AnalogPin) -> (r: Pin)
        ensures
            r.0 == v.0,
    {
        Pin(v.0)
    }
}

impl vstd::std_specs::convert::FromSpecImpl<AnalogPin> for Pin {
    open spec fn obeys_from_spec() -> bool {
        true
    }

    open spec fn from_spec(v: AnalogPin) -> Pin {
        Pin(v.0)
    }
}

impl From<Pin> for AnalogPin {
    fn from(v: Pin) -> (r: AnalogPin)
        ensures
            r.0 == v.0,
    {
        AnalogPin(v.0)
    }
}

impl vstd::std_specs::convert::FromSpecImpl<Pin> for AnalogPin {
    open spec fn obeys_from_spec() -> bool {
        true
    }

    open spec fn from_spec(v: Pin) -> AnalogPin {
        AnalogPin(v.0)
    }
}

impl From<TonePin> for Pin {
    fn from(v: TonePin) -> (r: Pin)
        ensures
            r.0 == v.0,
    {
        Pin(v.0)
    }
}

impl vstd::std_specs::convert::FromSpecImpl<TonePin> for Pin {
    open spec fn obeys_from_spec() -> bool {
        true
    }

    open spec fn from_spec(v: TonePin) -> Pin {
        Pin(v.0)
    }
}

impl From<Pin> for TonePin {
    fn from(v: Pin) -> (r: TonePin)
        ensures
            r.0 == v.0,
    {
        TonePin(v.0)
    }
}

impl vstd::std_specs::convert::FromSpecImpl<Pin> for TonePin {
    open spec fn obeys_from_spec() -> bool {
        true
    }

    open spec fn from_spec(v: Pin) -> TonePin {
        TonePin(v.0)
    }
}

} // verus!
