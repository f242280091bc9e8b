//! The runtime's call surface, one variant per call, and its answers.
use vstd::prelude::*;
use crate::signal::{Mode, DigitalValue};

verus! {

/// One call into the pin-control runtime, with its arguments.
#[derive(Clone, Copy, Debug, PartialEq, Eq, Structural)]
pub enum Command {
    Init,
    PinMode { pin: u8, mode: Mode },
    DigitalWrite { pin: u8, value: DigitalValue },
    DigitalRead { pin: u8 },
    AnalogReference { mode: u8 },
    AnalogRead { pin: u8 },
    AnalogWrite { pin: u8, value: i32 },
    AnalogReadResolution { bits: i32 },
    AnalogWriteResolution { bits: i32 },
    Tone { pin: u8, frequency: u32, duration: u32 },
    NoTone { pin: u8 },
    Millis,
    Micros,
    Delay { ms: u32 },
    DelayMicros { us: u32 },
    AttachInterrupt { pin: u8, mode: u32 },
    DetachInterrupt { pin: u8 },
}

/// What the runtime hands back for a call.
#[derive(Clone, Copy, Debug, PartialEq, Eq, Structural)]
pub enum Reply {
    /// The call returns nothing.
    Done,
    /// A raw reading of a pin, digital or analog.
    Reading(i32),
    /// A counter value, in milliseconds or microseconds.
    Time(u32),
}

/// The call that initialises the runtime.
pub fn init() -> (c: Command)
    ensures
        c == Command::Init,
{
    Command::Init
}

/// The call that selects the analog reference voltage. The setting is
/// global to the runtime, and the last call wins.
pub fn analog_reference(mode: u8) -> (c: Command)
    ensures
        c == (Command::AnalogReference { mode }),
{
    Command::AnalogReference { mode }
}

/// The call that sets, in bits, the size of analog readings. The setting is
/// global to the runtime, and the last call wins.
pub fn analog_read_resolution(res: i32) -> (c: Command)
    ensures
        c == (Command::AnalogReadResolution { bits: res }),
{
    Command::AnalogReadResolution { bits: res }
}

/// The call that sets, in bits, the size of analog writes. The setting is
/// global to the runtime, and the last call wins.
pub fn analog_write_resolution(res: i32) -> (c: Command)
    ensures
        c == (Command::AnalogWriteResolution { bits: res }),
{
    Command::AnalogWriteResolution { bits: res }
}

/// The call that reads the milliseconds elapsed since initialisation.
pub fn millis() -> (c: Command)
    ensures
        c == Command::Millis,
{
    Command::Millis
}

/// The call that reads the microseconds elapsed since initialisation.
pub fn micros() -> (c: Command)
    ensures
        c == Command::Micros,
{
    Command::Micros
}

/// The call that blocks for `ms` milliseconds.
pub fn delay(ms: u32) -> (c: Command)
    ensures
        c == (Command::Delay { ms }),
{
    Command::Delay { ms }
}

/// The call that blocks for `us` microseconds.
pub fn delay_micros(us: u32) -> (c: Command)
    ensures
        c == (Command::DelayMicros { us }),
{
    Command::DelayMicros { us }
}

} // verus!
