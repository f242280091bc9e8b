//! Electrical modes, two-valued signals and interrupt trigger codes.
use vstd::prelude::*;

verus! {

/// Trigger code: fire while the line is low.
pub const LOW: u8 = 0;
/// Trigger code: fire while the line is high.
pub const HIGH: u8 = 1;
/// Trigger code: fire on any change of level.
pub const CHANGE: u8 = 2;
/// Trigger code: fire when the line goes from high to low.
pub const FALLING: u8 = 3;
/// Trigger code: fire when the line goes from low to high.
pub const RISING: u8 = 4;

/// Analog reference code: an external reference voltage.
pub const EXTERNAL: u32 = 0;
/// Analog reference code: the board's default reference voltage.
pub const DEFAULT: u32 = 1;

/// The electrical configuration of a pin.
#[derive(Clone, Copy, Debug, PartialEq, Eq, Structural)]
pub enum Mode {
    Input,
    Output,
    InputPullUp,
}

/// A two-valued digital signal.
#[derive(Clone, Copy, Debug, PartialEq, Eq, Structural)]
pub enum DigitalValue {
    Low,
    High,
}

impl Mode {
    /// The runtime's code for this mode.
    pub open spec fn code(self) -> u8 {
        match self {
            Mode::Input => 0,
            Mode::Output => 1,
            Mode::InputPullUp => 2,
        }
    }

    /// The code handed to the runtime when a pin is put in this mode.
    pub fn raw(self) -> (r: u8)
        ensures
            r == self.code(),
    {
        match self {
            Mode::Input => 0,
            Mode::Output => 1,
            Mode::InputPullUp => 2,
        }
    }
}

impl DigitalValue {
    /// The runtime's code for this signal: 0 for low, 1 for high.
    pub open spec fn code(self) -> u8 {
        match self {
            DigitalValue::Low => 0,
            DigitalValue::High => 1,
        }
    }

    /// How a raw reading is understood: 0 is low, any other value is high.
    pub open spec fn decode(raw: i32) -> DigitalValue {
        if raw == 0 {
            DigitalValue::Low
        } else {
            DigitalValue::High
        }
    }

    /// The code handed to the runtime when this signal is written.
    pub fn raw(self) -> (r: u8)
        ensures
            r == self.code(),
    {
        match self {
            DigitalValue::Low => 0,
            DigitalValue::High => 1,
        }
    }

    /// Turns a raw digital reading into a signal. The runtime reports 0 or
    /// 1; any other value is taken as high rather than left undefined.
    pub fn from_raw(raw: i32) -> (r: DigitalValue)
        ensures
            r == DigitalValue::decode(raw),
            raw == 0 ==> r == DigitalValue::Low,
            raw == 1 ==> r == DigitalValue::High,
    {
        if raw == 0 {
            DigitalValue::Low
        } else {
            DigitalValue::High
        }
    }
}

/// Whether an interrupt registered with trigger code `mode` fires when the
/// line moves from `before` to `after`. An unknown code never fires.
pub open spec fn fires_spec(mode: u32, before: DigitalValue, after: DigitalValue) -> bool {
    if mode == LOW as u32 {
        after == DigitalValue::Low
    } else if mode == HIGH as u32 {
        after == DigitalValue::High
    } else if mode == CHANGE as u32 {
        before != after
    } else if mode == FALLING as u32 {
        before == DigitalValue::High && after == DigitalValue::Low
    } else if mode == RISING as u32 {
        before == DigitalValue::Low && after == DigitalValue::High
    } else {
        false
    }
}

/// Whether an interrupt registered with trigger code `mode` fires when the
/// line moves from `before` to `after`.
pub fn fires(mode: u32, before: DigitalValue, after: DigitalValue) -> (r: bool)
    ensures
        r == fires_spec(mode, before, after),
{
    if mode == LOW as u32 {
        after == DigitalValue::Low
    } else if mode == HIGH as u32 {
        after == DigitalValue::High
    } else if mode == CHANGE as u32 {
        before != after
    } else if mode == FALLING as u32 {
        before == DigitalValue::High && after == DigitalValue::Low
    } else if mode == RISING as u32 {
        before == DigitalValue::Low && after == DigitalValue::High
    } else {
        false
    }
}

} // verus!
