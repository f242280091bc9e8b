//! An in-process model of the pin-control runtime: a loopback harness.
//!
//! Each pin's line holds the last level written to it or driven onto it
//! from outside, and its analog line the last analog value written. The
//! board keeps the last mode set on each pin, the tone requested on each,
//! the interrupt registered on each, the global analog settings, and the
//! elapsed-time counters, which advance only by delays. It is the explicit
//! context that the runtime's global state lives in, so that callers and
//! tests can hold one of their own.
use vstd::prelude::*;
use crate::signal::{Mode, DigitalValue, fires, fires_spec, DEFAULT};
use crate::command::{Command, Reply};

verus! {

/// The number of pins that a pin number can name.
pub const PIN_COUNT: usize = 256;

/// Analog read resolution, in bits, of a fresh board.
pub const DEFAULT_READ_BITS: i32 = 10;

/// Analog write resolution, in bits, of a fresh board.
pub const DEFAULT_WRITE_BITS: i32 = 8;

/// The abstract state of a [`Board`]. Each sequence has one entry per pin.
pub struct BoardModel {
    pub modes: Seq<Option<Mode>>,
    pub levels: Seq<DigitalValue>,
    pub analog: Seq<i32>,
    pub tones: Seq<Option<(u32, u32)>>,
    pub interrupts: Seq<Option<u32>>,
    pub reference: u8,
    pub read_bits: i32,
    pub write_bits: i32,
    pub millis: u32,
    pub micros: u32,
    pub sub_ms: u32,
}

impl BoardModel {
    /// Every sequence covers all pins, and the microseconds not yet counted
    /// as a millisecond are fewer than a thousand.
    pub open spec fn wf(self) -> bool {
        &&& self.modes.len() == PIN_COUNT
        &&& self.levels.len() == PIN_COUNT
        &&& self.analog.len() == PIN_COUNT
        &&& self.tones.len() == PIN_COUNT
        &&& self.interrupts.len() == PIN_COUNT
        &&& self.sub_ms < 1000
    }

    /// The state after `us` more microseconds have passed. Both counters
    /// wrap around at 2^32.
    pub open spec fn after_micros(self, us: u32) -> BoardModel {
        let total = self.sub_ms + us;
        BoardModel {
            millis: ((self.millis + total / 1000) % 0x1_0000_0000) as u32,
            micros: ((self.micros + us) % 0x1_0000_0000) as u32,
            sub_ms: (total % 1000) as u32,
            ..self
        }
    }

    /// The state after `ms` more milliseconds have passed.
    pub open spec fn after_millis(self, ms: u32) -> BoardModel {
        BoardModel {
            millis: ((self.millis + ms) % 0x1_0000_0000) as u32,
            micros: ((self.micros + ms * 1000) % 0x1_0000_0000) as u32,
            ..self
        }
    }

    /// The state after the runtime has carried out `c`.
    pub open spec fn next(self, c: Command) -> BoardModel {
        match c {
            Command::Init => BoardModel { millis: 0, micros: 0, sub_ms: 0, ..self },
            Command::PinMode { pin, mode } => BoardModel {
                modes: self.modes.update(pin as int, Some(mode)),
                ..self
            },
            Command::DigitalWrite { pin, value } => BoardModel {
                levels: self.levels.update(pin as int, value),
                ..self
            },
            Command::AnalogWrite { pin, value } => BoardModel {
                analog: self.analog.update(pin as int, value),
                ..self
            },
            Command::AnalogReference { mode } => BoardModel { reference: mode, ..self },
            Command::AnalogReadResolution { bits } => BoardModel { read_bits: bits, ..self },
            Command::AnalogWriteResolution { bits } => BoardModel { write_bits: bits, ..self },
            Command::Tone { pin, frequency, duration } => BoardModel {
                tones: self.tones.update(pin as int, Some((frequency, duration))),
                ..self
            },
            Command::NoTone { pin } => BoardModel {
                tones: self.tones.update(pin as int, None),
                ..self
            },
            Command::Delay { ms } => self.after_millis(ms),
            Command::DelayMicros { us } => self.after_micros(us),
            Command::AttachInterrupt { pin, mode } => BoardModel {
                interrupts: self.interrupts.update(pin as int, Some(mode)),
                ..self
            },
            Command::DetachInterrupt { pin } => BoardModel {
                interrupts: self.interrupts.update(pin as int, None),
                ..self
            },
            Command::DigitalRead { .. } | Command::AnalogRead { .. } | Command::Millis
            | Command::Micros => self,
        }
    }

    /// What the runtime answers to `c`.
    pub open spec fn answer(self, c: Command) -> Reply {
        match c {
            Command::DigitalRead { pin } => Reply::Reading(self.levels[pin as int].code() as i32),
            Command::AnalogRead { pin } => Reply::Reading(self.analog[pin as int]),
            Command::Millis => Reply::Time(self.millis),
            Command::Micros => Reply::Time(self.micros),
            _ => Reply::Done,
        }
    }

    /// The state after `level` has been driven onto `pin` from outside.
    pub open spec fn driven(self, pin: u8, level: DigitalValue) -> BoardModel {
        BoardModel { levels: self.levels.update(pin as int, level), ..self }
    }

    /// Whether driving `level` onto `pin` fires the interrupt registered
    /// there.
    pub open spec fn drive_fires(self, pin: u8, level: DigitalValue) -> bool {
        match self.interrupts[pin as int] {
            Some(mode) => fires_spec(mode, self.levels[pin as int], level),
            None => false,
        }
    }
}

/// An in-process pin-control runtime.
pub struct Board {
    modes: Vec<Option<Mode>>,
    levels: Vec<DigitalValue>,
    analog: Vec<i32>,
    tones: Vec<Option<(u32, u32)>>,
    interrupts: Vec<Option<u32>>,
    reference: u8,
    read_bits: i32,
    write_bits: i32,
    millis: u32,
    micros: u32,
    sub_ms: u32,
}

impl View for Board {
    type V = BoardModel;

    closed spec fn view(&self) -> BoardModel {
        BoardModel {
            modes: self.modes@,
            levels: self.levels@,
            analog: self.analog@,
            tones: self.tones@,
            interrupts: self.interrupts@,
            reference: self.reference,
            read_bits: self.read_bits,
            write_bits: self.write_bits,
            millis: self.millis,
            micros: self.micros,
            sub_ms: self.sub_ms,
        }
    }
}

impl Board {
    /// A freshly powered board: no mode set, every line low, no analog
    /// value, no tone and no interrupt on any pin, the default analog
    /// reference and resolutions, and both counters at zero.
    pub fn new() -> (b: Board)
        ensures
            b@.wf(),
            forall|i: int| 0 <= i < PIN_COUNT ==> {
                &&& b@.modes[i] is None
                &&& b@.levels[i] == DigitalValue::Low
                &&& b@.analog[i] == 0
                &&& b@.tones[i] is None
                &&& b@.interrupts[i] is None
            },
            b@.reference == DEFAULT as u8,
            b@.read_bits == DEFAULT_READ_BITS,
            b@.write_bits == DEFAULT_WRITE_BITS,
            b@.millis == 0,
            b@.micros == 0,
            b@.sub_ms == 0,
    {
        let mut modes: Vec<Option<Mode>> = Vec::new();
        let mut levels: Vec<DigitalValue> = Vec::new();
        let mut analog: Vec<i32> = Vec::new();
        let mut tones: Vec<Option<(u32, u32)>> = Vec::new();
        let mut interrupts: Vec<Option<u32>> = Vec::new();
        let mut i: usize = 0;
        while i < PIN_COUNT
            invariant
                i <= PIN_COUNT,
                modes@.len() == i,
                levels@.len() == i,
                analog@.len() == i,
                tones@.len() == i,
                interrupts@.len() == i,
                forall|j: int| 0 <= j < i ==> {
                    &&& modes@[j] is None
                    &&& levels@[j] == DigitalValue::Low
                    &&& analog@[j] == 0
                    &&& tones@[j] is None
                    &&& interrupts@[j] is None
                },
            decreases PIN_COUNT - i,
        {
            modes.push(None);
            levels.push(DigitalValue::Low);
            analog.push(0);
            tones.push(None);
            interrupts.push(None);
            i = i + 1;
        }
        Board {
            modes,
            levels,
            analog,
            tones,
            interrupts,
            reference: DEFAULT as u8,
            read_bits: DEFAULT_READ_BITS,
            write_bits: DEFAULT_WRITE_BITS,
            millis: 0,
            micros: 0,
            sub_ms: 0,
        }
    }

    /// Lets `us` microseconds pass.
    fn pass_micros(&mut self, us: u32)
        requires
            old(self)@.wf(),
        ensures
            final(self)@ == old(self)@.after_micros(us),
            final(self)@.wf(),
    {
        let total: u64 = self.sub_ms as u64 + us as u64;
        self.millis = ((self.millis as u64 + total / 1000) % 0x1_0000_0000) as u32;
        self.micros = ((self.micros as u64 + us as u64) % 0x1_0000_0000) as u32;
        self.sub_ms = (total % 1000) as u32;
    }

    /// Lets `ms` milliseconds pass.
    fn pass_millis(&mut self, ms: u32)
        requires
            old(self)@.wf(),
        ensures
            final(self)@ == old(self)@.after_millis(ms),
            final(self)@.wf(),
    {
        self.millis = ((self.millis as u64 + ms as u64) % 0x1_0000_0000) as u32;
        self.micros = ((self.micros as u64 + ms as u64 * 1000) % 0x1_0000_0000) as u32;
    }

    /// Carries out `c` and returns the runtime's answer.
    pub fn execute(&mut self, c: Command) -> (r: Reply)
        requires
            old(self)@.wf(),
        ensures
            final(self)@ == old(self)@.next(c),
            r == old(self)@.answer(c),
            final(self)@.wf(),
    {
        match c {
            Command::Init => {
                self.millis = 0;
                self.micros = 0;
                self.sub_ms = 0;
                Reply::Done
            },
            Command::PinMode { pin, mode } => {
                self.modes.set(pin as usize, Some(mode));
                Reply::Done
            },
            Command::DigitalWrite { pin, value } => {
                self.levels.set(pin as usize, value);
                Reply::Done
            },
            Command::DigitalRead { pin } => Reply::Reading(self.levels[pin as usize].raw() as i32),
            Command::AnalogReference { mode } => {
                self.reference = mode;
                Reply::Done
            },
            Command::AnalogRead { pin } => Reply::Reading(self.analog[pin as usize]),
            Command::AnalogWrite { pin, value } => {
                self.analog.set(pin as usize, value);
                Reply::Done
            },
            Command::AnalogReadResolution { bits } => {
                self.read_bits = bits;
                Reply::Done
            },
            Command::AnalogWriteResolution { bits } => {
                self.write_bits = bits;
                Reply::Done
            },
            Command::Tone { pin, frequency, duration } => {
                self.tones.set(pin as usize, Some((frequency, duration)));
                Reply::Done
            },
            Command::NoTone { pin } => {
                self.tones.set(pin as usize, None);
                Reply::Done
            },
            Command::Millis => Reply::Time(self.millis),
            Command::Micros => Reply::Time(self.micros),
            Command::Delay { ms } => {
                self.pass_millis(ms);
                Reply::Done
            },
            Command::DelayMicros { us } => {
                self.pass_micros(us);
                Reply::Done
            },
            Command::AttachInterrupt { pin, mode } => {
                self.interrupts.set(pin as usize, Some(mode));
                Reply::Done
            },
            Command::DetachInterrupt { pin } => {
                self.interrupts.set(pin as usize, None);
                Reply::Done
            },
        }
    }

    /// Drives `level` onto `pin` from outside the program, as a wire would,
    /// and returns whether the interrupt registered there fires.
    pub fn drive(&mut self, pin: u8, level: DigitalValue) -> (fired: bool)
        requires
            old(self)@.wf(),
        ensures
            final(self)@ == old(self)@.driven(pin, level),
            fired == old(self)@.drive_fires(pin, level),
            final(self)@.wf(),
    {
        let before = self.levels[pin as usize];
        self.levels.set(pin as usize, level);
        match self.interrupts[pin as usize] {
            Some(mode) => fires(mode, before, level),
            None => false,
        }
    }

    /// The mode last set on `pin`, if any.
    pub fn mode_of(&self, pin: u8) -> (r: Option<Mode>)
        requires
            self@.wf(),
        ensures
            r == self@.modes[pin as int],
    {
        self.modes[pin as usize]
    }

    /// The tone last requested on `pin` and not stopped since, as frequency
    /// and duration. The board does not end a tone when its duration has
    /// passed; only `NoTone` does.
    pub fn tone_of(&self, pin: u8) -> (r: Option<(u32, u32)>)
        requires
            self@.wf(),
        ensures
            r == self@.tones[pin as int],
    {
        self.tones[pin as usize]
    }

    /// The trigger code of the interrupt registered on `pin`, if any.
    pub fn interrupt_of(&self, pin: u8) -> (r: Option<u32>)
        requires
            self@.wf(),
        ensures
            r == self@.interrupts[pin as int],
    {
        self.interrupts[pin as usize]
    }

    /// The analog reference code last set.
    pub fn reference(&self) -> (r: u8)
        ensures
            r == self@.reference,
    {
        self.reference
    }

    /// The analog read resolution last set, in bits.
    pub fn read_bits(&self) -> (r: i32)
        ensures
            r == self@.read_bits,
    {
        self.read_bits
    }

    /// The analog write resolution last set, in bits.
    pub fn write_bits(&self) -> (r: i32)
        ensures
            r == self@.write_bits,
    {
        self.write_bits
    }
}

} // verus!
