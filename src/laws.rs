//! Properties that hold across several calls.
use vstd::prelude::*;
use vstd::std_specs::convert::FromSpec;
use crate::signal::DigitalValue;
use crate::pin::{Pin, DigitalPin, AnalogPin, TonePin};
use crate::command::{Command, Reply};
use crate::board::BoardModel;

verus! {

/// Converting a pin to any capability view and back gives the same pin,
/// and converting a view to a pin and back gives the same view.
pub proof fn lemma_view_round_trip(p: Pin, d: DigitalPin, a: AnalogPin, t: TonePin)
    ensures
        <Pin as FromSpec<DigitalPin>>::from_spec(<DigitalPin as FromSpec<Pin>>::from_spec(p)) == p,
        <Pin as FromSpec<AnalogPin>>::from_spec(<AnalogPin as FromSpec<Pin>>::from_spec(p)) == p,
        <Pin as FromSpec<TonePin>>::from_spec(<TonePin as FromSpec<Pin>>::from_spec(p)) == p,
        <DigitalPin as FromSpec<Pin>>::from_spec(<Pin as FromSpec<DigitalPin>>::from_spec(d)) == d,
        <AnalogPin as FromSpec<Pin>>::from_spec(<Pin as FromSpec<AnalogPin>>::from_spec(a)) == a,
        <TonePin as FromSpec<Pin>>::from_spec(<Pin as FromSpec<TonePin>>::from_spec(t)) == t,
{
}

/// On the loopback board, a digital read right after a digital write of
/// `value` to the same pin reads `value` back.
pub proof fn lemma_digital_loopback(b: BoardModel, pin: u8, value: DigitalValue)
    requires
        b.wf(),
    ensures
        b.next(Command::DigitalWrite { pin, value }).answer(Command::DigitalRead { pin })
            == Reply::Reading(value.code() as i32),
        DigitalValue::decode(value.code() as i32) == value,
{
}

/// Once an interrupt attached to a pin has been detached, no level driven
/// onto that pin fires a callback, and no pin's registration is left
/// changed but that pin's, which is empty.
pub proof fn lemma_detach_after_attach(b: BoardModel, pin: u8, mode: u32, level: DigitalValue)
    requires
        b.wf(),
    ensures
        !b.next(Command::AttachInterrupt { pin, mode }).next(
            Command::DetachInterrupt { pin },
        ).drive_fires(pin, level),
        b.next(Command::AttachInterrupt { pin, mode }).next(
            Command::DetachInterrupt { pin },
        ).interrupts == b.interrupts.update(pin as int, None),
{
    let b2 = b.next(Command::AttachInterrupt { pin, mode }).next(Command::DetachInterrupt { pin });
    assert(b2.interrupts =~= b.interrupts.update(pin as int, None));
}

/// A delay of zero, in milliseconds or in microseconds, lets no time pass
/// and changes nothing.
pub proof fn lemma_delay_zero(b: BoardModel)
    requires
        b.wf(),
    ensures
        b.next(Command::Delay { ms: 0 }) == b,
        b.next(Command::DelayMicros { us: 0 }) == b,
{
}

/// The millisecond counter read after a delay of `d` milliseconds is the
/// one read before it plus `d`, wrapping around at 2^32; the microsecond
/// counter read after a delay of `d` microseconds is likewise the one read
/// before plus `d`.
pub proof fn lemma_delay_advances_clock(b: BoardModel, d: u32)
    requires
        b.wf(),
    ensures
        b.answer(Command::Millis) == Reply::Time(b.millis),
        b.next(Command::Delay { ms: d }).answer(Command::Millis)
            == Reply::Time(((b.millis + d) % 0x1_0000_0000) as u32),
        b.next(Command::DelayMicros { us: d }).answer(Command::Micros)
            == Reply::Time(((b.micros + d) % 0x1_0000_0000) as u32),
{
}

/// Stopping the tone on a pin that emits none changes nothing.
pub proof fn lemma_no_tone_when_silent(b: BoardModel, pin: u8)
    requires
        b.wf(),
        b.tones[pin as int] is None,
    ensures
        b.next(Command::NoTone { pin }) == b,
{
    assert(b.tones.update(pin as int, None) =~= b.tones);
}

} // verus!
