use arduino::signal::{fires, CHANGE, FALLING, HIGH, LOW, RISING};
use arduino::DigitalValue::{High as H, Low as L};
use arduino::{
    analog_read_resolution, analog_reference, analog_write_resolution, delay, delay_micros, init,
    micros, millis, AnalogPin, Command, DigitalPin, DigitalValue, Mode, Pin, TonePin,
};

#[test]
fn views_round_trip_for_every_pin() {
    for n in 0..=255u8 {
        let p = Pin(n);
        assert_eq!(Pin::from(DigitalPin::from(p)), p);
        assert_eq!(Pin::from(AnalogPin::from(p)), p);
        assert_eq!(Pin::from(TonePin::from(p)), p);
        assert_eq!(DigitalPin::from(Pin::from(DigitalPin(n))), DigitalPin(n));
        assert_eq!(AnalogPin::from(Pin::from(AnalogPin(n))), AnalogPin(n));
        assert_eq!(TonePin::from(Pin::from(TonePin(n))), TonePin(n));
    }
}

#[test]
fn conversion_keeps_the_number() {
    let d: DigitalPin = Pin(42).into();
    assert_eq!(d.0, 42);
    let p: Pin = TonePin(7).into();
    assert_eq!(p.0, 7);
}

#[test]
fn mode_codes() {
    assert_eq!(Mode::Input.raw(), 0);
    assert_eq!(Mode::Output.raw(), 1);
    assert_eq!(Mode::InputPullUp.raw(), 2);
}

#[test]
fn digital_value_codes() {
    assert_eq!(DigitalValue::Low.raw(), 0);
    assert_eq!(DigitalValue::High.raw(), 1);
}

#[test]
fn raw_readings_decode() {
    assert_eq!(DigitalValue::from_raw(0), DigitalValue::Low);
    assert_eq!(DigitalValue::from_raw(1), DigitalValue::High);
    assert_eq!(DigitalValue::from_raw(7), DigitalValue::High);
    assert_eq!(DigitalValue::from_raw(-1), DigitalValue::High);
}

#[test]
fn view_commands_carry_their_arguments() {
    assert_eq!(
        DigitalPin(13).write(DigitalValue::High),
        Command::DigitalWrite { pin: 13, value: DigitalValue::High }
    );
    assert_eq!(DigitalPin(13).read(), Command::DigitalRead { pin: 13 });
    assert_eq!(AnalogPin(9).write(512), Command::AnalogWrite { pin: 9, value: 512 });
    assert_eq!(AnalogPin(9).read(), Command::AnalogRead { pin: 9 });
    assert_eq!(
        TonePin(3).tone(440, 250),
        Command::Tone { pin: 3, frequency: 440, duration: 250 }
    );
    assert_eq!(TonePin(3).no_tone(), Command::NoTone { pin: 3 });
    assert_eq!(Pin(2).mode(Mode::InputPullUp), Command::PinMode { pin: 2, mode: Mode::InputPullUp });
    assert_eq!(
        Pin(2).attach_interrupt(RISING as u32),
        Command::AttachInterrupt { pin: 2, mode: 4 }
    );
    assert_eq!(Pin(2).detach_interrupt(), Command::DetachInterrupt { pin: 2 });
}

#[test]
fn global_commands_carry_their_arguments() {
    assert_eq!(init(), Command::Init);
    assert_eq!(analog_reference(0), Command::AnalogReference { mode: 0 });
    assert_eq!(analog_read_resolution(12), Command::AnalogReadResolution { bits: 12 });
    assert_eq!(analog_write_resolution(10), Command::AnalogWriteResolution { bits: 10 });
    assert_eq!(millis(), Command::Millis);
    assert_eq!(micros(), Command::Micros);
    assert_eq!(delay(25), Command::Delay { ms: 25 });
    assert_eq!(delay_micros(75), Command::DelayMicros { us: 75 });
}

#[test]
fn trigger_codes_fire_on_their_transitions() {
    assert!(fires(LOW as u32, H, L));
    assert!(fires(LOW as u32, L, L));
    assert!(!fires(LOW as u32, L, H));
    assert!(fires(HIGH as u32, H, H));
    assert!(!fires(HIGH as u32, H, L));
    assert!(fires(CHANGE as u32, L, H));
    assert!(fires(CHANGE as u32, H, L));
    assert!(!fires(CHANGE as u32, H, H));
    assert!(fires(FALLING as u32, H, L));
    assert!(!fires(FALLING as u32, L, H));
    assert!(!fires(FALLING as u32, L, L));
    assert!(fires(RISING as u32, L, H));
    assert!(!fires(RISING as u32, H, L));
    assert!(!fires(RISING as u32, H, H));
    assert!(!fires(9, L, H));
}
