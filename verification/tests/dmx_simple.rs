use dmxt_lib::dmx_serial::DMXError;
use dmxt_lib::dmx_serial::DMXErrorValidity;
use dmxt_lib::dmx_serial::DMXSerial;

#[test]
fn simple_interface_round_trips_values() {
    let mut dmx = DMXSerial::new();
    dmx.set_channel(1, 255).unwrap();
    dmx.set_channel(512, 10).unwrap();
    assert_eq!(dmx.get_channel(1).unwrap(), 255);
    assert_eq!(dmx.get_channel(512).unwrap(), 10);
    let channels = dmx.get_channels();
    assert_eq!(channels[0], 255);
    assert_eq!(channels[511], 10);
}

#[test]
fn simple_interface_checks_the_range() {
    let mut dmx = DMXSerial::new();
    assert!(matches!(
        dmx.set_channel(0, 1),
        Err(DMXError::NotValid(DMXErrorValidity::TooLow))
    ));
    assert!(matches!(
        dmx.set_channel(513, 1),
        Err(DMXError::NotValid(DMXErrorValidity::TooHigh))
    ));
    assert!(matches!(
        dmx.get_channel(0),
        Err(DMXError::NotValid(DMXErrorValidity::TooLow))
    ));
    assert!(matches!(
        dmx.get_channel(600),
        Err(DMXError::NotValid(DMXErrorValidity::TooHigh))
    ));
}

#[test]
fn simple_interface_resets_to_zero() {
    let mut dmx = DMXSerial::new();
    dmx.set_channel(200, 123).unwrap();
    dmx.reset_channels();
    assert_eq!(dmx.get_channels(), [0u8; 512]);
}
