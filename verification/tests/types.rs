use dmxt_lib::builders::fixture::FixtureName;
use dmxt_lib::dmx::dmx_json;
use dmxt_lib::dmx::types::Channel;
use dmxt_lib::dmx::types::Color;
use dmxt_lib::dmx::types::DMXAddress;
use dmxt_lib::dmx::types::DMXRange;
use dmxt_lib::dmx::types::DMXUniverse;
use dmxt_lib::dmx::types::DMX_CHANNELS;
use dmxt_lib::entities::dmx::Universe;
use dmxt_lib::entities::interface::Interface;
use dmxt_lib::entities::interface::InterfaceModel;
use dmxt_lib::error::DMXError;
use dmxt_lib::error::DMXErrorValidity;

#[test]
fn universe_has_512_channels() {
    assert_eq!(DMX_CHANNELS, 512);
    let u = DMXUniverse { channels: [7u8; DMX_CHANNELS] };
    assert_eq!(u.channels.len(), 512);
}

#[test]
fn channel_new_checks_the_range() {
    assert_eq!(Channel::new(1).unwrap(), Channel::from(1));
    assert_eq!(Channel::new(512).unwrap(), Channel::from(512));
    assert!(matches!(
        Channel::new(0),
        Err(DMXError::NotValid(DMXErrorValidity::TooLow))
    ));
    assert!(matches!(
        Channel::new(513),
        Err(DMXError::NotValid(DMXErrorValidity::TooHigh))
    ));
}

#[test]
fn channel_converts_to_and_from_u16() {
    let c = Channel::new(300).unwrap();
    let id: u16 = c.into();
    assert_eq!(id, 300);
    assert_eq!(Channel::from(300u16), c);
}

#[test]
fn address_constructors_agree() {
    let c = Channel::new(7).unwrap();
    let a = DMXAddress::new(c, 99);
    assert_eq!(a, DMXAddress::from_tuple((c, 99)));
    assert_eq!(a, DMXAddress::from((c, 99)));
    assert_eq!(a, DMXAddress::from((7u16, 99u8)));
    assert_eq!(a.channel, c);
    assert_eq!(a.value, 99);
}

#[test]
fn range_constructors_agree() {
    let start = DMXAddress::from((3u16, 0u8));
    let end = DMXAddress::from((3u16, 200u8));
    let r = DMXRange::new(start, end);
    let r2 = DMXRange::from_tuple((start, end));
    assert_eq!(r.start, r2.start);
    assert_eq!(r.end, r2.end);
    let r3 = DMXRange::from((start, end));
    assert_eq!(r3.start, start);
    assert_eq!(r3.end, end);
}

#[test]
fn range_from_channel_spans_all_values() {
    let c = Channel::new(5).unwrap();
    let r = DMXRange::from(c);
    assert_eq!(r.start, DMXAddress::new(c, 0));
    assert_eq!(r.end, DMXAddress::new(c, 255));
}

#[test]
fn colors_compare_and_clone() {
    assert_eq!(Color::Red, Color::Red);
    assert_ne!(Color::Red, Color::Blue);
    let custom = Color::CustomRGB(String::from("warm white"), (255, 240, 220));
    assert_eq!(custom.clone(), custom);
    let named = Color::Custom(FixtureName::new(String::from("house")));
    assert_eq!(named.clone(), named);
}

#[test]
fn entities_hold_their_parts() {
    let serial = dmxt_lib::dmx_serial::DMXSerial::new();
    let universe = Universe::new(
        1,
        String::from("Stage left"),
        String::from("front truss"),
        serial,
    );
    assert_eq!(universe.id, 1);
    assert_eq!(universe.name, "Stage left");

    let interface = Interface {
        id: 4,
        name: String::from("Uplink"),
        description: String::from("USB box"),
        universe,
        model: InterfaceModel {
            vendor: String::from("Acme"),
            name: String::from("USB-DMX 1"),
            description: String::from("single universe"),
        },
    };
    assert_eq!(interface.model.vendor, "Acme");
    assert_eq!(interface.universe.id, 1);
}

#[test]
fn json_records_hold_plain_fields() {
    let m = dmx_json::FixtureModel {
        name: String::from("EL-230RGB"),
        manufacturer: String::from("Laserworld"),
    };
    assert_eq!(m.name, "EL-230RGB");
    let v = dmx_json::Manufacturer {
        name: String::from("LW"),
        full_name: String::from("Laserworld AG"),
        description: String::from("lasers"),
    };
    assert_eq!(v.full_name, "Laserworld AG");
}
