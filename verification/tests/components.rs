use dmxt_lib::components::channel::ChannelComponent;
use dmxt_lib::components::fixture::Fixture;
use dmxt_lib::builders::fixture::FixtureChannelMode;
use dmxt_lib::builders::fixture::FixtureModel;
use dmxt_lib::builders::fixture::FixtureName;
use dmxt_lib::dmx::types::Channel;
use dmxt_lib::dmx::types::DMXAddress;
use dmxt_lib::error::DMXError;
use dmxt_lib::error::DMXErrorValidity;

#[test]
fn claiming_a_free_channel_succeeds() {
    let mut free = [true; 512];
    let c = ChannelComponent::new(&mut free, 5, 100).unwrap();
    assert_eq!(c.channel, 5);
    assert_eq!(c.value, 100);
    assert!(!c.flag);
}

#[test]
fn claiming_a_taken_channel_reports_already_in_use() {
    let mut free = [true; 512];
    free[4] = false;
    assert!(matches!(
        ChannelComponent::new(&mut free, 5, 0),
        Err(DMXError::AlreadyInUse)
    ));
}

#[test]
fn claiming_an_out_of_range_channel_reports_the_side() {
    let mut free = [true; 512];
    assert!(matches!(
        ChannelComponent::new(&mut free, 0, 0),
        Err(DMXError::NotValid(DMXErrorValidity::TooLow))
    ));
    assert!(matches!(
        ChannelComponent::new(&mut free, 513, 0),
        Err(DMXError::NotValid(DMXErrorValidity::TooHigh))
    ));
}

#[test]
fn create_next_hands_out_the_lowest_free_channel() {
    let mut free = [true; 512];
    let first = ChannelComponent::create_next(&mut free, 9).unwrap();
    assert_eq!(first.channel, 1);
    assert_eq!(first.value, 9);
    let second = ChannelComponent::create_next(&mut free, 9).unwrap();
    assert_eq!(second.channel, 2);
    free[0] = true;
    let reclaimed = ChannelComponent::create_next(&mut free, 9).unwrap();
    assert_eq!(reclaimed.channel, 1);
}

#[test]
fn create_next_on_a_full_table_reports_no_channels() {
    let mut free = [false; 512];
    assert!(matches!(
        ChannelComponent::create_next(&mut free, 0),
        Err(DMXError::NoChannels)
    ));
}

#[test]
fn unregister_frees_the_channel_again() {
    let mut free = [true; 512];
    let mut c = ChannelComponent::create_next(&mut free, 1).unwrap();
    assert!(!free[0]);
    c.unregister(&mut free);
    assert!(free[0]);
}

#[test]
fn fixture_keeps_name_address_and_model() {
    let model = {
        let mut b = FixtureModel::builder();
        b.model(FixtureName::new(String::from("Spot")));
        b.manufacturer(String::from("Acme"));
        let mut mode = FixtureChannelMode::builder();
        mode.total_channels(Channel::new(4).unwrap());
        b.channel_mode(mode.build().unwrap());
        b.build().unwrap()
    };
    let address = DMXAddress::new(Channel::new(1).unwrap(), 0);
    let fixture = Fixture::new(String::from("Front spot"), address, model).unwrap();
    assert_eq!(fixture.name, "Front spot");
    assert_eq!(fixture.address, address);
    assert_eq!(fixture.model.manufacturer, "Acme");
}
