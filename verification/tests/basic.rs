use dmxt_lib::check_valid_channel;
use dmxt_lib::error::DMXError;
use dmxt_lib::error::DMXErrorValidity;

#[test]
fn it_works() {
    let result = 2 + 2;
    assert_eq!(result, 4);
}

#[test]
fn check_valid_channel_accepts_legal_range() {
    assert!(check_valid_channel(1).is_ok());
    assert!(check_valid_channel(256).is_ok());
    assert!(check_valid_channel(512).is_ok());
}

#[test]
fn check_valid_channel_rejects_zero_as_too_low() {
    assert!(matches!(
        check_valid_channel(0),
        Err(DMXError::NotValid(DMXErrorValidity::TooLow))
    ));
}

#[test]
fn check_valid_channel_rejects_513_as_too_high() {
    assert!(matches!(
        check_valid_channel(513),
        Err(DMXError::NotValid(DMXErrorValidity::TooHigh))
    ));
}

#[test]
fn error_messages_name_the_fault() {
    assert_eq!(DMXError::AlreadyInUse.message(), "DMX channel already in use");
    assert_eq!(
        DMXError::NotValid(DMXErrorValidity::TooHigh).message(),
        "DMX channel too high"
    );
    assert_eq!(
        DMXError::NotValid(DMXErrorValidity::TooLow).message(),
        "DMX channel too low"
    );
    assert_eq!(DMXError::NoChannels.message(), "No channels available");
    assert_eq!(
        DMXError::Other(String::from("port fell off")).message(),
        "port fell off"
    );
}

#[test]
fn error_from_string_keeps_the_text() {
    let e = DMXError::from(String::from("boom"));
    assert!(matches!(e, DMXError::Other(ref s) if s == "boom"));
}
