use dmxt_lib::dmx::dmx_serial::continue_after_ack;
use dmxt_lib::dmx::dmx_serial::cycle_frame;
use dmxt_lib::dmx::dmx_serial::encode_dmx_packet;
use dmxt_lib::dmx::dmx_serial::inter_frame_pause;
use dmxt_lib::dmx::dmx_serial::DMXSerial;
use dmxt_lib::dmx::dmx_serial::LinkEvent;
use dmxt_lib::dmx::dmx_serial::DEFAULT_BREAK_TO_BREAK_MICROS;
use dmxt_lib::dmx::dmx_serial::MIN_BREAK_TO_BREAK_MICROS;
use dmxt_lib::error::DMXError;
use dmxt_lib::error::DMXErrorValidity;

#[test]
fn fresh_state_is_zeroed_async_default_rate() {
    let dmx = DMXSerial::new();
    assert_eq!(dmx.get_channels(), [0u8; 512]);
    assert!(dmx.is_async());
    assert!(!dmx.is_sync());
    assert_eq!(dmx.get_packet_time(), DEFAULT_BREAK_TO_BREAK_MICROS);
}

#[test]
fn set_then_get_returns_written_value() {
    let mut dmx = DMXSerial::new();
    for &(channel, value) in &[(1usize, 255u8), (2, 1), (100, 42), (511, 99), (512, 10)] {
        dmx.set_channel(channel, value).unwrap();
        assert_eq!(dmx.get_channel(channel).unwrap(), value);
    }
}

#[test]
fn set_channel_rejects_channel_zero_and_leaves_buffer() {
    let mut dmx = DMXSerial::new();
    dmx.set_channel(7, 70).unwrap();
    let before = dmx.get_channels();
    let r = dmx.set_channel(0, 1);
    assert!(matches!(r, Err(DMXError::NotValid(DMXErrorValidity::TooLow))));
    assert_eq!(dmx.get_channels(), before);
}

#[test]
fn set_channel_rejects_channel_513_and_leaves_buffer() {
    let mut dmx = DMXSerial::new();
    dmx.set_channel(12, 34).unwrap();
    let before = dmx.get_channels();
    let r = dmx.set_channel(513, 1);
    assert!(matches!(r, Err(DMXError::NotValid(DMXErrorValidity::TooHigh))));
    assert_eq!(dmx.get_channels(), before);
}

#[test]
fn get_channel_rejects_out_of_range_channels() {
    let dmx = DMXSerial::new();
    assert!(matches!(
        dmx.get_channel(0),
        Err(DMXError::NotValid(DMXErrorValidity::TooLow))
    ));
    assert!(matches!(
        dmx.get_channel(513),
        Err(DMXError::NotValid(DMXErrorValidity::TooHigh))
    ));
}

#[test]
fn reset_channels_zeroes_every_channel() {
    let mut dmx = DMXSerial::new();
    dmx.set_channel(1, 255).unwrap();
    dmx.set_channel(512, 255).unwrap();
    dmx.reset_channels();
    for channel in 1..=512usize {
        assert_eq!(dmx.get_channel(channel).unwrap(), 0);
    }
}

#[test]
fn set_channels_replaces_whole_buffer() {
    let mut dmx = DMXSerial::new();
    let mut buf = [0u8; 512];
    for (i, b) in buf.iter_mut().enumerate() {
        *b = (i % 256) as u8;
    }
    dmx.set_channels(buf);
    assert_eq!(dmx.get_channels(), buf);
    assert_eq!(dmx.get_channel(1).unwrap(), 0);
    assert_eq!(dmx.get_channel(258).unwrap(), 1);
}

#[test]
fn scenario_two_writes_read_back_as_array() {
    let mut dmx = DMXSerial::new();
    dmx.set_channel(1, 255).unwrap();
    dmx.set_channel(512, 10).unwrap();
    let channels = dmx.get_channels();
    assert_eq!(channels[0], 255);
    assert_eq!(channels[511], 10);
    for (i, &v) in channels.iter().enumerate() {
        if i != 0 && i != 511 {
            assert_eq!(v, 0, "channel index {} should be untouched", i);
        }
    }
}

#[test]
fn mode_flag_flips_and_reads_back() {
    let mut dmx = DMXSerial::new();
    dmx.set_sync();
    assert!(dmx.is_sync());
    assert!(!dmx.is_async());
    dmx.set_async();
    assert!(dmx.is_async());
}

#[test]
fn packet_time_reads_back() {
    let mut dmx = DMXSerial::new();
    dmx.set_packet_time(30_000).unwrap();
    assert_eq!(dmx.get_packet_time(), 30_000);
}

#[test]
fn packet_time_accepts_the_protocol_minimum() {
    let mut dmx = DMXSerial::new();
    dmx.set_packet_time(MIN_BREAK_TO_BREAK_MICROS).unwrap();
    assert_eq!(dmx.get_packet_time(), MIN_BREAK_TO_BREAK_MICROS);
}

#[test]
fn packet_time_below_the_minimum_is_rejected_and_kept_out() {
    let mut dmx = DMXSerial::new();
    let r = dmx.set_packet_time(MIN_BREAK_TO_BREAK_MICROS - 1);
    assert!(matches!(r, Err(DMXError::NotValid(DMXErrorValidity::TooLow))));
    assert_eq!(dmx.get_packet_time(), DEFAULT_BREAK_TO_BREAK_MICROS);
    let r = dmx.set_packet_time(0);
    assert!(matches!(r, Err(DMXError::NotValid(DMXErrorValidity::TooLow))));
    assert_eq!(dmx.get_packet_time(), DEFAULT_BREAK_TO_BREAK_MICROS);
}

#[test]
fn encoded_frame_of_zero_buffer_is_513_zero_bytes() {
    let frame = encode_dmx_packet([0u8; 512]);
    assert_eq!(frame.len(), 513);
    assert!(frame.iter().all(|&b| b == 0));
}

#[test]
fn encoded_frame_of_full_buffer_keeps_null_start_code() {
    let frame = encode_dmx_packet([0xFFu8; 512]);
    assert_eq!(frame.len(), 513);
    assert_eq!(frame[0], 0x00);
    assert!(frame[1..].iter().all(|&b| b == 0xFF));
}

#[test]
fn encoded_frame_keeps_channel_order() {
    let mut buf = [0u8; 512];
    buf[0] = 11;
    buf[1] = 22;
    buf[510] = 33;
    buf[511] = 44;
    let frame = encode_dmx_packet(buf);
    assert_eq!(frame[0], 0);
    assert_eq!(frame[1], 11);
    assert_eq!(frame[2], 22);
    assert_eq!(frame[511], 33);
    assert_eq!(frame[512], 44);
}

#[test]
fn pause_stretches_cycle_to_minimum_spacing() {
    assert_eq!(inter_frame_pause(22_700, 1_500), 21_200);
    assert_eq!(inter_frame_pause(22_700, 22_700), 0);
    assert_eq!(inter_frame_pause(22_700, 30_000), 0);
    assert_eq!(inter_frame_pause(0, 5), 0);
}

#[test]
fn sync_cycle_emits_exactly_one_frame_per_request() {
    let mut dmx = DMXSerial::new();
    dmx.set_sync();
    dmx.set_channel(3, 77).unwrap();
    let frame = cycle_frame(&dmx, LinkEvent::Delivered).expect("one frame per request");
    assert_eq!(frame[0], 0);
    assert_eq!(frame[3], 77);
}

#[test]
fn sync_cycle_stops_when_controller_is_gone() {
    let mut dmx = DMXSerial::new();
    dmx.set_sync();
    assert!(cycle_frame(&dmx, LinkEvent::Disconnected).is_none());
}

#[test]
fn async_cycle_always_emits_a_frame() {
    let dmx = DMXSerial::new();
    assert!(cycle_frame(&dmx, LinkEvent::Delivered).is_some());
    assert!(cycle_frame(&dmx, LinkEvent::Disconnected).is_some());
}

#[test]
fn loop_continues_only_while_controller_listens() {
    assert!(continue_after_ack(LinkEvent::Delivered));
    assert!(!continue_after_ack(LinkEvent::Disconnected));
}
