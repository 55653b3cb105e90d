//! The data types of the DMX512 core.

use vstd::prelude::*;

use crate::builders::fixture::FixtureName;
use crate::dmx_serial::check_valid_channel;
use crate::dmx_serial::valid_channel;
use crate::error::DMXError;
use crate::error::DMXErrorValidity;

verus! {

/// The number of channels of one DMX512 universe.
pub const DMX_CHANNELS: usize = 512;

/// One universe's worth of channel values.
#[derive(Debug, PartialEq, Clone, Copy)]
pub struct DMXUniverse {
    pub channels: [u8; DMX_CHANNELS],
}

/// A contiguous range of values on the DMX bus, from one address to another.
#[derive(Debug, Clone, Copy)]
pub struct DMXRange {
    pub start: DMXAddress,
    pub end: DMXAddress,
}

impl DMXRange {
    pub fn new(start: DMXAddress, end: DMXAddress) -> (r: DMXRange)
        ensures
            r == (DMXRange { start, end }),
    {
        DMXRange { start, end }
    }

    pub fn from_tuple(range: (DMXAddress, DMXAddress)) -> (r: DMXRange)
        ensures
            r == (DMXRange { start: range.0, end: range.1 }),
    {
        DMXRange { start: range.0, end: range.1 }
    }
}

impl From<Channel> for DMXRange {
    /// The full value range of one channel.
    fn from(channel: Channel) -> (r: Self)
        ensures
            r == (DMXRange {
                start: DMXAddress { channel, value: u8::MIN },
                end: DMXAddress { channel, value: u8::MAX },
            }),
    {
        DMXRange {
            start: DMXAddress::from((channel, u8::MIN)),
            end: DMXAddress::from((channel, u8::MAX)),
        }
    }
}

impl vstd::std_specs::convert::FromSpecImpl<Channel> for DMXRange {
    open spec fn obeys_from_spec() -> bool {
        true
    }

    open spec fn from_spec(channel: Channel) -> DMXRange {
        DMXRange {
            start: DMXAddress { channel, value: u8::MIN },
            end: DMXAddress { channel, value: u8::MAX },
        }
    }
}

impl From<(DMXAddress, DMXAddress)> for DMXRange {
    fn from(addresses: (DMXAddress, DMXAddress)) -> (r: Self)
        ensures
            r == (DMXRange { start: addresses.0, end: addresses.1 }),
    {
        DMXRange { start: addresses.0, end: addresses.1 }
    }
}

impl vstd::std_specs::convert::FromSpecImpl<(DMXAddress, DMXAddress)> for DMXRange {
    open spec fn obeys_from_spec() -> bool {
        true
    }

    open spec fn from_spec(addresses: (DMXAddress, DMXAddress)) -> DMXRange {
        DMXRange { start: addresses.0, end: addresses.1 }
    }
}

/// One point on the DMX bus: a channel together with a value on it.
#[derive(Debug, Clone, Copy, PartialEq, Eq, Structural, PartialOrd, Ord)]
pub struct DMXAddress {
    pub channel: Channel,
    pub value: u8,
}

impl DMXAddress {
    pub fn new(channel: Channel, value: u8) -> (r: DMXAddress)
        ensures
            r == (DMXAddress { channel, value }),
    {
        Self { channel, value }
    }

    pub fn from_tuple(address: (Channel, u8)) -> (r: DMXAddress)
        ensures
            r == (DMXAddress { channel: address.0, value: address.1 }),
    {
        Self { channel: address.0, value: address.1 }
    }
}

impl From<(Channel, u8)> for DMXAddress {
    fn from(address: (Channel, u8)) -> (r: Self)
        ensures
            r == (DMXAddress { channel: address.0, value: address.1 }),
    {
        Self { channel: address.0, value: address.1 }
    }
}

impl vstd::std_specs::convert::FromSpecImpl<(Channel, u8)> for DMXAddress {
    open spec fn obeys_from_spec() -> bool {
        true
    }

    open spec fn from_spec(address: (Channel, u8)) -> DMXAddress {
        DMXAddress { channel: address.0, value: address.1 }
    }
}

impl From<(u16, u8)> for DMXAddress {
    fn from(address: (u16, u8)) -> (r: Self)
        ensures
            r == (DMXAddress { channel: Channel { id: address.0 }, value: address.1 }),
    {
        Self { channel: Channel::from(address.0), value: address.1 }
    }
}

impl vstd::std_specs::convert::FromSpecImpl<(u16, u8)> for DMXAddress {
    open spec fn obeys_from_spec() -> bool {
        true
    }

    open spec fn from_spec(address: (u16, u8)) -> DMXAddress {
        DMXAddress { channel: Channel { id: address.0 }, value: address.1 }
    }
}

/// A DMX channel number.  `new` checks the legal range `1..=512`;
/// the plain conversions do not.
#[derive(Debug, Clone, Copy, PartialEq, Eq, Structural, PartialOrd, Ord)]
pub struct Channel {
    pub id: u16,
}

impl Channel {
    /// A checked channel number; rejects an id outside `1..=512`.
    pub fn new(channel: u16) -> (r: Result<Channel, DMXError>)
        ensures
            r is Ok <==> valid_channel(channel as usize),
            valid_channel(channel as usize) ==> r == Ok::<Channel, DMXError>(Channel { id: channel }),
            channel > 512 ==> r == Err::<Channel, DMXError>(
                DMXError::NotValid(DMXErrorValidity::TooHigh),
            ),
            channel < 1 ==> r == Err::<Channel, DMXError>(
                DMXError::NotValid(DMXErrorValidity::TooLow),
            ),
    {
        match check_valid_channel(channel as usize) {
            Ok(_) => Ok(Channel { id: channel }),
            Err(e) => Err(e),
        }
    }
}

impl From<Channel> for u16 {
    fn from(channel: Channel) -> (r: Self)
        ensures
            r == channel.id,
    {
        channel.id
    }
}

impl vstd::std_specs::convert::FromSpecImpl<Channel> for u16 {
    open spec fn obeys_from_spec() -> bool {
        true
    }

    open spec fn from_spec(channel: Channel) -> u16 {
        channel.id
    }
}

impl From<u16> for Channel {
    fn from(channel: u16) -> (r: Self)
        ensures
            r == (Channel { id: channel }),
    {
        Channel { id: channel }
    }
}

impl vstd::std_specs::convert::FromSpecImpl<u16> for Channel {
    open spec fn obeys_from_spec() -> bool {
        true
    }

    open spec fn from_spec(channel: u16) -> Channel {
        Channel { id: channel }
    }
}

/// A color a fixture can show, either as a preset or as a custom mix.
#[derive(Debug, PartialEq, Eq)]
pub enum Color {
    Red,
    Green,
    Blue,
    Cyan,
    Magenta,
    Yellow,
    White,
    Black,
    CustomRGB(String, (u8, u8, u8)),
    Custom(FixtureName),
    UV,
    ColorChange,
    Auto,
    All,
}

impl Clone for Color {
    fn clone(&self) -> (r: Self)
        ensures
            r == *self,
    {
        match self {
            Color::Red => Color::Red,
            Color::Green => Color::Green,
            Color::Blue => Color::Blue,
            Color::Cyan => Color::Cyan,
            Color::Magenta => Color::Magenta,
            Color::Yellow => Color::Yellow,
            Color::White => Color::White,
            Color::Black => Color::Black,
            Color::CustomRGB(name, rgb) => Color::CustomRGB(name.clone(), *rgb),
            Color::Custom(name) => Color::Custom(name.clone()),
            Color::UV => Color::UV,
            Color::ColorChange => Color::ColorChange,
            Color::Auto => Color::Auto,
            Color::All => Color::All,
        }
    }
}

} // verus!
