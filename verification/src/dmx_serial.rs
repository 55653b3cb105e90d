//! The channel-buffer side of a serial DMX interface.
//!
//! This module holds the original, minimal interface: a 512-byte channel
//! buffer with range-checked single-channel access.  The port itself and the
//! background transmission loop are outside the library; they read the buffer
//! through the state kept here.

use vstd::prelude::*;

pub use crate::error::DMXError;
pub use crate::error::DMXErrorValidity;

verus! {

broadcast use vstd::array::group_array_axioms;

/// A DMX channel index is legal when it lies in `1..=512`.
pub open spec fn valid_channel(channel: usize) -> bool {
    1 <= channel <= 512
}

/// Checks a channel index against the legal range `1..=512`.
pub fn check_valid_channel(channel: usize) -> (r: Result<(), DMXError>)
    ensures
        r is Ok <==> valid_channel(channel),
        channel > 512 ==> r == Err::<(), DMXError>(DMXError::NotValid(DMXErrorValidity::TooHigh)),
        channel < 1 ==> r == Err::<(), DMXError>(DMXError::NotValid(DMXErrorValidity::TooLow)),
{
    if channel > 512 {
        return Err(DMXError::NotValid(DMXErrorValidity::TooHigh));
    }
    if channel < 1 {
        return Err(DMXError::NotValid(DMXErrorValidity::TooLow));
    }
    Ok(())
}

/// The channel state of a serial DMX interface: 512 channel values,
/// channel `c` of the protocol stored at index `c - 1`.
#[derive(Debug)]
pub struct DMXSerial {
    channels: [u8; 512],
}

impl View for DMXSerial {
    type V = Seq<u8>;

    closed spec fn view(&self) -> Seq<u8> {
        self.channels@
    }
}

impl DMXSerial {
    /// A fresh interface state: every channel at zero.
    pub fn new() -> (dmx: DMXSerial)
        ensures
            dmx@.len() == 512,
            forall|i: int| 0 <= i < 512 ==> dmx@[i] == 0,
    {
        DMXSerial { channels: [0u8; 512] }
    }

    /// Writes `value` to `channel`; rejects a channel outside `1..=512`
    /// and leaves the buffer unchanged in that case.
    pub fn set_channel(&mut self, channel: usize, value: u8) -> (r: Result<(), DMXError>)
        ensures
            r is Ok <==> valid_channel(channel),
            valid_channel(channel) ==> final(self)@ == old(self)@.update(channel - 1, value),
            !valid_channel(channel) ==> final(self)@ == old(self)@,
            channel > 512 ==> r == Err::<(), DMXError>(DMXError::NotValid(DMXErrorValidity::TooHigh)),
            channel < 1 ==> r == Err::<(), DMXError>(DMXError::NotValid(DMXErrorValidity::TooLow)),
    {
        match check_valid_channel(channel) {
            Ok(_) => {
                self.channels[channel - 1] = value;
                Ok(())
            },
            Err(e) => Err(e),
        }
    }

    /// Reads the value of `channel`; rejects a channel outside `1..=512`.
    pub fn get_channel(&self, channel: usize) -> (r: Result<u8, DMXError>)
        ensures
            r is Ok <==> valid_channel(channel),
            valid_channel(channel) ==> r == Ok::<u8, DMXError>(self@[channel - 1]),
            channel > 512 ==> r == Err::<u8, DMXError>(DMXError::NotValid(DMXErrorValidity::TooHigh)),
            channel < 1 ==> r == Err::<u8, DMXError>(DMXError::NotValid(DMXErrorValidity::TooLow)),
    {
        match check_valid_channel(channel) {
            Ok(_) => Ok(self.channels[channel - 1]),
            Err(e) => Err(e),
        }
    }

    /// A copy of the whole buffer, channel 1 first.
    pub fn get_channels(&self) -> (channels: [u8; 512])
        ensures
            channels@ == self@,
    {
        self.channels
    }

    /// Sets every channel back to zero.
    pub fn reset_channels(&mut self)
        ensures
            forall|i: int| 0 <= i < 512 ==> final(self)@[i] == 0,
    {
        self.channels = [0u8; 512];
    }
}

} // verus!
