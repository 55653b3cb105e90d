//! Channel allocation on top of the buffer: hands out channels so that no
//! two components drive the same one.
//!
//! A free-channel table records which of the 512 channels are taken;
//! `new` claims a named channel, `create_next` the lowest free one.

use vstd::prelude::*;

use crate::dmx_serial::check_valid_channel;
use crate::dmx_serial::valid_channel;
use crate::error::DMXError;
use crate::error::DMXErrorValidity;

verus! {

broadcast use vstd::array::group_array_axioms;

/// One allocated channel with its current value; `flag` marks the
/// component for removal.
#[derive(Debug, Clone)]
pub struct ChannelComponent {
    pub channel: usize,
    pub value: u8,
    pub flag: bool,
}

impl ChannelComponent {
    /// Claims the named channel.  Rejects a channel outside `1..=512`,
    /// and a channel the table already shows as taken; the table itself
    /// is never changed here.
    pub fn new(free_channels: &mut [bool; 512], channel: usize, value: u8) -> (r: Result<
        Self,
        DMXError,
    >)
        ensures
            final(free_channels)@ == old(free_channels)@,
            valid_channel(channel) && old(free_channels)@[channel - 1] ==> r == Ok::<
                Self,
                DMXError,
            >(ChannelComponent { channel, value, flag: false }),
            valid_channel(channel) && !old(free_channels)@[channel - 1] ==> r == Err::<
                Self,
                DMXError,
            >(DMXError::AlreadyInUse),
            channel > 512 ==> r == Err::<Self, DMXError>(
                DMXError::NotValid(DMXErrorValidity::TooHigh),
            ),
            channel < 1 ==> r == Err::<Self, DMXError>(
                DMXError::NotValid(DMXErrorValidity::TooLow),
            ),
    {
        match check_valid_channel(channel) {
            Ok(_) => {
                if free_channels[channel - 1] {
                    Ok(Self { channel, value, flag: false })
                } else {
                    Err(DMXError::AlreadyInUse)
                }
            },
            Err(e) => Err(e),
        }
    }

    /// Claims the lowest channel the table still shows as free and marks
    /// it taken; with no channel left, reports `NoChannels` and leaves
    /// the table unchanged.
    pub fn create_next(free_channels: &mut [bool; 512], value: u8) -> (r: Result<Self, DMXError>)
        ensures
            r is Ok <==> exists|i: int| 0 <= i < 512 && old(free_channels)@[i],
            r matches Ok(c) ==> {
                &&& 1 <= c.channel <= 512
                &&& old(free_channels)@[c.channel - 1]
                &&& forall|j: int| 0 <= j < c.channel - 1 ==> !old(free_channels)@[j]
                &&& final(free_channels)@ == old(free_channels)@.update(c.channel - 1, false)
                &&& c.value == value
                &&& !c.flag
            },
            r is Err ==> r == Err::<Self, DMXError>(DMXError::NoChannels) && final(free_channels)@
                == old(free_channels)@,
    {
        let mut index: usize = 0;
        while index < 512
            invariant
                index <= 512,
                free_channels@ == old(free_channels)@,
                forall|j: int| 0 <= j < index ==> !free_channels@[j],
            decreases 512 - index,
        {
            if free_channels[index] {
                free_channels[index] = false;
                return Ok(Self { channel: index + 1, value, flag: false });
            }
            index = index + 1;
        }
        Err(DMXError::NoChannels)
    }

    /// Gives the component's channel back to the table.
    pub fn unregister(&mut self, free_channels: &mut [bool; 512])
        requires
            valid_channel(old(self).channel),
        ensures
            *final(self) == *old(self),
            final(free_channels)@ == old(free_channels)@.update(old(self).channel - 1, true),
    {
        free_channels[self.channel - 1] = true;
    }
}

} // verus!
