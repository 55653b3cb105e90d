//! The serial DMX transmission engine.
//!
//! `DMXSerial` is the state a DMX interface handle works on: the 512
//! channel values, the transmission mode, and the minimum spacing of two
//! breaks.  The engine around it runs in its own execution context and
//! repeats one cycle forever: wait for a request when in synchronous mode,
//! snapshot the channels, put one frame on the wire, pause, and report
//! completion.  The port writes and the waiting itself are outside the
//! library; every decision of the cycle — which bytes form the frame, how
//! long to pause, whether to keep running — is made by the verified
//! functions of this module.

use vstd::prelude::*;

use crate::dmx::types::DMX_CHANNELS;
use crate::dmx_serial::check_valid_channel;
use crate::dmx_serial::valid_channel;
use crate::error::DMXError;
use crate::error::DMXErrorValidity;

verus! {

broadcast use vstd::array::group_array_axioms;

/// The bytes of one frame on the wire: the start code and the 512 channels.
pub const DMX_FRAME_BYTES: usize = 513;

/// The pause between the break and the data section, in microseconds.
pub const TIME_BREAK_TO_DATA_MICROS: u64 = 136;

/// The default minimum time from one break to the next, in microseconds.
pub const DEFAULT_BREAK_TO_BREAK_MICROS: u64 = 22_700;

/// The smallest break-to-break time the protocol allows, in microseconds:
/// about 1.2 ms of frame time at the highest legal refresh rate, break and
/// mark-after-break included.  A shorter spacing is rejected.
pub const MIN_BREAK_TO_BREAK_MICROS: u64 = 1_204;

/// The abstract state of a DMX interface.
pub struct DMXSerialView {
    /// The channel values, channel `c` of the protocol at index `c - 1`.
    pub channels: Seq<u8>,
    /// Whether transmission is paced by the controller (`true`) or
    /// free-running (`false`).
    pub is_sync: bool,
    /// The minimum time from one break to the next, in microseconds.
    pub min_time_break_to_break_micros: u64,
}

/// The state of a serial DMX interface: what the controlling side mutates
/// and the transmission loop reads, one snapshot per cycle.
#[derive(Debug, Clone)]
pub struct DMXSerial {
    channels: [u8; DMX_CHANNELS],
    is_sync: bool,
    min_time_break_to_break_micros: u64,
}

impl View for DMXSerial {
    type V = DMXSerialView;

    closed spec fn view(&self) -> DMXSerialView {
        DMXSerialView {
            channels: self.channels@,
            is_sync: self.is_sync,
            min_time_break_to_break_micros: self.min_time_break_to_break_micros,
        }
    }
}

impl DMXSerial {
    /// A fresh interface state: every channel zero, asynchronous mode,
    /// default break-to-break time.
    pub fn new() -> (dmx: DMXSerial)
        ensures
            dmx@.channels.len() == 512,
            forall|i: int| 0 <= i < 512 ==> dmx@.channels[i] == 0,
            !dmx@.is_sync,
            dmx@.min_time_break_to_break_micros == DEFAULT_BREAK_TO_BREAK_MICROS,
    {
        DMXSerial {
            channels: [0u8; DMX_CHANNELS],
            is_sync: false,
            min_time_break_to_break_micros: DEFAULT_BREAK_TO_BREAK_MICROS,
        }
    }

    /// The channel buffer always holds one value per DMX channel.
    pub proof fn channels_length(&self)
        ensures
            self@.channels.len() == 512,
    {
    }

    /// Writes `value` to `channel`; rejects a channel outside `1..=512`
    /// and leaves the state unchanged in that case.
    pub fn set_channel(&mut self, channel: usize, value: u8) -> (r: Result<(), DMXError>)
        ensures
            r is Ok <==> valid_channel(channel),
            valid_channel(channel) ==> final(self)@ == (DMXSerialView {
                channels: old(self)@.channels.update(channel - 1, value),
                ..old(self)@
            }),
            !valid_channel(channel) ==> final(self)@ == old(self)@,
            channel > 512 ==> r == Err::<(), DMXError>(
                DMXError::NotValid(DMXErrorValidity::TooHigh),
            ),
            channel < 1 ==> r == Err::<(), DMXError>(DMXError::NotValid(DMXErrorValidity::TooLow)),
    {
        match check_valid_channel(channel) {
            Ok(_) => {
                self.channels[channel - 1] = value;
                Ok(())
            },
            Err(e) => Err(e),
        }
    }

    /// Replaces the whole buffer in one step; a reader of the state sees
    /// either none or all of the new values.
    pub fn set_channels(&mut self, channels: [u8; DMX_CHANNELS])
        ensures
            final(self)@ == (DMXSerialView { channels: channels@, ..old(self)@ }),
    {
        self.channels = channels;
    }

    /// Reads the value of `channel`; rejects a channel outside `1..=512`.
    pub fn get_channel(&self, channel: usize) -> (r: Result<u8, DMXError>)
        ensures
            r is Ok <==> valid_channel(channel),
            valid_channel(channel) ==> r == Ok::<u8, DMXError>(self@.channels[channel - 1]),
            channel > 512 ==> r == Err::<u8, DMXError>(
                DMXError::NotValid(DMXErrorValidity::TooHigh),
            ),
            channel < 1 ==> r == Err::<u8, DMXError>(
                DMXError::NotValid(DMXErrorValidity::TooLow),
            ),
    {
        match check_valid_channel(channel) {
            Ok(_) => Ok(self.channels[channel - 1]),
            Err(e) => Err(e),
        }
    }

    /// A copy of the whole buffer, channel 1 first.
    pub fn get_channels(&self) -> (channels: [u8; DMX_CHANNELS])
        ensures
            channels@ == self@.channels,
    {
        self.channels
    }

    /// Sets every channel back to zero in one step.
    pub fn reset_channels(&mut self)
        ensures
            final(self)@.channels.len() == 512,
            forall|i: int| 0 <= i < 512 ==> final(self)@.channels[i] == 0,
            final(self)@.is_sync == old(self)@.is_sync,
            final(self)@.min_time_break_to_break_micros
                == old(self)@.min_time_break_to_break_micros,
    {
        self.channels = [0u8; DMX_CHANNELS];
    }

    /// Paces transmission by the controller: the loop waits for a request
    /// before each frame, from its next iteration on.
    pub fn set_sync(&mut self)
        ensures
            final(self)@ == (DMXSerialView { is_sync: true, ..old(self)@ }),
    {
        self.is_sync = true;
    }

    /// Lets transmission free-run at the configured rate, from the loop's
    /// next iteration on.
    pub fn set_async(&mut self)
        ensures
            final(self)@ == (DMXSerialView { is_sync: false, ..old(self)@ }),
    {
        self.is_sync = false;
    }

    pub fn is_sync(&self) -> (r: bool)
        ensures
            r == self@.is_sync,
    {
        self.is_sync
    }

    pub fn is_async(&self) -> (r: bool)
        ensures
            r == !self@.is_sync,
    {
        !self.is_sync()
    }

    /// Sets the minimum time from one break to the next, in microseconds.
    /// A time below `MIN_BREAK_TO_BREAK_MICROS` would put the spacing
    /// outside the protocol's legal range: it is rejected and the state
    /// left unchanged.
    pub fn set_packet_time(&mut self, time_micros: u64) -> (r: Result<(), DMXError>)
        ensures
            r is Ok <==> time_micros >= MIN_BREAK_TO_BREAK_MICROS,
            time_micros >= MIN_BREAK_TO_BREAK_MICROS ==> final(self)@ == (DMXSerialView {
                min_time_break_to_break_micros: time_micros,
                ..old(self)@
            }),
            time_micros < MIN_BREAK_TO_BREAK_MICROS ==> final(self)@ == old(self)@ && r == Err::<
                (),
                DMXError,
            >(DMXError::NotValid(DMXErrorValidity::TooLow)),
    {
        if time_micros < MIN_BREAK_TO_BREAK_MICROS {
            return Err(DMXError::NotValid(DMXErrorValidity::TooLow));
        }
        self.min_time_break_to_break_micros = time_micros;
        Ok(())
    }

    /// The minimum time from one break to the next, in microseconds.
    pub fn get_packet_time(&self) -> (r: u64)
        ensures
            r == self@.min_time_break_to_break_micros,
    {
        self.min_time_break_to_break_micros
    }
}

/// The byte sequence of one DMX frame for the given channel values: the
/// null start code followed by the channel values in index order.
pub open spec fn spec_dmx_frame(channels: Seq<u8>) -> Seq<u8> {
    seq![0u8] + channels
}

/// Encodes the data section of one DMX frame: one zero start byte, then
/// the 512 channel values in index order, 513 bytes in all.
pub fn encode_dmx_packet(channels: [u8; DMX_CHANNELS]) -> (frame: [u8; 513])
    ensures
        frame@ == spec_dmx_frame(channels@),
{
    let mut frame = [0u8; 513];
    let mut i: usize = 0;
    while i < 512
        invariant
            i <= 512,
            frame@.len() == 513,
            frame@[0] == 0,
            forall|j: int| 0 <= j < i ==> frame@[j + 1] == channels@[j],
        decreases 512 - i,
    {
        frame[i + 1] = channels[i];
        i = i + 1;
    }
    proof {
        assert(frame@ =~= spec_dmx_frame(channels@));
    }
    frame
}

/// The pause a cycle inserts after its frame so that the next break comes
/// no earlier than the configured minimum after this cycle's break.
pub open spec fn spec_inter_frame_pause(min_break_to_break_micros: u64, elapsed_micros: u64) -> u64 {
    if elapsed_micros >= min_break_to_break_micros {
        0u64
    } else {
        (min_break_to_break_micros - elapsed_micros) as u64
    }
}

/// How long the loop still has to pause, given the minimum break-to-break
/// time and the time this cycle has already taken, both in microseconds.
pub fn inter_frame_pause(min_break_to_break_micros: u64, elapsed_micros: u64) -> (pause: u64)
    ensures
        pause == spec_inter_frame_pause(min_break_to_break_micros, elapsed_micros),
{
    min_break_to_break_micros.saturating_sub(elapsed_micros)
}

/// What a rendezvous with the controlling side reported: the signal was
/// exchanged, or every endpoint on the other side is gone.
#[derive(Debug, Clone, Copy, PartialEq, Eq, Structural)]
pub enum LinkEvent {
    Delivered,
    Disconnected,
}

/// Decides the frame of one loop iteration from a snapshot of the state.
///
/// In synchronous mode the loop first waits for the controller's request;
/// `request` is what that wait reported.  A disconnected controller ends
/// the loop before any frame is produced.  In every other case the cycle
/// transmits exactly one frame: the encoding of the snapshot.
pub fn cycle_frame(state: &DMXSerial, request: LinkEvent) -> (frame: Option<[u8; 513]>)
    ensures
        frame is Some <==> !(state@.is_sync && request is Disconnected),
        frame matches Some(f) ==> f@ == spec_dmx_frame(state@.channels),
{
    if state.is_sync() && request == LinkEvent::Disconnected {
        None
    } else {
        Some(encode_dmx_packet(state.get_channels()))
    }
}

/// Decides whether the loop runs another iteration after reporting frame
/// completion: it stops exactly when the controlling side is gone.
pub fn continue_after_ack(ack: LinkEvent) -> (cont: bool)
    ensures
        cont <==> ack is Delivered,
{
    ack == LinkEvent::Delivered
}

/// Law: writing a channel and then reading the same channel yields the
/// written value, for every channel in `1..=512` and every value.
pub proof fn lemma_set_get_roundtrip(channels: Seq<u8>, channel: usize, value: u8)
    requires
        channels.len() == 512,
        valid_channel(channel),
    ensures
        channels.update(channel - 1, value)[channel - 1] == value,
{
}

/// Law: writing one channel leaves every other channel as it was.
pub proof fn lemma_set_channel_frames(channels: Seq<u8>, channel: usize, value: u8, other: usize)
    requires
        channels.len() == 512,
        valid_channel(channel),
        valid_channel(other),
        other != channel,
    ensures
        channels.update(channel - 1, value)[other - 1] == channels[other - 1],
{
}

/// Law: after a reset, reading any channel in `1..=512` yields zero.
pub proof fn lemma_reset_get_zero(channels: Seq<u8>, channel: usize)
    requires
        channels.len() == 512,
        valid_channel(channel),
        forall|i: int| 0 <= i < 512 ==> channels[i] == 0,
    ensures
        channels[channel - 1] == 0,
{
}

/// Law: for every 512-value buffer the encoded frame is exactly 513
/// bytes — the null start code, then the buffer unchanged.
pub proof fn lemma_frame_shape(channels: Seq<u8>)
    requires
        channels.len() == 512,
    ensures
        spec_dmx_frame(channels).len() == 513,
        spec_dmx_frame(channels)[0] == 0,
        forall|i: int| 0 <= i < 512 ==> spec_dmx_frame(channels)[i + 1] == channels[i],
{
}

/// Law: a cycle that pauses for `spec_inter_frame_pause` keeps its break
/// and the next at least the configured minimum apart.
pub proof fn lemma_break_spacing(min_break_to_break_micros: u64, elapsed_micros: u64)
    ensures
        elapsed_micros + spec_inter_frame_pause(min_break_to_break_micros, elapsed_micros)
            >= min_break_to_break_micros,
{
}

} // verus!
