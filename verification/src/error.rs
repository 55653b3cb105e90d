//! Errors surfaced by the channel-level API.

use vstd::prelude::*;

verus! {

/// Says on which side a channel index left the legal range `1..=512`.
#[derive(Debug, Clone, Copy, PartialEq, Eq, Structural)]
pub enum DMXErrorValidity {
    TooHigh,
    TooLow,
}

/// An error of the channel-level API.
///
/// `NotValid` is returned whenever a caller names a channel outside
/// `1..=512`; `AlreadyInUse` and `NoChannels` come from the
/// channel-allocation helpers built on top of the buffer.
#[derive(Debug)]
pub enum DMXError {
    AlreadyInUse,
    NotValid(DMXErrorValidity),
    NoChannels,
    Other(String),
}

impl DMXError {
    /// A human-readable description of the error.
    pub fn message(&self) -> (s: String)
        ensures
            self is AlreadyInUse ==> s@ == "DMX channel already in use"@,
            *self == DMXError::NotValid(DMXErrorValidity::TooHigh) ==> s@ == "DMX channel too high"@,
            *self == DMXError::NotValid(DMXErrorValidity::TooLow) ==> s@ == "DMX channel too low"@,
            self is NoChannels ==> s@ == "No channels available"@,
            self is Other ==> s@ == self->Other_0@,
    {
        match self {
            DMXError::AlreadyInUse => "DMX channel already in use".to_owned(),
            DMXError::NotValid(exact) => match exact {
                DMXErrorValidity::TooHigh => "DMX channel too high".to_owned(),
                DMXErrorValidity::TooLow => "DMX channel too low".to_owned(),
            },
            DMXError::NoChannels => "No channels available".to_owned(),
            DMXError::Other(s) => s.clone(),
        }
    }
}

impl From<String> for DMXError {
    fn from(err: String) -> (e: DMXError)
        ensures
            e == DMXError::Other(err),
    {
        DMXError::Other(err)
    }
}

impl vstd::std_specs::convert::FromSpecImpl<String> for DMXError {
    open spec fn obeys_from_spec() -> bool {
        true
    }

    open spec fn from_spec(err: String) -> DMXError {
        DMXError::Other(err)
    }
}

} // verus!
