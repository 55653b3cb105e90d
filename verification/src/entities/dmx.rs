//! A universe: one DMX bus under a name, driven by one serial interface.

use vstd::prelude::*;

use crate::dmx_serial::DMXSerial;

verus! {

/// One DMX universe: 512 channels behind a single serial interface.
pub struct Universe {
    pub id: u32,
    pub name: String,
    pub description: String,
    pub serial: DMXSerial,
}

impl Universe {
    pub fn new(id: u32, name: String, description: String, serial: DMXSerial) -> (r: Universe)
        ensures
            r == (Universe { id, name, description, serial }),
    {
        Universe { id, name, description, serial }
    }
}

} // verus!
