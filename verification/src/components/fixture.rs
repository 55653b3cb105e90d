//! A fixture placed in a show: a model bound to an address on the bus.

use vstd::prelude::*;

use crate::builders::fixture::FixtureModel;
use crate::dmx::types::DMXAddress;
use crate::error::DMXError;

verus! {

/// One fixture of a show, under its own name, at its bus address.
#[derive(Debug)]
pub struct Fixture {
    pub name: String,
    pub address: DMXAddress,
    pub model: FixtureModel,
}

impl Fixture {
    pub fn new(name: String, address: DMXAddress, model: FixtureModel) -> (r: Result<
        Fixture,
        DMXError,
    >)
        ensures
            r matches Ok(f) && f == (Fixture { name, address, model }),
    {
        Ok(Fixture { name, address, model })
    }
}

} // verus!
