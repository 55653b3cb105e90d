//! A hardware interface and the universe it serves.

use vstd::prelude::*;

use crate::entities::dmx::Universe;

verus! {

/// One physical DMX interface, bound to the universe it transmits.
pub struct Interface {
    pub id: u32,
    pub name: String,
    pub description: String,
    pub universe: Universe,
    pub model: InterfaceModel,
}

/// The make of an interface: who sells it and under which name.
pub struct InterfaceModel {
    pub vendor: String,
    pub name: String,
    pub description: String,
}

} // verus!
