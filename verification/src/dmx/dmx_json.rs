//! Plain records of the fixture data that is exchanged with the outside
//! world.  The (de)serialization itself lives outside the library.

use vstd::prelude::*;

verus! {

/// A fixture model as it appears in an interchange file.
#[derive(Debug)]
pub struct FixtureModel {
    pub name: String,
    pub manufacturer: String,
}

/// A fixture manufacturer as it appears in an interchange file.
#[derive(Debug)]
pub struct Manufacturer {
    pub name: String,
    pub full_name: String,
    pub description: String,
}

} // verus!
