//! Errors of the fixture builders.

use vstd::prelude::*;

verus! {

/// Why a builder could not produce its value: a required field was never
/// set, or a collection field was left empty.
#[derive(Debug, PartialEq, Eq)]
pub enum BuildError {
    MissingField(&'static str),
    EmptyField(&'static str),
}

} // verus!
