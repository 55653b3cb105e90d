//! The entities a show is organised in: universes and the interfaces
//! that drive them.

pub mod dmx;
pub mod interface;
