//! A DMX512 lighting-control library.
//!
//! The core of the crate is a serial DMX transmission engine: a 512-channel
//! value buffer, an encoder that turns the buffer into the 513-byte frame the
//! DMX512 protocol puts on the wire, and the per-cycle decisions of the
//! transmission loop.  Around it stand the fixture-description builders and
//! the supporting data types.

pub mod builders;
pub mod components;
pub mod dmx;
pub mod dmx_serial;
pub mod entities;
pub mod error;

pub use dmx_serial::check_valid_channel;

