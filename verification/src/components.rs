//! Reusable components built on top of the DMX core.

pub mod channel;
pub mod fixture;
