//! Builders for fixture descriptions.

pub mod error;
pub mod fixture;
