//! The DMX512 core: data types, the frame encoder and the transmission
//! engine's decision logic.

pub mod dmx_json;
pub mod dmx_serial;
pub mod types;

pub use types::Channel;
pub use types::Color;
pub use types::DMXAddress;
pub use types::DMXRange;
pub use types::DMXUniverse;
pub use types::DMX_CHANNELS;
