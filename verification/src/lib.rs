//! Data model, datatype/sample codec and beacon lap decoder for a
//! motorsport telemetry-log container format: the records a log file
//! stores, the table mapping its quirky on-disk datatype codes to logical
//! sample kinds, the exact engineering-value conversion, and the
//! pulse-pattern state machine that turns the marker channel's samples into
//! lap and sector times.

mod error;
mod structs;
pub mod beacon_builder;

pub use error::I2Error;
pub use error::I2Result;
pub use structs::ChannelFlag;
pub use structs::ChannelMetadata;
pub use structs::Datatype;
pub use structs::Event;
pub use structs::Header;
pub use structs::Sample;
pub use structs::Vehicle;
pub use structs::Venue;
