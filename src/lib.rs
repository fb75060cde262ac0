//! Indoor positioning from short-range radio beacon broadcasts: frame
//! decoding, beacon resolution against a fixed catalog, time-windowed signal
//! buffering and the decisions of the streaming pipeline stages.

pub mod text;
pub mod ibeacon;
pub mod beacon;
pub mod registry;
pub mod signal;
pub mod buffer;
pub mod locator;
pub mod scanner;
pub mod pipeline;
pub mod online;
