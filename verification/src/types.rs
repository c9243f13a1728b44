//! The types that can be exchanged with mpv, and how each is read from and
//! written to foreign memory.
pub mod traits;
pub mod basics;
pub mod byte_array;
pub mod node;
pub mod node_array;
pub mod node_map;
pub mod reading;
pub mod writing;
pub mod round_trip;
pub mod same;


pub use basics::{Double, OsdString};
pub use byte_array::ByteArray;
pub use node::{Node, NodeArray, NodeMap, NodeView};
pub use traits::{MpvFormat, MpvRecv, MpvSend};
