//! A verified bridge between owned, dynamically typed values and the
//! fixed-layout tagged union that the mpv player core exchanges with its
//! clients.
//!
//! Foreign memory is modelled by [`memory::Memory`], a sequence of typed
//! blocks addressed by number. Every codec reads from or writes to such a
//! memory, so that null pointers, terminated text buffers and contiguous
//! arrays are plain values that contracts can speak of.
pub mod raw;
pub mod text;
pub mod memory;
pub mod error;
pub mod format;
pub mod version;
pub mod types;
pub mod event;
pub mod handle;

pub use error::{Error, RustError};
pub use event::{Event, EventId};
pub use format::Format;
pub use handle::{Client, Handle};
pub use memory::{mpv_free, mpv_free_node_contents, Addr, Block, Memory};
pub use types::{
    ByteArray,
    Double,
    MpvFormat,
    MpvRecv,
    MpvSend,
    Node,
    NodeArray,
    NodeMap,
    NodeView,
    OsdString,
};
