//! The data formats of the mpv client interface and their discriminators.
use vstd::prelude::*;
use crate::raw;

verus! {

/// The data formats that values exchanged with mpv can have.
#[derive(Debug, Clone, Copy, PartialEq, Eq, Structural)]
pub enum Format {
    /// No value; sometimes used for empty values or errors.
    Empty,
    /// A raw property string.
    String,
    /// A property string formatted for display.
    OsdString,
    /// A boolean flag.
    Flag,
    /// A signed 64-bit integer.
    Int64,
    /// A 64-bit floating point number.
    Double,
    /// A node: a value that carries its own format.
    Node,
    /// An array of nodes.
    NodeArray,
    /// A map from text keys to nodes.
    NodeMap,
    /// A raw byte array.
    ByteArray,
}

impl Format {
    /// The discriminator of a format.
    pub open spec fn id(self) -> u32 {
        match self {
            Format::Empty => raw::MPV_FORMAT_NONE,
            Format::String => raw::MPV_FORMAT_STRING,
            Format::OsdString => raw::MPV_FORMAT_OSD_STRING,
            Format::Flag => raw::MPV_FORMAT_FLAG,
            Format::Int64 => raw::MPV_FORMAT_INT64,
            Format::Double => raw::MPV_FORMAT_DOUBLE,
            Format::Node => raw::MPV_FORMAT_NODE,
            Format::NodeArray => raw::MPV_FORMAT_NODE_ARRAY,
            Format::NodeMap => raw::MPV_FORMAT_NODE_MAP,
            Format::ByteArray => raw::MPV_FORMAT_BYTE_ARRAY,
        }
    }

    /// The discriminator of this format.
    pub fn to_id(&self) -> (id: u32)
        ensures
            id == self.id(),
            id <= raw::MPV_FORMAT_BYTE_ARRAY,
    {
        match self {
            Format::Empty => raw::MPV_FORMAT_NONE,
            Format::String => raw::MPV_FORMAT_STRING,
            Format::OsdString => raw::MPV_FORMAT_OSD_STRING,
            Format::Flag => raw::MPV_FORMAT_FLAG,
            Format::Int64 => raw::MPV_FORMAT_INT64,
            Format::Double => raw::MPV_FORMAT_DOUBLE,
            Format::Node => raw::MPV_FORMAT_NODE,
            Format::NodeArray => raw::MPV_FORMAT_NODE_ARRAY,
            Format::NodeMap => raw::MPV_FORMAT_NODE_MAP,
            Format::ByteArray => raw::MPV_FORMAT_BYTE_ARRAY,
        }
    }

    /// The format with the given discriminator, if the interface defines one.
    pub fn from_id(id: u32) -> (r: Option<Format>)
        ensures
            id <= raw::MPV_FORMAT_BYTE_ARRAY <==> r is Some,
            r matches Some(f) ==> f.id() == id,
    {
        if id == raw::MPV_FORMAT_NONE {
            Some(Format::Empty)
        } else if id == raw::MPV_FORMAT_STRING {
            Some(Format::String)
        } else if id == raw::MPV_FORMAT_OSD_STRING {
            Some(Format::OsdString)
        } else if id == raw::MPV_FORMAT_FLAG {
            Some(Format::Flag)
        } else if id == raw::MPV_FORMAT_INT64 {
            Some(Format::Int64)
        } else if id == raw::MPV_FORMAT_DOUBLE {
            Some(Format::Double)
        } else if id == raw::MPV_FORMAT_NODE {
            Some(Format::Node)
        } else if id == raw::MPV_FORMAT_NODE_ARRAY {
            Some(Format::NodeArray)
        } else if id == raw::MPV_FORMAT_NODE_MAP {
            Some(Format::NodeMap)
        } else if id == raw::MPV_FORMAT_BYTE_ARRAY {
            Some(Format::ByteArray)
        } else {
            None
        }
    }
}

/// Two formats with the same discriminator are the same format.
pub proof fn lemma_format_id_injective(a: Format, b: Format)
    requires
        a.id() == b.id(),
    ensures
        a == b,
{
}

} // verus!
