//! The events that mpv sends, and how they are read out of the event
//! structure that the event queue hands out.
use vstd::prelude::*;
use vstd::utf8::encode_utf8;
use crate::error::{error_to_result_code, Error, Fault};
use crate::format::Format;
use crate::memory::{Addr, Block, Memory, RawEvent, NULL};
use crate::raw;
use crate::text::{first_nul, read_text, text_at};
use crate::types::basics::{holds_text, text_cell_at, Double, OsdString};
use crate::types::byte_array::{byte_array_behind, holds_bytes};
use crate::types::node::{holds_node_at, nodes_view, read_node_at, Node, NodeMap, NodeView};
use crate::types::writing::{holds_list, holds_map, unwritable_entries, unwritable_node, unwritable_nodes};
use crate::types::node_map::Entries;
use crate::types::reading::{
    lemma_read_keys_stuck,
    node_reads_as,
    read_keys,
    read_list,
    read_map,
    try_array_from_ptr,
    try_map_from_ptr,
};
use crate::types::traits::{recognized, sent, MpvRecv, MpvSend};

verus! {

/// The events that can be switched on and off.
#[derive(Debug, Clone, Copy, PartialEq, Eq)]
pub enum EventId {
    /// Requests [`Event::Shutdown`].
    Shutdown,
    /// Requests [`Event::LogMessage`].
    LogMessage,
    /// Requests [`Event::GetPropertyReply`].
    GetPropertyReply,
    /// Requests [`Event::SetPropertyReply`].
    SetPropertyReply,
    /// Requests [`Event::CommandReply`].
    CommandReply,
    /// Requests [`Event::StartFile`].
    StartFile,
    /// Requests [`Event::EndFile`].
    EndFile,
    /// Requests [`Event::FileLoaded`].
    FileLoaded,
    /// Requests [`Event::Idle`].
    Idle,
    /// Requests [`Event::Tick`].
    Tick,
    /// Requests [`Event::ClientMessage`].
    ClientMessage,
    /// Requests [`Event::VideoReconfig`].
    VideoReconfig,
    /// Requests [`Event::AudioReconfig`].
    AudioReconfig,
    /// Requests [`Event::Seek`].
    Seek,
    /// Requests [`Event::PlaybackRestart`].
    PlaybackRestart,
    /// Requests [`Event::PropertyChange`].
    PropertyChange,
    /// Requests [`Event::QueueOverflow`].
    QueueOverflow,
    /// Requests [`Event::Hook`].
    Hook,
}

impl EventId {
    /// The identifier that the interface knows the event by.
    pub open spec fn id(self) -> u32 {
        match self {
            EventId::Shutdown => raw::MPV_EVENT_SHUTDOWN,
            EventId::LogMessage => raw::MPV_EVENT_LOG_MESSAGE,
            EventId::GetPropertyReply => raw::MPV_EVENT_GET_PROPERTY_REPLY,
            EventId::SetPropertyReply => raw::MPV_EVENT_SET_PROPERTY_REPLY,
            EventId::CommandReply => raw::MPV_EVENT_COMMAND_REPLY,
            EventId::StartFile => raw::MPV_EVENT_START_FILE,
            EventId::EndFile => raw::MPV_EVENT_END_FILE,
            EventId::FileLoaded => raw::MPV_EVENT_FILE_LOADED,
            EventId::Idle => raw::MPV_EVENT_IDLE,
            EventId::Tick => raw::MPV_EVENT_TICK,
            EventId::ClientMessage => raw::MPV_EVENT_CLIENT_MESSAGE,
            EventId::VideoReconfig => raw::MPV_EVENT_VIDEO_RECONFIG,
            EventId::AudioReconfig => raw::MPV_EVENT_AUDIO_RECONFIG,
            EventId::Seek => raw::MPV_EVENT_SEEK,
            EventId::PlaybackRestart => raw::MPV_EVENT_PLAYBACK_RESTART,
            EventId::PropertyChange => raw::MPV_EVENT_PROPERTY_CHANGE,
            EventId::QueueOverflow => raw::MPV_EVENT_QUEUE_OVERFLOW,
            EventId::Hook => raw::MPV_EVENT_HOOK,
        }
    }

    /// The identifier that the interface knows the event by.
    pub fn to_id(&self) -> (id: u32)
        ensures
            id == self.id(),
    {
        match self {
            EventId::Shutdown => raw::MPV_EVENT_SHUTDOWN,
            EventId::LogMessage => raw::MPV_EVENT_LOG_MESSAGE,
            EventId::GetPropertyReply => raw::MPV_EVENT_GET_PROPERTY_REPLY,
            EventId::SetPropertyReply => raw::MPV_EVENT_SET_PROPERTY_REPLY,
            EventId::CommandReply => raw::MPV_EVENT_COMMAND_REPLY,
            EventId::StartFile => raw::MPV_EVENT_START_FILE,
            EventId::EndFile => raw::MPV_EVENT_END_FILE,
            EventId::FileLoaded => raw::MPV_EVENT_FILE_LOADED,
            EventId::Idle => raw::MPV_EVENT_IDLE,
            EventId::Tick => raw::MPV_EVENT_TICK,
            EventId::ClientMessage => raw::MPV_EVENT_CLIENT_MESSAGE,
            EventId::VideoReconfig => raw::MPV_EVENT_VIDEO_RECONFIG,
            EventId::AudioReconfig => raw::MPV_EVENT_AUDIO_RECONFIG,
            EventId::Seek => raw::MPV_EVENT_SEEK,
            EventId::PlaybackRestart => raw::MPV_EVENT_PLAYBACK_RESTART,
            EventId::PropertyChange => raw::MPV_EVENT_PROPERTY_CHANGE,
            EventId::QueueOverflow => raw::MPV_EVENT_QUEUE_OVERFLOW,
            EventId::Hook => raw::MPV_EVENT_HOOK,
        }
    }
}

/// The levels that mpv gives to log messages.
#[derive(Debug, Clone, Copy, PartialEq, Eq)]
pub enum LogLevel {
    /// Logging is disabled.
    Disabled,
    /// Critical, aborting errors.
    Fatal,
    /// Simple errors.
    Error,
    /// Possible problems.
    Warn,
    /// Informational messages.
    Info,
    /// Noisy informational messages.
    Verbose,
    /// Very noisy technical information.
    Debug,
    /// Extremely noisy.
    Trace,
}

impl LogLevel {
    /// The name that the interface knows the level by.
    pub fn to_cstr(&self) -> (name: &'static str)
        ensures
            name@ == self.name(),
    {
        match self {
            LogLevel::Disabled => "no",
            LogLevel::Fatal => "fatal",
            LogLevel::Error => "error",
            LogLevel::Warn => "warn",
            LogLevel::Info => "info",
            LogLevel::Verbose => "v",
            LogLevel::Debug => "debug",
            LogLevel::Trace => "trace",
        }
    }

    /// The name that the interface knows the level by.
    pub open spec fn name(self) -> Seq<char> {
        match self {
            LogLevel::Disabled => "no"@,
            LogLevel::Fatal => "fatal"@,
            LogLevel::Error => "error"@,
            LogLevel::Warn => "warn"@,
            LogLevel::Info => "info"@,
            LogLevel::Verbose => "v"@,
            LogLevel::Debug => "debug"@,
            LogLevel::Trace => "trace"@,
        }
    }

    /// The level that a log message carries as a number. The number for
    /// disabled logging is not one that a message can carry.
    pub open spec fn of_number(number: u32) -> Option<LogLevel> {
        if number == raw::MPV_LOG_LEVEL_FATAL {
            Some(LogLevel::Fatal)
        } else if number == raw::MPV_LOG_LEVEL_ERROR {
            Some(LogLevel::Error)
        } else if number == raw::MPV_LOG_LEVEL_WARN {
            Some(LogLevel::Warn)
        } else if number == raw::MPV_LOG_LEVEL_INFO {
            Some(LogLevel::Info)
        } else if number == raw::MPV_LOG_LEVEL_V {
            Some(LogLevel::Verbose)
        } else if number == raw::MPV_LOG_LEVEL_DEBUG {
            Some(LogLevel::Debug)
        } else if number == raw::MPV_LOG_LEVEL_TRACE {
            Some(LogLevel::Trace)
        } else {
            None
        }
    }

    /// The level that a log message carries as a number, if the number is
    /// one that a message can carry.
    pub fn from_number(number: u32) -> (r: Option<LogLevel>)
        ensures
            r == LogLevel::of_number(number),
    {
        if number == raw::MPV_LOG_LEVEL_FATAL {
            Some(LogLevel::Fatal)
        } else if number == raw::MPV_LOG_LEVEL_ERROR {
            Some(LogLevel::Error)
        } else if number == raw::MPV_LOG_LEVEL_WARN {
            Some(LogLevel::Warn)
        } else if number == raw::MPV_LOG_LEVEL_INFO {
            Some(LogLevel::Info)
        } else if number == raw::MPV_LOG_LEVEL_V {
            Some(LogLevel::Verbose)
        } else if number == raw::MPV_LOG_LEVEL_DEBUG {
            Some(LogLevel::Debug)
        } else if number == raw::MPV_LOG_LEVEL_TRACE {
            Some(LogLevel::Trace)
        } else {
            None
        }
    }
}

/// The name of every level can be written as a terminated buffer: none
/// holds a NUL byte.
pub proof fn lemma_level_names_writable(level: LogLevel)
    ensures
        first_nul(encode_utf8(level.name())) is None,
{
    reveal_strlit("no");
    reveal_strlit("fatal");
    reveal_strlit("error");
    reveal_strlit("warn");
    reveal_strlit("info");
    reveal_strlit("v");
    reveal_strlit("debug");
    reveal_strlit("trace");
    let name = level.name();
    assert(vstd::utf8::is_ascii_chars(name));
    vstd::utf8::is_ascii_chars_encode_utf8(name);
    let bytes = encode_utf8(name);
    assert forall|i: int| 0 <= i < bytes.len() implies bytes[i] != 0 by {
        assert(name[i] as u8 == bytes[i]);
        assert(name[i] != '\0');
    }
    crate::text::lemma_nul_from(bytes, 0);
}

/// Why the playback of a file ended.
#[derive(Debug, PartialEq, Eq)]
pub enum EndFileReason {
    /// The end of the file was reached.
    Eof,
    /// Playback was stopped by an external action.
    Stop,
    /// Playback was stopped by the quit command or by player shutdown.
    Quit,
    /// An error happened that led to playback being aborted.
    Error(Error),
    /// The file was a playlist or similar; playback goes on with its
    /// entries.
    Redirect,
}

/// The values that a property reply or a property change can carry.
#[derive(Debug, PartialEq)]
pub enum PropertyValue {
    /// No value; sometimes used for empty values or errors.
    Empty,
    /// A raw property string.
    String(String),
    /// A property string formatted for display.
    OsdString(OsdString),
    /// A flag.
    Flag(bool),
    /// An integer.
    Int64(i64),
    /// A double.
    Double(Double),
    /// A node.
    Node(Node),
    /// An array of nodes.
    NodeArray(Vec<Node>),
    /// A map from text keys to nodes.
    NodeMap(NodeMap),
    /// A byte array.
    ByteArray(Vec<u8>),
}

/// The mathematical value of a property value.
pub enum PropertyValueView {
    /// No value.
    Empty,
    /// A raw property string.
    String(Seq<char>),
    /// A property string formatted for display.
    OsdString(Seq<char>),
    /// A flag.
    Flag(bool),
    /// An integer.
    Int64(i64),
    /// A double, by its bit pattern.
    Double(u64),
    /// A node.
    Node(NodeView),
    /// An array of nodes.
    NodeArray(Seq<NodeView>),
    /// A map from text keys to nodes.
    NodeMap(Entries),
    /// A byte array.
    ByteArray(Seq<u8>),
}

impl View for PropertyValue {
    type V = PropertyValueView;

    open spec fn view(&self) -> PropertyValueView {
        match self {
            PropertyValue::Empty => PropertyValueView::Empty,
            PropertyValue::String(s) => PropertyValueView::String(s@),
            PropertyValue::OsdString(s) => PropertyValueView::OsdString(s.0@),
            PropertyValue::Flag(b) => PropertyValueView::Flag(*b),
            PropertyValue::Int64(x) => PropertyValueView::Int64(*x),
            PropertyValue::Double(d) => PropertyValueView::Double(d.bits),
            PropertyValue::Node(n) => PropertyValueView::Node(n@),
            PropertyValue::NodeArray(v) => PropertyValueView::NodeArray(nodes_view(v@)),
            PropertyValue::NodeMap(m) => PropertyValueView::NodeMap(m@),
            PropertyValue::ByteArray(b) => PropertyValueView::ByteArray(b@),
        }
    }
}

/// What the data of a property reads as, given its format.
pub open spec fn read_property(mem: Memory, format: u32, data: Addr) -> Result<
    PropertyValueView,
    Fault,
> {
    if format == raw::MPV_FORMAT_NONE {
        Ok(PropertyValueView::Empty)
    } else if format == raw::MPV_FORMAT_STRING {
        match text_cell_at(mem, data) {
            Ok(s) => Ok(PropertyValueView::String(s)),
            Err(f) => Err(f),
        }
    } else if format == raw::MPV_FORMAT_OSD_STRING {
        match text_cell_at(mem, data) {
            Ok(s) => Ok(PropertyValueView::OsdString(s)),
            Err(f) => Err(f),
        }
    } else if format == raw::MPV_FORMAT_FLAG {
        match mem.flag_at(data, usize::MAX) {
            Some(flag) => Ok(PropertyValueView::Flag(flag != 0)),
            None => Err(Fault::Pointer),
        }
    } else if format == raw::MPV_FORMAT_INT64 {
        match mem.int64_at(data, usize::MAX) {
            Some(value) => Ok(PropertyValueView::Int64(value)),
            None => Err(Fault::Pointer),
        }
    } else if format == raw::MPV_FORMAT_DOUBLE {
        match mem.double_at(data, usize::MAX) {
            Some(bits) => Ok(PropertyValueView::Double(bits)),
            None => Err(Fault::Pointer),
        }
    } else if format == raw::MPV_FORMAT_NODE {
        match read_node_at(mem, data, usize::MAX) {
            Ok(v) => Ok(PropertyValueView::Node(v)),
            Err(f) => Err(f),
        }
    } else if format == raw::MPV_FORMAT_NODE_ARRAY {
        match read_list(mem, data, usize::MAX) {
            Ok(vs) => Ok(PropertyValueView::NodeArray(vs)),
            Err(f) => Err(f),
        }
    } else if format == raw::MPV_FORMAT_NODE_MAP {
        match read_map(mem, data, usize::MAX) {
            Ok(es) => Ok(PropertyValueView::NodeMap(es)),
            Err(f) => Err(f),
        }
    } else if format == raw::MPV_FORMAT_BYTE_ARRAY {
        match byte_array_behind(mem, data, usize::MAX) {
            Ok(bs) => Ok(PropertyValueView::ByteArray(bs)),
            Err(f) => Err(f),
        }
    } else {
        Err(Fault::Unrecognized)
    }
}

/// Whether the outcome of reading a property value is the specified one.
pub open spec fn property_reads_as(
    r: Result<PropertyValue, Error>,
    expected: Result<PropertyValueView, Fault>,
) -> bool {
    match (r, expected) {
        (Ok(value), Ok(v)) => value@ == v,
        (Err(e), Err(f)) => e.reports(f),
        _ => false,
    }
}

/// Whether an attempt at reading a property value came to the specified
/// outcome: nothing where an unrecognized value was met, else the outcome.
pub open spec fn property_tried_as(
    r: Option<Result<PropertyValue, Error>>,
    expected: Result<PropertyValueView, Fault>,
) -> bool {
    match r {
        Some(outcome) => recognized(expected) && property_reads_as(outcome, expected),
        None => !recognized(expected),
    }
}

impl PropertyValue {
    /// Reads the data of a property in the given format, whatever the
    /// format is. Returns nothing where the format, or a discriminator in
    /// the data, is one that the interface does not define.
    pub fn try_from_mpv(mem: &Memory, format: u32, data: Addr) -> (r: Option<
        Result<PropertyValue, Error>,
    >)
        ensures
            property_tried_as(r, read_property(*mem, format, data)),
    {
        if format == raw::MPV_FORMAT_NONE {
            Some(Ok(PropertyValue::Empty))
        } else if format == raw::MPV_FORMAT_STRING {
            match String::from_ptr(mem, data) {
                Ok(s) => Some(Ok(PropertyValue::String(s))),
                Err(e) => Some(Err(e)),
            }
        } else if format == raw::MPV_FORMAT_OSD_STRING {
            match OsdString::from_ptr(mem, data) {
                Ok(s) => Some(Ok(PropertyValue::OsdString(s))),
                Err(e) => Some(Err(e)),
            }
        } else if format == raw::MPV_FORMAT_FLAG {
            match bool::from_ptr(mem, data) {
                Ok(b) => Some(Ok(PropertyValue::Flag(b))),
                Err(e) => Some(Err(e)),
            }
        } else if format == raw::MPV_FORMAT_INT64 {
            match i64::from_ptr(mem, data) {
                Ok(x) => Some(Ok(PropertyValue::Int64(x))),
                Err(e) => Some(Err(e)),
            }
        } else if format == raw::MPV_FORMAT_DOUBLE {
            match Double::from_ptr(mem, data) {
                Ok(d) => Some(Ok(PropertyValue::Double(d))),
                Err(e) => Some(Err(e)),
            }
        } else if format == raw::MPV_FORMAT_NODE {
            match Node::try_from_node_ptr(mem, data) {
                Some(Ok(n)) => Some(Ok(PropertyValue::Node(n))),
                Some(Err(e)) => Some(Err(e)),
                None => None,
            }
        } else if format == raw::MPV_FORMAT_NODE_ARRAY {
            match try_array_from_ptr(mem, data, usize::MAX) {
                Some(Ok(v)) => Some(Ok(PropertyValue::NodeArray(v))),
                Some(Err(e)) => Some(Err(e)),
                None => None,
            }
        } else if format == raw::MPV_FORMAT_NODE_MAP {
            match try_map_from_ptr(mem, data, usize::MAX) {
                Some(Ok(m)) => Some(Ok(PropertyValue::NodeMap(m))),
                Some(Err(e)) => Some(Err(e)),
                None => None,
            }
        } else if format == raw::MPV_FORMAT_BYTE_ARRAY {
            match Vec::<u8>::from_ptr(mem, data) {
                Ok(b) => Some(Ok(PropertyValue::ByteArray(b))),
                Err(e) => Some(Err(e)),
            }
        } else {
            None
        }
    }

    /// The format of a value.
    pub open spec fn format_of(value: PropertyValueView) -> Format {
        match value {
            PropertyValueView::Empty => Format::Empty,
            PropertyValueView::String(_) => Format::String,
            PropertyValueView::OsdString(_) => Format::OsdString,
            PropertyValueView::Flag(_) => Format::Flag,
            PropertyValueView::Int64(_) => Format::Int64,
            PropertyValueView::Double(_) => Format::Double,
            PropertyValueView::Node(_) => Format::Node,
            PropertyValueView::NodeArray(_) => Format::NodeArray,
            PropertyValueView::NodeMap(_) => Format::NodeMap,
            PropertyValueView::ByteArray(_) => Format::ByteArray,
        }
    }

    /// The format of the value.
    pub fn format(&self) -> (format: Format)
        ensures
            format == PropertyValue::format_of(self@),
    {
        match self {
            PropertyValue::Empty => Format::Empty,
            PropertyValue::String(_) => Format::String,
            PropertyValue::OsdString(_) => Format::OsdString,
            PropertyValue::Flag(_) => Format::Flag,
            PropertyValue::Int64(_) => Format::Int64,
            PropertyValue::Double(_) => Format::Double,
            PropertyValue::Node(_) => Format::Node,
            PropertyValue::NodeArray(_) => Format::NodeArray,
            PropertyValue::NodeMap(_) => Format::NodeMap,
            PropertyValue::ByteArray(_) => Format::ByteArray,
        }
    }

    /// Whether the memory holds, at the address, the foreign shape of a
    /// value in its format. The empty value has no shape: its address is
    /// null.
    pub open spec fn holds(mem: Memory, ptr: Addr, value: PropertyValueView) -> bool {
        match value {
            PropertyValueView::Empty => ptr == NULL,
            PropertyValueView::String(s) => holds_text(mem, ptr, s),
            PropertyValueView::OsdString(s) => holds_text(mem, ptr, s),
            PropertyValueView::Flag(b) => bool::holds(mem, ptr, b),
            PropertyValueView::Int64(x) => i64::holds(mem, ptr, x),
            PropertyValueView::Double(d) => Double::holds(mem, ptr, d),
            PropertyValueView::Node(v) => holds_node_at(mem, ptr, usize::MAX, v),
            PropertyValueView::NodeArray(vs) => holds_list(mem, ptr, usize::MAX, vs),
            PropertyValueView::NodeMap(es) => holds_map(mem, ptr, usize::MAX, es),
            PropertyValueView::ByteArray(bs) => holds_bytes(mem, ptr, usize::MAX, bs),
        }
    }

    /// The position of the first NUL byte in the first piece of text of a
    /// value that has one.
    pub open spec fn unwritable(value: PropertyValueView) -> Option<int> {
        match value {
            PropertyValueView::String(s) => first_nul(encode_utf8(s)),
            PropertyValueView::OsdString(s) => first_nul(encode_utf8(s)),
            PropertyValueView::Node(v) => unwritable_node(v),
            PropertyValueView::NodeArray(vs) => unwritable_nodes(vs, vs.len()),
            PropertyValueView::NodeMap(es) => unwritable_entries(es, es.len()),
            _ => None,
        }
    }

    /// Sends the value, in its format, with a request: `fun` is handed the
    /// memory and the address of the foreign shape of the value, and returns
    /// its status. A value that cannot be written is refused before any
    /// request is made.
    pub fn to_mpv<F: FnOnce(&Memory, Addr) -> Result<i32, Error>>(&self, fun: F) -> (r: Result<
        i32,
        Error,
    >)
        requires
            forall|mem: Memory, ptr: Addr|
                PropertyValue::holds(mem, ptr, self@) ==> #[trigger] fun.requires((&mem, ptr)),
        ensures
            sent(PropertyValue::unwritable(self@), r) || exists|mem: Memory, ptr: Addr|
                PropertyValue::unwritable(self@) is None && PropertyValue::holds(mem, ptr, self@)
                    && #[trigger] fun.ensures((&mem, ptr), r),
    {
        match self {
            PropertyValue::Empty => {
                let mem = Memory::new();
                assert(PropertyValue::holds(mem, NULL, self@));
                fun(&mem, NULL)
            },
            PropertyValue::String(s) => s.to_mpv(fun),
            PropertyValue::OsdString(s) => s.to_mpv(fun),
            PropertyValue::Flag(b) => b.to_mpv(fun),
            PropertyValue::Int64(x) => x.to_mpv(fun),
            PropertyValue::Double(d) => d.to_mpv(fun),
            PropertyValue::Node(n) => n.to_mpv(fun),
            PropertyValue::NodeArray(v) => v.to_mpv(fun),
            PropertyValue::NodeMap(m) => m.to_mpv(fun),
            PropertyValue::ByteArray(b) => b.to_mpv(fun),
        }
    }

    /// Reads the data of a property in the given format.
    pub fn from_mpv(mem: &Memory, format: u32, data: Addr) -> (r: Result<PropertyValue, Error>)
        requires
            recognized(read_property(*mem, format, data)),
        ensures
            property_reads_as(r, read_property(*mem, format, data)),
    {
        match PropertyValue::try_from_mpv(mem, format, data) {
            Some(r) => r,
            None => {
                proof {
                    assert(false);
                }
                Err(Error::pointer())
            },
        }
    }
}


/// Details of a log message.
#[derive(Debug, PartialEq, Eq)]
pub struct LogMessage {
    /// The level of the message.
    pub level: LogLevel,
    /// The module prefix, which names the sender of the message.
    pub prefix: String,
    /// The message: one line of text, ended by a newline.
    pub text: String,
}

/// Reply to a request to get a property.
#[derive(Debug, PartialEq)]
pub struct GetPropertyReply {
    /// Value of the property, or the error of the request.
    pub value: Result<PropertyValue, Error>,
    /// Name of the property.
    pub name: String,
    /// The value that the request was tagged with.
    pub userdata: u64,
}

/// Reply to a request to set a property.
#[derive(Debug, PartialEq, Eq)]
pub struct SetPropertyReply {
    /// The status of the request: its success value, or its error.
    pub error: Result<i32, Error>,
    /// The value that the request was tagged with.
    pub userdata: u64,
}

/// Reply to a command.
#[derive(Debug, PartialEq)]
pub struct CommandReply {
    /// Result of the command, or the error of the request.
    pub result: Result<Node, Error>,
    /// The value that the request was tagged with.
    pub userdata: u64,
}

/// Details of a start-file event.
#[derive(Debug, PartialEq, Eq)]
pub struct StartFile {
    /// Playlist entry of the file being loaded.
    pub playlist_entry_id: i64,
}

/// Details of an end-file event.
#[derive(Debug, PartialEq, Eq)]
pub struct EndFile {
    /// Why the file ended.
    pub reason: EndFileReason,
    /// Playlist entry of the file that was played or attempted.
    pub playlist_entry_id: i64,
    /// Playlist entry of the first inserted entry, after a redirect.
    pub playlist_insert_id: i64,
    /// Number of inserted entries, after a redirect.
    pub playlist_insert_num_entries: i32,
}

/// The arguments of a client message, as the sender chose them.
#[derive(Debug, PartialEq, Eq)]
pub struct ClientMessage(pub Vec<String>);

/// Details of a change of an observed property.
#[derive(Debug, PartialEq)]
pub struct PropertyChange {
    /// Name of the property.
    pub name: String,
    /// New value of the property, or the error met when reading it.
    pub value: Result<PropertyValue, Error>,
    /// The value that the observation was tagged with.
    pub userdata: u64,
}

/// Details of a hook event.
#[derive(Debug, PartialEq, Eq)]
pub struct Hook {
    /// The name of the hook.
    pub name: String,
    /// Identifier to continue the hook with.
    pub id: u64,
    /// The value that the hook was tagged with.
    pub userdata: u64,
}

/// What reading comes to, given the fault that the input has, if any, and
/// whether the value that was read is the one that the input stands for.
pub open spec fn read_as<T>(r: Result<T, Error>, fault: Option<Fault>, is: spec_fn(T) -> bool) -> bool {
    match r {
        Ok(value) => fault is None && is(value),
        Err(e) => fault matches Some(f) && e.reports(f),
    }
}

/// What an attempt at reading comes to: nothing where the input holds a
/// value that the interface does not define, else what reading comes to.
pub open spec fn tried_as<T>(
    r: Option<Result<T, Error>>,
    fault: Option<Fault>,
    is: spec_fn(T) -> bool,
) -> bool {
    match r {
        Some(outcome) => fault != Some(Fault::Unrecognized) && read_as(outcome, fault, is),
        None => fault == Some(Fault::Unrecognized),
    }
}

/// The texts of a sequence of strings.
pub open spec fn texts_view(texts: Seq<String>) -> Seq<Seq<char>> {
    Seq::new(texts.len(), |i: int| texts[i]@)
}

impl LogMessage {
    /// The fault in the payload of a log message event, if there is one.
    pub open spec fn fault(mem: Memory, event: RawEvent) -> Option<Fault> {
        match mem.block_at(event.data, usize::MAX) {
            Some(Block::LogMessage(m)) => if LogLevel::of_number(m.log_level) is None {
                Some(Fault::Unrecognized)
            } else if text_at(mem, m.prefix, usize::MAX) is Err {
                Some(text_at(mem, m.prefix, usize::MAX)->Err_0)
            } else if text_at(mem, m.text, usize::MAX) is Err {
                Some(text_at(mem, m.text, usize::MAX)->Err_0)
            } else {
                None
            },
            _ => Some(Fault::Pointer),
        }
    }

    /// Whether these are the details that the payload of the event holds.
    pub open spec fn is(self, mem: Memory, event: RawEvent) -> bool {
        &&& mem.block_at(event.data, usize::MAX) matches Some(Block::LogMessage(m))
        &&& LogLevel::of_number(m.log_level) == Some(self.level)
        &&& text_at(mem, m.prefix, usize::MAX) == Ok::<Seq<char>, Fault>(self.prefix@)
        &&& text_at(mem, m.text, usize::MAX) == Ok::<Seq<char>, Fault>(self.text@)
    }

    /// Reads the details of a log message event, whatever its level is.
    /// Returns nothing where the level is not one that a message can carry.
    pub fn try_from_event(mem: &Memory, event: &RawEvent) -> (r: Option<Result<LogMessage, Error>>)
        ensures
            tried_as(r, LogMessage::fault(*mem, *event), |m: LogMessage| m.is(*mem, *event)),
    {
        match mem.get(event.data, usize::MAX) {
            Some(Block::LogMessage(m)) => {
                let level = match LogLevel::from_number(m.log_level) {
                    Some(level) => level,
                    None => {
                        return None;
                    },
                };
                let prefix = match read_text(mem, m.prefix, usize::MAX) {
                    Ok(prefix) => prefix,
                    Err(e) => {
                        return Some(Err(e));
                    },
                };
                let text = match read_text(mem, m.text, usize::MAX) {
                    Ok(text) => text,
                    Err(e) => {
                        return Some(Err(e));
                    },
                };
                Some(Ok(LogMessage { level, prefix, text }))
            },
            _ => Some(Err(Error::pointer())),
        }
    }

    /// Reads the details of a log message event.
    pub fn from_event(mem: &Memory, event: &RawEvent) -> (r: Result<LogMessage, Error>)
        requires
            LogMessage::fault(*mem, *event) != Some(Fault::Unrecognized),
        ensures
            read_as(r, LogMessage::fault(*mem, *event), |m: LogMessage| m.is(*mem, *event)),
    {
        match LogMessage::try_from_event(mem, event) {
            Some(r) => r,
            None => {
                proof {
                    assert(false);
                }
                Err(Error::pointer())
            },
        }
    }
}

impl GetPropertyReply {
    /// The fault in the payload of a property reply, if there is one. A
    /// fault in the value of the property is no fault of the reply: it is
    /// kept as the value.
    pub open spec fn fault(mem: Memory, event: RawEvent) -> Option<Fault> {
        match mem.block_at(event.data, usize::MAX) {
            Some(Block::Property(p)) => if text_at(mem, p.name, usize::MAX) is Err {
                Some(text_at(mem, p.name, usize::MAX)->Err_0)
            } else if event.error >= 0 && read_property(mem, p.format, p.data) == Err::<
                PropertyValueView,
                Fault,
            >(Fault::Unrecognized) {
                Some(Fault::Unrecognized)
            } else {
                None
            },
            _ => Some(Fault::Pointer),
        }
    }

    /// Whether this is the reply that the event holds.
    pub open spec fn is(self, mem: Memory, event: RawEvent) -> bool {
        &&& mem.block_at(event.data, usize::MAX) matches Some(Block::Property(p))
        &&& text_at(mem, p.name, usize::MAX) == Ok::<Seq<char>, Fault>(self.name@)
        &&& self.userdata == event.reply_userdata
        &&& if event.error < 0 {
            self.value == Err::<PropertyValue, Error>(Error::from_code(event.error))
        } else {
            property_reads_as(self.value, read_property(mem, p.format, p.data))
        }
    }

    /// Reads a reply to a request to get a property, whatever it holds.
    /// Returns nothing where the format of the value or a discriminator in
    /// the value is not one that the interface defines.
    pub fn try_from_event(mem: &Memory, event: &RawEvent) -> (r: Option<
        Result<GetPropertyReply, Error>,
    >)
        ensures
            tried_as(
                r,
                GetPropertyReply::fault(*mem, *event),
                |m: GetPropertyReply| m.is(*mem, *event),
            ),
    {
        match mem.get(event.data, usize::MAX) {
            Some(Block::Property(p)) => {
                let name = match read_text(mem, p.name, usize::MAX) {
                    Ok(name) => name,
                    Err(e) => {
                        return Some(Err(e));
                    },
                };
                let value = match error_to_result_code(event.error) {
                    Ok(_) => match PropertyValue::try_from_mpv(mem, p.format, p.data) {
                        Some(value) => value,
                        None => {
                            return None;
                        },
                    },
                    Err(e) => Err(e),
                };
                Some(Ok(GetPropertyReply { value, name, userdata: event.reply_userdata }))
            },
            _ => Some(Err(Error::pointer())),
        }
    }

    /// Reads a reply to a request to get a property.
    pub fn from_event(mem: &Memory, event: &RawEvent) -> (r: Result<GetPropertyReply, Error>)
        requires
            GetPropertyReply::fault(*mem, *event) != Some(Fault::Unrecognized),
        ensures
            read_as(r, GetPropertyReply::fault(*mem, *event), |m: GetPropertyReply| m.is(*mem, *event)),
    {
        match GetPropertyReply::try_from_event(mem, event) {
            Some(r) => r,
            None => {
                proof {
                    assert(false);
                }
                Err(Error::pointer())
            },
        }
    }
}

impl SetPropertyReply {
    /// Whether this is the reply that the event holds.
    pub open spec fn is(self, event: RawEvent) -> bool {
        &&& self.userdata == event.reply_userdata
        &&& if event.error < 0 {
            self.error == Err::<i32, Error>(Error::from_code(event.error))
        } else {
            self.error == Ok::<i32, Error>(event.error)
        }
    }

    /// Reads a reply to a request to set a property. Every status has a
    /// reading, so this never fails.
    pub fn from_event(event: &RawEvent) -> (r: Result<SetPropertyReply, Error>)
        ensures
            r matches Ok(reply) && reply.is(*event),
    {
        let error = error_to_result_code(event.error);
        Ok(SetPropertyReply { error, userdata: event.reply_userdata })
    }
}

impl CommandReply {
    /// The fault in the payload of a command reply, if there is one. A
    /// fault in the result of the command is no fault of the reply: it is
    /// kept as the result.
    pub open spec fn fault(mem: Memory, event: RawEvent) -> Option<Fault> {
        match mem.block_at(event.data, usize::MAX) {
            Some(Block::Nodes(_)) => if event.error >= 0 && read_node_at(
                mem,
                event.data,
                usize::MAX,
            ) == Err::<
                NodeView,
                Fault,
            >(Fault::Unrecognized) {
                Some(Fault::Unrecognized)
            } else {
                None
            },
            _ => Some(Fault::Pointer),
        }
    }

    /// Whether this is the reply that the event holds.
    pub open spec fn is(self, mem: Memory, event: RawEvent) -> bool {
        &&& self.userdata == event.reply_userdata
        &&& if event.error < 0 {
            self.result == Err::<Node, Error>(Error::from_code(event.error))
        } else {
            node_reads_as(self.result, read_node_at(mem, event.data, usize::MAX))
        }
    }

    /// Reads a reply to a command, whatever it holds. Returns nothing where
    /// a discriminator in the result is not one that the interface defines.
    pub fn try_from_event(mem: &Memory, event: &RawEvent) -> (r: Option<
        Result<CommandReply, Error>,
    >)
        ensures
            tried_as(r, CommandReply::fault(*mem, *event), |m: CommandReply| m.is(*mem, *event)),
    {
        match mem.get(event.data, usize::MAX) {
            Some(Block::Nodes(_)) => {
                let result = match error_to_result_code(event.error) {
                    Ok(_) => match Node::try_from_node_ptr(mem, event.data) {
                        Some(result) => result,
                        None => {
                            return None;
                        },
                    },
                    Err(e) => Err(e),
                };
                Some(Ok(CommandReply { result, userdata: event.reply_userdata }))
            },
            _ => Some(Err(Error::pointer())),
        }
    }

    /// Reads a reply to a command.
    pub fn from_event(mem: &Memory, event: &RawEvent) -> (r: Result<CommandReply, Error>)
        requires
            CommandReply::fault(*mem, *event) != Some(Fault::Unrecognized),
        ensures
            read_as(r, CommandReply::fault(*mem, *event), |m: CommandReply| m.is(*mem, *event)),
    {
        match CommandReply::try_from_event(mem, event) {
            Some(r) => r,
            None => {
                proof {
                    assert(false);
                }
                Err(Error::pointer())
            },
        }
    }
}

impl ClientMessage {
    /// The fault in the payload of a client message, if there is one.
    pub open spec fn fault(mem: Memory, event: RawEvent) -> Option<Fault> {
        match mem.block_at(event.data, usize::MAX) {
            Some(Block::ClientMessage(m)) => match mem.pointers_at(m.args, usize::MAX) {
                Some(args) => if 0 <= m.num_args <= args.len() {
                    match read_keys(mem, args, m.num_args as nat, usize::MAX) {
                        Ok(_) => None,
                        Err(f) => Some(f),
                    }
                } else {
                    Some(Fault::Pointer)
                },
                None => Some(Fault::Pointer),
            },
            _ => Some(Fault::Pointer),
        }
    }

    /// Whether these are the arguments that the payload of the event holds.
    pub open spec fn is(self, mem: Memory, event: RawEvent) -> bool {
        &&& mem.block_at(event.data, usize::MAX) matches Some(Block::ClientMessage(m))
        &&& mem.pointers_at(m.args, usize::MAX) matches Some(args)
        &&& 0 <= m.num_args <= args.len()
        &&& read_keys(mem, args, m.num_args as nat, usize::MAX) == Ok::<Seq<Seq<char>>, Fault>(
            texts_view(self.0@),
        )
    }

    /// Reads the arguments of a client message, and stops at the first that
    /// cannot be read.
    #[verifier::loop_isolation(false)]
    pub fn from_event(mem: &Memory, event: &RawEvent) -> (r: Result<ClientMessage, Error>)
        ensures
            read_as(r, ClientMessage::fault(*mem, *event), |m: ClientMessage| m.is(*mem, *event)),
    {
        let message = match mem.get(event.data, usize::MAX) {
            Some(Block::ClientMessage(m)) => m,
            _ => {
                return Err(Error::pointer());
            },
        };
        let args = match mem.get(message.args, usize::MAX) {
            Some(Block::Pointers(args)) => args,
            _ => {
                return Err(Error::pointer());
            },
        };
        if !(0 <= message.num_args && message.num_args as usize <= args.len()) {
            return Err(Error::pointer());
        }
        let count = message.num_args as usize;
        let mut out: Vec<String> = Vec::new();
        let mut i: usize = 0;
        assert(texts_view(out@) =~= Seq::<Seq<char>>::empty());
        while i < count
            invariant
                i <= count <= args@.len(),
                read_keys(*mem, args@, i as nat, usize::MAX) == Ok::<Seq<Seq<char>>, Fault>(
                    texts_view(out@),
                ),
            decreases count - i,
        {
            match read_text(mem, args[i], usize::MAX) {
                Ok(arg) => {
                    proof {
                        assert(texts_view(out@.push(arg)) =~= texts_view(out@).push(arg@));
                    }
                    out.push(arg);
                },
                Err(e) => {
                    proof {
                        lemma_read_keys_stuck(
                            *mem,
                            args@,
                            (i + 1) as nat,
                            count as nat,
                            usize::MAX,
                        );
                    }
                    return Err(e);
                },
            }
            i += 1;
        }
        Ok(ClientMessage(out))
    }
}

impl StartFile {
    /// Whether these are the details that the payload of the event holds.
    pub open spec fn is(self, mem: Memory, event: RawEvent) -> bool {
        mem.block_at(event.data, usize::MAX) == Some(
            Block::StartFile(
                crate::memory::RawStartFile { playlist_entry_id: self.playlist_entry_id },
            ),
        )
    }

    /// The fault in the payload of a start-file event, if there is one.
    pub open spec fn fault(mem: Memory, event: RawEvent) -> Option<Fault> {
        match mem.block_at(event.data, usize::MAX) {
            Some(Block::StartFile(_)) => None,
            _ => Some(Fault::Pointer),
        }
    }

    /// Reads the details of a start-file event.
    pub fn from_event(mem: &Memory, event: &RawEvent) -> (r: Result<StartFile, Error>)
        ensures
            read_as(r, StartFile::fault(*mem, *event), |m: StartFile| m.is(*mem, *event)),
    {
        match mem.get(event.data, usize::MAX) {
            Some(Block::StartFile(s)) => Ok(StartFile { playlist_entry_id: s.playlist_entry_id }),
            _ => Err(Error::pointer()),
        }
    }
}

impl EndFileReason {
    /// The reason that a number and the status code beside it stand for.
    pub open spec fn of_number(number: u32, error: i32) -> Option<EndFileReason> {
        if number == raw::MPV_END_FILE_REASON_EOF {
            Some(EndFileReason::Eof)
        } else if number == raw::MPV_END_FILE_REASON_STOP {
            Some(EndFileReason::Stop)
        } else if number == raw::MPV_END_FILE_REASON_QUIT {
            Some(EndFileReason::Quit)
        } else if number == raw::MPV_END_FILE_REASON_ERROR {
            Some(EndFileReason::Error(Error::from_code(error)))
        } else if number == raw::MPV_END_FILE_REASON_REDIRECT {
            Some(EndFileReason::Redirect)
        } else {
            None
        }
    }

    /// The reason that a number and the status code beside it stand for, if
    /// the interface defines the number.
    pub fn from_number(number: u32, error: i32) -> (r: Option<EndFileReason>)
        ensures
            r == EndFileReason::of_number(number, error),
    {
        if number == raw::MPV_END_FILE_REASON_EOF {
            Some(EndFileReason::Eof)
        } else if number == raw::MPV_END_FILE_REASON_STOP {
            Some(EndFileReason::Stop)
        } else if number == raw::MPV_END_FILE_REASON_QUIT {
            Some(EndFileReason::Quit)
        } else if number == raw::MPV_END_FILE_REASON_ERROR {
            Some(EndFileReason::Error(Error::from(error)))
        } else if number == raw::MPV_END_FILE_REASON_REDIRECT {
            Some(EndFileReason::Redirect)
        } else {
            None
        }
    }
}

impl EndFile {
    /// The fault in the payload of an end-file event, if there is one.
    pub open spec fn fault(mem: Memory, event: RawEvent) -> Option<Fault> {
        match mem.block_at(event.data, usize::MAX) {
            Some(Block::EndFile(e)) => if EndFileReason::of_number(e.reason, e.error) is None {
                Some(Fault::Unrecognized)
            } else {
                None
            },
            _ => Some(Fault::Pointer),
        }
    }

    /// Whether these are the details that the payload of the event holds.
    pub open spec fn is(self, mem: Memory, event: RawEvent) -> bool {
        &&& mem.block_at(event.data, usize::MAX) matches Some(Block::EndFile(e))
        &&& EndFileReason::of_number(e.reason, e.error) == Some(self.reason)
        &&& self.playlist_entry_id == e.playlist_entry_id
        &&& self.playlist_insert_id == e.playlist_insert_id
        &&& self.playlist_insert_num_entries == e.playlist_insert_num_entries
    }

    /// Reads the details of an end-file event, whatever its reason is.
    /// Returns nothing where the reason is not one that the interface
    /// defines.
    pub fn try_from_event(mem: &Memory, event: &RawEvent) -> (r: Option<Result<EndFile, Error>>)
        ensures
            tried_as(r, EndFile::fault(*mem, *event), |m: EndFile| m.is(*mem, *event)),
    {
        match mem.get(event.data, usize::MAX) {
            Some(Block::EndFile(e)) => {
                match EndFileReason::from_number(e.reason, e.error) {
                    Some(reason) => Some(
                        Ok(
                            EndFile {
                                reason,
                                playlist_entry_id: e.playlist_entry_id,
                                playlist_insert_id: e.playlist_insert_id,
                                playlist_insert_num_entries: e.playlist_insert_num_entries,
                            },
                        ),
                    ),
                    None => None,
                }
            },
            _ => Some(Err(Error::pointer())),
        }
    }

    /// Reads the details of an end-file event.
    pub fn from_event(mem: &Memory, event: &RawEvent) -> (r: Result<EndFile, Error>)
        requires
            EndFile::fault(*mem, *event) != Some(Fault::Unrecognized),
        ensures
            read_as(r, EndFile::fault(*mem, *event), |m: EndFile| m.is(*mem, *event)),
    {
        match EndFile::try_from_event(mem, event) {
            Some(r) => r,
            None => {
                proof {
                    assert(false);
                }
                Err(Error::pointer())
            },
        }
    }
}

impl PropertyChange {
    /// The fault in the payload of a property change, if there is one. A
    /// fault in the value of the property is no fault of the event: it is
    /// kept as the value.
    pub open spec fn fault(mem: Memory, event: RawEvent) -> Option<Fault> {
        match mem.block_at(event.data, usize::MAX) {
            Some(Block::Property(p)) => if text_at(mem, p.name, usize::MAX) is Err {
                Some(text_at(mem, p.name, usize::MAX)->Err_0)
            } else if read_property(mem, p.format, p.data) == Err::<PropertyValueView, Fault>(
                Fault::Unrecognized,
            ) {
                Some(Fault::Unrecognized)
            } else {
                None
            },
            _ => Some(Fault::Pointer),
        }
    }

    /// Whether these are the details that the payload of the event holds.
    pub open spec fn is(self, mem: Memory, event: RawEvent) -> bool {
        &&& mem.block_at(event.data, usize::MAX) matches Some(Block::Property(p))
        &&& text_at(mem, p.name, usize::MAX) == Ok::<Seq<char>, Fault>(self.name@)
        &&& self.userdata == event.reply_userdata
        &&& property_reads_as(self.value, read_property(mem, p.format, p.data))
    }

    /// Reads the details of a change of an observed property, whatever it
    /// holds. Returns nothing where the format of the value or a
    /// discriminator in the value is not one that the interface defines.
    pub fn try_from_event(mem: &Memory, event: &RawEvent) -> (r: Option<
        Result<PropertyChange, Error>,
    >)
        ensures
            tried_as(
                r,
                PropertyChange::fault(*mem, *event),
                |m: PropertyChange| m.is(*mem, *event),
            ),
    {
        match mem.get(event.data, usize::MAX) {
            Some(Block::Property(p)) => {
                let name = match read_text(mem, p.name, usize::MAX) {
                    Ok(name) => name,
                    Err(e) => {
                        return Some(Err(e));
                    },
                };
                let value = match PropertyValue::try_from_mpv(mem, p.format, p.data) {
                    Some(value) => value,
                    None => {
                        return None;
                    },
                };
                Some(Ok(PropertyChange { name, value, userdata: event.reply_userdata }))
            },
            _ => Some(Err(Error::pointer())),
        }
    }

    /// Reads the details of a change of an observed property.
    pub fn from_event(mem: &Memory, event: &RawEvent) -> (r: Result<PropertyChange, Error>)
        requires
            PropertyChange::fault(*mem, *event) != Some(Fault::Unrecognized),
        ensures
            read_as(r, PropertyChange::fault(*mem, *event), |m: PropertyChange| m.is(*mem, *event)),
    {
        match PropertyChange::try_from_event(mem, event) {
            Some(r) => r,
            None => {
                proof {
                    assert(false);
                }
                Err(Error::pointer())
            },
        }
    }
}

impl Hook {
    /// The fault in the payload of a hook event, if there is one.
    pub open spec fn fault(mem: Memory, event: RawEvent) -> Option<Fault> {
        match mem.block_at(event.data, usize::MAX) {
            Some(Block::Hook(h)) => match text_at(mem, h.name, usize::MAX) {
                Ok(_) => None,
                Err(f) => Some(f),
            },
            _ => Some(Fault::Pointer),
        }
    }

    /// Whether these are the details that the payload of the event holds.
    pub open spec fn is(self, mem: Memory, event: RawEvent) -> bool {
        &&& mem.block_at(event.data, usize::MAX) matches Some(Block::Hook(h))
        &&& text_at(mem, h.name, usize::MAX) == Ok::<Seq<char>, Fault>(self.name@)
        &&& self.id == h.id
        &&& self.userdata == event.reply_userdata
    }

    /// Reads the details of a hook event.
    pub fn from_event(mem: &Memory, event: &RawEvent) -> (r: Result<Hook, Error>)
        ensures
            read_as(r, Hook::fault(*mem, *event), |m: Hook| m.is(*mem, *event)),
    {
        match mem.get(event.data, usize::MAX) {
            Some(Block::Hook(h)) => {
                match read_text(mem, h.name, usize::MAX) {
                    Ok(name) => Ok(Hook { name, id: h.id, userdata: event.reply_userdata }),
                    Err(e) => Err(e),
                }
            },
            _ => Err(Error::pointer()),
        }
    }
}


/// The events that the event queue hands out.
///
/// Some only tell that something happened; others carry details, and some
/// answer a request.
#[derive(Debug, PartialEq)]
pub enum Event {
    /// Nothing happened: the wait timed out or was woken up.
    Nothing,
    /// The player quits.
    Shutdown,
    /// A log message that matches the requested level.
    LogMessage(LogMessage),
    /// Reply to a request to get a property.
    GetPropertyReply(GetPropertyReply),
    /// Reply to a request to set a property.
    SetPropertyReply(SetPropertyReply),
    /// Reply to a command.
    CommandReply(CommandReply),
    /// A file is about to be loaded.
    StartFile(StartFile),
    /// Playback of a file ended.
    EndFile(EndFile),
    /// The file was loaded and decoding starts.
    FileLoaded,
    /// Idle mode was entered.
    Idle,
    /// A video frame was displayed.
    Tick,
    /// A message from another client.
    ClientMessage(ClientMessage),
    /// The video was reconfigured.
    VideoReconfig,
    /// The audio was reconfigured.
    AudioReconfig,
    /// A seek was started.
    Seek,
    /// Playback was reinitialized after a discontinuity.
    PlaybackRestart,
    /// An observed property changed.
    PropertyChange(PropertyChange),
    /// The event queue overflowed and events were dropped.
    QueueOverflow,
    /// A hook was invoked and waits to be continued.
    Hook(Hook),
}

impl Event {
    /// The fault in an event structure, if there is one.
    pub open spec fn payload_fault(mem: Memory, event: RawEvent) -> Option<Fault> {
        let id = event.event_id;
        if id == raw::MPV_EVENT_LOG_MESSAGE {
            LogMessage::fault(mem, event)
        } else if id == raw::MPV_EVENT_GET_PROPERTY_REPLY {
            GetPropertyReply::fault(mem, event)
        } else if id == raw::MPV_EVENT_COMMAND_REPLY {
            CommandReply::fault(mem, event)
        } else if id == raw::MPV_EVENT_START_FILE {
            StartFile::fault(mem, event)
        } else if id == raw::MPV_EVENT_END_FILE {
            EndFile::fault(mem, event)
        } else if id == raw::MPV_EVENT_CLIENT_MESSAGE {
            ClientMessage::fault(mem, event)
        } else if id == raw::MPV_EVENT_PROPERTY_CHANGE {
            PropertyChange::fault(mem, event)
        } else if id == raw::MPV_EVENT_HOOK {
            Hook::fault(mem, event)
        } else if id == raw::MPV_EVENT_NONE || id == raw::MPV_EVENT_SHUTDOWN || id
            == raw::MPV_EVENT_SET_PROPERTY_REPLY || id
            == raw::MPV_EVENT_FILE_LOADED || id == raw::MPV_EVENT_IDLE || id
            == raw::MPV_EVENT_TICK || id == raw::MPV_EVENT_VIDEO_RECONFIG || id
            == raw::MPV_EVENT_AUDIO_RECONFIG || id == raw::MPV_EVENT_SEEK || id
            == raw::MPV_EVENT_PLAYBACK_RESTART || id == raw::MPV_EVENT_QUEUE_OVERFLOW {
            None
        } else {
            Some(Fault::Unrecognized)
        }
    }

    /// Whether this is the event that an event structure holds.
    pub open spec fn holds(self, mem: Memory, event: RawEvent) -> bool {
        let id = event.event_id;
        match self {
            Event::Nothing => id == raw::MPV_EVENT_NONE,
            Event::Shutdown => id == raw::MPV_EVENT_SHUTDOWN,
            Event::LogMessage(m) => id == raw::MPV_EVENT_LOG_MESSAGE && m.is(mem, event),
            Event::GetPropertyReply(m) => id == raw::MPV_EVENT_GET_PROPERTY_REPLY && m.is(
                mem,
                event,
            ),
            Event::SetPropertyReply(m) => id == raw::MPV_EVENT_SET_PROPERTY_REPLY && m.is(event),
            Event::CommandReply(m) => id == raw::MPV_EVENT_COMMAND_REPLY && m.is(mem, event),
            Event::StartFile(m) => id == raw::MPV_EVENT_START_FILE && m.is(mem, event),
            Event::EndFile(m) => id == raw::MPV_EVENT_END_FILE && m.is(mem, event),
            Event::FileLoaded => id == raw::MPV_EVENT_FILE_LOADED,
            Event::Idle => id == raw::MPV_EVENT_IDLE,
            Event::Tick => id == raw::MPV_EVENT_TICK,
            Event::ClientMessage(m) => id == raw::MPV_EVENT_CLIENT_MESSAGE && m.is(mem, event),
            Event::VideoReconfig => id == raw::MPV_EVENT_VIDEO_RECONFIG,
            Event::AudioReconfig => id == raw::MPV_EVENT_AUDIO_RECONFIG,
            Event::Seek => id == raw::MPV_EVENT_SEEK,
            Event::PlaybackRestart => id == raw::MPV_EVENT_PLAYBACK_RESTART,
            Event::PropertyChange(m) => id == raw::MPV_EVENT_PROPERTY_CHANGE && m.is(mem, event),
            Event::QueueOverflow => id == raw::MPV_EVENT_QUEUE_OVERFLOW,
            Event::Hook(m) => id == raw::MPV_EVENT_HOOK && m.is(mem, event),
        }
    }

    /// The fault behind a pointer to an event structure, if there is one.
    pub open spec fn fault(mem: Memory, ptr: Addr) -> Option<Fault> {
        match mem.block_at(ptr, usize::MAX) {
            Some(Block::Event(event)) => Event::payload_fault(mem, event),
            _ => Some(Fault::Pointer),
        }
    }

    /// Whether this is the event behind a pointer to an event structure.
    pub open spec fn is(self, mem: Memory, ptr: Addr) -> bool {
        mem.block_at(ptr, usize::MAX) matches Some(Block::Event(event)) && self.holds(mem, event)
    }

    /// Reads an event structure, whatever it holds. Returns nothing where
    /// the event, or a field of what belongs to it, has a value that the
    /// interface does not define.
    pub fn try_from_raw(mem: &Memory, event: &RawEvent) -> (r: Option<Result<Event, Error>>)
        ensures
            tried_as(r, Event::payload_fault(*mem, *event), |e: Event| e.holds(*mem, *event)),
    {
        let id = event.event_id;
        if id == raw::MPV_EVENT_NONE {
            Some(Ok(Event::Nothing))
        } else if id == raw::MPV_EVENT_SHUTDOWN {
            Some(Ok(Event::Shutdown))
        } else if id == raw::MPV_EVENT_LOG_MESSAGE {
            match LogMessage::try_from_event(mem, event) {
                Some(Ok(m)) => Some(Ok(Event::LogMessage(m))),
                Some(Err(e)) => Some(Err(e)),
                None => None,
            }
        } else if id == raw::MPV_EVENT_GET_PROPERTY_REPLY {
            match GetPropertyReply::try_from_event(mem, event) {
                Some(Ok(m)) => Some(Ok(Event::GetPropertyReply(m))),
                Some(Err(e)) => Some(Err(e)),
                None => None,
            }
        } else if id == raw::MPV_EVENT_SET_PROPERTY_REPLY {
            match SetPropertyReply::from_event(event) {
                Ok(m) => Some(Ok(Event::SetPropertyReply(m))),
                Err(e) => Some(Err(e)),
            }
        } else if id == raw::MPV_EVENT_COMMAND_REPLY {
            match CommandReply::try_from_event(mem, event) {
                Some(Ok(m)) => Some(Ok(Event::CommandReply(m))),
                Some(Err(e)) => Some(Err(e)),
                None => None,
            }
        } else if id == raw::MPV_EVENT_START_FILE {
            match StartFile::from_event(mem, event) {
                Ok(m) => Some(Ok(Event::StartFile(m))),
                Err(e) => Some(Err(e)),
            }
        } else if id == raw::MPV_EVENT_END_FILE {
            match EndFile::try_from_event(mem, event) {
                Some(Ok(m)) => Some(Ok(Event::EndFile(m))),
                Some(Err(e)) => Some(Err(e)),
                None => None,
            }
        } else if id == raw::MPV_EVENT_FILE_LOADED {
            Some(Ok(Event::FileLoaded))
        } else if id == raw::MPV_EVENT_IDLE {
            Some(Ok(Event::Idle))
        } else if id == raw::MPV_EVENT_TICK {
            Some(Ok(Event::Tick))
        } else if id == raw::MPV_EVENT_CLIENT_MESSAGE {
            match ClientMessage::from_event(mem, event) {
                Ok(m) => Some(Ok(Event::ClientMessage(m))),
                Err(e) => Some(Err(e)),
            }
        } else if id == raw::MPV_EVENT_VIDEO_RECONFIG {
            Some(Ok(Event::VideoReconfig))
        } else if id == raw::MPV_EVENT_AUDIO_RECONFIG {
            Some(Ok(Event::AudioReconfig))
        } else if id == raw::MPV_EVENT_SEEK {
            Some(Ok(Event::Seek))
        } else if id == raw::MPV_EVENT_PLAYBACK_RESTART {
            Some(Ok(Event::PlaybackRestart))
        } else if id == raw::MPV_EVENT_PROPERTY_CHANGE {
            match PropertyChange::try_from_event(mem, event) {
                Some(Ok(m)) => Some(Ok(Event::PropertyChange(m))),
                Some(Err(e)) => Some(Err(e)),
                None => None,
            }
        } else if id == raw::MPV_EVENT_QUEUE_OVERFLOW {
            Some(Ok(Event::QueueOverflow))
        } else if id == raw::MPV_EVENT_HOOK {
            match Hook::from_event(mem, event) {
                Ok(m) => Some(Ok(Event::Hook(m))),
                Err(e) => Some(Err(e)),
            }
        } else {
            None
        }
    }

    /// Reads the event behind a pointer to an event structure, whatever it
    /// holds. Returns nothing where the event, or a field of what belongs
    /// to it, has a value that the interface does not define.
    pub fn try_from_ptr(mem: &Memory, ptr: Addr) -> (r: Option<Result<Event, Error>>)
        ensures
            tried_as(r, Event::fault(*mem, ptr), |e: Event| e.is(*mem, ptr)),
    {
        match mem.get(ptr, usize::MAX) {
            Some(Block::Event(event)) => Event::try_from_raw(mem, event),
            _ => Some(Err(Error::pointer())),
        }
    }

    /// Reads an event structure.
    pub fn from_raw(mem: &Memory, event: &RawEvent) -> (r: Result<Event, Error>)
        requires
            Event::payload_fault(*mem, *event) != Some(Fault::Unrecognized),
        ensures
            read_as(r, Event::payload_fault(*mem, *event), |e: Event| e.holds(*mem, *event)),
    {
        match Event::try_from_raw(mem, event) {
            Some(r) => r,
            None => {
                proof {
                    assert(false);
                }
                Err(Error::pointer())
            },
        }
    }

    /// Reads the event behind a pointer to an event structure.
    pub fn from_ptr(mem: &Memory, ptr: Addr) -> (r: Result<Event, Error>)
        requires
            Event::fault(*mem, ptr) != Some(Fault::Unrecognized),
        ensures
            read_as(r, Event::fault(*mem, ptr), |e: Event| e.is(*mem, ptr)),
    {
        match Event::try_from_ptr(mem, ptr) {
            Some(r) => r,
            None => {
                proof {
                    assert(false);
                }
                Err(Error::pointer())
            },
        }
    }
}

} // verus!
