use libmpv_client::error::{Error, RustError};
use libmpv_client::event::{
    ClientMessage, CommandReply, EndFile, EndFileReason, Event, EventId, GetPropertyReply, Hook,
    LogLevel, LogMessage, PropertyChange, PropertyValue, SetPropertyReply, StartFile,
};
use libmpv_client::memory::{
    Addr, Block, Memory, RawByteArray, RawClientMessage, RawEndFile, RawEvent, RawEventProperty,
    RawHook, RawLogMessage, RawNode, RawNodeList, RawStartFile,
};
use libmpv_client::raw::{
    MPV_FORMAT_BYTE_ARRAY, MPV_FORMAT_DOUBLE, MPV_FORMAT_FLAG, MPV_FORMAT_INT64, MPV_FORMAT_NODE,
    MPV_FORMAT_NODE_ARRAY, MPV_FORMAT_NODE_MAP, MPV_FORMAT_NONE, MPV_FORMAT_OSD_STRING,
    MPV_FORMAT_STRING,
};
use libmpv_client::{Double, Format, MpvRecv, Node, NodeMap, OsdString};

fn text(mem: &mut Memory, text: &str) -> Addr {
    let mut bytes = text.as_bytes().to_vec();
    bytes.push(0);
    mem.allocate(Block::Bytes(bytes))
}

fn event(event_id: u32, error: i32, reply_userdata: u64, data: Addr) -> RawEvent {
    RawEvent { event_id, error, reply_userdata, data }
}

fn pointer_error<T: std::fmt::Debug>(r: Result<T, Error>) -> bool {
    matches!(r, Err(Error::Rust(RustError::Pointer(None))))
}

#[test]
fn events_without_details() {
    let mem = Memory::new();
    let plain = [
        (0, Event::Nothing),
        (1, Event::Shutdown),
        (8, Event::FileLoaded),
        (11, Event::Idle),
        (14, Event::Tick),
        (17, Event::VideoReconfig),
        (18, Event::AudioReconfig),
        (20, Event::Seek),
        (21, Event::PlaybackRestart),
        (24, Event::QueueOverflow),
    ];
    for (id, expected) in plain {
        assert_eq!(Event::from_raw(&mem, &event(id, 0, 0, 0)).unwrap(), expected);
    }
}

#[test]
fn an_event_is_read_through_its_pointer() {
    let mut mem = Memory::new();
    let start = mem.allocate(Block::StartFile(RawStartFile { playlist_entry_id: 12 }));
    let ptr = mem.allocate(Block::Event(event(6, 0, 0, start)));
    assert_eq!(
        Event::from_ptr(&mem, ptr).unwrap(),
        Event::StartFile(StartFile { playlist_entry_id: 12 })
    );
    assert!(pointer_error(Event::from_ptr(&mem, 0)));
    assert!(pointer_error(Event::from_ptr(&mem, start)));
}

#[test]
fn event_identifiers() {
    let ids = [
        (EventId::Shutdown, 1),
        (EventId::LogMessage, 2),
        (EventId::GetPropertyReply, 3),
        (EventId::SetPropertyReply, 4),
        (EventId::CommandReply, 5),
        (EventId::StartFile, 6),
        (EventId::EndFile, 7),
        (EventId::FileLoaded, 8),
        (EventId::Idle, 11),
        (EventId::Tick, 14),
        (EventId::ClientMessage, 16),
        (EventId::VideoReconfig, 17),
        (EventId::AudioReconfig, 18),
        (EventId::Seek, 20),
        (EventId::PlaybackRestart, 21),
        (EventId::PropertyChange, 22),
        (EventId::QueueOverflow, 24),
        (EventId::Hook, 25),
    ];
    for (id, number) in ids {
        assert_eq!(id.to_id(), number);
    }
}

#[test]
fn log_levels() {
    let levels = [
        (LogLevel::Disabled, "no", None),
        (LogLevel::Fatal, "fatal", Some(10)),
        (LogLevel::Error, "error", Some(20)),
        (LogLevel::Warn, "warn", Some(30)),
        (LogLevel::Info, "info", Some(40)),
        (LogLevel::Verbose, "v", Some(50)),
        (LogLevel::Debug, "debug", Some(60)),
        (LogLevel::Trace, "trace", Some(70)),
    ];
    for (level, name, number) in levels {
        assert_eq!(level.to_cstr(), name);
        if let Some(number) = number {
            assert_eq!(LogLevel::from_number(number), Some(level));
        }
    }
    assert_eq!(LogLevel::from_number(0), None);
    assert_eq!(LogLevel::from_number(15), None);
}

#[test]
fn log_message() {
    let mut mem = Memory::new();
    let prefix = text(&mut mem, "cplayer");
    let level = text(&mut mem, "warn");
    let message = text(&mut mem, "something\n");
    let data = mem.allocate(Block::LogMessage(RawLogMessage {
        prefix,
        level,
        text: message,
        log_level: 30,
    }));
    let r = Event::from_raw(&mem, &event(2, 0, 0, data)).unwrap();
    assert_eq!(
        r,
        Event::LogMessage(LogMessage {
            level: LogLevel::Warn,
            prefix: "cplayer".to_string(),
            text: "something\n".to_string(),
        })
    );

    assert!(pointer_error(LogMessage::from_event(&mem, &event(2, 0, 0, 0))));
    let no_prefix = mem.allocate(Block::LogMessage(RawLogMessage {
        prefix: 0,
        level,
        text: message,
        log_level: 10,
    }));
    assert!(pointer_error(LogMessage::from_event(&mem, &event(2, 0, 0, no_prefix))));
    let bad = mem.allocate(Block::Bytes(vec![0xc0, 0]));
    let bad_text = mem.allocate(Block::LogMessage(RawLogMessage {
        prefix,
        level,
        text: bad,
        log_level: 70,
    }));
    assert!(matches!(
        LogMessage::from_event(&mem, &event(2, 0, 0, bad_text)),
        Err(Error::Rust(RustError::InvalidUtf8(_)))
    ));
}

#[test]
fn get_property_reply() {
    let mut mem = Memory::new();
    let name = text(&mut mem, "volume");
    let value = mem.allocate(Block::Int64(55));
    let data = mem.allocate(Block::Property(RawEventProperty {
        name,
        format: MPV_FORMAT_INT64,
        data: value,
    }));
    assert_eq!(
        GetPropertyReply::from_event(&mem, &event(3, 0, 77, data)).unwrap(),
        GetPropertyReply {
            value: Ok(PropertyValue::Int64(55)),
            name: "volume".to_string(),
            userdata: 77
        }
    );
    assert_eq!(
        GetPropertyReply::from_event(&mem, &event(3, -8, 78, data)).unwrap(),
        GetPropertyReply {
            value: Err(Error::PropertyNotFound),
            name: "volume".to_string(),
            userdata: 78
        }
    );
    let dangling = mem.allocate(Block::Property(RawEventProperty {
        name,
        format: MPV_FORMAT_FLAG,
        data: 0,
    }));
    assert_eq!(
        GetPropertyReply::from_event(&mem, &event(3, 0, 1, dangling)).unwrap(),
        GetPropertyReply {
            value: Err(Error::Rust(RustError::Pointer(None))),
            name: "volume".to_string(),
            userdata: 1
        }
    );
    let unnamed = mem.allocate(Block::Property(RawEventProperty {
        name: 0,
        format: MPV_FORMAT_NONE,
        data: 0,
    }));
    assert!(pointer_error(GetPropertyReply::from_event(&mem, &event(3, 0, 1, unnamed))));
    assert!(pointer_error(GetPropertyReply::from_event(&mem, &event(3, 0, 1, 0))));
}

#[test]
fn set_property_reply() {
    assert_eq!(
        SetPropertyReply::from_event(&event(4, 0, 5, 0)).unwrap(),
        SetPropertyReply { error: Ok(0), userdata: 5 }
    );
    assert_eq!(
        SetPropertyReply::from_event(&event(4, 3, 5, 0)).unwrap(),
        SetPropertyReply { error: Ok(3), userdata: 5 }
    );
    assert_eq!(
        SetPropertyReply::from_event(&event(4, -9, 6, 0)).unwrap(),
        SetPropertyReply { error: Err(Error::PropertyFormat), userdata: 6 }
    );
}

#[test]
fn command_reply() {
    let mut mem = Memory::new();
    let s = text(&mut mem, "done");
    let data = mem.allocate(Block::Nodes(vec![RawNode { format: MPV_FORMAT_STRING, u: s as u64 }]));
    assert_eq!(
        CommandReply::from_event(&mem, &event(5, 0, 9, data)).unwrap(),
        CommandReply { result: Ok(Node::String("done".to_string())), userdata: 9 }
    );
    assert_eq!(
        CommandReply::from_event(&mem, &event(5, -12, 9, data)).unwrap(),
        CommandReply { result: Err(Error::Command), userdata: 9 }
    );
    assert!(pointer_error(CommandReply::from_event(&mem, &event(5, 0, 9, 0))));
}

#[test]
fn client_message() {
    let mut mem = Memory::new();
    let a = text(&mut mem, "key-binding");
    let b = text(&mut mem, "d-");
    let args = mem.allocate(Block::Pointers(vec![a, b]));
    let data = mem.allocate(Block::ClientMessage(RawClientMessage { num_args: 2, args }));
    assert_eq!(
        ClientMessage::from_event(&mem, &event(16, 0, 0, data)).unwrap(),
        ClientMessage(vec!["key-binding".to_string(), "d-".to_string()])
    );
    let one = mem.allocate(Block::ClientMessage(RawClientMessage { num_args: 1, args }));
    assert_eq!(
        ClientMessage::from_event(&mem, &event(16, 0, 0, one)).unwrap(),
        ClientMessage(vec!["key-binding".to_string()])
    );
    for num_args in [-1, 3] {
        let bad = mem.allocate(Block::ClientMessage(RawClientMessage { num_args, args }));
        assert!(pointer_error(ClientMessage::from_event(&mem, &event(16, 0, 0, bad))));
    }
    let no_args = mem.allocate(Block::ClientMessage(RawClientMessage { num_args: 0, args: 0 }));
    assert!(pointer_error(ClientMessage::from_event(&mem, &event(16, 0, 0, no_args))));
    let null_arg = mem.allocate(Block::Pointers(vec![a, 0]));
    let bad = mem.allocate(Block::ClientMessage(RawClientMessage { num_args: 2, args: null_arg }));
    assert!(pointer_error(ClientMessage::from_event(&mem, &event(16, 0, 0, bad))));
}

#[test]
fn start_and_end_file() {
    let mut mem = Memory::new();
    let start = mem.allocate(Block::StartFile(RawStartFile { playlist_entry_id: 4 }));
    assert_eq!(
        StartFile::from_event(&mem, &event(6, 0, 0, start)).unwrap(),
        StartFile { playlist_entry_id: 4 }
    );
    assert!(pointer_error(StartFile::from_event(&mem, &event(6, 0, 0, 0))));

    let reasons = [
        (0, 0, EndFileReason::Eof),
        (2, 0, EndFileReason::Stop),
        (3, 0, EndFileReason::Quit),
        (4, -13, EndFileReason::Error(Error::LoadingFailed)),
        (4, 0, EndFileReason::Error(Error::Success(0))),
        (5, 0, EndFileReason::Redirect),
    ];
    for (reason, error, expected) in reasons {
        let end = mem.allocate(Block::EndFile(RawEndFile {
            reason,
            error,
            playlist_entry_id: 1,
            playlist_insert_id: 2,
            playlist_insert_num_entries: 3,
        }));
        assert_eq!(
            EndFile::from_event(&mem, &event(7, 0, 0, end)).unwrap(),
            EndFile {
                reason: expected,
                playlist_entry_id: 1,
                playlist_insert_id: 2,
                playlist_insert_num_entries: 3
            }
        );
    }
    assert!(pointer_error(EndFile::from_event(&mem, &event(7, 0, 0, start))));
    assert_eq!(EndFileReason::from_number(1, 0), None);
    assert_eq!(
        EndFileReason::from_number(4, -21),
        Some(EndFileReason::Error(Error::Undefined(-21)))
    );
    assert_eq!(EndFileReason::from_number(0, -21), Some(EndFileReason::Eof));
}

#[test]
fn property_change_and_hook() {
    let mut mem = Memory::new();
    let name = text(&mut mem, "pause");
    let flag = mem.allocate(Block::Flag(1));
    let data = mem.allocate(Block::Property(RawEventProperty {
        name,
        format: MPV_FORMAT_FLAG,
        data: flag,
    }));
    assert_eq!(
        Event::from_raw(&mem, &event(22, 0, 3, data)).unwrap(),
        Event::PropertyChange(PropertyChange {
            name: "pause".to_string(),
            value: Ok(PropertyValue::Flag(true)),
            userdata: 3
        })
    );
    let none = mem.allocate(Block::Property(RawEventProperty {
        name,
        format: MPV_FORMAT_NONE,
        data: 0,
    }));
    assert_eq!(
        PropertyChange::from_event(&mem, &event(22, 0, 3, none)).unwrap(),
        PropertyChange { name: "pause".to_string(), value: Ok(PropertyValue::Empty), userdata: 3 }
    );

    let hook_name = text(&mut mem, "on_load");
    let hook = mem.allocate(Block::Hook(RawHook { name: hook_name, id: 10 }));
    assert_eq!(
        Event::from_raw(&mem, &event(25, 0, 8, hook)).unwrap(),
        Event::Hook(Hook { name: "on_load".to_string(), id: 10, userdata: 8 })
    );
    let unnamed = mem.allocate(Block::Hook(RawHook { name: 0, id: 10 }));
    assert!(pointer_error(Hook::from_event(&mem, &event(25, 0, 8, unnamed))));
}

#[test]
fn property_values_of_every_format() {
    let mut mem = Memory::new();
    let s = text(&mut mem, "str");
    let cell = mem.allocate(Block::Pointers(vec![s]));
    let flag = mem.allocate(Block::Flag(0));
    let int = mem.allocate(Block::Int64(-3));
    let dbl = mem.allocate(Block::Double(0.5f64.to_bits()));
    let nodes = mem.allocate(Block::Nodes(vec![RawNode { format: MPV_FORMAT_INT64, u: 8 }]));
    let key = text(&mut mem, "k");
    let keys = mem.allocate(Block::Pointers(vec![key]));
    let list = mem.allocate(Block::NodeList(RawNodeList { num: 1, values: nodes, keys }));
    let bytes = mem.allocate(Block::Bytes(vec![4, 5]));
    let ba = mem.allocate(Block::ByteArray(RawByteArray { data: bytes, size: 2 }));

    let read = |format, data| PropertyValue::from_mpv(&mem, format, data).unwrap();
    assert_eq!(read(MPV_FORMAT_NONE, 0), PropertyValue::Empty);
    assert_eq!(read(MPV_FORMAT_STRING, cell), PropertyValue::String("str".to_string()));
    assert_eq!(
        read(MPV_FORMAT_OSD_STRING, cell),
        PropertyValue::OsdString(OsdString("str".to_string()))
    );
    assert_eq!(read(MPV_FORMAT_FLAG, flag), PropertyValue::Flag(false));
    assert_eq!(read(MPV_FORMAT_INT64, int), PropertyValue::Int64(-3));
    assert_eq!(
        read(MPV_FORMAT_DOUBLE, dbl),
        PropertyValue::Double(Double::from_bits(0.5f64.to_bits()))
    );
    assert_eq!(read(MPV_FORMAT_NODE, nodes), PropertyValue::Node(Node::Int64(8)));
    assert_eq!(read(MPV_FORMAT_NODE_ARRAY, list), PropertyValue::NodeArray(vec![Node::Int64(8)]));
    assert_eq!(
        read(MPV_FORMAT_NODE_MAP, list),
        PropertyValue::NodeMap(NodeMap::from_entries(vec![("k".to_string(), Node::Int64(8))]))
    );
    assert_eq!(read(MPV_FORMAT_BYTE_ARRAY, ba), PropertyValue::ByteArray(vec![4, 5]));
    assert!(pointer_error(PropertyValue::from_mpv(&mem, MPV_FORMAT_STRING, 0)));
}

#[test]
fn values_that_the_interface_does_not_define_are_told_apart_from_errors() {
    let mut mem = Memory::new();
    assert_eq!(Event::try_from_raw(&mem, &event(9, 0, 0, 0)), None);
    assert_eq!(Event::try_from_raw(&mem, &event(26, 0, 0, 0)), None);
    assert_eq!(Event::try_from_raw(&mem, &event(1, 0, 0, 0)), Some(Ok(Event::Shutdown)));
    assert_eq!(
        SetPropertyReply::from_event(&event(4, -21, 0, 0)),
        Ok(SetPropertyReply { error: Err(Error::Undefined(-21)), userdata: 0 })
    );
    assert_eq!(
        Event::try_from_raw(&mem, &event(4, i32::MIN, 2, 0)),
        Some(Ok(Event::SetPropertyReply(SetPropertyReply {
            error: Err(Error::Undefined(i32::MIN)),
            userdata: 2
        })))
    );
    assert_eq!(
        SetPropertyReply::from_event(&event(4, -20, 1, 0)),
        Ok(SetPropertyReply { error: Err(Error::Generic), userdata: 1 })
    );

    let t = text(&mut mem, "t");
    let message = mem.allocate(Block::LogMessage(RawLogMessage {
        prefix: t,
        level: t,
        text: t,
        log_level: 0,
    }));
    assert_eq!(LogMessage::try_from_event(&mem, &event(2, 0, 0, message)), None);
    assert!(matches!(
        LogMessage::try_from_event(&mem, &event(2, 0, 0, 0)),
        Some(Err(Error::Rust(RustError::Pointer(None))))
    ));

    let end = mem.allocate(Block::EndFile(RawEndFile {
        reason: 1,
        error: 0,
        playlist_entry_id: 0,
        playlist_insert_id: 0,
        playlist_insert_num_entries: 0,
    }));
    assert_eq!(EndFile::try_from_event(&mem, &event(7, 0, 0, end)), None);

    let property = mem.allocate(Block::Property(RawEventProperty { name: t, format: 10, data: 0 }));
    assert_eq!(GetPropertyReply::try_from_event(&mem, &event(3, 0, 0, property)), None);
    assert_eq!(PropertyChange::try_from_event(&mem, &event(22, 0, 0, property)), None);
    assert_eq!(
        GetPropertyReply::try_from_event(&mem, &event(3, -99, 4, property)),
        Some(Ok(GetPropertyReply {
            value: Err(Error::Undefined(-99)),
            name: "t".to_string(),
            userdata: 4
        }))
    );
    assert_eq!(
        CommandReply::try_from_event(&mem, &event(5, -21, 6, property)),
        Some(Err(Error::Rust(RustError::Pointer(None))))
    );
    assert_eq!(
        GetPropertyReply::try_from_event(&mem, &event(3, -1, 4, property)),
        Some(Ok(GetPropertyReply {
            value: Err(Error::EventQueueFull),
            name: "t".to_string(),
            userdata: 4
        }))
    );
    assert_eq!(PropertyValue::try_from_mpv(&mem, 10, 0), None);
    assert_eq!(PropertyValue::try_from_mpv(&mem, 0, 0), Some(Ok(PropertyValue::Empty)));

    let odd = mem.allocate(Block::Nodes(vec![RawNode { format: MPV_FORMAT_OSD_STRING, u: 0 }]));
    assert_eq!(CommandReply::try_from_event(&mem, &event(5, 0, 0, odd)), None);
    assert_eq!(
        CommandReply::try_from_event(&mem, &event(5, -30, 7, odd)),
        Some(Ok(CommandReply { result: Err(Error::Undefined(-30)), userdata: 7 }))
    );
    assert_eq!(PropertyValue::try_from_mpv(&mem, MPV_FORMAT_NODE, odd), None);
    let ptr = mem.allocate(Block::Event(event(5, 0, 0, odd)));
    assert_eq!(Event::try_from_ptr(&mem, ptr), None);
    assert!(matches!(
        Event::try_from_ptr(&mem, 0),
        Some(Err(Error::Rust(RustError::Pointer(None))))
    ));
}

#[test]
fn property_values_are_sent_in_their_format() {
    let values = vec![
        (PropertyValue::Empty, Format::Empty),
        (PropertyValue::String("s".to_string()), Format::String),
        (PropertyValue::OsdString(OsdString("o".to_string())), Format::OsdString),
        (PropertyValue::Flag(true), Format::Flag),
        (PropertyValue::Int64(-4), Format::Int64),
        (PropertyValue::Double(Double::from_bits(3)), Format::Double),
        (PropertyValue::Node(Node::Array(vec![Node::Flag(false)])), Format::Node),
        (PropertyValue::NodeArray(vec![Node::Int64(1)]), Format::NodeArray),
        (
            PropertyValue::NodeMap(NodeMap::from_entries(vec![("k".to_string(), Node::Empty)])),
            Format::NodeMap,
        ),
        (PropertyValue::ByteArray(vec![1, 2, 3]), Format::ByteArray),
    ];
    for (value, format) in values {
        assert_eq!(value.format(), format);
        let r = value.to_mpv(|mem: &Memory, ptr: Addr| {
            assert_eq!(PropertyValue::from_mpv(mem, format.to_id(), ptr).unwrap(), value);
            Ok(format.to_id() as i32)
        });
        assert_eq!(r, Ok(format.to_id() as i32));
    }
    let r = PropertyValue::Empty.to_mpv(|mem: &Memory, ptr: Addr| {
        assert_eq!(ptr, 0);
        assert!(mem.blocks.is_empty());
        Err(Error::PropertyFormat)
    });
    assert_eq!(r, Err(Error::PropertyFormat));
    let r = PropertyValue::OsdString(OsdString("a\0".to_string()))
        .to_mpv(|_mem: &Memory, _ptr: Addr| Ok(0));
    assert_eq!(r, Err(Error::Rust(RustError::InteriorNull(1))));
    assert_eq!(bool::from_ptr(&Memory::new(), 1).is_err(), true);
}
