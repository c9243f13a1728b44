use std::cell::Cell;

use libmpv_client::error::{Error, RustError};
use libmpv_client::event::{Event, EventId, LogLevel};
use libmpv_client::handle::{write_args, Client, Handle};
use libmpv_client::memory::{Addr, Block, Memory, RawEvent, RawNode};
use libmpv_client::raw::{MPV_FORMAT_NODE_ARRAY, MPV_FORMAT_STRING};
use libmpv_client::{Format, MpvRecv, Node, OsdString};

const ANY: Addr = usize::MAX;

fn text(mem: &mut Memory, text: &str) -> Addr {
    let mut bytes = text.as_bytes().to_vec();
    bytes.push(0);
    mem.allocate(Block::Bytes(bytes))
}

fn strings(items: &[&str]) -> Vec<String> {
    items.iter().map(|s| s.to_string()).collect()
}

#[test]
fn a_handle_keeps_its_address() {
    let handle = Handle::from_ptr(0x5000);
    assert_eq!(handle.as_ptr(), 0x5000);
    assert_eq!(Client(Handle::from_ptr(3)).handle().as_ptr(), 3);
}

#[test]
fn named_requests_hand_over_a_terminated_name() {
    let handle = Handle::from_ptr(9);
    let check = |h: Addr, name: &Vec<u8>| {
        assert_eq!(h, 9);
        assert_eq!(name, b"name\0");
        0
    };
    assert_eq!(handle.request_named("name", check), Ok(()));
    assert_eq!(handle.load_config_file("name", check), Ok(()));
    assert_eq!(handle.command_string("name", check), Ok(()));
    assert_eq!(handle.del_property("name", check), Ok(()));
    assert_eq!(handle.del_property("name", |_h: Addr, _n: &Vec<u8>| 5), Ok(()));
    assert_eq!(
        handle.del_property("name", |_h: Addr, _n: &Vec<u8>| -8),
        Err(Error::PropertyNotFound)
    );
    assert_eq!(
        handle.load_config_file("name", |_h: Addr, _n: &Vec<u8>| -4),
        Err(Error::InvalidParameter)
    );
}

#[test]
fn a_name_with_a_nul_byte_is_refused_before_the_call() {
    let handle = Handle::from_ptr(9);
    let called = Cell::new(false);
    let r = handle.del_property("na\0me", |_h: Addr, _n: &Vec<u8>| {
        called.set(true);
        0
    });
    assert_eq!(r, Err(Error::Rust(RustError::InteriorNull(2))));
    let r = handle.set_property("\0", 5i64, |_h: Addr, _n: &Vec<u8>, _f: u32, _m: &Memory, _p: Addr| {
        called.set(true);
        0
    });
    assert_eq!(r, Err(Error::Rust(RustError::InteriorNull(0))));
    let r = handle.set_property(
        "name",
        "val\0ue",
        |_h: Addr, _n: &Vec<u8>, _f: u32, _m: &Memory, _p: Addr| {
            called.set(true);
            0
        },
    );
    assert_eq!(r, Err(Error::Rust(RustError::InteriorNull(3))));
    let mut mem = Memory::new();
    let r: Result<i64, Error> = handle.get_property(
        "a\0",
        &mut mem,
        |_h: Addr, _n: &Vec<u8>, _f: u32, m: Memory, c: i64| {
            called.set(true);
            (0, m, c)
        },
    );
    assert_eq!(r, Err(Error::Rust(RustError::InteriorNull(1))));
    let r = handle.command(&strings(&["ok", "b\0ad"]), |_h: Addr, _m: &Memory, _p: Addr| {
        called.set(true);
        0
    });
    assert_eq!(r, Err(Error::Rust(RustError::InteriorNull(1))));
    let r = handle.create_client("\0", |_h: Addr, _n: &Vec<u8>| {
        called.set(true);
        1
    });
    assert_eq!(r, Err(Error::Rust(RustError::InteriorNull(0))));
    let r = handle.hook_add(0, "x\0", 0, |_h: Addr, _u: u64, _n: &Vec<u8>, _p: i32| {
        called.set(true);
        0
    });
    assert_eq!(r, Err(Error::Rust(RustError::InteriorNull(1))));
    let r = handle.observe_property("\0", Format::Flag, 0, |_h: Addr, _u: u64, _n: &Vec<u8>, _f: u32| {
        called.set(true);
        0
    });
    assert_eq!(r, Err(Error::Rust(RustError::InteriorNull(0))));
    assert!(!called.get());
}

#[test]
fn set_property_hands_over_the_format_and_the_shape() {
    let handle = Handle::from_ptr(1);
    let r = handle.set_property(
        "title",
        OsdString("hi".to_string()),
        |h: Addr, name: &Vec<u8>, format: u32, mem: &Memory, ptr: Addr| {
            assert_eq!(h, 1);
            assert_eq!(name, b"title\0");
            assert_eq!(format, 2);
            assert_eq!(String::from_ptr(mem, ptr).unwrap(), "hi");
            3
        },
    );
    assert_eq!(r, Ok(()));
    let r = handle.set_option(
        "idle",
        true,
        |_h: Addr, name: &Vec<u8>, format: u32, mem: &Memory, ptr: Addr| {
            assert_eq!(name, b"idle\0");
            assert_eq!(format, 3);
            assert_eq!(mem.get(ptr, ANY), Some(&Block::Flag(1)));
            -7
        },
    );
    assert_eq!(r, Err(Error::OptionError));
    let r = handle.set_property(
        "n",
        Node::Array(vec![Node::Int64(1)]),
        |_h: Addr, _n: &Vec<u8>, format: u32, mem: &Memory, ptr: Addr| {
            assert_eq!(format, 6);
            assert_eq!(Node::from_ptr(mem, ptr).unwrap(), Node::Array(vec![Node::Int64(1)]));
            0
        },
    );
    assert_eq!(r, Ok(()));
}

#[test]
fn get_property_reads_what_the_core_filled_in() {
    let handle = Handle::from_ptr(1);
    let mut mem = Memory::new();
    let r: Result<i64, Error> = handle.get_property(
        "volume",
        &mut mem,
        |_h: Addr, name: &Vec<u8>, format: u32, m: Memory, cell: i64| {
            assert_eq!(name, b"volume\0");
            assert_eq!(format, 4);
            assert_eq!(cell, 0);
            (0, m, 70)
        },
    );
    assert_eq!(r, Ok(70));

    let r: Result<String, Error> = handle.get_property(
        "path",
        &mut mem,
        |_h: Addr, _n: &Vec<u8>, format: u32, mut m: Memory, cell: Addr| {
            assert_eq!(format, 1);
            assert_eq!(cell, 0);
            let s = text(&mut m, "/tmp/a");
            (0, m, s)
        },
    );
    assert_eq!(r, Ok("/tmp/a".to_string()));
    assert_eq!(mem.freed, vec![1]);

    let r: Result<String, Error> = handle.get_property(
        "path",
        &mut mem,
        |_h: Addr, _n: &Vec<u8>, _f: u32, m: Memory, cell: Addr| (-10, m, cell),
    );
    assert_eq!(r, Err(Error::PropertyUnavailable));
    assert_eq!(mem.freed, vec![1]);
}

#[test]
fn commands_hand_over_a_null_terminated_list() {
    let handle = Handle::from_ptr(4);
    let r = handle.command(
        &strings(&["seek", "10", "absolute"]),
        |h: Addr, mem: &Memory, ptr: Addr| {
            assert_eq!(h, 4);
            let list = match mem.get(ptr, ANY) {
                Some(Block::Pointers(list)) => list.clone(),
                other => panic!("no list: {other:?}"),
            };
            assert_eq!(list.len(), 4);
            assert_eq!(list[3], 0);
            assert_eq!(mem.get(list[0], ANY), Some(&Block::Bytes(b"seek\0".to_vec())));
            assert_eq!(mem.get(list[1], ANY), Some(&Block::Bytes(b"10\0".to_vec())));
            assert_eq!(mem.get(list[2], ANY), Some(&Block::Bytes(b"absolute\0".to_vec())));
            0
        },
    );
    assert_eq!(r, Ok(()));
    let r = handle.command(&strings(&[]), |_h: Addr, mem: &Memory, ptr: Addr| {
        assert_eq!(mem.get(ptr, ANY), Some(&Block::Pointers(vec![0])));
        -12
    });
    assert_eq!(r, Err(Error::Command));

    let mut mem = Memory::new();
    let ptr = write_args(&mut mem, &strings(&["a"])).unwrap();
    assert_eq!(ptr, 2);
    assert_eq!(mem.blocks.len(), 2);
}

#[test]
fn commands_with_a_result() {
    let handle = Handle::from_ptr(4);
    let mut mem = Memory::new();
    let r = handle.command_ret(
        &strings(&["expand-text", "x"]),
        &mut mem,
        |_h: Addr, args: &Memory, ptr: Addr, mut m: Memory, cell: RawNode| {
            assert_eq!(cell, RawNode { format: 0, u: 0 });
            assert!(matches!(args.get(ptr, ANY), Some(Block::Pointers(list)) if list.len() == 3));
            let s = text(&mut m, "expanded");
            (0, m, RawNode { format: MPV_FORMAT_STRING, u: s as u64 })
        },
    );
    assert_eq!(r, Ok(Node::String("expanded".to_string())));
    assert_eq!(mem.freed_nodes.len(), 1);

    let r = handle.command_node(
        Node::Array(vec![Node::text("frame-step"), Node::Int64(20)]),
        &mut mem,
        |_h: Addr, shape: &Memory, ptr: Addr, m: Memory, cell: RawNode| {
            let raw = match shape.get(ptr, ANY) {
                Some(Block::Nodes(nodes)) => nodes[0],
                other => panic!("no node: {other:?}"),
            };
            assert_eq!(raw.format, MPV_FORMAT_NODE_ARRAY);
            assert_eq!(
                Node::from_ptr(shape, ptr).unwrap(),
                Node::Array(vec![Node::text("frame-step"), Node::Int64(20)])
            );
            (0, m, cell)
        },
    );
    assert_eq!(r, Ok(Node::Empty));
    assert_eq!(mem.freed_nodes.len(), 2);

    let r = handle.command_ret(
        &strings(&["nope"]),
        &mut mem,
        |_h: Addr, _a: &Memory, _p: Addr, m: Memory, cell: RawNode| (-12, m, cell),
    );
    assert_eq!(r, Err(Error::Command));
    let r = handle.command_node(
        Node::text("a\0"),
        &mut mem,
        |_h: Addr, _a: &Memory, _p: Addr, m: Memory, cell: RawNode| (0, m, cell),
    );
    assert_eq!(r, Err(Error::Rust(RustError::InteriorNull(1))));
    assert_eq!(mem.freed_nodes.len(), 2);
}

#[test]
fn plain_requests() {
    let handle = Handle::from_ptr(2);
    assert_eq!(
        handle.observe_property(
            "pause",
            Format::Flag,
            11,
            |h: Addr, userdata: u64, name: &Vec<u8>, format: u32| {
                assert_eq!((h, userdata, format), (2, 11, 3));
                assert_eq!(name, b"pause\0");
                0
            }
        ),
        Ok(())
    );
    assert_eq!(handle.unobserve_property(11, |_h: Addr, u: u64| u as i32 - 9), Ok(2));
    assert_eq!(
        handle.unobserve_property(11, |_h: Addr, _u: u64| -2),
        Err(Error::NoMemory)
    );
    assert_eq!(
        handle.request_event(EventId::Tick, true, |_h: Addr, id: u32, enable: i32| {
            assert_eq!((id, enable), (14, 1));
            0
        }),
        Ok(())
    );
    assert_eq!(
        handle.request_event(EventId::Seek, false, |_h: Addr, id: u32, enable: i32| {
            assert_eq!((id, enable), (20, 0));
            -4
        }),
        Err(Error::InvalidParameter)
    );
    assert_eq!(
        handle.request_log_messages(LogLevel::Verbose, |_h: Addr, level: &Vec<u8>| {
            assert_eq!(level, b"v\0");
            0
        }),
        Ok(())
    );
    assert_eq!(
        handle.hook_add(5, "on_load", -1, |_h: Addr, u: u64, name: &Vec<u8>, priority: i32| {
            assert_eq!((u, priority), (5, -1));
            assert_eq!(name, b"on_load\0");
            0
        }),
        Ok(())
    );
    assert_eq!(handle.hook_continue(8, |_h: Addr, id: u64| id as i32), Ok(()));
    assert_eq!(handle.hook_continue(8, |_h: Addr, _id: u64| -20), Err(Error::Generic));
    assert_eq!(handle.hook_continue(8, |_h: Addr, _id: u64| -21), Err(Error::Undefined(-21)));
    assert_eq!(
        handle.unobserve_property(1, |_h: Addr, _u: u64| i32::MIN),
        Err(Error::Undefined(i32::MIN))
    );

    let client = handle
        .create_client("second", |h: Addr, name: &Vec<u8>| {
            assert_eq!(h, 2);
            assert_eq!(name, b"second\0");
            77
        })
        .unwrap();
    assert_eq!(client.handle().as_ptr(), 77);
    let weak = handle.create_weak_client("weak", |_h: Addr, _n: &Vec<u8>| 78).unwrap();
    assert_eq!(weak, Client(Handle::from_ptr(78)));
    assert_eq!(client.initialize(|h: Addr| (h as i32) - 77), Ok(()));
    assert_eq!(client.initialize(|_h: Addr| -3), Err(Error::Uninitialized));
}

#[test]
fn names_and_events_are_read_from_what_the_core_returned() {
    let handle = Handle::from_ptr(2);
    let mut mem = Memory::new();
    let name = text(&mut mem, "main");
    assert_eq!(handle.client_name(&mem, name).unwrap(), "main");
    assert!(matches!(
        handle.client_name(&mem, 0),
        Err(Error::Rust(RustError::Pointer(None)))
    ));
    let event = mem.allocate(Block::Event(RawEvent {
        event_id: 1,
        error: 0,
        reply_userdata: 0,
        data: 0,
    }));
    assert_eq!(handle.wait_event(&mem, event), Ok(Event::Shutdown));
}

#[test]
fn an_event_with_an_undefined_value_is_told_apart() {
    let handle = Handle::from_ptr(2);
    let mut mem = Memory::new();
    let odd = mem.allocate(Block::Event(RawEvent {
        event_id: 99,
        error: 0,
        reply_userdata: 0,
        data: 0,
    }));
    assert_eq!(handle.try_wait_event(&mem, odd), None);
    let idle = mem.allocate(Block::Event(RawEvent {
        event_id: 11,
        error: 0,
        reply_userdata: 0,
        data: 0,
    }));
    assert_eq!(handle.try_wait_event(&mem, idle), Some(Ok(Event::Idle)));
}
