use libmpv_client::memory::{Addr, Block, Memory, RawByteArray, RawNode, RawNodeList};
use libmpv_client::raw::{
    MPV_FORMAT_BYTE_ARRAY, MPV_FORMAT_DOUBLE, MPV_FORMAT_FLAG, MPV_FORMAT_INT64,
    MPV_FORMAT_NODE_ARRAY, MPV_FORMAT_NODE_MAP, MPV_FORMAT_NONE, MPV_FORMAT_STRING,
};
use libmpv_client::types::node::MpvNode;
use libmpv_client::{ByteArray, Double, MpvRecv, MpvSend, Node, NodeArray, NodeMap};

const ANY: Addr = usize::MAX;

fn c_string(text: &str) -> Block {
    let mut bytes = text.as_bytes().to_vec();
    bytes.push(0);
    Block::Bytes(bytes)
}

fn c_str_at(mem: &Memory, addr: Addr) -> String {
    match mem.get(addr, ANY) {
        Some(Block::Bytes(bytes)) => {
            let end = bytes.iter().position(|b| *b == 0).unwrap();
            std::str::from_utf8(&bytes[..end]).unwrap().to_string()
        }
        other => panic!("no text at {addr}: {other:?}"),
    }
}

fn node_at(mem: &Memory, addr: Addr) -> RawNode {
    match mem.get(addr, ANY) {
        Some(Block::Nodes(nodes)) => nodes[0],
        other => panic!("no node at {addr}: {other:?}"),
    }
}

fn nodes_at(mem: &Memory, addr: Addr) -> Vec<RawNode> {
    match mem.get(addr, ANY) {
        Some(Block::Nodes(nodes)) => nodes.clone(),
        other => panic!("no nodes at {addr}: {other:?}"),
    }
}

fn keys_at(mem: &Memory, addr: Addr) -> Vec<Addr> {
    match mem.get(addr, ANY) {
        Some(Block::Pointers(keys)) => keys.clone(),
        other => panic!("no pointers at {addr}: {other:?}"),
    }
}

fn list_at(mem: &Memory, addr: Addr) -> RawNodeList {
    match mem.get(addr, ANY) {
        Some(Block::NodeList(list)) => *list,
        other => panic!("no node list at {addr}: {other:?}"),
    }
}

fn double(value: f64) -> Double {
    Double::from_bits(value.to_bits())
}

fn map(pairs: Vec<(&str, Node)>) -> Node {
    Node::Dict(NodeMap::from_entries(
        pairs.into_iter().map(|(k, v)| (k.to_string(), v)).collect(),
    ))
}

#[test]
fn string_from_mpv() {
    let mut mem = Memory::new();
    let cstring = mem.allocate(c_string("hello, world!"));

    let string = String::from_mpv(&mut mem, |m: Memory, _x: Addr| (Ok(0), m, cstring));

    assert_eq!(string.unwrap(), "hello, world!");
    assert_eq!(mem.freed, vec![cstring]);
}

#[test]
fn string_to_mpv() {
    let string = String::from("hello, world!");

    string
        .to_mpv(|mem: &Memory, x: Addr| {
            let cstr = keys_at(mem, x)[0];
            let str = c_str_at(mem, cstr);
            assert_eq!(str, string);
            Ok(0)
        })
        .unwrap();
}

#[test]
fn flag_true_from_mpv() {
    let mut mem = Memory::new();
    let cflag: i32 = 1;

    let flag = bool::from_mpv(&mut mem, |m: Memory, _x: i32| (Ok(0), m, cflag));

    assert!(flag.unwrap());
}

#[test]
fn flag_false_from_mpv() {
    let mut mem = Memory::new();
    let cflag: i32 = 0;

    let flag = bool::from_mpv(&mut mem, |m: Memory, _x: i32| (Ok(0), m, cflag));

    assert!(!flag.unwrap());
}

#[test]
fn flag_true_to_mpv() {
    let flag = true;
    flag.to_mpv(|mem: &Memory, x: Addr| {
        assert_eq!(mem.get(x, ANY), Some(&Block::Flag(1)));
        Ok(0)
    })
    .unwrap();
}

#[test]
fn flag_false_to_mpv() {
    let flag = false;
    flag.to_mpv(|mem: &Memory, x: Addr| {
        assert_eq!(mem.get(x, ANY), Some(&Block::Flag(0)));
        Ok(0)
    })
    .unwrap();
}

#[test]
fn int64_from_mpv() {
    let mut mem = Memory::new();
    let cval: i64 = 123456;

    let val = i64::from_mpv(&mut mem, |m: Memory, _x: i64| (Ok(0), m, cval));

    assert_eq!(val.unwrap(), cval);
}

#[test]
fn int64_to_mpv() {
    let val: i64 = 654321;

    val.to_mpv(|mem: &Memory, x: Addr| {
        assert_eq!(mem.get(x, ANY), Some(&Block::Int64(val)));
        Ok(0)
    })
    .unwrap();
}

#[test]
fn double_from_mpv() {
    let mut mem = Memory::new();
    let cval: f64 = 456.789;

    let val = Double::from_mpv(&mut mem, |m: Memory, _x: u64| (Ok(0), m, cval.to_bits()));

    assert_eq!(f64::from_bits(val.unwrap().to_bits()), cval);
}

#[test]
fn double_to_mpv() {
    let val: f64 = 987.654;

    double(val)
        .to_mpv(|mem: &Memory, x: Addr| {
            match mem.get(x, ANY) {
                Some(Block::Double(bits)) => assert_eq!(val, f64::from_bits(*bits)),
                other => panic!("no double: {other:?}"),
            }
            Ok(0)
        })
        .unwrap();
}

#[test]
fn node_none_from_mpv() {
    let mut mem = Memory::new();
    let cnode = RawNode { format: MPV_FORMAT_NONE, u: 0 };

    let node = Node::from_mpv(&mut mem, |m: Memory, _x: RawNode| (Ok(0), m, cnode)).unwrap();

    assert_eq!(node, Node::Empty);
    assert_eq!(mem.freed_nodes, vec![cnode]);
}

#[test]
fn node_none_to_mpv() {
    let node = Node::Empty;

    node.to_mpv(|mem: &Memory, x: Addr| {
        let cnode = node_at(mem, x);

        assert_eq!(cnode.format, MPV_FORMAT_NONE);
        Ok(0)
    })
    .unwrap();
}

#[test]
fn node_string_from_mpv() {
    let mut mem = Memory::new();
    let cstring = mem.allocate(c_string("hello, world!"));
    let cnode = RawNode { format: MPV_FORMAT_STRING, u: cstring as u64 };

    let node = Node::from_mpv(&mut mem, |m: Memory, _x: RawNode| (Ok(0), m, cnode)).unwrap();

    assert_eq!(node, Node::String(String::from("hello, world!")));
}

#[test]
fn node_string_to_mpv() {
    let node = Node::String(String::from("hello, world!"));

    node.to_mpv(|mem: &Memory, x: Addr| {
        let cnode = node_at(mem, x);

        assert_eq!(cnode.format, MPV_FORMAT_STRING);

        let cstr = c_str_at(mem, cnode.addr());
        assert_eq!(cstr, "hello, world!");

        Ok(0)
    })
    .unwrap();
}

#[test]
fn node_flag_from_mpv() {
    let mut mem = Memory::new();
    let cnode = RawNode { format: MPV_FORMAT_FLAG, u: 1 };

    let node = Node::from_mpv(&mut mem, |m: Memory, _x: RawNode| (Ok(0), m, cnode)).unwrap();

    assert_eq!(node, Node::Flag(true));
}

#[test]
fn node_flag_to_mpv() {
    let node = Node::Flag(true);

    node.to_mpv(|mem: &Memory, x: Addr| {
        let cnode = node_at(mem, x);

        assert_eq!(cnode.format, MPV_FORMAT_FLAG);

        let cflag = cnode.u;
        assert_eq!(cflag, 1);

        Ok(0)
    })
    .unwrap();
}

fn complex_test_map() -> Node {
    map(vec![
        ("none", Node::Empty),
        ("string", Node::String("hello, world!".to_string())),
        ("flag", Node::Flag(true)),
        ("int64", Node::Int64(123456)),
        ("double", Node::Double(double(456.789))),
        (
            "array",
            Node::Array(vec![
                Node::Empty,
                Node::Flag(true),
                Node::Int64(2),
                Node::Double(double(3.3)),
                map(vec![
                    ("4", Node::String("five".to_string())),
                    ("six", Node::Int64(7)),
                ]),
            ]),
        ),
    ])
}

#[test]
fn node_complex_from_mpv() {
    let mut mem = Memory::new();

    let c_five_string = mem.allocate(c_string("five"));
    let c_counting_array_map_buffer = mem.allocate(Block::Nodes(vec![
        RawNode { format: MPV_FORMAT_STRING, u: c_five_string as u64 },
        RawNode { format: MPV_FORMAT_INT64, u: 7 },
    ]));

    let four_label = mem.allocate(c_string("4"));
    let six_label = mem.allocate(c_string("six"));
    let c_counting_array_map_labels = mem.allocate(Block::Pointers(vec![four_label, six_label]));

    let c_counting_array_map = mem.allocate(Block::NodeList(RawNodeList {
        num: 2,
        values: c_counting_array_map_buffer,
        keys: c_counting_array_map_labels,
    }));

    let c_counting_array_buffer = mem.allocate(Block::Nodes(vec![
        RawNode { format: MPV_FORMAT_NONE, u: 0 },
        RawNode { format: MPV_FORMAT_FLAG, u: 1 },
        RawNode { format: MPV_FORMAT_INT64, u: 2 },
        RawNode { format: MPV_FORMAT_DOUBLE, u: 3.3f64.to_bits() },
        RawNode { format: MPV_FORMAT_NODE_MAP, u: c_counting_array_map as u64 },
    ]));

    let c_counting_array = mem.allocate(Block::NodeList(RawNodeList {
        num: 5,
        values: c_counting_array_buffer,
        keys: 0,
    }));

    let c_hello_string = mem.allocate(c_string("hello, world!"));
    let c_types_map_buffer = mem.allocate(Block::Nodes(vec![
        RawNode { format: MPV_FORMAT_NONE, u: 0 },
        RawNode { format: MPV_FORMAT_STRING, u: c_hello_string as u64 },
        RawNode { format: MPV_FORMAT_FLAG, u: 1 },
        RawNode { format: MPV_FORMAT_INT64, u: 123456 },
        RawNode { format: MPV_FORMAT_DOUBLE, u: 456.789f64.to_bits() },
        RawNode { format: MPV_FORMAT_NODE_ARRAY, u: c_counting_array as u64 },
    ]));

    let none_label = mem.allocate(c_string("none"));
    let string_label = mem.allocate(c_string("string"));
    let flag_label = mem.allocate(c_string("flag"));
    let int64_label = mem.allocate(c_string("int64"));
    let double_label = mem.allocate(c_string("double"));
    let array_label = mem.allocate(c_string("array"));
    let c_types_map_labels = mem.allocate(Block::Pointers(vec![
        none_label,
        string_label,
        flag_label,
        int64_label,
        double_label,
        array_label,
    ]));

    let c_types_map = mem.allocate(Block::NodeList(RawNodeList {
        num: 6,
        values: c_types_map_buffer,
        keys: c_types_map_labels,
    }));

    let cnodelistbuffer = mem.allocate(Block::Nodes(vec![
        RawNode { format: MPV_FORMAT_NODE_MAP, u: c_types_map as u64 },
        RawNode { format: MPV_FORMAT_NODE_MAP, u: c_types_map as u64 },
    ]));

    let cnodelist = mem.allocate(Block::NodeList(RawNodeList {
        num: 2,
        values: cnodelistbuffer,
        keys: 0,
    }));

    let cnode = RawNode { format: MPV_FORMAT_NODE_ARRAY, u: cnodelist as u64 };

    let node = Node::from_mpv(&mut mem, |m: Memory, _x: RawNode| (Ok(0), m, cnode)).unwrap();

    let test_map = complex_test_map();

    let test_node = Node::Array(vec![test_map.clone(), test_map]);

    assert_eq!(node, test_node);
}

#[test]
fn node_complex_to_mpv() {
    let test_map = complex_test_map();

    let test_node = Node::Array(vec![test_map.clone(), test_map]);

    println!("{test_node:?}");

    test_node
        .to_mpv(|mem: &Memory, x: Addr| {
            let root_node = node_at(mem, x);

            assert_eq!(root_node.format, MPV_FORMAT_NODE_ARRAY);

            let root_list = list_at(mem, root_node.addr());
            assert_eq!(root_list.num, 2);

            let types_map_nodes = nodes_at(mem, root_list.values);
            assert_eq!(types_map_nodes.len(), 2);

            for types_map_node in types_map_nodes {
                assert_eq!(types_map_node.format, MPV_FORMAT_NODE_MAP);

                let types_map_list = list_at(mem, types_map_node.addr());

                assert_eq!(types_map_list.num, 6);
                let types_nodes = nodes_at(mem, types_map_list.values);
                let types_labels = keys_at(mem, types_map_list.keys);
                assert_eq!(types_nodes.len(), 6);
                assert_eq!(types_labels.len(), 6);

                let mut cnt_none = 0;
                let mut cnt_string = 0;
                let mut cnt_flag = 0;
                let mut cnt_int64 = 0;
                let mut cnt_double = 0;
                let mut cnt_array = 0;

                for idx_type in 0..6 {
                    let type_node = types_nodes[idx_type];
                    let type_label = c_str_at(mem, types_labels[idx_type]);

                    match type_node.format {
                        MPV_FORMAT_NONE => {
                            cnt_none += 1;
                        }
                        MPV_FORMAT_STRING => {
                            assert_eq!(c_str_at(mem, type_node.addr()), "hello, world!");
                            assert_eq!(type_label, "string");
                            cnt_string += 1;
                        }
                        MPV_FORMAT_FLAG => {
                            assert_eq!(type_node.u, 1);
                            assert_eq!(type_label, "flag");
                            cnt_flag += 1;
                        }
                        MPV_FORMAT_INT64 => {
                            assert_eq!(type_node.int64(), 123456);
                            assert_eq!(type_label, "int64");
                            cnt_int64 += 1;
                        }
                        MPV_FORMAT_DOUBLE => {
                            assert_eq!(f64::from_bits(type_node.u), 456.789);
                            assert_eq!(type_label, "double");
                            cnt_double += 1;
                        }
                        MPV_FORMAT_NODE_ARRAY => {
                            assert_eq!(type_label, "array");
                            cnt_array += 1;

                            let counting_array_list = list_at(mem, type_node.addr());

                            assert_eq!(counting_array_list.num, 5);
                            let counting_array_nodes = nodes_at(mem, counting_array_list.values);
                            assert_eq!(counting_array_nodes.len(), 5);

                            assert_eq!(counting_array_nodes[0].format, MPV_FORMAT_NONE);

                            assert_eq!(counting_array_nodes[1].format, MPV_FORMAT_FLAG);
                            assert_eq!(counting_array_nodes[1].u, 1);

                            assert_eq!(counting_array_nodes[2].format, MPV_FORMAT_INT64);
                            assert_eq!(counting_array_nodes[2].int64(), 2);

                            assert_eq!(counting_array_nodes[3].format, MPV_FORMAT_DOUBLE);
                            assert_eq!(f64::from_bits(counting_array_nodes[3].u), 3.3);

                            assert_eq!(counting_array_nodes[4].format, MPV_FORMAT_NODE_MAP);

                            let final_count_list = list_at(mem, counting_array_nodes[4].addr());

                            assert_eq!(final_count_list.num, 2);
                            let final_count_nodes = nodes_at(mem, final_count_list.values);
                            let final_count_labels = keys_at(mem, final_count_list.keys);

                            let mut cnt_4 = 0;
                            let mut cnt_6 = 0;

                            for idx_final_count in 0..2 {
                                let final_count_node = final_count_nodes[idx_final_count];
                                let final_count_label =
                                    c_str_at(mem, final_count_labels[idx_final_count]);

                                match final_count_node.format {
                                    MPV_FORMAT_STRING => {
                                        assert_eq!(
                                            c_str_at(mem, final_count_node.addr()),
                                            "five"
                                        );
                                        assert_eq!(final_count_label, "4");
                                        cnt_4 += 1;
                                    }
                                    MPV_FORMAT_INT64 => {
                                        assert_eq!(final_count_node.int64(), 7);
                                        assert_eq!(final_count_label, "six");
                                        cnt_6 += 1;
                                    }
                                    _ => unreachable!(),
                                }
                            }

                            assert_eq!(cnt_4, 1);
                            assert_eq!(cnt_6, 1);
                        }
                        _ => unreachable!(),
                    }
                }

                assert_eq!(cnt_none, 1);
                assert_eq!(cnt_string, 1);
                assert_eq!(cnt_flag, 1);
                assert_eq!(cnt_int64, 1);
                assert_eq!(cnt_double, 1);
                assert_eq!(cnt_array, 1);
            }

            Ok(0)
        })
        .unwrap();
}

#[test]
fn nodemap_from_mpv() {
    let mut mem = Memory::new();

    let cstring = mem.allocate(c_string("hello, world!"));
    let cnodes = mem.allocate(Block::Nodes(vec![
        RawNode { format: MPV_FORMAT_STRING, u: cstring as u64 },
        RawNode { format: MPV_FORMAT_FLAG, u: 1 },
        RawNode { format: MPV_FORMAT_INT64, u: 123456 },
        RawNode { format: MPV_FORMAT_DOUBLE, u: 456.789f64.to_bits() },
    ]));

    let first_label = mem.allocate(c_string("first"));
    let second_label = mem.allocate(c_string("second"));
    let third_label = mem.allocate(c_string("third"));
    let fourth_label = mem.allocate(c_string("fourth"));
    let labels = mem.allocate(Block::Pointers(vec![
        first_label,
        second_label,
        third_label,
        fourth_label,
    ]));

    let cnodelist = RawNodeList { num: 4, values: cnodes, keys: labels };

    let nodemap =
        NodeMap::from_mpv(&mut mem, |m: Memory, _x: RawNodeList| (Ok(0), m, cnodelist)).unwrap();

    let map = NodeMap::from_entries(vec![
        ("first".to_string(), Node::String("hello, world!".to_string())),
        ("second".to_string(), Node::Flag(true)),
        ("third".to_string(), Node::Int64(123456)),
        ("fourth".to_string(), Node::Double(double(456.789))),
    ]);

    assert_eq!(nodemap, map);
}

#[test]
fn nodemap_to_mpv() {
    let map = NodeMap::from_entries(vec![
        ("first".to_string(), Node::String("hello, world!".to_string())),
        ("second".to_string(), Node::Flag(true)),
        ("third".to_string(), Node::Int64(123456)),
        ("fourth".to_string(), Node::Double(double(456.789))),
    ]);

    let nodemap = map;

    nodemap
        .to_mpv(|mem: &Memory, x: Addr| {
            let cnodelist = list_at(mem, x);

            assert_eq!(cnodelist.num, 4);

            let values = nodes_at(mem, cnodelist.values);
            let keys = keys_at(mem, cnodelist.keys);

            let mut cnt_string = 0;
            let mut cnt_flags = 0;
            let mut cnt_int64 = 0;
            let mut cnt_double = 0;

            for x in 0..4 {
                let node = values[x];
                let label = c_str_at(mem, keys[x]);

                match node.format {
                    MPV_FORMAT_STRING => {
                        assert_eq!(c_str_at(mem, node.addr()), "hello, world!");
                        assert_eq!(label, "first");
                        cnt_string += 1;
                    }
                    MPV_FORMAT_FLAG => {
                        assert_eq!(node.u, 1);
                        assert_eq!(label, "second");
                        cnt_flags += 1;
                    }
                    MPV_FORMAT_INT64 => {
                        assert_eq!(node.int64(), 123456);
                        assert_eq!(label, "third");
                        cnt_int64 += 1;
                    }
                    MPV_FORMAT_DOUBLE => {
                        assert_eq!(f64::from_bits(node.u), 456.789);
                        assert_eq!(label, "fourth");
                        cnt_double += 1;
                    }
                    _ => unreachable!(),
                }
            }

            assert_eq!(cnt_string, 1);
            assert_eq!(cnt_flags, 1);
            assert_eq!(cnt_int64, 1);
            assert_eq!(cnt_double, 1);

            Ok(0)
        })
        .unwrap();
}

#[test]
fn nodearray_from_mpv() {
    let mut mem = Memory::new();

    let cstring = mem.allocate(c_string("hello, world!"));
    let cnodes = mem.allocate(Block::Nodes(vec![
        RawNode { format: MPV_FORMAT_STRING, u: cstring as u64 },
        RawNode { format: MPV_FORMAT_FLAG, u: 1 },
        RawNode { format: MPV_FORMAT_INT64, u: 123456 },
        RawNode { format: MPV_FORMAT_DOUBLE, u: 456.789f64.to_bits() },
    ]));

    let cnodelist = RawNodeList { num: 4, values: cnodes, keys: 0 };

    let nodearray =
        NodeArray::from_mpv(&mut mem, |m: Memory, _x: RawNodeList| (Ok(0), m, cnodelist))
            .unwrap();

    assert_eq!(
        nodearray,
        vec![
            Node::String(String::from("hello, world!")),
            Node::Flag(true),
            Node::Int64(123456),
            Node::Double(double(456.789))
        ]
    );
}

#[test]
fn nodearray_to_mpv() {
    let nodearray = vec![
        Node::String(String::from("hello, world!")),
        Node::Flag(true),
        Node::Int64(123456),
        Node::Double(double(456.789)),
    ];

    nodearray
        .to_mpv(|mem: &Memory, x: Addr| {
            let cnodelist = list_at(mem, x);

            assert_eq!(cnodelist.num, 4);
            assert_eq!(cnodelist.keys, 0);

            let values = nodes_at(mem, cnodelist.values);

            let first = values[0];
            assert_eq!(first.format, MPV_FORMAT_STRING);
            assert_eq!(c_str_at(mem, first.addr()), "hello, world!");

            let second = values[1];
            assert_eq!(second.format, MPV_FORMAT_FLAG);
            assert_eq!(second.u, 1);

            let third = values[2];
            assert_eq!(third.format, MPV_FORMAT_INT64);
            assert_eq!(third.int64(), 123456);

            let fourth = values[3];
            assert_eq!(fourth.format, MPV_FORMAT_DOUBLE);
            assert_eq!(f64::from_bits(fourth.u), 456.789);

            Ok(0)
        })
        .unwrap();
}

#[test]
fn ba_from_mpv() {
    let mut mem = Memory::new();

    let cbuffer: [u8; 8] = [0x10, 0x20, 0x30, 0x40, 0xA0, 0xB0, 0xC0, 0xD0];
    let data = mem.allocate(Block::Bytes(cbuffer.to_vec()));
    let cba = RawByteArray { data, size: 8 };

    let buffer = ByteArray::from_mpv(&mut mem, |m: Memory, _x: RawByteArray| (Ok(0), m, cba));

    assert_eq!(buffer.unwrap(), cbuffer);
}

#[test]
fn ba_to_mpv() {
    let buffer: ByteArray = vec![0xF0, 0xE0, 0xD0, 0xC0, 0x80, 0x70, 0x60, 0x50];

    buffer
        .to_mpv(|mem: &Memory, x: Addr| {
            let ba = match mem.get(x, ANY) {
                Some(Block::ByteArray(ba)) => *ba,
                other => panic!("no byte array: {other:?}"),
            };

            let cbuffer = match mem.get(ba.data, ANY) {
                Some(Block::Bytes(bytes)) => &bytes[..ba.size],
                other => panic!("no bytes: {other:?}"),
            };

            assert_eq!(buffer, cbuffer);
            Ok(0)
        })
        .unwrap();
}

#[test]
fn node_huge_round_trip() {
    let hello_worlds = Node::Array(vec![
        Node::String(String::from("hello, world!1")),
        Node::String(String::from("hello, world!2")),
        Node::String(String::from("hello, world!3")),
        Node::String(String::from("hello, world!4")),
        Node::String(String::from("hello, world!5")),
        Node::String(String::from("hello, world!6")),
        Node::String(String::from("hello, world!7")),
        Node::String(String::from("hello, world!8")),
        Node::String(String::from("hello, world!9")),
    ]);

    let hello_map = map(vec![
        ("hello1", hello_worlds.clone()),
        ("hello2", hello_worlds.clone()),
        ("hello3", hello_worlds.clone()),
        ("hello4", hello_worlds.clone()),
        ("hello5", hello_worlds.clone()),
        ("hello6", hello_worlds.clone()),
        ("hello7", hello_worlds.clone()),
        ("hello8", hello_worlds.clone()),
        ("hello9", hello_worlds.clone()),
    ]);

    let number_map = map(vec![
        ("1", hello_map.clone()),
        ("2", hello_map.clone()),
        ("3", hello_map.clone()),
        ("4", hello_map.clone()),
        ("5", hello_map.clone()),
        ("6", hello_map.clone()),
        ("7", hello_map.clone()),
        ("8", hello_map.clone()),
        ("9", hello_map.clone()),
    ]);

    let number_array = Node::Array(vec![
        number_map.clone(),
        number_map.clone(),
        number_map.clone(),
        number_map.clone(),
        number_map.clone(),
        number_map.clone(),
        number_map.clone(),
        number_map.clone(),
        number_map.clone(),
        number_map.clone(),
        number_map.clone(),
        number_map.clone(),
        number_map.clone(),
        number_map.clone(),
        number_map.clone(),
        number_map.clone(),
        number_map.clone(),
        number_map.clone(),
        number_map.clone(),
        number_map.clone(),
    ]);

    let node = map(vec![
        ("number_array", number_array.clone()),
        ("number_map", number_map.clone()),
        ("hello_map", hello_map.clone()),
        ("hello_worlds", hello_worlds.clone()),
        ("hello_worlds2", hello_worlds.clone()),
        ("hello_map2", hello_map.clone()),
        ("number_map2", number_map.clone()),
        ("number_array2", number_array.clone()),
    ]);

    let mpv_repr: MpvNode = node.to_mpv_repr().unwrap();

    let test_node = Node::from_node_ptr(&mpv_repr.memory, mpv_repr.ptr()).unwrap();

    assert_eq!(test_node, node);
}

#[test]
fn byte_array_node_is_exact() {
    let node = Node::ByteArray(vec![0x10, 0x20, 0x30]);
    let repr = node.to_mpv_repr().unwrap();
    let raw = node_at(&repr.memory, repr.ptr());
    assert_eq!(raw.format, MPV_FORMAT_BYTE_ARRAY);
    match Node::from_node_ptr(&repr.memory, repr.ptr()).unwrap() {
        Node::ByteArray(bytes) => {
            assert_eq!(bytes.len(), 3);
            assert_eq!(bytes, vec![0x10, 0x20, 0x30]);
        }
        other => panic!("not a byte array: {other:?}"),
    }
}
