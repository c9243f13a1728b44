//! Writing nodes into foreign memory.
//!
//! The foreign shape of a value is built bottom-up at the end of a memory:
//! first what a node refers to, then the node. What a memory must hold to
//! count as the shape of a value is given by the spec functions
//! [`holds_node`], [`holds_list`] and [`holds_map`]; the functions that do
//! the writing are proved to establish exactly that.
use vstd::prelude::*;
use vstd::utf8::encode_utf8;
use crate::error::{Error, RustError};
use crate::memory::{flag_word, int64_word, word_addr, Addr, Block, Memory, RawNode, RawNodeList, NULL};
use crate::raw;
use crate::text::{first_nul, terminated, to_c_bytes};
use crate::types::byte_array::{holds_bytes, write_byte_array};
use crate::types::node::{lemma_view_unfold, nodes_view, Node, NodeMap, NodeView};
use crate::types::node_map::Entries;

verus! {

/// Whether a node, with what the memory holds below `limit`, is the foreign
/// shape of a value.
pub open spec fn holds_node(mem: Memory, node: RawNode, limit: Addr, value: NodeView) -> bool
    decreases value, 0nat,
{
    match value {
        NodeView::Empty => node.format == raw::MPV_FORMAT_NONE && node.u == 0,
        NodeView::String(s) => node.format == raw::MPV_FORMAT_STRING && mem.bytes_at(
            word_addr(node.u),
            limit,
        ) == Some(terminated(s)),
        NodeView::Flag(b) => node.format == raw::MPV_FORMAT_FLAG && node.u == flag_word(b),
        NodeView::Int64(x) => node.format == raw::MPV_FORMAT_INT64 && node.u == int64_word(x),
        NodeView::Double(d) => node.format == raw::MPV_FORMAT_DOUBLE && node.u == d,
        NodeView::Array(vs) => node.format == raw::MPV_FORMAT_NODE_ARRAY && holds_list(
            mem,
            word_addr(node.u),
            limit,
            vs,
        ),
        NodeView::Dict(es) => node.format == raw::MPV_FORMAT_NODE_MAP && holds_map(
            mem,
            word_addr(node.u),
            limit,
            es,
        ),
        NodeView::ByteArray(bs) => node.format == raw::MPV_FORMAT_BYTE_ARRAY && holds_bytes(
            mem,
            word_addr(node.u),
            limit,
            bs,
        ),
    }
}

/// Whether the memory holds, at the address, the node list of an array: the
/// count is the number of values, there are no keys, and the values pointer
/// leads to one contiguous array that has, for each value in order, the
/// node that is its shape.
pub open spec fn holds_list(mem: Memory, ptr: Addr, limit: Addr, values: Seq<NodeView>) -> bool
    decreases values, 1nat,
{
    &&& mem.list_at(ptr, limit) matches Some(list)
    &&& list.num == values.len() as i32
    &&& list.keys == NULL
    &&& mem.nodes_at(list.values, (ptr - 1) as usize) matches Some(nodes)
    &&& nodes.len() == values.len()
    &&& forall|i: int|
        0 <= i < values.len() ==> holds_node(
            mem,
            #[trigger] nodes[i],
            (list.values - 1) as usize,
            values[i],
        )
}

/// Whether the memory holds, at the address, the node list of a map: the
/// count is the number of entries, the values pointer leads to one
/// contiguous array of the nodes of the values, and the keys pointer to a
/// parallel contiguous array of pointers to the terminated keys.
pub open spec fn holds_map(mem: Memory, ptr: Addr, limit: Addr, entries: Entries) -> bool
    decreases entries, 1nat,
{
    &&& mem.list_at(ptr, limit) matches Some(list)
    &&& list.num == entries.len() as i32
    &&& mem.nodes_at(list.values, (ptr - 1) as usize) matches Some(nodes)
    &&& nodes.len() == entries.len()
    &&& mem.pointers_at(list.keys, (ptr - 1) as usize) matches Some(keys)
    &&& keys.len() == entries.len()
    &&& forall|i: int|
        0 <= i < entries.len() ==> holds_node(
            mem,
            #[trigger] nodes[i],
            (list.values - 1) as usize,
            entries[i].1,
        )
    &&& forall|i: int|
        0 <= i < entries.len() ==> mem.bytes_at(#[trigger] keys[i], (list.keys - 1) as usize)
            == Some(terminated(entries[i].0))
}

/// The position of the first NUL byte in the first piece of text of a value
/// that has one, in the order in which the value is written. A value with
/// such a text has no foreign shape.
pub open spec fn unwritable_node(value: NodeView) -> Option<int>
    decreases value, 0nat,
{
    match value {
        NodeView::String(s) => first_nul(encode_utf8(s)),
        NodeView::Array(vs) => unwritable_nodes(vs, vs.len()),
        NodeView::Dict(es) => unwritable_entries(es, es.len()),
        _ => None,
    }
}

/// The same, for the first `count` values of a sequence.
pub open spec fn unwritable_nodes(values: Seq<NodeView>, count: nat) -> Option<int>
    decreases values, count + 1,
{
    if count == 0 || count > values.len() {
        None
    } else {
        match unwritable_nodes(values, (count - 1) as nat) {
            Some(i) => Some(i),
            None => unwritable_node(values[count - 1]),
        }
    }
}

/// The same, for the first `count` entries of a map. The key of an entry is
/// written before its value.
pub open spec fn unwritable_entries(entries: Entries, count: nat) -> Option<int>
    decreases entries, count + 1,
{
    if count == 0 || count > entries.len() {
        None
    } else {
        match unwritable_entries(entries, (count - 1) as nat) {
            Some(i) => Some(i),
            None => match first_nul(encode_utf8(entries[count - 1].0)) {
                Some(i) => Some(i),
                None => unwritable_node(entries[count - 1].1),
            },
        }
    }
}

/// Writing stops at the first text that cannot be written: what holds of a
/// prefix that cannot be written holds of every longer one.
pub proof fn lemma_unwritable_nodes_stuck(values: Seq<NodeView>, count: nat, more: nat)
    requires
        count <= more <= values.len(),
        unwritable_nodes(values, count) is Some,
    ensures
        unwritable_nodes(values, more) == unwritable_nodes(values, count),
    decreases more,
{
    if count < more {
        lemma_unwritable_nodes_stuck(values, count, (more - 1) as nat);
    }
}

/// Writing stops at the first text that cannot be written: what holds of a
/// prefix that cannot be written holds of every longer one.
pub proof fn lemma_unwritable_entries_stuck(entries: Entries, count: nat, more: nat)
    requires
        count <= more <= entries.len(),
        unwritable_entries(entries, count) is Some,
    ensures
        unwritable_entries(entries, more) == unwritable_entries(entries, count),
    decreases more,
{
    if count < more {
        lemma_unwritable_entries_stuck(entries, count, (more - 1) as nat);
    }
}

/// The shape of a value stays the shape of that value when blocks are added
/// to the memory and when the limit is raised.
pub proof fn lemma_holds_node_extends(
    later: Memory,
    earlier: Memory,
    node: RawNode,
    limit: Addr,
    higher: Addr,
    value: NodeView,
)
    requires
        later.extends(earlier),
        limit <= higher,
        holds_node(earlier, node, limit, value),
    ensures
        holds_node(later, node, higher, value),
    decreases value, 0nat,
{
    match value {
        NodeView::Array(vs) => {
            lemma_holds_list_extends(later, earlier, word_addr(node.u), limit, higher, vs);
        },
        NodeView::Dict(es) => {
            lemma_holds_map_extends(later, earlier, word_addr(node.u), limit, higher, es);
        },
        _ => {},
    }
}

/// The node list of an array stays one when blocks are added to the memory
/// and when the limit is raised.
pub proof fn lemma_holds_list_extends(
    later: Memory,
    earlier: Memory,
    ptr: Addr,
    limit: Addr,
    higher: Addr,
    values: Seq<NodeView>,
)
    requires
        later.extends(earlier),
        limit <= higher,
        holds_list(earlier, ptr, limit, values),
    ensures
        holds_list(later, ptr, higher, values),
    decreases values, 1nat,
{
    let list = earlier.list_at(ptr, limit)->Some_0;
    let nodes = earlier.nodes_at(list.values, (ptr - 1) as usize)->Some_0;
    assert forall|i: int| 0 <= i < values.len() implies holds_node(
        later,
        #[trigger] nodes[i],
        (list.values - 1) as usize,
        values[i],
    ) by {
        lemma_holds_node_extends(
            later,
            earlier,
            nodes[i],
            (list.values - 1) as usize,
            (list.values - 1) as usize,
            values[i],
        );
    }
}

/// The node list of a map stays one when blocks are added to the memory and
/// when the limit is raised.
pub proof fn lemma_holds_map_extends(
    later: Memory,
    earlier: Memory,
    ptr: Addr,
    limit: Addr,
    higher: Addr,
    entries: Entries,
)
    requires
        later.extends(earlier),
        limit <= higher,
        holds_map(earlier, ptr, limit, entries),
    ensures
        holds_map(later, ptr, higher, entries),
    decreases entries, 1nat,
{
    let list = earlier.list_at(ptr, limit)->Some_0;
    let nodes = earlier.nodes_at(list.values, (ptr - 1) as usize)->Some_0;
    let keys = earlier.pointers_at(list.keys, (ptr - 1) as usize)->Some_0;
    assert forall|i: int| 0 <= i < entries.len() implies holds_node(
        later,
        #[trigger] nodes[i],
        (list.values - 1) as usize,
        entries[i].1,
    ) by {
        lemma_holds_node_extends(
            later,
            earlier,
            nodes[i],
            (list.values - 1) as usize,
            (list.values - 1) as usize,
            entries[i].1,
        );
    }
    assert forall|i: int| 0 <= i < entries.len() implies later.bytes_at(
        #[trigger] keys[i],
        (list.keys - 1) as usize,
    ) == Some(terminated(entries[i].0)) by {
        assert(earlier.bytes_at(keys[i], (list.keys - 1) as usize) == Some(
            terminated(entries[i].0),
        ));
    }
}

/// What writing a value comes to: its shape, with nothing of the value
/// unwritable; or the error that names the first NUL byte.
pub open spec fn wrote<T>(r: Result<T, Error>, unwritable: Option<int>) -> bool {
    match r {
        Ok(_) => unwritable is None,
        Err(e) => unwritable matches Some(i) && e == Error::Rust(
            RustError::InteriorNull(i as usize),
        ),
    }
}

/// Writes what a node refers to at the end of a memory, and returns the
/// node.
///
/// Fails, at the first text that holds a NUL byte, with the error that
/// names the position of that byte.
#[verifier::loop_isolation(false)]
pub fn write_node(mem: &mut Memory, node: &Node) -> (r: Result<RawNode, Error>)
    ensures
        final(mem).extends(*old(mem)),
        wrote(r, unwritable_node(node@)),
        r matches Ok(raw) ==> holds_node(
            *final(mem),
            raw,
            final(mem).blocks.len(),
            node@,
        ),
    decreases node,
{
    proof {
        lemma_view_unfold(*node);
    }
    match node {
        Node::Empty => Ok(RawNode { format: raw::MPV_FORMAT_NONE, u: 0 }),
        Node::String(s) => {
            match to_c_bytes(s.as_str()) {
                Ok(buffer) => {
                    let addr = mem.allocate(Block::Bytes(buffer));
                    Ok(RawNode { format: raw::MPV_FORMAT_STRING, u: addr as u64 })
                },
                Err(e) => Err(e),
            }
        },
        Node::Flag(b) => {
            let u: u64 = if *b {
                1
            } else {
                0
            };
            Ok(RawNode { format: raw::MPV_FORMAT_FLAG, u })
        },
        Node::Int64(x) => {
            let u: u64 = #[verifier::truncate]
            (*x as u64);
            Ok(RawNode { format: raw::MPV_FORMAT_INT64, u })
        },
        Node::Double(d) => Ok(RawNode { format: raw::MPV_FORMAT_DOUBLE, u: d.bits }),
        Node::Array(nodes) => {
            match write_list(mem, nodes) {
                Ok(addr) => Ok(RawNode { format: raw::MPV_FORMAT_NODE_ARRAY, u: addr as u64 }),
                Err(e) => Err(e),
            }
        },
        Node::Dict(map) => {
            match write_map(mem, map) {
                Ok(addr) => Ok(RawNode { format: raw::MPV_FORMAT_NODE_MAP, u: addr as u64 }),
                Err(e) => Err(e),
            }
        },
        Node::ByteArray(bytes) => {
            let addr = write_byte_array(mem, bytes);
            Ok(RawNode { format: raw::MPV_FORMAT_BYTE_ARRAY, u: addr as u64 })
        },
    }
}

/// Writes the foreign shape of an array at the end of a memory and returns
/// the address of its node list.
///
/// Each element is written in turn and its node is collected; the nodes are
/// then laid down as one contiguous array, and the list that points to it
/// comes last.
#[verifier::loop_isolation(false)]
pub fn write_list(mem: &mut Memory, nodes: &Vec<Node>) -> (r: Result<Addr, Error>)
    ensures
        final(mem).extends(*old(mem)),
        wrote(r, unwritable_nodes(nodes_view(nodes@), nodes@.len())),
        r matches Ok(ptr) ==> ptr == final(mem).blocks@.len() && holds_list(
            *final(mem),
            ptr,
            ptr,
            nodes_view(nodes@),
        ),
    decreases nodes,
{
    let ghost values = nodes_view(nodes@);
    let mut flat: Vec<RawNode> = Vec::new();
    let mut i: usize = 0;
    while i < nodes.len()
        invariant
            i <= nodes@.len(),
            mem.extends(*old(mem)),
            flat@.len() == i,
            unwritable_nodes(values, i as nat) is None,
            forall|j: int|
                0 <= j < i ==> holds_node(
                    *mem,
                    #[trigger] flat@[j],
                    mem.blocks.len(),
                    values[j],
                ),
        decreases nodes@.len() - i,
    {
        let ghost before = *mem;
        match write_node(mem, &nodes[i]) {
            Ok(raw) => {
                proof {
                    assert forall|j: int| 0 <= j < i implies holds_node(
                        *mem,
                        #[trigger] flat@[j],
                        mem.blocks.len(),
                        values[j],
                    ) by {
                        lemma_holds_node_extends(
                            *mem,
                            before,
                            flat@[j],
                            before.blocks.len(),
                            mem.blocks.len(),
                            values[j],
                        );
                    }
                }
                flat.push(raw);
            },
            Err(e) => {
                proof {
                    lemma_unwritable_nodes_stuck(values, (i + 1) as nat, nodes@.len());
                }
                return Err(e);
            },
        }
        i += 1;
    }
    let num: i32 = #[verifier::truncate]
    (nodes.len() as i32);
    let ghost before = *mem;
    let ghost shapes = flat@;
    let values_ptr = mem.allocate(Block::Nodes(flat));
    let ptr = mem.allocate(Block::NodeList(RawNodeList { num, values: values_ptr, keys: NULL }));
    proof {
        assert forall|j: int| 0 <= j < values.len() implies holds_node(
            *mem,
            #[trigger] shapes[j],
            (values_ptr - 1) as usize,
            values[j],
        ) by {
            lemma_holds_node_extends(
                *mem,
                before,
                shapes[j],
                before.blocks.len(),
                (values_ptr - 1) as usize,
                values[j],
            );
        }
    }
    Ok(ptr)
}

/// Writes the foreign shape of a map at the end of a memory and returns the
/// address of its node list.
///
/// For each entry the terminated key is written, then the value; the nodes
/// of the values and the pointers to the keys are then laid down as two
/// parallel contiguous arrays, and the list that points to both comes last.
#[verifier::loop_isolation(false)]
pub fn write_map(mem: &mut Memory, map: &NodeMap) -> (r: Result<Addr, Error>)
    ensures
        final(mem).extends(*old(mem)),
        wrote(r, unwritable_entries(map@, map@.len())),
        r matches Ok(ptr) ==> ptr == final(mem).blocks@.len() && holds_map(
            *final(mem),
            ptr,
            ptr,
            map@,
        ),
    decreases map,
{
    let ghost entries = map@;
    let mut flat: Vec<RawNode> = Vec::new();
    let mut flat_keys: Vec<Addr> = Vec::new();
    let mut i: usize = 0;
    while i < map.entries.len()
        invariant
            i <= map.entries@.len(),
            mem.extends(*old(mem)),
            flat@.len() == i,
            flat_keys@.len() == i,
            unwritable_entries(entries, i as nat) is None,
            forall|j: int|
                0 <= j < i ==> holds_node(
                    *mem,
                    #[trigger] flat@[j],
                    mem.blocks.len(),
                    entries[j].1,
                ),
            forall|j: int|
                0 <= j < i ==> mem.bytes_at(#[trigger] flat_keys@[j], mem.blocks.len())
                    == Some(terminated(entries[j].0)),
        decreases map.entries@.len() - i,
    {
        let buffer = match to_c_bytes(map.entries[i].0.as_str()) {
            Ok(buffer) => buffer,
            Err(e) => {
                proof {
                    lemma_unwritable_entries_stuck(entries, (i + 1) as nat, entries.len());
                }
                return Err(e);
            },
        };
        let ghost start = *mem;
        let key = mem.allocate(Block::Bytes(buffer));
        let ghost before = *mem;
        match write_node(mem, &map.entries[i].1) {
            Ok(raw) => {
                proof {
                    assert forall|j: int| 0 <= j < i implies holds_node(
                        *mem,
                        #[trigger] flat@[j],
                        mem.blocks.len(),
                        entries[j].1,
                    ) by {
                        lemma_holds_node_extends(
                            *mem,
                            start,
                            flat@[j],
                            start.blocks.len(),
                            mem.blocks.len(),
                            entries[j].1,
                        );
                    }
                    assert forall|j: int| 0 <= j < i implies mem.bytes_at(
                        #[trigger] flat_keys@[j],
                        mem.blocks.len(),
                    ) == Some(terminated(entries[j].0)) by {
                        assert(start.bytes_at(flat_keys@[j], start.blocks.len()) == Some(
                            terminated(entries[j].0),
                        ));
                    }
                    assert(before.bytes_at(key, before.blocks.len()) == Some(
                        terminated(entries[i as int].0),
                    ));
                }
                flat.push(raw);
                flat_keys.push(key);
            },
            Err(e) => {
                proof {
                    lemma_unwritable_entries_stuck(entries, (i + 1) as nat, entries.len());
                }
                return Err(e);
            },
        }
        i += 1;
    }
    let num: i32 = #[verifier::truncate]
    (map.entries.len() as i32);
    let ghost before = *mem;
    let ghost shapes = flat@;
    let ghost key_ptrs = flat_keys@;
    let values_ptr = mem.allocate(Block::Nodes(flat));
    let keys_ptr = mem.allocate(Block::Pointers(flat_keys));
    let ptr = mem.allocate(
        Block::NodeList(RawNodeList { num, values: values_ptr, keys: keys_ptr }),
    );
    proof {
        assert forall|j: int| 0 <= j < entries.len() implies holds_node(
            *mem,
            #[trigger] shapes[j],
            (values_ptr - 1) as usize,
            entries[j].1,
        ) by {
            lemma_holds_node_extends(
                *mem,
                before,
                shapes[j],
                before.blocks.len(),
                (values_ptr - 1) as usize,
                entries[j].1,
            );
        }
        assert forall|j: int| 0 <= j < entries.len() implies mem.bytes_at(
            #[trigger] key_ptrs[j],
            (keys_ptr - 1) as usize,
        ) == Some(terminated(entries[j].0)) by {
            assert(before.bytes_at(key_ptrs[j], before.blocks.len()) == Some(
                terminated(entries[j].0),
            ));
        }
    }
    Ok(ptr)
}


/// Text with a NUL byte among its bytes cannot be written, neither on its
/// own nor as a node.
pub proof fn lemma_nul_unwritable(text: Seq<char>, i: int)
    requires
        0 <= i < encode_utf8(text).len(),
        encode_utf8(text)[i] == 0,
    ensures
        first_nul(encode_utf8(text)) is Some,
        unwritable_node(NodeView::String(text)) is Some,
{
    crate::text::lemma_nul_from(encode_utf8(text), 0);
}

/// Flattening: the node list of an array of `n` values has the count `n`,
/// and its values pointer leads to `n` consecutive nodes, each the shape of
/// the value at its place, as it is when that value is written on its own.
pub proof fn lemma_flattening(mem: Memory, ptr: Addr, limit: Addr, values: Seq<NodeView>)
    requires
        holds_list(mem, ptr, limit, values),
        values.len() <= i32::MAX,
    ensures
        ({
            &&& mem.list_at(ptr, limit) matches Some(list)
            &&& list.num == values.len()
            &&& mem.nodes_at(list.values, (ptr - 1) as usize) matches Some(nodes)
            &&& nodes.len() == values.len()
            &&& forall|i: int|
                0 <= i < values.len() ==> holds_node(
                    mem,
                    #[trigger] nodes[i],
                    (list.values - 1) as usize,
                    values[i],
                )
        }),
{
}

} // verus!
