//! Reading nodes out of foreign memory.
//!
//! What a block of foreign memory reads as is given by the spec functions
//! [`read_node`], [`read_list`] and [`read_map`]; the functions that do the
//! reading are proved to return exactly that. Reading copies: the values
//! that it returns own their storage.
use vstd::prelude::*;
use crate::error::{Error, Fault};
use crate::memory::{word_addr, word_flag, word_int64, Addr, Block, Memory, RawNode, RawNodeList};
use crate::raw;
use crate::text::{read_text, text_at};
use crate::types::basics::Double;
use crate::types::byte_array::{byte_array_behind, read_byte_array};
use crate::types::node::{lemma_view_unfold, nodes_view, Node, NodeMap, NodeView};
use crate::types::node_map::{zip_entries, Entries};
use crate::types::traits::recognized;

verus! {

/// What a node reads as, when its pointers may go up to `limit`.
///
/// The discriminator alone decides how the payload is read, and the payload
/// of an empty node is not looked at. Only the formats that a node can have
/// are recognized.
pub open spec fn read_node(mem: Memory, node: RawNode, limit: Addr) -> Result<NodeView, Fault>
    decreases limit, 2nat,
{
    if node.format == raw::MPV_FORMAT_NONE {
        Ok(NodeView::Empty)
    } else if node.format == raw::MPV_FORMAT_STRING {
        match text_at(mem, word_addr(node.u), limit) {
            Ok(s) => Ok(NodeView::String(s)),
            Err(f) => Err(f),
        }
    } else if node.format == raw::MPV_FORMAT_FLAG {
        Ok(NodeView::Flag(word_flag(node.u)))
    } else if node.format == raw::MPV_FORMAT_INT64 {
        Ok(NodeView::Int64(word_int64(node.u)))
    } else if node.format == raw::MPV_FORMAT_DOUBLE {
        Ok(NodeView::Double(node.u))
    } else if node.format == raw::MPV_FORMAT_NODE_ARRAY {
        match read_list(mem, word_addr(node.u), limit) {
            Ok(vs) => Ok(NodeView::Array(vs)),
            Err(f) => Err(f),
        }
    } else if node.format == raw::MPV_FORMAT_NODE_MAP {
        match read_map(mem, word_addr(node.u), limit) {
            Ok(es) => Ok(NodeView::Dict(es)),
            Err(f) => Err(f),
        }
    } else if node.format == raw::MPV_FORMAT_BYTE_ARRAY {
        match byte_array_behind(mem, word_addr(node.u), limit) {
            Ok(bs) => Ok(NodeView::ByteArray(bs)),
            Err(f) => Err(f),
        }
    } else {
        Err(Fault::Unrecognized)
    }
}

/// What a pointer to a node list reads as, taken as an array.
pub open spec fn read_list(mem: Memory, ptr: Addr, limit: Addr) -> Result<Seq<NodeView>, Fault>
    decreases limit, 1nat,
{
    match mem.list_at(ptr, limit) {
        Some(list) => read_list_cell(mem, list, (ptr - 1) as usize),
        None => Err(Fault::Pointer),
    }
}

/// What a node list reads as, taken as an array: its first `num` nodes, in
/// order. The first node that cannot be read decides the fault.
pub open spec fn read_list_cell(mem: Memory, list: RawNodeList, limit: Addr) -> Result<
    Seq<NodeView>,
    Fault,
>
    decreases limit, 0nat,
{
    match mem.nodes_at(list.values, limit) {
        Some(nodes) => if 0 <= list.num <= nodes.len() {
            read_nodes(mem, nodes, list.num as nat, (list.values - 1) as usize)
        } else {
            Err(Fault::Pointer)
        },
        None => Err(Fault::Pointer),
    }
}

/// What a pointer to a node list reads as, taken as a map.
pub open spec fn read_map(mem: Memory, ptr: Addr, limit: Addr) -> Result<Entries, Fault>
    decreases limit, 1nat,
{
    match mem.list_at(ptr, limit) {
        Some(list) => read_map_cell(mem, list, (ptr - 1) as usize),
        None => Err(Fault::Pointer),
    }
}

/// What a node list reads as, taken as a map. All values are read before
/// any key; keys and values are then inserted in order, so that where the
/// foreign side repeats a key, the last value is the one that stays.
pub open spec fn read_map_cell(mem: Memory, list: RawNodeList, limit: Addr) -> Result<
    Entries,
    Fault,
>
    decreases limit, 0nat,
{
    match (mem.nodes_at(list.values, limit), mem.pointers_at(list.keys, limit)) {
        (Some(nodes), Some(keys)) => if 0 <= list.num <= nodes.len() && list.num <= keys.len() {
            match read_nodes(mem, nodes, list.num as nat, (list.values - 1) as usize) {
                Err(f) => Err(f),
                Ok(vs) => match read_keys(mem, keys, list.num as nat, (list.keys - 1) as usize) {
                    Err(f) => Err(f),
                    Ok(ks) => Ok(zip_entries(ks, vs, list.num as nat)),
                },
            }
        } else {
            Err(Fault::Pointer)
        },
        _ => Err(Fault::Pointer),
    }
}

/// What the first `count` nodes of a contiguous array read as.
pub open spec fn read_nodes(mem: Memory, nodes: Seq<RawNode>, count: nat, limit: Addr) -> Result<
    Seq<NodeView>,
    Fault,
>
    decreases limit, count + 3,
{
    if count == 0 {
        Ok(Seq::empty())
    } else {
        match read_nodes(mem, nodes, (count - 1) as nat, limit) {
            Err(f) => Err(f),
            Ok(vs) => match read_node(mem, nodes[count - 1], limit) {
                Err(f) => Err(f),
                Ok(v) => Ok(vs.push(v)),
            },
        }
    }
}

/// What the first `count` pointers of a contiguous array of keys read as.
pub open spec fn read_keys(mem: Memory, keys: Seq<Addr>, count: nat, limit: Addr) -> Result<
    Seq<Seq<char>>,
    Fault,
>
    decreases count,
{
    if count == 0 {
        Ok(Seq::empty())
    } else {
        match read_keys(mem, keys, (count - 1) as nat, limit) {
            Err(f) => Err(f),
            Ok(ks) => match text_at(mem, keys[count - 1], limit) {
                Err(f) => Err(f),
                Ok(k) => Ok(ks.push(k)),
            },
        }
    }
}

/// What was read has as many items as were asked for.
pub proof fn lemma_read_nodes_len(mem: Memory, nodes: Seq<RawNode>, count: nat, limit: Addr)
    ensures
        read_nodes(mem, nodes, count, limit) matches Ok(vs) ==> vs.len() == count,
    decreases count,
{
    if count > 0 {
        lemma_read_nodes_len(mem, nodes, (count - 1) as nat, limit);
    }
}

/// What was read has as many keys as were asked for.
pub proof fn lemma_read_keys_len(mem: Memory, keys: Seq<Addr>, count: nat, limit: Addr)
    ensures
        read_keys(mem, keys, count, limit) matches Ok(ks) ==> ks.len() == count,
    decreases count,
{
    if count > 0 {
        lemma_read_keys_len(mem, keys, (count - 1) as nat, limit);
    }
}

/// Reading is fail-fast: once a node cannot be read, reading further nodes
/// reports the same fault.
pub proof fn lemma_read_nodes_stuck(
    mem: Memory,
    nodes: Seq<RawNode>,
    count: nat,
    more: nat,
    limit: Addr,
)
    requires
        count <= more,
        read_nodes(mem, nodes, count, limit) is Err,
    ensures
        read_nodes(mem, nodes, more, limit) == read_nodes(mem, nodes, count, limit),
    decreases more,
{
    if count < more {
        lemma_read_nodes_stuck(mem, nodes, count, (more - 1) as nat, limit);
    }
}

/// Reading is fail-fast: once a key cannot be read, reading further keys
/// reports the same fault.
pub proof fn lemma_read_keys_stuck(
    mem: Memory,
    keys: Seq<Addr>,
    count: nat,
    more: nat,
    limit: Addr,
)
    requires
        count <= more,
        read_keys(mem, keys, count, limit) is Err,
    ensures
        read_keys(mem, keys, more, limit) == read_keys(mem, keys, count, limit),
    decreases more,
{
    if count < more {
        lemma_read_keys_stuck(mem, keys, count, (more - 1) as nat, limit);
    }
}

/// The entries that come of inserting `count` keys depend on those keys and
/// their values only.
pub proof fn lemma_zip_prefix(
    keys: Seq<Seq<char>>,
    other: Seq<Seq<char>>,
    values: Seq<NodeView>,
    count: nat,
)
    requires
        count <= keys.len(),
        count <= other.len(),
        forall|i: int| 0 <= i < count ==> keys[i] == other[i],
    ensures
        zip_entries(keys, values, count) == zip_entries(other, values, count),
    decreases count,
{
    if count > 0 {
        lemma_zip_prefix(keys, other, values, (count - 1) as nat);
    }
}

/// Whether the outcome of reading a node is the specified one.
pub open spec fn node_reads_as(r: Result<Node, Error>, expected: Result<NodeView, Fault>) -> bool {
    match (r, expected) {
        (Ok(node), Ok(v)) => node@ == v,
        (Err(e), Err(f)) => e.reports(f),
        _ => false,
    }
}

/// Whether the outcome of reading an array is the specified one.
pub open spec fn array_reads_as(
    r: Result<Vec<Node>, Error>,
    expected: Result<Seq<NodeView>, Fault>,
) -> bool {
    match (r, expected) {
        (Ok(nodes), Ok(vs)) => nodes_view(nodes@) == vs,
        (Err(e), Err(f)) => e.reports(f),
        _ => false,
    }
}

/// Whether the outcome of reading a map is the specified one.
pub open spec fn map_reads_as(r: Result<NodeMap, Error>, expected: Result<Entries, Fault>) -> bool {
    match (r, expected) {
        (Ok(map), Ok(es)) => map@ == es && map.wf(),
        (Err(e), Err(f)) => e.reports(f),
        _ => false,
    }
}

/// Whether an attempt at reading a node came to the specified outcome:
/// nothing where an unrecognized value was met, else the outcome.
pub open spec fn node_tried_as(
    r: Option<Result<Node, Error>>,
    expected: Result<NodeView, Fault>,
) -> bool {
    match r {
        Some(outcome) => recognized(expected) && node_reads_as(outcome, expected),
        None => !recognized(expected),
    }
}

/// Whether an attempt at reading an array came to the specified outcome.
pub open spec fn array_tried_as(
    r: Option<Result<Vec<Node>, Error>>,
    expected: Result<Seq<NodeView>, Fault>,
) -> bool {
    match r {
        Some(outcome) => recognized(expected) && array_reads_as(outcome, expected),
        None => !recognized(expected),
    }
}

/// Whether an attempt at reading a map came to the specified outcome.
pub open spec fn map_tried_as(
    r: Option<Result<NodeMap, Error>>,
    expected: Result<Entries, Fault>,
) -> bool {
    match r {
        Some(outcome) => recognized(expected) && map_reads_as(outcome, expected),
        None => !recognized(expected),
    }
}

/// Reads a node, whatever its discriminator is. Returns nothing where the
/// walk meets a discriminator that a node cannot have.
pub fn try_node_from_raw(mem: &Memory, node: &RawNode, limit: Addr) -> (r: Option<
    Result<Node, Error>,
>)
    ensures
        node_tried_as(r, read_node(*mem, *node, limit)),
    decreases limit, 2nat,
{
    if node.format == raw::MPV_FORMAT_NONE {
        Some(Ok(Node::Empty))
    } else if node.format == raw::MPV_FORMAT_STRING {
        match read_text(mem, node.addr(), limit) {
            Ok(s) => Some(Ok(Node::String(s))),
            Err(e) => Some(Err(e)),
        }
    } else if node.format == raw::MPV_FORMAT_FLAG {
        Some(Ok(Node::Flag(node.flag())))
    } else if node.format == raw::MPV_FORMAT_INT64 {
        Some(Ok(Node::Int64(node.int64())))
    } else if node.format == raw::MPV_FORMAT_DOUBLE {
        Some(Ok(Node::Double(Double { bits: node.u })))
    } else if node.format == raw::MPV_FORMAT_NODE_ARRAY {
        match try_array_from_ptr(mem, node.addr(), limit) {
            Some(Ok(nodes)) => {
                let r = Node::Array(nodes);
                proof {
                    lemma_view_unfold(r);
                }
                Some(Ok(r))
            },
            Some(Err(e)) => Some(Err(e)),
            None => None,
        }
    } else if node.format == raw::MPV_FORMAT_NODE_MAP {
        match try_map_from_ptr(mem, node.addr(), limit) {
            Some(Ok(map)) => {
                let r = Node::Dict(map);
                proof {
                    lemma_view_unfold(r);
                }
                Some(Ok(r))
            },
            Some(Err(e)) => Some(Err(e)),
            None => None,
        }
    } else if node.format == raw::MPV_FORMAT_BYTE_ARRAY {
        match read_byte_array(mem, node.addr(), limit) {
            Ok(bytes) => Some(Ok(Node::ByteArray(bytes))),
            Err(e) => Some(Err(e)),
        }
    } else {
        None
    }
}

/// Reads the array behind a pointer to a node list, whatever the
/// discriminators of its nodes are.
pub fn try_array_from_ptr(mem: &Memory, ptr: Addr, limit: Addr) -> (r: Option<
    Result<Vec<Node>, Error>,
>)
    ensures
        array_tried_as(r, read_list(*mem, ptr, limit)),
    decreases limit, 1nat,
{
    match mem.get(ptr, limit) {
        Some(Block::NodeList(list)) => try_array_from_list(mem, list, ptr - 1),
        _ => Some(Err(Error::pointer())),
    }
}

/// Reads the array that a node list stands for, whatever the
/// discriminators of its nodes are.
pub fn try_array_from_list(mem: &Memory, list: &RawNodeList, limit: Addr) -> (r: Option<
    Result<Vec<Node>, Error>,
>)
    ensures
        array_tried_as(r, read_list_cell(*mem, *list, limit)),
    decreases limit, 0nat,
{
    match mem.get(list.values, limit) {
        Some(Block::Nodes(nodes)) => {
            if 0 <= list.num && list.num as usize <= nodes.len() {
                try_nodes_from_block(mem, nodes, list.num as usize, list.values - 1)
            } else {
                Some(Err(Error::pointer()))
            }
        },
        _ => Some(Err(Error::pointer())),
    }
}

/// Reads the first `count` nodes of a contiguous array, and stops at the
/// first that cannot be read.
pub fn try_nodes_from_block(mem: &Memory, nodes: &Vec<RawNode>, count: usize, limit: Addr) -> (r:
    Option<Result<Vec<Node>, Error>>)
    requires
        count <= nodes@.len(),
    ensures
        array_tried_as(r, read_nodes(*mem, nodes@, count as nat, limit)),
    decreases limit, 3nat,
{
    let mut out: Vec<Node> = Vec::new();
    let mut i: usize = 0;
    assert(nodes_view(out@) =~= Seq::<NodeView>::empty());
    while i < count
        invariant
            i <= count <= nodes@.len(),
            read_nodes(*mem, nodes@, i as nat, limit) == Ok::<Seq<NodeView>, Fault>(
                nodes_view(out@),
            ),
        decreases count - i,
    {
        proof {
            if read_node(*mem, nodes@[i as int], limit) is Err {
                lemma_read_nodes_stuck(*mem, nodes@, (i + 1) as nat, count as nat, limit);
            }
        }
        match try_node_from_raw(mem, &nodes[i], limit) {
            Some(Ok(node)) => {
                proof {
                    assert(nodes_view(out@.push(node)) =~= nodes_view(out@).push(node@));
                }
                out.push(node);
            },
            Some(Err(e)) => {
                return Some(Err(e));
            },
            None => {
                return None;
            },
        }
        i += 1;
    }
    Some(Ok(out))
}

/// Reads the map behind a pointer to a node list, whatever the
/// discriminators of its nodes are.
pub fn try_map_from_ptr(mem: &Memory, ptr: Addr, limit: Addr) -> (r: Option<
    Result<NodeMap, Error>,
>)
    ensures
        map_tried_as(r, read_map(*mem, ptr, limit)),
    decreases limit, 1nat,
{
    match mem.get(ptr, limit) {
        Some(Block::NodeList(list)) => try_map_from_list(mem, list, ptr - 1),
        _ => Some(Err(Error::pointer())),
    }
}

/// The items of a vector in reverse order.
pub fn reversed<T>(v: Vec<T>) -> (r: Vec<T>)
    ensures
        r@.len() == v@.len(),
        forall|j: int| 0 <= j < r@.len() ==> r@[j] == v@[v@.len() - 1 - j],
{
    let mut rest = v;
    let mut out: Vec<T> = Vec::new();
    while rest.len() > 0
        invariant
            rest@.len() + out@.len() == v@.len(),
            forall|j: int| 0 <= j < rest@.len() ==> rest@[j] == v@[j],
            forall|j: int| 0 <= j < out@.len() ==> out@[j] == v@[v@.len() - 1 - j],
        decreases rest@.len(),
    {
        match rest.pop() {
            Some(item) => {
                out.push(item);
            },
            None => {},
        }
    }
    out
}

/// Reads the map that a node list stands for, whatever the discriminators
/// of its nodes are.
#[verifier::loop_isolation(false)]
pub fn try_map_from_list(mem: &Memory, list: &RawNodeList, limit: Addr) -> (r: Option<
    Result<NodeMap, Error>,
>)
    ensures
        map_tried_as(r, read_map_cell(*mem, *list, limit)),
    decreases limit, 0nat,
{
    let nodes = match mem.get(list.values, limit) {
        Some(Block::Nodes(nodes)) => nodes,
        _ => {
            return Some(Err(Error::pointer()));
        },
    };
    let keys = match mem.get(list.keys, limit) {
        Some(Block::Pointers(keys)) => keys,
        _ => {
            return Some(Err(Error::pointer()));
        },
    };
    if !(0 <= list.num && list.num as usize <= nodes.len() && list.num as usize <= keys.len()) {
        return Some(Err(Error::pointer()));
    }
    let count = list.num as usize;
    let values = match try_nodes_from_block(mem, nodes, count, list.values - 1) {
        Some(Ok(values)) => values,
        Some(Err(e)) => {
            return Some(Err(e));
        },
        None => {
            return None;
        },
    };
    let ghost vs = nodes_view(values@);
    let ghost key_limit = (list.keys - 1) as usize;
    proof {
        lemma_read_nodes_len(*mem, nodes@, count as nat, (list.values - 1) as usize);
    }
    let mut rest = reversed(values);
    let mut map = NodeMap::new();
    let mut i: usize = 0;
    while i < count
        invariant
            i <= count <= keys@.len(),
            key_limit == list.keys - 1,
            list.keys > 0,
            vs.len() == count,
            rest@.len() == count - i,
            forall|j: int| 0 <= j < rest@.len() ==> (#[trigger] rest@[j])@ == vs[count - 1 - j],
            read_keys(*mem, keys@, i as nat, key_limit) matches Ok(ks) && map@ == zip_entries(
                ks,
                vs,
                i as nat,
            ),
            map.wf(),
        decreases count - i,
    {
        let ghost ks = read_keys(*mem, keys@, i as nat, key_limit)->Ok_0;
        match read_text(mem, keys[i], list.keys - 1) {
            Ok(key) => {
                match rest.pop() {
                    Some(value) => {
                        proof {
                            lemma_read_keys_len(*mem, keys@, i as nat, key_limit);
                            lemma_zip_prefix(ks, ks.push(key@), vs, i as nat);
                        }
                        map.insert(key, value);
                    },
                    None => {},
                }
            },
            Err(e) => {
                proof {
                    lemma_read_keys_stuck(*mem, keys@, (i + 1) as nat, count as nat, key_limit);
                }
                return Some(Err(e));
            },
        }
        i += 1;
    }
    Some(Ok(map))
}

/// Reads a node.
pub fn node_from_raw(mem: &Memory, node: &RawNode, limit: Addr) -> (r: Result<Node, Error>)
    requires
        recognized(read_node(*mem, *node, limit)),
    ensures
        node_reads_as(r, read_node(*mem, *node, limit)),
{
    match try_node_from_raw(mem, node, limit) {
        Some(r) => r,
        None => {
            proof {
                assert(false);
            }
            Err(Error::pointer())
        },
    }
}

/// Reads the array behind a pointer to a node list.
pub fn array_from_ptr(mem: &Memory, ptr: Addr, limit: Addr) -> (r: Result<Vec<Node>, Error>)
    requires
        recognized(read_list(*mem, ptr, limit)),
    ensures
        array_reads_as(r, read_list(*mem, ptr, limit)),
{
    match try_array_from_ptr(mem, ptr, limit) {
        Some(r) => r,
        None => {
            proof {
                assert(false);
            }
            Err(Error::pointer())
        },
    }
}

/// Reads the array that a node list stands for.
pub fn array_from_list(mem: &Memory, list: &RawNodeList, limit: Addr) -> (r: Result<
    Vec<Node>,
    Error,
>)
    requires
        recognized(read_list_cell(*mem, *list, limit)),
    ensures
        array_reads_as(r, read_list_cell(*mem, *list, limit)),
{
    match try_array_from_list(mem, list, limit) {
        Some(r) => r,
        None => {
            proof {
                assert(false);
            }
            Err(Error::pointer())
        },
    }
}

/// Reads the map behind a pointer to a node list.
pub fn map_from_ptr(mem: &Memory, ptr: Addr, limit: Addr) -> (r: Result<NodeMap, Error>)
    requires
        recognized(read_map(*mem, ptr, limit)),
    ensures
        map_reads_as(r, read_map(*mem, ptr, limit)),
{
    match try_map_from_ptr(mem, ptr, limit) {
        Some(r) => r,
        None => {
            proof {
                assert(false);
            }
            Err(Error::pointer())
        },
    }
}

/// Reads the map that a node list stands for.
pub fn map_from_list(mem: &Memory, list: &RawNodeList, limit: Addr) -> (r: Result<NodeMap, Error>)
    requires
        recognized(read_map_cell(*mem, *list, limit)),
    ensures
        map_reads_as(r, read_map_cell(*mem, *list, limit)),
{
    match try_map_from_list(mem, list, limit) {
        Some(r) => r,
        None => {
            proof {
                assert(false);
            }
            Err(Error::pointer())
        },
    }
}


/// An empty node reads as the empty value, whatever its payload holds.
pub proof fn lemma_empty_ignores_payload(mem: Memory, u: u64, limit: Addr)
    ensures
        read_node(mem, RawNode { format: raw::MPV_FORMAT_NONE, u }, limit) == Ok::<
            NodeView,
            Fault,
        >(NodeView::Empty),
{
}

/// A node of text, of an array, of a map or of a byte array whose pointer is
/// null is rejected with a pointer fault.
pub proof fn lemma_null_rejected(mem: Memory, node: RawNode, limit: Addr)
    requires
        node.format == raw::MPV_FORMAT_STRING || node.format == raw::MPV_FORMAT_NODE_ARRAY
            || node.format == raw::MPV_FORMAT_NODE_MAP || node.format
            == raw::MPV_FORMAT_BYTE_ARRAY,
        word_addr(node.u) == crate::memory::NULL,
    ensures
        read_node(mem, node, limit) == Err::<NodeView, Fault>(Fault::Pointer),
{
}

/// A node list whose values pointer is null is rejected with a pointer
/// fault, as an array and as a map, whatever its count is.
pub proof fn lemma_null_values_rejected(mem: Memory, list: RawNodeList, limit: Addr)
    requires
        list.values == crate::memory::NULL,
    ensures
        read_list_cell(mem, list, limit) == Err::<Seq<NodeView>, Fault>(Fault::Pointer),
        read_map_cell(mem, list, limit) == Err::<Entries, Fault>(Fault::Pointer),
{
}

/// A node list whose keys pointer is null is rejected as a map with a
/// pointer fault.
pub proof fn lemma_null_keys_rejected(mem: Memory, list: RawNodeList, limit: Addr)
    requires
        list.keys == crate::memory::NULL,
    ensures
        read_map_cell(mem, list, limit) == Err::<Entries, Fault>(Fault::Pointer),
{
}

/// A byte array structure whose data pointer is null is rejected with a
/// pointer fault.
pub proof fn lemma_null_data_rejected(
    mem: Memory,
    ba: crate::memory::RawByteArray,
    limit: Addr,
)
    requires
        ba.data == crate::memory::NULL,
    ensures
        crate::types::byte_array::bytes_behind(mem, ba, limit) == Err::<Seq<u8>, Fault>(
            Fault::Pointer,
        ),
{
}

/// A node of text whose buffer does not hold UTF-8 before its terminator is
/// rejected with a UTF-8 fault.
pub proof fn lemma_malformed_text_rejected(
    mem: Memory,
    node: RawNode,
    limit: Addr,
    buffer: Seq<u8>,
    end: int,
)
    requires
        node.format == raw::MPV_FORMAT_STRING,
        mem.bytes_at(word_addr(node.u), limit) == Some(buffer),
        crate::text::first_nul(buffer) == Some(end),
        !vstd::utf8::valid_utf8(buffer.subrange(0, end)),
    ensures
        read_node(mem, node, limit) == Err::<NodeView, Fault>(
            Fault::Utf8(buffer.subrange(0, end)),
        ),
{
}

} // verus!
