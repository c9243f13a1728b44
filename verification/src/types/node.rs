//! Nodes: values that carry their own format, and may nest.
use vstd::prelude::*;
use crate::error::{Error, Fault};
use crate::format::Format;
use crate::memory::{mpv_free_node_contents, Addr, Block, Memory, RawNode};
use crate::types::basics::Double;
use crate::types::reading::{node_from_raw, read_node, try_node_from_raw};
use crate::types::traits::{recognized, MpvFormat, MpvRecv, MpvSend};
use crate::types::writing::{holds_node, lemma_holds_node_extends, unwritable_node, write_node};

verus! {

/// An ordered sequence of nodes.
pub type NodeArray = Vec<Node>;

/// A map from text keys to nodes.
///
/// The entries are kept in the order in which their keys were first
/// inserted. A map is well formed when no key occurs twice; every function
/// that builds a map builds a well-formed one.
///
/// `==` compares the entries in their order. The order is not part of what
/// a map means: `same_entries` compares two maps as maps, and `Node::same`
/// does so for the maps inside a node.
#[derive(Debug, PartialEq)]
pub struct NodeMap {
    /// The entries, each a key and its value.
    ///
    /// The field is open, so that a map can be put together by hand. A map
    /// put together with a key twice is not well formed: it is written to
    /// foreign memory as it stands, with both entries, and the foreign side,
    /// or reading it back, keeps one value for the key.
    pub entries: Vec<(String, Node)>,
}

/// Generic data storage for the arguments and replies of mpv.
#[derive(Debug, PartialEq)]
pub enum Node {
    /// The node is empty.
    Empty,
    /// The node holds text.
    String(String),
    /// The node holds a boolean flag.
    Flag(bool),
    /// The node holds an integer.
    Int64(i64),
    /// The node holds a double.
    Double(Double),
    /// The node holds an array of nodes.
    Array(NodeArray),
    /// The node holds a map from text keys to nodes.
    Dict(NodeMap),
    /// The node holds a raw, untyped byte array.
    ByteArray(Vec<u8>),
}

/// The mathematical value of a node.
pub enum NodeView {
    /// No value.
    Empty,
    /// Text.
    String(Seq<char>),
    /// A flag.
    Flag(bool),
    /// An integer.
    Int64(i64),
    /// A double, by its bit pattern.
    Double(u64),
    /// A sequence of values.
    Array(Seq<NodeView>),
    /// Keys with their values, in order.
    Dict(Seq<(Seq<char>, NodeView)>),
    /// Bytes.
    ByteArray(Seq<u8>),
}

/// The mathematical value of a node.
pub open spec fn node_view(node: Node) -> NodeView
    decreases node,
{
    match node {
        Node::Empty => NodeView::Empty,
        Node::String(s) => NodeView::String(s@),
        Node::Flag(b) => NodeView::Flag(b),
        Node::Int64(x) => NodeView::Int64(x),
        Node::Double(d) => NodeView::Double(d.bits),
        Node::Array(v) => NodeView::Array(
            Seq::new(
                v@.len(),
                |i: int|
                    if 0 <= i < v@.len() {
                        node_view(v@[i])
                    } else {
                        NodeView::Empty
                    },
            ),
        ),
        Node::Dict(m) => NodeView::Dict(
            Seq::new(
                m.entries@.len(),
                |i: int|
                    if 0 <= i < m.entries@.len() {
                        (m.entries@[i].0@, node_view(m.entries@[i].1))
                    } else {
                        (Seq::empty(), NodeView::Empty)
                    },
            ),
        ),
        Node::ByteArray(b) => NodeView::ByteArray(b@),
    }
}

impl View for Node {
    type V = NodeView;

    open spec fn view(&self) -> NodeView {
        node_view(*self)
    }
}

/// The values of a sequence of nodes.
pub open spec fn nodes_view(nodes: Seq<Node>) -> Seq<NodeView> {
    Seq::new(nodes.len(), |i: int| nodes[i]@)
}

/// The keys and values of a sequence of entries.
pub open spec fn entries_view(entries: Seq<(String, Node)>) -> Seq<(Seq<char>, NodeView)> {
    Seq::new(entries.len(), |i: int| (entries[i].0@, entries[i].1@))
}

impl View for NodeMap {
    type V = Seq<(Seq<char>, NodeView)>;

    open spec fn view(&self) -> Seq<(Seq<char>, NodeView)> {
        entries_view(self.entries@)
    }
}

/// The value of an array node is the values of its elements, and the value
/// of a map node is the keys and values of its entries.
pub proof fn lemma_view_unfold(node: Node)
    ensures
        node matches Node::Array(v) ==> node@ == NodeView::Array(nodes_view(v@)),
        node matches Node::Dict(m) ==> node@ == NodeView::Dict(m@),
{
    match node {
        Node::Array(v) => {
            assert(node@->Array_0 =~= nodes_view(v@));
        },
        Node::Dict(m) => {
            assert(node@->Dict_0 =~= m@);
        },
        _ => {},
    }
}

/// Whether no key occurs twice among the entries.
pub open spec fn distinct_keys(entries: Seq<(Seq<char>, NodeView)>) -> bool {
    forall|i: int, j: int|
        0 <= i < entries.len() && 0 <= j < entries.len() && i != j ==> entries[i].0
            != entries[j].0
}

impl NodeView {
    /// Whether every map in the value is well formed: none has a key twice.
    pub open spec fn wf(self) -> bool
        decreases self,
    {
        match self {
            NodeView::Array(vs) => forall|i: int| 0 <= i < vs.len() ==> (#[trigger] vs[i]).wf(),
            NodeView::Dict(es) => distinct_keys(es) && forall|i: int|
                0 <= i < es.len() ==> (#[trigger] es[i]).1.wf(),
            _ => true,
        }
    }

    /// Whether the counts in the value fit the count field of a node list,
    /// at every level.
    pub open spec fn fits(self) -> bool
        decreases self,
    {
        match self {
            NodeView::Array(vs) => vs.len() <= i32::MAX && forall|i: int|
                0 <= i < vs.len() ==> (#[trigger] vs[i]).fits(),
            NodeView::Dict(es) => es.len() <= i32::MAX && forall|i: int|
                0 <= i < es.len() ==> (#[trigger] es[i]).1.fits(),
            _ => true,
        }
    }
}

impl Clone for Node {
    /// A deep copy: a node with the same value.
    #[verifier::loop_isolation(false)]
    fn clone(&self) -> (r: Node)
        ensures
            r@ == self@,
        decreases self,
    {
        proof {
            lemma_view_unfold(*self);
        }
        match self {
            Node::Empty => Node::Empty,
            Node::String(s) => Node::String(s.clone()),
            Node::Flag(b) => Node::Flag(*b),
            Node::Int64(x) => Node::Int64(*x),
            Node::Double(d) => Node::Double(*d),
            Node::Array(v) => {
                let mut out: Vec<Node> = Vec::new();
                let mut i: usize = 0;
                while i < v.len()
                    invariant
                        i <= v.len(),
                        out@.len() == i,
                        forall|j: int| 0 <= j < i ==> out@[j]@ == v@[j]@,
                    decreases v.len() - i,
                {
                    out.push(v[i].clone());
                    i += 1;
                }
                assert(nodes_view(out@) =~= nodes_view(v@));
                let r = Node::Array(out);
                proof {
                    lemma_view_unfold(r);
                }
                r
            },
            Node::Dict(m) => {
                let mut out: Vec<(String, Node)> = Vec::new();
                let mut i: usize = 0;
                while i < m.entries.len()
                    invariant
                        i <= m.entries.len(),
                        out@.len() == i,
                        forall|j: int|
                            0 <= j < i ==> out@[j].0@ == m.entries@[j].0@ && out@[j].1@
                                == m.entries@[j].1@,
                    decreases m.entries.len() - i,
                {
                    let key = m.entries[i].0.clone();
                    let value = m.entries[i].1.clone();
                    out.push((key, value));
                    i += 1;
                }
                assert(entries_view(out@) =~= entries_view(m.entries@));
                let r = Node::Dict(NodeMap { entries: out });
                proof {
                    lemma_view_unfold(r);
                }
                r
            },
            Node::ByteArray(b) => {
                let copy = vstd::slice::slice_to_vec(b.as_slice());
                Node::ByteArray(copy)
            },
        }
    }
}

impl Clone for NodeMap {
    /// A deep copy: a map with the same entries.
    fn clone(&self) -> (r: NodeMap)
        ensures
            r@ == self@,
    {
        let mut out: Vec<(String, Node)> = Vec::new();
        let mut i: usize = 0;
        while i < self.entries.len()
            invariant
                i <= self.entries.len(),
                out@.len() == i,
                forall|j: int|
                    0 <= j < i ==> out@[j].0@ == self.entries@[j].0@ && out@[j].1@
                        == self.entries@[j].1@,
            decreases self.entries.len() - i,
        {
            let key = self.entries[i].0.clone();
            let value = self.entries[i].1.clone();
            out.push((key, value));
            i += 1;
        }
        assert(entries_view(out@) =~= entries_view(self.entries@));
        NodeMap { entries: out }
    }
}


/// The transient foreign shape of a node: a memory of its own, and in it
/// the node and everything that the node refers to.
#[derive(Debug)]
pub struct MpvNode {
    /// The memory that holds the shape.
    pub memory: Memory,
    /// Address of the node.
    pub node: Addr,
}

impl MpvNode {
    /// The address of the node.
    pub fn ptr(&self) -> (ptr: Addr)
        ensures
            ptr == self.node,
    {
        self.node
    }
}

/// What a pointer to a node reads as. What the node refers to lies below
/// the node.
pub open spec fn read_node_at(mem: Memory, ptr: Addr, limit: Addr) -> Result<NodeView, Fault> {
    match mem.nodes_at(ptr, limit) {
        Some(nodes) => if nodes.len() > 0 {
            read_node(mem, nodes[0], (ptr - 1) as usize)
        } else {
            Err(Fault::Pointer)
        },
        None => Err(Fault::Pointer),
    }
}

/// Whether the memory holds, at the address, a node that is the foreign
/// shape of a value.
pub open spec fn holds_node_at(mem: Memory, ptr: Addr, limit: Addr, value: NodeView) -> bool {
    &&& mem.nodes_at(ptr, limit) matches Some(nodes)
    &&& nodes.len() == 1
    &&& holds_node(mem, nodes[0], (ptr - 1) as usize, value)
}

/// How memory changes when a node is handed to the deallocation hook for
/// node contents: the call is recorded and nothing else changes.
pub open spec fn node_released(before: Memory, cell: RawNode, after: Memory) -> bool {
    &&& after.blocks == before.blocks
    &&& after.freed == before.freed
    &&& after.freed_nodes@ == before.freed_nodes@.push(cell)
}

impl Node {
    /// Reads a node through a pointer to it, whatever the discriminators
    /// are. Returns nothing where the walk meets a discriminator that a node
    /// cannot have.
    pub fn try_from_node_ptr(mem: &Memory, ptr: Addr) -> (r: Option<Result<Node, Error>>)
        ensures
            crate::types::reading::node_tried_as(r, read_node_at(*mem, ptr, usize::MAX)),
    {
        match mem.get(ptr, usize::MAX) {
            Some(Block::Nodes(nodes)) => {
                if nodes.len() > 0 {
                    try_node_from_raw(mem, &nodes[0], ptr - 1)
                } else {
                    Some(Err(Error::pointer()))
                }
            },
            _ => Some(Err(Error::pointer())),
        }
    }

    /// Reads a node through a pointer to it.
    pub fn from_node_ptr(mem: &Memory, ptr: Addr) -> (r: Result<Node, Error>)
        requires
            recognized(read_node_at(*mem, ptr, usize::MAX)),
        ensures
            crate::types::reading::node_reads_as(r, read_node_at(*mem, ptr, usize::MAX)),
    {
        match Node::try_from_node_ptr(mem, ptr) {
            Some(r) => r,
            None => {
                proof {
                    assert(false);
                }
                Err(Error::pointer())
            },
        }
    }

    /// Builds the transient foreign shape of the node.
    ///
    /// Fails when a piece of text in the node holds a NUL byte.
    pub fn to_mpv_repr(&self) -> (r: Result<MpvNode, Error>)
        ensures
            crate::types::writing::wrote(r, unwritable_node(self@)),
            r matches Ok(repr) ==> holds_node_at(repr.memory, repr.node, usize::MAX, self@),
    {
        let mut memory = Memory::new();
        match write_node(&mut memory, self) {
            Ok(raw) => {
                let ghost before = memory;
                let mut cell: Vec<RawNode> = Vec::new();
                cell.push(raw);
                let node = memory.allocate(Block::Nodes(cell));
                proof {
                    lemma_holds_node_extends(
                        memory,
                        before,
                        raw,
                        before.blocks.len(),
                        (node - 1) as usize,
                        self@,
                    );
                }
                Ok(MpvNode { memory, node })
            },
            Err(e) => Err(e),
        }
    }
}

impl MpvFormat for Node {
    type Model = NodeView;

    const MPV_FORMAT: Format = Format::Node;

    open spec fn model(&self) -> NodeView {
        self@
    }
}

impl MpvRecv for Node {
    type Cell = RawNode;

    open spec fn zeroed() -> RawNode {
        RawNode { format: 0, u: 0 }
    }

    open spec fn read_at(mem: Memory, ptr: Addr) -> Result<NodeView, Fault> {
        read_node_at(mem, ptr, usize::MAX)
    }

    open spec fn read_cell(mem: Memory, cell: RawNode) -> Result<NodeView, Fault> {
        read_node(mem, cell, usize::MAX)
    }

    open spec fn released(before: Memory, cell: RawNode, after: Memory) -> bool {
        node_released(before, cell, after)
    }

    fn zero_cell() -> RawNode {
        RawNode { format: 0, u: 0 }
    }

    fn from_ptr(mem: &Memory, ptr: Addr) -> (r: Result<Node, Error>) {
        Node::from_node_ptr(mem, ptr)
    }

    fn from_reply(mem: &mut Memory, status: Result<i32, Error>, cell: RawNode) -> (r: Result<
        Node,
        Error,
    >) {
        match status {
            Ok(_) => {
                match node_from_raw(mem, &cell, usize::MAX) {
                    Ok(node) => {
                        mpv_free_node_contents(mem, cell);
                        Ok(node)
                    },
                    Err(e) => Err(e),
                }
            },
            Err(e) => Err(e),
        }
    }

    fn from_mpv<F: FnOnce(Memory, RawNode) -> (Result<i32, Error>, Memory, RawNode)>(
        mem: &mut Memory,
        fun: F,
    ) -> (r: Result<Node, Error>) {
        let mut taken = Memory::new();
        core::mem::swap(mem, &mut taken);
        let (status, back, cell) = fun(taken, RawNode { format: 0, u: 0 });
        *mem = back;
        Self::from_reply(mem, status, cell)
    }
}

impl MpvSend for Node {
    open spec fn holds(mem: Memory, ptr: Addr, value: NodeView) -> bool {
        holds_node_at(mem, ptr, usize::MAX, value)
    }

    open spec fn unwritable(value: NodeView) -> Option<int> {
        unwritable_node(value)
    }

    fn to_mpv<F: FnOnce(&Memory, Addr) -> Result<i32, Error>>(&self, fun: F) -> (r: Result<
        i32,
        Error,
    >) {
        match self.to_mpv_repr() {
            Ok(repr) => {
                assert(Self::holds(repr.memory, repr.node, self.model()));
                fun(&repr.memory, repr.ptr())
            },
            Err(e) => Err(e),
        }
    }
}


impl From<String> for Node {
    fn from(value: String) -> (node: Node) {
        Node::String(value)
    }
}

impl vstd::std_specs::convert::FromSpecImpl<String> for Node {
    open spec fn obeys_from_spec() -> bool {
        true
    }

    open spec fn from_spec(value: String) -> Node {
        Node::String(value)
    }
}

impl From<&String> for Node {
    fn from(value: &String) -> (node: Node) {
        Node::String(value.clone())
    }
}

impl vstd::std_specs::convert::FromSpecImpl<&String> for Node {
    open spec fn obeys_from_spec() -> bool {
        true
    }

    open spec fn from_spec(value: &String) -> Node {
        Node::String(*value)
    }
}

impl From<bool> for Node {
    fn from(value: bool) -> (node: Node) {
        Node::Flag(value)
    }
}

impl vstd::std_specs::convert::FromSpecImpl<bool> for Node {
    open spec fn obeys_from_spec() -> bool {
        true
    }

    open spec fn from_spec(value: bool) -> Node {
        Node::Flag(value)
    }
}

impl From<i64> for Node {
    fn from(value: i64) -> (node: Node) {
        Node::Int64(value)
    }
}

impl vstd::std_specs::convert::FromSpecImpl<i64> for Node {
    open spec fn obeys_from_spec() -> bool {
        true
    }

    open spec fn from_spec(value: i64) -> Node {
        Node::Int64(value)
    }
}

impl From<Double> for Node {
    fn from(value: Double) -> (node: Node) {
        Node::Double(value)
    }
}

impl vstd::std_specs::convert::FromSpecImpl<Double> for Node {
    open spec fn obeys_from_spec() -> bool {
        true
    }

    open spec fn from_spec(value: Double) -> Node {
        Node::Double(value)
    }
}

impl From<Vec<Node>> for Node {
    fn from(value: Vec<Node>) -> (node: Node) {
        Node::Array(value)
    }
}

impl vstd::std_specs::convert::FromSpecImpl<Vec<Node>> for Node {
    open spec fn obeys_from_spec() -> bool {
        true
    }

    open spec fn from_spec(value: Vec<Node>) -> Node {
        Node::Array(value)
    }
}

impl From<NodeMap> for Node {
    fn from(value: NodeMap) -> (node: Node) {
        Node::Dict(value)
    }
}

impl vstd::std_specs::convert::FromSpecImpl<NodeMap> for Node {
    open spec fn obeys_from_spec() -> bool {
        true
    }

    open spec fn from_spec(value: NodeMap) -> Node {
        Node::Dict(value)
    }
}

impl From<Vec<u8>> for Node {
    fn from(value: Vec<u8>) -> (node: Node) {
        Node::ByteArray(value)
    }
}

impl vstd::std_specs::convert::FromSpecImpl<Vec<u8>> for Node {
    open spec fn obeys_from_spec() -> bool {
        true
    }

    open spec fn from_spec(value: Vec<u8>) -> Node {
        Node::ByteArray(value)
    }
}

impl Node {
    /// A node that holds a copy of the text.
    pub fn text(value: &str) -> (node: Node)
        ensures
            node@ == NodeView::String(value@),
    {
        Node::String(value.to_owned())
    }
}

} // verus!
