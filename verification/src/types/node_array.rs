//! Arrays of nodes as a type of their own.
use vstd::prelude::*;
use crate::error::{Error, Fault};
use crate::format::Format;
use crate::memory::{Addr, Memory, RawNodeList};
use crate::types::node::{nodes_view, Node, NodeView};
use crate::types::reading::{array_from_list, array_from_ptr, read_list, read_list_cell};
use crate::types::traits::{MpvFormat, MpvRecv, MpvSend};
use crate::types::writing::{
    holds_list,
    lemma_holds_list_extends,
    unwritable_nodes,
    write_list,
};

verus! {

/// The transient foreign shape of an array: a memory of its own, and in it
/// the node list, the contiguous array of nodes that the list points to, and
/// what those nodes refer to.
#[derive(Debug)]
pub struct MpvNodeArray {
    /// The memory that holds the shape.
    pub memory: Memory,
    /// Address of the node list.
    pub node_list: Addr,
}

impl MpvNodeArray {
    /// The address of the node list.
    pub fn ptr(&self) -> (ptr: Addr)
        ensures
            ptr == self.node_list,
    {
        self.node_list
    }
}

/// Builds the transient foreign shape of an array.
///
/// Fails when a piece of text in the array holds a NUL byte.
pub fn array_to_mpv_repr(nodes: &Vec<Node>) -> (r: Result<MpvNodeArray, Error>)
    ensures
        crate::types::writing::wrote(r, unwritable_nodes(nodes_view(nodes@), nodes@.len())),
        r matches Ok(repr) ==> holds_list(
            repr.memory,
            repr.node_list,
            usize::MAX,
            nodes_view(nodes@),
        ),
{
    let mut memory = Memory::new();
    match write_list(&mut memory, nodes) {
        Ok(node_list) => {
            proof {
                lemma_holds_list_extends(
                    memory,
                    memory,
                    node_list,
                    node_list,
                    usize::MAX,
                    nodes_view(nodes@),
                );
            }
            Ok(MpvNodeArray { memory, node_list })
        },
        Err(e) => Err(e),
    }
}

impl MpvFormat for Vec<Node> {
    type Model = Seq<NodeView>;

    const MPV_FORMAT: Format = Format::NodeArray;

    open spec fn model(&self) -> Seq<NodeView> {
        nodes_view(self@)
    }
}

impl MpvRecv for Vec<Node> {
    type Cell = RawNodeList;

    open spec fn zeroed() -> RawNodeList {
        RawNodeList { num: 0, values: 0, keys: 0 }
    }

    open spec fn read_at(mem: Memory, ptr: Addr) -> Result<Seq<NodeView>, Fault> {
        read_list(mem, ptr, usize::MAX)
    }

    open spec fn read_cell(mem: Memory, cell: RawNodeList) -> Result<Seq<NodeView>, Fault> {
        read_list_cell(mem, cell, usize::MAX)
    }

    open spec fn released(before: Memory, cell: RawNodeList, after: Memory) -> bool {
        after == before
    }

    fn zero_cell() -> RawNodeList {
        RawNodeList { num: 0, values: 0, keys: 0 }
    }

    fn from_ptr(mem: &Memory, ptr: Addr) -> (r: Result<Vec<Node>, Error>) {
        array_from_ptr(mem, ptr, usize::MAX)
    }

    fn from_reply(mem: &mut Memory, status: Result<i32, Error>, cell: RawNodeList) -> (r: Result<
        Vec<Node>,
        Error,
    >) {
        match status {
            Ok(_) => array_from_list(mem, &cell, usize::MAX),
            Err(e) => Err(e),
        }
    }

    fn from_mpv<F: FnOnce(Memory, RawNodeList) -> (Result<i32, Error>, Memory, RawNodeList)>(
        mem: &mut Memory,
        fun: F,
    ) -> (r: Result<Vec<Node>, Error>) {
        let mut taken = Memory::new();
        core::mem::swap(mem, &mut taken);
        let (status, back, cell) = fun(taken, RawNodeList { num: 0, values: 0, keys: 0 });
        *mem = back;
        Self::from_reply(mem, status, cell)
    }
}

impl MpvSend for Vec<Node> {
    open spec fn holds(mem: Memory, ptr: Addr, value: Seq<NodeView>) -> bool {
        holds_list(mem, ptr, usize::MAX, value)
    }

    open spec fn unwritable(value: Seq<NodeView>) -> Option<int> {
        unwritable_nodes(value, value.len())
    }

    fn to_mpv<F: FnOnce(&Memory, Addr) -> Result<i32, Error>>(&self, fun: F) -> (r: Result<
        i32,
        Error,
    >) {
        match array_to_mpv_repr(self) {
            Ok(repr) => {
                assert(Self::holds(repr.memory, repr.node_list, self.model()));
                fun(&repr.memory, repr.ptr())
            },
            Err(e) => Err(e),
        }
    }
}

} // verus!
