//! A model of the memory that the bridge shares with the foreign side.
//!
//! Memory is a sequence of blocks. A block is one allocation of the foreign
//! layout: a scalar cell, a byte buffer, a contiguous array of pointers or of
//! nodes, or one of the interface's structures. An address is the number of a
//! block, counted from one; zero is the null pointer.
//!
//! Every read takes a limit, the highest address that the pointer may have.
//! Where nodes nest, a reader follows a pointer only below the block that it
//! found the pointer in: what a block refers to is laid out before the block.
//! This keeps every walk finite whatever the memory holds. An address above
//! the limit is as unusable as a null one, and so is an address whose block
//! does not have the shape that the reader expects.
use vstd::prelude::*;

verus! {

/// The number of a block in memory; zero for the null pointer.
pub type Addr = usize;

/// The null pointer.
pub const NULL: Addr = 0;

/// The tagged union of the interface: a format discriminator and one payload
/// word that all members of the union share.
///
/// A flag is the low half of the word, an integer is the word read as signed,
/// a double is the word as its bit pattern, and a pointer is the word as an
/// address.
#[derive(Debug, Clone, Copy, PartialEq, Eq)]
pub struct RawNode {
    /// The format discriminator.
    pub format: u32,
    /// The payload word.
    pub u: u64,
}

/// The list structure behind an array or a map node.
#[derive(Debug, Clone, Copy, PartialEq, Eq)]
pub struct RawNodeList {
    /// Number of entries.
    pub num: i32,
    /// Address of a contiguous array of `num` nodes.
    pub values: Addr,
    /// Address of a contiguous array of `num` pointers to terminated keys;
    /// unused for arrays.
    pub keys: Addr,
}

/// The structure behind a byte array node.
#[derive(Debug, Clone, Copy, PartialEq, Eq)]
pub struct RawByteArray {
    /// Address of the bytes.
    pub data: Addr,
    /// Number of bytes.
    pub size: usize,
}

/// The event structure that the event queue hands out.
#[derive(Debug, Clone, Copy, PartialEq, Eq)]
pub struct RawEvent {
    /// The event identifier.
    pub event_id: u32,
    /// Status code of the request that the event answers.
    pub error: i32,
    /// The value that the request was tagged with.
    pub reply_userdata: u64,
    /// Address of the structure that belongs to the event, if any.
    pub data: Addr,
}

/// Payload of a log message event.
#[derive(Debug, Clone, Copy, PartialEq, Eq)]
pub struct RawLogMessage {
    /// Address of the terminated module prefix.
    pub prefix: Addr,
    /// Address of the terminated level name.
    pub level: Addr,
    /// Address of the terminated message text.
    pub text: Addr,
    /// The level as a number.
    pub log_level: u32,
}

/// Payload of a property reply and of a property change event.
#[derive(Debug, Clone, Copy, PartialEq, Eq)]
pub struct RawEventProperty {
    /// Address of the terminated property name.
    pub name: Addr,
    /// Format of the value.
    pub format: u32,
    /// Address of the value, in the shape that the format gives it.
    pub data: Addr,
}

/// Payload of a client message event.
#[derive(Debug, Clone, Copy, PartialEq, Eq)]
pub struct RawClientMessage {
    /// Number of arguments.
    pub num_args: i32,
    /// Address of a contiguous array of pointers to terminated arguments.
    pub args: Addr,
}

/// Payload of a start-file event.
#[derive(Debug, Clone, Copy, PartialEq, Eq)]
pub struct RawStartFile {
    /// Playlist entry of the file being loaded.
    pub playlist_entry_id: i64,
}

/// Payload of an end-file event.
#[derive(Debug, Clone, Copy, PartialEq, Eq)]
pub struct RawEndFile {
    /// Why the file ended.
    pub reason: u32,
    /// Status code, meaningful when the reason is an error.
    pub error: i32,
    /// Playlist entry of the file that was played.
    pub playlist_entry_id: i64,
    /// Playlist entry of the first inserted entry, after a redirect.
    pub playlist_insert_id: i64,
    /// Number of inserted entries, after a redirect.
    pub playlist_insert_num_entries: i32,
}

/// Payload of a hook event.
#[derive(Debug, Clone, Copy, PartialEq, Eq)]
pub struct RawHook {
    /// Address of the terminated hook name.
    pub name: Addr,
    /// Identifier to continue the hook with.
    pub id: u64,
}

/// One allocation in foreign memory.
#[derive(Debug, Clone, PartialEq, Eq)]
pub enum Block {
    /// A flag cell: an integer of the platform's `int` width.
    Flag(i32),
    /// A signed 64-bit integer cell.
    Int64(i64),
    /// A double cell, held by its bit pattern.
    Double(u64),
    /// A buffer of bytes.
    Bytes(Vec<u8>),
    /// A contiguous array of pointers; a single pointer cell is an array of
    /// one.
    Pointers(Vec<Addr>),
    /// A contiguous array of nodes; a single node is an array of one.
    Nodes(Vec<RawNode>),
    /// A node list structure.
    NodeList(RawNodeList),
    /// A byte array structure.
    ByteArray(RawByteArray),
    /// An event structure.
    Event(RawEvent),
    /// A log message payload.
    LogMessage(RawLogMessage),
    /// A property payload.
    Property(RawEventProperty),
    /// A client message payload.
    ClientMessage(RawClientMessage),
    /// A start-file payload.
    StartFile(RawStartFile),
    /// An end-file payload.
    EndFile(RawEndFile),
    /// A hook payload.
    Hook(RawHook),
}

/// Foreign memory: its blocks, and a record of what was handed to the
/// deallocation hooks.
#[derive(Debug, Clone, PartialEq, Eq)]
pub struct Memory {
    /// The blocks; the block at address `a` is `blocks[a - 1]`.
    pub blocks: Vec<Block>,
    /// The addresses handed to [`mpv_free`], in the order of the calls.
    pub freed: Vec<Addr>,
    /// The nodes handed to [`mpv_free_node_contents`], in the order of the
    /// calls.
    pub freed_nodes: Vec<RawNode>,
}

/// The flag that a payload word holds: whether its low half is non-zero.
pub open spec fn word_flag(u: u64) -> bool {
    u & 0xffff_ffff != 0
}

/// The payload word that stands for a flag.
pub open spec fn flag_word(flag: bool) -> u64 {
    if flag {
        1
    } else {
        0
    }
}

/// The integer that a payload word holds: the word read as signed.
pub open spec fn word_int64(u: u64) -> i64 {
    u as i64
}

/// The payload word that stands for an integer: its two's complement.
pub open spec fn int64_word(value: i64) -> u64 {
    value as u64
}

/// The address that a payload word holds. A word that is no address of this
/// machine reads as null.
pub open spec fn word_addr(u: u64) -> Addr {
    if u <= usize::MAX {
        u as usize
    } else {
        NULL
    }
}

/// A flag is read back from its payload word.
pub proof fn lemma_flag_word(flag: bool)
    ensures
        word_flag(flag_word(flag)) == flag,
{
    assert(1u64 & 0xffff_ffff != 0) by (bit_vector);
    assert(0u64 & 0xffff_ffff == 0) by (bit_vector);
}

/// An integer is read back from its payload word.
pub proof fn lemma_int64_word(value: i64)
    ensures
        word_int64(int64_word(value)) == value,
{
    assert((value as u64) as i64 == value) by (bit_vector);
}

impl RawNode {
    /// The flag in the payload.
    pub fn flag(&self) -> (r: bool)
        ensures
            r == word_flag(self.u),
    {
        self.u & 0xffff_ffff != 0
    }

    /// The integer in the payload.
    pub fn int64(&self) -> (r: i64)
        ensures
            r == word_int64(self.u),
    {
        #[verifier::truncate]
        (self.u as i64)
    }

    /// The address in the payload.
    pub fn addr(&self) -> (r: Addr)
        ensures
            r == word_addr(self.u),
    {
        if self.u <= usize::MAX as u64 {
            #[verifier::truncate]
            (self.u as usize)
        } else {
            NULL
        }
    }
}

impl Memory {
    /// A memory without blocks.
    pub fn new() -> (mem: Memory)
        ensures
            mem.blocks@.len() == 0,
            mem.freed@.len() == 0,
            mem.freed_nodes@.len() == 0,
    {
        Memory { blocks: Vec::new(), freed: Vec::new(), freed_nodes: Vec::new() }
    }

    /// The block at an address, as seen from a block that may refer to
    /// addresses up to `limit`.
    pub open spec fn block_at(&self, addr: Addr, limit: Addr) -> Option<Block> {
        if 0 < addr <= limit && addr <= self.blocks@.len() {
            Some(self.blocks@[addr - 1])
        } else {
            None
        }
    }

    /// The flag cell at an address.
    pub open spec fn flag_at(&self, addr: Addr, limit: Addr) -> Option<i32> {
        match self.block_at(addr, limit) {
            Some(Block::Flag(x)) => Some(x),
            _ => None,
        }
    }

    /// The integer cell at an address.
    pub open spec fn int64_at(&self, addr: Addr, limit: Addr) -> Option<i64> {
        match self.block_at(addr, limit) {
            Some(Block::Int64(x)) => Some(x),
            _ => None,
        }
    }

    /// The double cell at an address.
    pub open spec fn double_at(&self, addr: Addr, limit: Addr) -> Option<u64> {
        match self.block_at(addr, limit) {
            Some(Block::Double(x)) => Some(x),
            _ => None,
        }
    }

    /// The byte buffer at an address.
    pub open spec fn bytes_at(&self, addr: Addr, limit: Addr) -> Option<Seq<u8>> {
        match self.block_at(addr, limit) {
            Some(Block::Bytes(b)) => Some(b@),
            _ => None,
        }
    }

    /// The pointer array at an address.
    pub open spec fn pointers_at(&self, addr: Addr, limit: Addr) -> Option<Seq<Addr>> {
        match self.block_at(addr, limit) {
            Some(Block::Pointers(p)) => Some(p@),
            _ => None,
        }
    }

    /// The node array at an address.
    pub open spec fn nodes_at(&self, addr: Addr, limit: Addr) -> Option<Seq<RawNode>> {
        match self.block_at(addr, limit) {
            Some(Block::Nodes(n)) => Some(n@),
            _ => None,
        }
    }

    /// The node list structure at an address.
    pub open spec fn list_at(&self, addr: Addr, limit: Addr) -> Option<RawNodeList> {
        match self.block_at(addr, limit) {
            Some(Block::NodeList(l)) => Some(l),
            _ => None,
        }
    }

    /// The byte array structure at an address.
    pub open spec fn byte_array_at(&self, addr: Addr, limit: Addr) -> Option<RawByteArray> {
        match self.block_at(addr, limit) {
            Some(Block::ByteArray(b)) => Some(b),
            _ => None,
        }
    }

    /// Whether this memory is `earlier` with blocks added at its end.
    pub open spec fn extends(&self, earlier: Memory) -> bool {
        &&& earlier.blocks@.len() <= self.blocks@.len()
        &&& forall|i: int| 0 <= i < earlier.blocks@.len() ==> self.blocks@[i] == earlier.blocks@[i]
        &&& self.freed@ == earlier.freed@
        &&& self.freed_nodes@ == earlier.freed_nodes@
    }

    /// The number of blocks, which is the highest address in use.
    pub fn top(&self) -> (addr: Addr)
        ensures
            addr == self.blocks@.len(),
    {
        self.blocks.len()
    }

    /// The block at an address, if the address is in use and not above
    /// `limit`.
    pub fn get(&self, addr: Addr, limit: Addr) -> (r: Option<&Block>)
        ensures
            match r {
                Some(b) => self.block_at(addr, limit) == Some(*b),
                None => self.block_at(addr, limit) is None,
            },
    {
        if 0 < addr && addr <= limit && addr <= self.blocks.len() {
            Some(&self.blocks[addr - 1])
        } else {
            None
        }
    }

    /// Adds a block at the end of memory and returns its address, which is
    /// never null.
    pub fn allocate(&mut self, block: Block) -> (addr: Addr)
        ensures
            final(self).blocks@ == old(self).blocks@.push(block),
            final(self).extends(*old(self)),
            addr == final(self).blocks@.len(),
            addr > 0,
            final(self).block_at(addr, addr) == Some(block),
    {
        self.blocks.push(block);
        self.blocks.len()
    }
}

/// The deallocation hook for a buffer that the foreign side allocated and
/// handed over. The call is recorded; the blocks stay as they are.
pub fn mpv_free(mem: &mut Memory, data: Addr)
    ensures
        final(mem).blocks == old(mem).blocks,
        final(mem).freed@ == old(mem).freed@.push(data),
        final(mem).freed_nodes == old(mem).freed_nodes,
{
    mem.freed.push(data);
}

/// The deallocation hook for what a node that the foreign side filled in
/// refers to. The call is recorded; the blocks stay as they are.
pub fn mpv_free_node_contents(mem: &mut Memory, node: RawNode)
    ensures
        final(mem).blocks == old(mem).blocks,
        final(mem).freed == old(mem).freed,
        final(mem).freed_nodes@ == old(mem).freed_nodes@.push(node),
{
    mem.freed_nodes.push(node);
}

} // verus!
