//! Raw, untyped byte arrays.
use vstd::prelude::*;
use vstd::slice::{slice_subrange, slice_to_vec};
use crate::error::{Error, Fault};
use crate::format::Format;
use crate::memory::{Addr, Block, Memory, RawByteArray};
use crate::types::traits::{MpvFormat, MpvRecv, MpvSend};

verus! {

/// A raw, untyped byte array. Only a few commands use it.
pub type ByteArray = Vec<u8>;

/// The transient foreign shape of a byte array: a memory of its own, and in
/// it the byte array structure and the bytes it points to. The buffer of
/// bytes stands for the storage of the value itself, which the foreign side
/// only reads.
#[derive(Debug)]
pub struct MpvByteArray {
    /// The memory that holds the shape.
    pub memory: Memory,
    /// Address of the byte array structure.
    pub byte_array: Addr,
}

impl MpvByteArray {
    /// The address of the byte array structure.
    pub fn ptr(&self) -> (ptr: Addr)
        ensures
            ptr == self.byte_array,
    {
        self.byte_array
    }
}

/// The bytes that a byte array structure stands for: the first `size` bytes
/// of the buffer that it points to.
pub open spec fn bytes_behind(mem: Memory, ba: RawByteArray, limit: Addr) -> Result<
    Seq<u8>,
    Fault,
> {
    match mem.bytes_at(ba.data, limit) {
        Some(buffer) => if ba.size <= buffer.len() {
            Ok(buffer.subrange(0, ba.size as int))
        } else {
            Err(Fault::Pointer)
        },
        None => Err(Fault::Pointer),
    }
}

/// What a pointer to a byte array structure reads as. The bytes lie below
/// the structure.
pub open spec fn byte_array_behind(mem: Memory, ptr: Addr, limit: Addr) -> Result<
    Seq<u8>,
    Fault,
> {
    match mem.byte_array_at(ptr, limit) {
        Some(ba) => bytes_behind(mem, ba, (ptr - 1) as usize),
        None => Err(Fault::Pointer),
    }
}

/// Whether the memory holds, at the address, a byte array structure for the
/// bytes: its size is their number, and it points to a buffer below it that
/// holds exactly them.
pub open spec fn holds_bytes(mem: Memory, ptr: Addr, limit: Addr, bytes: Seq<u8>) -> bool {
    &&& mem.byte_array_at(ptr, limit) matches Some(ba)
    &&& ba.size == bytes.len()
    &&& mem.bytes_at(ba.data, (ptr - 1) as usize) == Some(bytes)
}

/// A byte array structure that holds bytes reads as those bytes.
pub proof fn lemma_holds_bytes_reads(mem: Memory, ptr: Addr, limit: Addr, bytes: Seq<u8>)
    requires
        holds_bytes(mem, ptr, limit, bytes),
    ensures
        byte_array_behind(mem, ptr, limit) == Ok::<Seq<u8>, Fault>(bytes),
{
    assert(bytes.subrange(0, bytes.len() as int) =~= bytes);
}

/// Copies the bytes that a byte array structure stands for.
pub fn read_bytes(mem: &Memory, ba: &RawByteArray, limit: Addr) -> (r: Result<Vec<u8>, Error>)
    ensures
        match r {
            Ok(v) => bytes_behind(*mem, *ba, limit) == Ok::<Seq<u8>, Fault>(v@),
            Err(e) => bytes_behind(*mem, *ba, limit) matches Err(f) && e.reports(f),
        },
{
    match mem.get(ba.data, limit) {
        Some(Block::Bytes(buffer)) => {
            if ba.size <= buffer.len() {
                Ok(slice_to_vec(slice_subrange(buffer.as_slice(), 0, ba.size)))
            } else {
                Err(Error::pointer())
            }
        },
        _ => Err(Error::pointer()),
    }
}

/// Copies the bytes behind a pointer to a byte array structure.
pub fn read_byte_array(mem: &Memory, ptr: Addr, limit: Addr) -> (r: Result<Vec<u8>, Error>)
    ensures
        match r {
            Ok(v) => byte_array_behind(*mem, ptr, limit) == Ok::<Seq<u8>, Fault>(v@),
            Err(e) => byte_array_behind(*mem, ptr, limit) matches Err(f) && e.reports(f),
        },
{
    match mem.get(ptr, limit) {
        Some(Block::ByteArray(ba)) => read_bytes(mem, ba, ptr - 1),
        _ => Err(Error::pointer()),
    }
}

/// Writes the foreign shape of a byte array at the end of a memory and
/// returns the address of its structure.
pub fn write_byte_array(mem: &mut Memory, bytes: &Vec<u8>) -> (ptr: Addr)
    ensures
        final(mem).extends(*old(mem)),
        ptr == final(mem).blocks@.len(),
        ptr > old(mem).blocks@.len(),
        holds_bytes(*final(mem), ptr, ptr, bytes@),
{
    let copy = slice_to_vec(bytes.as_slice());
    let size = bytes.len();
    let data = mem.allocate(Block::Bytes(copy));
    let ptr = mem.allocate(Block::ByteArray(RawByteArray { data, size }));
    ptr
}

/// Builds the transient foreign shape of a byte array.
pub fn byte_array_to_mpv_repr(bytes: &Vec<u8>) -> (repr: MpvByteArray)
    ensures
        holds_bytes(repr.memory, repr.byte_array, usize::MAX, bytes@),
{
    let mut memory = Memory::new();
    let byte_array = write_byte_array(&mut memory, bytes);
    MpvByteArray { memory, byte_array }
}

impl MpvFormat for Vec<u8> {
    type Model = Seq<u8>;

    const MPV_FORMAT: Format = Format::ByteArray;

    open spec fn model(&self) -> Seq<u8> {
        self@
    }
}

impl MpvRecv for Vec<u8> {
    type Cell = RawByteArray;

    open spec fn zeroed() -> RawByteArray {
        RawByteArray { data: 0, size: 0 }
    }

    open spec fn read_at(mem: Memory, ptr: Addr) -> Result<Seq<u8>, Fault> {
        byte_array_behind(mem, ptr, usize::MAX)
    }

    open spec fn read_cell(mem: Memory, cell: RawByteArray) -> Result<Seq<u8>, Fault> {
        bytes_behind(mem, cell, usize::MAX)
    }

    open spec fn released(before: Memory, cell: RawByteArray, after: Memory) -> bool {
        after == before
    }

    fn zero_cell() -> RawByteArray {
        RawByteArray { data: 0, size: 0 }
    }

    fn from_ptr(mem: &Memory, ptr: Addr) -> (r: Result<Vec<u8>, Error>) {
        read_byte_array(mem, ptr, usize::MAX)
    }

    fn from_reply(mem: &mut Memory, status: Result<i32, Error>, cell: RawByteArray) -> (r: Result<
        Vec<u8>,
        Error,
    >) {
        match status {
            Ok(_) => read_bytes(mem, &cell, usize::MAX),
            Err(e) => Err(e),
        }
    }

    fn from_mpv<F: FnOnce(Memory, RawByteArray) -> (Result<i32, Error>, Memory, RawByteArray)>(
        mem: &mut Memory,
        fun: F,
    ) -> (r: Result<Vec<u8>, Error>) {
        let mut taken = Memory::new();
        core::mem::swap(mem, &mut taken);
        let (status, back, cell) = fun(taken, RawByteArray { data: 0, size: 0 });
        *mem = back;
        Self::from_reply(mem, status, cell)
    }
}

impl MpvSend for Vec<u8> {
    open spec fn holds(mem: Memory, ptr: Addr, value: Seq<u8>) -> bool {
        holds_bytes(mem, ptr, usize::MAX, value)
    }

    open spec fn unwritable(value: Seq<u8>) -> Option<int> {
        None
    }

    fn to_mpv<F: FnOnce(&Memory, Addr) -> Result<i32, Error>>(&self, fun: F) -> (r: Result<
        i32,
        Error,
    >) {
        let repr = byte_array_to_mpv_repr(self);
        assert(Self::holds(repr.memory, repr.byte_array, self.model()));
        fun(&repr.memory, repr.ptr())
    }
}

} // verus!
