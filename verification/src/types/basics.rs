//! The scalar types: text, flags, integers and doubles.
use vstd::prelude::*;
use vstd::utf8::encode_utf8;
use crate::error::{Error, Fault};
use crate::format::Format;
use crate::memory::{mpv_free, Addr, Block, Memory};
use crate::text::{first_nul, read_text, terminated, text_at, to_c_bytes};
use crate::types::traits::{MpvFormat, MpvRecv, MpvSend};

verus! {

impl MpvFormat for bool {
    type Model = bool;

    const MPV_FORMAT: Format = Format::Flag;

    open spec fn model(&self) -> bool {
        *self
    }
}

impl MpvRecv for bool {
    type Cell = i32;

    open spec fn zeroed() -> i32 {
        0
    }

    open spec fn read_at(mem: Memory, ptr: Addr) -> Result<bool, Fault> {
        match mem.flag_at(ptr, usize::MAX) {
            Some(flag) => Ok(flag != 0),
            None => Err(Fault::Pointer),
        }
    }

    open spec fn read_cell(mem: Memory, cell: i32) -> Result<bool, Fault> {
        Ok(cell != 0)
    }

    open spec fn released(before: Memory, cell: i32, after: Memory) -> bool {
        after == before
    }

    fn zero_cell() -> i32 {
        0
    }

    fn from_ptr(mem: &Memory, ptr: Addr) -> (r: Result<bool, Error>) {
        match mem.get(ptr, usize::MAX) {
            Some(Block::Flag(flag)) => Ok(*flag != 0),
            _ => Err(Error::pointer()),
        }
    }

    fn from_reply(mem: &mut Memory, status: Result<i32, Error>, cell: i32) -> (r: Result<
        bool,
        Error,
    >) {
        match status {
            Ok(_) => Ok(cell != 0),
            Err(e) => Err(e),
        }
    }

    fn from_mpv<F: FnOnce(Memory, i32) -> (Result<i32, Error>, Memory, i32)>(
        mem: &mut Memory,
        fun: F,
    ) -> (r: Result<bool, Error>) {
        let mut taken = Memory::new();
        core::mem::swap(mem, &mut taken);
        let (status, back, cell) = fun(taken, 0);
        *mem = back;
        Self::from_reply(mem, status, cell)
    }
}

impl MpvSend for bool {
    open spec fn holds(mem: Memory, ptr: Addr, value: bool) -> bool {
        mem.flag_at(ptr, usize::MAX) == Some(
            if value {
                1i32
            } else {
                0i32
            },
        )
    }

    open spec fn unwritable(value: bool) -> Option<int> {
        None
    }

    fn to_mpv<F: FnOnce(&Memory, Addr) -> Result<i32, Error>>(&self, fun: F) -> (r: Result<
        i32,
        Error,
    >) {
        let mut mem = Memory::new();
        let flag: i32 = if *self {
            1
        } else {
            0
        };
        let ptr = mem.allocate(Block::Flag(flag));
        assert(Self::holds(mem, ptr, self.model()));
        fun(&mem, ptr)
    }
}


impl MpvFormat for i64 {
    type Model = i64;

    const MPV_FORMAT: Format = Format::Int64;

    open spec fn model(&self) -> i64 {
        *self
    }
}

impl MpvRecv for i64 {
    type Cell = i64;

    open spec fn zeroed() -> i64 {
        0
    }

    open spec fn read_at(mem: Memory, ptr: Addr) -> Result<i64, Fault> {
        match mem.int64_at(ptr, usize::MAX) {
            Some(value) => Ok(value),
            None => Err(Fault::Pointer),
        }
    }

    open spec fn read_cell(mem: Memory, cell: i64) -> Result<i64, Fault> {
        Ok(cell)
    }

    open spec fn released(before: Memory, cell: i64, after: Memory) -> bool {
        after == before
    }

    fn zero_cell() -> i64 {
        0
    }

    fn from_ptr(mem: &Memory, ptr: Addr) -> (r: Result<i64, Error>) {
        match mem.get(ptr, usize::MAX) {
            Some(Block::Int64(value)) => Ok(*value),
            _ => Err(Error::pointer()),
        }
    }

    fn from_reply(mem: &mut Memory, status: Result<i32, Error>, cell: i64) -> (r: Result<
        i64,
        Error,
    >) {
        match status {
            Ok(_) => Ok(cell),
            Err(e) => Err(e),
        }
    }

    fn from_mpv<F: FnOnce(Memory, i64) -> (Result<i32, Error>, Memory, i64)>(
        mem: &mut Memory,
        fun: F,
    ) -> (r: Result<i64, Error>) {
        let mut taken = Memory::new();
        core::mem::swap(mem, &mut taken);
        let (status, back, cell) = fun(taken, 0);
        *mem = back;
        Self::from_reply(mem, status, cell)
    }
}

impl MpvSend for i64 {
    open spec fn holds(mem: Memory, ptr: Addr, value: i64) -> bool {
        mem.int64_at(ptr, usize::MAX) == Some(value)
    }

    open spec fn unwritable(value: i64) -> Option<int> {
        None
    }

    fn to_mpv<F: FnOnce(&Memory, Addr) -> Result<i32, Error>>(&self, fun: F) -> (r: Result<
        i32,
        Error,
    >) {
        let mut mem = Memory::new();
        let ptr = mem.allocate(Block::Int64(*self));
        assert(Self::holds(mem, ptr, self.model()));
        fun(&mem, ptr)
    }
}

/// A 64-bit floating point number, held by its IEEE 754 bit pattern. The
/// bridge moves doubles without computing on them, so the pattern is all it
/// needs.
#[derive(Debug, Clone, Copy, PartialEq, Eq)]
pub struct Double {
    /// The bit pattern of the number.
    pub bits: u64,
}

impl Double {
    /// The double with the given bit pattern.
    pub fn from_bits(bits: u64) -> (d: Double)
        ensures
            d.bits == bits,
    {
        Double { bits }
    }

    /// The bit pattern of the double.
    pub fn to_bits(&self) -> (bits: u64)
        ensures
            bits == self.bits,
    {
        self.bits
    }
}

impl MpvFormat for Double {
    type Model = u64;

    const MPV_FORMAT: Format = Format::Double;

    open spec fn model(&self) -> u64 {
        self.bits
    }
}

impl MpvRecv for Double {
    type Cell = u64;

    open spec fn zeroed() -> u64 {
        0
    }

    open spec fn read_at(mem: Memory, ptr: Addr) -> Result<u64, Fault> {
        match mem.double_at(ptr, usize::MAX) {
            Some(bits) => Ok(bits),
            None => Err(Fault::Pointer),
        }
    }

    open spec fn read_cell(mem: Memory, cell: u64) -> Result<u64, Fault> {
        Ok(cell)
    }

    open spec fn released(before: Memory, cell: u64, after: Memory) -> bool {
        after == before
    }

    fn zero_cell() -> u64 {
        0
    }

    fn from_ptr(mem: &Memory, ptr: Addr) -> (r: Result<Double, Error>) {
        match mem.get(ptr, usize::MAX) {
            Some(Block::Double(bits)) => Ok(Double { bits: *bits }),
            _ => Err(Error::pointer()),
        }
    }

    fn from_reply(mem: &mut Memory, status: Result<i32, Error>, cell: u64) -> (r: Result<
        Double,
        Error,
    >) {
        match status {
            Ok(_) => Ok(Double { bits: cell }),
            Err(e) => Err(e),
        }
    }

    fn from_mpv<F: FnOnce(Memory, u64) -> (Result<i32, Error>, Memory, u64)>(
        mem: &mut Memory,
        fun: F,
    ) -> (r: Result<Double, Error>) {
        let mut taken = Memory::new();
        core::mem::swap(mem, &mut taken);
        let (status, back, cell) = fun(taken, 0);
        *mem = back;
        Self::from_reply(mem, status, cell)
    }
}

impl MpvSend for Double {
    open spec fn holds(mem: Memory, ptr: Addr, value: u64) -> bool {
        mem.double_at(ptr, usize::MAX) == Some(value)
    }

    open spec fn unwritable(value: u64) -> Option<int> {
        None
    }

    fn to_mpv<F: FnOnce(&Memory, Addr) -> Result<i32, Error>>(&self, fun: F) -> (r: Result<
        i32,
        Error,
    >) {
        let mut mem = Memory::new();
        let ptr = mem.allocate(Block::Double(self.bits));
        assert(Self::holds(mem, ptr, self.model()));
        fun(&mem, ptr)
    }
}

/// What a pointer to a text cell reads as: the cell holds a pointer to a
/// terminated buffer, which lies below the cell.
pub open spec fn text_cell_at(mem: Memory, ptr: Addr) -> Result<Seq<char>, Fault> {
    match mem.pointers_at(ptr, usize::MAX) {
        Some(cell) => if cell.len() > 0 {
            text_at(mem, cell[0], (ptr - 1) as usize)
        } else {
            Err(Fault::Pointer)
        },
        None => Err(Fault::Pointer),
    }
}

/// How memory changes when a text buffer is handed to the deallocation
/// hook: the call is recorded and nothing else changes.
pub open spec fn text_released(before: Memory, cell: Addr, after: Memory) -> bool {
    &&& after.blocks == before.blocks
    &&& after.freed@ == before.freed@.push(cell)
    &&& after.freed_nodes == before.freed_nodes
}

/// Whether the memory holds, at the address, a text cell for the text: a
/// pointer to a buffer below it with the bytes of the text and a terminator.
pub open spec fn holds_text(mem: Memory, ptr: Addr, text: Seq<char>) -> bool {
    &&& mem.pointers_at(ptr, usize::MAX) matches Some(cell)
    &&& cell.len() == 1
    &&& mem.bytes_at(cell[0], (ptr - 1) as usize) == Some(terminated(text))
}

/// Reads text through a pointer to a text cell.
pub fn text_from_ptr(mem: &Memory, ptr: Addr) -> (r: Result<String, Error>)
    ensures
        match r {
            Ok(s) => text_cell_at(*mem, ptr) == Ok::<Seq<char>, Fault>(s@),
            Err(e) => text_cell_at(*mem, ptr) matches Err(f) && e.reports(f),
        },
{
    match mem.get(ptr, usize::MAX) {
        Some(Block::Pointers(cell)) => {
            if cell.len() > 0 {
                read_text(mem, cell[0], ptr - 1)
            } else {
                Err(Error::pointer())
            }
        },
        _ => Err(Error::pointer()),
    }
}

/// Reads the text that a request left behind a text cell. The buffer is
/// handed to the deallocation hook once, after it was copied; a buffer that
/// could not be copied is left alone.
pub fn text_from_reply(mem: &mut Memory, status: Result<i32, Error>, cell: Addr) -> (r: Result<
    String,
    Error,
>)
    ensures
        match status {
            Err(e) => r == Err::<String, Error>(e) && *final(mem) == *old(mem),
            Ok(_) => match r {
                Ok(s) => text_at(*old(mem), cell, usize::MAX) == Ok::<Seq<char>, Fault>(s@)
                    && text_released(*old(mem), cell, *final(mem)),
                Err(e) => text_at(*old(mem), cell, usize::MAX) matches Err(f) && e.reports(f)
                    && *final(mem) == *old(mem),
            },
        },
{
    match status {
        Err(e) => Err(e),
        Ok(_) => {
            match read_text(mem, cell, usize::MAX) {
                Ok(s) => {
                    mpv_free(mem, cell);
                    Ok(s)
                },
                Err(e) => Err(e),
            }
        },
    }
}

/// Sends text with a request: builds the terminated buffer and the cell that
/// points to it, and hands the address of the cell to `fun`. Text with a
/// NUL byte is refused before any request is made.
pub fn text_to_mpv<F: FnOnce(&Memory, Addr) -> Result<i32, Error>>(text: &str, fun: F) -> (r:
    Result<i32, Error>)
    requires
        forall|mem: Memory, ptr: Addr|
            holds_text(mem, ptr, text@) ==> #[trigger] fun.requires((&mem, ptr)),
    ensures
        crate::types::traits::sent(first_nul(encode_utf8(text@)), r) || exists|
            mem: Memory,
            ptr: Addr,
        |
            first_nul(encode_utf8(text@)) is None && holds_text(mem, ptr, text@)
                && #[trigger] fun.ensures((&mem, ptr), r),
{
    match to_c_bytes(text) {
        Err(e) => Err(e),
        Ok(buffer) => {
            let mut mem = Memory::new();
            let cstr = mem.allocate(Block::Bytes(buffer));
            let mut cell: Vec<Addr> = Vec::new();
            cell.push(cstr);
            let ptr = mem.allocate(Block::Pointers(cell));
            assert(holds_text(mem, ptr, text@));
            fun(&mem, ptr)
        },
    }
}

impl MpvFormat for String {
    type Model = Seq<char>;

    const MPV_FORMAT: Format = Format::String;

    open spec fn model(&self) -> Seq<char> {
        self@
    }
}

impl MpvRecv for String {
    type Cell = Addr;

    open spec fn zeroed() -> Addr {
        0
    }

    open spec fn read_at(mem: Memory, ptr: Addr) -> Result<Seq<char>, Fault> {
        text_cell_at(mem, ptr)
    }

    open spec fn read_cell(mem: Memory, cell: Addr) -> Result<Seq<char>, Fault> {
        text_at(mem, cell, usize::MAX)
    }

    open spec fn released(before: Memory, cell: Addr, after: Memory) -> bool {
        text_released(before, cell, after)
    }

    fn zero_cell() -> Addr {
        0
    }

    fn from_ptr(mem: &Memory, ptr: Addr) -> (r: Result<String, Error>) {
        text_from_ptr(mem, ptr)
    }

    fn from_reply(mem: &mut Memory, status: Result<i32, Error>, cell: Addr) -> (r: Result<
        String,
        Error,
    >) {
        text_from_reply(mem, status, cell)
    }

    fn from_mpv<F: FnOnce(Memory, Addr) -> (Result<i32, Error>, Memory, Addr)>(
        mem: &mut Memory,
        fun: F,
    ) -> (r: Result<String, Error>) {
        let mut taken = Memory::new();
        core::mem::swap(mem, &mut taken);
        let (status, back, cell) = fun(taken, 0);
        *mem = back;
        Self::from_reply(mem, status, cell)
    }
}

impl MpvSend for String {
    open spec fn holds(mem: Memory, ptr: Addr, value: Seq<char>) -> bool {
        holds_text(mem, ptr, value)
    }

    open spec fn unwritable(value: Seq<char>) -> Option<int> {
        first_nul(encode_utf8(value))
    }

    fn to_mpv<F: FnOnce(&Memory, Addr) -> Result<i32, Error>>(&self, fun: F) -> (r: Result<
        i32,
        Error,
    >) {
        text_to_mpv(self.as_str(), fun)
    }
}

impl MpvFormat for &str {
    type Model = Seq<char>;

    const MPV_FORMAT: Format = Format::String;

    open spec fn model(&self) -> Seq<char> {
        self@
    }
}

impl MpvSend for &str {
    open spec fn holds(mem: Memory, ptr: Addr, value: Seq<char>) -> bool {
        holds_text(mem, ptr, value)
    }

    open spec fn unwritable(value: Seq<char>) -> Option<int> {
        first_nul(encode_utf8(value))
    }

    fn to_mpv<F: FnOnce(&Memory, Addr) -> Result<i32, Error>>(&self, fun: F) -> (r: Result<
        i32,
        Error,
    >) {
        text_to_mpv(*self, fun)
    }
}

/// A property string formatted for display. It has the shape of a raw
/// string and a format of its own; it is meant to be read by people, not
/// parsed.
#[derive(Debug, PartialEq, Eq)]
pub struct OsdString(pub String);

impl MpvFormat for OsdString {
    type Model = Seq<char>;

    const MPV_FORMAT: Format = Format::OsdString;

    open spec fn model(&self) -> Seq<char> {
        self.0@
    }
}

impl MpvRecv for OsdString {
    type Cell = Addr;

    open spec fn zeroed() -> Addr {
        0
    }

    open spec fn read_at(mem: Memory, ptr: Addr) -> Result<Seq<char>, Fault> {
        text_cell_at(mem, ptr)
    }

    open spec fn read_cell(mem: Memory, cell: Addr) -> Result<Seq<char>, Fault> {
        text_at(mem, cell, usize::MAX)
    }

    open spec fn released(before: Memory, cell: Addr, after: Memory) -> bool {
        text_released(before, cell, after)
    }

    fn zero_cell() -> Addr {
        0
    }

    fn from_ptr(mem: &Memory, ptr: Addr) -> (r: Result<OsdString, Error>) {
        match text_from_ptr(mem, ptr) {
            Ok(s) => Ok(OsdString(s)),
            Err(e) => Err(e),
        }
    }

    fn from_reply(mem: &mut Memory, status: Result<i32, Error>, cell: Addr) -> (r: Result<
        OsdString,
        Error,
    >) {
        match text_from_reply(mem, status, cell) {
            Ok(s) => Ok(OsdString(s)),
            Err(e) => Err(e),
        }
    }

    fn from_mpv<F: FnOnce(Memory, Addr) -> (Result<i32, Error>, Memory, Addr)>(
        mem: &mut Memory,
        fun: F,
    ) -> (r: Result<OsdString, Error>) {
        let mut taken = Memory::new();
        core::mem::swap(mem, &mut taken);
        let (status, back, cell) = fun(taken, 0);
        *mem = back;
        Self::from_reply(mem, status, cell)
    }
}

impl MpvSend for OsdString {
    open spec fn holds(mem: Memory, ptr: Addr, value: Seq<char>) -> bool {
        holds_text(mem, ptr, value)
    }

    open spec fn unwritable(value: Seq<char>) -> Option<int> {
        first_nul(encode_utf8(value))
    }

    fn to_mpv<F: FnOnce(&Memory, Addr) -> Result<i32, Error>>(&self, fun: F) -> (r: Result<
        i32,
        Error,
    >) {
        text_to_mpv(self.0.as_str(), fun)
    }
}

} // verus!
