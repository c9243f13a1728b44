//! The capabilities of a type that mpv understands: its format, how it is
//! received, and how it is sent.
use vstd::prelude::*;
use crate::error::{Error, Fault, RustError};
use crate::format::Format;
use crate::memory::{Addr, Memory};

verus! {

/// A type that mpv understands.
pub trait MpvFormat: Sized {
    /// The value as contracts speak of it.
    type Model;

    /// The format that mpv knows the type by.
    const MPV_FORMAT: Format;

    /// The mathematical value of `self`.
    spec fn model(&self) -> Self::Model;
}

/// Whether the outcome of reading is the one that was specified: the value
/// with the specified model, or an error that reports the specified fault.
pub open spec fn agrees<T: MpvFormat>(r: Result<T, Error>, expected: Result<T::Model, Fault>) -> bool {
    match (r, expected) {
        (Ok(v), Ok(m)) => v.model() == m,
        (Err(e), Err(f)) => e.reports(f),
        _ => false,
    }
}

/// Whether a reader accepts an input with this specified outcome: it does
/// unless a field holds a value that the interface does not define.
pub open spec fn recognized<M>(expected: Result<M, Fault>) -> bool {
    expected != Err::<M, Fault>(Fault::Unrecognized)
}

/// A type that can be received from mpv. What is received is copied: the
/// value owns its storage.
pub trait MpvRecv: MpvFormat {
    /// The foreign shape of the type: what the cell that a request fills in
    /// holds.
    type Cell;

    /// The cell before a request fills it in.
    spec fn zeroed() -> Self::Cell;

    /// What a pointer to the foreign shape reads as.
    spec fn read_at(mem: Memory, ptr: Addr) -> Result<Self::Model, Fault>;

    /// What a cell that was filled in reads as.
    spec fn read_cell(mem: Memory, cell: Self::Cell) -> Result<Self::Model, Fault>;

    /// How memory changes when what a cell refers to is handed to the
    /// deallocation hook of the type, if it has one.
    spec fn released(before: Memory, cell: Self::Cell, after: Memory) -> bool;

    /// The cell before a request fills it in.
    fn zero_cell() -> (cell: Self::Cell)
        ensures
            cell == Self::zeroed(),
    ;

    /// Reads a value through a pointer to its foreign shape.
    fn from_ptr(mem: &Memory, ptr: Addr) -> (r: Result<Self, Error>)
        requires
            recognized(Self::read_at(*mem, ptr)),
        ensures
            agrees(r, Self::read_at(*mem, ptr)),
    ;

    /// Reads the value that a request left in a cell, given the status that
    /// the request returned.
    ///
    /// A failed request is reported as it is and nothing is read. After a
    /// successful one the cell is read, and what it refers to is handed to
    /// the deallocation hook once it has been copied.
    fn from_reply(mem: &mut Memory, status: Result<i32, Error>, cell: Self::Cell) -> (r: Result<
        Self,
        Error,
    >)
        requires
            status is Ok ==> recognized(Self::read_cell(*old(mem), cell)),
        ensures
            replied(
                status,
                Self::read_cell(*old(mem), cell),
                r,
                Self::released(*old(mem), cell, *final(mem)),
                *final(mem) == *old(mem),
            ),
    ;

    /// Receives a value from a request.
    ///
    /// `fun` stands for the request: it is handed the memory and a zeroed
    /// cell, and returns its status, the memory as the foreign side left it
    /// and the cell as it was filled in.
    fn from_mpv<F: FnOnce(Memory, Self::Cell) -> (Result<i32, Error>, Memory, Self::Cell)>(
        mem: &mut Memory,
        fun: F,
    ) -> (r: Result<Self, Error>)
        requires
            fun.requires((*old(mem), Self::zeroed())),
            forall|out: (Result<i32, Error>, Memory, Self::Cell)|
                #[trigger] fun.ensures((*old(mem), Self::zeroed()), out) && out.0 is Ok ==> recognized(
                    Self::read_cell(out.1, out.2),
                ),
        ensures
            exists|out: (Result<i32, Error>, Memory, Self::Cell)|
                #[trigger] fun.ensures((*old(mem), Self::zeroed()), out) && replied(
                    out.0,
                    Self::read_cell(out.1, out.2),
                    r,
                    Self::released(out.1, out.2, *final(mem)),
                    *final(mem) == out.1,
                ),
    ;
}

/// What reading a reply comes to, given the status of the request and what
/// the filled cell reads as: the error of a failed request, with memory
/// untouched; else what the cell reads as, with what the cell refers to
/// released exactly when a value was read.
pub open spec fn replied<T: MpvFormat>(
    status: Result<i32, Error>,
    expected: Result<T::Model, Fault>,
    r: Result<T, Error>,
    released: bool,
    untouched: bool,
) -> bool {
    match status {
        Err(e) => r == Err::<T, Error>(e) && untouched,
        Ok(_) => {
            &&& agrees(r, expected)
            &&& r is Ok ==> released
            &&& r is Err ==> untouched
        },
    }
}

/// A type that can be sent to mpv.
pub trait MpvSend: MpvFormat {
    /// Whether the memory holds, at the address, the foreign shape of the
    /// value and everything that the shape refers to.
    spec fn holds(mem: Memory, ptr: Addr, value: Self::Model) -> bool;

    /// The position of the first NUL byte in the first piece of text of the
    /// value that has one. Such a value cannot be sent.
    spec fn unwritable(value: Self::Model) -> Option<int>;

    /// Sends a value with a request.
    ///
    /// The foreign shape of the value is built in a memory of its own, which
    /// lives until the request returns. `fun` stands for the request: it is
    /// handed that memory and the address of the shape, and returns its
    /// status. A value that cannot be written is refused before any request
    /// is made.
    fn to_mpv<F: FnOnce(&Memory, Addr) -> Result<i32, Error>>(&self, fun: F) -> (r: Result<
        i32,
        Error,
    >)
        requires
            forall|mem: Memory, ptr: Addr|
                Self::holds(mem, ptr, self.model()) ==> #[trigger] fun.requires((&mem, ptr)),
        ensures
            sent(Self::unwritable(self.model()), r) || exists|mem: Memory, ptr: Addr|
                Self::unwritable(self.model()) is None && Self::holds(mem, ptr, self.model())
                    && #[trigger] fun.ensures((&mem, ptr), r),
    ;
}

/// The outcome of sending a value that cannot be written: the error that
/// names the position of the NUL byte.
pub open spec fn sent(unwritable: Option<int>, r: Result<i32, Error>) -> bool {
    unwritable matches Some(i) && r == Err::<i32, Error>(
        Error::Rust(RustError::InteriorNull(i as usize)),
    )
}

} // verus!
