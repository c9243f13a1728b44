//! The requests that a client makes of the player core.
//!
//! A [`Handle`] names a client. Each request prepares what the core is
//! handed, makes the call and reads its answer. The call itself is not part
//! of this library: every request takes it as a function, which is handed
//! the prepared arguments and returns what the core returned. Text that the
//! core is to read is handed over as a terminated buffer, and a request
//! whose text cannot be written as one is refused before any call is made.
use vstd::prelude::*;
use vstd::utf8::encode_utf8;
use crate::error::{
    error_to_result,
    error_to_result_code,
    Error,
    Fault,
    RustError,
};
use crate::event::{
    lemma_level_names_writable,
    read_as,
    texts_view,
    tried_as,
    Event,
    EventId,
    LogLevel,
};
use crate::format::Format;
use crate::memory::{Addr, Block, Memory, RawNode, NULL};
use crate::text::{first_nul, read_text, terminated, text_at, to_c_bytes};
use crate::types::node::Node;
use crate::types::traits::{recognized, replied, MpvRecv, MpvSend};

verus! {

/// A client of the player core, named by the address of the handle that
/// the core gave out for it.
#[derive(Debug, PartialEq, Eq)]
pub struct Handle {
    handle: Addr,
}

/// A client that this side created and therefore owns: it may be
/// initialized and destroyed.
#[derive(Debug, PartialEq, Eq)]
pub struct Client(pub Handle);

/// What a status code that the core returned means, for a request without
/// a value of its own.
pub open spec fn done(status: i32) -> Result<(), Error> {
    if status >= 0 {
        Ok(())
    } else {
        Err(Error::from_code(status))
    }
}

/// What a status code that the core returned means, for a request whose
/// success carries a value.
pub open spec fn counted(status: i32) -> Result<i32, Error> {
    if status >= 0 {
        Ok(status)
    } else {
        Err(Error::from_code(status))
    }
}

/// The number that switches something on or off: one or zero.
pub open spec fn switch(enable: bool) -> i32 {
    if enable {
        1
    } else {
        0
    }
}

/// The error of a request whose text holds a NUL byte at a position.
pub open spec fn refused<T>(nul: Option<int>, r: Result<T, Error>) -> bool {
    nul matches Some(i) && r == Err::<T, Error>(Error::Rust(RustError::InteriorNull(i as usize)))
}

/// Whether the memory holds, at the address, an argument list: a
/// contiguous array with, for each argument in order, a pointer to its
/// terminated buffer, and a null pointer after the last.
pub open spec fn holds_args(mem: Memory, ptr: Addr, args: Seq<Seq<char>>) -> bool {
    &&& mem.pointers_at(ptr, usize::MAX) matches Some(list)
    &&& list.len() == args.len() + 1
    &&& list[args.len() as int] == NULL
    &&& forall|i: int|
        0 <= i < args.len() ==> mem.bytes_at(#[trigger] list[i], (ptr - 1) as usize) == Some(
            terminated(args[i]),
        )
}

/// The position of the first NUL byte in the first of the first `count`
/// texts that has one.
pub open spec fn unwritable_texts(texts: Seq<Seq<char>>, count: nat) -> Option<int>
    decreases count,
{
    if count == 0 {
        None
    } else {
        match unwritable_texts(texts, (count - 1) as nat) {
            Some(i) => Some(i),
            None => first_nul(encode_utf8(texts[count - 1])),
        }
    }
}

/// Writing stops at the first text that cannot be written.
pub proof fn lemma_unwritable_texts_stuck(texts: Seq<Seq<char>>, count: nat, more: nat)
    requires
        count <= more,
        unwritable_texts(texts, count) is Some,
    ensures
        unwritable_texts(texts, more) == unwritable_texts(texts, count),
    decreases more,
{
    if count < more {
        lemma_unwritable_texts_stuck(texts, count, (more - 1) as nat);
    }
}

/// Writes an argument list at the end of a memory and returns its
/// address.
///
/// Fails, at the first argument that holds a NUL byte, with the error that
/// names the position of that byte.
#[verifier::loop_isolation(false)]
pub fn write_args(mem: &mut Memory, args: &Vec<String>) -> (r: Result<Addr, Error>)
    ensures
        final(mem).extends(*old(mem)),
        crate::types::writing::wrote(r, unwritable_texts(texts_view(args@), args@.len())),
        r matches Ok(ptr) ==> holds_args(*final(mem), ptr, texts_view(args@)),
{
    let ghost texts = texts_view(args@);
    let mut list: Vec<Addr> = Vec::new();
    let mut i: usize = 0;
    while i < args.len()
        invariant
            i <= args@.len(),
            mem.extends(*old(mem)),
            list@.len() == i,
            unwritable_texts(texts, i as nat) is None,
            forall|j: int|
                0 <= j < i ==> mem.bytes_at(#[trigger] list@[j], mem.blocks.len()) == Some(
                    terminated(texts[j]),
                ),
        decreases args@.len() - i,
    {
        match to_c_bytes(args[i].as_str()) {
            Ok(buffer) => {
                let ghost before = *mem;
                let addr = mem.allocate(Block::Bytes(buffer));
                proof {
                    assert forall|j: int| 0 <= j < i implies mem.bytes_at(
                        #[trigger] list@[j],
                        mem.blocks.len(),
                    ) == Some(terminated(texts[j])) by {
                        assert(before.bytes_at(list@[j], before.blocks.len()) == Some(
                            terminated(texts[j]),
                        ));
                    }
                }
                list.push(addr);
            },
            Err(e) => {
                proof {
                    lemma_unwritable_texts_stuck(texts, (i + 1) as nat, args@.len());
                }
                return Err(e);
            },
        }
        i += 1;
    }
    list.push(NULL);
    let ghost before = *mem;
    let ghost pointers = list@;
    let ptr = mem.allocate(Block::Pointers(list));
    proof {
        assert forall|j: int| 0 <= j < texts.len() implies mem.bytes_at(
            #[trigger] pointers[j],
            (ptr - 1) as usize,
        ) == Some(terminated(texts[j])) by {
            assert(before.bytes_at(pointers[j], before.blocks.len()) == Some(
                terminated(texts[j]),
            ));
        }
    }
    Ok(ptr)
}

impl Handle {
    /// The client with the given handle.
    #[must_use]
    pub fn from_ptr(handle: Addr) -> (h: Handle)
        ensures
            h.ptr() == handle,
    {
        Handle { handle }
    }

    /// The address of the handle.
    pub closed spec fn ptr(&self) -> Addr {
        self.handle
    }

    /// The address of the handle.
    #[verifier::when_used_as_spec(ptr)]
    pub fn as_ptr(&self) -> (handle: Addr)
        ensures
            handle == self.ptr(),
    {
        self.handle
    }

    /// Reads the name of the client from the terminated buffer that the
    /// core returned a pointer to.
    pub fn client_name(&self, mem: &Memory, name: Addr) -> (r: Result<String, Error>)
        ensures
            match r {
                Ok(s) => text_at(*mem, name, usize::MAX) == Ok::<Seq<char>, Fault>(s@),
                Err(e) => text_at(*mem, name, usize::MAX) matches Err(f) && e.reports(f),
            },
    {
        read_text(mem, name, usize::MAX)
    }

    /// Makes a request that names something by a piece of text and is
    /// answered by a status code: `fun` is handed the handle and the
    /// terminated name.
    pub fn request_named<F: FnOnce(Addr, &Vec<u8>) -> i32>(&self, name: &str, fun: F) -> (r:
        Result<(), Error>)
        requires
            forall|buffer: Vec<u8>|
                buffer@ == terminated(name@) ==> #[trigger] fun.requires((self.ptr(), &buffer)),
        ensures
            refused(first_nul(encode_utf8(name@)), r) || exists|buffer: Vec<u8>, status: i32|
                first_nul(encode_utf8(name@)) is None && buffer@ == terminated(name@)
                    && #[trigger] fun.ensures((self.ptr(), &buffer), status) && r == done(status),
    {
        match to_c_bytes(name) {
            Err(e) => Err(e),
            Ok(buffer) => {
                let handle = self.as_ptr();
                let status = fun(handle, &buffer);
                error_to_result(status)
            },
        }
    }

    /// Loads a configuration file, named by its path.
    pub fn load_config_file<F: FnOnce(Addr, &Vec<u8>) -> i32>(&self, filename: &str, fun: F) -> (r:
        Result<(), Error>)
        requires
            forall|buffer: Vec<u8>|
                buffer@ == terminated(filename@) ==> #[trigger] fun.requires(
                    (self.ptr(), &buffer),
                ),
        ensures
            refused(first_nul(encode_utf8(filename@)), r) || exists|
                buffer: Vec<u8>,
                status: i32,
            |
                first_nul(encode_utf8(filename@)) is None && buffer@ == terminated(filename@)
                    && #[trigger] fun.ensures((self.ptr(), &buffer), status) && r == done(status),
    {
        self.request_named(filename, fun)
    }

    /// Runs a command given as one line of text, which the core splits
    /// into its arguments.
    pub fn command_string<F: FnOnce(Addr, &Vec<u8>) -> i32>(&self, command: &str, fun: F) -> (r:
        Result<(), Error>)
        requires
            forall|buffer: Vec<u8>|
                buffer@ == terminated(command@) ==> #[trigger] fun.requires(
                    (self.ptr(), &buffer),
                ),
        ensures
            refused(first_nul(encode_utf8(command@)), r) || exists|buffer: Vec<u8>, status: i32|
                first_nul(encode_utf8(command@)) is None && buffer@ == terminated(command@)
                    && #[trigger] fun.ensures((self.ptr(), &buffer), status) && r == done(status),
    {
        self.request_named(command, fun)
    }

    /// Deletes a property.
    pub fn del_property<F: FnOnce(Addr, &Vec<u8>) -> i32>(&self, name: &str, fun: F) -> (r: Result<
        (),
        Error,
    >)
        requires
            forall|buffer: Vec<u8>|
                buffer@ == terminated(name@) ==> #[trigger] fun.requires((self.ptr(), &buffer)),
        ensures
            refused(first_nul(encode_utf8(name@)), r) || exists|buffer: Vec<u8>, status: i32|
                first_nul(encode_utf8(name@)) is None && buffer@ == terminated(name@)
                    && #[trigger] fun.ensures((self.ptr(), &buffer), status) && r == done(status),
    {
        self.request_named(name, fun)
    }

    /// Sets the highest level of the log messages that the client is sent.
    /// The level is handed over by its name, as a terminated buffer.
    pub fn request_log_messages<F: FnOnce(Addr, &Vec<u8>) -> i32>(
        &self,
        max_level: LogLevel,
        fun: F,
    ) -> (r: Result<(), Error>)
        requires
            forall|buffer: Vec<u8>|
                buffer@ == terminated(max_level.name()) ==> #[trigger] fun.requires(
                    (self.ptr(), &buffer),
                ),
        ensures
            exists|buffer: Vec<u8>, status: i32|
                buffer@ == terminated(max_level.name()) && #[trigger] fun.ensures(
                    (self.ptr(), &buffer),
                    status,
                ) && r == done(status),
    {
        proof {
            lemma_level_names_writable(max_level);
        }
        self.request_named(max_level.to_cstr(), fun)
    }

    /// Asks to be told of every change of a property. `fun` is handed the
    /// handle, the tag, the terminated name and the discriminator of the
    /// format in which the values are wanted.
    pub fn observe_property<F: FnOnce(Addr, u64, &Vec<u8>, u32) -> i32>(
        &self,
        name: &str,
        format: Format,
        userdata: u64,
        fun: F,
    ) -> (r: Result<(), Error>)
        requires
            forall|buffer: Vec<u8>|
                buffer@ == terminated(name@) ==> #[trigger] fun.requires(
                    (self.ptr(), userdata, &buffer, format.id()),
                ),
        ensures
            refused(first_nul(encode_utf8(name@)), r) || exists|buffer: Vec<u8>, status: i32|
                first_nul(encode_utf8(name@)) is None && buffer@ == terminated(name@)
                    && #[trigger] fun.ensures(
                    (self.ptr(), userdata, &buffer, format.id()),
                    status,
                ) && r == done(status),
    {
        match to_c_bytes(name) {
            Err(e) => Err(e),
            Ok(buffer) => {
                let handle = self.as_ptr();
                let status = fun(handle, userdata, &buffer, format.to_id());
                error_to_result(status)
            },
        }
    }

    /// Stops the observations that were tagged with `userdata`, and returns
    /// how many there were.
    pub fn unobserve_property<F: FnOnce(Addr, u64) -> i32>(&self, userdata: u64, fun: F) -> (r:
        Result<i32, Error>)
        requires
            fun.requires((self.ptr(), userdata)),
        ensures
            exists|status: i32| #[trigger]
                fun.ensures((self.ptr(), userdata), status) && r == counted(status),
    {
        let handle = self.as_ptr();
        let status = fun(handle, userdata);
        error_to_result_code(status)
    }

    /// Switches an event on or off. `fun` is handed the handle, the
    /// identifier of the event, and one to switch it on or zero to switch it
    /// off.
    pub fn request_event<F: FnOnce(Addr, u32, i32) -> i32>(
        &self,
        event_id: EventId,
        enable: bool,
        fun: F,
    ) -> (r: Result<(), Error>)
        requires
            fun.requires((self.ptr(), event_id.id(), switch(enable))),
        ensures
            exists|status: i32| #[trigger]
                fun.ensures((self.ptr(), event_id.id(), switch(enable)), status) && r == done(
                    status,
                ),
    {
        let handle = self.as_ptr();
        let flag: i32 = if enable {
            1
        } else {
            0
        };
        let status = fun(handle, event_id.to_id(), flag);
        error_to_result(status)
    }

    /// Registers a handler for a hook. `fun` is handed the handle, the tag,
    /// the terminated name of the hook and the priority.
    pub fn hook_add<F: FnOnce(Addr, u64, &Vec<u8>, i32) -> i32>(
        &self,
        userdata: u64,
        name: &str,
        priority: i32,
        fun: F,
    ) -> (r: Result<(), Error>)
        requires
            forall|buffer: Vec<u8>|
                buffer@ == terminated(name@) ==> #[trigger] fun.requires(
                    (self.ptr(), userdata, &buffer, priority),
                ),
        ensures
            refused(first_nul(encode_utf8(name@)), r) || exists|buffer: Vec<u8>, status: i32|
                first_nul(encode_utf8(name@)) is None && buffer@ == terminated(name@)
                    && #[trigger] fun.ensures((self.ptr(), userdata, &buffer, priority), status)
                    && r == done(status),
    {
        match to_c_bytes(name) {
            Err(e) => Err(e),
            Ok(buffer) => {
                let handle = self.as_ptr();
                let status = fun(handle, userdata, &buffer, priority);
                error_to_result(status)
            },
        }
    }

    /// Lets the player go on after a hook event was handled.
    pub fn hook_continue<F: FnOnce(Addr, u64) -> i32>(&self, id: u64, fun: F) -> (r: Result<
        (),
        Error,
    >)
        requires
            fun.requires((self.ptr(), id)),
        ensures
            exists|status: i32| #[trigger] fun.ensures((self.ptr(), id), status) && r == done(
                status,
            ),
    {
        let handle = self.as_ptr();
        let status = fun(handle, id);
        error_to_result(status)
    }

    /// Creates a client of the same core. `fun` is handed the handle and
    /// the terminated name of the new client, and returns the handle that
    /// the core gave out.
    pub fn create_client<F: FnOnce(Addr, &Vec<u8>) -> Addr>(&self, name: &str, fun: F) -> (r:
        Result<Client, Error>)
        requires
            forall|buffer: Vec<u8>|
                buffer@ == terminated(name@) ==> #[trigger] fun.requires((self.ptr(), &buffer)),
        ensures
            refused(first_nul(encode_utf8(name@)), r) || exists|buffer: Vec<u8>, created: Addr|
                first_nul(encode_utf8(name@)) is None && buffer@ == terminated(name@)
                    && #[trigger] fun.ensures((self.ptr(), &buffer), created) && r is Ok
                    && r->Ok_0.0.ptr() == created,
    {
        match to_c_bytes(name) {
            Err(e) => Err(e),
            Ok(buffer) => {
                let handle = self.as_ptr();
                let created = fun(handle, &buffer);
                Ok(Client(Handle::from_ptr(created)))
            },
        }
    }

    /// Creates a client of the same core that does not keep the core alive.
    pub fn create_weak_client<F: FnOnce(Addr, &Vec<u8>) -> Addr>(&self, name: &str, fun: F) -> (r:
        Result<Client, Error>)
        requires
            forall|buffer: Vec<u8>|
                buffer@ == terminated(name@) ==> #[trigger] fun.requires((self.ptr(), &buffer)),
        ensures
            refused(first_nul(encode_utf8(name@)), r) || exists|buffer: Vec<u8>, created: Addr|
                first_nul(encode_utf8(name@)) is None && buffer@ == terminated(name@)
                    && #[trigger] fun.ensures((self.ptr(), &buffer), created) && r is Ok
                    && r->Ok_0.0.ptr() == created,
    {
        self.create_client(name, fun)
    }

    /// Sets a property to a value. `fun` is handed the handle, the
    /// terminated name, the discriminator of the format of the value, and
    /// the memory and address of the foreign shape of the value.
    pub fn set_property<T: MpvSend, F: FnOnce(Addr, &Vec<u8>, u32, &Memory, Addr) -> i32>(
        &self,
        name: &str,
        value: T,
        fun: F,
    ) -> (r: Result<(), Error>)
        requires
            forall|buffer: Vec<u8>, mem: Memory, ptr: Addr|
                buffer@ == terminated(name@) && T::holds(mem, ptr, value.model())
                    ==> #[trigger] fun.requires(
                    (self.ptr(), &buffer, T::MPV_FORMAT.id(), &mem, ptr),
                ),
        ensures
            refused(first_nul(encode_utf8(name@)), r) || (first_nul(encode_utf8(name@)) is None
                && refused(T::unwritable(value.model()), r)) || exists|
                buffer: Vec<u8>,
                mem: Memory,
                ptr: Addr,
                status: i32,
            |
                first_nul(encode_utf8(name@)) is None && T::unwritable(value.model()) is None
                    && buffer@ == terminated(name@) && T::holds(mem, ptr, value.model())
                    && #[trigger] fun.ensures(
                    (self.ptr(), &buffer, T::MPV_FORMAT.id(), &mem, ptr),
                    status,
                ) && r == done(status),
    {
        let buffer = match to_c_bytes(name) {
            Ok(buffer) => buffer,
            Err(e) => {
                return Err(e);
            },
        };
        let handle = self.as_ptr();
        let format = T::MPV_FORMAT.to_id();
        let ghost model = value.model();
        let request = |mem: &Memory, ptr: Addr| -> (out: Result<i32, Error>)
            requires
                T::holds(*mem, ptr, model),
            ensures
                exists|status: i32| #[trigger]
                    fun.ensures((handle, &buffer, format, mem, ptr), status) && out == counted(
                        status,
                    ),
            {
                let status = fun(handle, &buffer, format, mem, ptr);
                error_to_result_code(status)
            };
        match value.to_mpv(request) {
            Ok(_) => Ok(()),
            Err(e) => Err(e),
        }
    }

    /// Sets an option to a value. `fun` is handed what the request to set
    /// a property is handed.
    pub fn set_option<T: MpvSend, F: FnOnce(Addr, &Vec<u8>, u32, &Memory, Addr) -> i32>(
        &self,
        name: &str,
        data: T,
        fun: F,
    ) -> (r: Result<(), Error>)
        requires
            forall|buffer: Vec<u8>, mem: Memory, ptr: Addr|
                buffer@ == terminated(name@) && T::holds(mem, ptr, data.model())
                    ==> #[trigger] fun.requires(
                    (self.ptr(), &buffer, T::MPV_FORMAT.id(), &mem, ptr),
                ),
        ensures
            refused(first_nul(encode_utf8(name@)), r) || (first_nul(encode_utf8(name@)) is None
                && refused(T::unwritable(data.model()), r)) || exists|
                buffer: Vec<u8>,
                mem: Memory,
                ptr: Addr,
                status: i32,
            |
                first_nul(encode_utf8(name@)) is None && T::unwritable(data.model()) is None
                    && buffer@ == terminated(name@) && T::holds(mem, ptr, data.model())
                    && #[trigger] fun.ensures(
                    (self.ptr(), &buffer, T::MPV_FORMAT.id(), &mem, ptr),
                    status,
                ) && r == done(status),
    {
        self.set_property(name, data, fun)
    }

    /// Reads the value of a property. `fun` is handed the handle, the
    /// terminated name, the discriminator of the format that is asked for,
    /// the memory and a zeroed cell; it returns the status, the memory as
    /// the core left it and the cell as the core filled it in.
    pub fn get_property<
        T: MpvRecv,
        F: FnOnce(Addr, &Vec<u8>, u32, Memory, T::Cell) -> (i32, Memory, T::Cell),
    >(&self, name: &str, mem: &mut Memory, fun: F) -> (r: Result<T, Error>)
        requires
            forall|buffer: Vec<u8>|
                buffer@ == terminated(name@) ==> #[trigger] fun.requires(
                    (self.ptr(), &buffer, T::MPV_FORMAT.id(), *old(mem), T::zeroed()),
                ),
            forall|buffer: Vec<u8>, out: (i32, Memory, T::Cell)| #[trigger]
                fun.ensures(
                    (self.ptr(), &buffer, T::MPV_FORMAT.id(), *old(mem), T::zeroed()),
                    out,
                ) && out.0 >= 0 ==> recognized(T::read_cell(out.1, out.2)),
        ensures
            (refused(first_nul(encode_utf8(name@)), r) && *final(mem) == *old(mem)) || exists|
                buffer: Vec<u8>,
                out: (i32, Memory, T::Cell),
            |
                first_nul(encode_utf8(name@)) is None && buffer@ == terminated(name@)
                    && #[trigger] fun.ensures(
                    (self.ptr(), &buffer, T::MPV_FORMAT.id(), *old(mem), T::zeroed()),
                    out,
                ) && replied(
                    counted(out.0),
                    T::read_cell(out.1, out.2),
                    r,
                    T::released(out.1, out.2, *final(mem)),
                    *final(mem) == out.1,
                ),
    {
        let buffer = match to_c_bytes(name) {
            Ok(buffer) => buffer,
            Err(e) => {
                return Err(e);
            },
        };
        let handle = self.as_ptr();
        let format = T::MPV_FORMAT.to_id();
        let mut taken = Memory::new();
        core::mem::swap(mem, &mut taken);
        let (status, back, cell) = fun(handle, &buffer, format, taken, T::zero_cell());
        *mem = back;
        T::from_reply(mem, error_to_result_code(status), cell)
    }

    /// Runs a command given as its arguments. `fun` is handed the handle
    /// and the memory and address of the argument list.
    pub fn command<F: FnOnce(Addr, &Memory, Addr) -> i32>(&self, command: &Vec<String>, fun: F) -> (r:
        Result<(), Error>)
        requires
            forall|mem: Memory, ptr: Addr|
                holds_args(mem, ptr, texts_view(command@)) ==> #[trigger] fun.requires(
                    (self.ptr(), &mem, ptr),
                ),
        ensures
            refused(unwritable_texts(texts_view(command@), command@.len()), r) || exists|
                mem: Memory,
                ptr: Addr,
                status: i32,
            |
                unwritable_texts(texts_view(command@), command@.len()) is None && holds_args(
                    mem,
                    ptr,
                    texts_view(command@),
                ) && #[trigger] fun.ensures((self.ptr(), &mem, ptr), status) && r == done(status),
    {
        let mut args = Memory::new();
        let ptr = match write_args(&mut args, command) {
            Ok(ptr) => ptr,
            Err(e) => {
                return Err(e);
            },
        };
        let handle = self.as_ptr();
        let status = fun(handle, &args, ptr);
        error_to_result(status)
    }

    /// Runs a command given as its arguments and reads its result. `fun`
    /// is handed the handle, the memory and address of the argument list,
    /// the memory and a zeroed node; it returns the status, the memory as
    /// the core left it and the node as the core filled it in.
    pub fn command_ret<
        F: FnOnce(Addr, &Memory, Addr, Memory, RawNode) -> (i32, Memory, RawNode),
    >(&self, command: &Vec<String>, mem: &mut Memory, fun: F) -> (r: Result<Node, Error>)
        requires
            forall|args: Memory, ptr: Addr|
                holds_args(args, ptr, texts_view(command@)) ==> #[trigger] fun.requires(
                    (self.ptr(), &args, ptr, *old(mem), Node::zeroed()),
                ),
            forall|args: Memory, ptr: Addr, out: (i32, Memory, RawNode)| #[trigger]
                fun.ensures((self.ptr(), &args, ptr, *old(mem), Node::zeroed()), out)
                    && out.0 >= 0 ==> recognized(Node::read_cell(out.1, out.2)),
        ensures
            (refused(unwritable_texts(texts_view(command@), command@.len()), r) && *final(mem)
                == *old(mem)) || exists|args: Memory, ptr: Addr, out: (i32, Memory, RawNode)|
                unwritable_texts(texts_view(command@), command@.len()) is None && holds_args(
                    args,
                    ptr,
                    texts_view(command@),
                ) && #[trigger] fun.ensures(
                    (self.ptr(), &args, ptr, *old(mem), Node::zeroed()),
                    out,
                ) && replied(
                    counted(out.0),
                    Node::read_cell(out.1, out.2),
                    r,
                    Node::released(out.1, out.2, *final(mem)),
                    *final(mem) == out.1,
                ),
    {
        let mut args = Memory::new();
        let ptr = match write_args(&mut args, command) {
            Ok(ptr) => ptr,
            Err(e) => {
                return Err(e);
            },
        };
        let handle = self.as_ptr();
        let mut taken = Memory::new();
        core::mem::swap(mem, &mut taken);
        let (status, back, cell) = fun(handle, &args, ptr, taken, Node::zero_cell());
        *mem = back;
        Node::from_reply(mem, error_to_result_code(status), cell)
    }

    /// Runs a command given as a node and reads its result. `fun` is
    /// handed the handle, the memory and address of the foreign shape of
    /// the command, the memory and a zeroed node; it returns the status,
    /// the memory as the core left it and the node as the core filled it in.
    pub fn command_node<
        F: FnOnce(Addr, &Memory, Addr, Memory, RawNode) -> (i32, Memory, RawNode),
    >(&self, command: Node, mem: &mut Memory, fun: F) -> (r: Result<Node, Error>)
        requires
            forall|shape: Memory, ptr: Addr|
                Node::holds(shape, ptr, command@) ==> #[trigger] fun.requires(
                    (self.ptr(), &shape, ptr, *old(mem), Node::zeroed()),
                ),
            forall|shape: Memory, ptr: Addr, out: (i32, Memory, RawNode)| #[trigger]
                fun.ensures((self.ptr(), &shape, ptr, *old(mem), Node::zeroed()), out)
                    && out.0 >= 0 ==> recognized(Node::read_cell(out.1, out.2)),
        ensures
            (refused(Node::unwritable(command@), r) && *final(mem) == *old(mem)) || exists|
                shape: Memory,
                ptr: Addr,
                out: (i32, Memory, RawNode),
            |
                Node::unwritable(command@) is None && Node::holds(shape, ptr, command@)
                    && #[trigger] fun.ensures(
                    (self.ptr(), &shape, ptr, *old(mem), Node::zeroed()),
                    out,
                ) && replied(
                    counted(out.0),
                    Node::read_cell(out.1, out.2),
                    r,
                    Node::released(out.1, out.2, *final(mem)),
                    *final(mem) == out.1,
                ),
    {
        let repr = match command.to_mpv_repr() {
            Ok(repr) => repr,
            Err(e) => {
                return Err(e);
            },
        };
        let handle = self.as_ptr();
        let mut taken = Memory::new();
        core::mem::swap(mem, &mut taken);
        let (status, back, cell) = fun(handle, &repr.memory, repr.node, taken, Node::zero_cell());
        *mem = back;
        Node::from_reply(mem, error_to_result_code(status), cell)
    }

    /// Reads the event behind the pointer that waiting for an event
    /// returned, whatever it holds. Returns nothing where the event, or a
    /// field of what belongs to it, has a value that the interface does not
    /// define.
    pub fn try_wait_event(&self, mem: &Memory, event: Addr) -> (r: Option<Result<Event, Error>>)
        ensures
            tried_as(r, Event::fault(*mem, event), |e: Event| e.is(*mem, event)),
    {
        Event::try_from_ptr(mem, event)
    }

    /// Reads the event behind the pointer that waiting for an event
    /// returned.
    pub fn wait_event(&self, mem: &Memory, event: Addr) -> (r: Result<Event, Error>)
        requires
            Event::fault(*mem, event) != Some(Fault::Unrecognized),
        ensures
            read_as(r, Event::fault(*mem, event), |e: Event| e.is(*mem, event)),
    {
        Event::from_ptr(mem, event)
    }
}

impl Client {
    /// The handle of the client.
    pub fn handle(&self) -> (h: &Handle)
        ensures
            *h == self.0,
    {
        &self.0
    }

    /// Initializes the core that the client was created with.
    pub fn initialize<F: FnOnce(Addr) -> i32>(&self, fun: F) -> (r: Result<(), Error>)
        requires
            fun.requires((self.0.ptr(),)),
        ensures
            exists|status: i32| #[trigger] fun.ensures((self.0.ptr(),), status) && r == done(
                status,
            ),
    {
        let handle = self.0.as_ptr();
        let status = fun(handle);
        error_to_result(status)
    }
}

} // verus!
