//! Terminated text buffers: the bytes that stand for a piece of text in
//! foreign memory, and the text that such bytes stand for.
use vstd::prelude::*;
use vstd::slice::{slice_subrange, slice_to_vec};
use vstd::utf8::{decode_utf8, encode_utf8, valid_utf8};
use crate::error::{utf8_error, Error, Fault, RustError};
use crate::memory::{Addr, Block, Memory, NULL};

verus! {

/// `core::str::from_utf8` succeeds on exactly the byte slices that are valid
/// UTF-8, and then returns the text that the bytes encode. On other slices
/// it returns the error that the slice determines.
pub assume_specification[ core::str::from_utf8 ](v: &[u8]) -> (r: Result<
    &str,
    core::str::Utf8Error,
>)
    ensures
        r is Ok <==> valid_utf8(v@),
        r matches Ok(s) ==> s@ == decode_utf8(v@),
        r matches Err(e) ==> e == utf8_error(v@),
;

/// The position of the first NUL byte at or after `start`.
pub open spec fn nul_from(bytes: Seq<u8>, start: int) -> Option<int>
    decreases bytes.len() - start,
{
    if start < 0 || start >= bytes.len() {
        None
    } else if bytes[start] == 0 {
        Some(start)
    } else {
        nul_from(bytes, start + 1)
    }
}

/// The position of the first NUL byte, if there is one.
pub open spec fn first_nul(bytes: Seq<u8>) -> Option<int> {
    nul_from(bytes, 0)
}

/// The bytes of a terminated buffer that come before its terminator. A buffer
/// without a terminator holds no text.
pub open spec fn c_str(buffer: Seq<u8>) -> Option<Seq<u8>> {
    match first_nul(buffer) {
        Some(i) => Some(buffer.subrange(0, i)),
        None => None,
    }
}

/// The text that a buffer holds: what comes before the terminator, read as
/// UTF-8.
pub open spec fn text_of(buffer: Seq<u8>) -> Result<Seq<char>, Fault> {
    match c_str(buffer) {
        None => Err(Fault::Pointer),
        Some(bytes) => if valid_utf8(bytes) {
            Ok(decode_utf8(bytes))
        } else {
            Err(Fault::Utf8(bytes))
        },
    }
}

/// The terminated buffer that stands for a piece of text: its UTF-8 bytes
/// and one NUL byte after them.
pub open spec fn terminated(text: Seq<char>) -> Seq<u8> {
    encode_utf8(text).push(0u8)
}

/// Whether a piece of text can be written as a terminated buffer: none of
/// its bytes is NUL.
pub open spec fn writable(text: Seq<char>) -> bool {
    first_nul(encode_utf8(text)) is None
}

/// What `nul_from` finds is a NUL byte with none between `start` and it; and
/// where it finds nothing, there is none from `start` on.
pub proof fn lemma_nul_from(bytes: Seq<u8>, start: int)
    requires
        0 <= start,
    ensures
        match nul_from(bytes, start) {
            Some(i) => start <= i < bytes.len() && bytes[i] == 0 && forall|j: int|
                start <= j < i ==> bytes[j] != 0,
            None => forall|j: int| start <= j < bytes.len() ==> bytes[j] != 0,
        },
    decreases bytes.len() - start,
{
    if start < bytes.len() && bytes[start] != 0 {
        lemma_nul_from(bytes, start + 1);
    }
}

/// A NUL byte at `i` with none before it from `start` on is what `nul_from`
/// finds.
pub proof fn lemma_nul_from_is(bytes: Seq<u8>, start: int, i: int)
    requires
        0 <= start <= i < bytes.len(),
        bytes[i] == 0,
        forall|j: int| start <= j < i ==> bytes[j] != 0,
    ensures
        nul_from(bytes, start) == Some(i),
    decreases i - start,
{
    if start < i {
        lemma_nul_from_is(bytes, start + 1, i);
    }
}

/// Text without a NUL byte is read back from its terminated buffer.
pub proof fn lemma_text_of_terminated(text: Seq<char>)
    requires
        writable(text),
    ensures
        text_of(terminated(text)) == Ok::<Seq<char>, Fault>(text),
{
    let bytes = encode_utf8(text);
    let buffer = terminated(text);
    lemma_nul_from(bytes, 0);
    lemma_nul_from_is(buffer, 0, bytes.len() as int);
    assert(buffer.subrange(0, bytes.len() as int) =~= bytes);
    vstd::utf8::encode_utf8_valid_utf8(text);
    vstd::utf8::encode_utf8_decode_utf8(text);
}

/// A buffer whose first NUL byte follows bytes that are not UTF-8 holds no
/// text, and reading it reports that.
pub proof fn lemma_text_of_invalid(buffer: Seq<u8>, end: int)
    requires
        first_nul(buffer) == Some(end),
        !valid_utf8(buffer.subrange(0, end)),
    ensures
        text_of(buffer) == Err::<Seq<char>, Fault>(Fault::Utf8(buffer.subrange(0, end))),
{
}

/// Finds the first NUL byte of a slice.
pub fn find_nul(bytes: &[u8]) -> (r: Option<usize>)
    ensures
        match r {
            Some(i) => first_nul(bytes@) == Some(i as int),
            None => first_nul(bytes@) is None,
        },
{
    let mut i: usize = 0;
    while i < bytes.len()
        invariant
            i <= bytes.len(),
            first_nul(bytes@) == nul_from(bytes@, i as int),
        decreases bytes.len() - i,
    {
        if bytes[i] == 0 {
            return Some(i);
        }
        i += 1;
    }
    None
}

/// Reads the text that a terminated buffer holds into an owned string.
///
/// Fails with a pointer error when the buffer has no terminator, and with
/// the UTF-8 error when what comes before the terminator is not UTF-8.
pub fn from_c_bytes(buffer: &[u8]) -> (r: Result<String, Error>)
    ensures
        match r {
            Ok(s) => text_of(buffer@) == Ok::<Seq<char>, Fault>(s@),
            Err(e) => text_of(buffer@) matches Err(f) && e.reports(f),
        },
{
    match find_nul(buffer) {
        None => Err(Error::pointer()),
        Some(end) => {
            proof {
                lemma_nul_from(buffer@, 0);
            }
            let bytes = slice_subrange(buffer, 0, end);
            match core::str::from_utf8(bytes) {
                Ok(s) => Ok(s.to_owned()),
                Err(e) => Err(Error::Rust(RustError::InvalidUtf8(e))),
            }
        },
    }
}

/// Writes a piece of text as a terminated buffer.
///
/// Fails when the text holds a NUL byte, and reports the position of the
/// first one.
pub fn to_c_bytes(text: &str) -> (r: Result<Vec<u8>, Error>)
    ensures
        match first_nul(encode_utf8(text@)) {
            None => r matches Ok(buffer) && buffer@ == terminated(text@),
            Some(i) => r == Err::<Vec<u8>, Error>(
                Error::Rust(RustError::InteriorNull(i as usize)),
            ),
        },
{
    let bytes = text.as_bytes();
    match find_nul(bytes) {
        Some(i) => Err(Error::Rust(RustError::InteriorNull(i))),
        None => {
            let mut buffer = slice_to_vec(bytes);
            buffer.push(0u8);
            Ok(buffer)
        },
    }
}

/// The text behind a pointer to a terminated buffer.
pub open spec fn text_at(mem: Memory, addr: Addr, limit: Addr) -> Result<Seq<char>, Fault> {
    match mem.bytes_at(addr, limit) {
        None => Err(Fault::Pointer),
        Some(buffer) => text_of(buffer),
    }
}

/// Reads the text behind a pointer to a terminated buffer into an owned
/// string.
pub fn read_text(mem: &Memory, addr: Addr, limit: Addr) -> (r: Result<String, Error>)
    ensures
        match r {
            Ok(s) => text_at(*mem, addr, limit) == Ok::<Seq<char>, Fault>(s@),
            Err(e) => text_at(*mem, addr, limit) matches Err(f) && e.reports(f),
        },
{
    match mem.get(addr, limit) {
        Some(Block::Bytes(buffer)) => from_c_bytes(buffer.as_slice()),
        _ => Err(Error::pointer()),
    }
}

/// A null pointer, or any other address without a byte buffer behind it,
/// holds no text, and reading it reports a pointer fault.
pub proof fn lemma_text_at_null(mem: Memory, limit: Addr)
    ensures
        text_at(mem, NULL, limit) == Err::<Seq<char>, Fault>(Fault::Pointer),
{
}

/// Text that was read can be written: what comes before the terminator of a
/// buffer holds no NUL byte.
pub proof fn lemma_text_of_writable(buffer: Seq<u8>)
    ensures
        text_of(buffer) matches Ok(text) ==> writable(text),
{
    if text_of(buffer) is Ok {
        lemma_nul_from(buffer, 0);
        let end = first_nul(buffer)->Some_0;
        let bytes = buffer.subrange(0, end);
        vstd::utf8::decode_utf8_encode_utf8(bytes);
        lemma_nul_from(bytes, 0);
    }
}

} // verus!
