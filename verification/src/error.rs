//! The errors that the bridge can raise, and their mapping to and from the
//! status codes of the mpv client interface.
use vstd::prelude::*;
use crate::raw;

verus! {

/// `core::str::Utf8Error`, carried through unchanged: nothing of its inside is
/// known to proofs.
#[verifier::external_type_specification]
#[verifier::external_body]
pub struct ExUtf8Error(core::str::Utf8Error);

/// The error that `core::str::from_utf8` returns for bytes that are not
/// valid UTF-8. It tells how many of the bytes are valid and how long the
/// invalid sequence after them is, and so depends on the bytes alone.
pub uninterp spec fn utf8_error(bytes: Seq<u8>) -> core::str::Utf8Error;

/// A mismatch between an expected and an actual version number.
#[derive(Debug, Clone, PartialEq, Eq)]
pub struct VersionError {
    /// The version number that was expected.
    pub expected: u64,
    /// The version number that was found.
    pub found: u64,
}

/// A place in source code, for diagnostics.
#[derive(Debug, PartialEq, Eq)]
pub struct DebugLoc {
    /// The referenced file.
    pub file: &'static str,
    /// The referenced line.
    pub line: u32,
    /// Name of the referenced function.
    pub function: &'static str,
    /// Name of the referenced variable.
    pub variable: Option<&'static str>,
}

/// Errors that arise on this side of the bridge, from data handed over by
/// mpv or by the caller.
#[derive(Debug, PartialEq, Eq)]
pub enum RustError {
    /// Bytes that should have been UTF-8 text were not.
    InvalidUtf8(core::str::Utf8Error),
    /// Outbound text holds a NUL byte, at the given position, and so cannot be
    /// written as a terminated buffer.
    InteriorNull(usize),
    /// The mpv header or client does not have the version this library is
    /// written for.
    VersionMismatch(VersionError),
    /// A pointer that had to refer to a block was null or referred to none.
    Pointer(Option<DebugLoc>),
}

/// The errors of the mpv client interface, and those of the bridge itself.
#[derive(Debug, PartialEq, Eq)]
pub enum Error {
    /// No error happened. Many interface functions return a non-negative
    /// value on success, which is kept here.
    Success(i32),
    /// The event ring buffer is full.
    EventQueueFull,
    /// Memory allocation failed.
    NoMemory,
    /// The mpv core was not configured and initialized yet.
    Uninitialized,
    /// A parameter is set to an invalid or unsupported value.
    InvalidParameter,
    /// Trying to set an option that does not exist.
    OptionNotFound,
    /// Trying to set an option using an unsupported format.
    OptionFormat,
    /// Setting the option failed.
    OptionError,
    /// The accessed property does not exist.
    PropertyNotFound,
    /// Trying to set or get a property using an unsupported format.
    PropertyFormat,
    /// The property exists, but is not available.
    PropertyUnavailable,
    /// Error setting or getting a property.
    PropertyError,
    /// General error when running a command.
    Command,
    /// Generic error on loading.
    LoadingFailed,
    /// Initializing the audio output failed.
    AoInitFailed,
    /// Initializing the video output failed.
    VoInitFailed,
    /// There was no audio or video data to play.
    NothingToPlay,
    /// The file format could not be determined, or the file was too broken.
    UnknownFormat,
    /// Certain system requirements are not fulfilled.
    Unsupported,
    /// The interface function which was called is a stub only.
    NotImplemented,
    /// Unspecified error.
    Generic,
    /// A negative status that the interface does not define. The status is
    /// kept as the foreign side reported it.
    Undefined(i32),
    /// An error of the bridge itself.
    Rust(RustError),
}

/// Why reading a value out of foreign memory fails.
pub enum Fault {
    /// A pointer was null, or referred to no block of the expected shape.
    Pointer,
    /// A text buffer held these bytes before its terminator, and they are
    /// not UTF-8.
    Utf8(Seq<u8>),
    /// A discriminator, or another enumerated field, had a value that the
    /// interface does not define. No reader accepts such an input.
    Unrecognized,
}

impl Error {
    /// The error that a status code stands for. Codes below
    /// `raw::MPV_ERROR_GENERIC` are not defined by the interface.
    pub open spec fn from_code(value: i32) -> Error {
        if value >= 0 {
            Error::Success(value)
        } else if value == raw::MPV_ERROR_EVENT_QUEUE_FULL {
            Error::EventQueueFull
        } else if value == raw::MPV_ERROR_NOMEM {
            Error::NoMemory
        } else if value == raw::MPV_ERROR_UNINITIALIZED {
            Error::Uninitialized
        } else if value == raw::MPV_ERROR_INVALID_PARAMETER {
            Error::InvalidParameter
        } else if value == raw::MPV_ERROR_OPTION_NOT_FOUND {
            Error::OptionNotFound
        } else if value == raw::MPV_ERROR_OPTION_FORMAT {
            Error::OptionFormat
        } else if value == raw::MPV_ERROR_OPTION_ERROR {
            Error::OptionError
        } else if value == raw::MPV_ERROR_PROPERTY_NOT_FOUND {
            Error::PropertyNotFound
        } else if value == raw::MPV_ERROR_PROPERTY_FORMAT {
            Error::PropertyFormat
        } else if value == raw::MPV_ERROR_PROPERTY_UNAVAILABLE {
            Error::PropertyUnavailable
        } else if value == raw::MPV_ERROR_PROPERTY_ERROR {
            Error::PropertyError
        } else if value == raw::MPV_ERROR_COMMAND {
            Error::Command
        } else if value == raw::MPV_ERROR_LOADING_FAILED {
            Error::LoadingFailed
        } else if value == raw::MPV_ERROR_AO_INIT_FAILED {
            Error::AoInitFailed
        } else if value == raw::MPV_ERROR_VO_INIT_FAILED {
            Error::VoInitFailed
        } else if value == raw::MPV_ERROR_NOTHING_TO_PLAY {
            Error::NothingToPlay
        } else if value == raw::MPV_ERROR_UNKNOWN_FORMAT {
            Error::UnknownFormat
        } else if value == raw::MPV_ERROR_UNSUPPORTED {
            Error::Unsupported
        } else if value == raw::MPV_ERROR_NOT_IMPLEMENTED {
            Error::NotImplemented
        } else if value == raw::MPV_ERROR_GENERIC {
            Error::Generic
        } else {
            Error::Undefined(value)
        }
    }

    /// The status code that stands for an error. Errors of the bridge itself
    /// have no code of their own and are reported as generic.
    pub open spec fn code(self) -> i32 {
        match self {
            Error::Success(x) => x,
            Error::EventQueueFull => raw::MPV_ERROR_EVENT_QUEUE_FULL,
            Error::NoMemory => raw::MPV_ERROR_NOMEM,
            Error::Uninitialized => raw::MPV_ERROR_UNINITIALIZED,
            Error::InvalidParameter => raw::MPV_ERROR_INVALID_PARAMETER,
            Error::OptionNotFound => raw::MPV_ERROR_OPTION_NOT_FOUND,
            Error::OptionFormat => raw::MPV_ERROR_OPTION_FORMAT,
            Error::OptionError => raw::MPV_ERROR_OPTION_ERROR,
            Error::PropertyNotFound => raw::MPV_ERROR_PROPERTY_NOT_FOUND,
            Error::PropertyFormat => raw::MPV_ERROR_PROPERTY_FORMAT,
            Error::PropertyUnavailable => raw::MPV_ERROR_PROPERTY_UNAVAILABLE,
            Error::PropertyError => raw::MPV_ERROR_PROPERTY_ERROR,
            Error::Command => raw::MPV_ERROR_COMMAND,
            Error::LoadingFailed => raw::MPV_ERROR_LOADING_FAILED,
            Error::AoInitFailed => raw::MPV_ERROR_AO_INIT_FAILED,
            Error::VoInitFailed => raw::MPV_ERROR_VO_INIT_FAILED,
            Error::NothingToPlay => raw::MPV_ERROR_NOTHING_TO_PLAY,
            Error::UnknownFormat => raw::MPV_ERROR_UNKNOWN_FORMAT,
            Error::Unsupported => raw::MPV_ERROR_UNSUPPORTED,
            Error::NotImplemented => raw::MPV_ERROR_NOT_IMPLEMENTED,
            Error::Generic => raw::MPV_ERROR_GENERIC,
            Error::Undefined(x) => x,
            Error::Rust(_) => raw::MPV_ERROR_GENERIC,
        }
    }

    /// Whether this error reports the given fault.
    pub open spec fn reports(self, fault: Fault) -> bool {
        match fault {
            Fault::Pointer => self == Error::Rust(RustError::Pointer(None)),
            Fault::Utf8(bytes) => self == Error::Rust(RustError::InvalidUtf8(utf8_error(bytes))),
            Fault::Unrecognized => false,
        }
    }

    /// Turns a status code into the error it stands for. Every status has
    /// one, and the error names the status again.
    pub fn from(value: i32) -> (e: Error)
        ensures
            e == Error::from_code(value),
            e.code() == value,
    {
        if value >= 0 {
            Error::Success(value)
        } else if value == raw::MPV_ERROR_EVENT_QUEUE_FULL {
            Error::EventQueueFull
        } else if value == raw::MPV_ERROR_NOMEM {
            Error::NoMemory
        } else if value == raw::MPV_ERROR_UNINITIALIZED {
            Error::Uninitialized
        } else if value == raw::MPV_ERROR_INVALID_PARAMETER {
            Error::InvalidParameter
        } else if value == raw::MPV_ERROR_OPTION_NOT_FOUND {
            Error::OptionNotFound
        } else if value == raw::MPV_ERROR_OPTION_FORMAT {
            Error::OptionFormat
        } else if value == raw::MPV_ERROR_OPTION_ERROR {
            Error::OptionError
        } else if value == raw::MPV_ERROR_PROPERTY_NOT_FOUND {
            Error::PropertyNotFound
        } else if value == raw::MPV_ERROR_PROPERTY_FORMAT {
            Error::PropertyFormat
        } else if value == raw::MPV_ERROR_PROPERTY_UNAVAILABLE {
            Error::PropertyUnavailable
        } else if value == raw::MPV_ERROR_PROPERTY_ERROR {
            Error::PropertyError
        } else if value == raw::MPV_ERROR_COMMAND {
            Error::Command
        } else if value == raw::MPV_ERROR_LOADING_FAILED {
            Error::LoadingFailed
        } else if value == raw::MPV_ERROR_AO_INIT_FAILED {
            Error::AoInitFailed
        } else if value == raw::MPV_ERROR_VO_INIT_FAILED {
            Error::VoInitFailed
        } else if value == raw::MPV_ERROR_NOTHING_TO_PLAY {
            Error::NothingToPlay
        } else if value == raw::MPV_ERROR_UNKNOWN_FORMAT {
            Error::UnknownFormat
        } else if value == raw::MPV_ERROR_UNSUPPORTED {
            Error::Unsupported
        } else if value == raw::MPV_ERROR_NOT_IMPLEMENTED {
            Error::NotImplemented
        } else if value == raw::MPV_ERROR_GENERIC {
            Error::Generic
        } else {
            Error::Undefined(value)
        }
    }

    /// The error for a null or unusable pointer.
    pub fn pointer() -> (e: Error)
        ensures
            e == Error::Rust(RustError::Pointer(None)),
            e.reports(Fault::Pointer),
    {
        Error::Rust(RustError::Pointer(None))
    }
}

impl From<&Error> for i32 {
    fn from(value: &Error) -> (code: i32) {
        match value {
            Error::Success(x) => *x,
            Error::EventQueueFull => raw::MPV_ERROR_EVENT_QUEUE_FULL,
            Error::NoMemory => raw::MPV_ERROR_NOMEM,
            Error::Uninitialized => raw::MPV_ERROR_UNINITIALIZED,
            Error::InvalidParameter => raw::MPV_ERROR_INVALID_PARAMETER,
            Error::OptionNotFound => raw::MPV_ERROR_OPTION_NOT_FOUND,
            Error::OptionFormat => raw::MPV_ERROR_OPTION_FORMAT,
            Error::OptionError => raw::MPV_ERROR_OPTION_ERROR,
            Error::PropertyNotFound => raw::MPV_ERROR_PROPERTY_NOT_FOUND,
            Error::PropertyFormat => raw::MPV_ERROR_PROPERTY_FORMAT,
            Error::PropertyUnavailable => raw::MPV_ERROR_PROPERTY_UNAVAILABLE,
            Error::PropertyError => raw::MPV_ERROR_PROPERTY_ERROR,
            Error::Command => raw::MPV_ERROR_COMMAND,
            Error::LoadingFailed => raw::MPV_ERROR_LOADING_FAILED,
            Error::AoInitFailed => raw::MPV_ERROR_AO_INIT_FAILED,
            Error::VoInitFailed => raw::MPV_ERROR_VO_INIT_FAILED,
            Error::NothingToPlay => raw::MPV_ERROR_NOTHING_TO_PLAY,
            Error::UnknownFormat => raw::MPV_ERROR_UNKNOWN_FORMAT,
            Error::Unsupported => raw::MPV_ERROR_UNSUPPORTED,
            Error::NotImplemented => raw::MPV_ERROR_NOT_IMPLEMENTED,
            Error::Generic => raw::MPV_ERROR_GENERIC,
            Error::Undefined(x) => *x,
            Error::Rust(_) => raw::MPV_ERROR_GENERIC,
        }
    }
}

impl vstd::std_specs::convert::FromSpecImpl<&Error> for i32 {
    open spec fn obeys_from_spec() -> bool {
        true
    }

    open spec fn from_spec(value: &Error) -> i32 {
        value.code()
    }
}

/// Reads a status code as a result, keeping the value of a success.
pub fn error_to_result_code(value: i32) -> (r: Result<i32, Error>)
    ensures
        value >= 0 ==> r == Ok::<i32, Error>(value),
        value < 0 ==> r == Err::<i32, Error>(Error::from_code(value)),
        r matches Err(e) ==> e.code() == value && !(e is Success),
{
    if value >= 0 {
        Ok(value)
    } else {
        Err(Error::from(value))
    }
}

/// Reads a status code as a result, dropping the value of a success.
pub fn error_to_result(value: i32) -> (r: Result<(), Error>)
    ensures
        value >= 0 ==> r == Ok::<(), Error>(()),
        value < 0 ==> r == Err::<(), Error>(Error::from_code(value)),
        r matches Err(e) ==> e.code() == value && !(e is Success),
{
    if value >= 0 {
        Ok(())
    } else {
        Err(Error::from(value))
    }
}

/// A status code and the error it stands for name each other: turning a
/// status code into an error and back gives the code again.
pub proof fn lemma_code_of_from_code(value: i32)
    ensures
        Error::from_code(value).code() == value,
{
}

} // verus!
