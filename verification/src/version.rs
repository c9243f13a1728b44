//! Checks that the mpv player and the interface header have the version this
//! library is written for.
use vstd::prelude::*;
use crate::error::{Error, RustError, VersionError};
use crate::raw::{EXPECTED_MPV_VERSION, MPV_CLIENT_API_VERSION};

verus! {

/// What a version check returns for a version that was found.
pub open spec fn checked(found: u64) -> Result<(), Error> {
    if found == EXPECTED_MPV_VERSION as u64 {
        Ok(())
    } else {
        Err(
            Error::Rust(
                RustError::VersionMismatch(
                    VersionError { expected: EXPECTED_MPV_VERSION as u64, found },
                ),
            ),
        )
    }
}

/// Checks that the interface header has the version this library is written
/// for.
pub fn generated_version_check() -> (r: Result<(), Error>)
    ensures
        r == checked(MPV_CLIENT_API_VERSION as u64),
        r is Ok,
{
    if MPV_CLIENT_API_VERSION == EXPECTED_MPV_VERSION {
        Ok(())
    } else {
        Err(
            Error::Rust(
                RustError::VersionMismatch(
                    VersionError {
                        expected: EXPECTED_MPV_VERSION as u64,
                        found: MPV_CLIENT_API_VERSION as u64,
                    },
                ),
            ),
        )
    }
}

/// Checks that the client interface version reported by the running player
/// is the one this library is written for.
pub fn version_check(version: u64) -> (r: Result<(), Error>)
    ensures
        r == checked(version),
{
    if version == EXPECTED_MPV_VERSION as u64 {
        Ok(())
    } else {
        Err(
            Error::Rust(
                RustError::VersionMismatch(
                    VersionError { expected: EXPECTED_MPV_VERSION as u64, found: version },
                ),
            ),
        )
    }
}

} // verus!
