//! The errors a listing can end with.

use vstd::prelude::*;
use vstd::std_specs::convert::FromSpecImpl;

verus! {

/// What `std::io::Error` holds is not read here; the value is only carried.
#[verifier::external_type_specification]
#[verifier::external_body]
pub struct ExIoError(std::io::Error);

/// What `std::time::SystemTimeError` holds is not read here.
#[verifier::external_type_specification]
#[verifier::external_body]
pub struct ExSystemTimeError(std::time::SystemTimeError);

/// Why a listing was abandoned.
#[derive(Debug)]
pub enum Error {
    /// The directory or one of its entries could not be read.
    IOError(std::io::Error),
    /// The system could not tell how far a time is from the start of 1970.
    SystemTimeError(std::time::SystemTimeError),
    /// An owner or group id has no name.
    ParseIdError,
    /// A time of an entry cannot be counted in seconds or has no local
    /// calendar time.
    TimeConversionFailed,
}

impl From<std::io::Error> for Error {
    fn from(e: std::io::Error) -> (err: Error)
    {
        Error::IOError(e)
    }
}

impl FromSpecImpl<std::io::Error> for Error {
    open spec fn obeys_from_spec() -> bool {
        true
    }

    open spec fn from_spec(e: std::io::Error) -> Error {
        Error::IOError(e)
    }
}

impl From<std::time::SystemTimeError> for Error {
    fn from(e: std::time::SystemTimeError) -> (err: Error)
    {
        Error::SystemTimeError(e)
    }
}

impl FromSpecImpl<std::time::SystemTimeError> for Error {
    open spec fn obeys_from_spec() -> bool {
        true
    }

    open spec fn from_spec(e: std::time::SystemTimeError) -> Error {
        Error::SystemTimeError(e)
    }
}

} // verus!
