//! The raw error code of a failed operating-system call.
use vstd::prelude::*;

verus! {

#[verifier::external_type_specification]
#[verifier::external_body]
pub struct ExIoError(std::io::Error);

/// Relies on `std::io::Error::last_os_error`: reads the calling thread's last OS error.
pub assume_specification[ std::io::Error::last_os_error ]() -> (r: std::io::Error);

/// Relies on `std::io::Error::raw_os_error`: the OS code that the error carries, if any.
pub assume_specification[ std::io::Error::raw_os_error ](e: &std::io::Error) -> (r: Option<i32>);

/// An error reported by the operating system, kept as its raw code.
#[derive(Clone, Copy, Debug, PartialEq, Eq)]
pub struct OsError {
    /// The raw code, as `GetLastError` reports it.
    pub last_os_error: u32,
}

impl OsError {
    /// Captures the calling thread's last OS error.
    #[must_use]
    pub fn new() -> (r: OsError) {
        let e = std::io::Error::last_os_error();
        match e.raw_os_error() {
            Some(code) => OsError { last_os_error: code as u32 },
            None => OsError { last_os_error: 0 },
        }
    }

    /// An error that carries the given raw code.
    pub fn from_code(code: u32) -> (r: OsError)
        ensures
            r.last_os_error == code,
    {
        OsError { last_os_error: code }
    }
}

impl From<std::io::Error> for OsError {
    /// The OS code the error carries, or 0 where it carries none.
    fn from(e: std::io::Error) -> (r: OsError) {
        match e.raw_os_error() {
            Some(code) => OsError { last_os_error: code as u32 },
            None => OsError { last_os_error: 0 },
        }
    }
}

impl vstd::std_specs::convert::FromSpecImpl<std::io::Error> for OsError {
    /// What code an `io::Error` carries is not known to the proofs, so no result is claimed.
    open spec fn obeys_from_spec() -> bool {
        false
    }

    open spec fn from_spec(e: std::io::Error) -> OsError {
        vstd::pervasive::arbitrary()
    }
}

} // verus!
