//! The error types of each operation.
use vstd::prelude::*;
use crate::exception::ExceptionCode;
use crate::os_error::OsError;

verus! {

#[verifier::external_type_specification]
#[verifier::external_body]
pub struct ExBufferAllocationError(reloaded_memory_buffers::structs::errors::BufferAllocationError);

/// The code the OS gives for a cross-process copy that ran out of accessible memory;
/// a write that would run past the end of a remote region is refused with it.
pub const ERROR_PARTIAL_COPY: u32 = 299;

/// The code the OS gives for an image that is not a valid executable for the process.
pub const ERROR_BAD_EXE_FORMAT: u32 = 193;

/// An error that occurred while writing into a remote region.
#[derive(Clone, Copy, Debug, PartialEq, Eq)]
pub struct RemoteAllocationError {
    /// The raw error code from the failed OS call.
    pub os_error: OsError,
}

impl RemoteAllocationError {
    /// Captures the calling thread's last OS error.
    #[must_use]
    pub fn new() -> (r: RemoteAllocationError) {
        RemoteAllocationError { os_error: OsError::new() }
    }

    /// The error of a write that does not fit in the rest of its region.
    pub fn out_of_space() -> (r: RemoteAllocationError)
        ensures
            r.os_error.last_os_error == ERROR_PARTIAL_COPY,
    {
        RemoteAllocationError { os_error: OsError::from_code(ERROR_PARTIAL_COPY) }
    }
}

/// Errors that can occur when creating an injector.
pub enum CreateSyringeError {
    /// Failed to allocate the scratch region in the target.
    BufferAllocationError(reloaded_memory_buffers::structs::errors::BufferAllocationError),
    /// Operating system related error.
    OsError(OsError),
    /// Failed to write into the scratch region.
    RemoteAllocationError(RemoteAllocationError),
}

impl From<OsError> for CreateSyringeError {
    fn from(e: OsError) -> (r: CreateSyringeError) {
        CreateSyringeError::OsError(e)
    }
}

impl vstd::std_specs::convert::FromSpecImpl<OsError> for CreateSyringeError {
    open spec fn obeys_from_spec() -> bool {
        true
    }

    open spec fn from_spec(e: OsError) -> CreateSyringeError {
        CreateSyringeError::OsError(e)
    }
}

impl From<RemoteAllocationError> for CreateSyringeError {
    fn from(e: RemoteAllocationError) -> (r: CreateSyringeError) {
        CreateSyringeError::RemoteAllocationError(e)
    }
}

impl vstd::std_specs::convert::FromSpecImpl<RemoteAllocationError> for CreateSyringeError {
    open spec fn obeys_from_spec() -> bool {
        true
    }

    open spec fn from_spec(e: RemoteAllocationError) -> CreateSyringeError {
        CreateSyringeError::RemoteAllocationError(e)
    }
}

impl From<reloaded_memory_buffers::structs::errors::BufferAllocationError> for CreateSyringeError {
    fn from(e: reloaded_memory_buffers::structs::errors::BufferAllocationError) -> (r: CreateSyringeError) {
        CreateSyringeError::BufferAllocationError(e)
    }
}

impl vstd::std_specs::convert::FromSpecImpl<reloaded_memory_buffers::structs::errors::BufferAllocationError>
    for CreateSyringeError {
    open spec fn obeys_from_spec() -> bool {
        true
    }

    open spec fn from_spec(
        e: reloaded_memory_buffers::structs::errors::BufferAllocationError,
    ) -> CreateSyringeError {
        CreateSyringeError::BufferAllocationError(e)
    }
}

/// Errors of resolving the addresses of the system functions that the stub calls.
#[derive(Clone, Copy, Debug, PartialEq, Eq)]
pub enum LoadInjectHelpDataError {
    /// The pairing of controller and target bitness is not supported.
    UnsupportedTarget,
    /// The system module could not be located in the target.
    SystemModuleNotFound,
    /// An OS call failed while locating or reading the system module.
    Os(OsError),
    /// The system module's image could not be parsed.
    InvalidImage,
    /// A required function is not among the image's exports, or lies too far from its base.
    ExportNotFound,
}

/// The outcome of a remote call that did not succeed.
#[derive(Clone, Copy, Debug, PartialEq, Eq)]
pub enum ExceptionOrIoError {
    /// The remote thread ended with a structured exception.
    Exception(ExceptionCode),
    /// The remote call reported an OS error.
    Io(OsError),
}

/// Errors of injecting a module.
#[derive(Clone, Copy, Debug, PartialEq, Eq)]
pub enum InjectError {
    /// The addresses the stub needs could not be resolved.
    LoadInjectHelpData(LoadInjectHelpDataError),
    /// The scratch region could not take a write.
    RemoteAllocation(RemoteAllocationError),
    /// An address does not fit in the operand of the target's stub.
    AddressOutOfRange,
    /// The module path cannot be passed as a wide string.
    PathConversion,
    /// An OS call on the target failed, or the loader reported an OS error.
    RemoteIo(OsError),
    /// The remote thread ended with a structured exception.
    RemoteException(ExceptionCode),
    /// The module and the target process differ in bitness.
    ArchitectureMismatch,
}

/// Errors of ejecting a module.
#[derive(Clone, Copy, Debug, PartialEq, Eq)]
pub enum EjectError {
    /// The addresses the unload call needs could not be resolved.
    LoadInjectHelpData(LoadInjectHelpDataError),
    /// The module is not loaded, though the process is alive.
    ModuleInaccessible,
    /// The module is not loaded, and the process has exited.
    ProcessInaccessible,
    /// An OS call on the target failed, or the system unload function reported
    /// failure (carrying code 0, as it gives no code of its own).
    RemoteIo(OsError),
    /// The remote thread ended with a structured exception.
    RemoteException(ExceptionCode),
}

} // verus!
