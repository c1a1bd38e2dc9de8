//! Injection of a library module into another process, and its removal.
//!
//! The library holds the protocol: the scratch region inside the target, the
//! machine-code stub that calls the system loader, the addresses that stub
//! needs, and the decisions of the injector. Each operating-system call that
//! touches the target (a cross-process write, a remote thread, a module
//! lookup) is an action that the library hands to its caller, whose outcome
//! comes back as plain values.
pub mod os_error;
pub mod exception;
pub mod errors;
pub mod process;
pub mod remote_allocation;
pub mod stub;
pub mod help_data;
pub mod wide;
pub mod syringe;
