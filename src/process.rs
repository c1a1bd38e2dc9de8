//! Plain views of the target process and of modules loaded in it.
use vstd::prelude::*;

verus! {

/// A non-owning view of a target process.
#[derive(Clone, Copy, Debug, PartialEq, Eq, Structural)]
pub struct ProcessRef {
    /// The process identifier.
    pub pid: u32,
    /// Whether the process runs 64-bit code.
    pub is_x64: bool,
}

/// A module loaded in a target process.
#[derive(Clone, Copy, Debug, PartialEq, Eq, Structural)]
pub struct ProcessModule {
    /// The module's handle (its base address) in the target; never null.
    pub handle: usize,
    /// The process the module is loaded in.
    pub process: ProcessRef,
}

/// A write of bytes at an absolute address in the target's memory.
#[derive(Debug)]
pub struct RemoteWrite {
    pub address: usize,
    pub bytes: Vec<u8>,
}

/// A call to run in a new thread of the target: first the writes, in order,
/// then an instruction-cache flush of `flush_size` bytes at `flush_address`,
/// then a thread entered at `entry` with `argument`, whose exit code is the result.
#[derive(Debug)]
pub struct RemoteThreadCall {
    pub writes: Vec<RemoteWrite>,
    pub flush_address: usize,
    pub flush_size: usize,
    pub entry: usize,
    pub argument: usize,
}

} // verus!
