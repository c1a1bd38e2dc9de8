//! A fixed-size region of scratch memory inside the target process.
use vstd::prelude::*;
use crate::errors::RemoteAllocationError;
use crate::errors::ERROR_PARTIAL_COPY;
use crate::process::ProcessRef;
use crate::process::RemoteWrite;

verus! {

/// A region of `size` bytes at `base` in the target, filled from the start.
///
/// The bytes written to it wait in a queue until the caller performs them
/// with a cross-process write; the region only decides where they go.
pub struct RemoteAllocation {
    base: usize,
    size: usize,
    offset: usize,
    process: ProcessRef,
    pending: Vec<RemoteWrite>,
}

impl RemoteAllocation {
    pub closed spec fn base(&self) -> nat {
        self.base as nat
    }

    pub closed spec fn size(&self) -> nat {
        self.size as nat
    }

    /// How many bytes from the start are taken.
    pub closed spec fn cursor(&self) -> nat {
        self.offset as nat
    }

    pub closed spec fn spec_process(&self) -> ProcessRef {
        self.process
    }

    /// The writes not yet handed out, oldest first.
    pub closed spec fn pending(&self) -> Seq<RemoteWrite> {
        self.pending@
    }

    /// The cursor stays within the region, and the region within the address space.
    pub open spec fn wf(&self) -> bool {
        &&& self.base() != 0
        &&& self.cursor() <= self.size()
        &&& self.base() + self.size() <= usize::MAX
    }

    /// A region of `size` bytes at `base`, bound to `process`, with nothing taken.
    pub fn new(base: usize, size: usize, process: ProcessRef) -> (r: RemoteAllocation)
        requires
            base != 0,
            base as int + size as int <= usize::MAX,
        ensures
            r.wf(),
            r.base() == base,
            r.size() == size,
            r.cursor() == 0,
            r.spec_process() == process,
            r.pending().len() == 0,
    {
        RemoteAllocation { base, size, offset: 0, process, pending: Vec::new() }
    }

    /// The process the region lies in.
    pub fn process(&self) -> (r: ProcessRef)
        ensures
            r == self.spec_process(),
    {
        self.process
    }

    /// The first address of the region.
    pub fn base_address(&self) -> (r: usize)
        ensures
            r == self.base(),
    {
        self.base
    }

    /// The number of bytes in the region.
    pub fn len(&self) -> (r: usize)
        ensures
            r == self.size(),
    {
        self.size
    }

    /// The number of bytes after the cursor.
    pub fn remaining(&self) -> (r: usize)
        requires
            self.wf(),
        ensures
            r == self.size() - self.cursor(),
    {
        self.size - self.offset
    }

    /// The address at the cursor.
    pub fn cursor_address(&self) -> (r: usize)
        requires
            self.wf(),
        ensures
            r == self.base() + self.cursor(),
    {
        self.base + self.offset
    }

    /// The address range whose instruction cache must be flushed after code was written:
    /// the whole region, as `(address, size)`.
    pub fn flush_instruction_cache(&self) -> (r: (usize, usize))
        ensures
            r.0 == self.base(),
            r.1 == self.size(),
    {
        (self.base, self.size)
    }

    /// Writes `data` at the cursor and advances the cursor past it; returns the
    /// address written to. Fails, changing nothing, if `data` does not fit in the
    /// rest of the region.
    pub fn append(&mut self, data: &[u8]) -> (r: Result<usize, RemoteAllocationError>)
        requires
            old(self).wf(),
        ensures
            final(self).wf(),
            final(self).base() == old(self).base(),
            final(self).size() == old(self).size(),
            final(self).spec_process() == old(self).spec_process(),
            old(self).cursor() + data@.len() <= old(self).size() <==> r is Ok,
            r matches Ok(a) ==> {
                &&& a == old(self).base() + old(self).cursor()
                &&& final(self).cursor() == old(self).cursor() + data@.len()
                &&& final(self).pending() == old(self).pending().push(
                    final(self).pending().last(),
                )
                &&& final(self).pending().last().address == a
                &&& final(self).pending().last().bytes@ == data@
            },
            r matches Err(e) ==> {
                &&& e.os_error.last_os_error == ERROR_PARTIAL_COPY
                &&& final(self).cursor() == old(self).cursor()
                &&& final(self).pending() == old(self).pending()
            },
    {
        let r = self.write_in_place(data);
        if r.is_ok() {
            self.offset = self.offset + data.len();
        }
        r
    }

    /// Writes `data` at the cursor without advancing it; returns the address
    /// written to. Fails, changing nothing, if `data` does not fit in the rest
    /// of the region.
    pub fn write_in_place(&mut self, data: &[u8]) -> (r: Result<usize, RemoteAllocationError>)
        requires
            old(self).wf(),
        ensures
            final(self).wf(),
            final(self).base() == old(self).base(),
            final(self).size() == old(self).size(),
            final(self).spec_process() == old(self).spec_process(),
            final(self).cursor() == old(self).cursor(),
            old(self).cursor() + data@.len() <= old(self).size() <==> r is Ok,
            r matches Ok(a) ==> {
                &&& a == old(self).base() + old(self).cursor()
                &&& final(self).pending() == old(self).pending().push(
                    final(self).pending().last(),
                )
                &&& final(self).pending().last().address == a
                &&& final(self).pending().last().bytes@ == data@
            },
            r matches Err(e) ==> {
                &&& e.os_error.last_os_error == ERROR_PARTIAL_COPY
                &&& final(self).pending() == old(self).pending()
            },
    {
        if data.len() > self.size - self.offset {
            return Err(RemoteAllocationError::out_of_space());
        }
        let address = self.base + self.offset;
        let mut bytes: Vec<u8> = Vec::new();
        let mut i: usize = 0;
        while i < data.len()
            invariant
                i <= data@.len(),
                bytes@ == data@.subrange(0, i as int),
            decreases data@.len() - i,
        {
            bytes.push(data[i]);
            i = i + 1;
        }
        assert(bytes@ == data@);
        self.pending.push(RemoteWrite { address, bytes });
        Ok(address)
    }

    /// Hands out the queued writes, oldest first, and empties the queue.
    pub fn take_writes(&mut self) -> (r: Vec<RemoteWrite>)
        requires
            old(self).wf(),
        ensures
            final(self).wf(),
            r@ == old(self).pending(),
            final(self).pending().len() == 0,
            final(self).base() == old(self).base(),
            final(self).size() == old(self).size(),
            final(self).cursor() == old(self).cursor(),
            final(self).spec_process() == old(self).spec_process(),
    {
        let mut out: Vec<RemoteWrite> = Vec::new();
        std::mem::swap(&mut out, &mut self.pending);
        out
    }
}

/// Appends leave the region's bytes in order: an append returns the base plus the
/// cursor it found, and a later append writes strictly after the earlier one's bytes.
pub proof fn lemma_appends_do_not_overlap(
    r0: RemoteAllocation,
    r1: RemoteAllocation,
    r2: RemoteAllocation,
    d1: Seq<u8>,
    d2: Seq<u8>,
    a1: usize,
    a2: usize,
)
    requires
        r1.base() == r0.base(),
        a1 == r0.base() + r0.cursor(),
        r1.cursor() == r0.cursor() + d1.len(),
        r2.base() == r1.base(),
        a2 == r1.base() + r1.cursor(),
        r2.cursor() == r1.cursor() + d2.len(),
    ensures
        a1 + d1.len() <= a2,
        a2 + d2.len() == r2.base() + r2.cursor(),
{
}

} // verus!
