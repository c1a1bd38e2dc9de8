//! The machine-code stub that loads a module inside the target.
//!
//! Each architecture has a fixed template with three patch sites: the
//! address of `LoadLibraryW`, the address of the result slot, and the
//! address of `GetLastError`. The stub is a thread entry point that takes the
//! module path as its argument, calls `LoadLibraryW`, stores the handle in the
//! result slot, and exits with 0 on success or with `GetLastError()` on failure.
use vstd::prelude::*;
use crate::errors::InjectError;
use crate::errors::RemoteAllocationError;
use crate::errors::ERROR_PARTIAL_COPY;
use crate::help_data::InjectHelpData;
use crate::process::RemoteThreadCall;
use crate::remote_allocation::RemoteAllocation;

verus! {

/// The 32-bit template, 35 bytes (stdcall thread entry, argument at `[esp+4]`):
///
/// ```text
///  0: 8b 44 24 04      mov eax, [esp+4]
///  4: 50               push eax
///  5: b8 <imm32>       mov eax, LoadLibraryW        ; site at 6
/// 10: ff d0            call eax
/// 12: a3 <imm32>       mov [result], eax            ; site at 13
/// 17: 85 c0            test eax, eax
/// 19: 75 09            jnz loaded
/// 21: b8 <imm32>       mov eax, GetLastError        ; site at 22
/// 26: ff d0            call eax
/// 28: eb 02            jmp done
/// 30: 31 c0            loaded: xor eax, eax
/// 32: c2 04 00         done: ret 4
/// ```
pub open spec fn x86_template() -> Seq<u8> {
    seq![
        0x8b, 0x44, 0x24, 0x04,
        0x50,
        0xb8, 0, 0, 0, 0,
        0xff, 0xd0,
        0xa3, 0, 0, 0, 0,
        0x85, 0xc0,
        0x75, 0x09,
        0xb8, 0, 0, 0, 0,
        0xff, 0xd0,
        0xeb, 0x02,
        0x31, 0xc0,
        0xc2, 0x04, 0x00,
    ]
}

/// The 64-bit template, 52 bytes (argument in `rcx`, stack kept 16-byte aligned
/// with the 32-byte shadow area):
///
/// ```text
///  0: 48 83 ec 28      sub rsp, 0x28
///  4: 48 b8 <imm64>    mov rax, LoadLibraryW        ; site at 6
/// 14: ff d0            call rax
/// 16: 48 a3 <imm64>    mov [result], rax            ; site at 18
/// 26: 48 85 c0         test rax, rax
/// 29: 75 0e            jnz loaded
/// 31: 48 b8 <imm64>    mov rax, GetLastError        ; site at 33
/// 41: ff d0            call rax
/// 43: eb 02            jmp done
/// 45: 31 c0            loaded: xor eax, eax
/// 47: 48 83 c4 28      done: add rsp, 0x28
/// 51: c3               ret
/// ```
pub open spec fn x64_template() -> Seq<u8> {
    seq![
        0x48, 0x83, 0xec, 0x28,
        0x48, 0xb8, 0, 0, 0, 0, 0, 0, 0, 0,
        0xff, 0xd0,
        0x48, 0xa3, 0, 0, 0, 0, 0, 0, 0, 0,
        0x48, 0x85, 0xc0,
        0x75, 0x0e,
        0x48, 0xb8, 0, 0, 0, 0, 0, 0, 0, 0,
        0xff, 0xd0,
        0xeb, 0x02,
        0x31, 0xc0,
        0x48, 0x83, 0xc4, 0x28,
        0xc3,
    ]
}

/// The `width` low bytes of `value`, least significant first.
pub open spec fn le_bytes(value: u64, width: nat) -> Seq<u8> {
    Seq::new(width, |j: int| (value >> ((8 * j) as u64)) as u8)
}

/// `code` with the `width` bytes at `offset` replaced by those of `value`.
pub open spec fn patch(code: Seq<u8>, offset: nat, width: nat, value: u64) -> Seq<u8> {
    code.subrange(0, offset as int) + le_bytes(value, width) + code.subrange(
        (offset + width) as int,
        code.len() as int,
    )
}

/// The 32-bit stub for the given addresses.
pub open spec fn x86_code(load_library_w: u64, return_buffer: u64, get_last_error: u64) -> Seq<u8> {
    patch(
        patch(patch(x86_template(), 6, 4, load_library_w), 13, 4, return_buffer),
        22,
        4,
        get_last_error,
    )
}

/// The 64-bit stub for the given addresses.
pub open spec fn x64_code(load_library_w: u64, return_buffer: u64, get_last_error: u64) -> Seq<u8> {
    patch(
        patch(patch(x64_template(), 6, 8, load_library_w), 18, 8, return_buffer),
        33,
        8,
        get_last_error,
    )
}

fn template_x86() -> (r: Vec<u8>)
    ensures
        r@ == x86_template(),
{
    let r: Vec<u8> = vec![
        0x8b, 0x44, 0x24, 0x04,
        0x50,
        0xb8, 0, 0, 0, 0,
        0xff, 0xd0,
        0xa3, 0, 0, 0, 0,
        0x85, 0xc0,
        0x75, 0x09,
        0xb8, 0, 0, 0, 0,
        0xff, 0xd0,
        0xeb, 0x02,
        0x31, 0xc0,
        0xc2, 0x04, 0x00,
    ];
    assert(r@ =~= x86_template());
    r
}

fn template_x64() -> (r: Vec<u8>)
    ensures
        r@ == x64_template(),
{
    let r: Vec<u8> = vec![
        0x48, 0x83, 0xec, 0x28,
        0x48, 0xb8, 0, 0, 0, 0, 0, 0, 0, 0,
        0xff, 0xd0,
        0x48, 0xa3, 0, 0, 0, 0, 0, 0, 0, 0,
        0x48, 0x85, 0xc0,
        0x75, 0x0e,
        0x48, 0xb8, 0, 0, 0, 0, 0, 0, 0, 0,
        0xff, 0xd0,
        0xeb, 0x02,
        0x31, 0xc0,
        0x48, 0x83, 0xc4, 0x28,
        0xc3,
    ];
    assert(r@ =~= x64_template());
    r
}

/// Overwrites the `width` bytes at `offset` with the low bytes of `value`,
/// least significant first.
fn patch_le(code: &mut Vec<u8>, offset: usize, width: usize, value: u64)
    requires
        offset + width <= old(code)@.len(),
        width <= 8,
    ensures
        final(code)@ == patch(old(code)@, offset as nat, width as nat, value),
{
    let ghost before = code@;
    let n: usize = code.len();
    let mut j: usize = 0;
    while j < width
        invariant
            j <= width,
            width <= 8,
            offset + width <= n,
            n == before.len(),
            code@.len() == before.len(),
            forall|k: int| 0 <= k < offset ==> code@[k] == before[k],
            forall|k: int| offset + j <= k < before.len() ==> code@[k] == before[k],
            forall|k: int|
                0 <= k < j ==> code@[offset + k] == le_bytes(value, width as nat)[k],
        decreases width - j,
    {
        let b = #[verifier::truncate] ((value >> (8 * j as u64)) as u8);
        code.set(offset + j, b);
        j = j + 1;
    }
    assert(code@ =~= patch(before, offset as nat, width as nat, value));
}

/// A stub written into the target, with the slot it stores the loaded handle in.
pub struct LoadLibraryWStub {
    code: usize,
    result: usize,
    result_width: usize,
}

impl LoadLibraryWStub {
    /// The address of the stub's entry point in the target.
    pub closed spec fn spec_code(&self) -> usize {
        self.code
    }

    /// The address of the result slot in the target.
    pub closed spec fn spec_result(&self) -> usize {
        self.result
    }

    /// The width in bytes of the result slot: a pointer of the target.
    pub closed spec fn spec_result_width(&self) -> usize {
        self.result_width
    }

    pub fn code_address(&self) -> (r: usize)
        ensures
            r == self.spec_code(),
    {
        self.code
    }

    pub fn result_address(&self) -> (r: usize)
        ensures
            r == self.spec_result(),
    {
        self.result
    }

    pub fn result_width(&self) -> (r: usize)
        ensures
            r == self.spec_result_width(),
    {
        self.result_width
    }

    /// The 32-bit stub; each address must fit in 32 bits, and the slot is not null.
    pub fn build_code_x86(load_library_w: usize, return_buffer: usize, get_last_error: usize) -> (r: Vec<u8>)
        requires
            return_buffer != 0,
            load_library_w <= u32::MAX,
            return_buffer <= u32::MAX,
            get_last_error <= u32::MAX,
        ensures
            r@ == x86_code(load_library_w as u64, return_buffer as u64, get_last_error as u64),
            r@.len() == 35,
    {
        let mut code = template_x86();
        patch_le(&mut code, 6, 4, load_library_w as u64);
        patch_le(&mut code, 13, 4, return_buffer as u64);
        patch_le(&mut code, 22, 4, get_last_error as u64);
        code
    }

    /// The 64-bit stub; the slot is not null.
    pub fn build_code_x64(load_library_w: usize, return_buffer: usize, get_last_error: usize) -> (r: Vec<u8>)
        requires
            return_buffer != 0,
        ensures
            r@ == x64_code(load_library_w as u64, return_buffer as u64, get_last_error as u64),
            r@.len() == 52,
    {
        let mut code = template_x64();
        patch_le(&mut code, 6, 8, load_library_w as u64);
        patch_le(&mut code, 18, 8, return_buffer as u64);
        patch_le(&mut code, 33, 8, get_last_error as u64);
        code
    }
}

/// The stub for a target of the given bitness.
pub open spec fn stub_code(is_x64: bool, load_library_w: usize, return_buffer: usize, get_last_error: usize) -> Seq<u8> {
    if is_x64 {
        x64_code(load_library_w as u64, return_buffer as u64, get_last_error as u64)
    } else {
        x86_code(load_library_w as u64, return_buffer as u64, get_last_error as u64)
    }
}

/// The length of the stub for a target of the given bitness.
pub open spec fn stub_len(is_x64: bool) -> nat {
    if is_x64 {
        52
    } else {
        35
    }
}

/// The width of a pointer of a target of the given bitness.
pub open spec fn pointer_width(is_x64: bool) -> nat {
    if is_x64 {
        8
    } else {
        4
    }
}

/// The addresses the stub would be patched with all fit its operands.
pub open spec fn stub_addresses_fit(is_x64: bool, load_library_w: int, return_buffer: int, get_last_error: int) -> bool {
    is_x64 || (load_library_w <= u32::MAX && return_buffer <= u32::MAX && get_last_error <= u32::MAX)
}

/// The addresses a stub built at the region's cursor would be patched with fit its operands.
pub open spec fn build_fits(inject_data: InjectHelpData, remote: RemoteAllocation) -> bool {
    stub_addresses_fit(
        remote.spec_process().is_x64,
        inject_data.module_base() + inject_data.load_library_offset(),
        (remote.base() + remote.cursor()) as int,
        inject_data.module_base() + inject_data.get_last_error_offset(),
    )
}

/// A result slot and a stub fit in the rest of the region.
pub open spec fn build_room(remote: RemoteAllocation) -> bool {
    remote.cursor() + pointer_width(remote.spec_process().is_x64) + stub_len(
        remote.spec_process().is_x64,
    ) <= remote.size()
}

impl LoadLibraryWStub {
    /// Writes a stub for the region's target into `remote`: first a result slot
    /// of one target pointer at the cursor, then the stub patched with the
    /// addresses of `LoadLibraryW`, of that slot, and of `GetLastError`. Fails,
    /// changing nothing, with `AddressOutOfRange` where an address does not fit a
    /// 32-bit target's operands, and with a remote-allocation error where slot and
    /// stub do not fit in the rest of the region.
    pub fn build(inject_data: &InjectHelpData, remote: &mut RemoteAllocation) -> (r: Result<LoadLibraryWStub, InjectError>)
        requires
            inject_data.wf(),
            old(remote).wf(),
        ensures
            final(remote).wf(),
            final(remote).base() == old(remote).base(),
            final(remote).size() == old(remote).size(),
            final(remote).spec_process() == old(remote).spec_process(),
            ({
                let is_x64 = old(remote).spec_process().is_x64;
                let w = pointer_width(is_x64);
                let slot = old(remote).base() + old(remote).cursor();
                let ll = inject_data.module_base() + inject_data.load_library_offset();
                let gle = inject_data.module_base() + inject_data.get_last_error_offset();
                let fit = build_fits(*inject_data, *old(remote));
                let room = build_room(*old(remote));
                &&& (r is Ok <==> fit && room)
                &&& !fit ==> r == Err::<LoadLibraryWStub, _>(InjectError::AddressOutOfRange)
                &&& (fit && !room) ==> (r matches Err(InjectError::RemoteAllocation(e))
                    && e.os_error.last_os_error == ERROR_PARTIAL_COPY)
                &&& r is Err ==> *final(remote) == *old(remote)
                &&& r matches Ok(s) ==> {
                    &&& s.spec_result() == slot
                    &&& s.spec_result_width() == w
                    &&& s.spec_code() == slot + w
                    &&& final(remote).cursor() == old(remote).cursor() + w + stub_len(is_x64)
                    &&& final(remote).pending().len() == old(remote).pending().len() + 2
                    &&& final(remote).pending().subrange(0, old(remote).pending().len() as int)
                        == old(remote).pending()
                    &&& final(remote).pending()[old(remote).pending().len() as int].address == slot
                    &&& final(remote).pending()[old(remote).pending().len() as int].bytes@
                        == Seq::new(w, |i: int| 0u8)
                    &&& final(remote).pending()[old(remote).pending().len() as int + 1].address == slot + w
                    &&& final(remote).pending()[old(remote).pending().len() as int + 1].bytes@
                        == stub_code(is_x64, ll as usize, slot as usize, gle as usize)
                }
            }),
    {
        let is_x64 = remote.process().is_x64;
        let w: usize = if is_x64 { 8 } else { 4 };
        let len: usize = if is_x64 { 52 } else { 35 };
        let slot = remote.cursor_address();
        let ll = inject_data.get_load_library_fn_ptr();
        let gle = inject_data.get_get_last_error();
        if !is_x64 && (ll > u32::MAX as usize || slot > u32::MAX as usize || gle > u32::MAX as usize) {
            return Err(InjectError::AddressOutOfRange);
        }
        if remote.remaining() < w + len {
            return Err(InjectError::RemoteAllocation(RemoteAllocationError::out_of_space()));
        }
        let code = if is_x64 {
            LoadLibraryWStub::build_code_x64(ll, slot, gle)
        } else {
            LoadLibraryWStub::build_code_x86(ll, slot, gle)
        };
        let zeros: Vec<u8> = vec![0u8; w];
        assert(zeros@ =~= Seq::new(w as nat, |i: int| 0u8));
        let ghost before = remote.pending();
        let slot_written = remote.append(zeros.as_slice());
        let code_written = remote.append(code.as_slice());
        match (slot_written, code_written) {
            (Ok(result), Ok(code_address)) => {
                assert(remote.pending().subrange(0, before.len() as int) =~= before);
                Ok(LoadLibraryWStub { code: code_address, result, result_width: w })
            },
            _ => {
                assert(false);
                Err(InjectError::AddressOutOfRange)
            },
        }
    }

    /// The thread call that runs the stub on the path at `remote_wide_module_path`,
    /// after the region's queued writes and an instruction-cache flush of the region.
    pub fn call(&self, remote: &mut RemoteAllocation, remote_wide_module_path: usize) -> (r: RemoteThreadCall)
        requires
            old(remote).wf(),
        ensures
            final(remote).wf(),
            final(remote).base() == old(remote).base(),
            final(remote).size() == old(remote).size(),
            final(remote).cursor() == old(remote).cursor(),
            final(remote).spec_process() == old(remote).spec_process(),
            final(remote).pending().len() == 0,
            r.writes@ == old(remote).pending(),
            r.flush_address == old(remote).base(),
            r.flush_size == old(remote).size(),
            r.entry == self.spec_code(),
            r.argument == remote_wide_module_path,
    {
        let (flush_address, flush_size) = remote.flush_instruction_cache();
        let writes = remote.take_writes();
        RemoteThreadCall { writes, flush_address, flush_size, entry: self.code, argument: remote_wide_module_path }
    }
}

} // verus!
