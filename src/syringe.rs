//! The injector: per target process, one scratch region, the help data and
//! the stub, both resolved once on success and kept.
//!
//! Each operation is a step: it decides what to do from the injector's state
//! and the facts its caller reports, and hands back the remote action to
//! perform. The caller performs it (cross-process writes, an instruction-cache
//! flush, a remote thread) and reports the thread's exit code, which the
//! injector decodes.
use vstd::prelude::*;
use crate::errors::CreateSyringeError;
use crate::errors::EjectError;
use crate::errors::ExceptionOrIoError;
use crate::errors::InjectError;
use crate::errors::LoadInjectHelpDataError;
use crate::errors::RemoteAllocationError;
use crate::errors::ERROR_BAD_EXE_FORMAT;
use crate::errors::ERROR_PARTIAL_COPY;
use crate::exception::exception_of;
use crate::exception::ExceptionCode;
use crate::help_data::InjectHelpData;
use crate::os_error::OsError;
use crate::process::ProcessModule;
use crate::process::ProcessRef;
use crate::process::RemoteThreadCall;
use crate::remote_allocation::RemoteAllocation;
use crate::stub::build_fits;
use crate::stub::build_room;
use crate::stub::pointer_width;
use crate::stub::stub_code;
use crate::stub::stub_len;
use crate::stub::LoadLibraryWStub;
use crate::wide::path_to_wide_bytes;
use crate::wide::u16s_le_bytes;
use crate::wide::utf16_of;
use crate::wide::wide_path_ok;
use crate::wide::with_nul;

verus! {

/// The capacity of each injector's scratch region, shared by the stub, its
/// result slot and every path written over the injector's life.
pub const SCRATCH_SIZE: usize = 4096;

/// What to ask the allocator for when creating an injector.
#[derive(Clone, Copy, Debug, PartialEq, Eq)]
pub struct AllocationRequest {
    pub min_address: usize,
    pub max_address: usize,
    pub size: u32,
    pub target_process_id: u32,
}

/// Where the help data comes from.
#[derive(Clone, Copy, Debug, PartialEq, Eq)]
pub enum HelpDataSource {
    /// From the controller's own system module: controller and target share a bitness.
    LocalModule,
    /// From the export directory of the target's 32-bit system module image, loaded
    /// at its base in the target: a 64-bit controller with a 32-bit target.
    TargetModuleImage,
}

/// The next step of an injection.
#[derive(Debug)]
pub enum InjectStep {
    /// Resolve the help data from this source, hand it over, and inject again.
    ResolveHelpData(HelpDataSource),
    /// Perform this call; its exit code decides the outcome.
    Run(RemoteThreadCall),
}

/// The next step of a find-or-inject.
#[derive(Debug)]
pub enum FindOrInjectStep {
    /// The module is already loaded: nothing is injected.
    Found(ProcessModule),
    /// The module is not loaded: the injection's step.
    Inject(InjectStep),
}

/// The next step of an ejection.
#[derive(Debug)]
pub enum EjectStep {
    /// Resolve the help data from this source, hand it over, and eject again.
    ResolveHelpData(HelpDataSource),
    /// Perform this call of the system unload function; its exit code decides the outcome.
    Run(RemoteThreadCall),
}

/// Where the help data comes from, for a target and a controller of the given bitness.
pub open spec fn help_data_source(target_is_x64: bool, controller_is_x64: bool) -> Result<
    HelpDataSource,
    LoadInjectHelpDataError,
> {
    if target_is_x64 == controller_is_x64 {
        Ok(HelpDataSource::LocalModule)
    } else if controller_is_x64 {
        Ok(HelpDataSource::TargetModuleImage)
    } else {
        Err(LoadInjectHelpDataError::UnsupportedTarget)
    }
}

/// An exit code read as an exception where it is one, and kept as a code otherwise.
pub open spec fn exit_code_exception(code: u32) -> Result<u32, ExceptionCode> {
    if code == 0 {
        Ok(code)
    } else {
        match exception_of(code) {
            Some(e) => Err(e),
            None => Ok(code),
        }
    }
}

/// An exit code read as success, exception or OS error.
pub open spec fn error_or_exception(code: u32) -> Result<(), ExceptionOrIoError> {
    if code == 0 {
        Ok(())
    } else {
        match exception_of(code) {
            Some(e) => Err(ExceptionOrIoError::Exception(e)),
            None => Err(ExceptionOrIoError::Io(OsError { last_os_error: code })),
        }
    }
}

/// The outcome of an injection whose stub exited with `code`.
pub open spec fn inject_outcome(code: u32) -> Result<(), InjectError> {
    match error_or_exception(code) {
        Ok(()) => Ok(()),
        Err(ExceptionOrIoError::Exception(e)) => Err(InjectError::RemoteException(e)),
        Err(ExceptionOrIoError::Io(os)) => if os.last_os_error == ERROR_BAD_EXE_FORMAT {
            Err(InjectError::ArchitectureMismatch)
        } else {
            Err(InjectError::RemoteIo(os))
        },
    }
}

/// The outcome of an ejection whose unload call exited with `code`: the unload
/// function returns zero on failure, which is a remote I/O error with no code.
pub open spec fn eject_outcome(code: u32) -> Result<(), EjectError> {
    if code == 0 {
        Err(EjectError::RemoteIo(OsError { last_os_error: 0 }))
    } else {
        match exception_of(code) {
            Some(e) => Err(EjectError::RemoteException(e)),
            None => Ok(()),
        }
    }
}

/// How an injection's exit code decides its outcome: zero is success, a recognized
/// exception value is that exception, the bad-executable-format code is an
/// architecture mismatch, and any other value is an OS error carrying it.
pub proof fn lemma_inject_exit_code_cases(code: u32)
    ensures
        code == 0 ==> inject_outcome(code) == Ok::<(), InjectError>(()),
        exception_of(code) matches Some(e) ==> inject_outcome(code) == Err::<(), InjectError>(
            InjectError::RemoteException(e),
        ),
        code == ERROR_BAD_EXE_FORMAT ==> inject_outcome(code) == Err::<(), InjectError>(
            InjectError::ArchitectureMismatch,
        ),
        code != 0 && exception_of(code) is None && code != ERROR_BAD_EXE_FORMAT ==> inject_outcome(
            code,
        ) == Err::<(), InjectError>(InjectError::RemoteIo(OsError { last_os_error: code })),
{
    if code == ERROR_BAD_EXE_FORMAT {
        if exception_of(code) is Some {
            let e = choose|e: ExceptionCode| crate::exception::exception_code_value(e) == code;
            crate::exception::lemma_exception_code_injective(e, e);
            match e {
                _ => {},
            }
        }
    }
    if code == 0 {
        if exception_of(code) is Some {
            let e = choose|e: ExceptionCode| crate::exception::exception_code_value(e) == code;
            crate::exception::lemma_exception_code_injective(e, e);
        }
    }
}

/// What an injection step does: from the injector `pre`, for a controller of
/// the given bitness and the module path `path`, it gives `r` and leaves `post`.
///
/// Without help data, the step is to resolve it (or the pairing of bitness is
/// unsupported), and nothing changes. With it, the stub is built where it is not
/// yet (a zeroed result slot, then the patched stub), the path is appended as a
/// nul-terminated wide string, and the step is the call of the stub on it, after
/// every write still queued.
pub open spec fn inject_effect(
    pre: Syringe,
    post: Syringe,
    controller_is_x64: bool,
    path: Seq<char>,
    r: Result<InjectStep, InjectError>,
) -> bool {
    &&& post.wf()
    &&& post.spec_process() == pre.spec_process()
    &&& post.help_data() == pre.help_data()
    &&& post.region().base() == pre.region().base()
    &&& post.region().size() == pre.region().size()
    &&& pre.help_data() is None ==> {
        &&& post == pre
        &&& match help_data_source(pre.spec_process().is_x64, controller_is_x64) {
            Ok(src) => r matches Ok(InjectStep::ResolveHelpData(s)) && s == src,
            Err(e) => r == Err::<InjectStep, _>(InjectError::LoadInjectHelpData(e)),
        }
    }
    &&& pre.help_data() matches Some(d) ==> {
        let x64 = pre.spec_process().is_x64;
        let built = pre.stub() is Some;
        let path_at = if built {
            pre.region().cursor()
        } else {
            pre.region().cursor() + pointer_width(x64) + stub_len(x64)
        };
        let path_bytes = u16s_le_bytes(with_nul(utf16_of(path)));
        &&& !built && !build_fits(d, pre.region()) ==> r == Err::<InjectStep, _>(
            InjectError::AddressOutOfRange,
        )
        &&& !built && build_fits(d, pre.region()) && !build_room(pre.region())
            ==> (r matches Err(InjectError::RemoteAllocation(e))
            && e.os_error.last_os_error == ERROR_PARTIAL_COPY)
        &&& !built && !(build_fits(d, pre.region()) && build_room(pre.region()))
            ==> post == pre
        &&& (built || (build_fits(d, pre.region()) && build_room(pre.region())))
            ==> {
            &&& post.stub() is Some
            &&& built ==> post.stub() == pre.stub()
            &&& !wide_path_ok(path) ==> r == Err::<InjectStep, _>(
                InjectError::PathConversion,
            )
            &&& wide_path_ok(path) && path_at + path_bytes.len()
                > pre.region().size() ==> (r matches Err(
                InjectError::RemoteAllocation(e),
            ) && e.os_error.last_os_error == ERROR_PARTIAL_COPY)
            &&& r is Err ==> post.region().cursor() == path_at
            &&& (r is Ok <==> wide_path_ok(path) && path_at + path_bytes.len()
                <= pre.region().size())
            &&& r matches Ok(step) ==> (step matches InjectStep::Run(call) && {
                &&& call.entry == post.stub()->0.spec_code()
                &&& call.argument == pre.region().base() + path_at
                &&& call.writes@.len() > 0
                &&& call.writes@.last().address == call.argument
                &&& call.writes@.last().bytes@ == path_bytes
                &&& call.flush_address == pre.region().base()
                &&& call.flush_size == pre.region().size()
                &&& built ==> call.writes@.drop_last() == pre.region().pending()
                &&& !built ==> {
                    let slot = pre.region().base() + pre.region().cursor();
                    let w = pointer_width(x64);
                    let n = pre.region().pending().len() as int;
                    let ll = d.module_base() + d.load_library_offset();
                    let gle = d.module_base() + d.get_last_error_offset();
                    &&& call.writes@.len() == n + 3
                    &&& call.writes@.subrange(0, n) == pre.region().pending()
                    &&& call.writes@[n].address == slot
                    &&& call.writes@[n].bytes@ == Seq::new(w, |i: int| 0u8)
                    &&& call.writes@[n + 1].address == slot + w
                    &&& call.writes@[n + 1].bytes@ == stub_code(x64, ll as usize, slot as usize, gle as usize)
                    &&& post.stub()->0.spec_result() == slot
                    &&& post.stub()->0.spec_result_width() == w
                }
                &&& post.region().cursor() == path_at + path_bytes.len()
                &&& post.region().pending().len() == 0
            })
        }
    }
}

/// An injector bound to one target process.
pub struct Syringe {
    inject_help_data: Option<InjectHelpData>,
    remote_allocation: RemoteAllocation,
    load_library_w_stub: Option<LoadLibraryWStub>,
}

impl Syringe {
    pub closed spec fn help_data(&self) -> Option<InjectHelpData> {
        self.inject_help_data
    }

    pub closed spec fn region(&self) -> RemoteAllocation {
        self.remote_allocation
    }

    pub closed spec fn stub(&self) -> Option<LoadLibraryWStub> {
        self.load_library_w_stub
    }

    /// The target process.
    pub open spec fn spec_process(&self) -> ProcessRef {
        self.region().spec_process()
    }

    /// The scratch region is well formed and within its capacity, cached help
    /// data is well formed, and a stub is only built once help data is there.
    pub open spec fn wf(&self) -> bool {
        &&& self.region().wf()
        &&& self.region().size() <= SCRATCH_SIZE
        &&& self.help_data() matches Some(d) ==> d.wf()
        &&& self.stub() is Some ==> self.help_data() is Some
    }

    /// The allocation to make for an injector of `process`: a private region of
    /// the scratch capacity, anywhere in the address space.
    pub fn allocation_request(process: ProcessRef) -> (r: AllocationRequest)
        ensures
            r.min_address == 0,
            r.max_address == usize::MAX,
            r.size == SCRATCH_SIZE,
            r.target_process_id == process.pid,
    {
        AllocationRequest {
            min_address: 0,
            max_address: usize::MAX,
            size: SCRATCH_SIZE as u32,
            target_process_id: process.pid,
        }
    }

    /// An injector for `process` over the region of `size` bytes allocated at
    /// `base` in it, of which at most the scratch capacity is used.
    pub fn for_process(process: ProcessRef, base: usize, size: usize) -> (r: Syringe)
        requires
            base != 0,
            base as int + size as int <= usize::MAX,
        ensures
            r.wf(),
            r.spec_process() == process,
            r.help_data() is None,
            r.stub() is None,
            r.region().base() == base,
            r.region().size() == if size < SCRATCH_SIZE { size as nat } else { SCRATCH_SIZE as nat },
            r.region().cursor() == 0,
            r.region().pending().len() == 0,
    {
        let capacity = if size < SCRATCH_SIZE { size } else { SCRATCH_SIZE };
        Syringe {
            inject_help_data: None,
            remote_allocation: RemoteAllocation::new(base, capacity, process),
            load_library_w_stub: None,
        }
    }

    /// An injector for a process that was started suspended, with the call that
    /// lets the OS finish the process's initialization: a thread that runs a
    /// single `ret` written at the start of the region. The byte is written in
    /// place, so the region stays empty. Fails where the region has no room.
    pub fn for_suspended_process(process: ProcessRef, base: usize, size: usize) -> (r: Result<
        (Syringe, RemoteThreadCall),
        CreateSyringeError,
    >)
        requires
            base != 0,
            base as int + size as int <= usize::MAX,
        ensures
            size == 0 <==> r is Err,
            r matches Err(e) ==> (e matches CreateSyringeError::RemoteAllocationError(a)
                && a.os_error.last_os_error == ERROR_PARTIAL_COPY),
            r matches Ok((s, call)) ==> {
                &&& s.wf()
                &&& s.spec_process() == process
                &&& s.help_data() is None
                &&& s.stub() is None
                &&& s.region().base() == base
                &&& s.region().cursor() == 0
                &&& s.region().pending().len() == 0
                &&& call.writes@.len() == 1
                &&& call.writes@[0].address == base
                &&& call.writes@[0].bytes@ == seq![0xC3u8]
                &&& call.entry == base
                &&& call.argument == 0
                &&& call.flush_address == base
                &&& call.flush_size == s.region().size()
            },
    {
        let mut syringe = Syringe::for_process(process, base, size);
        let ret: [u8; 1] = [0xC3];
        let entry = match syringe.remote_allocation.write_in_place(ret.as_slice()) {
            Ok(a) => a,
            Err(e) => {
                return Err(CreateSyringeError::RemoteAllocationError(e));
            },
        };
        assert(ret@ =~= seq![0xC3u8]);
        let (flush_address, flush_size) = syringe.remote_allocation.flush_instruction_cache();
        let writes = syringe.remote_allocation.take_writes();
        Ok((syringe, RemoteThreadCall { writes, flush_address, flush_size, entry, argument: 0 }))
    }

    /// The target process.
    pub fn process(&self) -> (r: ProcessRef)
        ensures
            r == self.spec_process(),
    {
        self.remote_allocation.process()
    }

    /// Where the help data for `process` comes from, for a controller of the given
    /// bitness. A 32-bit controller cannot serve a 64-bit target.
    pub fn load_inject_help_data_for_process(process: ProcessRef, controller_is_x64: bool) -> (r: Result<
        HelpDataSource,
        LoadInjectHelpDataError,
    >)
        ensures
            r == help_data_source(process.is_x64, controller_is_x64),
    {
        if process.is_x64 == controller_is_x64 {
            Ok(HelpDataSource::LocalModule)
        } else if controller_is_x64 {
            Ok(HelpDataSource::TargetModuleImage)
        } else {
            Err(LoadInjectHelpDataError::UnsupportedTarget)
        }
    }

    /// Hands over resolved help data. It is kept only where none was kept before:
    /// once resolved, help data is never replaced.
    pub fn set_inject_help_data(&mut self, data: InjectHelpData)
        requires
            old(self).wf(),
            data.wf(),
        ensures
            final(self).wf(),
            final(self).help_data() == if old(self).help_data() is Some {
                old(self).help_data()
            } else {
                Some(data)
            },
            final(self).region() == old(self).region(),
            final(self).stub() == old(self).stub(),
    {
        if self.inject_help_data.is_none() {
            self.inject_help_data = Some(data);
        }
    }

    /// The cached help data, if resolved.
    pub fn inject_help_data(&self) -> (r: Option<InjectHelpData>)
        ensures
            r == self.help_data(),
    {
        self.inject_help_data
    }

    /// The address and width of the stub's result slot, once the stub is built.
    pub fn result_slot(&self) -> (r: Option<(usize, usize)>)
        ensures
            self.stub() matches Some(s) ==> r == Some((s.spec_result(), s.spec_result_width())),
            self.stub() is None ==> r is None,
    {
        match &self.load_library_w_stub {
            Some(s) => Some((s.result_address(), s.result_width())),
            None => None,
        }
    }

    /// The next step of injecting the module at `payload_path`, an absolute path.
    ///
    /// Without help data, the step is to resolve it (or the pairing of bitness is
    /// unsupported). With it, the stub is built where it is not yet, the path is
    /// appended to the region as a nul-terminated wide string, and the step is the
    /// call of the stub on it, after every write still queued. A failure changes
    /// nothing but what a completed stub build leaves: the stub and its queued writes.
    pub fn inject(&mut self, controller_is_x64: bool, payload_path: &str) -> (r: Result<
        InjectStep,
        InjectError,
    >)
        requires
            old(self).wf(),
        ensures
            inject_effect(*old(self), *final(self), controller_is_x64, payload_path@, r),
    {
        let data = match self.inject_help_data {
            Some(d) => d,
            None => {
                return match Syringe::load_inject_help_data_for_process(self.process(), controller_is_x64) {
                    Ok(src) => Ok(InjectStep::ResolveHelpData(src)),
                    Err(e) => Err(InjectError::LoadInjectHelpData(e)),
                };
            },
        };
        if self.load_library_w_stub.is_none() {
            match LoadLibraryWStub::build(&data, &mut self.remote_allocation) {
                Ok(s) => {
                    self.load_library_w_stub = Some(s);
                },
                Err(e) => {
                    return Err(e);
                },
            }
        }
        let wide = match path_to_wide_bytes(payload_path) {
            Some(b) => b,
            None => {
                return Err(InjectError::PathConversion);
            },
        };
        let ghost pending_before = self.remote_allocation.pending();
        let remote_path = match self.remote_allocation.append(wide.as_slice()) {
            Ok(a) => a,
            Err(e) => {
                return Err(InjectError::RemoteAllocation(e));
            },
        };
        let call = match &self.load_library_w_stub {
            Some(s) => s.call(&mut self.remote_allocation, remote_path),
            None => {
                assert(false);
                return Err(InjectError::PathConversion);
            },
        };
        assert(call.writes@.drop_last() =~= pending_before);
        proof {
            let n = old(self).region().pending().len() as int;
            if old(self).stub() is None {
                assert(pending_before.subrange(0, n) =~= old(self).region().pending());
                assert(call.writes@.subrange(0, n) =~= pending_before.subrange(0, n));
                assert(call.writes@[n] == pending_before[n]);
                assert(call.writes@[n + 1] == pending_before[n + 1]);
            }
        }
        Ok(InjectStep::Run(call))
    }

    /// Reports that a call handed out could not be carried out (a write, the flush
    /// or the thread failed). The stub, whose code may not have reached the
    /// target, is no longer counted as built: the next injection builds it anew.
    pub fn writes_failed(&mut self)
        requires
            old(self).wf(),
        ensures
            final(self).wf(),
            final(self).stub() is None,
            final(self).help_data() == old(self).help_data(),
            final(self).region() == old(self).region(),
    {
        self.load_library_w_stub = None;
    }

    /// The outcome of an injection whose stub's thread exited with `exit_code`,
    /// with `slot_value` read from the result slot after a zero exit code. The stub
    /// stores a non-null handle whenever it exits with zero.
    pub fn finish_inject(&self, exit_code: u32, slot_value: usize) -> (r: Result<ProcessModule, InjectError>)
        requires
            exit_code == 0 ==> slot_value != 0,
        ensures
            exit_code == 0 ==> r == Ok::<ProcessModule, InjectError>(
                ProcessModule { handle: slot_value, process: self.spec_process() },
            ),
            exit_code != 0 ==> (inject_outcome(exit_code) matches Err(e) && r == Err::<
                ProcessModule,
                InjectError,
            >(e)),
    {
        match Syringe::inject_exit_code(exit_code) {
            Ok(()) => Ok(self.injected_module(slot_value)),
            Err(e) => Err(e),
        }
    }

    /// Decodes the exit code of the stub's thread: 0 is success, an exception
    /// code is that exception, the OS's bad-executable-format code is an
    /// architecture mismatch between module and target, and any other code is
    /// that OS error.
    pub fn inject_exit_code(exit_code: u32) -> (r: Result<(), InjectError>)
        ensures
            r == inject_outcome(exit_code),
    {
        match Syringe::remote_exit_code_to_error_or_exception(exit_code) {
            Ok(()) => Ok(()),
            Err(ExceptionOrIoError::Exception(e)) => Err(InjectError::RemoteException(e)),
            Err(ExceptionOrIoError::Io(os)) => if os.last_os_error == ERROR_BAD_EXE_FORMAT {
                Err(InjectError::ArchitectureMismatch)
            } else {
                Err(InjectError::RemoteIo(os))
            },
        }
    }

    /// The module loaded under the handle the stub stored; the handle is not null.
    pub fn injected_module(&self, handle: usize) -> (r: ProcessModule)
        requires
            handle != 0,
        ensures
            r.handle == handle,
            r.process == self.spec_process(),
    {
        ProcessModule { handle, process: self.process() }
    }

    /// The next step of loading the module at `payload_path`, unless it is loaded:
    /// `loaded` is the handle under which the target has it, as a lookup by path
    /// found it. A loaded module is returned as it is, and nothing changes.
    pub fn find_or_inject(&mut self, controller_is_x64: bool, payload_path: &str, loaded: Option<usize>) -> (r: Result<
        FindOrInjectStep,
        InjectError,
    >)
        requires
            old(self).wf(),
            loaded matches Some(h) ==> h != 0,
        ensures
            final(self).wf(),
            final(self).spec_process() == old(self).spec_process(),
            loaded matches Some(h) ==> {
                &&& r matches Ok(FindOrInjectStep::Found(m))
                &&& m.handle == h
                &&& m.process == old(self).spec_process()
                &&& *final(self) == *old(self)
            },
            loaded is None ==> match r {
                Ok(FindOrInjectStep::Inject(step)) => inject_effect(
                    *old(self),
                    *final(self),
                    controller_is_x64,
                    payload_path@,
                    Ok(step),
                ),
                Ok(FindOrInjectStep::Found(_)) => false,
                Err(e) => inject_effect(*old(self), *final(self), controller_is_x64, payload_path@, Err(e)),
            },
    {
        match loaded {
            Some(h) => Ok(FindOrInjectStep::Found(self.injected_module(h))),
            None => match self.inject(controller_is_x64, payload_path) {
                Ok(step) => Ok(FindOrInjectStep::Inject(step)),
                Err(e) => Err(e),
            },
        }
    }

    /// The next step of ejecting `module`, which must belong to this injector's
    /// target. `is_loaded` and `is_alive` report whether the target still has the
    /// module and whether it still runs.
    ///
    /// Without help data, the step is to resolve it. With it, a module that is not
    /// loaded fails as inaccessible (the module where the process is alive, the
    /// process where it has exited); otherwise the step is the call of the system
    /// unload function on the module's handle.
    pub fn eject(
        &mut self,
        controller_is_x64: bool,
        module: ProcessModule,
        is_loaded: bool,
        is_alive: bool,
    ) -> (r: Result<EjectStep, EjectError>)
        requires
            old(self).wf(),
            module.process == old(self).spec_process(),
        ensures
            final(self).wf(),
            final(self).spec_process() == old(self).spec_process(),
            final(self).help_data() == old(self).help_data(),
            final(self).stub() == old(self).stub(),
            final(self).region().base() == old(self).region().base(),
            final(self).region().size() == old(self).region().size(),
            final(self).region().cursor() == old(self).region().cursor(),
            old(self).help_data() is None ==> {
                &&& *final(self) == *old(self)
                &&& match help_data_source(old(self).spec_process().is_x64, controller_is_x64) {
                    Ok(src) => r matches Ok(EjectStep::ResolveHelpData(s)) && s == src,
                    Err(e) => r == Err::<EjectStep, _>(EjectError::LoadInjectHelpData(e)),
                }
            },
            old(self).help_data() matches Some(d) ==> {
                &&& !is_loaded && is_alive ==> r == Err::<EjectStep, _>(EjectError::ModuleInaccessible)
                &&& !is_loaded && !is_alive ==> r == Err::<EjectStep, _>(
                    EjectError::ProcessInaccessible,
                )
                &&& !is_loaded ==> *final(self) == *old(self)
                &&& is_loaded ==> (r matches Ok(EjectStep::Run(call)) && {
                    &&& call.entry == d.module_base() + d.free_library_offset()
                    &&& call.argument == module.handle
                    &&& call.writes@ == old(self).region().pending()
                    &&& call.flush_address == old(self).region().base()
                    &&& call.flush_size == old(self).region().size()
                    &&& final(self).region().pending().len() == 0
                })
            },
    {
        let data = match self.inject_help_data {
            Some(d) => d,
            None => {
                return match Syringe::load_inject_help_data_for_process(self.process(), controller_is_x64) {
                    Ok(src) => Ok(EjectStep::ResolveHelpData(src)),
                    Err(e) => Err(EjectError::LoadInjectHelpData(e)),
                };
            },
        };
        if !is_loaded {
            if is_alive {
                return Err(EjectError::ModuleInaccessible);
            } else {
                return Err(EjectError::ProcessInaccessible);
            }
        }
        let (flush_address, flush_size) = self.remote_allocation.flush_instruction_cache();
        let writes = self.remote_allocation.take_writes();
        Ok(
            EjectStep::Run(
                RemoteThreadCall {
                    writes,
                    flush_address,
                    flush_size,
                    entry: data.get_free_library_fn_ptr(),
                    argument: module.handle,
                },
            ),
        )
    }

    /// Decodes the exit code of the unload call: the unload function's zero is a
    /// failure, an exception code is that exception, and any other value is success.
    pub fn eject_exit_code(exit_code: u32) -> (r: Result<(), EjectError>)
        ensures
            r == eject_outcome(exit_code),
    {
        if exit_code == 0 {
            return Err(EjectError::RemoteIo(OsError::from_code(0)));
        }
        match ExceptionCode::try_from_code(exit_code) {
            Some(e) => Err(EjectError::RemoteException(e)),
            None => Ok(()),
        }
    }

    /// An exit code read as an exception where it is one, and kept as a code otherwise.
    pub fn remote_exit_code_to_exception(exit_code: u32) -> (r: Result<u32, ExceptionCode>)
        ensures
            r == exit_code_exception(exit_code),
    {
        if exit_code == 0 {
            return Ok(exit_code);
        }
        match ExceptionCode::try_from_code(exit_code) {
            Some(e) => Err(e),
            None => Ok(exit_code),
        }
    }

    /// An exit code read as success (0), an exception, or an OS error carrying it.
    pub fn remote_exit_code_to_error_or_exception(exit_code: u32) -> (r: Result<(), ExceptionOrIoError>)
        ensures
            r == error_or_exception(exit_code),
    {
        if exit_code == 0 {
            return Ok(());
        }
        match ExceptionCode::try_from_code(exit_code) {
            Some(e) => Err(ExceptionOrIoError::Exception(e)),
            None => Err(ExceptionOrIoError::Io(OsError::from_code(exit_code))),
        }
    }
}

} // verus!
