use mini_syringe::errors::{
    EjectError, ExceptionOrIoError, InjectError, LoadInjectHelpDataError, RemoteAllocationError,
};
use mini_syringe::exception::ExceptionCode;
use mini_syringe::help_data::InjectHelpData;
use mini_syringe::os_error::OsError;
use mini_syringe::process::{ProcessModule, ProcessRef};
use mini_syringe::remote_allocation::RemoteAllocation;
use mini_syringe::stub::LoadLibraryWStub;
use mini_syringe::syringe::{
    EjectStep, FindOrInjectStep, HelpDataSource, InjectStep, Syringe, SCRATCH_SIZE,
};
use mini_syringe::wide::path_to_wide_bytes;

const X64: ProcessRef = ProcessRef { pid: 42, is_x64: true };
const X86: ProcessRef = ProcessRef { pid: 43, is_x64: false };

fn wide(s: &str) -> Vec<u8> {
    let mut v = Vec::new();
    for u in s.encode_utf16() {
        v.push((u & 0xff) as u8);
        v.push((u >> 8) as u8);
    }
    v.push(0);
    v.push(0);
    v
}

#[test]
fn exception_codes_round_trip() {
    assert_eq!(ExceptionCode::try_from_code(0xC000_0005), Some(ExceptionCode::AccessViolation));
    assert_eq!(ExceptionCode::try_from_code(0xC000_00FD), Some(ExceptionCode::StackOverflow));
    assert_eq!(ExceptionCode::try_from_code(0x8000_0003), Some(ExceptionCode::Breakpoint));
    assert_eq!(ExceptionCode::AccessViolation.code(), 0xC000_0005);
    assert_eq!(ExceptionCode::try_from_code(0), None);
    assert_eq!(ExceptionCode::try_from_code(5), None);
    assert_eq!(ExceptionCode::try_from_code(193), None);
}

#[test]
fn exit_code_zero_is_success() {
    assert_eq!(Syringe::remote_exit_code_to_error_or_exception(0), Ok(()));
    assert_eq!(Syringe::inject_exit_code(0), Ok(()));
    assert_eq!(Syringe::remote_exit_code_to_exception(0), Ok(0));
}

#[test]
fn exit_code_exception_is_exception() {
    assert_eq!(
        Syringe::remote_exit_code_to_error_or_exception(0xC000_0005),
        Err(ExceptionOrIoError::Exception(ExceptionCode::AccessViolation))
    );
    assert_eq!(
        Syringe::inject_exit_code(0xC000_0005),
        Err(InjectError::RemoteException(ExceptionCode::AccessViolation))
    );
    assert_eq!(
        Syringe::remote_exit_code_to_exception(0xC000_0094),
        Err(ExceptionCode::IntDivideByZero)
    );
}

#[test]
fn exit_code_other_is_os_error() {
    assert_eq!(
        Syringe::remote_exit_code_to_error_or_exception(2),
        Err(ExceptionOrIoError::Io(OsError { last_os_error: 2 }))
    );
    assert_eq!(
        Syringe::inject_exit_code(126),
        Err(InjectError::RemoteIo(OsError { last_os_error: 126 }))
    );
    assert_eq!(Syringe::remote_exit_code_to_exception(126), Ok(126));
}

#[test]
fn exit_code_bad_format_is_architecture_mismatch() {
    assert_eq!(Syringe::inject_exit_code(193), Err(InjectError::ArchitectureMismatch));
    assert_eq!(
        Syringe::remote_exit_code_to_error_or_exception(193),
        Err(ExceptionOrIoError::Io(OsError { last_os_error: 193 }))
    );
}

#[test]
fn eject_exit_codes() {
    assert_eq!(
        Syringe::eject_exit_code(0),
        Err(EjectError::RemoteIo(OsError { last_os_error: 0 }))
    );
    assert_eq!(Syringe::eject_exit_code(1), Ok(()));
    assert_eq!(
        Syringe::eject_exit_code(0xC000_00FD),
        Err(EjectError::RemoteException(ExceptionCode::StackOverflow))
    );
}

#[test]
fn append_advances_cursor_and_returns_base_plus_cursor() {
    let mut r = RemoteAllocation::new(0x1000, 16, X64);
    assert_eq!(r.append(&[1, 2, 3, 4]).ok(), Some(0x1000));
    assert_eq!(r.cursor_address(), 0x1004);
    assert_eq!(r.append(&[5, 6, 7]).ok(), Some(0x1004));
    assert_eq!(r.cursor_address(), 0x1007);
    assert_eq!(r.remaining(), 9);
    let writes = r.take_writes();
    assert_eq!(writes.len(), 2);
    assert_eq!(writes[0].address, 0x1000);
    assert_eq!(writes[0].bytes, vec![1, 2, 3, 4]);
    assert_eq!(writes[1].address, 0x1004);
    assert_eq!(writes[1].bytes, vec![5, 6, 7]);
    assert_eq!(r.take_writes().len(), 0);
}

#[test]
fn append_past_the_end_fails_and_changes_nothing() {
    let mut r = RemoteAllocation::new(0x1000, 8, X64);
    assert!(r.append(&[0; 6]).is_ok());
    let e = r.append(&[0; 3]).err().unwrap();
    assert_eq!(e.os_error.last_os_error, 299);
    assert_eq!(r.cursor_address(), 0x1006);
    assert_eq!(r.append(&[9, 9]).ok(), Some(0x1006));
    assert_eq!(r.remaining(), 0);
    assert!(r.append(&[]).is_ok());
}

#[test]
fn write_in_place_keeps_cursor() {
    let mut r = RemoteAllocation::new(0x2000, 4, X86);
    assert_eq!(r.write_in_place(&[0xC3]).ok(), Some(0x2000));
    assert_eq!(r.write_in_place(&[0x90]).ok(), Some(0x2000));
    assert_eq!(r.cursor_address(), 0x2000);
    assert_eq!(r.process(), X86);
    assert_eq!(r.flush_instruction_cache(), (0x2000, 4));
    assert!(r.write_in_place(&[0; 5]).is_err());
}

#[test]
fn x86_stub_is_patched_little_endian() {
    let code = LoadLibraryWStub::build_code_x86(0x1122_3344, 0x5566_7788, 0x99AA_BBCC);
    let expected: Vec<u8> = vec![
        0x8b, 0x44, 0x24, 0x04, 0x50, 0xb8, 0x44, 0x33, 0x22, 0x11, 0xff, 0xd0, 0xa3, 0x88, 0x77,
        0x66, 0x55, 0x85, 0xc0, 0x75, 0x09, 0xb8, 0xcc, 0xbb, 0xaa, 0x99, 0xff, 0xd0, 0xeb, 0x02,
        0x31, 0xc0, 0xc2, 0x04, 0x00,
    ];
    assert_eq!(code, expected);
}

#[test]
fn x64_stub_is_patched_little_endian() {
    let code = LoadLibraryWStub::build_code_x64(
        0x0102_0304_0506_0708,
        0x1112_1314_1516_1718,
        0x2122_2324_2526_2728,
    );
    let expected: Vec<u8> = vec![
        0x48, 0x83, 0xec, 0x28, 0x48, 0xb8, 0x08, 0x07, 0x06, 0x05, 0x04, 0x03, 0x02, 0x01, 0xff,
        0xd0, 0x48, 0xa3, 0x18, 0x17, 0x16, 0x15, 0x14, 0x13, 0x12, 0x11, 0x48, 0x85, 0xc0, 0x75,
        0x0e, 0x48, 0xb8, 0x28, 0x27, 0x26, 0x25, 0x24, 0x23, 0x22, 0x21, 0xff, 0xd0, 0xeb, 0x02,
        0x31, 0xc0, 0x48, 0x83, 0xc4, 0x28, 0xc3,
    ];
    assert_eq!(code, expected);
}

#[test]
fn help_data_from_local_addresses() {
    let d = InjectHelpData::from_local_addresses(0x7ff0_0000, 0x7ff0_1000, 0x7ff0_2000, 0x7ff0_0010)
        .ok()
        .unwrap();
    assert_eq!(d.get_load_library_fn_ptr(), 0x7ff0_1000);
    assert_eq!(d.get_free_library_fn_ptr(), 0x7ff0_2000);
    assert_eq!(d.get_get_last_error(), 0x7ff0_0010);
    assert_eq!(
        InjectHelpData::from_local_addresses(0x7ff0_0000, 0x7fef_0000, 0x7ff0_2000, 0x7ff0_0010)
            .err(),
        Some(LoadInjectHelpDataError::ExportNotFound)
    );
    assert_eq!(
        InjectHelpData::from_local_addresses(0x1000, 0x1000 + (1usize << 33), 0x1000, 0x1000)
            .err(),
        Some(LoadInjectHelpDataError::ExportNotFound)
    );
}

#[test]
fn help_data_from_unparsable_image() {
    assert_eq!(
        InjectHelpData::from_image(0x7700_0000, &[0x4d, 0x5a, 1, 2, 3]).err(),
        Some(LoadInjectHelpDataError::InvalidImage)
    );
    assert_eq!(
        InjectHelpData::from_image(0x7700_0000, &[]).err(),
        Some(LoadInjectHelpDataError::InvalidImage)
    );
}

#[test]
fn wide_path_bytes() {
    assert_eq!(path_to_wide_bytes("C:\\a.dll"), Some(wide("C:\\a.dll")));
    assert_eq!(path_to_wide_bytes(""), Some(vec![0, 0]));
    assert_eq!(path_to_wide_bytes("\u{e9}"), Some(vec![0xe9, 0, 0, 0]));
    assert_eq!(path_to_wide_bytes("a\0b"), None);
    assert_eq!(path_to_wide_bytes("ab\0"), Some(vec![0x61, 0, 0x62, 0, 0, 0]));
}

#[test]
fn help_data_source_by_bitness() {
    assert_eq!(
        Syringe::load_inject_help_data_for_process(X64, true),
        Ok(HelpDataSource::LocalModule)
    );
    assert_eq!(
        Syringe::load_inject_help_data_for_process(X86, false),
        Ok(HelpDataSource::LocalModule)
    );
    assert_eq!(
        Syringe::load_inject_help_data_for_process(X86, true),
        Ok(HelpDataSource::TargetModuleImage)
    );
    assert_eq!(
        Syringe::load_inject_help_data_for_process(X64, false),
        Err(LoadInjectHelpDataError::UnsupportedTarget)
    );
}

#[test]
fn allocation_request_asks_for_scratch() {
    let r = Syringe::allocation_request(X64);
    assert_eq!(r.min_address, 0);
    assert_eq!(r.max_address, usize::MAX);
    assert_eq!(r.size, 4096);
    assert_eq!(r.target_process_id, 42);
    assert_eq!(SCRATCH_SIZE, 4096);
}

fn help_x64() -> InjectHelpData {
    InjectHelpData::from_local_addresses(0x7ff8_0000_0000, 0x7ff8_0000_1000, 0x7ff8_0000_2000, 0x7ff8_0000_3000)
        .ok()
        .unwrap()
}

#[test]
fn inject_asks_for_help_data_first() {
    let mut s = Syringe::for_process(X64, 0x10000, 0x10000);
    assert!(matches!(
        s.inject(true, "C:\\p.dll"),
        Ok(InjectStep::ResolveHelpData(HelpDataSource::LocalModule))
    ));
    assert!(matches!(
        s.inject(false, "C:\\p.dll"),
        Err(InjectError::LoadInjectHelpData(LoadInjectHelpDataError::UnsupportedTarget))
    ));
    assert!(s.inject_help_data().is_none());
    assert!(s.result_slot().is_none());
}

#[test]
fn inject_builds_stub_once_and_writes_path() {
    let mut s = Syringe::for_process(X64, 0x10000, 0x10000);
    s.set_inject_help_data(help_x64());
    let call = match s.inject(true, "C:\\p.dll") {
        Ok(InjectStep::Run(call)) => call,
        _ => panic!("expected a call"),
    };
    assert_eq!(s.result_slot(), Some((0x10000, 8)));
    assert_eq!(call.entry, 0x10008);
    assert_eq!(call.argument, 0x10008 + 52);
    assert_eq!(call.flush_address, 0x10000);
    assert_eq!(call.flush_size, 4096);
    assert_eq!(call.writes.len(), 3);
    assert_eq!(call.writes[0].address, 0x10000);
    assert_eq!(call.writes[0].bytes, vec![0; 8]);
    assert_eq!(call.writes[1].address, 0x10008);
    assert_eq!(
        call.writes[1].bytes,
        LoadLibraryWStub::build_code_x64(0x7ff8_0000_1000, 0x10000, 0x7ff8_0000_3000)
    );
    assert_eq!(call.writes[2].address, call.argument);
    assert_eq!(call.writes[2].bytes, wide("C:\\p.dll"));

    let again = match s.inject(true, "C:\\q.dll") {
        Ok(InjectStep::Run(call)) => call,
        _ => panic!("expected a call"),
    };
    assert_eq!(again.entry, 0x10008);
    assert_eq!(again.writes.len(), 1);
    assert_eq!(again.argument, 0x10008 + 52 + wide("C:\\p.dll").len());
    assert_eq!(again.writes[0].bytes, wide("C:\\q.dll"));
}

#[test]
fn help_data_is_kept_once_resolved() {
    let mut s = Syringe::for_process(X64, 0x10000, 0x10000);
    s.set_inject_help_data(help_x64());
    let other = InjectHelpData::from_local_addresses(0x1000, 0x1001, 0x1002, 0x1003).ok().unwrap();
    s.set_inject_help_data(other);
    assert_eq!(s.inject_help_data().unwrap().get_load_library_fn_ptr(), 0x7ff8_0000_1000);
}

#[test]
fn inject_path_with_nul_fails() {
    let mut s = Syringe::for_process(X64, 0x10000, 0x10000);
    s.set_inject_help_data(help_x64());
    assert!(matches!(s.inject(true, "C:\\a\0b.dll"), Err(InjectError::PathConversion)));
    // The stub stays built; its writes go out with the next call.
    let call = match s.inject(true, "C:\\p.dll") {
        Ok(InjectStep::Run(call)) => call,
        _ => panic!("expected a call"),
    };
    assert_eq!(call.writes.len(), 3);
}

#[test]
fn inject_beyond_scratch_capacity_fails() {
    let mut s = Syringe::for_process(X64, 0x10000, 0x10000);
    s.set_inject_help_data(help_x64());
    let long = "a".repeat(2100);
    match s.inject(true, &long) {
        Err(InjectError::RemoteAllocation(RemoteAllocationError { os_error })) => {
            assert_eq!(os_error.last_os_error, 299)
        }
        _ => panic!("expected a capacity fault"),
    }
    let short = "a".repeat(1500);
    assert!(matches!(s.inject(true, &short), Ok(InjectStep::Run(_))));
    assert!(matches!(s.inject(true, &short), Err(InjectError::RemoteAllocation(_))));
}

#[test]
fn x86_target_needs_32_bit_addresses() {
    let mut s = Syringe::for_process(X86, 0x10000, 0x10000);
    s.set_inject_help_data(help_x64());
    assert!(matches!(s.inject(false, "C:\\p.dll"), Err(InjectError::AddressOutOfRange)));
    let mut t = Syringe::for_process(X86, 0x10000, 0x10000);
    t.set_inject_help_data(
        InjectHelpData::from_local_addresses(0x7700_0000, 0x7700_1000, 0x7700_2000, 0x7700_3000)
            .ok()
            .unwrap(),
    );
    let call = match t.inject(false, "C:\\p.dll") {
        Ok(InjectStep::Run(call)) => call,
        _ => panic!("expected a call"),
    };
    assert_eq!(t.result_slot(), Some((0x10000, 4)));
    assert_eq!(call.entry, 0x10004);
    assert_eq!(call.argument, 0x10004 + 35);
}

#[test]
fn find_or_inject_returns_loaded_module() {
    let mut s = Syringe::for_process(X64, 0x10000, 0x10000);
    s.set_inject_help_data(help_x64());
    assert!(matches!(s.inject(true, "C:\\p.dll"), Ok(InjectStep::Run(_))));
    assert_eq!(Syringe::inject_exit_code(0), Ok(()));
    let injected = s.injected_module(0x1800_0000);
    match s.find_or_inject(true, "C:\\p.dll", Some(injected.handle)) {
        Ok(FindOrInjectStep::Found(m)) => assert_eq!(m, injected),
        _ => panic!("expected the loaded module"),
    }
    // Nothing more was written: the next injection writes only its own path.
    match s.find_or_inject(true, "C:\\q.dll", None) {
        Ok(FindOrInjectStep::Inject(InjectStep::Run(call))) => assert_eq!(call.writes.len(), 1),
        _ => panic!("expected an injection"),
    }
}

#[test]
fn eject_of_module_not_loaded() {
    let mut s = Syringe::for_process(X64, 0x10000, 0x10000);
    let m = ProcessModule { handle: 0x1800_0000, process: X64 };
    assert!(matches!(
        s.eject(true, m, false, true),
        Ok(EjectStep::ResolveHelpData(HelpDataSource::LocalModule))
    ));
    s.set_inject_help_data(help_x64());
    assert!(matches!(s.eject(true, m, false, true), Err(EjectError::ModuleInaccessible)));
    assert!(matches!(s.eject(true, m, false, false), Err(EjectError::ProcessInaccessible)));
}

#[test]
fn eject_calls_free_library_on_handle() {
    let mut s = Syringe::for_process(X64, 0x10000, 0x10000);
    s.set_inject_help_data(help_x64());
    let m = ProcessModule { handle: 0x1800_0000, process: X64 };
    match s.eject(true, m, true, true) {
        Ok(EjectStep::Run(call)) => {
            assert_eq!(call.entry, 0x7ff8_0000_2000);
            assert_eq!(call.argument, 0x1800_0000);
            assert!(call.writes.is_empty());
        }
        _ => panic!("expected a call"),
    }
}

#[test]
fn suspended_process_runs_a_ret() {
    let (s, call) = Syringe::for_suspended_process(X86, 0x30000, 0x10000).ok().unwrap();
    assert_eq!(call.entry, 0x30000);
    assert_eq!(call.argument, 0);
    assert_eq!(call.writes.len(), 1);
    assert_eq!(call.writes[0].address, 0x30000);
    assert_eq!(call.writes[0].bytes, vec![0xC3]);
    assert_eq!(s.process(), X86);
    assert!(Syringe::for_suspended_process(X86, 0x30000, 0).is_err());
}

#[test]
fn os_error_capture() {
    let e = OsError::new();
    let _ = e.last_os_error;
    let r = RemoteAllocationError::new();
    let _ = r.os_error;
    assert_eq!(OsError::from_code(5).last_os_error, 5);
}

#[test]
fn failed_call_drops_the_stub() {
    let mut s = Syringe::for_process(X64, 0x10000, 0x10000);
    s.set_inject_help_data(help_x64());
    assert!(matches!(s.inject(true, "C:\\p.dll"), Ok(InjectStep::Run(_))));
    assert_eq!(s.result_slot(), Some((0x10000, 8)));
    s.writes_failed();
    assert!(s.result_slot().is_none());
    let call = match s.inject(true, "C:\\p.dll") {
        Ok(InjectStep::Run(call)) => call,
        _ => panic!("expected a call"),
    };
    // The stub is written anew after the earlier slot, stub and path.
    let first = 8 + 52 + wide("C:\\p.dll").len();
    assert_eq!(call.writes.len(), 3);
    assert_eq!(call.writes[0].address, 0x10000 + first);
    assert_eq!(call.entry, 0x10000 + first + 8);
    assert_eq!(s.result_slot(), Some((0x10000 + first, 8)));
    assert!(s.inject_help_data().is_some());
}

#[test]
fn finish_inject_decodes_and_keeps_handle() {
    let s = Syringe::for_process(X86, 0x10000, 0x10000);
    assert_eq!(
        s.finish_inject(0, 0x6000_0000),
        Ok(ProcessModule { handle: 0x6000_0000, process: X86 })
    );
    assert_eq!(s.finish_inject(193, 0), Err(InjectError::ArchitectureMismatch));
    assert_eq!(
        s.finish_inject(0xC000_0005, 0),
        Err(InjectError::RemoteException(ExceptionCode::AccessViolation))
    );
    assert_eq!(
        s.finish_inject(2, 0),
        Err(InjectError::RemoteIo(OsError { last_os_error: 2 }))
    );
}

#[test]
fn find_or_inject_without_module_is_inject() {
    let mut s = Syringe::for_process(X64, 0x10000, 0x10000);
    assert!(matches!(
        s.find_or_inject(false, "C:\\p.dll", None),
        Err(InjectError::LoadInjectHelpData(LoadInjectHelpDataError::UnsupportedTarget))
    ));
    assert!(matches!(
        s.find_or_inject(true, "C:\\p.dll", None),
        Ok(FindOrInjectStep::Inject(InjectStep::ResolveHelpData(HelpDataSource::LocalModule)))
    ));
    s.set_inject_help_data(help_x64());
    match s.find_or_inject(true, "C:\\p.dll", None) {
        Ok(FindOrInjectStep::Inject(InjectStep::Run(call))) => {
            assert_eq!(call.writes.len(), 3);
            assert_eq!(call.writes[2].bytes, wide("C:\\p.dll"));
        }
        _ => panic!("expected an injection"),
    }
}

#[test]
fn os_error_from_io_error() {
    let e = std::io::Error::from_raw_os_error(5);
    assert_eq!(OsError::from(e).last_os_error, 5);
    let other = std::io::Error::new(std::io::ErrorKind::Other, "no code");
    assert_eq!(OsError::from(other).last_os_error, 0);
}

#[test]
fn wide_path_surrogate_pair() {
    assert_eq!(path_to_wide_bytes("\u{1F600}"), Some(vec![0x3d, 0xd8, 0x00, 0xde, 0, 0]));
}
