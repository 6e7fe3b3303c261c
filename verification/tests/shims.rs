use anisette_rs::constants::{
    ENOENT, IMPORT_ADDRESS, IMPORT_LIBRARY_COUNT, IMPORT_LIBRARY_STRIDE, LIB_ALLOC_BASE,
    LIB_ALLOC_SIZE, LIB_RESERVATION_SIZE, MALLOC_ADDRESS, MALLOC_SIZE, O_CREAT, O_NOFOLLOW,
    O_RDWR, O_WRONLY, PAGE_SIZE, RETURN_ADDRESS, STACK_ADDRESS, STACK_SIZE, TEMP_ALLOC_BASE,
    TEMP_ALLOC_SIZE,
};
use anisette_rs::errors::VmError;
use anisette_rs::ops::{EmuOp, Register};
use anisette_rs::runtime::RuntimeState;
use anisette_rs::shim::{
    begin_shim, descriptor_is_open, host_open_mode, resume_with_host, resume_with_memory,
    GuestCall, HostCall, HostReply, HostWait, MemoryWait, OpenMode, ShimStep,
};
use anisette_rs::stub::{build_python_stat_bytes, shim_by_name, timeval_bytes, ShimKind};

fn call(x0: u64, x1: u64, x2: u64) -> GuestCall {
    GuestCall { x0, x1, x2 }
}

fn c_string(text: &str) -> Vec<u8> {
    let mut bytes = text.as_bytes().to_vec();
    bytes.push(0);
    bytes.resize(0x1000, 0xEE);
    bytes
}

/// The value that a finished shim returns in X0, and the requests before it.
fn finished(step: ShimStep) -> (Vec<EmuOp>, u64) {
    match step {
        ShimStep::Finish { mut ops } => match ops.pop() {
            Some(EmuOp::WriteRegister { register: Register::X(0), value }) => (ops, value),
            other => panic!("expected a return value, got {:?}", other),
        },
        other => panic!("expected the end of the shim, got {:?}", other),
    }
}

fn returned(step: ShimStep) -> u64 {
    let (ops, value) = finished(step);
    assert!(ops.is_empty(), "unexpected requests {:?}", ops);
    value
}

/// Checks that a step refuses the call: errno is set to ENOENT at `cell` and
/// X0 is all ones. `fresh` says whether the errno cell is made on the way.
fn assert_refused(step: ShimStep, cell: u64, fresh: bool) {
    let (ops, value) = finished(step);
    assert_eq!(value, u64::MAX);
    let mut ops = ops.into_iter();
    if fresh {
        match ops.next() {
            Some(EmuOp::MapMemory { address, length, tolerate_mapped }) => {
                assert_eq!(address, cell);
                assert_eq!(length, 0x1000);
                assert!(!tolerate_mapped);
            }
            other => panic!("expected a mapping, got {:?}", other),
        }
        match ops.next() {
            Some(EmuOp::WriteMemory { address, data }) => {
                assert_eq!(address, cell);
                assert_eq!(data, vec![0u8; 0x1000]);
            }
            other => panic!("expected a write, got {:?}", other),
        }
    }
    match ops.next() {
        Some(EmuOp::WriteMemory { address, data }) => {
            assert_eq!(address, cell);
            assert_eq!(data, ENOENT.to_le_bytes().to_vec());
        }
        other => panic!("expected errno to be written, got {:?}", other),
    }
    assert!(ops.next().is_none());
}

fn expect_memory(step: ShimStep) -> (u64, usize, MemoryWait) {
    match step {
        ShimStep::ReadMemory { address, length, then } => (address, length, then),
        other => panic!("expected a memory read, got {:?}", other),
    }
}

fn expect_host(step: ShimStep) -> (HostCall, HostWait) {
    match step {
        ShimStep::Host { call, then } => (call, then),
        other => panic!("expected a host call, got {:?}", other),
    }
}

#[test]
fn every_import_has_its_shim() {
    assert_eq!(shim_by_name("malloc"), Some(ShimKind::Malloc));
    assert_eq!(shim_by_name("free"), Some(ShimKind::ReturnZero));
    assert_eq!(shim_by_name("strncpy"), Some(ShimKind::Strncpy));
    assert_eq!(shim_by_name("mkdir"), Some(ShimKind::Mkdir));
    assert_eq!(shim_by_name("umask"), Some(ShimKind::Umask));
    assert_eq!(shim_by_name("chmod"), Some(ShimKind::Chmod));
    assert_eq!(shim_by_name("lstat"), Some(ShimKind::Lstat));
    assert_eq!(shim_by_name("fstat"), Some(ShimKind::Fstat));
    assert_eq!(shim_by_name("open"), Some(ShimKind::Open));
    assert_eq!(shim_by_name("ftruncate"), Some(ShimKind::Ftruncate));
    assert_eq!(shim_by_name("read"), Some(ShimKind::Read));
    assert_eq!(shim_by_name("write"), Some(ShimKind::Write));
    assert_eq!(shim_by_name("close"), Some(ShimKind::Close));
    assert_eq!(shim_by_name("dlopen"), Some(ShimKind::Dlopen));
    assert_eq!(shim_by_name("dlsym"), Some(ShimKind::Dlsym));
    assert_eq!(shim_by_name("dlclose"), Some(ShimKind::ReturnZero));
    for name in [
        "pthread_once",
        "pthread_create",
        "pthread_mutex_lock",
        "pthread_mutex_unlock",
        "pthread_rwlock_init",
        "pthread_rwlock_rdlock",
        "pthread_rwlock_wrlock",
        "pthread_rwlock_unlock",
        "pthread_rwlock_destroy",
    ] {
        assert_eq!(shim_by_name(name), Some(ShimKind::ReturnZero), "{}", name);
    }
    assert_eq!(shim_by_name("gettimeofday"), Some(ShimKind::Gettimeofday));
    assert_eq!(shim_by_name("__errno"), Some(ShimKind::Errno));
    assert_eq!(shim_by_name("__system_property_get"), Some(ShimKind::SystemPropertyGet));
    assert_eq!(shim_by_name("arc4random"), Some(ShimKind::Arc4random));
    assert_eq!(shim_by_name("printf"), None);
    assert_eq!(shim_by_name(""), None);
    assert_eq!(shim_by_name("Malloc"), None);
    assert_eq!(shim_by_name("malloc "), None);
}

#[test]
fn malloc_takes_pages_from_its_arena() {
    let mut state = RuntimeState::new();
    let first = begin_shim(&mut state, ShimKind::Malloc, call(0x10, 0, 0)).unwrap();
    assert_eq!(returned(first), MALLOC_ADDRESS);
    let second = begin_shim(&mut state, ShimKind::Malloc, call(0x1001, 0, 0)).unwrap();
    assert_eq!(returned(second), MALLOC_ADDRESS + 0x1000);
    let third = begin_shim(&mut state, ShimKind::Malloc, call(0, 0, 0)).unwrap();
    assert_eq!(returned(third), MALLOC_ADDRESS + 0x3000);
}

#[test]
fn malloc_fails_when_the_arena_is_exhausted() {
    let mut state = RuntimeState::new();
    let all = begin_shim(&mut state, ShimKind::Malloc, call(0x100_0000, 0, 0)).unwrap();
    assert_eq!(returned(all), MALLOC_ADDRESS);
    match begin_shim(&mut state, ShimKind::Malloc, call(1, 0, 0)) {
        Err(VmError::AllocatorOom { base, size, request }) => {
            assert_eq!(base, MALLOC_ADDRESS);
            assert_eq!(size, 0x100_0000);
            assert_eq!(request, 1);
        }
        other => panic!("expected out of memory, got {:?}", other),
    }
}

#[test]
fn constant_shims_return_their_constants() {
    let mut state = RuntimeState::new();
    assert_eq!(returned(begin_shim(&mut state, ShimKind::ReturnZero, call(7, 8, 9)).unwrap()), 0);
    assert_eq!(returned(begin_shim(&mut state, ShimKind::Umask, call(0o22, 0, 0)).unwrap()), 0o777);
    assert_eq!(
        returned(begin_shim(&mut state, ShimKind::Arc4random, call(0, 0, 0)).unwrap()),
        0xDEAD_BEEF
    );
}

#[test]
fn strncpy_copies_up_to_the_terminator_and_pads_with_zeros() {
    let mut state = RuntimeState::new();
    let step = begin_shim(&mut state, ShimKind::Strncpy, call(0x2000, 0x3000, 8)).unwrap();
    let (address, length, wait) = expect_memory(step);
    assert_eq!(address, 0x3000);
    assert_eq!(length, 8);
    let source = vec![b'a', b'b', b'c', 0, b'x', b'y', 0, b'z'];
    let (ops, value) = finished(resume_with_memory(&mut state, wait, source).unwrap());
    assert_eq!(value, 0x2000);
    assert_eq!(ops.len(), 1);
    match &ops[0] {
        EmuOp::WriteMemory { address, data } => {
            assert_eq!(*address, 0x2000);
            assert_eq!(data, &vec![b'a', b'b', b'c', 0, 0, 0, 0, 0]);
        }
        other => panic!("expected a write, got {:?}", other),
    }
}

#[test]
fn strncpy_without_terminator_copies_everything() {
    let mut state = RuntimeState::new();
    let wait = MemoryWait::Strncpy { destination: 0x40, length: 4 };
    let (ops, value) = finished(resume_with_memory(&mut state, wait, vec![1, 2, 3, 4]).unwrap());
    assert_eq!(value, 0x40);
    match &ops[0] {
        EmuOp::WriteMemory { data, .. } => assert_eq!(data, &vec![1, 2, 3, 4]),
        other => panic!("expected a write, got {:?}", other),
    }
    let wait = MemoryWait::Strncpy { destination: 0x40, length: 0 };
    let (ops, _) = finished(resume_with_memory(&mut state, wait, vec![]).unwrap());
    match &ops[0] {
        EmuOp::WriteMemory { data, .. } => assert!(data.is_empty()),
        other => panic!("expected a write, got {:?}", other),
    }
}

#[test]
fn mkdir_creates_only_the_allowed_directory() {
    let mut state = RuntimeState::new();
    let step = begin_shim(&mut state, ShimKind::Mkdir, call(0x5000, 0o755, 0)).unwrap();
    let (address, length, wait) = expect_memory(step);
    assert_eq!(address, 0x5000);
    assert_eq!(length, 0x1000);
    let step = resume_with_memory(&mut state, wait, c_string("./anisette")).unwrap();
    let (host, then) = expect_host(step);
    match host {
        HostCall::CreateDirAll { path } => assert_eq!(path, "./anisette"),
        other => panic!("expected a directory to be created, got {:?}", other),
    }
    assert_eq!(returned(resume_with_host(&mut state, then, HostReply::Done).unwrap()), 0);
    assert!(state.errno_address.is_none());
}

#[test]
fn mkdir_refuses_other_directories() {
    let mut state = RuntimeState::new();
    let wait = MemoryWait::Mkdir { path: 0x5000 };
    let step = resume_with_memory(&mut state, wait, c_string("./anisette/")).unwrap();
    assert_refused(step, TEMP_ALLOC_BASE, true);
    assert_eq!(state.errno_address, Some(TEMP_ALLOC_BASE));
    let step = resume_with_memory(&mut state, wait, c_string("/tmp")).unwrap();
    assert_refused(step, TEMP_ALLOC_BASE, false);
}

#[test]
fn mkdir_reports_a_host_failure_through_errno() {
    let mut state = RuntimeState::new();
    let step = resume_with_host(&mut state, HostWait::Mkdir, HostReply::Failed).unwrap();
    assert_refused(step, TEMP_ALLOC_BASE, true);
}

#[test]
fn unterminated_strings_stop_the_shims() {
    let mut state = RuntimeState::new();
    let bytes = vec![b'a'; 0x1000];
    for wait in [
        MemoryWait::Mkdir { path: 0x77 },
        MemoryWait::Chmod { path: 0x77 },
        MemoryWait::Lstat { path: 0x77, out: 0 },
        MemoryWait::Open { path: 0x77, flags: O_NOFOLLOW },
        MemoryWait::Dlopen { path: 0x77 },
        MemoryWait::Dlsym { handle: 1, name: 0x77 },
        MemoryWait::SystemProperty { name: 0x77, value: 0 },
    ] {
        assert!(matches!(
            resume_with_memory(&mut state, wait, bytes.clone()),
            Err(VmError::UnterminatedCString(0x77))
        ));
    }
}

#[test]
fn chmod_reads_its_path_and_returns_zero() {
    let mut state = RuntimeState::new();
    let step = begin_shim(&mut state, ShimKind::Chmod, call(0x5000, 0o600, 0)).unwrap();
    let (address, _, wait) = expect_memory(step);
    assert_eq!(address, 0x5000);
    assert_eq!(returned(resume_with_memory(&mut state, wait, c_string("/any/path")).unwrap()), 0);
}

#[test]
fn open_rejects_paths_outside_the_whitelist() {
    let mut state = RuntimeState::new();
    let step = begin_shim(&mut state, ShimKind::Open, call(0x5000, O_NOFOLLOW, 0)).unwrap();
    let (address, length, wait) = expect_memory(step);
    assert_eq!(address, 0x5000);
    assert_eq!(length, 0x1000);
    let step = resume_with_memory(&mut state, wait, c_string("/etc/passwd")).unwrap();
    // errno becomes 2 and the call returns ~0.
    assert_refused(step, TEMP_ALLOC_BASE, true);
    assert!(state.open_files.is_empty());
}

#[test]
fn open_rejects_unsupported_flags() {
    let mut state = RuntimeState::new();
    for flags in [0, O_NOFOLLOW | O_WRONLY, O_NOFOLLOW | O_RDWR, O_CREAT | O_WRONLY, O_NOFOLLOW | O_CREAT] {
        let wait = MemoryWait::Open { path: 0x5000, flags };
        let step = resume_with_memory(&mut state, wait, c_string("./anisette/adi.pb")).unwrap();
        let (_, value) = finished(step);
        assert_eq!(value, u64::MAX, "flags {:#o}", flags);
    }
}

#[test]
fn open_without_a_path_is_an_error() {
    let mut state = RuntimeState::new();
    let wait = MemoryWait::Open { path: 0x5000, flags: O_NOFOLLOW };
    assert!(matches!(
        resume_with_memory(&mut state, wait, c_string("")),
        Err(VmError::EmptyPath)
    ));
}

#[test]
fn open_read_write_close_follow_the_host() {
    let mut state = RuntimeState::new();
    let wait = MemoryWait::Open { path: 0x5000, flags: O_NOFOLLOW };
    let step = resume_with_memory(&mut state, wait, c_string("./anisette/adi.pb")).unwrap();
    let (host, then) = expect_host(step);
    match host {
        HostCall::Open { path, descriptor, mode } => {
            assert_eq!(path, "./anisette/adi.pb");
            assert_eq!(descriptor, 0);
            assert_eq!(mode, OpenMode { read: true, write: false, truncate: false, create: false });
        }
        other => panic!("expected a file to be opened, got {:?}", other),
    }
    assert_eq!(returned(resume_with_host(&mut state, then, HostReply::Done).unwrap()), 0);
    assert!(descriptor_is_open(&state, 0));

    // read
    let step = begin_shim(&mut state, ShimKind::Read, call(0, 0x7000, 16)).unwrap();
    let (host, then) = expect_host(step);
    match host {
        HostCall::Read { descriptor, count } => {
            assert_eq!(descriptor, 0);
            assert_eq!(count, 16);
        }
        other => panic!("expected a read, got {:?}", other),
    }
    let (ops, value) =
        finished(resume_with_host(&mut state, then, HostReply::Data(vec![9, 8, 7])).unwrap());
    assert_eq!(value, 3);
    match &ops[0] {
        EmuOp::WriteMemory { address, data } => {
            assert_eq!(*address, 0x7000);
            assert_eq!(data, &vec![9, 8, 7]);
        }
        other => panic!("expected a write, got {:?}", other),
    }

    // write
    let step = begin_shim(&mut state, ShimKind::Write, call(0, 0x8000, 4)).unwrap();
    let (address, length, wait) = expect_memory(step);
    assert_eq!(address, 0x8000);
    assert_eq!(length, 4);
    let step = resume_with_memory(&mut state, wait, vec![1, 2, 3, 4]).unwrap();
    let (host, then) = expect_host(step);
    match host {
        HostCall::Write { descriptor, data } => {
            assert_eq!(descriptor, 0);
            assert_eq!(data, vec![1, 2, 3, 4]);
        }
        other => panic!("expected a write, got {:?}", other),
    }
    assert_eq!(returned(resume_with_host(&mut state, then, HostReply::Done).unwrap()), 4);

    // ftruncate
    let step = begin_shim(&mut state, ShimKind::Ftruncate, call(0, 100, 0)).unwrap();
    let (host, then) = expect_host(step);
    match host {
        HostCall::SetLength { descriptor, length } => {
            assert_eq!(descriptor, 0);
            assert_eq!(length, 100);
        }
        other => panic!("expected a truncation, got {:?}", other),
    }
    assert_eq!(returned(resume_with_host(&mut state, then, HostReply::Done).unwrap()), 0);

    // close
    let step = begin_shim(&mut state, ShimKind::Close, call(0, 0, 0)).unwrap();
    let (host, then) = expect_host(step);
    assert!(matches!(host, HostCall::Close { descriptor: 0 }));
    assert!(!descriptor_is_open(&state, 0));
    assert_eq!(returned(resume_with_host(&mut state, then, HostReply::Done).unwrap()), 0);

    // The descriptor keeps its number: the next file gets the next one.
    assert!(matches!(
        begin_shim(&mut state, ShimKind::Read, call(0, 0x7000, 16)),
        Err(VmError::InvalidFileDescriptor(0))
    ));
    let wait = MemoryWait::Open { path: 0x5000, flags: O_NOFOLLOW | O_CREAT | O_WRONLY };
    let step = resume_with_memory(&mut state, wait, c_string("./anisette/adi.pb")).unwrap();
    let (host, then) = expect_host(step);
    match host {
        HostCall::Open { descriptor, mode, .. } => {
            assert_eq!(descriptor, 1);
            assert_eq!(mode, OpenMode { read: true, write: true, truncate: true, create: true });
        }
        other => panic!("expected a file to be opened, got {:?}", other),
    }
    assert_eq!(returned(resume_with_host(&mut state, then, HostReply::Done).unwrap()), 1);
    // Closing a closed descriptor again is harmless.
    assert_eq!(returned(begin_shim(&mut state, ShimKind::Close, call(0, 0, 0)).unwrap()), 0);
}

#[test]
fn failed_open_takes_no_descriptor() {
    let mut state = RuntimeState::new();
    let step = resume_with_host(&mut state, HostWait::Open, HostReply::Failed).unwrap();
    assert_refused(step, TEMP_ALLOC_BASE, true);
    assert!(state.open_files.is_empty());
    assert_eq!(returned(resume_with_host(&mut state, HostWait::Open, HostReply::Done).unwrap()), 0);
}

#[test]
fn host_failures_become_errno() {
    let mut state = RuntimeState::new();
    for (i, wait) in [
        HostWait::Stat { out: 0x100 },
        HostWait::Ftruncate,
        HostWait::Read { buffer: 0x100 },
        HostWait::Write { count: 5 },
    ]
    .into_iter()
    .enumerate()
    {
        let step = resume_with_host(&mut state, wait, HostReply::Failed).unwrap();
        assert_refused(step, TEMP_ALLOC_BASE, i == 0);
    }
}

#[test]
fn unknown_descriptors_are_errors() {
    let mut state = RuntimeState::new();
    for kind in [ShimKind::Fstat, ShimKind::Ftruncate, ShimKind::Read, ShimKind::Close] {
        assert!(matches!(
            begin_shim(&mut state, kind, call(3, 0, 0)),
            Err(VmError::InvalidFileDescriptor(3))
        ));
    }
    let wait = MemoryWait::Write { descriptor: 3, count: 1 };
    assert!(matches!(
        resume_with_memory(&mut state, wait, vec![0]),
        Err(VmError::InvalidFileDescriptor(3))
    ));
    assert!(matches!(
        begin_shim(&mut state, ShimKind::Read, call(u64::MAX, 0, 0)),
        Err(VmError::InvalidFileDescriptor(u64::MAX))
    ));
}

#[test]
fn open_modes_follow_the_flags() {
    assert_eq!(
        host_open_mode(0),
        Some(OpenMode { read: true, write: false, truncate: false, create: false })
    );
    assert_eq!(
        host_open_mode(O_WRONLY),
        Some(OpenMode { read: false, write: true, truncate: true, create: false })
    );
    assert_eq!(
        host_open_mode(O_RDWR),
        Some(OpenMode { read: true, write: true, truncate: false, create: false })
    );
    assert_eq!(
        host_open_mode(O_CREAT),
        Some(OpenMode { read: true, write: true, truncate: false, create: true })
    );
    assert_eq!(host_open_mode(3), None);
    assert_eq!(
        host_open_mode(O_NOFOLLOW | O_CREAT | O_WRONLY),
        Some(OpenMode { read: true, write: true, truncate: true, create: true })
    );
}

#[test]
fn stat_layout_has_mode_size_and_constants() {
    let mode: u32 = 0o040755;
    let size: u64 = 0x1122_3344_5566;
    let bytes = build_python_stat_bytes(mode, size);
    assert_eq!(bytes.len(), 128);
    assert_eq!(&bytes[16..20], &mode.to_le_bytes());
    assert_eq!(&bytes[48..56], &size.to_le_bytes());
    assert_eq!(&bytes[20..24], &[0, 0, 0, 0]);
    assert_eq!(&bytes[24..28], &0x0000_81A4u32.to_le_bytes());
    assert_eq!(&bytes[88..96], &0x0000_0000_0101_0000u64.to_le_bytes());
    for (i, byte) in bytes.iter().enumerate() {
        let known = (16..20).contains(&i)
            || (24..28).contains(&i)
            || (48..56).contains(&i)
            || (88..96).contains(&i);
        if !known {
            assert_eq!(*byte, 0, "byte {}", i);
        }
    }
}

#[test]
fn lstat_writes_the_stat_layout() {
    let mut state = RuntimeState::new();
    let step = begin_shim(&mut state, ShimKind::Lstat, call(0x5000, 0x6000, 0)).unwrap();
    let (address, _, wait) = expect_memory(step);
    assert_eq!(address, 0x5000);
    let step = resume_with_memory(&mut state, wait, c_string("./anisette")).unwrap();
    let (host, then) = expect_host(step);
    match host {
        HostCall::StatPath { path } => assert_eq!(path, "./anisette"),
        other => panic!("expected a stat, got {:?}", other),
    }
    let reply = HostReply::Metadata { mode: 0o040700, size: 4096 };
    let (ops, value) = finished(resume_with_host(&mut state, then, reply).unwrap());
    assert_eq!(value, 0);
    match &ops[0] {
        EmuOp::WriteMemory { address, data } => {
            assert_eq!(*address, 0x6000);
            assert_eq!(data, &build_python_stat_bytes(0o040700, 4096));
        }
        other => panic!("expected a write, got {:?}", other),
    }
}

#[test]
fn fstat_asks_the_host_for_an_open_descriptor() {
    let mut state = RuntimeState::new();
    resume_with_host(&mut state, HostWait::Open, HostReply::Done).unwrap();
    let step = begin_shim(&mut state, ShimKind::Fstat, call(0, 0x6000, 0)).unwrap();
    let (host, then) = expect_host(step);
    assert!(matches!(host, HostCall::StatDescriptor { descriptor: 0 }));
    assert_eq!(then, HostWait::Stat { out: 0x6000 });
}

#[test]
fn gettimeofday_writes_seconds_and_microseconds() {
    let mut state = RuntimeState::new();
    let step = begin_shim(&mut state, ShimKind::Gettimeofday, call(0x9000, 0, 0)).unwrap();
    let (host, then) = expect_host(step);
    assert!(matches!(host, HostCall::CurrentTime));
    let reply = HostReply::Time { seconds: 1_700_000_000, microseconds: 123_456 };
    let (ops, value) = finished(resume_with_host(&mut state, then, reply).unwrap());
    assert_eq!(value, 0);
    let mut expected = 1_700_000_000u64.to_le_bytes().to_vec();
    expected.extend_from_slice(&123_456i64.to_le_bytes());
    match &ops[0] {
        EmuOp::WriteMemory { address, data } => {
            assert_eq!(*address, 0x9000);
            assert_eq!(data, &expected);
        }
        other => panic!("expected a write, got {:?}", other),
    }
    assert_eq!(timeval_bytes(1, 2), vec![1, 0, 0, 0, 0, 0, 0, 0, 2, 0, 0, 0, 0, 0, 0, 0]);
}

#[test]
fn gettimeofday_with_a_time_zone_is_an_error() {
    let mut state = RuntimeState::new();
    match begin_shim(&mut state, ShimKind::Gettimeofday, call(0x9000, 0xAB_CDEF, 0)) {
        Err(VmError::UnhandledImport(message)) => {
            assert_eq!(message, "gettimeofday tz pointer must be null, got 0xABCDEF")
        }
        other => panic!("expected an error, got {:?}", other),
    }
}

#[test]
fn errno_location_is_made_once() {
    let mut state = RuntimeState::new();
    let (ops, value) = finished(begin_shim(&mut state, ShimKind::Errno, call(0, 0, 0)).unwrap());
    assert_eq!(value, TEMP_ALLOC_BASE);
    assert_eq!(ops.len(), 2);
    let (ops, value) = finished(begin_shim(&mut state, ShimKind::Errno, call(0, 0, 0)).unwrap());
    assert_eq!(value, TEMP_ALLOC_BASE);
    assert!(ops.is_empty());
}

#[test]
fn system_property_is_a_placeholder() {
    let mut state = RuntimeState::new();
    let step =
        begin_shim(&mut state, ShimKind::SystemPropertyGet, call(0x5000, 0x6000, 0)).unwrap();
    let (address, _, wait) = expect_memory(step);
    assert_eq!(address, 0x5000);
    let step = resume_with_memory(&mut state, wait, c_string("ro.serialno")).unwrap();
    let (ops, value) = finished(step);
    assert_eq!(value, 13);
    match &ops[0] {
        EmuOp::WriteMemory { address, data } => {
            assert_eq!(*address, 0x6000);
            assert_eq!(data, &b"no s/n number".to_vec());
        }
        other => panic!("expected a write, got {:?}", other),
    }
}

#[test]
fn dlsym_rejects_the_null_handle() {
    let mut state = RuntimeState::new();
    assert!(matches!(
        begin_shim(&mut state, ShimKind::Dlsym, call(0, 0x5000, 0)),
        Err(VmError::InvalidDlopenHandle(0))
    ));
    let step = begin_shim(&mut state, ShimKind::Dlsym, call(1, 0x5000, 0)).unwrap();
    let (address, _, wait) = expect_memory(step);
    assert_eq!(address, 0x5000);
    assert!(matches!(
        resume_with_memory(&mut state, wait, c_string("symbol")),
        Err(VmError::LibraryNotLoaded(0))
    ));
}

#[test]
fn dlopen_of_an_unregistered_library_fails() {
    let mut state = RuntimeState::new();
    let step = begin_shim(&mut state, ShimKind::Dlopen, call(0x5000, 0, 0)).unwrap();
    let (_, _, wait) = expect_memory(step);
    match resume_with_memory(&mut state, wait, c_string("/system/lib64/libCoreADI.so")) {
        Err(VmError::LibraryNotRegistered(name)) => assert_eq!(name, "libCoreADI.so"),
        other => panic!("expected an unregistered library, got {:?}", other),
    }
}

#[test]
fn address_space_layout_is_fixed() {
    assert_eq!(PAGE_SIZE, 4096);
    assert_eq!(RETURN_ADDRESS, 0xDEAD_0000);
    assert_eq!(MALLOC_ADDRESS, 0x6000_0000);
    assert_eq!(MALLOC_SIZE, 16 << 20);
    assert_eq!(STACK_ADDRESS, 0xF000_0000);
    assert_eq!(STACK_SIZE, 1 << 20);
    assert_eq!(IMPORT_ADDRESS, 0xA000_0000);
    assert_eq!(IMPORT_LIBRARY_STRIDE, 16 << 20);
    assert_eq!(IMPORT_LIBRARY_COUNT, 10);
    assert_eq!(TEMP_ALLOC_BASE, 0x0000_0080_0000_0000);
    assert_eq!(TEMP_ALLOC_SIZE, 256 << 20);
    assert_eq!(LIB_ALLOC_BASE, 0x0010_0000);
    assert_eq!(LIB_ALLOC_SIZE, 9 * (256 << 20));
    assert_eq!(LIB_RESERVATION_SIZE, 256 << 20);
}
