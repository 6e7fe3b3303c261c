//! The shims of the guest's imports, each as a run of steps between which the
//! caller reads guest memory or asks the host.

use vstd::prelude::*;
use vstd::slice::slice_subrange;
use vstd::string::StringExecFns;
use crate::allocator::page_span;
use crate::constants::{
    C_STRING_LIMIT, ENOENT, O_ACCMODE, O_CREAT, O_NOFOLLOW, O_RDWR, O_WRONLY,
};
use crate::emu::{
    ensure_errno_address, errno_cell_kept, errno_cell_plan, errno_plan, set_errno,
};
use crate::errors::{VmError, VmErrorView};
use crate::loader::{load_library_by_name, load_result, load_state};
use crate::ops::{lemma_ops_view_push, ops_view, EmuOp, EmuOpView, Register};
use crate::runtime::{resolve_symbol_from_loaded_library_by_name, symbol_address, RuntimeState};
use crate::stub::{
    build_python_stat_bytes, property_value, stat_layout, timeval_bytes, timeval_layout, ShimKind,
};
use crate::text::{
    basename, c_string_text, find_nul, first_nul, path_basename, read_c_string, str_equal,
    u64_to_upper_hex, upper_hex_text,
};
use crate::util::{padded, padded_bytes};

verus! {

/// The argument registers of the guest at the moment it calls an import.
#[derive(Debug, Clone, Copy, PartialEq, Eq, Structural)]
pub struct GuestCall {
    pub x0: u64,
    pub x1: u64,
    pub x2: u64,
}

/// How the host opens a file for the guest.
#[derive(Debug, Clone, Copy, PartialEq, Eq, Structural)]
pub struct OpenMode {
    pub read: bool,
    pub write: bool,
    pub truncate: bool,
    /// Create the file where it does not exist, and its directories before.
    pub create: bool,
}

/// Something that only the host can do for a shim.
#[derive(Debug)]
pub enum HostCall {
    /// Create a directory and its parents.
    CreateDirAll { path: String },
    /// Open a file and keep it under `descriptor`.
    Open { path: String, descriptor: u64, mode: OpenMode },
    /// Read up to `count` bytes from the file of a descriptor.
    Read { descriptor: u64, count: usize },
    /// Write all of `data` to the file of a descriptor.
    Write { descriptor: u64, data: Vec<u8> },
    /// Cut or extend the file of a descriptor to `length` bytes.
    SetLength { descriptor: u64, length: u64 },
    /// Let go of the file of a descriptor.
    Close { descriptor: u64 },
    /// Mode and size of what lies at a path, without following a link.
    StatPath { path: String },
    /// Mode and size of the file of a descriptor.
    StatDescriptor { descriptor: u64 },
    /// The time since the Unix epoch.
    CurrentTime,
}

pub enum HostCallView {
    CreateDirAll { path: Seq<char> },
    Open { path: Seq<char>, descriptor: u64, mode: OpenMode },
    Read { descriptor: u64, count: usize },
    Write { descriptor: u64, data: Seq<u8> },
    SetLength { descriptor: u64, length: u64 },
    Close { descriptor: u64 },
    StatPath { path: Seq<char> },
    StatDescriptor { descriptor: u64 },
    CurrentTime,
}

impl View for HostCall {
    type V = HostCallView;

    open spec fn view(&self) -> HostCallView {
        match self {
            HostCall::CreateDirAll { path } => HostCallView::CreateDirAll { path: path@ },
            HostCall::Open { path, descriptor, mode } => HostCallView::Open {
                path: path@,
                descriptor: *descriptor,
                mode: *mode,
            },
            HostCall::Read { descriptor, count } => HostCallView::Read {
                descriptor: *descriptor,
                count: *count,
            },
            HostCall::Write { descriptor, data } => HostCallView::Write {
                descriptor: *descriptor,
                data: data@,
            },
            HostCall::SetLength { descriptor, length } => HostCallView::SetLength {
                descriptor: *descriptor,
                length: *length,
            },
            HostCall::Close { descriptor } => HostCallView::Close { descriptor: *descriptor },
            HostCall::StatPath { path } => HostCallView::StatPath { path: path@ },
            HostCall::StatDescriptor { descriptor } => HostCallView::StatDescriptor {
                descriptor: *descriptor,
            },
            HostCall::CurrentTime => HostCallView::CurrentTime,
        }
    }
}

/// What the host answers to a `HostCall`.
#[derive(Debug)]
pub enum HostReply {
    /// The call succeeded and has nothing to report.
    Done,
    /// The host could not do it.
    Failed,
    /// The bytes that were read.
    Data(Vec<u8>),
    Metadata { mode: u32, size: u64 },
    Time { seconds: u64, microseconds: u32 },
}

pub enum HostReplyView {
    Done,
    Failed,
    Data(Seq<u8>),
    Metadata { mode: u32, size: u64 },
    Time { seconds: u64, microseconds: u32 },
}

impl View for HostReply {
    type V = HostReplyView;

    open spec fn view(&self) -> HostReplyView {
        match self {
            HostReply::Done => HostReplyView::Done,
            HostReply::Failed => HostReplyView::Failed,
            HostReply::Data(bytes) => HostReplyView::Data(bytes@),
            HostReply::Metadata { mode, size } => HostReplyView::Metadata {
                mode: *mode,
                size: *size,
            },
            HostReply::Time { seconds, microseconds } => HostReplyView::Time {
                seconds: *seconds,
                microseconds: *microseconds,
            },
        }
    }
}

/// A shim that waits for bytes of guest memory.
#[derive(Debug, Clone, Copy, PartialEq, Eq, Structural)]
pub enum MemoryWait {
    Strncpy { destination: u64, length: usize },
    Mkdir { path: u64 },
    Chmod { path: u64 },
    Lstat { path: u64, out: u64 },
    Open { path: u64, flags: u64 },
    Write { descriptor: u64, count: usize },
    Dlopen { path: u64 },
    Dlsym { handle: u64, name: u64 },
    SystemProperty { name: u64, value: u64 },
}

/// A shim that waits for the host.
#[derive(Debug, Clone, Copy, PartialEq, Eq, Structural)]
pub enum HostWait {
    Mkdir,
    Stat { out: u64 },
    Open,
    Ftruncate,
    Read { buffer: u64 },
    Write { count: usize },
    Close,
    Time { out: u64 },
}

/// What a shim needs next.
#[derive(Debug)]
pub enum ShimStep {
    /// Read `length` bytes of guest memory at `address` and resume the shim
    /// with them.
    ReadMemory { address: u64, length: usize, then: MemoryWait },
    /// Ask the host and resume the shim with the reply.
    Host { call: HostCall, then: HostWait },
    /// Perform these emulator requests; the call is answered.
    Finish { ops: Vec<EmuOp> },
}

pub enum ShimStepView {
    ReadMemory { address: u64, length: usize, then: MemoryWait },
    Host { call: HostCallView, then: HostWait },
    Finish { ops: Seq<EmuOpView> },
}

impl View for ShimStep {
    type V = ShimStepView;

    open spec fn view(&self) -> ShimStepView {
        match self {
            ShimStep::ReadMemory { address, length, then } => ShimStepView::ReadMemory {
                address: *address,
                length: *length,
                then: *then,
            },
            ShimStep::Host { call, then } => ShimStepView::Host { call: call@, then: *then },
            ShimStep::Finish { ops } => ShimStepView::Finish { ops: ops_view(ops@) },
        }
    }
}

/// Whether a result is what a plan says: the same step, or the same failure.
pub open spec fn step_matches(
    r: Result<ShimStep, VmError>,
    plan: Result<ShimStepView, VmErrorView>,
) -> bool {
    match plan {
        Ok(step) => (r matches Ok(taken) && taken@ == step),
        Err(failure) => (r matches Err(e) && e@ == failure),
    }
}

/// The step that answers a call with `value` in X0.
pub open spec fn returning(value: u64) -> ShimStepView {
    ShimStepView::Finish {
        ops: seq![EmuOpView::WriteRegister { register: Register::X(0), value }],
    }
}

/// The step that answers a call after `ops` with `value` in X0.
pub open spec fn returning_after(ops: Seq<EmuOpView>, value: u64) -> ShimStepView {
    ShimStepView::Finish {
        ops: ops.push(EmuOpView::WriteRegister { register: Register::X(0), value }),
    }
}

/// The step that refuses a call as the C library does: errno becomes `ENOENT`
/// and X0 all ones. It fails where the errno cell cannot be made.
pub open spec fn refusal(state: RuntimeState) -> Result<ShimStepView, VmErrorView> {
    match errno_plan(state, ENOENT) {
        Ok(ops) => Ok(returning_after(ops, u64::MAX)),
        Err(failure) => Err(failure),
    }
}

/// The step that reads a C string at `address`.
pub open spec fn reading_text(address: u64, then: MemoryWait) -> ShimStepView {
    ShimStepView::ReadMemory { address, length: C_STRING_LIMIT, then }
}

/// The directory that the guest may create.
pub open spec fn allowed_directory() -> Seq<char> {
    "./anisette"@
}

/// The file that the guest may open.
pub open spec fn allowed_file() -> Seq<char> {
    "./anisette/adi.pb"@
}

/// The flags with which the guest may open its file.
pub open spec fn open_flags_allowed(flags: u64) -> bool {
    flags == O_NOFOLLOW || flags == (O_NOFOLLOW | O_CREAT | O_WRONLY)
}

/// How the host opens a file for these flags: the access bits choose between
/// reading, writing with truncation, and both; `O_CREAT` adds creation, and
/// with it both reading and writing. Access bits of 3 have no meaning.
pub open spec fn open_mode(flags: u64) -> Option<OpenMode> {
    let access = flags & O_ACCMODE;
    let create = (flags & O_CREAT) != 0;
    if access == 0 {
        Some(OpenMode { read: true, write: create, truncate: false, create })
    } else if access == O_WRONLY {
        Some(OpenMode { read: create, write: true, truncate: true, create })
    } else if access == O_RDWR {
        Some(OpenMode { read: true, write: true, truncate: false, create })
    } else {
        None
    }
}

/// Chooses the host's way of opening a file from the guest's flags.
pub fn host_open_mode(flags: u64) -> (r: Option<OpenMode>)
    ensures
        r == open_mode(flags),
{
    let access = flags & O_ACCMODE;
    let create = (flags & O_CREAT) != 0;
    if access == 0 {
        Some(OpenMode { read: true, write: create, truncate: false, create })
    } else if access == O_WRONLY {
        Some(OpenMode { read: create, write: true, truncate: true, create })
    } else if access == O_RDWR {
        Some(OpenMode { read: true, write: true, truncate: false, create })
    } else {
        None
    }
}

/// The text of the error for a `gettimeofday` that asks for a time zone.
pub open spec fn time_zone_message(pointer: u64) -> Seq<char> {
    "gettimeofday tz pointer must be null, got 0x"@ + upper_hex_text(pointer as nat)
}

/// What `strncpy` writes, given the `length` bytes that were read at the
/// source: those bytes up to the first zero byte, and zero bytes up to
/// `length`. Where fewer bytes were read, that many are written.
pub open spec fn strncpy_output(source: Seq<u8>, length: usize) -> Seq<u8> {
    let available = if source.len() < length {
        source.len() as int
    } else {
        length as int
    };
    let copied = match first_nul(source) {
        Some(end) => if end < available {
            end
        } else {
            available
        },
        None => available,
    };
    padded(0, source.subrange(0, copied), available, 0)
}

/// What a shim does first, from the guest's argument registers alone.
pub open spec fn begin_step(state: RuntimeState, kind: ShimKind, call: GuestCall) -> Result<
    ShimStepView,
    VmErrorView,
> {
    match kind {
        ShimKind::Malloc => {
            let arena = state.malloc_allocator;
            if arena.offset() + page_span(call.x0) > arena.size() {
                Err(
                    VmErrorView::AllocatorOom {
                        base: arena.base(),
                        size: arena.size(),
                        request: call.x0,
                    },
                )
            } else {
                Ok(returning(arena.next_address()))
            }
        },
        ShimKind::ReturnZero => Ok(returning(0)),
        ShimKind::Umask => Ok(returning(0o777)),
        ShimKind::Arc4random => Ok(returning(0xDEAD_BEEF)),
        ShimKind::Strncpy => Ok(
            ShimStepView::ReadMemory {
                address: call.x1,
                length: call.x2 as usize,
                then: MemoryWait::Strncpy { destination: call.x0, length: call.x2 as usize },
            },
        ),
        ShimKind::Mkdir => Ok(reading_text(call.x0, MemoryWait::Mkdir { path: call.x0 })),
        ShimKind::Chmod => Ok(reading_text(call.x0, MemoryWait::Chmod { path: call.x0 })),
        ShimKind::Lstat => Ok(
            reading_text(call.x0, MemoryWait::Lstat { path: call.x0, out: call.x1 }),
        ),
        ShimKind::Open => Ok(
            reading_text(call.x0, MemoryWait::Open { path: call.x0, flags: call.x1 }),
        ),
        ShimKind::Dlopen => Ok(reading_text(call.x0, MemoryWait::Dlopen { path: call.x0 })),
        ShimKind::SystemPropertyGet => Ok(
            reading_text(call.x0, MemoryWait::SystemProperty { name: call.x0, value: call.x1 }),
        ),
        ShimKind::Dlsym => if call.x0 == 0 {
            Err(VmErrorView::InvalidDlopenHandle(call.x0))
        } else {
            Ok(reading_text(call.x1, MemoryWait::Dlsym { handle: call.x0, name: call.x1 }))
        },
        ShimKind::Fstat => if state.is_open(call.x0) {
            Ok(
                ShimStepView::Host {
                    call: HostCallView::StatDescriptor { descriptor: call.x0 },
                    then: HostWait::Stat { out: call.x1 },
                },
            )
        } else {
            Err(VmErrorView::InvalidFileDescriptor(call.x0))
        },
        ShimKind::Ftruncate => if state.is_open(call.x0) {
            Ok(
                ShimStepView::Host {
                    call: HostCallView::SetLength { descriptor: call.x0, length: call.x1 },
                    then: HostWait::Ftruncate,
                },
            )
        } else {
            Err(VmErrorView::InvalidFileDescriptor(call.x0))
        },
        ShimKind::Read => if state.is_open(call.x0) {
            Ok(
                ShimStepView::Host {
                    call: HostCallView::Read { descriptor: call.x0, count: call.x2 as usize },
                    then: HostWait::Read { buffer: call.x1 },
                },
            )
        } else {
            Err(VmErrorView::InvalidFileDescriptor(call.x0))
        },
        ShimKind::Write => if call.x0 > usize::MAX {
            Err(VmErrorView::InvalidFileDescriptor(call.x0))
        } else {
            Ok(
                ShimStepView::ReadMemory {
                    address: call.x1,
                    length: call.x2 as usize,
                    then: MemoryWait::Write { descriptor: call.x0, count: call.x2 as usize },
                },
            )
        },
        ShimKind::Close => if call.x0 >= state.open_files@.len() {
            Err(VmErrorView::InvalidFileDescriptor(call.x0))
        } else if state.open_files@[call.x0 as int] {
            Ok(
                ShimStepView::Host {
                    call: HostCallView::Close { descriptor: call.x0 },
                    then: HostWait::Close,
                },
            )
        } else {
            Ok(returning(0))
        },
        ShimKind::Gettimeofday => if call.x1 != 0 {
            Err(VmErrorView::UnhandledImport(time_zone_message(call.x1)))
        } else {
            Ok(
                ShimStepView::Host {
                    call: HostCallView::CurrentTime,
                    then: HostWait::Time { out: call.x0 },
                },
            )
        },
        ShimKind::Errno => match errno_cell_plan(state) {
            Ok((address, ops)) => Ok(returning_after(ops, address)),
            Err(failure) => Err(failure),
        },
    }
}

/// How the first step of a shim leaves the state: `malloc` takes pages from
/// its arena, `close` marks the descriptor closed, `__errno` makes the errno
/// cell. Nothing else changes anything.
pub open spec fn begin_state(
    before: RuntimeState,
    after: RuntimeState,
    kind: ShimKind,
    call: GuestCall,
) -> bool {
    match kind {
        ShimKind::Malloc => {
            let arena = before.malloc_allocator;
            &&& after.temp_allocator == before.temp_allocator
            &&& after.library_allocator == before.library_allocator
            &&& after.errno_address == before.errno_address
            &&& after.library_blobs == before.library_blobs
            &&& after.loaded_libraries == before.loaded_libraries
            &&& after.open_files == before.open_files
            &&& after.library_root == before.library_root
            &&& after.malloc_allocator.base() == arena.base()
            &&& after.malloc_allocator.size() == arena.size()
            &&& if arena.offset() + page_span(call.x0) > arena.size() {
                after == before
            } else {
                after.malloc_allocator.offset() == arena.offset() + page_span(call.x0)
            }
        },
        ShimKind::Close => {
            &&& after.temp_allocator == before.temp_allocator
            &&& after.library_allocator == before.library_allocator
            &&& after.malloc_allocator == before.malloc_allocator
            &&& after.errno_address == before.errno_address
            &&& after.library_blobs == before.library_blobs
            &&& after.loaded_libraries == before.loaded_libraries
            &&& after.library_root == before.library_root
            &&& after.open_files@ == if call.x0 < before.open_files@.len() {
                before.open_files@.update(call.x0 as int, false)
            } else {
                before.open_files@
            }
        },
        ShimKind::Errno => errno_cell_kept(before, after),
        _ => after == before,
    }
}

fn finish(value: u64) -> (r: ShimStep)
    ensures
        r@ == returning(value),
{
    let mut ops: Vec<EmuOp> = Vec::new();
    ops.push(EmuOp::WriteRegister { register: Register::X(0), value });
    assert(ops_view(ops@) =~= seq![
        EmuOpView::WriteRegister { register: Register::X(0), value },
    ]);
    ShimStep::Finish { ops }
}

fn finish_after(ops: Vec<EmuOp>, value: u64) -> (r: ShimStep)
    ensures
        r@ == returning_after(ops_view(ops@), value),
{
    let mut ops = ops;
    let op = EmuOp::WriteRegister { register: Register::X(0), value };
    proof {
        lemma_ops_view_push(ops@, op);
    }
    ops.push(op);
    ShimStep::Finish { ops }
}

fn read_text(address: u64, then: MemoryWait) -> (r: ShimStep)
    ensures
        r@ == reading_text(address, then),
{
    ShimStep::ReadMemory { address, length: C_STRING_LIMIT, then }
}

/// Refuses a call: errno becomes `ENOENT`, and the call returns all ones.
fn refuse(state: &mut RuntimeState) -> (r: Result<ShimStep, VmError>)
    requires
        old(state).wf(),
    ensures
        final(state).wf(),
        errno_cell_kept(*old(state), *final(state)),
        step_matches(r, refusal(*old(state))),
{
    let ops = set_errno(state, ENOENT)?;
    Ok(finish_after(ops, u64::MAX))
}

/// Whether `descriptor` is the number of an open file.
pub fn descriptor_is_open(state: &RuntimeState, descriptor: u64) -> (r: bool)
    ensures
        r == state.is_open(descriptor),
{
    if descriptor >= state.open_files.len() as u64 {
        return false;
    }
    state.open_files[descriptor as usize]
}

/// Takes the first step of a shim: `call` holds the guest's argument registers
/// at the moment it called the import.
pub fn begin_shim(state: &mut RuntimeState, kind: ShimKind, call: GuestCall) -> (r: Result<
    ShimStep,
    VmError,
>)
    requires
        old(state).wf(),
    ensures
        final(state).wf(),
        step_matches(r, begin_step(*old(state), kind, call)),
        begin_state(*old(state), *final(state), kind, call),
{
    match kind {
        ShimKind::Malloc => {
            let address = state.malloc_allocator.allocate(call.x0)?;
            Ok(finish(address))
        },
        ShimKind::ReturnZero => Ok(finish(0)),
        ShimKind::Umask => Ok(finish(0o777)),
        ShimKind::Arc4random => Ok(finish(0xDEAD_BEEF)),
        ShimKind::Strncpy => {
            let length =
                #[verifier::truncate]
                (call.x2 as usize);
            Ok(
                ShimStep::ReadMemory {
                    address: call.x1,
                    length,
                    then: MemoryWait::Strncpy { destination: call.x0, length },
                },
            )
        },
        ShimKind::Mkdir => Ok(read_text(call.x0, MemoryWait::Mkdir { path: call.x0 })),
        ShimKind::Chmod => Ok(read_text(call.x0, MemoryWait::Chmod { path: call.x0 })),
        ShimKind::Lstat => Ok(
            read_text(call.x0, MemoryWait::Lstat { path: call.x0, out: call.x1 }),
        ),
        ShimKind::Open => Ok(
            read_text(call.x0, MemoryWait::Open { path: call.x0, flags: call.x1 }),
        ),
        ShimKind::Dlopen => Ok(read_text(call.x0, MemoryWait::Dlopen { path: call.x0 })),
        ShimKind::SystemPropertyGet => Ok(
            read_text(call.x0, MemoryWait::SystemProperty { name: call.x0, value: call.x1 }),
        ),
        ShimKind::Dlsym => {
            if call.x0 == 0 {
                return Err(VmError::InvalidDlopenHandle(call.x0));
            }
            Ok(read_text(call.x1, MemoryWait::Dlsym { handle: call.x0, name: call.x1 }))
        },
        ShimKind::Fstat => {
            if !descriptor_is_open(state, call.x0) {
                return Err(VmError::InvalidFileDescriptor(call.x0));
            }
            Ok(
                ShimStep::Host {
                    call: HostCall::StatDescriptor { descriptor: call.x0 },
                    then: HostWait::Stat { out: call.x1 },
                },
            )
        },
        ShimKind::Ftruncate => {
            if !descriptor_is_open(state, call.x0) {
                return Err(VmError::InvalidFileDescriptor(call.x0));
            }
            Ok(
                ShimStep::Host {
                    call: HostCall::SetLength { descriptor: call.x0, length: call.x1 },
                    then: HostWait::Ftruncate,
                },
            )
        },
        ShimKind::Read => {
            if !descriptor_is_open(state, call.x0) {
                return Err(VmError::InvalidFileDescriptor(call.x0));
            }
            let count =
                #[verifier::truncate]
                (call.x2 as usize);
            Ok(
                ShimStep::Host {
                    call: HostCall::Read { descriptor: call.x0, count },
                    then: HostWait::Read { buffer: call.x1 },
                },
            )
        },
        ShimKind::Write => {
            if call.x0 > usize::MAX as u64 {
                return Err(VmError::InvalidFileDescriptor(call.x0));
            }
            let count =
                #[verifier::truncate]
                (call.x2 as usize);
            Ok(
                ShimStep::ReadMemory {
                    address: call.x1,
                    length: count,
                    then: MemoryWait::Write { descriptor: call.x0, count },
                },
            )
        },
        ShimKind::Close => {
            if call.x0 >= state.open_files.len() as u64 {
                return Err(VmError::InvalidFileDescriptor(call.x0));
            }
            let slot = call.x0 as usize;
            let was_open = state.open_files[slot];
            state.open_files.set(slot, false);
            if was_open {
                Ok(
                    ShimStep::Host {
                        call: HostCall::Close { descriptor: call.x0 },
                        then: HostWait::Close,
                    },
                )
            } else {
                Ok(finish(0))
            }
        },
        ShimKind::Gettimeofday => {
            if call.x1 != 0 {
                let mut message = String::from_str("gettimeofday tz pointer must be null, got 0x");
                let digits = u64_to_upper_hex(call.x1);
                message.append(digits.as_str());
                return Err(VmError::UnhandledImport(message));
            }
            Ok(ShimStep::Host { call: HostCall::CurrentTime, then: HostWait::Time { out: call.x0 } })
        },
        ShimKind::Errno => {
            let cell = ensure_errno_address(state)?;
            Ok(finish_after(cell.ops, cell.address))
        },
    }
}

/// What a shim does with the bytes of guest memory it waited for.
pub open spec fn memory_step(state: RuntimeState, wait: MemoryWait, bytes: Seq<u8>) -> Result<
    ShimStepView,
    VmErrorView,
> {
    match wait {
        MemoryWait::Strncpy { destination, length } => Ok(
            ShimStepView::Finish {
                ops: seq![
                    EmuOpView::WriteMemory {
                        address: destination,
                        data: strncpy_output(bytes, length),
                    },
                    EmuOpView::WriteRegister { register: Register::X(0), value: destination },
                ],
            },
        ),
        MemoryWait::Mkdir { path } => match c_string_text(bytes) {
            None => Err(VmErrorView::UnterminatedCString(path)),
            Some(text) => if text == allowed_directory() {
                Ok(
                    ShimStepView::Host {
                        call: HostCallView::CreateDirAll { path: text },
                        then: HostWait::Mkdir,
                    },
                )
            } else {
                refusal(state)
            },
        },
        MemoryWait::Chmod { path } => match c_string_text(bytes) {
            None => Err(VmErrorView::UnterminatedCString(path)),
            Some(text) => Ok(returning(0)),
        },
        MemoryWait::Lstat { path, out } => match c_string_text(bytes) {
            None => Err(VmErrorView::UnterminatedCString(path)),
            Some(text) => Ok(
                ShimStepView::Host {
                    call: HostCallView::StatPath { path: text },
                    then: HostWait::Stat { out },
                },
            ),
        },
        MemoryWait::Open { path, flags } => match c_string_text(bytes) {
            None => Err(VmErrorView::UnterminatedCString(path)),
            Some(text) => if text.len() == 0 {
                Err(VmErrorView::EmptyPath)
            } else if text != allowed_file() || !open_flags_allowed(flags) {
                refusal(state)
            } else {
                match open_mode(flags) {
                    None => refusal(state),
                    Some(mode) => Ok(
                        ShimStepView::Host {
                            call: HostCallView::Open {
                                path: text,
                                descriptor: state.open_files@.len() as u64,
                                mode,
                            },
                            then: HostWait::Open,
                        },
                    ),
                }
            },
        },
        MemoryWait::Write { descriptor, count } => if state.is_open(descriptor) {
            Ok(
                ShimStepView::Host {
                    call: HostCallView::Write { descriptor, data: bytes },
                    then: HostWait::Write { count },
                },
            )
        } else {
            Err(VmErrorView::InvalidFileDescriptor(descriptor))
        },
        MemoryWait::Dlopen { path } => match c_string_text(bytes) {
            None => Err(VmErrorView::UnterminatedCString(path)),
            Some(text) => match load_result(state, basename(text)) {
                Err(failure) => Err(failure),
                Ok((index, ops)) => Ok(returning_after(ops, (index + 1) as u64)),
            },
        },
        MemoryWait::Dlsym { handle, name } => match c_string_text(bytes) {
            None => Err(VmErrorView::UnterminatedCString(name)),
            Some(text) => {
                let library = handle.wrapping_sub(1) as usize;
                if library >= state.libraries().len() {
                    Err(VmErrorView::LibraryNotLoaded(library))
                } else {
                    match symbol_address(state.libraries()[library as int].symbols, text) {
                        Some(address) => Ok(returning(address)),
                        None => Err(
                            VmErrorView::SymbolNotFound {
                                library: state.libraries()[library as int].name,
                                symbol: text,
                            },
                        ),
                    }
                }
            },
        },
        MemoryWait::SystemProperty { name, value } => match c_string_text(bytes) {
            None => Err(VmErrorView::UnterminatedCString(name)),
            Some(text) => Ok(
                ShimStepView::Finish {
                    ops: seq![
                        EmuOpView::WriteMemory { address: value, data: property_value() },
                        EmuOpView::WriteRegister { register: Register::X(0), value: 13 },
                    ],
                },
            ),
        },
    }
}

/// How the step after a memory read leaves the state: a refused `mkdir` or
/// `open` sets errno, `dlopen` loads its library. Nothing else changes
/// anything.
pub open spec fn memory_state(
    before: RuntimeState,
    after: RuntimeState,
    wait: MemoryWait,
    bytes: Seq<u8>,
) -> bool {
    match wait {
        MemoryWait::Mkdir { path } => match c_string_text(bytes) {
            Some(text) => if text == allowed_directory() {
                after == before
            } else {
                errno_cell_kept(before, after)
            },
            None => after == before,
        },
        MemoryWait::Open { path, flags } => match c_string_text(bytes) {
            Some(text) => if text.len() != 0 && (text != allowed_file() || !open_flags_allowed(
                flags,
            ) || open_mode(flags) is None) {
                errno_cell_kept(before, after)
            } else {
                after == before
            },
            None => after == before,
        },
        MemoryWait::Dlopen { path } => match c_string_text(bytes) {
            Some(text) => load_state(before, after, basename(text)),
            None => after == before,
        },
        _ => after == before,
    }
}

/// Resumes a shim with the bytes of guest memory it asked for.
pub fn resume_with_memory(state: &mut RuntimeState, wait: MemoryWait, bytes: Vec<u8>) -> (r: Result<
    ShimStep,
    VmError,
>)
    requires
        old(state).wf(),
    ensures
        final(state).wf(),
        step_matches(r, memory_step(*old(state), wait, bytes@)),
        memory_state(*old(state), *final(state), wait, bytes@),
{
    match wait {
        MemoryWait::Strncpy { destination, length } => {
            let available = if bytes.len() < length {
                bytes.len()
            } else {
                length
            };
            let copied = match find_nul(bytes.as_slice()) {
                Some(end) => if end < available {
                    end
                } else {
                    available
                },
                None => available,
            };
            let output = padded_bytes(
                0,
                slice_subrange(bytes.as_slice(), 0, copied),
                available,
                0,
            );
            let mut ops: Vec<EmuOp> = Vec::new();
            ops.push(EmuOp::WriteMemory { address: destination, data: output });
            ops.push(EmuOp::WriteRegister { register: Register::X(0), value: destination });
            assert(ops_view(ops@) =~= seq![
                EmuOpView::WriteMemory {
                    address: destination,
                    data: strncpy_output(bytes@, length),
                },
                EmuOpView::WriteRegister { register: Register::X(0), value: destination },
            ]);
            Ok(ShimStep::Finish { ops })
        },
        MemoryWait::Mkdir { path } => {
            let text = read_c_string(bytes.as_slice(), path)?;
            if !str_equal(text.as_str(), "./anisette") {
                return refuse(state);
            }
            Ok(ShimStep::Host { call: HostCall::CreateDirAll { path: text }, then: HostWait::Mkdir })
        },
        MemoryWait::Chmod { path } => {
            let _text = read_c_string(bytes.as_slice(), path)?;
            Ok(finish(0))
        },
        MemoryWait::Lstat { path, out } => {
            let text = read_c_string(bytes.as_slice(), path)?;
            Ok(
                ShimStep::Host {
                    call: HostCall::StatPath { path: text },
                    then: HostWait::Stat { out },
                },
            )
        },
        MemoryWait::Open { path, flags } => {
            let text = read_c_string(bytes.as_slice(), path)?;
            if text.as_str().is_empty() {
                return Err(VmError::EmptyPath);
            }
            if !str_equal(text.as_str(), "./anisette/adi.pb") {
                return refuse(state);
            }
            if flags != O_NOFOLLOW && flags != (O_NOFOLLOW | O_CREAT | O_WRONLY) {
                return refuse(state);
            }
            let mode = match host_open_mode(flags) {
                Some(mode) => mode,
                None => {
                    return refuse(state);
                },
            };
            let descriptor = state.open_files.len() as u64;
            Ok(
                ShimStep::Host {
                    call: HostCall::Open { path: text, descriptor, mode },
                    then: HostWait::Open,
                },
            )
        },
        MemoryWait::Write { descriptor, count } => {
            if !descriptor_is_open(state, descriptor) {
                return Err(VmError::InvalidFileDescriptor(descriptor));
            }
            Ok(
                ShimStep::Host {
                    call: HostCall::Write { descriptor, data: bytes },
                    then: HostWait::Write { count },
                },
            )
        },
        MemoryWait::Dlopen { path } => {
            let text = read_c_string(bytes.as_slice(), path)?;
            let library_name = path_basename(text.as_str());
            let loaded = load_library_by_name(state, library_name.as_str())?;
            assert(loaded.index < usize::MAX) by {
                assert(loaded.index < state.loaded_libraries.len());
            }
            Ok(finish_after(loaded.ops, (loaded.index + 1) as u64))
        },
        MemoryWait::Dlsym { handle, name } => {
            let text = read_c_string(bytes.as_slice(), name)?;
            let library =
                #[verifier::truncate]
                (handle.wrapping_sub(1) as usize);
            let address = resolve_symbol_from_loaded_library_by_name(
                state,
                library,
                text.as_str(),
            )?;
            Ok(finish(address))
        },
        MemoryWait::SystemProperty { name, value } => {
            let _text = read_c_string(bytes.as_slice(), name)?;
            let report: [u8; 13] = [
                0x6E,
                0x6F,
                0x20,
                0x73,
                0x2F,
                0x6E,
                0x20,
                0x6E,
                0x75,
                0x6D,
                0x62,
                0x65,
                0x72,
            ];
            let mut data: Vec<u8> = Vec::new();
            data.extend_from_slice(report.as_slice());
            assert forall|i: int| 0 <= i < 13 implies data@[i] == property_value()[i] by {
                assert(cloned::<u8>(report@[i], data@[i]));
            }
            assert(data@ =~= property_value());
            let mut ops: Vec<EmuOp> = Vec::new();
            ops.push(EmuOp::WriteMemory { address: value, data });
            ops.push(EmuOp::WriteRegister { register: Register::X(0), value: 13 });
            assert(ops_view(ops@) =~= seq![
                EmuOpView::WriteMemory { address: value, data: property_value() },
                EmuOpView::WriteRegister { register: Register::X(0), value: 13 },
            ]);
            Ok(ShimStep::Finish { ops })
        },
    }
}

/// What a shim does with the host's reply. A reply that is not the success
/// its call can have counts as the host's refusal; the clock cannot refuse,
/// and any other reply in its place counts as the epoch itself.
pub open spec fn host_step(state: RuntimeState, wait: HostWait, reply: HostReplyView) -> Result<
    ShimStepView,
    VmErrorView,
> {
    match wait {
        HostWait::Mkdir => match reply {
            HostReplyView::Done => Ok(returning(0)),
            _ => refusal(state),
        },
        HostWait::Stat { out } => match reply {
            HostReplyView::Metadata { mode, size } => Ok(
                ShimStepView::Finish {
                    ops: seq![
                        EmuOpView::WriteMemory { address: out, data: stat_layout(mode, size) },
                        EmuOpView::WriteRegister { register: Register::X(0), value: 0 },
                    ],
                },
            ),
            _ => refusal(state),
        },
        HostWait::Open => match reply {
            HostReplyView::Done => Ok(returning(state.open_files@.len() as u64)),
            _ => refusal(state),
        },
        HostWait::Ftruncate => match reply {
            HostReplyView::Done => Ok(returning(0)),
            _ => refusal(state),
        },
        HostWait::Read { buffer } => match reply {
            HostReplyView::Data(bytes) => Ok(
                ShimStepView::Finish {
                    ops: seq![
                        EmuOpView::WriteMemory { address: buffer, data: bytes },
                        EmuOpView::WriteRegister {
                            register: Register::X(0),
                            value: bytes.len() as u64,
                        },
                    ],
                },
            ),
            _ => refusal(state),
        },
        HostWait::Write { count } => match reply {
            HostReplyView::Done => Ok(returning(count as u64)),
            _ => refusal(state),
        },
        HostWait::Close => Ok(returning(0)),
        HostWait::Time { out } => {
            let (seconds, microseconds) = match reply {
                HostReplyView::Time { seconds, microseconds } => (seconds, microseconds),
                _ => (0u64, 0u32),
            };
            Ok(
                ShimStepView::Finish {
                    ops: seq![
                        EmuOpView::WriteMemory {
                            address: out,
                            data: timeval_layout(seconds, microseconds),
                        },
                        EmuOpView::WriteRegister { register: Register::X(0), value: 0 },
                    ],
                },
            )
        },
    }
}

/// Whether the host's reply is the success that the waiting shim can have.
pub open spec fn host_succeeded(wait: HostWait, reply: HostReplyView) -> bool {
    match wait {
        HostWait::Mkdir => reply is Done,
        HostWait::Stat { out } => reply is Metadata,
        HostWait::Open => reply is Done,
        HostWait::Ftruncate => reply is Done,
        HostWait::Read { buffer } => reply is Data,
        HostWait::Write { count } => reply is Done,
        HostWait::Close => true,
        HostWait::Time { out } => true,
    }
}

/// How the step after a host reply leaves the state: a file that was opened
/// gets the next descriptor, a refusal sets errno. Nothing else changes
/// anything.
pub open spec fn host_state(
    before: RuntimeState,
    after: RuntimeState,
    wait: HostWait,
    reply: HostReplyView,
) -> bool {
    if !host_succeeded(wait, reply) {
        errno_cell_kept(before, after)
    } else if wait is Open {
        &&& after.temp_allocator == before.temp_allocator
        &&& after.library_allocator == before.library_allocator
        &&& after.malloc_allocator == before.malloc_allocator
        &&& after.errno_address == before.errno_address
        &&& after.library_blobs == before.library_blobs
        &&& after.loaded_libraries == before.loaded_libraries
        &&& after.library_root == before.library_root
        &&& after.open_files@ == before.open_files@.push(true)
    } else {
        after == before
    }
}

/// Resumes a shim with the host's reply.
pub fn resume_with_host(state: &mut RuntimeState, wait: HostWait, reply: HostReply) -> (r: Result<
    ShimStep,
    VmError,
>)
    requires
        old(state).wf(),
    ensures
        final(state).wf(),
        step_matches(r, host_step(*old(state), wait, reply@)),
        host_state(*old(state), *final(state), wait, reply@),
{
    match wait {
        HostWait::Mkdir => match reply {
            HostReply::Done => Ok(finish(0)),
            _ => refuse(state),
        },
        HostWait::Stat { out } => match reply {
            HostReply::Metadata { mode, size } => {
                let data = build_python_stat_bytes(mode, size);
                let mut ops: Vec<EmuOp> = Vec::new();
                ops.push(EmuOp::WriteMemory { address: out, data });
                ops.push(EmuOp::WriteRegister { register: Register::X(0), value: 0 });
                assert(ops_view(ops@) =~= seq![
                    EmuOpView::WriteMemory { address: out, data: stat_layout(mode, size) },
                    EmuOpView::WriteRegister { register: Register::X(0), value: 0 },
                ]);
                Ok(ShimStep::Finish { ops })
            },
            _ => refuse(state),
        },
        HostWait::Open => match reply {
            HostReply::Done => {
                let descriptor = state.open_files.len() as u64;
                state.open_files.push(true);
                Ok(finish(descriptor))
            },
            _ => refuse(state),
        },
        HostWait::Ftruncate => match reply {
            HostReply::Done => Ok(finish(0)),
            _ => refuse(state),
        },
        HostWait::Read { buffer } => match reply {
            HostReply::Data(bytes) => {
                let count = bytes.len() as u64;
                let ghost read = bytes@;
                let mut ops: Vec<EmuOp> = Vec::new();
                ops.push(EmuOp::WriteMemory { address: buffer, data: bytes });
                ops.push(EmuOp::WriteRegister { register: Register::X(0), value: count });
                assert(ops_view(ops@) =~= seq![
                    EmuOpView::WriteMemory { address: buffer, data: read },
                    EmuOpView::WriteRegister { register: Register::X(0), value: count },
                ]);
                Ok(ShimStep::Finish { ops })
            },
            _ => refuse(state),
        },
        HostWait::Write { count } => match reply {
            HostReply::Done => Ok(finish(count as u64)),
            _ => refuse(state),
        },
        HostWait::Close => Ok(finish(0)),
        HostWait::Time { out } => {
            let (seconds, microseconds) = match reply {
                HostReply::Time { seconds, microseconds } => (seconds, microseconds),
                _ => (0u64, 0u32),
            };
            let data = timeval_bytes(seconds, microseconds);
            let mut ops: Vec<EmuOp> = Vec::new();
            ops.push(EmuOp::WriteMemory { address: out, data });
            ops.push(EmuOp::WriteRegister { register: Register::X(0), value: 0 });
            assert(ops_view(ops@) =~= seq![
                EmuOpView::WriteMemory {
                    address: out,
                    data: timeval_layout(seconds, microseconds),
                },
                EmuOpView::WriteRegister { register: Register::X(0), value: 0 },
            ]);
            Ok(ShimStep::Finish { ops })
        },
    }
}

} // verus!
