//! The import bank: from the address of a stub to the shim of its symbol, and
//! the byte layouts that the shims hand to the guest.

use vstd::prelude::*;
use vstd::bytes::{
    lemma_auto_spec_u32_to_from_le_bytes, lemma_auto_spec_u64_to_from_le_bytes,
    spec_u32_to_le_bytes, spec_u64_to_le_bytes, u32_to_le_bytes, u64_to_le_bytes,
};
use crate::constants::{IMPORT_ADDRESS, IMPORT_LIBRARY_STRIDE};
use crate::errors::{VmError, VmErrorView};
use crate::loader::import_slot;
use crate::runtime::{LoadedLibraryView, RuntimeState};
use crate::shim::{begin_shim, begin_state, begin_step, step_matches, GuestCall, ShimStep, ShimStepView};
use crate::text::str_equal;

verus! {

/// The host functions that stand in for the imports of the guest libraries.
#[derive(Debug, Clone, Copy, PartialEq, Eq, Structural)]
pub enum ShimKind {
    Malloc,
    /// `free`, `dlclose` and the `pthread_*` functions: they do nothing and
    /// return 0.
    ReturnZero,
    Strncpy,
    Mkdir,
    Umask,
    Chmod,
    Lstat,
    Fstat,
    Open,
    Ftruncate,
    Read,
    Write,
    Close,
    Dlopen,
    Dlsym,
    Gettimeofday,
    Errno,
    SystemPropertyGet,
    Arc4random,
}

/// The shim that answers calls of the import `name`.
pub open spec fn shim_for(name: Seq<char>) -> Option<ShimKind> {
    if name == "malloc"@ {
        Some(ShimKind::Malloc)
    } else if name == "free"@ {
        Some(ShimKind::ReturnZero)
    } else if name == "strncpy"@ {
        Some(ShimKind::Strncpy)
    } else if name == "mkdir"@ {
        Some(ShimKind::Mkdir)
    } else if name == "umask"@ {
        Some(ShimKind::Umask)
    } else if name == "chmod"@ {
        Some(ShimKind::Chmod)
    } else if name == "lstat"@ {
        Some(ShimKind::Lstat)
    } else if name == "fstat"@ {
        Some(ShimKind::Fstat)
    } else if name == "open"@ {
        Some(ShimKind::Open)
    } else if name == "ftruncate"@ {
        Some(ShimKind::Ftruncate)
    } else if name == "read"@ {
        Some(ShimKind::Read)
    } else if name == "write"@ {
        Some(ShimKind::Write)
    } else if name == "close"@ {
        Some(ShimKind::Close)
    } else if name == "dlopen"@ {
        Some(ShimKind::Dlopen)
    } else if name == "dlsym"@ {
        Some(ShimKind::Dlsym)
    } else if name == "dlclose"@ {
        Some(ShimKind::ReturnZero)
    } else if name == "pthread_once"@ {
        Some(ShimKind::ReturnZero)
    } else if name == "pthread_create"@ {
        Some(ShimKind::ReturnZero)
    } else if name == "pthread_mutex_lock"@ {
        Some(ShimKind::ReturnZero)
    } else if name == "pthread_rwlock_unlock"@ {
        Some(ShimKind::ReturnZero)
    } else if name == "pthread_rwlock_destroy"@ {
        Some(ShimKind::ReturnZero)
    } else if name == "pthread_rwlock_wrlock"@ {
        Some(ShimKind::ReturnZero)
    } else if name == "pthread_rwlock_init"@ {
        Some(ShimKind::ReturnZero)
    } else if name == "pthread_mutex_unlock"@ {
        Some(ShimKind::ReturnZero)
    } else if name == "pthread_rwlock_rdlock"@ {
        Some(ShimKind::ReturnZero)
    } else if name == "gettimeofday"@ {
        Some(ShimKind::Gettimeofday)
    } else if name == "__errno"@ {
        Some(ShimKind::Errno)
    } else if name == "__system_property_get"@ {
        Some(ShimKind::SystemPropertyGet)
    } else if name == "arc4random"@ {
        Some(ShimKind::Arc4random)
    } else {
        None
    }
}

/// Finds the shim of an import by the import's name.
pub fn shim_by_name(name: &str) -> (r: Option<ShimKind>)
    ensures
        r == shim_for(name@),
{
    if str_equal(name, "malloc") {
        Some(ShimKind::Malloc)
    } else if str_equal(name, "free") {
        Some(ShimKind::ReturnZero)
    } else if str_equal(name, "strncpy") {
        Some(ShimKind::Strncpy)
    } else if str_equal(name, "mkdir") {
        Some(ShimKind::Mkdir)
    } else if str_equal(name, "umask") {
        Some(ShimKind::Umask)
    } else if str_equal(name, "chmod") {
        Some(ShimKind::Chmod)
    } else if str_equal(name, "lstat") {
        Some(ShimKind::Lstat)
    } else if str_equal(name, "fstat") {
        Some(ShimKind::Fstat)
    } else if str_equal(name, "open") {
        Some(ShimKind::Open)
    } else if str_equal(name, "ftruncate") {
        Some(ShimKind::Ftruncate)
    } else if str_equal(name, "read") {
        Some(ShimKind::Read)
    } else if str_equal(name, "write") {
        Some(ShimKind::Write)
    } else if str_equal(name, "close") {
        Some(ShimKind::Close)
    } else if str_equal(name, "dlopen") {
        Some(ShimKind::Dlopen)
    } else if str_equal(name, "dlsym") {
        Some(ShimKind::Dlsym)
    } else if str_equal(name, "dlclose") {
        Some(ShimKind::ReturnZero)
    } else if str_equal(name, "pthread_once") {
        Some(ShimKind::ReturnZero)
    } else if str_equal(name, "pthread_create") {
        Some(ShimKind::ReturnZero)
    } else if str_equal(name, "pthread_mutex_lock") {
        Some(ShimKind::ReturnZero)
    } else if str_equal(name, "pthread_rwlock_unlock") {
        Some(ShimKind::ReturnZero)
    } else if str_equal(name, "pthread_rwlock_destroy") {
        Some(ShimKind::ReturnZero)
    } else if str_equal(name, "pthread_rwlock_wrlock") {
        Some(ShimKind::ReturnZero)
    } else if str_equal(name, "pthread_rwlock_init") {
        Some(ShimKind::ReturnZero)
    } else if str_equal(name, "pthread_mutex_unlock") {
        Some(ShimKind::ReturnZero)
    } else if str_equal(name, "pthread_rwlock_rdlock") {
        Some(ShimKind::ReturnZero)
    } else if str_equal(name, "gettimeofday") {
        Some(ShimKind::Gettimeofday)
    } else if str_equal(name, "__errno") {
        Some(ShimKind::Errno)
    } else if str_equal(name, "__system_property_get") {
        Some(ShimKind::SystemPropertyGet)
    } else if str_equal(name, "arc4random") {
        Some(ShimKind::Arc4random)
    } else {
        None
    }
}

/// The library and the symbol whose import stub lies at `address`: the bank
/// of library `k` starts at `IMPORT_ADDRESS + k * STRIDE`, and the stub of
/// symbol `i` lies `4 * i` bytes into it.
pub open spec fn import_target(address: u64) -> (int, int) {
    (
        (address - IMPORT_ADDRESS) / (IMPORT_LIBRARY_STRIDE as int),
        ((address - IMPORT_ADDRESS) % (IMPORT_LIBRARY_STRIDE as int)) / 4,
    )
}

/// The name of the import whose stub lies at `address`, or why there is none:
/// the address lies below the import bank, no image with this ordinal is
/// loaded, or the image has no symbol with this index.
pub open spec fn import_name(libraries: Seq<LoadedLibraryView>, address: u64) -> Result<
    Seq<char>,
    VmErrorView,
> {
    let (library, symbol) = import_target(address);
    if address < IMPORT_ADDRESS {
        Err(VmErrorView::InvalidImportAddress(address))
    } else if library >= libraries.len() || library > usize::MAX {
        Err(VmErrorView::LibraryNotLoaded(library as usize))
    } else if symbol >= libraries[library].symbols.len() || symbol > usize::MAX {
        Err(
            VmErrorView::SymbolIndexOutOfRange {
                library: libraries[library].name,
                index: symbol as usize,
            },
        )
    } else {
        Ok(libraries[library].symbols[symbol].name)
    }
}

/// Maps the address of an import stub back to the name of the import.
pub fn resolve_import(state: &RuntimeState, address: u64) -> (r: Result<String, VmError>)
    ensures
        match import_name(state.libraries(), address) {
            Ok(name) => (r matches Ok(found) && found@ == name),
            Err(failure) => (r matches Err(e) && e@ == failure),
        },
{
    if address < IMPORT_ADDRESS {
        return Err(VmError::InvalidImportAddress(address));
    }
    let offset = address - IMPORT_ADDRESS;
    let library_ordinal = offset / IMPORT_LIBRARY_STRIDE;
    let symbol_ordinal = (offset % IMPORT_LIBRARY_STRIDE) / 4;
    if library_ordinal > usize::MAX as u64 {
        return Err(VmError::LibraryNotLoaded(
            #[verifier::truncate]
            (library_ordinal as usize),
        ));
    }
    let library_index = library_ordinal as usize;
    if library_index >= state.loaded_libraries.len() {
        return Err(VmError::LibraryNotLoaded(library_index));
    }
    let library = &state.loaded_libraries[library_index];
    assert(state.libraries()[library_index as int] == library@);
    let symbol_index = symbol_ordinal as usize;
    if symbol_index >= library.symbols.len() {
        return Err(
            VmError::SymbolIndexOutOfRange { library: library.name.clone(), index: symbol_index },
        );
    }
    assert(library@.symbols[symbol_index as int] == library.symbols@[symbol_index as int]@);
    Ok(library.symbols[symbol_index].name.clone())
}

/// Dispatch by address is dispatch by symbol: the stub address that the loader
/// gives to symbol `symbol` of the image with ordinal `library` leads back to
/// the name of that symbol, as long as the stub lies inside the image's bank,
/// that is, `symbol` is below `STRIDE / 4`.
pub proof fn lemma_import_dispatch_identity(
    libraries: Seq<LoadedLibraryView>,
    library: usize,
    symbol: usize,
)
    requires
        library < libraries.len(),
        symbol < libraries[library as int].symbols.len(),
        symbol < IMPORT_LIBRARY_STRIDE / 4,
        IMPORT_ADDRESS + library * IMPORT_LIBRARY_STRIDE + symbol * 4 <= u64::MAX,
    ensures
        import_slot(library, symbol) == IMPORT_ADDRESS + library * IMPORT_LIBRARY_STRIDE + symbol
            * 4,
        import_target(import_slot(library, symbol)) == (library as int, symbol as int),
        import_name(libraries, import_slot(library, symbol)) == Ok::<Seq<char>, VmErrorView>(
            libraries[library as int].symbols[symbol as int].name,
        ),
{
    let stride = IMPORT_LIBRARY_STRIDE as int;
    let k = library as int;
    let i = symbol as int;
    assert((library as u64).wrapping_mul(IMPORT_LIBRARY_STRIDE) == k * stride) by {
        assert(k * stride <= u64::MAX) by (nonlinear_arith)
            requires
                IMPORT_ADDRESS + k * stride + i * 4 <= u64::MAX,
                i >= 0,
                stride == 0x0100_0000,
                k >= 0,
        ;
        assert((k * stride) % 0x1_0000_0000_0000_0000 == k * stride);
    }
    assert((symbol as u64).wrapping_mul(4) == i * 4);
    let offset = k * stride + i * 4;
    assert(import_slot(library, symbol) == IMPORT_ADDRESS + offset);
    assert(offset / stride == k && offset % stride == i * 4) by (nonlinear_arith)
        requires
            offset == k * stride + i * 4,
            0 <= i * 4 < stride,
            stride > 0,
            k >= 0,
    ;
}

/// `count` zero bytes.
pub open spec fn zeros(count: nat) -> Seq<u8> {
    Seq::new(count, |i: int| 0u8)
}

/// The 128 bytes of a `struct stat` of Linux on AArch64 that the stat shims
/// hand to the guest. Only the mode (at 16) and the size (at 48) come from the
/// host; the user id (at 24) is always 0x81A4 and the modification time (at
/// 88) always 0x0101_0000; everything else is zero.
pub open spec fn stat_layout(mode: u32, size: u64) -> Seq<u8> {
    zeros(16) + spec_u32_to_le_bytes(mode) + zeros(4) + seq![0xA4u8, 0x81u8, 0u8, 0u8] + zeros(20)
        + spec_u64_to_le_bytes(size) + zeros(32) + seq![0u8, 0u8, 1u8, 1u8, 0u8, 0u8, 0u8, 0u8]
        + zeros(32)
}

fn push_zeros(out: &mut Vec<u8>, count: usize)
    requires
        old(out)@.len() + count <= usize::MAX,
    ensures
        final(out)@ == old(out)@ + zeros(count as nat),
{
    let ghost before = out@;
    let length = out.len();
    out.resize(length + count, 0);
    assert forall|i: int| 0 <= i < length + count implies out@[i] == (before + zeros(
        count as nat,
    ))[i] by {
        if i < length {
            assert(out@.subrange(0, length as int)[i] == before[i]);
        } else {
            assert(cloned::<u8>(0, out@[i]));
        }
    }
    assert(out@ =~= before + zeros(count as nat));
}

fn push_bytes(out: &mut Vec<u8>, bytes: &[u8])
    ensures
        final(out)@ == old(out)@ + bytes@,
{
    let ghost before = out@;
    out.extend_from_slice(bytes);
    assert forall|i: int| 0 <= i < out@.len() implies out@[i] == (before + bytes@)[i] by {
        if i >= before.len() {
            assert(cloned::<u8>(bytes@[i - before.len()], out@[i]));
        }
    }
    assert(out@ =~= before + bytes@);
}

/// Lays out the `struct stat` of a file with this mode and size.
pub fn build_python_stat_bytes(mode: u32, size: u64) -> (r: Vec<u8>)
    ensures
        r@ == stat_layout(mode, size),
        r@.len() == 128,
        r@.subrange(16, 20) == spec_u32_to_le_bytes(mode),
        r@.subrange(20, 24) == zeros(4),
        r@.subrange(24, 28) == seq![0xA4u8, 0x81u8, 0u8, 0u8],
        r@.subrange(48, 56) == spec_u64_to_le_bytes(size),
{
    proof {
        lemma_auto_spec_u32_to_from_le_bytes();
        lemma_auto_spec_u64_to_from_le_bytes();
    }
    let mut stat: Vec<u8> = Vec::new();
    push_zeros(&mut stat, 16);
    let mode_bytes = u32_to_le_bytes(mode);
    push_bytes(&mut stat, mode_bytes.as_slice());
    push_zeros(&mut stat, 4);
    let uid: [u8; 4] = [0xA4, 0x81, 0x00, 0x00];
    push_bytes(&mut stat, uid.as_slice());
    push_zeros(&mut stat, 20);
    let size_bytes = u64_to_le_bytes(size);
    push_bytes(&mut stat, size_bytes.as_slice());
    push_zeros(&mut stat, 32);
    let mtime: [u8; 8] = [0x00, 0x00, 0x01, 0x01, 0x00, 0x00, 0x00, 0x00];
    push_bytes(&mut stat, mtime.as_slice());
    push_zeros(&mut stat, 32);
    assert(uid@ =~= seq![0xA4u8, 0x81u8, 0u8, 0u8]);
    assert(mtime@ =~= seq![0u8, 0u8, 1u8, 1u8, 0u8, 0u8, 0u8, 0u8]);
    assert(stat@ =~= stat_layout(mode, size));
    assert(stat@.subrange(16, 20) =~= spec_u32_to_le_bytes(mode));
    assert(stat@.subrange(20, 24) =~= zeros(4));
    assert(stat@.subrange(24, 28) =~= seq![0xA4u8, 0x81u8, 0u8, 0u8]);
    assert(stat@.subrange(48, 56) =~= spec_u64_to_le_bytes(size));
    stat
}

/// The sixteen bytes of a `struct timeval`: seconds, then microseconds, each
/// as eight little-endian bytes.
pub open spec fn timeval_layout(seconds: u64, microseconds: u32) -> Seq<u8> {
    spec_u64_to_le_bytes(seconds) + spec_u64_to_le_bytes(microseconds as u64)
}

/// Lays out a `struct timeval`.
pub fn timeval_bytes(seconds: u64, microseconds: u32) -> (r: Vec<u8>)
    ensures
        r@ == timeval_layout(seconds, microseconds),
        r@.len() == 16,
{
    proof {
        lemma_auto_spec_u64_to_from_le_bytes();
    }
    let mut out = u64_to_le_bytes(seconds);
    let fraction = u64_to_le_bytes(microseconds as u64);
    push_bytes(&mut out, fraction.as_slice());
    out
}

/// What `__system_property_get` reports for every property: the ASCII text
/// `no s/n number`.
pub open spec fn property_value() -> Seq<u8> {
    seq![
        0x6Eu8, 0x6Fu8, 0x20u8, 0x73u8, 0x2Fu8, 0x6Eu8, 0x20u8, 0x6Eu8, 0x75u8, 0x6Du8, 0x62u8,
        0x65u8, 0x72u8,
    ]
}

/// What a call of the import `name` does first: the first step of the shim
/// of that name. An import without a shim is a failure.
pub open spec fn named_step(state: RuntimeState, name: Seq<char>, call: GuestCall) -> Result<
    ShimStepView,
    VmErrorView,
> {
    match shim_for(name) {
        Some(kind) => begin_step(state, kind, call),
        None => Err(VmErrorView::UnhandledImport(name)),
    }
}

/// How a call of the import `name` leaves the state.
pub open spec fn named_state(
    before: RuntimeState,
    after: RuntimeState,
    name: Seq<char>,
    call: GuestCall,
) -> bool {
    match shim_for(name) {
        Some(kind) => begin_state(before, after, kind, call),
        None => after == before,
    }
}

/// Starts the shim of the import `symbol_name`.
pub fn handle_stub_by_name(state: &mut RuntimeState, symbol_name: &str, call: GuestCall) -> (r:
    Result<ShimStep, VmError>)
    requires
        old(state).wf(),
    ensures
        final(state).wf(),
        step_matches(r, named_step(*old(state), symbol_name@, call)),
        named_state(*old(state), *final(state), symbol_name@, call),
{
    match shim_by_name(symbol_name) {
        Some(kind) => begin_shim(state, kind, call),
        None => Err(VmError::UnhandledImport(symbol_name.to_owned())),
    }
}

/// Answers an instruction fetch in the import bank: finds the import whose
/// stub lies at `address` and starts its shim with the guest's argument
/// registers.
pub fn dispatch_import_stub(state: &mut RuntimeState, address: u64, call: GuestCall) -> (r: Result<
    ShimStep,
    VmError,
>)
    requires
        old(state).wf(),
    ensures
        final(state).wf(),
        match import_name(old(state).libraries(), address) {
            Ok(name) => {
                &&& step_matches(r, named_step(*old(state), name, call))
                &&& named_state(*old(state), *final(state), name, call)
            },
            Err(failure) => {
                &&& r matches Err(e)
                &&& e@ == failure
                &&& *final(state) == *old(state)
            },
        },
{
    let symbol_name = resolve_import(state, address)?;
    handle_stub_by_name(state, symbol_name.as_str(), call)
}

} // verus!
