//! The machine's front end: its setup, guest buffers, the errno cell and
//! host-to-guest calls.

use vstd::prelude::*;
use vstd::bytes::{
    spec_u32_from_le_bytes, spec_u32_to_le_bytes, spec_u64_from_le_bytes, spec_u64_to_le_bytes,
    u32_from_le_bytes, u32_to_le_bytes, u64_from_le_bytes, u64_to_le_bytes,
};
use crate::allocator::{page_span, Allocator};
use crate::constants::{
    ret_aarch64, IMPORT_ADDRESS, IMPORT_LIBRARY_COUNT, IMPORT_LIBRARY_STRIDE, IMPORT_SIZE,
    MALLOC_ADDRESS, MALLOC_SIZE, MAX_CDECL_ARGS, PAGE_SIZE, RETURN_ADDRESS, STACK_ADDRESS,
    STACK_SIZE,
};
use crate::errors::{VmError, VmErrorView};
use crate::loader::{image_matches, load_library_by_name, load_result, load_state, LoadedImage};
use crate::ops::{
    lemma_ops_view_empty, lemma_ops_view_push, ops_view, EmuOp, EmuOpView, Register,
};
use crate::runtime::{resolve_symbol_from_loaded_library_by_name, symbol_address, RuntimeState};
use crate::text::{c_string_bytes, c_string_text, normalize_library_root, normalized_root, to_c_string};
use crate::util::{align_up, lemma_align_up_page, padded, padded_bytes};

verus! {

/// A buffer in guest memory: its address, and what the emulator must do for
/// the buffer to exist.
#[derive(Debug)]
pub struct TempBuffer {
    pub address: u64,
    pub ops: Vec<EmuOp>,
}

/// Whether a result is what a plan says: the same address and requests, or
/// the same failure.
pub open spec fn buffer_matches(
    r: Result<TempBuffer, VmError>,
    plan: Result<(u64, Seq<EmuOpView>), VmErrorView>,
) -> bool {
    match plan {
        Ok((address, ops)) => (r matches Ok(buffer) && buffer.address == address && ops_view(
            buffer.ops@,
        ) == ops),
        Err(failure) => (r matches Err(e) && e@ == failure),
    }
}

/// Whether a result is what a plan says: the same requests, or the same
/// failure.
pub open spec fn ops_match(
    r: Result<Vec<EmuOp>, VmError>,
    plan: Result<Seq<EmuOpView>, VmErrorView>,
) -> bool {
    match plan {
        Ok(planned) => (r matches Ok(ops) && ops_view(ops@) == planned),
        Err(failure) => (r matches Err(e) && e@ == failure),
    }
}

/// Bytes that a buffer for `length` bytes of payload takes: whole pages, at
/// least one.
pub open spec fn temp_span(length: nat) -> int {
    page_span(length as u64)
}

/// The size that an allocator reports when it cannot hold a buffer of
/// `length` bytes of payload.
pub open spec fn temp_request(length: nat) -> u64 {
    if temp_span(length) <= u64::MAX {
        temp_span(length) as u64
    } else {
        length as u64
    }
}

/// The buffer that `alloc_temp_bytes` makes for `data` out of `allocator`:
/// whole pages at the allocator's next address, mapped and then filled with
/// `data` and, behind it, with `fill`. It fails where the allocator has not
/// that much left, and where the pages do not fit a `usize`.
pub open spec fn temp_plan(allocator: Allocator, data: Seq<u8>, fill: u8) -> Result<
    (u64, Seq<EmuOpView>),
    VmErrorView,
> {
    let span = temp_span(data.len());
    if allocator.offset() + span > allocator.size() {
        Err(
            VmErrorView::AllocatorOom {
                base: allocator.base(),
                size: allocator.size(),
                request: temp_request(data.len()),
            },
        )
    } else if span > usize::MAX {
        Err(VmErrorView::IntegerOverflow(span as u64))
    } else {
        Ok(
            (
                allocator.next_address(),
                seq![
                    EmuOpView::MapMemory {
                        address: allocator.next_address(),
                        length: span as usize,
                        tolerate_mapped: false,
                    },
                    EmuOpView::WriteMemory {
                        address: allocator.next_address(),
                        data: padded(0, data, span, fill),
                    },
                ],
            ),
        )
    }
}

/// How an allocator stands after `alloc_temp_bytes` for `length` bytes of
/// payload: the pages are taken wherever the allocator could hold them.
pub open spec fn temp_taken(before: Allocator, after: Allocator, length: nat) -> bool {
    &&& after.base() == before.base()
    &&& after.size() == before.size()
    &&& if before.offset() + temp_span(length) > before.size() {
        after == before
    } else {
        after.offset() == before.offset() + temp_span(length)
    }
}

/// The allocator after `alloc_temp_bytes` for `length` bytes of payload.
pub open spec fn temp_after(allocator: Allocator, length: nat) -> Allocator {
    allocator.after_request(temp_request(length))
}

/// Reserves whole pages for `data` and plans their mapping and filling.
pub fn alloc_temp_bytes(allocator: &mut Allocator, data: &[u8], padding_byte: u8) -> (r: Result<
    TempBuffer,
    VmError,
>)
    requires
        old(allocator).wf(),
    ensures
        final(allocator).wf(),
        *final(allocator) == temp_after(*old(allocator), data@.len()),
        temp_taken(*old(allocator), *final(allocator), data@.len()),
        buffer_matches(r, temp_plan(*old(allocator), data@, padding_byte)),
{
    let request: u64 = if data.len() == 0 {
        1
    } else {
        data.len() as u64
    };
    let length: u64 = if request <= u64::MAX - (PAGE_SIZE - 1) {
        proof {
            lemma_align_up_page(request);
        }
        align_up(request, PAGE_SIZE)
    } else {
        request
    };
    let address = allocator.allocate(length)?;
    if length > usize::MAX as u64 {
        return Err(VmError::IntegerOverflow(length));
    }
    let buffer = padded_bytes(0, data, length as usize, padding_byte);
    let mut ops: Vec<EmuOp> = Vec::new();
    ops.push(EmuOp::MapMemory { address, length: length as usize, tolerate_mapped: false });
    ops.push(EmuOp::WriteMemory { address, data: buffer });
    assert(ops_view(ops@) =~= temp_plan(*old(allocator), data@, padding_byte)->Ok_0.1);
    Ok(TempBuffer { address, ops })
}

/// The four bytes of a fresh errno cell.
pub open spec fn errno_cell_bytes() -> Seq<u8> {
    seq![0u8, 0u8, 0u8, 0u8]
}

/// The address of the errno cell and what the emulator must do for the cell to
/// exist: nothing where the machine has one, else a fresh zero-filled buffer.
pub open spec fn errno_cell_plan(state: RuntimeState) -> Result<
    (u64, Seq<EmuOpView>),
    VmErrorView,
> {
    match state.errno_address {
        Some(address) => Ok((address, Seq::empty())),
        None => temp_plan(state.temp_allocator, errno_cell_bytes(), 0),
    }
}

/// How the state stands after the errno cell was asked for: a cell that was
/// made is remembered, and nothing else changes but the allocator it came
/// from.
pub open spec fn errno_cell_kept(before: RuntimeState, after: RuntimeState) -> bool {
    &&& after.library_allocator == before.library_allocator
    &&& after.malloc_allocator == before.malloc_allocator
    &&& after.library_blobs == before.library_blobs
    &&& after.loaded_libraries == before.loaded_libraries
    &&& after.open_files == before.open_files
    &&& after.library_root == before.library_root
    &&& match before.errno_address {
        Some(address) => after == before,
        None => {
            &&& temp_taken(before.temp_allocator, after.temp_allocator, 4)
            &&& after.errno_address == match errno_cell_plan(before) {
                Ok((address, _)) => Some(address),
                Err(_) => None,
            }
        },
    }
}

/// The address of the guest's errno cell; the cell is made on first use.
pub fn ensure_errno_address(state: &mut RuntimeState) -> (r: Result<TempBuffer, VmError>)
    requires
        old(state).wf(),
    ensures
        final(state).wf(),
        errno_cell_kept(*old(state), *final(state)),
        buffer_matches(r, errno_cell_plan(*old(state))),
{
    if let Some(address) = state.errno_address {
        proof {
            lemma_ops_view_empty();
        }
        return Ok(TempBuffer { address, ops: Vec::new() });
    }
    let zeros: [u8; 4] = [0, 0, 0, 0];
    assert(zeros@ =~= errno_cell_bytes());
    let cell = alloc_temp_bytes(&mut state.temp_allocator, zeros.as_slice(), 0)?;
    state.errno_address = Some(cell.address);
    Ok(cell)
}

/// The errno cell is made once: after the cell was asked for and could be
/// had, asking again gives the same address and nothing to do.
pub proof fn lemma_errno_cell_is_made_once(before: RuntimeState, after: RuntimeState)
    requires
        errno_cell_kept(before, after),
        errno_cell_plan(before) is Ok,
    ensures
        errno_cell_plan(after) == Ok::<(u64, Seq<EmuOpView>), VmErrorView>(
            (errno_cell_plan(before)->Ok_0.0, Seq::empty()),
        ),
{
}

/// What the emulator must do for errno to hold `value`: make the cell where
/// there is none, then write the value's four little-endian bytes.
pub open spec fn errno_plan(state: RuntimeState, value: u32) -> Result<
    Seq<EmuOpView>,
    VmErrorView,
> {
    match errno_cell_plan(state) {
        Ok((address, ops)) => Ok(
            ops.push(EmuOpView::WriteMemory { address, data: spec_u32_to_le_bytes(value) }),
        ),
        Err(failure) => Err(failure),
    }
}

/// Plans the writing of `value` to the guest's errno cell.
pub fn set_errno(state: &mut RuntimeState, value: u32) -> (r: Result<Vec<EmuOp>, VmError>)
    requires
        old(state).wf(),
    ensures
        final(state).wf(),
        errno_cell_kept(*old(state), *final(state)),
        ops_match(r, errno_plan(*old(state), value)),
{
    let cell = ensure_errno_address(state)?;
    let mut ops = cell.ops;
    let op = EmuOp::WriteMemory { address: cell.address, data: u32_to_le_bytes(value) };
    proof {
        lemma_ops_view_push(ops@, op);
    }
    ops.push(op);
    Ok(ops)
}

/// The guest's view of a host text: a zero-terminated copy in a fresh buffer.
pub fn alloc_c_string(allocator: &mut Allocator, value: &str) -> (r: Result<TempBuffer, VmError>)
    requires
        old(allocator).wf(),
    ensures
        final(allocator).wf(),
        *final(allocator) == temp_after(*old(allocator), c_string_bytes(value@).len()),
        temp_taken(*old(allocator), *final(allocator), c_string_bytes(value@).len()),
        buffer_matches(r, temp_plan(*old(allocator), c_string_bytes(value@), 0xCC)),
{
    let bytes = to_c_string(value);
    alloc_temp_bytes(allocator, bytes.as_slice(), 0xCC)
}

/// Reads the return value of a guest function as the C `int` that it is: the
/// low 32 bits of X0, signed.
pub open spec fn return_code(value: u64) -> i32 {
    value as u32 as i32
}

/// Takes the return value of the guest function `name` for a status: zero is
/// success, and anything else the function's failure.
pub fn ensure_zero_return(name: &'static str, value: u64) -> (r: Result<(), VmError>)
    ensures
        return_code(value) == 0 ==> r is Ok,
        return_code(value) != 0 ==> (r matches Err(e) && e@ == (VmErrorView::AdiCallFailed {
            name: name@,
            code: return_code(value),
        })),
{
    let code =
        #[verifier::truncate]
        ((
        #[verifier::truncate]
        (value as u32)) as i32);
    if code == 0 {
        Ok(())
    } else {
        Err(VmError::AdiCallFailed { name, code })
    }
}

/// The page of an import bank: the `ret` instruction, over and over.
pub open spec fn ret_page() -> Seq<u8> {
    Seq::new(IMPORT_SIZE as nat, |i: int| seq![0xC0u8, 0x03u8, 0x5Fu8, 0xD6u8][i % 4])
}

/// Address of the import bank of the image with ordinal `index`.
pub open spec fn import_bank(index: nat) -> u64 {
    (IMPORT_ADDRESS + index * IMPORT_LIBRARY_STRIDE) as u64
}

/// What sets up the import banks of the first `count` images: each bank is
/// mapped, filled with `ret` instructions and hooked to the import dispatcher.
pub open spec fn import_bank_setup(count: nat) -> Seq<EmuOpView>
    decreases count,
{
    if count == 0 {
        Seq::empty()
    } else {
        let bank = import_bank((count - 1) as nat);
        import_bank_setup((count - 1) as nat) + seq![
            EmuOpView::MapMemory {
                address: bank,
                length: IMPORT_SIZE as usize,
                tolerate_mapped: false,
            },
            EmuOpView::WriteMemory { address: bank, data: ret_page() },
            EmuOpView::HookImports { begin: bank, end: (bank + IMPORT_SIZE - 1) as u64 },
        ]
    }
}

/// What sets up a fresh machine: the page that calls return to, the arena of
/// `malloc`, the stack, the import banks, and the report of accesses to
/// unmapped memory.
pub open spec fn machine_setup() -> Seq<EmuOpView> {
    seq![
        EmuOpView::MapMemory {
            address: RETURN_ADDRESS,
            length: PAGE_SIZE as usize,
            tolerate_mapped: false,
        },
        EmuOpView::MapMemory {
            address: MALLOC_ADDRESS,
            length: MALLOC_SIZE as usize,
            tolerate_mapped: false,
        },
        EmuOpView::MapMemory {
            address: STACK_ADDRESS,
            length: STACK_SIZE as usize,
            tolerate_mapped: false,
        },
    ] + import_bank_setup(IMPORT_LIBRARY_COUNT as nat) + seq![EmuOpView::HookUnmapped]
}

/// What calls the guest function at `address` with `arguments`: the arguments
/// go to X0 and up, the stack pointer to the top of the stack, the link
/// register to the return address, and the guest runs from `address` until it
/// returns there. The function's result is then in X0.
pub open spec fn call_plan(address: u64, arguments: Seq<u64>) -> Seq<EmuOpView> {
    Seq::new(
        arguments.len(),
        |i: int| EmuOpView::WriteRegister { register: Register::X(i as u8), value: arguments[i] },
    ) + seq![
        EmuOpView::WriteRegister {
            register: Register::Sp,
            value: (STACK_ADDRESS + STACK_SIZE) as u64,
        },
        EmuOpView::WriteRegister { register: Register::Lr, value: RETURN_ADDRESS },
        EmuOpView::Start { begin: address, until: RETURN_ADDRESS },
    ]
}

/// The payload of a scratch buffer of `length` bytes: the byte 0xAA, at least
/// once.
pub open spec fn scratch_bytes(length: usize) -> Seq<u8> {
    Seq::new(
        if length == 0 {
            1
        } else {
            length as nat
        },
        |i: int| 0xAAu8,
    )
}

/// The state of one virtual machine and the operations on it. The machine
/// itself, a CPU emulator, is the caller's: every operation returns what the
/// emulator must do.
#[derive(Debug)]
pub struct EmuCore {
    pub state: RuntimeState,
    /// The failure of a shim during the guest call that is running, until the
    /// call's end reports it.
    pub pending_error: Option<VmError>,
}

impl EmuCore {
    pub open spec fn wf(&self) -> bool {
        self.state.wf()
    }

    /// A fresh machine and the emulator requests that set it up.
    pub fn new_arm64() -> (r: (Self, Vec<EmuOp>))
        ensures
            r.0.wf(),
            r.0.pending_error is None,
            r.0.state.has_fresh_allocators(),
            r.0.state.errno_address is None,
            r.0.state.library_blobs@.len() == 0,
            r.0.state.loaded_libraries@.len() == 0,
            r.0.state.open_files@.len() == 0,
            r.0.state.library_root is None,
            ops_view(r.1@) == machine_setup(),
    {
        let mut ops: Vec<EmuOp> = Vec::new();
        ops.push(
            EmuOp::MapMemory {
                address: RETURN_ADDRESS,
                length: PAGE_SIZE as usize,
                tolerate_mapped: false,
            },
        );
        ops.push(
            EmuOp::MapMemory {
                address: MALLOC_ADDRESS,
                length: MALLOC_SIZE as usize,
                tolerate_mapped: false,
            },
        );
        ops.push(
            EmuOp::MapMemory {
                address: STACK_ADDRESS,
                length: STACK_SIZE as usize,
                tolerate_mapped: false,
            },
        );
        let ghost head = ops_view(ops@);
        assert(head =~= seq![
            EmuOpView::MapMemory {
                address: RETURN_ADDRESS,
                length: PAGE_SIZE as usize,
                tolerate_mapped: false,
            },
            EmuOpView::MapMemory {
                address: MALLOC_ADDRESS,
                length: MALLOC_SIZE as usize,
                tolerate_mapped: false,
            },
            EmuOpView::MapMemory {
                address: STACK_ADDRESS,
                length: STACK_SIZE as usize,
                tolerate_mapped: false,
            },
        ]);
        let mut i: usize = 0;
        while i < IMPORT_LIBRARY_COUNT
            invariant
                i <= IMPORT_LIBRARY_COUNT,
                ops_view(ops@) == head + import_bank_setup(i as nat),
            decreases IMPORT_LIBRARY_COUNT - i,
        {
            let bank = IMPORT_ADDRESS + (i as u64) * IMPORT_LIBRARY_STRIDE;
            let code = ret_aarch64();
            let mut stubs: Vec<u8> = Vec::new();
            let mut filled: usize = 0;
            while filled < IMPORT_SIZE as usize
                invariant
                    filled <= IMPORT_SIZE,
                    filled % 4 == 0,
                    stubs@.len() == filled,
                    code@ == seq![0xC0u8, 0x03u8, 0x5Fu8, 0xD6u8],
                    forall|k: int| 0 <= k < filled ==> stubs@[k] == code@[k % 4],
                decreases IMPORT_SIZE - filled,
            {
                stubs.push(code[0]);
                stubs.push(code[1]);
                stubs.push(code[2]);
                stubs.push(code[3]);
                filled = filled + 4;
            }
            assert(stubs@ =~= ret_page());
            let ghost before = ops@;
            ops.push(
                EmuOp::MapMemory {
                    address: bank,
                    length: IMPORT_SIZE as usize,
                    tolerate_mapped: false,
                },
            );
            ops.push(EmuOp::WriteMemory { address: bank, data: stubs });
            ops.push(EmuOp::HookImports { begin: bank, end: bank + IMPORT_SIZE - 1 });
            assert(ops_view(ops@) =~= ops_view(before) + seq![
                EmuOpView::MapMemory {
                    address: bank,
                    length: IMPORT_SIZE as usize,
                    tolerate_mapped: false,
                },
                EmuOpView::WriteMemory { address: bank, data: ret_page() },
                EmuOpView::HookImports { begin: bank, end: (bank + IMPORT_SIZE - 1) as u64 },
            ]);
            assert(ops_view(ops@) =~= head + import_bank_setup((i + 1) as nat));
            i = i + 1;
        }
        let ghost banks = ops@;
        ops.push(EmuOp::HookUnmapped);
        assert(ops_view(ops@) =~= ops_view(banks) + seq![EmuOpView::HookUnmapped]);
        (Self { state: RuntimeState::new(), pending_error: None }, ops)
    }

    /// Registers the bytes of an ELF file under a name.
    pub fn register_library_blob(&mut self, name: &str, data: Vec<u8>)
        ensures
            final(self).state.blob(name@) == Some(data@),
            forall|other: Seq<char>|
                other != name@ ==> final(self).state.blob(other) == old(self).state.blob(other),
            final(self).state.temp_allocator == old(self).state.temp_allocator,
            final(self).state.library_allocator == old(self).state.library_allocator,
            final(self).state.malloc_allocator == old(self).state.malloc_allocator,
            final(self).state.errno_address == old(self).state.errno_address,
            final(self).state.loaded_libraries == old(self).state.loaded_libraries,
            final(self).state.open_files == old(self).state.open_files,
            final(self).state.library_root == old(self).state.library_root,
            final(self).pending_error == old(self).pending_error,
    {
        self.state.register_blob(name, data);
    }

    /// Remembers the directory that holds the libraries, in normal form. A
    /// path whose normal form is empty is ignored.
    pub fn set_library_root(&mut self, path: &str)
        ensures
            normalized_root(path@).len() == 0 ==> *final(self) == *old(self),
            normalized_root(path@).len() != 0 ==> (final(self).state.library_root matches Some(
                root,
            ) && root@ == normalized_root(path@)),
            final(self).state.temp_allocator == old(self).state.temp_allocator,
            final(self).state.library_allocator == old(self).state.library_allocator,
            final(self).state.malloc_allocator == old(self).state.malloc_allocator,
            final(self).state.errno_address == old(self).state.errno_address,
            final(self).state.library_blobs == old(self).state.library_blobs,
            final(self).state.loaded_libraries == old(self).state.loaded_libraries,
            final(self).state.open_files == old(self).state.open_files,
            final(self).pending_error == old(self).pending_error,
    {
        let normalized = normalize_library_root(path);
        if normalized.as_str().is_empty() {
            return ;
        }
        self.state.library_root = Some(normalized);
    }

    /// Loads the registered library of this name; see `load_library_by_name`.
    pub fn load_library(&mut self, library_name: &str) -> (r: Result<LoadedImage, VmError>)
        requires
            old(self).wf(),
        ensures
            final(self).wf(),
            image_matches(r, load_result(old(self).state, library_name@)),
            load_state(old(self).state, final(self).state, library_name@),
            r matches Ok(loaded) ==> final(self).state.library_index(library_name@) == Some(
                loaded.index as int,
            ),
            final(self).pending_error == old(self).pending_error,
    {
        load_library_by_name(&mut self.state, library_name)
    }

    /// The address of a symbol of a loaded image.
    pub fn resolve_symbol_by_name(&self, library_index: usize, symbol_name: &str) -> (r: Result<
        u64,
        VmError,
    >)
        ensures
            library_index >= self.state.libraries().len() ==> (r matches Err(e) && e@
                == VmErrorView::LibraryNotLoaded(library_index)),
            library_index < self.state.libraries().len() ==> match symbol_address(
                self.state.libraries()[library_index as int].symbols,
                symbol_name@,
            ) {
                Some(address) => (r matches Ok(a) && a == address),
                None => (r matches Err(e) && e@ == (VmErrorView::SymbolNotFound {
                    library: self.state.libraries()[library_index as int].name,
                    symbol: symbol_name@,
                })),
            },
    {
        resolve_symbol_from_loaded_library_by_name(&self.state, library_index, symbol_name)
    }

    /// Plans a call of the guest function at `address`. More than 29
    /// arguments fail, and nothing is asked of the emulator.
    pub fn invoke_cdecl(&self, address: u64, args: &[u64]) -> (r: Result<Vec<EmuOp>, VmError>)
        ensures
            args@.len() > MAX_CDECL_ARGS ==> (r matches Err(e) && e@
                == VmErrorView::TooManyArguments(args@.len() as usize)),
            args@.len() <= MAX_CDECL_ARGS ==> (r matches Ok(ops) && ops_view(ops@) == call_plan(
                address,
                args@,
            )),
    {
        if args.len() > MAX_CDECL_ARGS {
            return Err(VmError::TooManyArguments(args.len()));
        }
        let mut ops: Vec<EmuOp> = Vec::new();
        let mut i: usize = 0;
        while i < args.len()
            invariant
                i <= args@.len(),
                args@.len() <= MAX_CDECL_ARGS,
                ops@.len() == i,
                forall|k: int|
                    0 <= k < i ==> (#[trigger] ops@[k])@ == (EmuOpView::WriteRegister {
                        register: Register::X(k as u8),
                        value: args@[k],
                    }),
            decreases args.len() - i,
        {
            ops.push(EmuOp::WriteRegister { register: Register::X(i as u8), value: args[i] });
            i = i + 1;
        }
        ops.push(EmuOp::WriteRegister { register: Register::Sp, value: STACK_ADDRESS + STACK_SIZE });
        ops.push(EmuOp::WriteRegister { register: Register::Lr, value: RETURN_ADDRESS });
        ops.push(EmuOp::Start { begin: address, until: RETURN_ADDRESS });
        assert(ops_view(ops@) =~= call_plan(address, args@));
        Ok(ops)
    }

    /// Notes the failure of a shim; the guest is about to be stopped. Of
    /// several failures during one call the first is kept.
    pub fn record_failure(&mut self, error: VmError)
        ensures
            final(self).state == old(self).state,
            final(self).pending_error matches Some(kept) && kept@ == (match old(
                self,
            ).pending_error {
                Some(first) => first@,
                None => error@,
            }),
    {
        if self.pending_error.is_none() {
            self.pending_error = Some(error);
        }
    }

    /// Ends a guest call: the call's result is what X0 holds, unless a shim
    /// failed on the way; then the call fails as the shim did.
    pub fn finish_invoke(&mut self, x0: u64) -> (r: Result<u64, VmError>)
        ensures
            final(self).state == old(self).state,
            final(self).pending_error is None,
            match old(self).pending_error {
                Some(failure) => (r matches Err(e) && e@ == failure@),
                None => (r matches Ok(value) && value == x0),
            },
    {
        match self.pending_error.take() {
            Some(failure) => Err(failure),
            None => Ok(x0),
        }
    }

    /// Makes a fresh guest buffer that holds `data`, padded with 0xCC.
    pub fn alloc_data(&mut self, data: &[u8]) -> (r: Result<TempBuffer, VmError>)
        requires
            old(self).wf(),
        ensures
            final(self).wf(),
            final(self).state.temp_allocator == temp_after(
                old(self).state.temp_allocator,
                data@.len(),
            ),
            temp_taken(
                old(self).state.temp_allocator,
                final(self).state.temp_allocator,
                data@.len(),
            ),
            buffer_matches(r, temp_plan(old(self).state.temp_allocator, data@, 0xCC)),
            final(self).state.library_allocator == old(self).state.library_allocator,
            final(self).state.malloc_allocator == old(self).state.malloc_allocator,
            final(self).state.errno_address == old(self).state.errno_address,
            final(self).state.library_blobs == old(self).state.library_blobs,
            final(self).state.loaded_libraries == old(self).state.loaded_libraries,
            final(self).state.open_files == old(self).state.open_files,
            final(self).state.library_root == old(self).state.library_root,
            final(self).pending_error == old(self).pending_error,
    {
        alloc_temp_bytes(&mut self.state.temp_allocator, data, 0xCC)
    }

    /// Makes a fresh guest buffer for the guest to write `length` bytes to;
    /// every byte of it is 0xAA.
    pub fn alloc_temporary(&mut self, length: usize) -> (r: Result<TempBuffer, VmError>)
        requires
            old(self).wf(),
        ensures
            final(self).wf(),
            final(self).state.temp_allocator == temp_after(
                old(self).state.temp_allocator,
                scratch_bytes(length).len(),
            ),
            temp_taken(
                old(self).state.temp_allocator,
                final(self).state.temp_allocator,
                scratch_bytes(length).len(),
            ),
            buffer_matches(
                r,
                temp_plan(old(self).state.temp_allocator, scratch_bytes(length), 0xAA),
            ),
            final(self).state.library_allocator == old(self).state.library_allocator,
            final(self).state.malloc_allocator == old(self).state.malloc_allocator,
            final(self).state.errno_address == old(self).state.errno_address,
            final(self).state.library_blobs == old(self).state.library_blobs,
            final(self).state.loaded_libraries == old(self).state.loaded_libraries,
            final(self).state.open_files == old(self).state.open_files,
            final(self).state.library_root == old(self).state.library_root,
            final(self).pending_error == old(self).pending_error,
    {
        let count = if length == 0 {
            1
        } else {
            length
        };
        let data = padded_bytes(0, &[], count, 0xAA);
        assert(data@ =~= scratch_bytes(length));
        alloc_temp_bytes(&mut self.state.temp_allocator, data.as_slice(), 0xAA)
    }

    /// The request that writes `data` to guest memory.
    pub fn write_data(address: u64, data: &[u8]) -> (r: EmuOp)
        ensures
            r@ == (EmuOpView::WriteMemory { address, data: data@ }),
    {
        let buffer = padded_bytes(0, data, data.len(), 0);
        assert(buffer@ =~= data@);
        EmuOp::WriteMemory { address, data: buffer }
    }

    /// The request that writes a 32-bit value to guest memory, little-endian.
    pub fn write_u32(address: u64, value: u32) -> (r: EmuOp)
        ensures
            r@ == (EmuOpView::WriteMemory { address, data: spec_u32_to_le_bytes(value) }),
    {
        EmuOp::WriteMemory { address, data: u32_to_le_bytes(value) }
    }

    /// The request that writes a 64-bit value to guest memory, little-endian.
    pub fn write_u64(address: u64, value: u64) -> (r: EmuOp)
        ensures
            r@ == (EmuOpView::WriteMemory { address, data: spec_u64_to_le_bytes(value) }),
    {
        EmuOp::WriteMemory { address, data: u64_to_le_bytes(value) }
    }

    /// The 32-bit value that four bytes of guest memory hold, little-endian.
    pub fn read_u32(bytes: [u8; 4]) -> (r: u32)
        ensures
            r == spec_u32_from_le_bytes(bytes@),
    {
        u32_from_le_bytes(bytes.as_slice())
    }

    /// The 64-bit value that eight bytes of guest memory hold, little-endian.
    pub fn read_u64(bytes: [u8; 8]) -> (r: u64)
        ensures
            r == spec_u64_from_le_bytes(bytes@),
    {
        u64_from_le_bytes(bytes.as_slice())
    }

    /// The C string at the start of `bytes`, which were read from guest memory
    /// at `address`.
    pub fn read_c_string(bytes: &[u8], address: u64) -> (r: Result<String, VmError>)
        ensures
            match c_string_text(bytes@) {
                Some(text) => (r matches Ok(s) && s@ == text),
                None => (r matches Err(e) && e@ == VmErrorView::UnterminatedCString(address)),
            },
    {
        crate::text::read_c_string(bytes, address)
    }
}

} // verus!
