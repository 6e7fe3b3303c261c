//! The requests that the layer makes of the CPU emulator, and what they do to
//! guest memory.

use vstd::prelude::*;

verus! {

/// A register of the guest CPU that the layer reads or writes.
#[derive(Debug, Clone, Copy, PartialEq, Eq, Structural)]
pub enum Register {
    /// General-purpose register X0 to X28, by number.
    X(u8),
    /// Stack pointer.
    Sp,
    /// Link register.
    Lr,
}

/// One request to the CPU emulator. The caller performs the requests of a list
/// in order and stops at the first one the emulator refuses.
#[derive(Debug)]
pub enum EmuOp {
    /// Map `length` bytes at `address`, readable, writable and executable.
    /// With `tolerate_mapped`, a refusal because the range is mapped already
    /// counts as success.
    MapMemory { address: u64, length: usize, tolerate_mapped: bool },
    /// Copy `data` into guest memory at `address`.
    WriteMemory { address: u64, data: Vec<u8> },
    /// Set a register.
    WriteRegister { register: Register, value: u64 },
    /// Route every instruction fetched in `begin..=end` to the import
    /// dispatcher.
    HookImports { begin: u64, end: u64 },
    /// Report every access to unmapped memory and let execution stop there.
    HookUnmapped,
    /// Run the guest from `begin` until it reaches `until`.
    Start { begin: u64, until: u64 },
}

/// An emulator request with its payload as a byte sequence.
pub enum EmuOpView {
    MapMemory { address: u64, length: usize, tolerate_mapped: bool },
    WriteMemory { address: u64, data: Seq<u8> },
    WriteRegister { register: Register, value: u64 },
    HookImports { begin: u64, end: u64 },
    HookUnmapped,
    Start { begin: u64, until: u64 },
}

impl View for EmuOp {
    type V = EmuOpView;

    open spec fn view(&self) -> EmuOpView {
        match self {
            EmuOp::MapMemory { address, length, tolerate_mapped } => EmuOpView::MapMemory {
                address: *address,
                length: *length,
                tolerate_mapped: *tolerate_mapped,
            },
            EmuOp::WriteMemory { address, data } => EmuOpView::WriteMemory {
                address: *address,
                data: data@,
            },
            EmuOp::WriteRegister { register, value } => EmuOpView::WriteRegister {
                register: *register,
                value: *value,
            },
            EmuOp::HookImports { begin, end } => EmuOpView::HookImports { begin: *begin, end: *end },
            EmuOp::HookUnmapped => EmuOpView::HookUnmapped,
            EmuOp::Start { begin, until } => EmuOpView::Start { begin: *begin, until: *until },
        }
    }
}

/// The requests of a list, each by its view.
pub open spec fn ops_view(ops: Seq<EmuOp>) -> Seq<EmuOpView> {
    ops.map_values(|op: EmuOp| op@)
}

pub proof fn lemma_ops_view_push(ops: Seq<EmuOp>, op: EmuOp)
    ensures
        ops_view(ops.push(op)) == ops_view(ops).push(op@),
{
    assert(ops_view(ops.push(op)) =~= ops_view(ops).push(op@));
}

pub proof fn lemma_ops_view_empty()
    ensures
        ops_view(Seq::<EmuOp>::empty()) == Seq::<EmuOpView>::empty(),
{
    assert(ops_view(Seq::<EmuOp>::empty()) =~= Seq::<EmuOpView>::empty());
}

/// Appends the requests of `more` to `ops`.
pub fn append_ops(ops: &mut Vec<EmuOp>, more: Vec<EmuOp>)
    ensures
        ops_view(final(ops)@) == ops_view(old(ops)@) + ops_view(more@),
{
    let mut more = more;
    let ghost before = ops@;
    let ghost added = more@;
    ops.append(&mut more);
    assert(ops_view(ops@) =~= ops_view(before) + ops_view(added));
}

/// Guest memory after a request that the emulator granted: a write puts its
/// bytes at its address, and no other request changes what memory holds.
/// Memory is a map from addresses to the bytes at them.
pub open spec fn memory_after_op(memory: Map<int, u8>, op: EmuOpView) -> Map<int, u8> {
    match op {
        EmuOpView::WriteMemory { address, data } => Map::new(
            |a: int| memory.dom().contains(a) || address <= a < address + data.len(),
            |a: int|
                if address <= a < address + data.len() {
                    data[a - address]
                } else {
                    memory[a]
                },
        ),
        _ => memory,
    }
}

/// Guest memory after the requests of a list, all granted, in order.
pub open spec fn memory_after(memory: Map<int, u8>, ops: Seq<EmuOpView>) -> Map<int, u8>
    decreases ops.len(),
{
    if ops.len() == 0 {
        memory
    } else {
        memory_after_op(memory_after(memory, ops.drop_last()), ops.last())
    }
}

/// The `length` bytes of guest memory at `address`.
pub open spec fn memory_bytes(memory: Map<int, u8>, address: int, length: nat) -> Seq<u8> {
    Seq::new(length, |i: int| memory[address + i])
}

/// What the last request of a list wrote is what memory holds there
/// afterwards.
pub proof fn lemma_last_write_is_read(
    memory: Map<int, u8>,
    ops: Seq<EmuOpView>,
    address: u64,
    data: Seq<u8>,
)
    requires
        ops.len() > 0,
        ops.last() == (EmuOpView::WriteMemory { address, data }),
    ensures
        memory_bytes(memory_after(memory, ops), address as int, data.len()) == data,
{
    assert(memory_bytes(memory_after(memory, ops), address as int, data.len()) =~= data);
}

} // verus!
