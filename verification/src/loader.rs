//! The ELF loader: where an image goes in the guest, what its symbols resolve
//! to, and what its segments and relocations ask of the emulator.

use vstd::prelude::*;
use vstd::bytes::{
    lemma_auto_spec_u64_to_from_le_bytes, spec_u64_from_le_bytes, spec_u64_to_le_bytes,
    u64_to_le_bytes,
};
use vstd::slice::slice_subrange;
use crate::allocator::page_span;
use crate::constants::{IMPORT_ADDRESS, IMPORT_LIBRARY_STRIDE, LIB_RESERVATION_SIZE, PAGE_SIZE};
use crate::elf::{
    parse_elf, parsed_elf, DynSymbol, DynSymbolView, ElfImage, ElfImageView, Relocation, Segment,
    symbols_view, PT_LOAD, R_AARCH64_ABS64, R_AARCH64_GLOB_DAT, R_AARCH64_JUMP_SLOT,
    R_AARCH64_NONE, R_AARCH64_RELATIVE, SHN_UNDEF,
};
use crate::errors::{VmError, VmErrorView};
use crate::ops::{
    append_ops, lemma_last_write_is_read, lemma_ops_view_empty, lemma_ops_view_push,
    memory_after, memory_bytes, ops_view, EmuOp, EmuOpView,
};
use crate::runtime::{
    first_named, index_of_name, lemma_index_of_name_found, lemma_index_of_name_range,
    library_names, library_views, symbol_views, LoadedLibrary, LoadedLibraryView, RuntimeState,
    SymbolEntry, SymbolEntryView,
};
use crate::util::{
    add_i64, add_i64_spec, align_down, align_down_spec, lemma_align_down_page, padded,
    padded_bytes,
};

verus! {

/// Address of the import stub of symbol `symbol_index` of the image with
/// ordinal `library_index`: `IMPORT_ADDRESS + library_index * STRIDE +
/// symbol_index * 4`, in 64-bit arithmetic.
pub open spec fn import_slot(library_index: usize, symbol_index: usize) -> u64 {
    IMPORT_ADDRESS.wrapping_add((library_index as u64).wrapping_mul(IMPORT_LIBRARY_STRIDE))
        .wrapping_add((symbol_index as u64).wrapping_mul(4))
}

/// The table entry of a dynamic symbol: an undefined symbol resolves to its
/// import stub, a defined one to its address in the image at `base`. A symbol
/// without a name gets the empty name.
pub open spec fn resolved_symbol(
    symbol: DynSymbolView,
    base: u64,
    library_index: usize,
    symbol_index: usize,
) -> SymbolEntryView {
    SymbolEntryView {
        name: match symbol.name {
            Some(name) => name,
            None => Seq::empty(),
        },
        resolved: if symbol.shndx == SHN_UNDEF {
            import_slot(library_index, symbol_index)
        } else {
            base.wrapping_add(symbol.value)
        },
    }
}

/// The symbol table of an image loaded at `base` as the image with ordinal
/// `library_index`.
pub open spec fn resolved_symbols(
    symbols: Seq<DynSymbolView>,
    base: u64,
    library_index: usize,
) -> Seq<SymbolEntryView> {
    Seq::new(
        symbols.len(),
        |i: int| resolved_symbol(symbols[i], base, library_index, i as usize),
    )
}

/// Address of a segment in the guest.
pub open spec fn segment_address(base: u64, segment: Segment) -> u64 {
    base.wrapping_add(segment.vaddr)
}

/// First address of the pages that hold a segment.
pub open spec fn segment_map_start(base: u64, segment: Segment) -> u64 {
    align_down_spec(segment_address(base, segment), PAGE_SIZE)
}

/// End of the pages that hold a segment: the end of the segment rounded up to
/// a page, in 64-bit arithmetic.
pub open spec fn segment_map_end(base: u64, segment: Segment) -> u64 {
    segment_address(base, segment).wrapping_add(segment.memsz).wrapping_add(0xFFF) & !0xFFFu64
}

/// Length of the pages that hold a segment; 0 where the end lies below the
/// start.
pub open spec fn segment_map_length(base: u64, segment: Segment) -> u64 {
    if segment_map_end(base, segment) >= segment_map_start(base, segment) {
        (segment_map_end(base, segment) - segment_map_start(base, segment)) as u64
    } else {
        0
    }
}

/// Whether the loader maps a segment: it is loadable and takes memory.
pub open spec fn segment_is_loaded(base: u64, segment: Segment) -> bool {
    &&& segment_map_length(base, segment) != 0
    &&& segment.kind == PT_LOAD
    &&& segment.memsz != 0
}

/// Why a segment cannot be loaded, if it cannot: its pages do not fit a
/// `usize`, its bytes do not lie inside the file, or they do not fit the pages.
pub open spec fn segment_failure(base: u64, segment: Segment, file_length: nat) -> Option<
    VmErrorView,
> {
    if !segment_is_loaded(base, segment) {
        None
    } else if segment_map_length(base, segment) > usize::MAX {
        Some(VmErrorView::IntegerOverflow(segment_map_length(base, segment)))
    } else if segment.offset + segment.filesz > file_length {
        Some(VmErrorView::InvalidElfRange)
    } else if segment.filesz > 0 && segment_address(base, segment) - segment_map_start(
        base,
        segment,
    ) + segment.filesz > segment_map_length(base, segment) {
        Some(VmErrorView::InvalidElfRange)
    } else {
        None
    }
}

/// What the pages of a segment hold after loading: the segment's bytes of the
/// file at the segment's address, and zero everywhere else.
pub open spec fn segment_bytes(base: u64, segment: Segment, data: Seq<u8>) -> Seq<u8> {
    padded(
        segment_address(base, segment) - segment_map_start(base, segment),
        data.subrange(segment.offset as int, segment.offset + segment.filesz),
        segment_map_length(base, segment) as int,
        0,
    )
}

/// The emulator requests that load a segment: map its pages, tolerating pages
/// that an earlier segment mapped, and fill them.
pub open spec fn segment_ops(base: u64, segment: Segment, data: Seq<u8>) -> Seq<EmuOpView> {
    if segment_is_loaded(base, segment) {
        seq![
            EmuOpView::MapMemory {
                address: segment_map_start(base, segment),
                length: segment_map_length(base, segment) as usize,
                tolerate_mapped: true,
            },
            EmuOpView::WriteMemory {
                address: segment_map_start(base, segment),
                data: segment_bytes(base, segment, data),
            },
        ]
    } else {
        Seq::empty()
    }
}

/// The requests that load the first `count` segments, or the failure of the
/// first segment among them that cannot be loaded.
pub open spec fn segments_plan(base: u64, segments: Seq<Segment>, data: Seq<u8>, count: nat) -> Result<
    Seq<EmuOpView>,
    VmErrorView,
>
    decreases count,
{
    if count == 0 {
        Ok(Seq::empty())
    } else {
        match segments_plan(base, segments, data, (count - 1) as nat) {
            Err(e) => Err(e),
            Ok(ops) => match segment_failure(base, segments[count - 1], data.len()) {
                Some(e) => Err(e),
                None => Ok(ops + segment_ops(base, segments[count - 1], data)),
            },
        }
    }
}

/// The addend of a relocation; 0 where it has none.
pub open spec fn relocation_addend(relocation: Relocation) -> i64 {
    match relocation.addend {
        Some(addend) => addend,
        None => 0,
    }
}

/// The value that a relocation writes, given the address of its symbol:
/// `ABS64` and `GLOB_DAT` write symbol plus addend, `JUMP_SLOT` writes the
/// symbol, `RELATIVE` writes base plus addend. No other type has a value.
pub open spec fn relocation_value(base: u64, relocation: Relocation, symbol: u64) -> Option<u64> {
    if relocation.kind == R_AARCH64_ABS64 || relocation.kind == R_AARCH64_GLOB_DAT {
        Some(add_i64_spec(symbol, relocation_addend(relocation)))
    } else if relocation.kind == R_AARCH64_JUMP_SLOT {
        Some(symbol)
    } else if relocation.kind == R_AARCH64_RELATIVE {
        Some(add_i64_spec(base, relocation_addend(relocation)))
    } else {
        None
    }
}

/// What a relocation asks of the emulator: nothing for type 0, else one write
/// of eight little-endian bytes at `base + offset`. It fails where its symbol
/// index lies outside the table or its type is not supported.
pub open spec fn relocation_plan(
    base: u64,
    relocation: Relocation,
    library: Seq<char>,
    symbols: Seq<SymbolEntryView>,
) -> Result<Option<EmuOpView>, VmErrorView> {
    if relocation.kind == R_AARCH64_NONE {
        Ok(None)
    } else if relocation.symbol >= symbols.len() {
        Err(VmErrorView::SymbolIndexOutOfRange { library, index: relocation.symbol })
    } else {
        match relocation_value(base, relocation, symbols[relocation.symbol as int].resolved) {
            Some(value) => Ok(
                Some(
                    EmuOpView::WriteMemory {
                        address: base.wrapping_add(relocation.offset),
                        data: spec_u64_to_le_bytes(value),
                    },
                ),
            ),
            None => Err(VmErrorView::UnsupportedRelocation(relocation.kind)),
        }
    }
}

/// The requests of the first `count` relocations, or the failure of the first
/// one among them that fails.
pub open spec fn relocations_plan(
    base: u64,
    relocations: Seq<Relocation>,
    library: Seq<char>,
    symbols: Seq<SymbolEntryView>,
    count: nat,
) -> Result<Seq<EmuOpView>, VmErrorView>
    decreases count,
{
    if count == 0 {
        Ok(Seq::empty())
    } else {
        match relocations_plan(base, relocations, library, symbols, (count - 1) as nat) {
            Err(e) => Err(e),
            Ok(ops) => match relocation_plan(base, relocations[count - 1], library, symbols) {
                Err(e) => Err(e),
                Ok(Some(op)) => Ok(ops.push(op)),
                Ok(None) => Ok(ops),
            },
        }
    }
}

/// Everything that loading an image at `base` asks of the emulator, in order:
/// its segments, its dynamic relocations, the relocations of its procedure
/// linkage table. The first failure on the way is the failure of the whole.
pub open spec fn image_plan(
    base: u64,
    image: ElfImageView,
    data: Seq<u8>,
    library: Seq<char>,
    library_index: usize,
) -> Result<Seq<EmuOpView>, VmErrorView> {
    let symbols = resolved_symbols(image.symbols, base, library_index);
    match segments_plan(base, image.segments, data, image.segments.len()) {
        Err(e) => Err(e),
        Ok(mapped) => match relocations_plan(
            base,
            image.relocations,
            library,
            symbols,
            image.relocations.len(),
        ) {
            Err(e) => Err(e),
            Ok(patched) => match relocations_plan(
                base,
                image.plt_relocations,
                library,
                symbols,
                image.plt_relocations.len(),
            ) {
                Err(e) => Err(e),
                Ok(linked) => Ok(mapped + patched + linked),
            },
        },
    }
}

/// Computes the address of an import stub.
pub fn import_slot_address(library_index: usize, symbol_index: usize) -> (r: u64)
    ensures
        r == import_slot(library_index, symbol_index),
{
    IMPORT_ADDRESS.wrapping_add((library_index as u64).wrapping_mul(IMPORT_LIBRARY_STRIDE))
        .wrapping_add((symbol_index as u64).wrapping_mul(4))
}

/// Builds the symbol table of an image loaded at `base`.
pub fn resolve_symbols(symbols: &Vec<DynSymbol>, base: u64, library_index: usize) -> (r: Vec<
    SymbolEntry,
>)
    ensures
        symbol_views(r@) == resolved_symbols(symbols_view(symbols@), base, library_index),
{
    let mut table: Vec<SymbolEntry> = Vec::new();
    let mut i: usize = 0;
    while i < symbols.len()
        invariant
            i <= symbols@.len(),
            table@.len() == i,
            forall|j: int|
                0 <= j < i ==> (#[trigger] table@[j])@ == resolved_symbol(
                    symbols@[j]@,
                    base,
                    library_index,
                    j as usize,
                ),
        decreases symbols.len() - i,
    {
        let symbol = &symbols[i];
        let name = match &symbol.name {
            Some(name) => name.clone(),
            None => String::new(),
        };
        let resolved = if symbol.shndx == SHN_UNDEF {
            import_slot_address(library_index, i)
        } else {
            base.wrapping_add(symbol.value)
        };
        table.push(SymbolEntry { name, resolved });
        i = i + 1;
    }
    assert(symbol_views(table@) =~= resolved_symbols(
        symbols_view(symbols@),
        base,
        library_index,
    ));
    table
}

/// Plans the loading of one segment of an image at `base`; `data` is the ELF
/// file.
pub fn plan_segment(base: u64, segment: &Segment, data: &[u8]) -> (r: Result<Vec<EmuOp>, VmError>)
    ensures
        match segment_failure(base, *segment, data@.len()) {
            Some(failure) => (r matches Err(e) && e@ == failure),
            None => (r matches Ok(ops) && ops_view(ops@) == segment_ops(base, *segment, data@)),
        },
{
    let address = base.wrapping_add(segment.vaddr);
    let start = align_down(address, PAGE_SIZE);
    let end = address.wrapping_add(segment.memsz).wrapping_add(0xFFF) & !0xFFFu64;
    let length = end.saturating_sub(start);
    proof {
        lemma_align_down_page(address);
        lemma_ops_view_empty();
    }
    if length == 0 || segment.kind != PT_LOAD || segment.memsz == 0 {
        return Ok(Vec::new());
    }
    if length > usize::MAX as u64 {
        return Err(VmError::IntegerOverflow(length));
    }
    let file_length = data.len() as u64;
    if segment.offset > file_length || segment.filesz > file_length - segment.offset {
        return Err(VmError::InvalidElfRange);
    }
    let lead = address - start;
    if segment.filesz > 0 && (lead > length || segment.filesz > length - lead) {
        return Err(VmError::InvalidElfRange);
    }
    let body = slice_subrange(
        data,
        segment.offset as usize,
        (segment.offset + segment.filesz) as usize,
    );
    let bytes = if segment.filesz > 0 {
        padded_bytes(lead as usize, body, length as usize, 0)
    } else {
        let filled = padded_bytes(0, body, length as usize, 0);
        assert(filled@ =~= segment_bytes(base, *segment, data@));
        filled
    };
    let mut ops: Vec<EmuOp> = Vec::new();
    ops.push(EmuOp::MapMemory { address: start, length: length as usize, tolerate_mapped: true });
    ops.push(EmuOp::WriteMemory { address: start, data: bytes });
    assert(ops_view(ops@) =~= segment_ops(base, *segment, data@));
    Ok(ops)
}

/// Plans one relocation of an image at `base`, given the image's symbol table.
pub fn apply_relocation(
    base: u64,
    relocation: &Relocation,
    library_name: &str,
    symbols: &Vec<SymbolEntry>,
) -> (r: Result<Option<EmuOp>, VmError>)
    ensures
        match relocation_plan(base, *relocation, library_name@, symbol_views(symbols@)) {
            Ok(Some(op)) => (r matches Ok(Some(planned)) && planned@ == op),
            Ok(None) => r matches Ok(None),
            Err(failure) => (r matches Err(e) && e@ == failure),
        },
{
    if relocation.kind == R_AARCH64_NONE {
        return Ok(None);
    }
    let address = base.wrapping_add(relocation.offset);
    let addend: i64 = match relocation.addend {
        Some(addend) => addend,
        None => 0,
    };
    if relocation.symbol >= symbols.len() {
        return Err(
            VmError::SymbolIndexOutOfRange {
                library: library_name.to_owned(),
                index: relocation.symbol,
            },
        );
    }
    let symbol = symbols[relocation.symbol].resolved;
    assert(symbol == symbol_views(symbols@)[relocation.symbol as int].resolved);
    let value = if relocation.kind == R_AARCH64_ABS64 || relocation.kind == R_AARCH64_GLOB_DAT {
        add_i64(symbol, addend)
    } else if relocation.kind == R_AARCH64_JUMP_SLOT {
        symbol
    } else if relocation.kind == R_AARCH64_RELATIVE {
        add_i64(base, addend)
    } else {
        return Err(VmError::UnsupportedRelocation(relocation.kind));
    };
    Ok(Some(EmuOp::WriteMemory { address, data: u64_to_le_bytes(value) }))
}

/// A failure among the first relocations is the failure of every longer run.
proof fn lemma_relocations_plan_fails(
    base: u64,
    relocations: Seq<Relocation>,
    library: Seq<char>,
    symbols: Seq<SymbolEntryView>,
    count: nat,
    longer: nat,
)
    requires
        count <= longer,
        relocations_plan(base, relocations, library, symbols, count) is Err,
    ensures
        relocations_plan(base, relocations, library, symbols, longer) == relocations_plan(
            base,
            relocations,
            library,
            symbols,
            count,
        ),
    decreases longer,
{
    if count < longer {
        lemma_relocations_plan_fails(
            base,
            relocations,
            library,
            symbols,
            count,
            (longer - 1) as nat,
        );
    }
}

/// A failure among the first segments is the failure of every longer run.
proof fn lemma_segments_plan_fails(
    base: u64,
    segments: Seq<Segment>,
    data: Seq<u8>,
    count: nat,
    longer: nat,
)
    requires
        count <= longer,
        segments_plan(base, segments, data, count) is Err,
    ensures
        segments_plan(base, segments, data, longer) == segments_plan(base, segments, data, count),
    decreases longer,
{
    if count < longer {
        lemma_segments_plan_fails(base, segments, data, count, (longer - 1) as nat);
    }
}

/// Plans the loading of all segments of an image at `base`.
pub fn plan_segments(base: u64, segments: &Vec<Segment>, data: &[u8]) -> (r: Result<
    Vec<EmuOp>,
    VmError,
>)
    ensures
        match segments_plan(base, segments@, data@, segments@.len()) {
            Ok(planned) => (r matches Ok(ops) && ops_view(ops@) == planned),
            Err(failure) => (r matches Err(e) && e@ == failure),
        },
{
    let mut ops: Vec<EmuOp> = Vec::new();
    let mut i: usize = 0;
    proof {
        lemma_ops_view_empty();
    }
    while i < segments.len()
        invariant
            i <= segments@.len(),
            segments_plan(base, segments@, data@, i as nat) == Ok::<Seq<EmuOpView>, VmErrorView>(
                ops_view(ops@),
            ),
        decreases segments.len() - i,
    {
        match plan_segment(base, &segments[i], data) {
            Ok(more) => {
                append_ops(&mut ops, more);
            },
            Err(e) => {
                proof {
                    lemma_segments_plan_fails(
                        base,
                        segments@,
                        data@,
                        (i + 1) as nat,
                        segments@.len(),
                    );
                }
                return Err(e);
            },
        }
        i = i + 1;
    }
    Ok(ops)
}

/// Plans all relocations of a table of an image at `base`.
pub fn plan_relocations(
    base: u64,
    relocations: &Vec<Relocation>,
    library_name: &str,
    symbols: &Vec<SymbolEntry>,
) -> (r: Result<Vec<EmuOp>, VmError>)
    ensures
        match relocations_plan(
            base,
            relocations@,
            library_name@,
            symbol_views(symbols@),
            relocations@.len(),
        ) {
            Ok(planned) => (r matches Ok(ops) && ops_view(ops@) == planned),
            Err(failure) => (r matches Err(e) && e@ == failure),
        },
{
    let mut ops: Vec<EmuOp> = Vec::new();
    let mut i: usize = 0;
    proof {
        lemma_ops_view_empty();
    }
    while i < relocations.len()
        invariant
            i <= relocations@.len(),
            relocations_plan(base, relocations@, library_name@, symbol_views(symbols@), i as nat)
                == Ok::<Seq<EmuOpView>, VmErrorView>(ops_view(ops@)),
        decreases relocations.len() - i,
    {
        match apply_relocation(base, &relocations[i], library_name, symbols) {
            Ok(Some(op)) => {
                proof {
                    lemma_ops_view_push(ops@, op);
                }
                ops.push(op);
            },
            Ok(None) => {},
            Err(e) => {
                proof {
                    lemma_relocations_plan_fails(
                        base,
                        relocations@,
                        library_name@,
                        symbol_views(symbols@),
                        (i + 1) as nat,
                        relocations@.len(),
                    );
                }
                return Err(e);
            },
        }
        i = i + 1;
    }
    Ok(ops)
}

/// A loaded image: its ordinal, and what the emulator must do for it to be in
/// guest memory. An image that was loaded before asks for nothing.
#[derive(Debug)]
pub struct LoadedImage {
    pub index: usize,
    pub ops: Vec<EmuOp>,
}

/// Whether a result is what a plan says: the same ordinal and requests, or the
/// same failure.
pub open spec fn image_matches(
    r: Result<LoadedImage, VmError>,
    plan: Result<(usize, Seq<EmuOpView>), VmErrorView>,
) -> bool {
    match plan {
        Ok((index, ops)) => (r matches Ok(loaded) && loaded.index == index && ops_view(
            loaded.ops@,
        ) == ops),
        Err(failure) => (r matches Err(e) && e@ == failure),
    }
}

/// What placing the parsed image `image` of the file `data` under the name
/// `name` returns: the next ordinal and the plan of the image at the library
/// allocator's next address. It fails where the allocator has no reservation
/// left, and where the plan fails.
pub open spec fn install_result(
    before: RuntimeState,
    name: Seq<char>,
    image: ElfImageView,
    data: Seq<u8>,
) -> Result<(usize, Seq<EmuOpView>), VmErrorView> {
    let allocator = before.library_allocator;
    let index = before.loaded_libraries.len();
    if allocator.offset() + page_span(LIB_RESERVATION_SIZE) > allocator.size() {
        Err(
            VmErrorView::AllocatorOom {
                base: allocator.base(),
                size: allocator.size(),
                request: LIB_RESERVATION_SIZE,
            },
        )
    } else {
        match image_plan(allocator.next_address(), image, data, name, index) {
            Err(failure) => Err(failure),
            Ok(planned) => Ok((index, planned)),
        }
    }
}

/// How placing an image leaves the state. Without a reservation nothing
/// changes. Else the reservation is taken, also where the image then fails to
/// load. Where it loads, its record is appended to the loaded images: its name,
/// and its symbols resolved against the reservation's address and the new
/// ordinal.
pub open spec fn install_state(
    before: RuntimeState,
    after: RuntimeState,
    name: Seq<char>,
    image: ElfImageView,
    data: Seq<u8>,
) -> bool {
    let allocator = before.library_allocator;
    let index = before.loaded_libraries.len();
    &&& after.temp_allocator == before.temp_allocator
    &&& after.malloc_allocator == before.malloc_allocator
    &&& after.errno_address == before.errno_address
    &&& after.library_blobs == before.library_blobs
    &&& after.open_files == before.open_files
    &&& after.library_root == before.library_root
    &&& after.library_allocator.base() == allocator.base()
    &&& after.library_allocator.size() == allocator.size()
    &&& if allocator.offset() + page_span(LIB_RESERVATION_SIZE) > allocator.size() {
        after == before
    } else {
        &&& after.library_allocator.offset() == allocator.offset() + page_span(
            LIB_RESERVATION_SIZE,
        )
        &&& if install_result(before, name, image, data) is Ok {
            after.libraries() == before.libraries().push(
                LoadedLibraryView {
                    name,
                    symbols: resolved_symbols(image.symbols, allocator.next_address(), index),
                },
            )
        } else {
            after.loaded_libraries == before.loaded_libraries
        }
    }
}

/// Places a parsed image in the guest address space: reserves its slot,
/// resolves its symbols, plans its segments and relocations, and records it
/// as loaded. `blob` is the position of the image's file among the registered
/// files.
pub fn install_image(
    state: &mut RuntimeState,
    library_name: &str,
    blob: usize,
    image: &ElfImage,
) -> (r: Result<LoadedImage, VmError>)
    requires
        old(state).wf(),
        blob < old(state).library_blobs@.len(),
    ensures
        final(state).wf(),
        image_matches(
            r,
            install_result(
                *old(state),
                library_name@,
                image@,
                old(state).library_blobs@[blob as int].data@,
            ),
        ),
        install_state(
            *old(state),
            *final(state),
            library_name@,
            image@,
            old(state).library_blobs@[blob as int].data@,
        ),
{
    let library_index = state.loaded_libraries.len();
    let base = state.library_allocator.allocate(LIB_RESERVATION_SIZE)?;
    let symbols = resolve_symbols(&image.symbols, base, library_index);
    let data = state.library_blobs[blob].data.as_slice();
    let mut ops = plan_segments(base, &image.segments, data)?;
    let patched = plan_relocations(base, &image.relocations, library_name, &symbols)?;
    let linked = plan_relocations(base, &image.plt_relocations, library_name, &symbols)?;
    append_ops(&mut ops, patched);
    append_ops(&mut ops, linked);
    let ghost before = state.loaded_libraries@;
    let record = LoadedLibrary { name: library_name.to_owned(), symbols };
    state.loaded_libraries.push(record);
    assert(library_views(state.loaded_libraries@) =~= library_views(before).push(record@));
    Ok(LoadedImage { index: library_index, ops })
}

/// What loading the library `name` returns. An image loaded before is found
/// again under its ordinal and asks nothing of the emulator. A name that was
/// never registered fails, and so does a file that does not parse. Else the
/// parsed image is placed.
pub open spec fn load_result(before: RuntimeState, name: Seq<char>) -> Result<
    (usize, Seq<EmuOpView>),
    VmErrorView,
> {
    match before.library_index(name) {
        Some(index) => Ok((index as usize, Seq::empty())),
        None => match before.blob(name) {
            None => Err(VmErrorView::LibraryNotRegistered(name)),
            Some(data) => match parsed_elf(data) {
                None => Err(VmErrorView::Elf),
                Some(image) => install_result(before, name, image, data),
            },
        },
    }
}

/// How loading the library `name` leaves the state: unchanged, unless a
/// parsed image is placed.
pub open spec fn load_state(before: RuntimeState, after: RuntimeState, name: Seq<char>) -> bool {
    match before.library_index(name) {
        Some(index) => after == before,
        None => match before.blob(name) {
            None => after == before,
            Some(data) => match parsed_elf(data) {
                None => after == before,
                Some(image) => install_state(before, after, name, image, data),
            },
        },
    }
}

/// Loads the registered ELF file of this name, unless an image of this name is
/// loaded already. After a success the image is found under this name at the
/// ordinal returned.
pub fn load_library_by_name(state: &mut RuntimeState, library_name: &str) -> (r: Result<
    LoadedImage,
    VmError,
>)
    requires
        old(state).wf(),
    ensures
        final(state).wf(),
        image_matches(r, load_result(*old(state), library_name@)),
        load_state(*old(state), *final(state), library_name@),
        r matches Ok(loaded) ==> final(state).library_index(library_name@) == Some(
            loaded.index as int,
        ),
{
    if let Some(index) = state.find_library(library_name) {
        proof {
            lemma_ops_view_empty();
        }
        return Ok(LoadedImage { index, ops: Vec::new() });
    }
    let blob = match state.find_blob(library_name) {
        Some(blob) => blob,
        None => {
            return Err(VmError::LibraryNotRegistered(library_name.to_owned()));
        },
    };
    proof {
        lemma_index_of_name_range(crate::runtime::blob_names(state.library_blobs@), library_name@);
    }
    let image = parse_elf(state.library_blobs[blob].data.as_slice())?;
    let r = install_image(state, library_name, blob, &image);
    proof {
        if r is Ok {
            let record = LoadedLibraryView {
                name: library_name@,
                symbols: resolved_symbols(
                    image@.symbols,
                    old(state).library_allocator.next_address(),
                    old(state).loaded_libraries.len(),
                ),
            };
            assert(state.libraries() == old(state).libraries().push(record));
            lemma_loaded_library_is_found(old(state).libraries(), record);
        }
    }
    r
}

/// An image that was just appended to the loaded images, under a name that
/// none of them had, is found under that name at the ordinal it was given.
/// So loading the same name again returns that ordinal, and the list of loaded
/// images has grown by exactly one.
pub proof fn lemma_loaded_library_is_found(
    libraries: Seq<LoadedLibraryView>,
    library: LoadedLibraryView,
)
    requires
        index_of_name(library_names(libraries), library.name) is None,
    ensures
        index_of_name(library_names(libraries.push(library)), library.name) == Some(
            libraries.len() as int,
        ),
        libraries.push(library).len() == libraries.len() + 1,
{
    let names = library_names(libraries);
    let grown = library_names(libraries.push(library));
    assert(grown =~= names.push(library.name));
    lemma_index_of_name_range(names, library.name);
    assert(first_named(grown, library.name, libraries.len() as int));
    lemma_index_of_name_found(grown, library.name, libraries.len() as int);
}

/// The pages of a loaded segment hold the segment as the file has it: the
/// file's bytes of the segment stand at the segment's address, and the rest of
/// the pages is zero.
pub proof fn lemma_segment_holds_file_bytes(base: u64, segment: Segment, data: Seq<u8>, i: int)
    requires
        segment_is_loaded(base, segment),
        segment_failure(base, segment, data.len()) is None,
        0 <= i < segment_map_length(base, segment),
    ensures
        segment_bytes(base, segment, data).len() == segment_map_length(base, segment),
        segment_map_start(base, segment) <= segment_address(base, segment) < segment_map_start(
            base,
            segment,
        ) + 0x1000,
        segment_map_start(base, segment) % 0x1000 == 0,
        ({
            let at = segment_map_start(base, segment) + i - segment_address(base, segment);
            segment_bytes(base, segment, data)[i] == if 0 <= at < segment.filesz {
                data[segment.offset + at]
            } else {
                0u8
            }
        }),
{
    lemma_align_down_page(segment_address(base, segment));
}

/// A relocation reads back as its value. Where an image has a single dynamic
/// relocation, of a supported type, at offset `O`, and loads at `base`, then
/// once the emulator has done what the load asks for, the eight bytes at
/// `base + O` hold, little-endian, the relocation's value: symbol plus addend
/// for `ABS64` and `GLOB_DAT`, the symbol for `JUMP_SLOT`, base plus addend for
/// `RELATIVE`. The symbol is the one the relocation names, resolved as the
/// load resolves it.
pub proof fn lemma_relocation_reads_back(
    memory: Map<int, u8>,
    base: u64,
    image: ElfImageView,
    data: Seq<u8>,
    library: Seq<char>,
    library_index: usize,
)
    requires
        image.relocations.len() == 1,
        image.plt_relocations.len() == 0,
        image.relocations[0].kind != R_AARCH64_NONE,
        image_plan(base, image, data, library, library_index) is Ok,
        base + image.relocations[0].offset <= u64::MAX,
    ensures
        image.relocations[0].symbol < image.symbols.len(),
        relocation_value(
            base,
            image.relocations[0],
            resolved_symbol(
                image.symbols[image.relocations[0].symbol as int],
                base,
                library_index,
                image.relocations[0].symbol,
            ).resolved,
        ) matches Some(value) && spec_u64_from_le_bytes(
            memory_bytes(
                memory_after(memory, image_plan(base, image, data, library, library_index)->Ok_0),
                base + image.relocations[0].offset,
                8,
            ),
        ) == value,
{
    let relocation = image.relocations[0];
    let symbols = resolved_symbols(image.symbols, base, library_index);
    let ops = image_plan(base, image, data, library, library_index)->Ok_0;
    let mapped = segments_plan(base, image.segments, data, image.segments.len())->Ok_0;
    reveal_with_fuel(relocations_plan, 2);
    let planned = relocation_plan(base, relocation, library, symbols);
    assert(planned is Ok);
    let value = relocation_value(base, relocation, symbols[relocation.symbol as int].resolved)->Some_0;
    let write = EmuOpView::WriteMemory {
        address: base.wrapping_add(relocation.offset),
        data: spec_u64_to_le_bytes(value),
    };
    assert(relocations_plan(base, image.relocations, library, symbols, 1) == Ok::<
        Seq<EmuOpView>,
        VmErrorView,
    >(Seq::<EmuOpView>::empty().push(write)));
    assert(relocations_plan(base, image.plt_relocations, library, symbols, 0) == Ok::<
        Seq<EmuOpView>,
        VmErrorView,
    >(Seq::<EmuOpView>::empty()));
    assert(ops =~= mapped.push(write));
    lemma_auto_spec_u64_to_from_le_bytes();
    lemma_last_write_is_read(memory, ops, base.wrapping_add(relocation.offset), spec_u64_to_le_bytes(value));
}

} // verus!
