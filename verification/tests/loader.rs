use std::collections::BTreeMap;

use anisette_rs::constants::{IMPORT_ADDRESS, IMPORT_LIBRARY_STRIDE, LIB_ALLOC_BASE, LIB_RESERVATION_SIZE};
use anisette_rs::elf::{
    parse_elf, Relocation, Segment, PT_LOAD, R_AARCH64_ABS64, R_AARCH64_GLOB_DAT,
    R_AARCH64_JUMP_SLOT, R_AARCH64_RELATIVE,
};
use anisette_rs::errors::VmError;
use anisette_rs::loader::{
    apply_relocation, import_slot_address, load_library_by_name, plan_segment, resolve_symbols,
};
use anisette_rs::ops::EmuOp;
use anisette_rs::runtime::{resolve_symbol_from_loaded_library_by_name, RuntimeState, SymbolEntry};

struct TestSymbol {
    name: &'static str,
    defined: bool,
    value: u64,
}

struct TestRela {
    offset: u64,
    symbol: u32,
    kind: u32,
    addend: i64,
}

fn put_u16(out: &mut Vec<u8>, value: u16) {
    out.extend_from_slice(&value.to_le_bytes());
}

fn put_u32(out: &mut Vec<u8>, value: u32) {
    out.extend_from_slice(&value.to_le_bytes());
}

fn put_u64(out: &mut Vec<u8>, value: u64) {
    out.extend_from_slice(&value.to_le_bytes());
}

fn align8(out: &mut Vec<u8>) {
    while out.len() % 8 != 0 {
        out.push(0);
    }
}

fn put_relas(out: &mut Vec<u8>, relas: &[TestRela]) {
    for rela in relas {
        put_u64(out, rela.offset);
        put_u64(out, ((rela.symbol as u64) << 32) | rela.kind as u64);
        put_u64(out, rela.addend as u64);
    }
}

const HEADERS: usize = 64 + 3 * 56;

/// A small AArch64 shared object: one loadable segment over the whole file, a
/// second one that starts in the middle of a page, and a dynamic section with
/// the symbols and relocations given. The null symbol is added in front.
fn build_elf(symbols: &[TestSymbol], relas: &[TestRela], plt: &[TestRela]) -> Vec<u8> {
    let mut body: Vec<u8> = Vec::new();
    let at = |body: &Vec<u8>| (HEADERS + body.len()) as u64;

    let strtab = at(&body);
    let mut name_offsets = Vec::new();
    body.push(0);
    for symbol in symbols {
        name_offsets.push((at(&body) - strtab) as u32);
        body.extend_from_slice(symbol.name.as_bytes());
        body.push(0);
    }
    let strsz = at(&body) - strtab;
    align8(&mut body);

    let symtab = at(&body);
    body.extend_from_slice(&[0u8; 24]);
    for (symbol, name) in symbols.iter().zip(name_offsets.iter()) {
        put_u32(&mut body, *name);
        body.push(0x12);
        body.push(0);
        put_u16(&mut body, if symbol.defined { 1 } else { 0 });
        put_u64(&mut body, symbol.value);
        put_u64(&mut body, 0);
    }

    let hash = at(&body);
    let count = symbols.len() as u32 + 1;
    put_u32(&mut body, 1);
    put_u32(&mut body, count);
    put_u32(&mut body, 0);
    for _ in 0..count {
        put_u32(&mut body, 0);
    }
    align8(&mut body);

    let rela = at(&body);
    put_relas(&mut body, relas);
    let jmprel = at(&body);
    put_relas(&mut body, plt);

    let dynamic = at(&body);
    let mut entries: Vec<(u64, u64)> = vec![
        (4, hash),
        (5, strtab),
        (6, symtab),
        (10, strsz),
        (11, 24),
    ];
    if !relas.is_empty() {
        entries.push((7, rela));
        entries.push((8, relas.len() as u64 * 24));
        entries.push((9, 24));
    }
    if !plt.is_empty() {
        entries.push((23, jmprel));
        entries.push((2, plt.len() as u64 * 24));
        entries.push((20, 7));
    }
    entries.push((0, 0));
    for (tag, value) in &entries {
        put_u64(&mut body, *tag);
        put_u64(&mut body, *value);
    }
    let dynamic_size = entries.len() as u64 * 16;

    let payload = at(&body);
    for i in 0..0x40u8 {
        body.push(0x80 + i);
    }
    let total = at(&body);

    let mut out: Vec<u8> = Vec::new();
    out.extend_from_slice(&[0x7F, b'E', b'L', b'F', 2, 1, 1, 0, 0, 0, 0, 0, 0, 0, 0, 0]);
    put_u16(&mut out, 3);
    put_u16(&mut out, 183);
    put_u32(&mut out, 1);
    put_u64(&mut out, 0);
    put_u64(&mut out, 64);
    put_u64(&mut out, 0);
    put_u32(&mut out, 0);
    put_u16(&mut out, 64);
    put_u16(&mut out, 56);
    put_u16(&mut out, 3);
    put_u16(&mut out, 64);
    put_u16(&mut out, 0);
    put_u16(&mut out, 0);
    // The whole file, and 0x100 bytes of zero-filled memory behind it.
    put_u32(&mut out, 1);
    put_u32(&mut out, 7);
    put_u64(&mut out, 0);
    put_u64(&mut out, 0);
    put_u64(&mut out, 0);
    put_u64(&mut out, total);
    put_u64(&mut out, total + 0x100);
    put_u64(&mut out, 0x1000);
    // The dynamic section.
    put_u32(&mut out, 2);
    put_u32(&mut out, 6);
    put_u64(&mut out, dynamic);
    put_u64(&mut out, dynamic);
    put_u64(&mut out, dynamic);
    put_u64(&mut out, dynamic_size);
    put_u64(&mut out, dynamic_size);
    put_u64(&mut out, 8);
    // The payload once more, in the middle of another page.
    put_u32(&mut out, 1);
    put_u32(&mut out, 6);
    put_u64(&mut out, payload);
    put_u64(&mut out, 0x2800);
    put_u64(&mut out, 0x2800);
    put_u64(&mut out, 0x20);
    put_u64(&mut out, 0x30);
    put_u64(&mut out, 0x1000);
    assert_eq!(out.len(), HEADERS);
    out.extend_from_slice(&body);
    out
}

fn sample_symbols() -> Vec<TestSymbol> {
    vec![
        TestSymbol { name: "malloc", defined: false, value: 0 },
        TestSymbol { name: "entry_point", defined: true, value: 0x200 },
        TestSymbol { name: "open", defined: false, value: 0 },
        TestSymbol { name: "entry_point", defined: true, value: 0x999 },
    ]
}

fn sample_elf() -> Vec<u8> {
    build_elf(
        &sample_symbols(),
        &[
            TestRela { offset: 0x300, symbol: 2, kind: R_AARCH64_ABS64, addend: 0x10 },
            TestRela { offset: 0x308, symbol: 0, kind: R_AARCH64_RELATIVE, addend: 0x40 },
            TestRela { offset: 0x310, symbol: 1, kind: R_AARCH64_GLOB_DAT, addend: 0 },
            TestRela { offset: 0x318, symbol: 0, kind: 0, addend: 7 },
            TestRela { offset: 0x320, symbol: 2, kind: R_AARCH64_ABS64, addend: -0x10 },
        ],
        &[TestRela { offset: 0x328, symbol: 3, kind: R_AARCH64_JUMP_SLOT, addend: 5 }],
    )
}

/// Guest memory as the emulator would hold it after the requests of a plan.
fn apply(ops: &[EmuOp]) -> BTreeMap<u64, u8> {
    let mut memory = BTreeMap::new();
    for op in ops {
        match op {
            EmuOp::MapMemory { address, length, .. } => {
                for i in 0..*length as u64 {
                    memory.entry(address + i).or_insert(0u8);
                }
            }
            EmuOp::WriteMemory { address, data } => {
                for (i, byte) in data.iter().enumerate() {
                    assert!(memory.contains_key(&(address + i as u64)), "write to unmapped memory");
                    memory.insert(address + i as u64, *byte);
                }
            }
            _ => {}
        }
    }
    memory
}

fn read_u64(memory: &BTreeMap<u64, u8>, address: u64) -> u64 {
    let mut bytes = [0u8; 8];
    for i in 0..8 {
        bytes[i] = memory[&(address + i as u64)];
    }
    u64::from_le_bytes(bytes)
}

fn state_with(name: &str, data: Vec<u8>) -> RuntimeState {
    let mut state = RuntimeState::new();
    state.register_blob(name, data);
    state
}

#[test]
fn parse_elf_copies_the_tables() {
    let image = parse_elf(&sample_elf()).expect("parse");
    assert_eq!(image.symbols.len(), 5);
    assert_eq!(image.symbols[0].name.as_deref(), Some(""));
    assert_eq!(image.symbols[1].name.as_deref(), Some("malloc"));
    assert_eq!(image.symbols[1].shndx, 0);
    assert_eq!(image.symbols[2].name.as_deref(), Some("entry_point"));
    assert_eq!(image.symbols[2].shndx, 1);
    assert_eq!(image.symbols[2].value, 0x200);
    assert_eq!(image.segments.len(), 3);
    assert_eq!(image.segments[0].kind, PT_LOAD);
    assert_eq!(image.segments[1].kind, 2);
    assert_eq!(image.segments[2].vaddr, 0x2800);
    assert_eq!(image.segments[2].filesz, 0x20);
    assert_eq!(image.segments[2].memsz, 0x30);
    assert_eq!(image.relocations.len(), 5);
    assert_eq!(
        image.relocations[0],
        Relocation { offset: 0x300, addend: Some(0x10), symbol: 2, kind: R_AARCH64_ABS64 }
    );
    assert_eq!(image.relocations[4].addend, Some(-0x10));
    assert_eq!(image.plt_relocations.len(), 1);
    assert_eq!(
        image.plt_relocations[0],
        Relocation { offset: 0x328, addend: Some(5), symbol: 3, kind: R_AARCH64_JUMP_SLOT }
    );
}

#[test]
fn parse_elf_rejects_what_is_no_elf() {
    assert!(matches!(parse_elf(b"this is not an ELF file"), Err(VmError::Elf(_))));
    assert!(matches!(parse_elf(&[]), Err(VmError::Elf(_))));
}

#[test]
fn import_slots_follow_library_and_symbol() {
    assert_eq!(import_slot_address(0, 0), 0xA000_0000);
    assert_eq!(import_slot_address(0, 3), 0xA000_000C);
    assert_eq!(import_slot_address(2, 5), 0xA000_0000 + 2 * 0x0100_0000 + 20);
    assert_eq!(import_slot_address(9, 1023), IMPORT_ADDRESS + 9 * IMPORT_LIBRARY_STRIDE + 4092);
}

#[test]
fn symbols_resolve_to_stubs_and_addresses() {
    let image = parse_elf(&sample_elf()).expect("parse");
    let table = resolve_symbols(&image.symbols, 0x0010_0000, 1);
    assert_eq!(table.len(), 5);
    assert_eq!(table[0].name, "");
    assert_eq!(table[0].resolved, IMPORT_ADDRESS + IMPORT_LIBRARY_STRIDE);
    assert_eq!(table[1].name, "malloc");
    assert_eq!(table[1].resolved, IMPORT_ADDRESS + IMPORT_LIBRARY_STRIDE + 4);
    assert_eq!(table[2].name, "entry_point");
    assert_eq!(table[2].resolved, 0x0010_0200);
    assert_eq!(table[3].resolved, IMPORT_ADDRESS + IMPORT_LIBRARY_STRIDE + 12);
    assert_eq!(table[4].resolved, 0x0010_0999);
}

#[test]
fn load_maps_segments_and_applies_relocations() {
    let elf = sample_elf();
    let mut state = state_with("libsample.so", elf.clone());
    let loaded = load_library_by_name(&mut state, "libsample.so").expect("load");
    assert_eq!(loaded.index, 0);
    let base = LIB_ALLOC_BASE;

    // Two loadable segments, two requests each, then five writes: the
    // relocation of type 0 writes nothing.
    assert_eq!(loaded.ops.len(), 2 * 2 + 5);
    let span = ((elf.len() as u64 + 0x100 + 0xFFF) / 0x1000) * 0x1000;
    match &loaded.ops[0] {
        EmuOp::MapMemory { address, length, tolerate_mapped } => {
            assert_eq!(*address, base);
            assert_eq!(*length as u64, span);
            assert!(*tolerate_mapped);
        }
        other => panic!("expected a mapping, got {:?}", other),
    }
    match &loaded.ops[1] {
        EmuOp::WriteMemory { address, data } => {
            assert_eq!(*address, base);
            assert_eq!(data.len() as u64, span);
            assert_eq!(&data[..elf.len()], &elf[..]);
            assert!(data[elf.len()..].iter().all(|byte| *byte == 0));
        }
        other => panic!("expected a write, got {:?}", other),
    }
    match &loaded.ops[2] {
        EmuOp::MapMemory { address, length, tolerate_mapped } => {
            assert_eq!(*address, base + 0x2000);
            assert_eq!(*length, 0x1000);
            assert!(*tolerate_mapped);
        }
        other => panic!("expected a mapping, got {:?}", other),
    }
    match &loaded.ops[3] {
        EmuOp::WriteMemory { address, data } => {
            assert_eq!(*address, base + 0x2000);
            assert_eq!(data.len(), 0x1000);
            assert!(data[..0x800].iter().all(|byte| *byte == 0));
            let payload: Vec<u8> = (0..0x20u8).map(|i| 0x80 + i).collect();
            assert_eq!(&data[0x800..0x820], &payload[..]);
            assert!(data[0x820..].iter().all(|byte| *byte == 0));
        }
        other => panic!("expected a write, got {:?}", other),
    }

    let memory = apply(&loaded.ops);
    // ABS64 writes symbol + addend.
    assert_eq!(read_u64(&memory, base + 0x300), base + 0x200 + 0x10);
    assert_eq!(read_u64(&memory, base + 0x320), base + 0x200 - 0x10);
    // RELATIVE writes base + addend.
    assert_eq!(read_u64(&memory, base + 0x308), base + 0x40);
    // GLOB_DAT of an import writes the import's stub.
    assert_eq!(read_u64(&memory, base + 0x310), IMPORT_ADDRESS + 4);
    // Type 0 leaves the file's bytes.
    let mut untouched = [0u8; 8];
    untouched.copy_from_slice(&elf[0x318..0x320]);
    assert_eq!(read_u64(&memory, base + 0x318), u64::from_le_bytes(untouched));
    // JUMP_SLOT writes the symbol without the addend.
    assert_eq!(read_u64(&memory, base + 0x328), IMPORT_ADDRESS + 12);

    assert_eq!(state.loaded_libraries.len(), 1);
    assert_eq!(state.loaded_libraries[0].name, "libsample.so");
    assert_eq!(state.loaded_libraries[0].symbols.len(), 5);
}

#[test]
fn load_twice_returns_the_same_ordinal() {
    let mut state = state_with("libstoreservicescore.so", sample_elf());
    let first = load_library_by_name(&mut state, "libstoreservicescore.so").expect("first load");
    assert_eq!(state.loaded_libraries.len(), 1);
    let second = load_library_by_name(&mut state, "libstoreservicescore.so").expect("second load");
    assert_eq!(first.index, second.index);
    assert!(second.ops.is_empty());
    assert_eq!(state.loaded_libraries.len(), 1);
}

#[test]
fn second_library_gets_the_next_slot_and_bank() {
    let mut state = state_with("first.so", sample_elf());
    state.register_blob("second.so", sample_elf());
    let first = load_library_by_name(&mut state, "first.so").expect("first");
    let second = load_library_by_name(&mut state, "second.so").expect("second");
    assert_eq!(first.index, 0);
    assert_eq!(second.index, 1);
    let base = LIB_ALLOC_BASE + LIB_RESERVATION_SIZE;
    let memory = apply(&second.ops);
    assert_eq!(read_u64(&memory, base + 0x300), base + 0x210);
    assert_eq!(read_u64(&memory, base + 0x310), IMPORT_ADDRESS + IMPORT_LIBRARY_STRIDE + 4);
    assert_eq!(
        resolve_symbol_from_loaded_library_by_name(&state, 1, "open").unwrap(),
        IMPORT_ADDRESS + IMPORT_LIBRARY_STRIDE + 12
    );
}

#[test]
fn load_fails_for_unregistered_and_unparsable_libraries() {
    let mut state = state_with("garbage.so", vec![1, 2, 3, 4]);
    match load_library_by_name(&mut state, "missing.so") {
        Err(VmError::LibraryNotRegistered(name)) => assert_eq!(name, "missing.so"),
        other => panic!("expected an unregistered library, got {:?}", other),
    }
    assert!(matches!(load_library_by_name(&mut state, "garbage.so"), Err(VmError::Elf(_))));
    assert!(state.loaded_libraries.is_empty());
    // Neither failure took a library slot.
    state.register_blob("good.so", sample_elf());
    let loaded = load_library_by_name(&mut state, "good.so").expect("load");
    let memory = apply(&loaded.ops);
    assert_eq!(read_u64(&memory, LIB_ALLOC_BASE + 0x308), LIB_ALLOC_BASE + 0x40);
}

#[test]
fn registering_a_name_again_replaces_the_file() {
    let mut state = state_with("lib.so", vec![1, 2, 3, 4]);
    state.register_blob("lib.so", sample_elf());
    assert_eq!(state.library_blobs.len(), 1);
    assert!(load_library_by_name(&mut state, "lib.so").is_ok());
}

#[test]
fn load_fails_on_unsupported_relocation_and_keeps_the_slot_taken() {
    let elf = build_elf(
        &sample_symbols(),
        &[TestRela { offset: 0x300, symbol: 1, kind: 999, addend: 0 }],
        &[],
    );
    let mut state = state_with("bad.so", elf);
    assert!(matches!(
        load_library_by_name(&mut state, "bad.so"),
        Err(VmError::UnsupportedRelocation(999))
    ));
    assert!(state.loaded_libraries.is_empty());
    state.register_blob("good.so", sample_elf());
    let loaded = load_library_by_name(&mut state, "good.so").expect("load");
    assert_eq!(loaded.index, 0);
    let base = LIB_ALLOC_BASE + LIB_RESERVATION_SIZE;
    let memory = apply(&loaded.ops);
    assert_eq!(read_u64(&memory, base + 0x308), base + 0x40);
}

#[test]
fn library_allocator_runs_out_after_nine_libraries() {
    let mut state = RuntimeState::new();
    let names = ["a", "b", "c", "d", "e", "f", "g", "h", "i", "j"];
    for name in names.iter() {
        state.register_blob(name, sample_elf());
    }
    for (i, name) in names.iter().take(9).enumerate() {
        assert_eq!(load_library_by_name(&mut state, name).expect("load").index, i);
    }
    match load_library_by_name(&mut state, "j") {
        Err(VmError::AllocatorOom { base, size, request }) => {
            assert_eq!(base, 0x0010_0000);
            assert_eq!(size, 0x9000_0000);
            assert_eq!(request, 0x1000_0000);
        }
        other => panic!("expected out of memory, got {:?}", other),
    }
    assert_eq!(state.loaded_libraries.len(), 9);
}

#[test]
fn segment_outside_the_file_is_an_invalid_range() {
    let data = vec![0u8; 0x100];
    let segment = Segment { kind: PT_LOAD, offset: 0x80, vaddr: 0, filesz: 0x81, memsz: 0x1000 };
    assert!(matches!(plan_segment(0x10_0000, &segment, &data), Err(VmError::InvalidElfRange)));
    let segment = Segment { kind: PT_LOAD, offset: u64::MAX, vaddr: 0, filesz: 2, memsz: 0x1000 };
    assert!(matches!(plan_segment(0x10_0000, &segment, &data), Err(VmError::InvalidElfRange)));
    // More bytes in the file than pages in memory.
    let segment = Segment { kind: PT_LOAD, offset: 0, vaddr: 0xFF0, filesz: 0x20, memsz: 0x10 };
    assert!(matches!(plan_segment(0x10_0000, &segment, &data), Err(VmError::InvalidElfRange)));
    let segment = Segment { kind: PT_LOAD, offset: 0x80, vaddr: 0, filesz: 0x80, memsz: 0x1000 };
    assert_eq!(plan_segment(0x10_0000, &segment, &data).unwrap().len(), 2);
}

#[test]
fn segments_that_are_not_loaded_ask_for_nothing() {
    let data = vec![0u8; 0x100];
    let dynamic = Segment { kind: 2, offset: 0, vaddr: 0, filesz: 0x10, memsz: 0x10 };
    assert!(plan_segment(0x10_0000, &dynamic, &data).unwrap().is_empty());
    let empty = Segment { kind: PT_LOAD, offset: 0, vaddr: 0x40, filesz: 0, memsz: 0 };
    assert!(plan_segment(0x10_0000, &empty, &data).unwrap().is_empty());
    // Not even a range check is made for them.
    let far = Segment { kind: 2, offset: 0x1000, vaddr: 0, filesz: 0x10, memsz: 0x10 };
    assert!(plan_segment(0x10_0000, &far, &data).unwrap().is_empty());
}

#[test]
fn segment_without_file_bytes_is_zero_filled() {
    let data = vec![0x55u8; 0x100];
    let bss = Segment { kind: PT_LOAD, offset: 0x40, vaddr: 0x1234, filesz: 0, memsz: 0x2000 };
    let ops = plan_segment(0x10_0000, &bss, &data).unwrap();
    match &ops[0] {
        EmuOp::MapMemory { address, length, .. } => {
            assert_eq!(*address, 0x10_1000);
            assert_eq!(*length, 0x3000);
        }
        other => panic!("expected a mapping, got {:?}", other),
    }
    match &ops[1] {
        EmuOp::WriteMemory { address, data } => {
            assert_eq!(*address, 0x10_1000);
            assert_eq!(data.len(), 0x3000);
            assert!(data.iter().all(|byte| *byte == 0));
        }
        other => panic!("expected a write, got {:?}", other),
    }
}

fn symbol_table() -> Vec<SymbolEntry> {
    vec![
        SymbolEntry { name: String::new(), resolved: 0xA000_0000 },
        SymbolEntry { name: "f".to_string(), resolved: 0x5000 },
    ]
}

fn written(op: Option<EmuOp>) -> (u64, u64) {
    match op {
        Some(EmuOp::WriteMemory { address, data }) => {
            let mut bytes = [0u8; 8];
            bytes.copy_from_slice(&data);
            (address, u64::from_le_bytes(bytes))
        }
        other => panic!("expected a write, got {:?}", other),
    }
}

#[test]
fn relocation_values_follow_their_type() {
    let symbols = symbol_table();
    let base = 0x10_0000;
    let abs = Relocation { offset: 0x20, addend: Some(8), symbol: 1, kind: R_AARCH64_ABS64 };
    assert_eq!(written(apply_relocation(base, &abs, "lib", &symbols).unwrap()), (0x10_0020, 0x5008));
    let glob = Relocation { offset: 0x28, addend: Some(-1), symbol: 1, kind: R_AARCH64_GLOB_DAT };
    assert_eq!(written(apply_relocation(base, &glob, "lib", &symbols).unwrap()), (0x10_0028, 0x4FFF));
    let jump = Relocation { offset: 0x30, addend: Some(8), symbol: 1, kind: R_AARCH64_JUMP_SLOT };
    assert_eq!(written(apply_relocation(base, &jump, "lib", &symbols).unwrap()), (0x10_0030, 0x5000));
    let relative = Relocation { offset: 0x38, addend: Some(0x44), symbol: 0, kind: R_AARCH64_RELATIVE };
    assert_eq!(
        written(apply_relocation(base, &relative, "lib", &symbols).unwrap()),
        (0x10_0038, 0x10_0044)
    );
    let bare = Relocation { offset: 0x40, addend: None, symbol: 1, kind: R_AARCH64_ABS64 };
    assert_eq!(written(apply_relocation(base, &bare, "lib", &symbols).unwrap()), (0x10_0040, 0x5000));
}

#[test]
fn relocation_arithmetic_wraps_around() {
    let symbols = symbol_table();
    let low = Relocation { offset: 0, addend: Some(i64::MIN), symbol: 1, kind: R_AARCH64_ABS64 };
    assert_eq!(
        written(apply_relocation(0, &low, "lib", &symbols).unwrap()),
        (0, 0x8000_0000_0000_5000)
    );
    let under = Relocation { offset: u64::MAX, addend: Some(-0x5001), symbol: 1, kind: R_AARCH64_ABS64 };
    assert_eq!(
        written(apply_relocation(2, &under, "lib", &symbols).unwrap()),
        (1, u64::MAX)
    );
}

#[test]
fn relocation_of_type_zero_is_skipped_before_any_check() {
    let symbols = symbol_table();
    let none = Relocation { offset: 0x20, addend: Some(8), symbol: 77, kind: 0 };
    assert!(apply_relocation(0x10_0000, &none, "lib", &symbols).unwrap().is_none());
}

#[test]
fn relocation_errors_name_symbol_index_and_type() {
    let symbols = symbol_table();
    let beyond = Relocation { offset: 0x20, addend: Some(8), symbol: 2, kind: R_AARCH64_RELATIVE };
    match apply_relocation(0x10_0000, &beyond, "libx.so", &symbols) {
        Err(VmError::SymbolIndexOutOfRange { library, index }) => {
            assert_eq!(library, "libx.so");
            assert_eq!(index, 2);
        }
        other => panic!("expected a symbol index out of range, got {:?}", other),
    }
    let unknown = Relocation { offset: 0x20, addend: Some(8), symbol: 1, kind: 1024 };
    assert!(matches!(
        apply_relocation(0x10_0000, &unknown, "libx.so", &symbols),
        Err(VmError::UnsupportedRelocation(1024))
    ));
}

#[test]
fn symbols_are_found_by_name_first_occurrence_first() {
    let mut state = state_with("lib.so", sample_elf());
    let loaded = load_library_by_name(&mut state, "lib.so").expect("load");
    assert_eq!(
        resolve_symbol_from_loaded_library_by_name(&state, loaded.index, "entry_point").unwrap(),
        LIB_ALLOC_BASE + 0x200
    );
    assert_eq!(
        resolve_symbol_from_loaded_library_by_name(&state, loaded.index, "malloc").unwrap(),
        IMPORT_ADDRESS + 4
    );
    match resolve_symbol_from_loaded_library_by_name(&state, loaded.index, "absent") {
        Err(VmError::SymbolNotFound { library, symbol }) => {
            assert_eq!(library, "lib.so");
            assert_eq!(symbol, "absent");
        }
        other => panic!("expected a missing symbol, got {:?}", other),
    }
    // The empty name is never found, though the null symbol has it.
    assert!(matches!(
        resolve_symbol_from_loaded_library_by_name(&state, loaded.index, ""),
        Err(VmError::SymbolNotFound { .. })
    ));
    assert!(matches!(
        resolve_symbol_from_loaded_library_by_name(&state, 1, "malloc"),
        Err(VmError::LibraryNotLoaded(1))
    ));
}

// The import dispatcher, the machine's front end and the service, on images
// loaded from the sample library.

use anisette_rs::adi::{Adi, AdiInit, OutBuffer, SetupCall};
use anisette_rs::constants::{MALLOC_ADDRESS, RETURN_ADDRESS, STACK_ADDRESS, STACK_SIZE, TEMP_ALLOC_BASE};
use anisette_rs::emu::{ensure_zero_return, EmuCore};
use anisette_rs::ops::Register;
use anisette_rs::shim::{resume_with_memory, GuestCall, MemoryWait, ShimStep};
use anisette_rs::stub::{dispatch_import_stub, handle_stub_by_name, resolve_import};

fn registers(x0: u64, x1: u64, x2: u64) -> GuestCall {
    GuestCall { x0, x1, x2 }
}

fn return_value(step: ShimStep) -> (Vec<EmuOp>, u64) {
    match step {
        ShimStep::Finish { mut ops } => match ops.pop() {
            Some(EmuOp::WriteRegister { register: Register::X(0), value }) => (ops, value),
            other => panic!("expected a return value, got {:?}", other),
        },
        other => panic!("expected the end of the shim, got {:?}", other),
    }
}

fn terminated(text: &str) -> Vec<u8> {
    let mut bytes = text.as_bytes().to_vec();
    bytes.push(0);
    bytes.resize(0x1000, 0);
    bytes
}

#[test]
fn import_stub_leads_to_the_shim_of_its_symbol() {
    let mut state = state_with("first.so", sample_elf());
    state.register_blob("second.so", sample_elf());
    load_library_by_name(&mut state, "first.so").expect("first");
    load_library_by_name(&mut state, "second.so").expect("second");
    // Symbol 1 of either library is malloc, symbol 3 is open.
    assert_eq!(resolve_import(&state, IMPORT_ADDRESS + 4).unwrap(), "malloc");
    assert_eq!(resolve_import(&state, IMPORT_ADDRESS + IMPORT_LIBRARY_STRIDE + 12).unwrap(), "open");
    let step = dispatch_import_stub(&mut state, IMPORT_ADDRESS + 4, registers(0x20, 0, 0)).unwrap();
    assert_eq!(return_value(step).1, MALLOC_ADDRESS);
    let step = dispatch_import_stub(
        &mut state,
        IMPORT_ADDRESS + IMPORT_LIBRARY_STRIDE + 12,
        registers(0x7000, 0, 0),
    )
    .unwrap();
    match step {
        ShimStep::ReadMemory { address, length, then } => {
            assert_eq!(address, 0x7000);
            assert_eq!(length, 0x1000);
            assert_eq!(then, MemoryWait::Open { path: 0x7000, flags: 0 });
        }
        other => panic!("expected a memory read, got {:?}", other),
    }
}

#[test]
fn import_stub_errors_name_what_is_missing() {
    let mut state = state_with("first.so", sample_elf());
    load_library_by_name(&mut state, "first.so").expect("first");
    assert!(matches!(
        dispatch_import_stub(&mut state, IMPORT_ADDRESS - 4, registers(0, 0, 0)),
        Err(VmError::InvalidImportAddress(0x9FFF_FFFC))
    ));
    assert!(matches!(
        dispatch_import_stub(&mut state, IMPORT_ADDRESS + IMPORT_LIBRARY_STRIDE, registers(0, 0, 0)),
        Err(VmError::LibraryNotLoaded(1))
    ));
    match dispatch_import_stub(&mut state, IMPORT_ADDRESS + 5 * 4, registers(0, 0, 0)) {
        Err(VmError::SymbolIndexOutOfRange { library, index }) => {
            assert_eq!(library, "first.so");
            assert_eq!(index, 5);
        }
        other => panic!("expected a symbol index out of range, got {:?}", other),
    }
    // Symbol 2 is defined in the library itself: no shim answers it.
    match dispatch_import_stub(&mut state, IMPORT_ADDRESS + 2 * 4, registers(0, 0, 0)) {
        Err(VmError::UnhandledImport(name)) => assert_eq!(name, "entry_point"),
        other => panic!("expected an unhandled import, got {:?}", other),
    }
    // An address inside a stub belongs to the stub.
    assert_eq!(resolve_import(&state, IMPORT_ADDRESS + 7).unwrap(), "malloc");
    assert!(matches!(
        handle_stub_by_name(&mut state, "fopen", registers(0, 0, 0)),
        Err(VmError::UnhandledImport(_))
    ));
}

#[test]
fn dlopen_loads_by_basename_and_dlsym_resolves() {
    let mut state = state_with("libCoreADI.so", sample_elf());
    let wait = MemoryWait::Dlopen { path: 0x5000 };
    let step = resume_with_memory(&mut state, wait, terminated("/data/lib/libCoreADI.so")).unwrap();
    let (ops, handle) = return_value(step);
    assert_eq!(handle, 1);
    assert_eq!(ops.len(), 9);
    // Opening it again finds it loaded.
    let step = resume_with_memory(&mut state, wait, terminated("libCoreADI.so")).unwrap();
    let (ops, handle) = return_value(step);
    assert_eq!(handle, 1);
    assert!(ops.is_empty());

    let wait = MemoryWait::Dlsym { handle: 1, name: 0x6000 };
    let step = resume_with_memory(&mut state, wait, terminated("entry_point")).unwrap();
    assert_eq!(return_value(step).1, LIB_ALLOC_BASE + 0x200);
    match resume_with_memory(&mut state, wait, terminated("nothing")) {
        Err(VmError::SymbolNotFound { library, symbol }) => {
            assert_eq!(library, "libCoreADI.so");
            assert_eq!(symbol, "nothing");
        }
        other => panic!("expected a missing symbol, got {:?}", other),
    }
    let wait = MemoryWait::Dlsym { handle: 2, name: 0x6000 };
    assert!(matches!(
        resume_with_memory(&mut state, wait, terminated("entry_point")),
        Err(VmError::LibraryNotLoaded(1))
    ));
}

#[test]
fn machine_setup_maps_regions_and_import_banks() {
    let (core, ops) = EmuCore::new_arm64();
    assert!(core.state.loaded_libraries.is_empty());
    assert_eq!(ops.len(), 3 + 10 * 3 + 1);
    let mapped: Vec<(u64, usize)> = ops
        .iter()
        .filter_map(|op| match op {
            EmuOp::MapMemory { address, length, tolerate_mapped: false } => Some((*address, *length)),
            _ => None,
        })
        .collect();
    assert_eq!(mapped[0], (0xDEAD_0000, 0x1000));
    assert_eq!(mapped[1], (0x6000_0000, 0x100_0000));
    assert_eq!(mapped[2], (0xF000_0000, 0x10_0000));
    for i in 0..10u64 {
        assert_eq!(mapped[3 + i as usize], (0xA000_0000 + i * 0x0100_0000, 0x1000));
    }
    match (&ops[3], &ops[4], &ops[5]) {
        (
            EmuOp::MapMemory { address: mapped, .. },
            EmuOp::WriteMemory { address: written, data },
            EmuOp::HookImports { begin, end },
        ) => {
            assert_eq!(*mapped, 0xA000_0000);
            assert_eq!(*written, 0xA000_0000);
            assert_eq!(data.len(), 0x1000);
            assert!(data.chunks(4).all(|chunk| chunk == [0xC0, 0x03, 0x5F, 0xD6]));
            assert_eq!(*begin, 0xA000_0000);
            assert_eq!(*end, 0xA000_0FFF);
        }
        other => panic!("unexpected bank setup {:?}", other),
    }
    assert!(matches!(ops[33], EmuOp::HookUnmapped));
}

#[test]
fn invoke_cdecl_loads_registers_and_starts() {
    let (core, _) = EmuCore::new_arm64();
    let ops = core.invoke_cdecl(0x10_0200, &[11, 22, 33]).unwrap();
    assert_eq!(ops.len(), 6);
    for (i, value) in [11u64, 22, 33].iter().enumerate() {
        match &ops[i] {
            EmuOp::WriteRegister { register, value: written } => {
                assert_eq!(*register, Register::X(i as u8));
                assert_eq!(written, value);
            }
            other => panic!("expected a register write, got {:?}", other),
        }
    }
    assert!(matches!(
        ops[3],
        EmuOp::WriteRegister { register: Register::Sp, value } if value == STACK_ADDRESS + STACK_SIZE
    ));
    assert!(matches!(
        ops[4],
        EmuOp::WriteRegister { register: Register::Lr, value } if value == RETURN_ADDRESS
    ));
    assert!(matches!(
        ops[5],
        EmuOp::Start { begin: 0x10_0200, until } if until == RETURN_ADDRESS
    ));
    assert_eq!(core.invoke_cdecl(0x10_0200, &[0; 29]).unwrap().len(), 32);
}

#[test]
fn invoke_cdecl_rejects_thirty_arguments() {
    let (core, _) = EmuCore::new_arm64();
    let args = [0u64; 30];
    // The call fails, and with it there is nothing to run.
    assert!(matches!(
        core.invoke_cdecl(0x10_0200, &args),
        Err(VmError::TooManyArguments(30))
    ));
}

#[test]
fn shim_failures_surface_at_the_end_of_the_call() {
    let (mut core, _) = EmuCore::new_arm64();
    assert_eq!(core.finish_invoke(7).unwrap(), 7);
    core.record_failure(VmError::EmptyPath);
    core.record_failure(VmError::InvalidElfRange);
    assert!(matches!(core.finish_invoke(7), Err(VmError::EmptyPath)));
    assert_eq!(core.finish_invoke(8).unwrap(), 8);
}

#[test]
fn temp_buffers_are_padded_pages() {
    let (mut core, _) = EmuCore::new_arm64();
    let buffer = core.alloc_data(&[1, 2, 3]).unwrap();
    assert_eq!(buffer.address, TEMP_ALLOC_BASE);
    match (&buffer.ops[0], &buffer.ops[1]) {
        (
            EmuOp::MapMemory { address, length, tolerate_mapped: false },
            EmuOp::WriteMemory { address: written, data },
        ) => {
            assert_eq!(*address, TEMP_ALLOC_BASE);
            assert_eq!(*length, 0x1000);
            assert_eq!(*written, TEMP_ALLOC_BASE);
            assert_eq!(&data[..3], &[1, 2, 3]);
            assert!(data[3..].iter().all(|byte| *byte == 0xCC));
            assert_eq!(data.len(), 0x1000);
        }
        other => panic!("unexpected buffer setup {:?}", other),
    }
    let scratch = core.alloc_temporary(8).unwrap();
    assert_eq!(scratch.address, TEMP_ALLOC_BASE + 0x1000);
    match &scratch.ops[1] {
        EmuOp::WriteMemory { data, .. } => {
            assert_eq!(data.len(), 0x1000);
            assert!(data.iter().all(|byte| *byte == 0xAA));
        }
        other => panic!("expected a write, got {:?}", other),
    }
    let large = core.alloc_data(&vec![7u8; 0x1001]).unwrap();
    assert_eq!(large.address, TEMP_ALLOC_BASE + 0x2000);
    let empty = core.alloc_data(&[]).unwrap();
    assert_eq!(empty.address, TEMP_ALLOC_BASE + 0x4000);
    let zero = core.alloc_temporary(0).unwrap();
    assert_eq!(zero.address, TEMP_ALLOC_BASE + 0x5000);
}

#[test]
fn temp_allocator_runs_out() {
    let (mut core, _) = EmuCore::new_arm64();
    assert!(core.alloc_data(&vec![0u8; 0x1000_0000]).is_ok());
    match core.alloc_data(&[1]) {
        Err(VmError::AllocatorOom { base, size, request }) => {
            assert_eq!(base, TEMP_ALLOC_BASE);
            assert_eq!(size, 0x1000_0000);
            assert_eq!(request, 0x1000);
        }
        other => panic!("expected out of memory, got {:?}", other),
    }
}

#[test]
fn memory_values_are_little_endian() {
    assert_eq!(EmuCore::read_u32([0x78, 0x56, 0x34, 0x12]), 0x1234_5678);
    assert_eq!(EmuCore::read_u64([1, 2, 3, 4, 5, 6, 7, 8]), 0x0807_0605_0403_0201);
    match EmuCore::write_u32(0x40, 0x1234_5678) {
        EmuOp::WriteMemory { address, data } => {
            assert_eq!(address, 0x40);
            assert_eq!(data, vec![0x78, 0x56, 0x34, 0x12]);
        }
        other => panic!("expected a write, got {:?}", other),
    }
    match EmuCore::write_u64(0x48, 0x0807_0605_0403_0201) {
        EmuOp::WriteMemory { address, data } => {
            assert_eq!(address, 0x48);
            assert_eq!(data, vec![1, 2, 3, 4, 5, 6, 7, 8]);
        }
        other => panic!("expected a write, got {:?}", other),
    }
    match EmuCore::write_data(0x50, &[9, 9]) {
        EmuOp::WriteMemory { address, data } => {
            assert_eq!(address, 0x50);
            assert_eq!(data, vec![9, 9]);
        }
        other => panic!("expected a write, got {:?}", other),
    }
    assert_eq!(EmuCore::read_c_string(b"abc\0\xCC\xCC", 0).unwrap(), "abc");
}

#[test]
fn library_root_is_kept_in_normal_form() {
    let (mut core, _) = EmuCore::new_arm64();
    core.set_library_root("  ");
    assert_eq!(core.state.library_root, None);
    core.set_library_root("./anisette//");
    assert_eq!(core.state.library_root.as_deref(), Some("./anisette"));
    core.set_library_root("");
    assert_eq!(core.state.library_root.as_deref(), Some("./anisette"));
}

#[test]
fn guest_status_is_a_signed_32_bit_code() {
    assert!(ensure_zero_return("ADISetAndroidID", 0).is_ok());
    assert!(ensure_zero_return("ADISetAndroidID", 0xFFFF_FFFF_0000_0000).is_ok());
    match ensure_zero_return("ADISetAndroidID", 0xFFFF_4FFB) {
        Err(VmError::AdiCallFailed { name, code }) => {
            assert_eq!(name, "ADISetAndroidID");
            assert_eq!(code, -45061);
        }
        other => panic!("expected a failed call, got {:?}", other),
    }
    assert!(Adi::login_status(0).unwrap());
    assert!(!Adi::login_status((-45061i32) as u32 as u64).unwrap());
    assert!(!Adi::login_status(0xABCD_0000_FFFF_4FFB).unwrap());
    match Adi::login_status(1) {
        Err(VmError::AdiCallFailed { name, code }) => {
            assert_eq!(name, "ADIGetLoginCode");
            assert_eq!(code, 1);
        }
        other => panic!("expected a failed call, got {:?}", other),
    }
}

fn service_symbols() -> Vec<TestSymbol> {
    vec![
        TestSymbol { name: "malloc", defined: false, value: 0 },
        TestSymbol { name: "kq56gsgHG6", defined: true, value: 0x1000 },
        TestSymbol { name: "Sph98paBcz", defined: true, value: 0x1010 },
        TestSymbol { name: "nf92ngaK92", defined: true, value: 0x1020 },
        TestSymbol { name: "aslgmuibau", defined: true, value: 0x1030 },
        TestSymbol { name: "rsegvyrt87", defined: true, value: 0x1040 },
        TestSymbol { name: "uv5t6nhkui", defined: true, value: 0x1050 },
        TestSymbol { name: "qi864985u0", defined: true, value: 0x1060 },
    ]
}

fn service_init(symbols: &[TestSymbol]) -> AdiInit {
    AdiInit {
        storeservicescore: build_elf(symbols, &[], &[]),
        coreadi: sample_elf(),
        library_path: "./anisette/".to_string(),
        provisioning_path: Some("./anisette/".to_string()),
        identifier: None,
    }
}

/// The last requests of a planned call: the arguments, and the target.
fn call_of(ops: &[EmuOp]) -> (Vec<u64>, u64) {
    let mut arguments = Vec::new();
    let mut target = None;
    for op in ops {
        match op {
            EmuOp::WriteRegister { register: Register::X(n), value } => {
                assert_eq!(*n as usize, arguments.len());
                arguments.push(*value);
            }
            EmuOp::Start { begin, until } => {
                assert_eq!(*until, RETURN_ADDRESS);
                target = Some(*begin);
            }
            _ => {}
        }
    }
    (arguments, target.expect("the call starts the guest"))
}

fn written_at(ops: &[EmuOp], at: u64) -> Vec<u8> {
    for op in ops {
        if let EmuOp::WriteMemory { address, data } = op {
            if *address == at {
                return data.clone();
            }
        }
    }
    panic!("nothing written at {:#x}", at);
}

#[test]
fn service_starts_with_its_library_loaded() {
    let start = Adi::new(service_init(&service_symbols())).expect("start");
    let adi = &start.adi;
    assert_eq!(adi.p_load_library_with_path, LIB_ALLOC_BASE + 0x1000);
    assert_eq!(adi.p_set_android_id, LIB_ALLOC_BASE + 0x1010);
    assert_eq!(adi.p_set_provisioning_path, LIB_ALLOC_BASE + 0x1020);
    assert_eq!(adi.p_get_login_code, LIB_ALLOC_BASE + 0x1030);
    assert_eq!(adi.p_provisioning_start, LIB_ALLOC_BASE + 0x1040);
    assert_eq!(adi.p_provisioning_end, LIB_ALLOC_BASE + 0x1050);
    assert_eq!(adi.p_otp_request, LIB_ALLOC_BASE + 0x1060);
    assert_eq!(adi.core.state.library_root.as_deref(), Some("./anisette"));
    assert_eq!(adi.core.state.loaded_libraries.len(), 1);
    assert_eq!(adi.core.state.library_blobs.len(), 2);
    // The machine's setup, then the two segments of the library.
    assert_eq!(start.ops.len(), 34 + 4);
    assert_eq!(start.calls.len(), 2);
    assert!(matches!(&start.calls[0], SetupCall::LoadLibraryWithPath(path) if path == "./anisette/"));
    assert!(matches!(&start.calls[1], SetupCall::SetProvisioningPath(path) if path == "./anisette/"));
}

#[test]
fn service_start_fails_without_an_entry_point() {
    let mut symbols = service_symbols();
    symbols.remove(4);
    match Adi::new(service_init(&symbols)) {
        Err(VmError::SymbolNotFound { library, symbol }) => {
            assert_eq!(library, "libstoreservicescore.so");
            assert_eq!(symbol, "aslgmuibau");
        }
        other => panic!("expected a missing symbol, got {:?}", other.map(|_| ())),
    }
    let mut init = service_init(&service_symbols());
    init.storeservicescore = vec![0; 16];
    assert!(matches!(Adi::new(init), Err(VmError::Elf(_))));
}

#[test]
fn setup_calls_pass_paths_as_c_strings() {
    let mut start = Adi::new(service_init(&service_symbols())).expect("start");
    let call = start.adi.setup(&start.calls[0]).unwrap().expect("a call");
    assert_eq!(call.name, "ADILoadLibraryWithPath");
    let (arguments, target) = call_of(&call.ops);
    assert_eq!(target, LIB_ALLOC_BASE + 0x1000);
    assert_eq!(arguments, vec![TEMP_ALLOC_BASE]);
    let text = written_at(&call.ops, TEMP_ALLOC_BASE);
    assert_eq!(&text[..12], b"./anisette/\0");
    assert!(text[12..].iter().all(|byte| *byte == 0xCC));
    assert!(call.finish(0).is_ok());
    match call.finish(5) {
        Err(VmError::AdiCallFailed { name, code }) => {
            assert_eq!(name, "ADILoadLibraryWithPath");
            assert_eq!(code, 5);
        }
        other => panic!("expected a failed call, got {:?}", other),
    }

    let call = start.adi.setup(&start.calls[1]).unwrap().expect("a call");
    assert_eq!(call.name, "ADISetProvisioningPath");
    let (arguments, target) = call_of(&call.ops);
    assert_eq!(target, LIB_ALLOC_BASE + 0x1020);
    assert_eq!(arguments, vec![TEMP_ALLOC_BASE + 0x1000]);

    let call = start
        .adi
        .setup(&SetupCall::SetIdentifier("0123456789abcdef".to_string()))
        .unwrap()
        .expect("a call");
    assert_eq!(call.name, "ADISetAndroidID");
    let (arguments, target) = call_of(&call.ops);
    assert_eq!(target, LIB_ALLOC_BASE + 0x1010);
    assert_eq!(arguments, vec![TEMP_ALLOC_BASE + 0x2000, 16]);
    assert_eq!(&written_at(&call.ops, TEMP_ALLOC_BASE + 0x2000)[..16], b"0123456789abcdef");
    // An empty identifier is not handed over, and takes no buffer.
    assert!(start.adi.set_identifier("").unwrap().is_none());
    let call = start.adi.set_identifier("x").unwrap().expect("a call");
    assert_eq!(call_of(&call.ops).0, vec![TEMP_ALLOC_BASE + 0x3000, 1]);
}

#[test]
fn provisioning_calls_lay_out_buffers_and_arguments() {
    let mut adi = Adi::new(service_init(&service_symbols())).expect("start").adi;
    let spim = vec![0x11u8; 40];
    let planned = adi.start_provisioning(0xFFFF_FFFF_FFFF_FFFE, &spim).unwrap();
    assert_eq!(planned.call.name, "ADIProvisioningStart");
    let cells = TEMP_ALLOC_BASE;
    assert_eq!(planned.cpim, OutBuffer { pointer: cells, length: cells + 0x1000 });
    assert_eq!(planned.session, cells + 0x2000);
    let (arguments, target) = call_of(&planned.call.ops);
    assert_eq!(target, LIB_ALLOC_BASE + 0x1040);
    assert_eq!(
        arguments,
        vec![0xFFFF_FFFF_FFFF_FFFE, cells + 0x3000, 40, cells, cells + 0x1000, cells + 0x2000]
    );
    assert!(written_at(&planned.call.ops, cells).iter().all(|byte| *byte == 0xAA));
    assert_eq!(&written_at(&planned.call.ops, cells + 0x3000)[..40], &spim[..]);

    let call = adi.end_provisioning(0x55, &[1, 2, 3], &[4, 5]).unwrap();
    assert_eq!(call.name, "ADIProvisioningEnd");
    let (arguments, target) = call_of(&call.ops);
    assert_eq!(target, LIB_ALLOC_BASE + 0x1050);
    assert_eq!(arguments, vec![0x55, cells + 0x4000, 3, cells + 0x5000, 2]);

    let planned = adi.request_otp(9).unwrap();
    assert_eq!(planned.call.name, "ADIOTPRequest");
    assert_eq!(planned.otp, OutBuffer { pointer: cells + 0x6000, length: cells + 0x7000 });
    assert_eq!(planned.machine_id, OutBuffer { pointer: cells + 0x8000, length: cells + 0x9000 });
    let (arguments, target) = call_of(&planned.call.ops);
    assert_eq!(target, LIB_ALLOC_BASE + 0x1060);
    assert_eq!(arguments, vec![9, cells + 0x8000, cells + 0x9000, cells + 0x6000, cells + 0x7000]);

    let call = adi.is_machine_provisioned(9).unwrap();
    assert_eq!(call.name, "ADIGetLoginCode");
    let (arguments, target) = call_of(&call.ops);
    assert_eq!(target, LIB_ALLOC_BASE + 0x1030);
    assert_eq!(arguments, vec![9]);
    assert_eq!(call.ops.len(), 4);

    assert_eq!(
        OutBuffer::locate([0x00, 0x10, 0, 0x60, 0, 0, 0, 0], [60, 0, 0, 0]),
        (0x6000_1000, 60)
    );
}

#[test]
fn c_string_survives_the_way_through_a_guest_buffer() {
    let mut allocator = anisette_rs::allocator::Allocator::new(TEMP_ALLOC_BASE, 0x1000_0000);
    let buffer = anisette_rs::emu::alloc_c_string(&mut allocator, "abc").unwrap();
    assert_eq!(buffer.address, TEMP_ALLOC_BASE);
    let memory = apply(&buffer.ops);
    let read: Vec<u8> = (0..16).map(|i| memory[&(buffer.address + i)]).collect();
    assert_eq!(EmuCore::read_c_string(&read, buffer.address).unwrap(), "abc");
    assert_eq!(read[3], 0);
    assert!(read[4..].iter().all(|byte| *byte == 0xCC));
}
