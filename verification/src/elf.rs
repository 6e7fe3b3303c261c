//! The tables of an ELF image that the loader reads, as `goblin` parses them.

use vstd::prelude::*;
use goblin::elf::{Elf, Reloc};
use crate::errors::{VmError, VmErrorView};

verus! {

/// Program header type of a loadable segment.
pub const PT_LOAD: u32 = 1;

/// Section index of a symbol that the image leaves undefined.
pub const SHN_UNDEF: usize = 0;

pub const R_AARCH64_NONE: u32 = 0;

pub const R_AARCH64_ABS64: u32 = 257;

pub const R_AARCH64_GLOB_DAT: u32 = 1025;

pub const R_AARCH64_JUMP_SLOT: u32 = 1026;

pub const R_AARCH64_RELATIVE: u32 = 1027;

/// An entry of the dynamic symbol table.
#[derive(Debug, Clone)]
pub struct DynSymbol {
    /// The name, where the string table has one at the entry's name offset.
    pub name: Option<String>,
    /// Section index; `SHN_UNDEF` for an import.
    pub shndx: usize,
    /// Address of the symbol relative to the image's base.
    pub value: u64,
}

pub struct DynSymbolView {
    pub name: Option<Seq<char>>,
    pub shndx: usize,
    pub value: u64,
}

impl View for DynSymbol {
    type V = DynSymbolView;

    open spec fn view(&self) -> DynSymbolView {
        DynSymbolView {
            name: match self.name {
                Some(name) => Some(name@),
                None => None,
            },
            shndx: self.shndx,
            value: self.value,
        }
    }
}

/// A program header.
#[derive(Debug, Clone, Copy, PartialEq, Eq, Structural)]
pub struct Segment {
    pub kind: u32,
    /// Where the segment's bytes start in the file.
    pub offset: u64,
    /// Address of the segment relative to the image's base.
    pub vaddr: u64,
    /// Bytes of the segment that the file holds.
    pub filesz: u64,
    /// Bytes that the segment takes in memory.
    pub memsz: u64,
}

/// A dynamic relocation.
#[derive(Debug, Clone, Copy, PartialEq, Eq, Structural)]
pub struct Relocation {
    /// Address of the patched cell relative to the image's base.
    pub offset: u64,
    pub addend: Option<i64>,
    /// Index into the dynamic symbol table.
    pub symbol: usize,
    pub kind: u32,
}

/// What the loader reads of a parsed ELF image.
pub struct ElfImageView {
    pub symbols: Seq<DynSymbolView>,
    pub segments: Seq<Segment>,
    /// The relocations with addend of the dynamic section.
    pub relocations: Seq<Relocation>,
    /// The relocations of the procedure linkage table.
    pub plt_relocations: Seq<Relocation>,
}

/// The dynamic symbols, each by its view.
pub open spec fn symbols_view(symbols: Seq<DynSymbol>) -> Seq<DynSymbolView> {
    symbols.map_values(|s: DynSymbol| s@)
}

/// The tables of a parsed ELF image that the loader reads.
#[derive(Debug)]
pub struct ElfImage {
    pub symbols: Vec<DynSymbol>,
    pub segments: Vec<Segment>,
    /// The relocations with addend of the dynamic section.
    pub relocations: Vec<Relocation>,
    /// The relocations of the procedure linkage table.
    pub plt_relocations: Vec<Relocation>,
}

impl View for ElfImage {
    type V = ElfImageView;

    open spec fn view(&self) -> ElfImageView {
        ElfImageView {
            symbols: symbols_view(self.symbols@),
            segments: self.segments@,
            relocations: self.relocations@,
            plt_relocations: self.plt_relocations@,
        }
    }
}

/// What `goblin::elf::Elf::parse` makes of the bytes of a file: `None` where it
/// fails, else the four tables of the parsed image that the loader reads.
pub uninterp spec fn parsed_elf(data: Seq<u8>) -> Option<ElfImageView>;

/// Calls `goblin::elf::Elf::parse` and copies out of the result the four tables
/// that the loader reads: the dynamic symbols, each with the name that the
/// dynamic string table gives for it, the program headers, the dynamic
/// relocations with addend and the relocations of the procedure linkage table.
/// Fails exactly where the parser fails.
#[verifier::external_body]
pub(crate) fn elf_tables(data: &[u8]) -> (r: Result<ElfImage, goblin::error::Error>)
    ensures
        r is Ok <==> parsed_elf(data@) is Some,
        r matches Ok(image) ==> Some(image@) == parsed_elf(data@),
{
    let elf = Elf::parse(data)?;
    let relocation = |r: Reloc| Relocation { offset: r.r_offset, addend: r.r_addend, symbol: r.r_sym, kind: r.r_type };
    Ok(ElfImage {
        symbols: elf.dynsyms.iter().map(|s| DynSymbol { name: elf.dynstrtab.get_at(s.st_name).map(str::to_string), shndx: s.st_shndx, value: s.st_value }).collect(),
        segments: elf.program_headers.iter().map(|p| Segment { kind: p.p_type, offset: p.p_offset, vaddr: p.p_vaddr, filesz: p.p_filesz, memsz: p.p_memsz }).collect(),
        relocations: elf.dynrelas.iter().map(relocation).collect(),
        plt_relocations: elf.pltrelocs.iter().map(relocation).collect(),
    })
}

/// Parses the bytes of an ELF file into the tables that the loader reads.
pub fn parse_elf(data: &[u8]) -> (r: Result<ElfImage, VmError>)
    ensures
        match parsed_elf(data@) {
            Some(image) => (r matches Ok(parsed) && parsed@ == image),
            None => (r matches Err(e) && e@ == VmErrorView::Elf),
        },
{
    match elf_tables(data) {
        Ok(image) => Ok(image),
        Err(e) => Err(VmError::Elf(e)),
    }
}

} // verus!
