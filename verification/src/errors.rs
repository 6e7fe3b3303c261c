//! The errors of the emulation layer.

use vstd::prelude::*;

verus! {

/// `goblin::error::Error`, carried through as an opaque value.
#[verifier::external_type_specification]
#[verifier::external_body]
pub struct ExGoblinError(goblin::error::Error);

/// `std::io::Error`, carried through as an opaque value.
#[verifier::external_type_specification]
#[verifier::external_body]
pub struct ExIoError(std::io::Error);

/// Everything that can stop the emulation layer.
#[derive(Debug)]
pub enum VmError {
    /// The CPU emulator refused an operation; the field is its error code.
    Unicorn(u32),
    Io(std::io::Error),
    Elf(goblin::error::Error),
    AllocatorOom { base: u64, size: u64, request: u64 },
    LibraryNotRegistered(String),
    LibraryNotLoaded(usize),
    SymbolNotFound { library: String, symbol: String },
    SymbolIndexOutOfRange { library: String, index: usize },
    UnsupportedRelocation(u32),
    InvalidElfRange,
    UnhandledImport(String),
    InvalidImportAddress(u64),
    InvalidDlopenHandle(u64),
    InvalidFileDescriptor(u64),
    TooManyArguments(usize),
    AdiCallFailed { name: &'static str, code: i32 },
    UnterminatedCString(u64),
    EmptyPath,
    IntegerOverflow(u64),
}

/// What an error says, with its texts as character sequences. The errors that
/// wrap a foreign error value are told apart from the others, not from each
/// other.
pub enum VmErrorView {
    Unicorn(u32),
    Io,
    Elf,
    AllocatorOom { base: u64, size: u64, request: u64 },
    LibraryNotRegistered(Seq<char>),
    LibraryNotLoaded(usize),
    SymbolNotFound { library: Seq<char>, symbol: Seq<char> },
    SymbolIndexOutOfRange { library: Seq<char>, index: usize },
    UnsupportedRelocation(u32),
    InvalidElfRange,
    UnhandledImport(Seq<char>),
    InvalidImportAddress(u64),
    InvalidDlopenHandle(u64),
    InvalidFileDescriptor(u64),
    TooManyArguments(usize),
    AdiCallFailed { name: Seq<char>, code: i32 },
    UnterminatedCString(u64),
    EmptyPath,
    IntegerOverflow(u64),
}

impl View for VmError {
    type V = VmErrorView;

    open spec fn view(&self) -> VmErrorView {
        match self {
            VmError::Unicorn(code) => VmErrorView::Unicorn(*code),
            VmError::Io(_) => VmErrorView::Io,
            VmError::Elf(_) => VmErrorView::Elf,
            VmError::AllocatorOom { base, size, request } => VmErrorView::AllocatorOom {
                base: *base,
                size: *size,
                request: *request,
            },
            VmError::LibraryNotRegistered(name) => VmErrorView::LibraryNotRegistered(name@),
            VmError::LibraryNotLoaded(index) => VmErrorView::LibraryNotLoaded(*index),
            VmError::SymbolNotFound { library, symbol } => VmErrorView::SymbolNotFound {
                library: library@,
                symbol: symbol@,
            },
            VmError::SymbolIndexOutOfRange { library, index } => VmErrorView::SymbolIndexOutOfRange {
                library: library@,
                index: *index,
            },
            VmError::UnsupportedRelocation(kind) => VmErrorView::UnsupportedRelocation(*kind),
            VmError::InvalidElfRange => VmErrorView::InvalidElfRange,
            VmError::UnhandledImport(name) => VmErrorView::UnhandledImport(name@),
            VmError::InvalidImportAddress(address) => VmErrorView::InvalidImportAddress(*address),
            VmError::InvalidDlopenHandle(handle) => VmErrorView::InvalidDlopenHandle(*handle),
            VmError::InvalidFileDescriptor(fd) => VmErrorView::InvalidFileDescriptor(*fd),
            VmError::TooManyArguments(count) => VmErrorView::TooManyArguments(*count),
            VmError::AdiCallFailed { name, code } => VmErrorView::AdiCallFailed {
                name: name@,
                code: *code,
            },
            VmError::UnterminatedCString(address) => VmErrorView::UnterminatedCString(*address),
            VmError::EmptyPath => VmErrorView::EmptyPath,
            VmError::IntegerOverflow(value) => VmErrorView::IntegerOverflow(*value),
        }
    }
}

} // verus!
