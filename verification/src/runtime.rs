//! The state of one virtual machine: allocators, registered files, loaded
//! images and open descriptors.

use vstd::prelude::*;
use crate::allocator::Allocator;
use crate::constants::{
    LIB_ALLOC_BASE, LIB_ALLOC_SIZE, MALLOC_ADDRESS, MALLOC_SIZE, TEMP_ALLOC_BASE, TEMP_ALLOC_SIZE,
};
use crate::errors::{VmError, VmErrorView};
use crate::text::str_equal;

verus! {

/// `i` is the first position of `names` that holds `name`.
pub open spec fn first_named(names: Seq<Seq<char>>, name: Seq<char>, i: int) -> bool {
    &&& 0 <= i < names.len()
    &&& names[i] == name
    &&& forall|j: int| 0 <= j < i ==> names[j] != name
}

/// The first position of `names` that holds `name`, if any does.
pub open spec fn index_of_name(names: Seq<Seq<char>>, name: Seq<char>) -> Option<int> {
    if exists|i: int| first_named(names, name, i) {
        Some(choose|i: int| first_named(names, name, i))
    } else {
        None
    }
}

pub proof fn lemma_index_of_name_found(names: Seq<Seq<char>>, name: Seq<char>, i: int)
    requires
        first_named(names, name, i),
    ensures
        index_of_name(names, name) == Some(i),
{
    let k = choose|k: int| first_named(names, name, k);
    assert(first_named(names, name, k));
    if k < i {
        assert(names[k] != name);
    }
    if i < k {
        assert(names[i] != name);
    }
}

pub proof fn lemma_index_of_name_missing(names: Seq<Seq<char>>, name: Seq<char>)
    requires
        forall|j: int| 0 <= j < names.len() ==> names[j] != name,
    ensures
        index_of_name(names, name) is None,
{
    if exists|i: int| first_named(names, name, i) {
        let k = choose|k: int| first_named(names, name, k);
        assert(names[k] != name);
    }
}

pub proof fn lemma_index_of_name_range(names: Seq<Seq<char>>, name: Seq<char>)
    ensures
        index_of_name(names, name) matches Some(i) ==> first_named(names, name, i),
        index_of_name(names, name) is None ==> forall|j: int|
            0 <= j < names.len() ==> names[j] != name,
{
    if index_of_name(names, name) is None {
        assert forall|j: int| 0 <= j < names.len() implies names[j] != name by {
            if names[j] == name {
                lemma_some_first_named(names, name, j);
            }
        }
    }
}

/// Where a position holds the name, a first such position exists.
proof fn lemma_some_first_named(names: Seq<Seq<char>>, name: Seq<char>, j: int)
    requires
        0 <= j < names.len(),
        names[j] == name,
    ensures
        exists|i: int| first_named(names, name, i),
    decreases j,
{
    if forall|k: int| 0 <= k < j ==> names[k] != name {
        assert(first_named(names, name, j));
    } else {
        let k = choose|k: int| 0 <= k < j && names[k] == name;
        lemma_some_first_named(names, name, k);
    }
}

/// A dynamic symbol of a loaded image with the guest address it resolves to.
#[derive(Debug)]
pub struct SymbolEntry {
    pub name: String,
    pub resolved: u64,
}

pub struct SymbolEntryView {
    pub name: Seq<char>,
    pub resolved: u64,
}

impl View for SymbolEntry {
    type V = SymbolEntryView;

    open spec fn view(&self) -> SymbolEntryView {
        SymbolEntryView { name: self.name@, resolved: self.resolved }
    }
}

/// The symbols of a table, each by its view.
pub open spec fn symbol_views(symbols: Seq<SymbolEntry>) -> Seq<SymbolEntryView> {
    symbols.map_values(|s: SymbolEntry| s@)
}

pub open spec fn symbol_names(symbols: Seq<SymbolEntryView>) -> Seq<Seq<char>> {
    symbols.map_values(|s: SymbolEntryView| s.name)
}

/// The address that a symbol table gives for a name: that of the first entry
/// with this name. The empty name is never found.
pub open spec fn symbol_address(symbols: Seq<SymbolEntryView>, name: Seq<char>) -> Option<u64> {
    if name.len() == 0 {
        None
    } else {
        match index_of_name(symbol_names(symbols), name) {
            Some(i) => Some(symbols[i].resolved),
            None => None,
        }
    }
}

/// A loaded image: its file name and its dynamic symbols in table order. The
/// position of the record in the list of loaded images is the image's ordinal.
#[derive(Debug)]
pub struct LoadedLibrary {
    pub name: String,
    pub symbols: Vec<SymbolEntry>,
}

pub struct LoadedLibraryView {
    pub name: Seq<char>,
    pub symbols: Seq<SymbolEntryView>,
}

impl View for LoadedLibrary {
    type V = LoadedLibraryView;

    open spec fn view(&self) -> LoadedLibraryView {
        LoadedLibraryView { name: self.name@, symbols: symbol_views(self.symbols@) }
    }
}

pub open spec fn library_views(libraries: Seq<LoadedLibrary>) -> Seq<LoadedLibraryView> {
    libraries.map_values(|l: LoadedLibrary| l@)
}

pub open spec fn library_names(libraries: Seq<LoadedLibraryView>) -> Seq<Seq<char>> {
    libraries.map_values(|l: LoadedLibraryView| l.name)
}

/// The bytes of an ELF file, registered under a file name.
#[derive(Debug)]
pub struct LibraryBlob {
    pub name: String,
    pub data: Vec<u8>,
}

pub open spec fn blob_names(blobs: Seq<LibraryBlob>) -> Seq<Seq<char>> {
    blobs.map_values(|b: LibraryBlob| b.name@)
}

/// The mutable state of one virtual machine.
#[derive(Debug)]
pub struct RuntimeState {
    /// Backs argument buffers and the errno cell.
    pub temp_allocator: Allocator,
    /// Hands out one reservation per loaded image.
    pub library_allocator: Allocator,
    /// Backs the guest's `malloc`.
    pub malloc_allocator: Allocator,
    /// Address of the guest's errno cell, once it exists.
    pub errno_address: Option<u64>,
    /// The registered ELF files; a name occurs at most once.
    pub library_blobs: Vec<LibraryBlob>,
    /// The loaded images, by ordinal.
    pub loaded_libraries: Vec<LoadedLibrary>,
    /// The guest's file descriptors, by number: whether each is open. A
    /// descriptor keeps its number for good; closing only clears the flag.
    pub open_files: Vec<bool>,
    /// Normalized path of the directory that holds the libraries.
    pub library_root: Option<String>,
}

impl RuntimeState {
    pub open spec fn wf(&self) -> bool {
        &&& self.temp_allocator.wf()
        &&& self.library_allocator.wf()
        &&& self.malloc_allocator.wf()
    }

    /// The loaded images, by their views.
    pub open spec fn libraries(&self) -> Seq<LoadedLibraryView> {
        library_views(self.loaded_libraries@)
    }

    /// Ordinal of the loaded image of this name.
    pub open spec fn library_index(&self, name: Seq<char>) -> Option<int> {
        index_of_name(library_names(self.libraries()), name)
    }

    /// The bytes registered under this name.
    pub open spec fn blob(&self, name: Seq<char>) -> Option<Seq<u8>> {
        match index_of_name(blob_names(self.library_blobs@), name) {
            Some(i) => Some(self.library_blobs@[i].data@),
            None => None,
        }
    }

    /// Whether `fd` is an open descriptor.
    pub open spec fn is_open(&self, fd: u64) -> bool {
        fd < self.open_files@.len() && self.open_files@[fd as int]
    }

    /// The allocators of a machine on which nothing was allocated yet: each
    /// over its fixed region.
    pub open spec fn has_fresh_allocators(&self) -> bool {
        &&& self.temp_allocator.base() == TEMP_ALLOC_BASE
        &&& self.temp_allocator.size() == TEMP_ALLOC_SIZE
        &&& self.temp_allocator.offset() == 0
        &&& self.library_allocator.base() == LIB_ALLOC_BASE
        &&& self.library_allocator.size() == LIB_ALLOC_SIZE
        &&& self.library_allocator.offset() == 0
        &&& self.malloc_allocator.base() == MALLOC_ADDRESS
        &&& self.malloc_allocator.size() == MALLOC_SIZE
        &&& self.malloc_allocator.offset() == 0
    }

    /// The state of a fresh machine: three untouched allocators over their
    /// fixed regions and nothing registered, loaded or open.
    pub fn new() -> (state: Self)
        ensures
            state.wf(),
            state.has_fresh_allocators(),
            state.errno_address is None,
            state.library_blobs@.len() == 0,
            state.loaded_libraries@.len() == 0,
            state.open_files@.len() == 0,
            state.library_root is None,
    {
        Self {
            temp_allocator: Allocator::new(TEMP_ALLOC_BASE, TEMP_ALLOC_SIZE),
            library_allocator: Allocator::new(LIB_ALLOC_BASE, LIB_ALLOC_SIZE),
            malloc_allocator: Allocator::new(MALLOC_ADDRESS, MALLOC_SIZE),
            errno_address: None,
            library_blobs: Vec::new(),
            loaded_libraries: Vec::new(),
            open_files: Vec::new(),
            library_root: None,
        }
    }

    /// Ordinal of the loaded image of this name, if there is one.
    pub fn find_library(&self, name: &str) -> (r: Option<usize>)
        ensures
            match r {
                Some(i) => self.library_index(name@) == Some(i as int),
                None => self.library_index(name@) is None,
            },
    {
        let ghost names = library_names(self.libraries());
        let mut i: usize = 0;
        while i < self.loaded_libraries.len()
            invariant
                i <= self.loaded_libraries@.len(),
                names == library_names(self.libraries()),
                names.len() == self.loaded_libraries@.len(),
                forall|j: int| 0 <= j < i ==> names[j] != name@,
            decreases self.loaded_libraries.len() - i,
        {
            if str_equal(self.loaded_libraries[i].name.as_str(), name) {
                proof {
                    assert(names[i as int] == self.loaded_libraries@[i as int].name@);
                    lemma_index_of_name_found(names, name@, i as int);
                }
                return Some(i);
            }
            assert(names[i as int] == self.loaded_libraries@[i as int].name@);
            i = i + 1;
        }
        proof {
            lemma_index_of_name_missing(names, name@);
        }
        None
    }

    /// Position of the registered file of this name, if there is one.
    pub fn find_blob(&self, name: &str) -> (r: Option<usize>)
        ensures
            match r {
                Some(i) => index_of_name(blob_names(self.library_blobs@), name@) == Some(i as int),
                None => index_of_name(blob_names(self.library_blobs@), name@) is None,
            },
    {
        let ghost names = blob_names(self.library_blobs@);
        let mut i: usize = 0;
        while i < self.library_blobs.len()
            invariant
                i <= self.library_blobs@.len(),
                names == blob_names(self.library_blobs@),
                names.len() == self.library_blobs@.len(),
                forall|j: int| 0 <= j < i ==> names[j] != name@,
            decreases self.library_blobs.len() - i,
        {
            if str_equal(self.library_blobs[i].name.as_str(), name) {
                proof {
                    assert(names[i as int] == self.library_blobs@[i as int].name@);
                    lemma_index_of_name_found(names, name@, i as int);
                }
                return Some(i);
            }
            assert(names[i as int] == self.library_blobs@[i as int].name@);
            i = i + 1;
        }
        proof {
            lemma_index_of_name_missing(names, name@);
        }
        None
    }

    /// Registers the bytes of an ELF file under a name; an earlier
    /// registration of that name is replaced.
    pub fn register_blob(&mut self, name: &str, data: Vec<u8>)
        ensures
            final(self).blob(name@) == Some(data@),
            forall|other: Seq<char>|
                other != name@ ==> final(self).blob(other) == old(self).blob(other),
            final(self).temp_allocator == old(self).temp_allocator,
            final(self).library_allocator == old(self).library_allocator,
            final(self).malloc_allocator == old(self).malloc_allocator,
            final(self).errno_address == old(self).errno_address,
            final(self).loaded_libraries == old(self).loaded_libraries,
            final(self).open_files == old(self).open_files,
            final(self).library_root == old(self).library_root,
    {
        let ghost before = self.library_blobs@;
        let ghost names = blob_names(before);
        let found = self.find_blob(name);
        let entry = LibraryBlob { name: name.to_owned(), data };
        match found {
            Some(i) => {
                proof {
                    lemma_index_of_name_range(names, name@);
                }
                self.library_blobs.set(i, entry);
                proof {
                    let after = self.library_blobs@;
                    assert(blob_names(after) =~= names);
                    assert forall|other: Seq<char>| other != name@ implies self.blob(other) == old(
                        self,
                    ).blob(other) by {
                        lemma_index_of_name_range(names, other);
                    }
                }
            },
            None => {
                self.library_blobs.push(entry);
                proof {
                    let after = self.library_blobs@;
                    let names2 = blob_names(after);
                    assert(names2 =~= names.push(name@));
                    lemma_index_of_name_range(names, name@);
                    assert(first_named(names2, name@, names.len() as int));
                    lemma_index_of_name_found(names2, name@, names.len() as int);
                    assert forall|other: Seq<char>| other != name@ implies self.blob(other) == old(
                        self,
                    ).blob(other) by {
                        lemma_index_of_name_range(names, other);
                        match index_of_name(names, other) {
                            Some(k) => {
                                assert(first_named(names2, other, k));
                                lemma_index_of_name_found(names2, other, k);
                            },
                            None => {
                                lemma_index_of_name_missing(names2, other);
                            },
                        }
                    }
                }
            },
        }
    }
}

/// Looks a symbol up by name in a symbol table.
pub fn find_symbol(symbols: &Vec<SymbolEntry>, name: &str) -> (r: Option<u64>)
    ensures
        r == symbol_address(symbol_views(symbols@), name@),
{
    if name.is_empty() {
        return None;
    }
    let ghost names = symbol_names(symbol_views(symbols@));
    let mut i: usize = 0;
    while i < symbols.len()
        invariant
            i <= symbols@.len(),
            name@.len() > 0,
            names == symbol_names(symbol_views(symbols@)),
            names.len() == symbols@.len(),
            forall|j: int| 0 <= j < i ==> names[j] != name@,
        decreases symbols.len() - i,
    {
        if str_equal(symbols[i].name.as_str(), name) {
            proof {
                assert(names[i as int] == symbols@[i as int].name@);
                lemma_index_of_name_found(names, name@, i as int);
                assert(symbol_views(symbols@)[i as int].resolved == symbols@[i as int].resolved);
            }
            return Some(symbols[i].resolved);
        }
        assert(names[i as int] == symbols@[i as int].name@);
        i = i + 1;
    }
    proof {
        lemma_index_of_name_missing(names, name@);
    }
    None
}

/// The address of a symbol of a loaded image, by the image's ordinal and the
/// symbol's name.
pub fn resolve_symbol_from_loaded_library_by_name(
    state: &RuntimeState,
    library_index: usize,
    symbol_name: &str,
) -> (r: Result<u64, VmError>)
    ensures
        library_index >= state.libraries().len() ==> (r matches Err(e) && e@
            == VmErrorView::LibraryNotLoaded(library_index)),
        library_index < state.libraries().len() ==> match symbol_address(
            state.libraries()[library_index as int].symbols,
            symbol_name@,
        ) {
            Some(address) => (r matches Ok(a) && a == address),
            None => (r matches Err(e) && e@ == (VmErrorView::SymbolNotFound {
                library: state.libraries()[library_index as int].name,
                symbol: symbol_name@,
            })),
        },
{
    if library_index >= state.loaded_libraries.len() {
        return Err(VmError::LibraryNotLoaded(library_index));
    }
    let library = &state.loaded_libraries[library_index];
    match find_symbol(&library.symbols, symbol_name) {
        Some(address) => Ok(address),
        None => Err(
            VmError::SymbolNotFound {
                library: library.name.clone(),
                symbol: symbol_name.to_owned(),
            },
        ),
    }
}

} // verus!
