//! The fixed layout of the guest address space and the constants of the
//! guest's C library.

use vstd::prelude::*;

verus! {

/// Granularity of every mapping and allocation in the guest address space.
pub const PAGE_SIZE: u64 = 0x1000;

/// Link-register value of a host-to-guest call; execution stops there.
pub const RETURN_ADDRESS: u64 = 0xDEAD_0000;

pub const STACK_ADDRESS: u64 = 0xF000_0000;

pub const STACK_SIZE: u64 = 0x10_0000;

pub const MALLOC_ADDRESS: u64 = 0x6000_0000;

pub const MALLOC_SIZE: u64 = 0x100_0000;

/// Base of the import bank: one page of `ret` instructions per library.
pub const IMPORT_ADDRESS: u64 = 0xA000_0000;

pub const IMPORT_SIZE: u64 = 0x1000;

/// Distance between the import pages of two consecutive libraries.
pub const IMPORT_LIBRARY_STRIDE: u64 = 0x0100_0000;

pub const IMPORT_LIBRARY_COUNT: usize = 10;

pub const TEMP_ALLOC_BASE: u64 = 0x0000_0080_0000_0000;

pub const TEMP_ALLOC_SIZE: u64 = 0x1000_0000;

pub const LIB_ALLOC_BASE: u64 = 0x0010_0000;

pub const LIB_ALLOC_SIZE: u64 = 0x9000_0000;

/// Address space reserved for each loaded image.
pub const LIB_RESERVATION_SIZE: u64 = 0x1000_0000;

pub const O_WRONLY: u64 = 0o1;

pub const O_RDWR: u64 = 0o2;

pub const O_ACCMODE: u64 = 0o3;

pub const O_CREAT: u64 = 0o100;

pub const O_NOFOLLOW: u64 = 0o100000;

pub const ENOENT: u32 = 2;

/// Largest number of arguments of a host-to-guest call (X0 to X28).
pub const MAX_CDECL_ARGS: usize = 29;

/// Longest C string a shim reads from guest memory, terminator included.
pub const C_STRING_LIMIT: usize = 0x1000;

/// The AArch64 `ret` instruction, little-endian.
pub fn ret_aarch64() -> (code: [u8; 4])
    ensures
        code@ == seq![0xC0u8, 0x03u8, 0x5Fu8, 0xD6u8],
{
    [0xC0, 0x03, 0x5F, 0xD6]
}

} // verus!
