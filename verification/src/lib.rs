//! Decision core of an embedded AArch64 user-space emulation layer.
//!
//! The crate holds everything the layer decides: where images and buffers go in
//! the guest address space, how an ELF image is laid out and relocated, which
//! host shim answers a guest call into the import bank, and what each shim
//! writes back. It never touches a CPU emulator or the host file system itself:
//! every function returns the emulator operations to perform, and functions
//! that depend on what the emulator or the host answered take that answer as an
//! argument.

pub mod constants;
pub mod errors;
pub mod util;
pub mod allocator;
pub mod ops;
pub mod elf;
pub mod text;
pub mod runtime;
pub mod loader;
pub mod emu;
pub mod stub;
pub mod shim;
pub mod idbfs;
pub mod adi;
pub mod device;
pub mod provisioning;
