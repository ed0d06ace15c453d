//! Core of a platform-agnostic kernel event loop: an interrupt-to-kernel
//! event bridge (a fixed-capacity overwrite-oldest circular buffer), a
//! device capability model with a registry, the kernel's event-dispatch
//! logic, and a region-based physical memory allocator.
//!
//! Hardware bring-up, port I/O, locking and logging live in the platform
//! shim around this library; everything here is plain logic with proved
//! contracts.

pub mod allocator;
pub mod binary;
pub mod boot_info;
pub mod bump_allocator;
pub mod cirus5446;
pub mod device;
pub mod error;
pub mod kernel;
pub mod pc_keyboard;
pub mod pci;
pub mod registry;
pub mod ringbuffer;
pub mod uefi_filesystem;
pub mod vga;
