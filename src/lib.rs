//! Exploring anonymous memory and swap accounting: a registry of the
//! mappings a session created, the swap and physical memory counters of the
//! kernel, and the state machine of a background monitor that prints them.

use vstd::prelude::*;

pub mod args;
pub mod bytesize_display;
pub mod kstat;
pub mod memstat;
pub mod monitor;
pub mod swap;
pub mod swappy;
pub mod text;

verus! {

/// Bytes in one page of memory, the kernel's unit of accounting.
pub const PAGE_SIZE: usize = 4096;

} // verus!
