//! Core of a breakpoint-capable debugger controller for a single traced
//! child process on a POSIX system.
//!
//! The modules here hold the logic that must be right for the debugger to
//! work: the word-level arithmetic used to patch trap bytes into executable
//! memory, the table of breakpoints and their saved original bytes, the
//! interpretation of wait events, the step-over protocol that carries the
//! child past an armed trap, and the frame-pointer walk that reconstructs a
//! backtrace.  The thin layer that issues the actual trace syscalls and reads
//! user commands lives outside the library and only carries plain values in
//! and out of it.

use vstd::prelude::*;

pub mod breakpoints;
pub mod inferior;
pub mod linked_list;
pub mod parse;
pub mod patch;
pub mod status;
pub mod unwind;

verus! {

/// The one-byte trap instruction that is patched over the first byte of the
/// instruction at a breakpoint address (x86-64 `int3`).
pub const TRAP_BYTE: u8 = 0xcc;

} // verus!
