//! A verified CHIP-8 virtual machine core.
//!
//! The library models the classic CHIP-8 interpreter: 4096 bytes of RAM with
//! a preloaded font set, a 16-entry call stack, a 64x32 monochrome
//! framebuffer, sixteen 8-bit registers, and an engine that fetches, decodes
//! and executes one instruction per tick.

use vstd::prelude::*;

pub mod cpu;
pub mod debugger;
pub mod font;
pub mod hardware;
pub mod keyboard;
pub mod laws;
pub mod memory;
pub mod semantics;

verus! {

/// The fatal conditions the machine can report.
///
/// A configuration error (`ProgramTooLarge`) is fatal only to the load
/// attempt; the others end the execution session, since the engine cannot
/// safely continue after a malformed instruction or an out-of-range access.
#[derive(Clone, Copy, Debug, PartialEq, Eq)]
pub enum Chip8Error {
    /// A program longer than the 3584-byte program space was offered.
    ProgramTooLarge,
    /// The fetched opcode matches none of the 35 defined instruction forms.
    UnknownOpcode,
    /// A `2nnn` CALL was executed with all 16 stack slots in use.
    StackOverflow,
    /// A `00EE` RET was executed with no pushed frame.
    StackUnderflow,
    /// An instruction addressed RAM at or past the 4096-byte bound.
    AddressOutOfRange,
    /// A key-gated instruction named a key index outside `0..16`.
    KeyOutOfRange,
}

/// Width of the framebuffer in pixels.
pub const CHIP8_WIDTH: usize = 64;

/// Height of the framebuffer in pixels.
pub const CHIP8_HEIGHT: usize = 32;

/// Size in bytes of one instruction word.
pub const OPCODE_SIZE: u16 = 2;

} // verus!
