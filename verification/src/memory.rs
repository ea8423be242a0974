//! The machine's storage: 4096 bytes of RAM (font set preloaded at the
//! bottom, program space from `0x200`), the 16-entry call stack, and the
//! 64x32 monochrome framebuffer with its dirty flag.

use vstd::prelude::*;

use crate::Chip8Error;
use crate::font::FONT_SET_LEN;
use crate::font::font_bytes;
use crate::font::font_seq;

verus! {

/// Total bytes of addressable RAM.
pub const RAM_SIZE: usize = 4096;

/// First address of program space; everything below holds interpreter data
/// (the font set).
pub const PROGRAM_START: usize = 512;

/// Number of return addresses the call stack can hold.
pub const STACK_SIZE: usize = 16;

/// Number of cells in the framebuffer (64 columns by 32 rows), stored row by
/// row: the pixel at column `c` of row `r` is cell `r * 64 + c`.
pub const VRAM_SIZE: usize = 2048;

/// Storage shared by the execution engine and the presentation layer; the
/// engine is the only writer.
pub struct Memory {
    /// The flat 4096-byte address space.
    pub ram: Vec<u8>,
    /// The call stack, separate from the address space.
    pub stack: Vec<u16>,
    /// The framebuffer, one byte per pixel, each 0 or 1.
    pub vram: Vec<u8>,
    /// Whether any pixel changed since the renderer last observed the
    /// framebuffer.
    pub vram_changed: bool,
}

impl Memory {
    /// The structural invariant: sizes are fixed, every pixel is a bit, and
    /// every stacked return address points at a full opcode in RAM (the
    /// engine only pushes such addresses).
    pub open spec fn wf(self) -> bool {
        &&& self.ram@.len() == RAM_SIZE
        &&& self.stack@.len() == STACK_SIZE
        &&& self.vram@.len() == VRAM_SIZE
        &&& forall|p: int| 0 <= p < VRAM_SIZE ==> self.vram@[p] == 0 || self.vram@[p] == 1
        &&& forall|j: int| 0 <= j < STACK_SIZE ==> self.stack@[j] < 4095
    }

    /// Fresh storage: RAM all zero but for the font set at the bottom, an
    /// empty stack, a blank framebuffer, and the dirty flag raised so a
    /// renderer draws the first frame.
    pub fn new() -> (m: Memory)
        ensures
            m.wf(),
            m.ram@.len() == RAM_SIZE,
            forall|a: int| 0 <= a < 80 ==> m.ram@[a] == font_seq()[a],
            forall|a: int| 80 <= a < RAM_SIZE ==> m.ram@[a] == 0,
            forall|j: int| 0 <= j < STACK_SIZE ==> m.stack@[j] == 0,
            forall|p: int| 0 <= p < VRAM_SIZE ==> m.vram@[p] == 0,
            m.vram_changed,
    {
        let stack: Vec<u16> = vec![0u16; STACK_SIZE];
        let vram: Vec<u8> = vec![0u8; VRAM_SIZE];
        let mut ram: Vec<u8> = vec![0u8; RAM_SIZE];

        let font = font_bytes();
        let mut a: usize = 0;
        while a < FONT_SET_LEN
            invariant
                a <= FONT_SET_LEN,
                ram@.len() == RAM_SIZE,
                font@ == font_seq(),
                forall|k: int| 0 <= k < a ==> ram@[k] == font_seq()[k],
                forall|k: int| a <= k < RAM_SIZE ==> ram@[k] == 0,
            decreases FONT_SET_LEN - a,
        {
            ram[a] = font[a];
            a = a + 1;
        }

        Memory { ram, stack, vram, vram_changed: true }
    }

    /// Copies a program into RAM starting at `0x200`, all or nothing: a
    /// program longer than the 3584-byte program space is rejected without
    /// mutating anything.
    pub fn load(&mut self, program: &[u8]) -> (r: Result<(), Chip8Error>)
        requires
            old(self).wf(),
        ensures
            final(self).wf(),
            program@.len() > RAM_SIZE - PROGRAM_START ==> {
                &&& r == Err::<(), Chip8Error>(Chip8Error::ProgramTooLarge)
                &&& final(self).ram@ == old(self).ram@
            },
            program@.len() <= RAM_SIZE - PROGRAM_START ==> {
                &&& r == Ok::<(), Chip8Error>(())
                &&& final(self).ram@.len() == RAM_SIZE
                &&& forall|a: int|
                    0 <= a < program@.len() ==> final(self).ram@[PROGRAM_START + a] == program@[a]
                &&& forall|a: int|
                    0 <= a < RAM_SIZE && !(PROGRAM_START <= a < PROGRAM_START + program@.len())
                        ==> final(self).ram@[a] == old(self).ram@[a]
            },
            final(self).stack@ == old(self).stack@,
            final(self).vram@ == old(self).vram@,
            final(self).vram_changed == old(self).vram_changed,
    {
        if program.len() > RAM_SIZE - PROGRAM_START {
            return Err(Chip8Error::ProgramTooLarge);
        }
        let n = program.len();
        let mut a: usize = 0;
        while a < n
            invariant
                a <= n,
                n == program@.len(),
                n <= RAM_SIZE - PROGRAM_START,
                self.ram@.len() == RAM_SIZE,
                forall|k: int| 0 <= k < a ==> self.ram@[PROGRAM_START + k] == program@[k],
                forall|k: int|
                    0 <= k < RAM_SIZE && !(PROGRAM_START <= k < PROGRAM_START + a)
                        ==> self.ram@[k] == old(self).ram@[k],
                self.stack@ == old(self).stack@,
                self.vram@ == old(self).vram@,
                self.vram_changed == old(self).vram_changed,
            decreases n - a,
        {
            self.ram[PROGRAM_START + a] = program[a];
            a = a + 1;
        }
        Ok(())
    }
}

} // verus!
