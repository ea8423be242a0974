//! The execution engine: registers, program counter, stack pointer, timers,
//! the key-wait latch, and the fetch/decode/dispatch cycle. Each instruction
//! handler mutates registers and storage and returns a control directive
//! which the dispatcher applies to the program counter.

use vstd::prelude::*;

use crate::Chip8Error;
use crate::hardware::KeyboardDriver;
use crate::memory::Memory;
use crate::memory::RAM_SIZE;
use crate::memory::STACK_SIZE;
use crate::memory::VRAM_SIZE;
use crate::semantics::alu_add;
use crate::semantics::alu_shl;
use crate::semantics::alu_shr;
use crate::semantics::alu_sub;
use crate::semantics::alu_subn;
use crate::semantics::blank_vram;
use crate::semantics::cpu_same;
use crate::semantics::draw_bit;
use crate::semantics::draw_row;
use crate::semantics::draw_rows;
use crate::semantics::fetch;
use crate::semantics::lemma_bit_ops;
use crate::semantics::lemma_mask_idem;
use crate::semantics::lemma_nibble_bounds;
use crate::semantics::lemma_shift_bit;
use crate::semantics::load_regs;
use crate::semantics::only_i;
use crate::semantics::only_v;
use crate::semantics::opcode_effect;
use crate::semantics::same_interp;
use crate::semantics::same_mem;
use crate::semantics::store_regs;
use crate::semantics::tick_rel;
use crate::semantics::wrap_add;
use crate::semantics::wrap_add16;

verus! {

/// The control-flow directive an instruction handler returns; the
/// dispatcher applies it to the program counter after the handler ran.
#[derive(Clone, Copy, Debug, PartialEq, Eq)]
pub enum Action {
    /// Advance to the following instruction.
    Next,
    /// Skip one instruction.
    Skip,
    /// Stop decoding further instructions.
    Halt,
    /// Continue at the given address.
    Jump(u16),
}

/// The CHIP-8 processor. It owns the machine's storage; collaborators read
/// snapshots between ticks.
pub struct Cpu {
    /// The sixteen general registers `V0..VF`.
    pub v: Vec<u8>,
    /// The address register `I`.
    pub i: u16,
    /// The program counter.
    pub pc: u16,
    /// The stack pointer: the number of call frames in use.
    pub sp: u8,
    /// The sound timer, counted down toward zero once per tick.
    pub sound_timer: u8,
    /// The delay timer, counted down toward zero once per tick.
    pub delay_timer: u8,
    /// The machine's storage.
    pub memory: Memory,
    /// Whether the engine has stopped decoding (the `0000` directive).
    pub halt: bool,
    /// Whether the engine is suspended awaiting a key press.
    pub keypad_waiting: bool,
    /// The register a `Fx0A` key wait stores the key into.
    pub keypad_register: u8,
}

impl Cpu {
    /// The structural invariant: the register file has its 16 entries, the
    /// storage is well formed, the stack pointer stays within the stack,
    /// and the key-wait destination names a register.
    pub open spec fn wf(self) -> bool {
        &&& self.memory.wf()
        &&& self.v@.len() == 16
        &&& self.sp <= STACK_SIZE
        &&& self.keypad_register < 16
    }

    /// A processor at the architectural reset state: `PC` at `0x200`,
    /// everything else zeroed, running.
    pub fn new(memory: Memory) -> (c: Cpu)
        requires
            memory.wf(),
        ensures
            c.wf(),
            c.v@ == Seq::new(16, |j: int| 0u8),
            c.i == 0,
            c.pc == 0x200,
            c.sp == 0,
            c.sound_timer == 0,
            c.delay_timer == 0,
            c.memory == memory,
            !c.halt,
            !c.keypad_waiting,
            c.keypad_register == 0,
    {
        let c = Cpu {
            v: vec![0u8; 16],
            i: 0,
            pc: 0x200,
            sp: 0,
            sound_timer: 0,
            delay_timer: 0,
            memory,
            halt: false,
            keypad_waiting: false,
            keypad_register: 0,
        };
        assert(c.v@ =~= Seq::new(16, |j: int| 0u8));
        c
    }

    /// Fetches the big-endian 16-bit instruction word at the program
    /// counter.
    pub fn opcode(&self) -> (op: u16)
        requires
            self.wf(),
            self.pc + 1 < 4096,
        ensures
            op == fetch(self.memory.ram@, self.pc as int),
    {
        let hi = self.memory.ram[self.pc as usize];
        let lo = self.memory.ram[self.pc as usize + 1];
        ((hi as u16) << 8) | (lo as u16)
    }
}


// ---------------------------------------------------------------------------
// Instruction handlers
// ---------------------------------------------------------------------------

impl Cpu {
    /// `00E0` CLS: clears every framebuffer cell and marks it dirty.
    pub fn op_00e0(&mut self) -> (a: Action)
        requires
            old(self).wf(),
        ensures
            final(self).wf(),
            same_interp(*old(self), *final(self)),
            final(self).v@ == old(self).v@,
            final(self).i == old(self).i,
            final(self).pc == old(self).pc,
            final(self).sp == old(self).sp,
            final(self).memory.ram@ == old(self).memory.ram@,
            final(self).memory.stack@ == old(self).memory.stack@,
            final(self).memory.vram@ == blank_vram(),
            final(self).memory.vram_changed,
            a == Action::Next,
    {
        self.memory.vram = vec![0u8; VRAM_SIZE];
        self.memory.vram_changed = true;
        assert(self.memory.vram@ =~= blank_vram());
        Action::Next
    }

    /// `00EE` RET: pops the program counter from the stack.
    pub fn op_00ee(&mut self) -> (a: Action)
        requires
            old(self).wf(),
            old(self).sp >= 1,
        ensures
            final(self).wf(),
            same_interp(*old(self), *final(self)),
            same_mem(*old(self), *final(self)),
            final(self).v@ == old(self).v@,
            final(self).i == old(self).i,
            final(self).sp == old(self).sp - 1,
            final(self).pc == old(self).memory.stack@[old(self).sp - 1],
            a == Action::Next,
    {
        self.sp = self.sp - 1;
        self.pc = self.memory.stack[self.sp as usize];
        Action::Next
    }

    /// `1nnn` JP: continues at `nnn`.
    pub fn op_1nnn(&mut self, nnn: u16) -> (a: Action)
        requires
            old(self).wf(),
        ensures
            final(self).wf(),
            cpu_same(*old(self), *final(self)),
            a == Action::Jump(nnn),
    {
        Action::Jump(nnn)
    }

    /// `2nnn` CALL: pushes the current program counter and continues at
    /// `nnn`.
    pub fn op_2nnn(&mut self, nnn: u16) -> (a: Action)
        requires
            old(self).wf(),
            old(self).sp < STACK_SIZE,
            old(self).pc < 4095,
        ensures
            final(self).wf(),
            same_interp(*old(self), *final(self)),
            final(self).v@ == old(self).v@,
            final(self).i == old(self).i,
            final(self).pc == old(self).pc,
            final(self).memory.ram@ == old(self).memory.ram@,
            final(self).memory.vram@ == old(self).memory.vram@,
            final(self).memory.vram_changed == old(self).memory.vram_changed,
            final(self).memory.stack@ == old(self).memory.stack@.update(
                old(self).sp as int,
                old(self).pc,
            ),
            final(self).sp == old(self).sp + 1,
            a == Action::Jump(nnn),
    {
        self.memory.stack[self.sp as usize] = self.pc;
        self.sp = self.sp + 1;
        Action::Jump(nnn)
    }

    /// `3xkk` SE: skips the next instruction when `Vx == kk`.
    pub fn op_3xkk(&mut self, x: usize, kk: u8) -> (a: Action)
        requires
            old(self).wf(),
            x < 16,
        ensures
            final(self).wf(),
            cpu_same(*old(self), *final(self)),
            a == (if old(self).v@[x as int] == kk {
                Action::Skip
            } else {
                Action::Next
            }),
    {
        if self.v[x] == kk {
            Action::Skip
        } else {
            Action::Next
        }
    }

    /// `4xkk` SNE: skips the next instruction when `Vx != kk`.
    pub fn op_4xkk(&mut self, x: usize, kk: u8) -> (a: Action)
        requires
            old(self).wf(),
            x < 16,
        ensures
            final(self).wf(),
            cpu_same(*old(self), *final(self)),
            a == (if old(self).v@[x as int] != kk {
                Action::Skip
            } else {
                Action::Next
            }),
    {
        if self.v[x] != kk {
            Action::Skip
        } else {
            Action::Next
        }
    }

    /// `5xy0` SE: skips the next instruction when `Vx == Vy`.
    pub fn op_5xy0(&mut self, x: usize, y: usize) -> (a: Action)
        requires
            old(self).wf(),
            x < 16,
            y < 16,
        ensures
            final(self).wf(),
            cpu_same(*old(self), *final(self)),
            a == (if old(self).v@[x as int] == old(self).v@[y as int] {
                Action::Skip
            } else {
                Action::Next
            }),
    {
        if self.v[x] == self.v[y] {
            Action::Skip
        } else {
            Action::Next
        }
    }

    /// `6xkk` LD: loads `kk` into `Vx`.
    pub fn op_6xkk(&mut self, x: usize, kk: u8) -> (a: Action)
        requires
            old(self).wf(),
            x < 16,
        ensures
            final(self).wf(),
            only_v(*old(self), *final(self)),
            final(self).pc == old(self).pc,
            final(self).v@ == old(self).v@.update(x as int, kk),
            a == Action::Next,
    {
        self.v[x] = kk;
        Action::Next
    }

    /// `7xkk` ADD: adds `kk` to `Vx`, wrapping modulo 256, flags untouched.
    pub fn op_7xkk(&mut self, x: usize, kk: u8) -> (a: Action)
        requires
            old(self).wf(),
            x < 16,
        ensures
            final(self).wf(),
            only_v(*old(self), *final(self)),
            final(self).pc == old(self).pc,
            final(self).v@ == old(self).v@.update(x as int, wrap_add(old(self).v@[x as int], kk)),
            a == Action::Next,
    {
        self.v[x] = self.v[x].wrapping_add(kk);
        Action::Next
    }

    /// `8xy0` LD: copies `Vy` into `Vx`.
    pub fn op_8xy0(&mut self, x: usize, y: usize) -> (a: Action)
        requires
            old(self).wf(),
            x < 16,
            y < 16,
        ensures
            final(self).wf(),
            only_v(*old(self), *final(self)),
            final(self).pc == old(self).pc,
            final(self).v@ == old(self).v@.update(x as int, old(self).v@[y as int]),
            a == Action::Next,
    {
        self.v[x] = self.v[y];
        Action::Next
    }

    /// `8xy1` OR: bitwise or of `Vx` and `Vy` into `Vx`.
    pub fn op_8xy1(&mut self, x: usize, y: usize) -> (a: Action)
        requires
            old(self).wf(),
            x < 16,
            y < 16,
        ensures
            final(self).wf(),
            only_v(*old(self), *final(self)),
            final(self).pc == old(self).pc,
            final(self).v@ == old(self).v@.update(
                x as int,
                old(self).v@[x as int] | old(self).v@[y as int],
            ),
            a == Action::Next,
    {
        self.v[x] = self.v[x] | self.v[y];
        Action::Next
    }

    /// `8xy2` AND: bitwise and of `Vx` and `Vy` into `Vx`.
    pub fn op_8xy2(&mut self, x: usize, y: usize) -> (a: Action)
        requires
            old(self).wf(),
            x < 16,
            y < 16,
        ensures
            final(self).wf(),
            only_v(*old(self), *final(self)),
            final(self).pc == old(self).pc,
            final(self).v@ == old(self).v@.update(
                x as int,
                old(self).v@[x as int] & old(self).v@[y as int],
            ),
            a == Action::Next,
    {
        self.v[x] = self.v[x] & self.v[y];
        Action::Next
    }

    /// `8xy3` XOR: bitwise exclusive or of `Vx` and `Vy` into `Vx`.
    pub fn op_8xy3(&mut self, x: usize, y: usize) -> (a: Action)
        requires
            old(self).wf(),
            x < 16,
            y < 16,
        ensures
            final(self).wf(),
            only_v(*old(self), *final(self)),
            final(self).pc == old(self).pc,
            final(self).v@ == old(self).v@.update(
                x as int,
                old(self).v@[x as int] ^ old(self).v@[y as int],
            ),
            a == Action::Next,
    {
        self.v[x] = self.v[x] ^ self.v[y];
        Action::Next
    }

    /// `8xy4` ADD: adds `Vy` to `Vx` wrapping modulo 256; `VF` becomes 1
    /// exactly when the unwrapped 9-bit sum exceeds `0xFF`.
    pub fn op_8xy4(&mut self, x: usize, y: usize) -> (a: Action)
        requires
            old(self).wf(),
            x < 16,
            y < 16,
        ensures
            final(self).wf(),
            only_v(*old(self), *final(self)),
            final(self).pc == old(self).pc,
            final(self).v@ == alu_add(old(self).v@, x as int, y as int),
            a == Action::Next,
    {
        let vx = self.v[x] as u16;
        let vy = self.v[y] as u16;
        let result = vx + vy;
        self.v[x] = self.v[x].wrapping_add(self.v[y]);
        self.v[15] = if result > 0xFF {
            1
        } else {
            0
        };
        Action::Next
    }

    /// `8xy5` SUB: `VF` becomes 1 exactly when `Vx > Vy` before the
    /// subtraction; then `Vx -= Vy` wrapping modulo 256.
    pub fn op_8xy5(&mut self, x: usize, y: usize) -> (a: Action)
        requires
            old(self).wf(),
            x < 16,
            y < 16,
        ensures
            final(self).wf(),
            only_v(*old(self), *final(self)),
            final(self).pc == old(self).pc,
            final(self).v@ == alu_sub(old(self).v@, x as int, y as int),
            a == Action::Next,
    {
        self.v[15] = if self.v[x] > self.v[y] {
            1
        } else {
            0
        };
        self.v[x] = self.v[x].wrapping_sub(self.v[y]);
        Action::Next
    }

    /// `8xy6` SHR: `VF` takes the shifted-out low bit, then `Vx` shifts
    /// right by one.
    pub fn op_8xy6(&mut self, x: usize, _y: usize) -> (a: Action)
        requires
            old(self).wf(),
            x < 16,
        ensures
            final(self).wf(),
            only_v(*old(self), *final(self)),
            final(self).pc == old(self).pc,
            final(self).v@ == alu_shr(old(self).v@, x as int),
            a == Action::Next,
    {
        self.v[15] = self.v[x] & 0x1;
        self.v[x] = self.v[x] >> 1;
        Action::Next
    }

    /// `8xy7` SUBN: `VF` becomes 1 exactly when `Vy > Vx` before the
    /// subtraction; then `Vx = Vx - Vy` wrapping modulo 256.
    pub fn op_8xy7(&mut self, x: usize, y: usize) -> (a: Action)
        requires
            old(self).wf(),
            x < 16,
            y < 16,
        ensures
            final(self).wf(),
            only_v(*old(self), *final(self)),
            final(self).pc == old(self).pc,
            final(self).v@ == alu_subn(old(self).v@, x as int, y as int),
            a == Action::Next,
    {
        let vx = self.v[x];
        let vy = self.v[y];
        self.v[15] = if vy > vx {
            1
        } else {
            0
        };
        self.v[x] = self.v[x].wrapping_sub(self.v[y]);
        Action::Next
    }

    /// `8xyE` SHL: `VF` takes the shifted-out high bit, then `Vx` shifts
    /// left by one.
    pub fn op_8xye(&mut self, x: usize, _y: usize) -> (a: Action)
        requires
            old(self).wf(),
            x < 16,
        ensures
            final(self).wf(),
            only_v(*old(self), *final(self)),
            final(self).pc == old(self).pc,
            final(self).v@ == alu_shl(old(self).v@, x as int),
            a == Action::Next,
    {
        self.v[15] = ((self.v[x] & 0x80) >> 7) & 0x1;
        self.v[x] = self.v[x] << 1;
        Action::Next
    }

    /// `9xy0` SNE: skips the next instruction when `Vx != Vy`.
    pub fn op_9xy0(&mut self, x: usize, y: usize) -> (a: Action)
        requires
            old(self).wf(),
            x < 16,
            y < 16,
        ensures
            final(self).wf(),
            cpu_same(*old(self), *final(self)),
            a == (if old(self).v@[x as int] != old(self).v@[y as int] {
                Action::Skip
            } else {
                Action::Next
            }),
    {
        if self.v[x] != self.v[y] {
            Action::Skip
        } else {
            Action::Next
        }
    }

    /// `Annn` LD I: loads `nnn` into the address register.
    pub fn op_annn(&mut self, nnn: u16) -> (a: Action)
        requires
            old(self).wf(),
        ensures
            final(self).wf(),
            only_i(*old(self), *final(self)),
            final(self).pc == old(self).pc,
            final(self).i == nnn,
            a == Action::Next,
    {
        self.i = nnn;
        Action::Next
    }

    /// `Bnnn` JP V0: continues at `V0 + nnn`.
    pub fn op_bnnn(&mut self, nnn: u16) -> (a: Action)
        requires
            old(self).wf(),
            nnn < 4096,
        ensures
            final(self).wf(),
            cpu_same(*old(self), *final(self)),
            a == Action::Jump((old(self).v@[0] + nnn) as u16),
    {
        Action::Jump(self.v[0] as u16 + nnn)
    }

    /// `Cxkk` RND: a fresh random byte masked with `kk` into `Vx`. Nothing
    /// is promised of the byte, so the contract states only what holds of
    /// every outcome: registers other than `Vx` keep their values, and
    /// `Vx` carries no bit outside the mask.
    pub fn op_cxkk(&mut self, x: usize, kk: u8) -> (a: Action)
        requires
            old(self).wf(),
            x < 16,
        ensures
            final(self).wf(),
            only_v(*old(self), *final(self)),
            final(self).pc == old(self).pc,
            final(self).v@.len() == old(self).v@.len(),
            forall|j: int| 0 <= j < old(self).v@.len() && j != x ==> final(self).v@[j] == old(
                self,
            ).v@[j],
            final(self).v@[x as int] & kk == final(self).v@[x as int],
            a == Action::Next,
    {
        let b = random_byte();
        let masked = b & kk;
        self.v[x] = masked;
        proof {
            lemma_mask_idem(b, kk);
        }
        Action::Next
    }


    /// `Dxyn` DRW: XORs the `n`-row sprite at `I` onto the framebuffer at
    /// `(Vx, Vy)`, wrapping coordinates modulo the framebuffer size, ORing
    /// any erased pixel into `VF`, and marks the framebuffer dirty.
    #[verifier::rlimit(60)]
    pub fn op_dxyn(&mut self, x: usize, y: usize, n: usize) -> (a: Action)
        requires
            old(self).wf(),
            x < 16,
            y < 16,
            n < 16,
            n > 0 ==> old(self).i + n <= RAM_SIZE,
        ensures
            final(self).wf(),
            same_interp(*old(self), *final(self)),
            final(self).i == old(self).i,
            final(self).pc == old(self).pc,
            final(self).sp == old(self).sp,
            final(self).memory.ram@ == old(self).memory.ram@,
            final(self).memory.stack@ == old(self).memory.stack@,
            final(self).v@ == draw_rows(
                old(self).v@,
                old(self).memory.vram@,
                old(self).memory.ram@,
                old(self).i as int,
                x as int,
                y as int,
                n as int,
            ).0,
            final(self).memory.vram@ == draw_rows(
                old(self).v@,
                old(self).memory.vram@,
                old(self).memory.ram@,
                old(self).i as int,
                x as int,
                y as int,
                n as int,
            ).1,
            final(self).memory.vram_changed,
            a == Action::Next,
    {
        let mut byte: usize = 0;
        while byte < n
            invariant
                self.wf(),
                x < 16,
                y < 16,
                n < 16,
                byte <= n,
                n > 0 ==> old(self).i + n <= RAM_SIZE,
                same_interp(*old(self), *self),
                self.i == old(self).i,
                self.pc == old(self).pc,
                self.sp == old(self).sp,
                self.memory.ram@ == old(self).memory.ram@,
                self.memory.stack@ == old(self).memory.stack@,
                self.memory.vram_changed == old(self).memory.vram_changed,
                self.v@ == draw_rows(
                    old(self).v@,
                    old(self).memory.vram@,
                    old(self).memory.ram@,
                    old(self).i as int,
                    x as int,
                    y as int,
                    byte as int,
                ).0,
                self.memory.vram@ == draw_rows(
                    old(self).v@,
                    old(self).memory.vram@,
                    old(self).memory.ram@,
                    old(self).i as int,
                    x as int,
                    y as int,
                    byte as int,
                ).1,
            decreases n - byte,
        {
            let yy = (self.v[y] as usize + byte) % 32;
            let row_byte = self.memory.ram[self.i as usize + byte];
            let ghost v_row = self.v@;
            let ghost vram_row = self.memory.vram@;
            let mut bit: u8 = 0;
            while bit < 8
                invariant
                    self.wf(),
                    x < 16,
                    y < 16,
                    bit <= 8,
                    yy < 32,
                    same_interp(*old(self), *self),
                    self.i == old(self).i,
                    self.pc == old(self).pc,
                    self.sp == old(self).sp,
                    self.memory.ram@ == old(self).memory.ram@,
                    self.memory.stack@ == old(self).memory.stack@,
                    self.memory.vram_changed == old(self).memory.vram_changed,
                    self.v@ == draw_row(v_row, vram_row, row_byte, x as int, yy as int, bit as int).0,
                    self.memory.vram@ == draw_row(
                        v_row,
                        vram_row,
                        row_byte,
                        x as int,
                        yy as int,
                        bit as int,
                    ).1,
                decreases 8 - bit,
            {
                let ghost v_bit = self.v@;
                let ghost vram_bit = self.memory.vram@;
                let xx = (self.v[x].wrapping_add(bit)) as usize % 64;
                let color = (row_byte >> (7 - bit)) & 1;
                let idx = yy * 64 + xx;
                proof {
                    lemma_shift_bit(row_byte, (7 - bit) as u8);
                    lemma_bit_ops(self.memory.vram@[idx as int], color);
                }
                let collision = color & self.memory.vram[idx];
                self.v[15] = self.v[15] | collision;
                self.memory.vram[idx] = self.memory.vram[idx] ^ color;
                proof {
                    assert(self.v@ == draw_bit(
                        v_bit,
                        vram_bit,
                        row_byte,
                        x as int,
                        yy as int,
                        bit as int,
                    ).0);
                    assert(self.memory.vram@ == draw_bit(
                        v_bit,
                        vram_bit,
                        row_byte,
                        x as int,
                        yy as int,
                        bit as int,
                    ).1);
                }
                bit = bit + 1;
            }
            byte = byte + 1;
        }
        self.memory.vram_changed = true;
        Action::Next
    }

    /// `Ex9E` SKP: skips the next instruction when key `Vx` is down.
    pub fn op_ex9e<K: KeyboardDriver>(&mut self, x: usize, keyboard: &K) -> (a: Action)
        requires
            old(self).wf(),
            x < 16,
            keyboard.wf(),
            old(self).v@[x as int] < 16,
        ensures
            final(self).wf(),
            cpu_same(*old(self), *final(self)),
            a == (if keyboard.pressed(old(self).v@[x as int]) {
                Action::Skip
            } else {
                Action::Next
            }),
    {
        if keyboard.is_key_pressed(self.v[x]) {
            Action::Skip
        } else {
            Action::Next
        }
    }

    /// `ExA1` SKNP: skips the next instruction when key `Vx` is up.
    pub fn op_exa1<K: KeyboardDriver>(&mut self, x: usize, keyboard: &K) -> (a: Action)
        requires
            old(self).wf(),
            x < 16,
            keyboard.wf(),
            old(self).v@[x as int] < 16,
        ensures
            final(self).wf(),
            cpu_same(*old(self), *final(self)),
            a == (if !keyboard.pressed(old(self).v@[x as int]) {
                Action::Skip
            } else {
                Action::Next
            }),
    {
        if !keyboard.is_key_pressed(self.v[x]) {
            Action::Skip
        } else {
            Action::Next
        }
    }

    /// `Fx07` LD: reads the delay timer into `Vx`.
    pub fn op_fx07(&mut self, x: usize) -> (a: Action)
        requires
            old(self).wf(),
            x < 16,
        ensures
            final(self).wf(),
            only_v(*old(self), *final(self)),
            final(self).pc == old(self).pc,
            final(self).v@ == old(self).v@.update(x as int, old(self).delay_timer),
            a == Action::Next,
    {
        self.v[x] = self.delay_timer;
        Action::Next
    }

    /// `Fx0A` LD: latches a key wait with destination register `x`. The
    /// program counter still advances; the following tick is the first one
    /// that blocks on the latch.
    pub fn op_fx0a(&mut self, x: usize) -> (a: Action)
        requires
            old(self).wf(),
            x < 16,
        ensures
            final(self).wf(),
            same_mem(*old(self), *final(self)),
            final(self).v@ == old(self).v@,
            final(self).i == old(self).i,
            final(self).pc == old(self).pc,
            final(self).sp == old(self).sp,
            final(self).sound_timer == old(self).sound_timer,
            final(self).delay_timer == old(self).delay_timer,
            final(self).halt == old(self).halt,
            final(self).keypad_waiting,
            final(self).keypad_register == x,
            a == Action::Next,
    {
        self.keypad_waiting = true;
        self.keypad_register = x as u8;
        Action::Next
    }

    /// `Fx15` LD: loads `Vx` into the delay timer.
    pub fn op_fx15(&mut self, x: usize) -> (a: Action)
        requires
            old(self).wf(),
            x < 16,
        ensures
            final(self).wf(),
            same_mem(*old(self), *final(self)),
            final(self).v@ == old(self).v@,
            final(self).i == old(self).i,
            final(self).pc == old(self).pc,
            final(self).sp == old(self).sp,
            final(self).sound_timer == old(self).sound_timer,
            final(self).delay_timer == old(self).v@[x as int],
            final(self).halt == old(self).halt,
            final(self).keypad_waiting == old(self).keypad_waiting,
            final(self).keypad_register == old(self).keypad_register,
            a == Action::Next,
    {
        self.delay_timer = self.v[x];
        Action::Next
    }

    /// `Fx18` LD: loads `Vx` into the sound timer.
    pub fn op_fx18(&mut self, x: usize) -> (a: Action)
        requires
            old(self).wf(),
            x < 16,
        ensures
            final(self).wf(),
            same_mem(*old(self), *final(self)),
            final(self).v@ == old(self).v@,
            final(self).i == old(self).i,
            final(self).pc == old(self).pc,
            final(self).sp == old(self).sp,
            final(self).sound_timer == old(self).v@[x as int],
            final(self).delay_timer == old(self).delay_timer,
            final(self).halt == old(self).halt,
            final(self).keypad_waiting == old(self).keypad_waiting,
            final(self).keypad_register == old(self).keypad_register,
            a == Action::Next,
    {
        self.sound_timer = self.v[x];
        Action::Next
    }

    /// `Fx1E` ADD I: adds `Vx` to the address register, wrapping modulo
    /// 65536.
    pub fn op_fx1e(&mut self, x: usize) -> (a: Action)
        requires
            old(self).wf(),
            x < 16,
        ensures
            final(self).wf(),
            only_i(*old(self), *final(self)),
            final(self).pc == old(self).pc,
            final(self).i == wrap_add16(old(self).i, old(self).v@[x as int] as u16),
            a == Action::Next,
    {
        self.i = self.i.wrapping_add(self.v[x] as u16);
        Action::Next
    }

    /// `Fx29` LD F: points the address register at the font glyph for the
    /// hexadecimal digit in `Vx` (meaningful only for `Vx <= 0xF`).
    pub fn op_fx29(&mut self, x: usize) -> (a: Action)
        requires
            old(self).wf(),
            x < 16,
        ensures
            final(self).wf(),
            only_i(*old(self), *final(self)),
            final(self).pc == old(self).pc,
            final(self).i == old(self).v@[x as int] * 5,
            a == Action::Next,
    {
        self.i = (self.v[x] as u16) * 5;
        Action::Next
    }

    /// `Fx33` LD B: stores the three decimal digits of `Vx` at `I`, `I+1`,
    /// `I+2`.
    pub fn op_fx33(&mut self, x: usize) -> (a: Action)
        requires
            old(self).wf(),
            x < 16,
            old(self).i + 3 <= RAM_SIZE,
        ensures
            final(self).wf(),
            same_interp(*old(self), *final(self)),
            final(self).v@ == old(self).v@,
            final(self).i == old(self).i,
            final(self).pc == old(self).pc,
            final(self).sp == old(self).sp,
            final(self).memory.stack@ == old(self).memory.stack@,
            final(self).memory.vram@ == old(self).memory.vram@,
            final(self).memory.vram_changed == old(self).memory.vram_changed,
            final(self).memory.ram@ == old(self).memory.ram@.update(
                old(self).i as int,
                (old(self).v@[x as int] / 100) as u8,
            ).update(old(self).i + 1, ((old(self).v@[x as int] / 10) % 10) as u8).update(
                old(self).i + 2,
                ((old(self).v@[x as int] % 100) % 10) as u8,
            ),
            a == Action::Next,
    {
        let vx = self.v[x];
        let base = self.i as usize;
        self.memory.ram[base] = vx / 100;
        self.memory.ram[base + 1] = (vx / 10) % 10;
        self.memory.ram[base + 2] = (vx % 100) % 10;
        Action::Next
    }

    /// `Fx55` LD: stores `V0..=Vx` to RAM at `I..=I+x`.
    pub fn op_fx55(&mut self, x: usize) -> (a: Action)
        requires
            old(self).wf(),
            x < 16,
            old(self).i + x + 1 <= RAM_SIZE,
        ensures
            final(self).wf(),
            same_interp(*old(self), *final(self)),
            final(self).v@ == old(self).v@,
            final(self).i == old(self).i,
            final(self).pc == old(self).pc,
            final(self).sp == old(self).sp,
            final(self).memory.stack@ == old(self).memory.stack@,
            final(self).memory.vram@ == old(self).memory.vram@,
            final(self).memory.vram_changed == old(self).memory.vram_changed,
            final(self).memory.ram@ == store_regs(
                old(self).memory.ram@,
                old(self).v@,
                old(self).i as int,
                x as int,
            ),
            a == Action::Next,
    {
        let base = self.i as usize;
        let mut j: usize = 0;
        while j <= x
            invariant
                self.wf(),
                x < 16,
                j <= x + 1,
                base == old(self).i,
                base + x + 1 <= RAM_SIZE,
                same_interp(*old(self), *self),
                self.v@ == old(self).v@,
                self.i == old(self).i,
                self.pc == old(self).pc,
                self.sp == old(self).sp,
                self.memory.stack@ == old(self).memory.stack@,
                self.memory.vram@ == old(self).memory.vram@,
                self.memory.vram_changed == old(self).memory.vram_changed,
                forall|k: int| 0 <= k < j ==> self.memory.ram@[base + k] == old(self).v@[k],
                forall|k: int|
                    0 <= k < RAM_SIZE && !(base <= k < base + j) ==> self.memory.ram@[k] == old(
                        self,
                    ).memory.ram@[k],
            decreases x + 1 - j,
        {
            self.memory.ram[base + j] = self.v[j];
            j = j + 1;
        }
        assert(self.memory.ram@ =~= store_regs(
            old(self).memory.ram@,
            old(self).v@,
            old(self).i as int,
            x as int,
        ));
        Action::Next
    }

    /// `Fx65` LD: fills `V0..=Vx` from RAM at `I..=I+x`.
    pub fn op_fx65(&mut self, x: usize) -> (a: Action)
        requires
            old(self).wf(),
            x < 16,
            old(self).i + x + 1 <= RAM_SIZE,
        ensures
            final(self).wf(),
            only_v(*old(self), *final(self)),
            final(self).pc == old(self).pc,
            final(self).v@ == load_regs(
                old(self).v@,
                old(self).memory.ram@,
                old(self).i as int,
                x as int,
            ),
            a == Action::Next,
    {
        let base = self.i as usize;
        let mut j: usize = 0;
        while j <= x
            invariant
                self.wf(),
                x < 16,
                j <= x + 1,
                base == old(self).i,
                base + x + 1 <= RAM_SIZE,
                same_interp(*old(self), *self),
                same_mem(*old(self), *self),
                self.i == old(self).i,
                self.pc == old(self).pc,
                self.sp == old(self).sp,
                forall|k: int| 0 <= k < j ==> self.v@[k] == old(self).memory.ram@[base + k],
                forall|k: int| j <= k < 16 ==> self.v@[k] == old(self).v@[k],
            decreases x + 1 - j,
        {
            self.v[j] = self.memory.ram[base + j];
            j = j + 1;
        }
        assert(self.v@ =~= load_regs(
            old(self).v@,
            old(self).memory.ram@,
            old(self).i as int,
            x as int,
        ));
        Action::Next
    }
}


// ---------------------------------------------------------------------------
// Dispatch and the tick cycle
// ---------------------------------------------------------------------------

impl Cpu {
    /// Decodes `opcode` into its four nibbles, dispatches to the matching
    /// instruction handler, and applies the returned control directive to
    /// the program counter. The undefined conditions (an opcode outside
    /// the 35 forms, stack overflow or underflow, an out-of-range RAM
    /// access, a key index outside the keypad) are reported as errors with
    /// the machine untouched; `opcode_effect` states the exact outcome in
    /// every case.
    #[verifier::rlimit(100)]
    pub fn run_opcode<K: KeyboardDriver>(&mut self, opcode: u16, keyboard: &K) -> (r: Result<
        (),
        Chip8Error,
    >)
        requires
            old(self).wf(),
            keyboard.wf(),
            old(self).pc < 4095,
        ensures
            final(self).wf(),
            opcode_effect(*old(self), *final(self), *keyboard, opcode, r),
    {
        proof {
            lemma_nibble_bounds(opcode);
        }
        let nibbles = (
            ((opcode & 0xF000) >> 12) as u8,
            ((opcode & 0x0F00) >> 8) as u8,
            ((opcode & 0x00F0) >> 4) as u8,
            (opcode & 0x000F) as u8,
        );

        let nnn = opcode & 0x0FFF;
        let kk = (opcode & 0x00FF) as u8;
        let x = nibbles.1 as usize;
        let y = nibbles.2 as usize;
        let n = nibbles.3 as usize;

        match nibbles {
            (0x0, 0x0, 0x0, 0x0) => {
                self.apply_action(Action::Halt);
                return Ok(());
            },
            (0x0, 0x0, 0xE, 0x0) => {
                let a = self.op_00e0();
                self.apply_action(a);
                return Ok(());
            },
            (0x0, 0x0, 0xE, 0xE) => {
                if self.sp == 0 {
                    return Err(Chip8Error::StackUnderflow);
                }
                let a = self.op_00ee();
                self.apply_action(a);
                return Ok(());
            },
            (0x1, _, _, _) => {
                let a = self.op_1nnn(nnn);
                self.apply_action(a);
                return Ok(());
            },
            (0x2, _, _, _) => {
                if self.sp as usize >= STACK_SIZE {
                    return Err(Chip8Error::StackOverflow);
                }
                let a = self.op_2nnn(nnn);
                self.apply_action(a);
                return Ok(());
            },
            (0x3, _, _, _) => {
                let a = self.op_3xkk(x, kk);
                self.apply_action(a);
                return Ok(());
            },
            (0x4, _, _, _) => {
                let a = self.op_4xkk(x, kk);
                self.apply_action(a);
                return Ok(());
            },
            (0x5, _, _, 0x00) => {
                let a = self.op_5xy0(x, y);
                self.apply_action(a);
                return Ok(());
            },
            (0x6, _, _, _) => {
                let a = self.op_6xkk(x, kk);
                self.apply_action(a);
                return Ok(());
            },
            (0x7, _, _, _) => {
                let a = self.op_7xkk(x, kk);
                self.apply_action(a);
                return Ok(());
            },
            (0x8, _, _, 0x00) => {
                let a = self.op_8xy0(x, y);
                self.apply_action(a);
                return Ok(());
            },
            (0x8, _, _, 0x01) => {
                let a = self.op_8xy1(x, y);
                self.apply_action(a);
                return Ok(());
            },
            (0x8, _, _, 0x02) => {
                let a = self.op_8xy2(x, y);
                self.apply_action(a);
                return Ok(());
            },
            (0x8, _, _, 0x03) => {
                let a = self.op_8xy3(x, y);
                self.apply_action(a);
                return Ok(());
            },
            (0x8, _, _, 0x04) => {
                let a = self.op_8xy4(x, y);
                self.apply_action(a);
                return Ok(());
            },
            (0x8, _, _, 0x05) => {
                let a = self.op_8xy5(x, y);
                self.apply_action(a);
                return Ok(());
            },
            (0x8, _, _, 0x06) => {
                let a = self.op_8xy6(x, y);
                self.apply_action(a);
                return Ok(());
            },
            (0x8, _, _, 0x07) => {
                let a = self.op_8xy7(x, y);
                self.apply_action(a);
                return Ok(());
            },
            (0x8, _, _, 0x0E) => {
                let a = self.op_8xye(x, y);
                self.apply_action(a);
                return Ok(());
            },
            (0x9, _, _, 0x00) => {
                let a = self.op_9xy0(x, y);
                self.apply_action(a);
                return Ok(());
            },
            (0xA, _, _, _) => {
                let a = self.op_annn(nnn);
                self.apply_action(a);
                return Ok(());
            },
            (0xB, _, _, _) => {
                let a = self.op_bnnn(nnn);
                self.apply_action(a);
                return Ok(());
            },
            (0xC, _, _, _) => {
                let a = self.op_cxkk(x, kk);
                self.apply_action(a);
                return Ok(());
            },
            (0xD, _, _, _) => {
                if n > 0 && self.i as usize + n > RAM_SIZE {
                    return Err(Chip8Error::AddressOutOfRange);
                }
                let a = self.op_dxyn(x, y, n);
                self.apply_action(a);
                return Ok(());
            },
            (0xE, _, 0x09, 0x0E) => {
                if self.v[x] >= 16 {
                    return Err(Chip8Error::KeyOutOfRange);
                }
                let a = self.op_ex9e(x, keyboard);
                self.apply_action(a);
                return Ok(());
            },
            (0xE, _, 0x0A, 0x01) => {
                if self.v[x] >= 16 {
                    return Err(Chip8Error::KeyOutOfRange);
                }
                let a = self.op_exa1(x, keyboard);
                self.apply_action(a);
                return Ok(());
            },
            (0xF, _, 0x00, 0x07) => {
                let a = self.op_fx07(x);
                self.apply_action(a);
                return Ok(());
            },
            (0xF, _, 0x00, 0x0A) => {
                let a = self.op_fx0a(x);
                self.apply_action(a);
                return Ok(());
            },
            (0xF, _, 0x01, 0x05) => {
                let a = self.op_fx15(x);
                self.apply_action(a);
                return Ok(());
            },
            (0xF, _, 0x01, 0x08) => {
                let a = self.op_fx18(x);
                self.apply_action(a);
                return Ok(());
            },
            (0xF, _, 0x01, 0x0E) => {
                let a = self.op_fx1e(x);
                self.apply_action(a);
                return Ok(());
            },
            (0xF, _, 0x02, 0x09) => {
                let a = self.op_fx29(x);
                self.apply_action(a);
                return Ok(());
            },
            (0xF, _, 0x03, 0x03) => {
                if self.i as usize + 3 > RAM_SIZE {
                    return Err(Chip8Error::AddressOutOfRange);
                }
                let a = self.op_fx33(x);
                self.apply_action(a);
                return Ok(());
            },
            (0xF, _, 0x05, 0x05) => {
                if self.i as usize + x + 1 > RAM_SIZE {
                    return Err(Chip8Error::AddressOutOfRange);
                }
                let a = self.op_fx55(x);
                self.apply_action(a);
                return Ok(());
            },
            (0xF, _, 0x06, 0x05) => {
                if self.i as usize + x + 1 > RAM_SIZE {
                    return Err(Chip8Error::AddressOutOfRange);
                }
                let a = self.op_fx65(x);
                self.apply_action(a);
                return Ok(());
            },
            _ => {
                return Err(Chip8Error::UnknownOpcode);
            },
        }
    }

    /// Applies a control directive to the program counter, or raises the
    /// halt flag.
    fn apply_action(&mut self, a: Action)
        requires
            old(self).wf(),
            a == Action::Next || a == Action::Skip ==> old(self).pc + 4 < 65536,
        ensures
            final(self).wf(),
            same_mem(*old(self), *final(self)),
            final(self).v@ == old(self).v@,
            final(self).i == old(self).i,
            final(self).sp == old(self).sp,
            final(self).sound_timer == old(self).sound_timer,
            final(self).delay_timer == old(self).delay_timer,
            final(self).keypad_waiting == old(self).keypad_waiting,
            final(self).keypad_register == old(self).keypad_register,
            match a {
                Action::Next => final(self).pc == old(self).pc + 2 && final(self).halt == old(
                    self,
                ).halt,
                Action::Skip => final(self).pc == old(self).pc + 4 && final(self).halt == old(
                    self,
                ).halt,
                Action::Halt => final(self).pc == old(self).pc && final(self).halt,
                Action::Jump(addr) => final(self).pc == addr && final(self).halt == old(self).halt,
            },
    {
        match a {
            Action::Next => {
                self.pc = self.pc + 2;
            },
            Action::Skip => {
                self.pc = self.pc + 4;
            },
            Action::Halt => {
                self.halt = true;
            },
            Action::Jump(addr) => {
                self.pc = addr;
            },
        }
    }

    /// One tick: a halted engine does nothing; a waiting engine only polls
    /// the keypad and resolves the latch when a key is down; otherwise
    /// both timers count down one step and the instruction under the
    /// program counter is fetched, decoded, and executed.
    ///
    /// Timers count down once per tick, so they run at whatever rate the
    /// caller drives `tick` (a deliberate simplification of the fixed
    /// 60 Hz timer bank), and they pause while the key-wait latch is set.
    pub fn tick<K: KeyboardDriver>(&mut self, keyboard: &K) -> (r: Result<(), Chip8Error>)
        requires
            old(self).wf(),
            keyboard.wf(),
        ensures
            final(self).wf(),
            tick_rel(*old(self), *final(self), *keyboard, r),
    {
        if self.halt {
            return Ok(());
        }
        if self.keypad_waiting {
            let key = keyboard.get_key();
            match key {
                Some(k) => {
                    self.keypad_waiting = false;
                    let dest = self.keypad_register as usize;
                    self.v[dest] = k;
                    assert(self.v@ == old(self).v@.update(old(self).keypad_register as int, k));
                },
                None => {},
            }
            return Ok(());
        }
        if self.delay_timer > 0 {
            self.delay_timer = self.delay_timer - 1;
        }
        if self.sound_timer > 0 {
            self.sound_timer = self.sound_timer - 1;
        }
        if self.pc as usize + 1 >= RAM_SIZE {
            return Err(Chip8Error::AddressOutOfRange);
        }
        let opcode = self.opcode();
        self.run_opcode(opcode, keyboard)
    }
}

/// Relies on `rand::thread_rng` and `rand::Rng::gen` for one uniformly
/// drawn byte; the contract promises nothing of the value.
#[verifier::external_body]
fn random_byte() -> u8 {
    rand::Rng::gen::<u8>(&mut rand::thread_rng())
}

} // verus!
