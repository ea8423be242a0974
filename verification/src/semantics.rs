//! The mathematical model of the instruction set: the opcode decoder, the
//! per-instruction state transformers, and the relations that the engine's
//! `run_opcode` and `tick` contracts are stated over.

use vstd::prelude::*;

use crate::Chip8Error;
use crate::cpu::Cpu;
use crate::hardware::KeyboardDriver;
use crate::memory::RAM_SIZE;
use crate::memory::STACK_SIZE;
use crate::memory::VRAM_SIZE;

verus! {

// ---------------------------------------------------------------------------
// Arithmetic helpers
// ---------------------------------------------------------------------------

/// 8-bit addition wrapping modulo 256.
pub open spec fn wrap_add(a: u8, b: u8) -> u8 {
    ((a + b) % 256) as u8
}

/// 8-bit subtraction wrapping modulo 256.
pub open spec fn wrap_sub(a: u8, b: u8) -> u8 {
    if a >= b {
        (a - b) as u8
    } else {
        (a - b + 256) as u8
    }
}

/// 16-bit addition wrapping modulo 65536.
pub open spec fn wrap_add16(a: u16, b: u16) -> u16 {
    ((a + b) % 65536) as u16
}

/// One countdown step of a timer: toward zero, never below.
pub open spec fn dec_timer(t: u8) -> u8 {
    if t > 0 {
        (t - 1) as u8
    } else {
        0
    }
}

/// The big-endian 16-bit word at `pc` in RAM.
pub open spec fn fetch(ram: Seq<u8>, pc: int) -> u16 {
    ((ram[pc] as u16) << 8) | (ram[pc + 1] as u16)
}

// ---------------------------------------------------------------------------
// Decoding
// ---------------------------------------------------------------------------

/// Highest nibble of an opcode: the instruction class.
pub open spec fn nib_a(op: u16) -> u8 {
    ((op & 0xF000) >> 12) as u8
}

/// Second nibble: the register selector `x`.
pub open spec fn nib_x(op: u16) -> u8 {
    ((op & 0x0F00) >> 8) as u8
}

/// Third nibble: the register selector `y`.
pub open spec fn nib_y(op: u16) -> u8 {
    ((op & 0x00F0) >> 4) as u8
}

/// Lowest nibble: the sub-selector `n`.
pub open spec fn nib_d(op: u16) -> u8 {
    (op & 0x000F) as u8
}

/// The 12-bit address immediate.
pub open spec fn imm_nnn(op: u16) -> u16 {
    op & 0x0FFF
}

/// The 8-bit byte immediate.
pub open spec fn imm_kk(op: u16) -> u8 {
    (op & 0x00FF) as u8
}

/// Each nibble of an opcode is below 16, and the immediates fit their
/// declared widths.
pub proof fn lemma_nibble_bounds(op: u16)
    ensures
        nib_a(op) < 16,
        nib_x(op) < 16,
        nib_y(op) < 16,
        nib_d(op) < 16,
        imm_nnn(op) < 4096,
{
    assert(((op & 0xF000) >> 12) < 16 && ((op & 0x0F00) >> 8) < 16 && ((op & 0x00F0) >> 4) < 16
        && (op & 0x000F) < 16 && (op & 0x0FFF) < 4096) by (bit_vector);
}

/// One of the 35 defined instruction forms, or `Invalid`.
pub enum Instr {
    Halt,
    Cls,
    Ret,
    Jp(u16),
    Call(u16),
    SeByte(u8, u8),
    SneByte(u8, u8),
    SeReg(u8, u8),
    LdByte(u8, u8),
    AddByte(u8, u8),
    LdReg(u8, u8),
    Or(u8, u8),
    And(u8, u8),
    Xor(u8, u8),
    AddReg(u8, u8),
    Sub(u8, u8),
    Shr(u8),
    Subn(u8, u8),
    Shl(u8),
    SneReg(u8, u8),
    LdI(u16),
    JpV0(u16),
    Rnd(u8, u8),
    Drw(u8, u8, u8),
    Skp(u8),
    Sknp(u8),
    LdRegDt(u8),
    WaitKey(u8),
    LdDtReg(u8),
    LdStReg(u8),
    AddI(u8),
    LdGlyph(u8),
    Bcd(u8),
    StoreRegs(u8),
    LoadRegs(u8),
    Invalid,
}

/// Splits an opcode into its four nibbles and selects the instruction form,
/// exactly as the dispatcher's match does.
pub open spec fn decode(op: u16) -> Instr {
    let a = nib_a(op);
    let x = nib_x(op);
    let y = nib_y(op);
    let d = nib_d(op);
    let nnn = imm_nnn(op);
    let kk = imm_kk(op);
    if a == 0x0 && x == 0x0 && y == 0x0 && d == 0x0 {
        Instr::Halt
    } else if a == 0x0 && x == 0x0 && y == 0xE && d == 0x0 {
        Instr::Cls
    } else if a == 0x0 && x == 0x0 && y == 0xE && d == 0xE {
        Instr::Ret
    } else if a == 0x1 {
        Instr::Jp(nnn)
    } else if a == 0x2 {
        Instr::Call(nnn)
    } else if a == 0x3 {
        Instr::SeByte(x, kk)
    } else if a == 0x4 {
        Instr::SneByte(x, kk)
    } else if a == 0x5 && d == 0x0 {
        Instr::SeReg(x, y)
    } else if a == 0x6 {
        Instr::LdByte(x, kk)
    } else if a == 0x7 {
        Instr::AddByte(x, kk)
    } else if a == 0x8 && d == 0x0 {
        Instr::LdReg(x, y)
    } else if a == 0x8 && d == 0x1 {
        Instr::Or(x, y)
    } else if a == 0x8 && d == 0x2 {
        Instr::And(x, y)
    } else if a == 0x8 && d == 0x3 {
        Instr::Xor(x, y)
    } else if a == 0x8 && d == 0x4 {
        Instr::AddReg(x, y)
    } else if a == 0x8 && d == 0x5 {
        Instr::Sub(x, y)
    } else if a == 0x8 && d == 0x6 {
        Instr::Shr(x)
    } else if a == 0x8 && d == 0x7 {
        Instr::Subn(x, y)
    } else if a == 0x8 && d == 0xE {
        Instr::Shl(x)
    } else if a == 0x9 && d == 0x0 {
        Instr::SneReg(x, y)
    } else if a == 0xA {
        Instr::LdI(nnn)
    } else if a == 0xB {
        Instr::JpV0(nnn)
    } else if a == 0xC {
        Instr::Rnd(x, kk)
    } else if a == 0xD {
        Instr::Drw(x, y, d)
    } else if a == 0xE && y == 0x9 && d == 0xE {
        Instr::Skp(x)
    } else if a == 0xE && y == 0xA && d == 0x1 {
        Instr::Sknp(x)
    } else if a == 0xF && y == 0x0 && d == 0x7 {
        Instr::LdRegDt(x)
    } else if a == 0xF && y == 0x0 && d == 0xA {
        Instr::WaitKey(x)
    } else if a == 0xF && y == 0x1 && d == 0x5 {
        Instr::LdDtReg(x)
    } else if a == 0xF && y == 0x1 && d == 0x8 {
        Instr::LdStReg(x)
    } else if a == 0xF && y == 0x1 && d == 0xE {
        Instr::AddI(x)
    } else if a == 0xF && y == 0x2 && d == 0x9 {
        Instr::LdGlyph(x)
    } else if a == 0xF && y == 0x3 && d == 0x3 {
        Instr::Bcd(x)
    } else if a == 0xF && y == 0x5 && d == 0x5 {
        Instr::StoreRegs(x)
    } else if a == 0xF && y == 0x6 && d == 0x5 {
        Instr::LoadRegs(x)
    } else {
        Instr::Invalid
    }
}

// ---------------------------------------------------------------------------
// Register-file transformers of the ALU family
// ---------------------------------------------------------------------------

/// `8xy4`: `Vx += Vy` wrapping, then `VF` = 1 iff the unwrapped 9-bit sum
/// exceeds `0xFF`. The flag write comes second, so with `x = 15` it wins.
pub open spec fn alu_add(v: Seq<u8>, x: int, y: int) -> Seq<u8> {
    let w = wrap_add(v[x], v[y]);
    let f: u8 = if v[x] + v[y] > 255 {
        1
    } else {
        0
    };
    v.update(x, w).update(15, f)
}

/// `8xy5`: `VF` = 1 iff `Vx > Vy` before subtraction, then `Vx -= Vy`
/// wrapping. The flag is written first, so with `x = 15` or `y = 15` the
/// subtraction reads the flag value.
pub open spec fn alu_sub(v: Seq<u8>, x: int, y: int) -> Seq<u8> {
    let f: u8 = if v[x] > v[y] {
        1
    } else {
        0
    };
    let v1 = v.update(15, f);
    v1.update(x, wrap_sub(v1[x], v1[y]))
}

/// `8xy7`: `VF` = 1 iff `Vy > Vx` before subtraction, then `Vx = Vx - Vy`
/// wrapping, the operands read after the flag write.
pub open spec fn alu_subn(v: Seq<u8>, x: int, y: int) -> Seq<u8> {
    let f: u8 = if v[y] > v[x] {
        1
    } else {
        0
    };
    let v1 = v.update(15, f);
    v1.update(x, wrap_sub(v1[x], v1[y]))
}

/// `8xy6`: `VF` = the shifted-out low bit, then `Vx >>= 1`, the operand
/// read after the flag write.
pub open spec fn alu_shr(v: Seq<u8>, x: int) -> Seq<u8> {
    let v1 = v.update(15, v[x] & 1);
    v1.update(x, v1[x] >> 1)
}

/// `8xyE`: `VF` = the shifted-out high bit, then `Vx <<= 1`, the operand
/// read after the flag write.
pub open spec fn alu_shl(v: Seq<u8>, x: int) -> Seq<u8> {
    let v1 = v.update(15, ((v[x] & 0x80) >> 7) & 1);
    v1.update(x, v1[x] << 1)
}

// ---------------------------------------------------------------------------
// Sprite drawing
// ---------------------------------------------------------------------------

/// One sprite bit XORed into the framebuffer: computes the wrapped column
/// from the current `Vx`, ORs the erased-pixel collision into `VF`, and
/// flips the cell. Returns the new register file and framebuffer.
pub open spec fn draw_bit(
    v: Seq<u8>,
    vram: Seq<u8>,
    row_byte: u8,
    x: int,
    yy: int,
    bit: int,
) -> (Seq<u8>, Seq<u8>) {
    let xx = (wrap_add(v[x], bit as u8) as int) % 64;
    let color = (row_byte >> ((7 - bit) as u8)) & 1;
    let idx = yy * 64 + xx;
    let vf = v[15] | (color & vram[idx]);
    (v.update(15, vf), vram.update(idx, vram[idx] ^ color))
}

/// The first `bits` bits of one sprite row, drawn left to right at row
/// `yy`.
pub open spec fn draw_row(
    v: Seq<u8>,
    vram: Seq<u8>,
    row_byte: u8,
    x: int,
    yy: int,
    bits: int,
) -> (Seq<u8>, Seq<u8>)
    decreases bits,
{
    if bits <= 0 {
        (v, vram)
    } else {
        let prev = draw_row(v, vram, row_byte, x, yy, bits - 1);
        draw_bit(prev.0, prev.1, row_byte, x, yy, bits - 1)
    }
}

/// The first `rows` rows of a sprite at `ram[i..]`, each wrapped modulo the
/// framebuffer height from the current `Vy` and drawn as 8 bits.
pub open spec fn draw_rows(
    v: Seq<u8>,
    vram: Seq<u8>,
    ram: Seq<u8>,
    i: int,
    x: int,
    y: int,
    rows: int,
) -> (Seq<u8>, Seq<u8>)
    decreases rows,
{
    if rows <= 0 {
        (v, vram)
    } else {
        let prev = draw_rows(v, vram, ram, i, x, y, rows - 1);
        let yy = (prev.0[y] + rows - 1) % 32;
        draw_row(prev.0, prev.1, ram[i + rows - 1], x, yy, 8)
    }
}

// ---------------------------------------------------------------------------
// Block transfers
// ---------------------------------------------------------------------------

/// `Fx55`: RAM with `V0..=Vx` copied to `i..=i+x`, the rest untouched.
pub open spec fn store_regs(ram: Seq<u8>, v: Seq<u8>, i: int, x: int) -> Seq<u8> {
    Seq::new(
        ram.len(),
        |a: int|
            if i <= a && a <= i + x {
                v[a - i]
            } else {
                ram[a]
            },
    )
}

/// `Fx65`: the register file with `V0..=Vx` filled from `i..=i+x`, the rest
/// untouched.
pub open spec fn load_regs(v: Seq<u8>, ram: Seq<u8>, i: int, x: int) -> Seq<u8> {
    Seq::new(
        v.len(),
        |j: int|
            if j <= x {
                ram[i + j]
            } else {
                v[j]
            },
    )
}

/// A blank framebuffer.
pub open spec fn blank_vram() -> Seq<u8> {
    Seq::new(VRAM_SIZE as nat, |p: int| 0u8)
}


/// A pixel XORed or masked with a sprite bit stays a single bit.
pub proof fn lemma_bit_ops(p: u8, c: u8)
    requires
        p == 0 || p == 1,
        c == 0 || c == 1,
    ensures
        (p ^ c) == 0 || (p ^ c) == 1,
        (c & p) == 0 || (c & p) == 1,
{
    assert((p == 0 || p == 1) && (c == 0 || c == 1) ==> ((p ^ c) == 0 || (p ^ c) == 1) && ((c & p)
        == 0 || (c & p) == 1)) by (bit_vector);
}

/// Masking is idempotent: a value already masked with `kk` keeps no bit
/// outside `kk`.
pub proof fn lemma_mask_idem(b: u8, kk: u8)
    ensures
        (b & kk) & kk == b & kk,
{
    assert((b & kk) & kk == b & kk) by (bit_vector);
}

/// Any single extracted bit of a byte is 0 or 1.
pub proof fn lemma_shift_bit(b: u8, s: u8)
    ensures
        ((b >> s) & 1) == 0 || ((b >> s) & 1) == 1,
{
    assert(((b >> s) & 1) == 0 || ((b >> s) & 1) == 1) by (bit_vector);
}

// ---------------------------------------------------------------------------
// Frame predicates: which parts of the machine an instruction leaves alone
// ---------------------------------------------------------------------------

/// Timers, halt flag, and key-wait latch are unchanged.
pub open spec fn same_interp(pre: Cpu, post: Cpu) -> bool {
    &&& post.sound_timer == pre.sound_timer
    &&& post.delay_timer == pre.delay_timer
    &&& post.halt == pre.halt
    &&& post.keypad_waiting == pre.keypad_waiting
    &&& post.keypad_register == pre.keypad_register
}

/// RAM, stack, framebuffer, and dirty flag are unchanged.
pub open spec fn same_mem(pre: Cpu, post: Cpu) -> bool {
    &&& post.memory.ram@ == pre.memory.ram@
    &&& post.memory.stack@ == pre.memory.stack@
    &&& post.memory.vram@ == pre.memory.vram@
    &&& post.memory.vram_changed == pre.memory.vram_changed
}

/// Registers `V0..VF`, `I`, `PC`, and `SP` are unchanged.
pub open spec fn same_regs(pre: Cpu, post: Cpu) -> bool {
    &&& post.v@ == pre.v@
    &&& post.i == pre.i
    &&& post.pc == pre.pc
    &&& post.sp == pre.sp
}

/// Nothing observable changed.
pub open spec fn cpu_same(pre: Cpu, post: Cpu) -> bool {
    &&& same_interp(pre, post)
    &&& same_mem(pre, post)
    &&& same_regs(pre, post)
}

/// Everything except the register file `V0..VF` and the program counter
/// is unchanged.
pub open spec fn only_v(pre: Cpu, post: Cpu) -> bool {
    &&& same_interp(pre, post)
    &&& same_mem(pre, post)
    &&& post.i == pre.i
    &&& post.sp == pre.sp
}

/// Everything except the address register `I` and the program counter is
/// unchanged.
pub open spec fn only_i(pre: Cpu, post: Cpu) -> bool {
    &&& same_interp(pre, post)
    &&& same_mem(pre, post)
    &&& post.v@ == pre.v@
    &&& post.sp == pre.sp
}

// ---------------------------------------------------------------------------
// The per-opcode state relation
// ---------------------------------------------------------------------------

/// What one `run_opcode` call does: relates the machine before (`pre`) and
/// after (`post`) dispatching `op`, the keyboard consulted, and the
/// result. `Err` is returned, with the machine untouched, exactly on the
/// undefined conditions: an opcode outside the 35 forms, stack overflow or
/// underflow, an out-of-range RAM access, and a key index outside the
/// keypad.
pub open spec fn opcode_effect<K: KeyboardDriver>(
    pre: Cpu,
    post: Cpu,
    kb: K,
    op: u16,
    r: Result<(), Chip8Error>,
) -> bool {
    match decode(op) {
        Instr::Halt => {
            &&& r is Ok
            &&& same_mem(pre, post)
            &&& same_regs(pre, post)
            &&& post.sound_timer == pre.sound_timer
            &&& post.delay_timer == pre.delay_timer
            &&& post.keypad_waiting == pre.keypad_waiting
            &&& post.keypad_register == pre.keypad_register
            &&& post.halt
        },
        Instr::Cls => {
            &&& r is Ok
            &&& same_interp(pre, post)
            &&& post.v@ == pre.v@
            &&& post.i == pre.i
            &&& post.sp == pre.sp
            &&& post.memory.ram@ == pre.memory.ram@
            &&& post.memory.stack@ == pre.memory.stack@
            &&& post.memory.vram@ == blank_vram()
            &&& post.memory.vram_changed
            &&& post.pc == pre.pc + 2
        },
        Instr::Ret => {
            if pre.sp == 0 {
                r == Err::<(), Chip8Error>(Chip8Error::StackUnderflow) && cpu_same(pre, post)
            } else {
                &&& r is Ok
                &&& same_interp(pre, post)
                &&& same_mem(pre, post)
                &&& post.v@ == pre.v@
                &&& post.i == pre.i
                &&& post.sp == pre.sp - 1
                &&& post.pc == pre.memory.stack@[pre.sp - 1] + 2
            }
        },
        Instr::Jp(nnn) => {
            &&& r is Ok
            &&& same_interp(pre, post)
            &&& same_mem(pre, post)
            &&& post.v@ == pre.v@
            &&& post.i == pre.i
            &&& post.sp == pre.sp
            &&& post.pc == nnn
        },
        Instr::Call(nnn) => {
            if pre.sp >= STACK_SIZE {
                r == Err::<(), Chip8Error>(Chip8Error::StackOverflow) && cpu_same(pre, post)
            } else {
                &&& r is Ok
                &&& same_interp(pre, post)
                &&& post.v@ == pre.v@
                &&& post.i == pre.i
                &&& post.memory.ram@ == pre.memory.ram@
                &&& post.memory.vram@ == pre.memory.vram@
                &&& post.memory.vram_changed == pre.memory.vram_changed
                &&& post.memory.stack@ == pre.memory.stack@.update(pre.sp as int, pre.pc)
                &&& post.sp == pre.sp + 1
                &&& post.pc == nnn
            }
        },
        Instr::SeByte(x, kk) => {
            &&& r is Ok
            &&& same_interp(pre, post)
            &&& same_mem(pre, post)
            &&& post.v@ == pre.v@
            &&& post.i == pre.i
            &&& post.sp == pre.sp
            &&& post.pc == pre.pc + (if pre.v@[x as int] == kk {
                4int
            } else {
                2int
            })
        },
        Instr::SneByte(x, kk) => {
            &&& r is Ok
            &&& same_interp(pre, post)
            &&& same_mem(pre, post)
            &&& post.v@ == pre.v@
            &&& post.i == pre.i
            &&& post.sp == pre.sp
            &&& post.pc == pre.pc + (if pre.v@[x as int] != kk {
                4int
            } else {
                2int
            })
        },
        Instr::SeReg(x, y) => {
            &&& r is Ok
            &&& same_interp(pre, post)
            &&& same_mem(pre, post)
            &&& post.v@ == pre.v@
            &&& post.i == pre.i
            &&& post.sp == pre.sp
            &&& post.pc == pre.pc + (if pre.v@[x as int] == pre.v@[y as int] {
                4int
            } else {
                2int
            })
        },
        Instr::LdByte(x, kk) => {
            &&& r is Ok
            &&& only_v(pre, post)
            &&& post.v@ == pre.v@.update(x as int, kk)
            &&& post.pc == pre.pc + 2
        },
        Instr::AddByte(x, kk) => {
            &&& r is Ok
            &&& only_v(pre, post)
            &&& post.v@ == pre.v@.update(x as int, wrap_add(pre.v@[x as int], kk))
            &&& post.pc == pre.pc + 2
        },
        Instr::LdReg(x, y) => {
            &&& r is Ok
            &&& only_v(pre, post)
            &&& post.v@ == pre.v@.update(x as int, pre.v@[y as int])
            &&& post.pc == pre.pc + 2
        },
        Instr::Or(x, y) => {
            &&& r is Ok
            &&& only_v(pre, post)
            &&& post.v@ == pre.v@.update(x as int, pre.v@[x as int] | pre.v@[y as int])
            &&& post.pc == pre.pc + 2
        },
        Instr::And(x, y) => {
            &&& r is Ok
            &&& only_v(pre, post)
            &&& post.v@ == pre.v@.update(x as int, pre.v@[x as int] & pre.v@[y as int])
            &&& post.pc == pre.pc + 2
        },
        Instr::Xor(x, y) => {
            &&& r is Ok
            &&& only_v(pre, post)
            &&& post.v@ == pre.v@.update(x as int, pre.v@[x as int] ^ pre.v@[y as int])
            &&& post.pc == pre.pc + 2
        },
        Instr::AddReg(x, y) => {
            &&& r is Ok
            &&& only_v(pre, post)
            &&& post.v@ == alu_add(pre.v@, x as int, y as int)
            &&& post.pc == pre.pc + 2
        },
        Instr::Sub(x, y) => {
            &&& r is Ok
            &&& only_v(pre, post)
            &&& post.v@ == alu_sub(pre.v@, x as int, y as int)
            &&& post.pc == pre.pc + 2
        },
        Instr::Shr(x) => {
            &&& r is Ok
            &&& only_v(pre, post)
            &&& post.v@ == alu_shr(pre.v@, x as int)
            &&& post.pc == pre.pc + 2
        },
        Instr::Subn(x, y) => {
            &&& r is Ok
            &&& only_v(pre, post)
            &&& post.v@ == alu_subn(pre.v@, x as int, y as int)
            &&& post.pc == pre.pc + 2
        },
        Instr::Shl(x) => {
            &&& r is Ok
            &&& only_v(pre, post)
            &&& post.v@ == alu_shl(pre.v@, x as int)
            &&& post.pc == pre.pc + 2
        },
        Instr::SneReg(x, y) => {
            &&& r is Ok
            &&& same_interp(pre, post)
            &&& same_mem(pre, post)
            &&& post.v@ == pre.v@
            &&& post.i == pre.i
            &&& post.sp == pre.sp
            &&& post.pc == pre.pc + (if pre.v@[x as int] != pre.v@[y as int] {
                4int
            } else {
                2int
            })
        },
        Instr::LdI(nnn) => {
            &&& r is Ok
            &&& only_i(pre, post)
            &&& post.i == nnn
            &&& post.pc == pre.pc + 2
        },
        Instr::JpV0(nnn) => {
            &&& r is Ok
            &&& same_interp(pre, post)
            &&& same_mem(pre, post)
            &&& post.v@ == pre.v@
            &&& post.i == pre.i
            &&& post.sp == pre.sp
            &&& post.pc == pre.v@[0] + nnn
        },
        Instr::Rnd(x, kk) => {
            &&& r is Ok
            &&& only_v(pre, post)
            &&& post.v@.len() == pre.v@.len()
            &&& forall|j: int| 0 <= j < pre.v@.len() && j != x ==> post.v@[j] == pre.v@[j]
            &&& post.v@[x as int] & kk == post.v@[x as int]
            &&& post.pc == pre.pc + 2
        },
        Instr::Drw(x, y, n) => {
            if n > 0 && pre.i + n > RAM_SIZE {
                r == Err::<(), Chip8Error>(Chip8Error::AddressOutOfRange) && cpu_same(pre, post)
            } else {
                let drawn = draw_rows(
                    pre.v@,
                    pre.memory.vram@,
                    pre.memory.ram@,
                    pre.i as int,
                    x as int,
                    y as int,
                    n as int,
                );
                &&& r is Ok
                &&& same_interp(pre, post)
                &&& post.i == pre.i
                &&& post.sp == pre.sp
                &&& post.memory.ram@ == pre.memory.ram@
                &&& post.memory.stack@ == pre.memory.stack@
                &&& post.v@ == drawn.0
                &&& post.memory.vram@ == drawn.1
                &&& post.memory.vram_changed
                &&& post.pc == pre.pc + 2
            }
        },
        Instr::Skp(x) => {
            if pre.v@[x as int] >= 16 {
                r == Err::<(), Chip8Error>(Chip8Error::KeyOutOfRange) && cpu_same(pre, post)
            } else {
                &&& r is Ok
                &&& same_interp(pre, post)
                &&& same_mem(pre, post)
                &&& post.v@ == pre.v@
                &&& post.i == pre.i
                &&& post.sp == pre.sp
                &&& post.pc == pre.pc + (if kb.pressed(pre.v@[x as int]) {
                    4int
                } else {
                    2int
                })
            }
        },
        Instr::Sknp(x) => {
            if pre.v@[x as int] >= 16 {
                r == Err::<(), Chip8Error>(Chip8Error::KeyOutOfRange) && cpu_same(pre, post)
            } else {
                &&& r is Ok
                &&& same_interp(pre, post)
                &&& same_mem(pre, post)
                &&& post.v@ == pre.v@
                &&& post.i == pre.i
                &&& post.sp == pre.sp
                &&& post.pc == pre.pc + (if !kb.pressed(pre.v@[x as int]) {
                    4int
                } else {
                    2int
                })
            }
        },
        Instr::LdRegDt(x) => {
            &&& r is Ok
            &&& only_v(pre, post)
            &&& post.v@ == pre.v@.update(x as int, pre.delay_timer)
            &&& post.pc == pre.pc + 2
        },
        Instr::WaitKey(x) => {
            &&& r is Ok
            &&& same_mem(pre, post)
            &&& post.v@ == pre.v@
            &&& post.i == pre.i
            &&& post.sp == pre.sp
            &&& post.sound_timer == pre.sound_timer
            &&& post.delay_timer == pre.delay_timer
            &&& post.halt == pre.halt
            &&& post.keypad_waiting
            &&& post.keypad_register == x
            &&& post.pc == pre.pc + 2
        },
        Instr::LdDtReg(x) => {
            &&& r is Ok
            &&& same_mem(pre, post)
            &&& post.v@ == pre.v@
            &&& post.i == pre.i
            &&& post.sp == pre.sp
            &&& post.sound_timer == pre.sound_timer
            &&& post.delay_timer == pre.v@[x as int]
            &&& post.halt == pre.halt
            &&& post.keypad_waiting == pre.keypad_waiting
            &&& post.keypad_register == pre.keypad_register
            &&& post.pc == pre.pc + 2
        },
        Instr::LdStReg(x) => {
            &&& r is Ok
            &&& same_mem(pre, post)
            &&& post.v@ == pre.v@
            &&& post.i == pre.i
            &&& post.sp == pre.sp
            &&& post.sound_timer == pre.v@[x as int]
            &&& post.delay_timer == pre.delay_timer
            &&& post.halt == pre.halt
            &&& post.keypad_waiting == pre.keypad_waiting
            &&& post.keypad_register == pre.keypad_register
            &&& post.pc == pre.pc + 2
        },
        Instr::AddI(x) => {
            &&& r is Ok
            &&& only_i(pre, post)
            &&& post.i == wrap_add16(pre.i, pre.v@[x as int] as u16)
            &&& post.pc == pre.pc + 2
        },
        Instr::LdGlyph(x) => {
            &&& r is Ok
            &&& only_i(pre, post)
            &&& post.i == pre.v@[x as int] * 5
            &&& post.pc == pre.pc + 2
        },
        Instr::Bcd(x) => {
            if pre.i + 3 > RAM_SIZE {
                r == Err::<(), Chip8Error>(Chip8Error::AddressOutOfRange) && cpu_same(pre, post)
            } else {
                let vx = pre.v@[x as int];
                &&& r is Ok
                &&& same_interp(pre, post)
                &&& post.v@ == pre.v@
                &&& post.i == pre.i
                &&& post.sp == pre.sp
                &&& post.memory.stack@ == pre.memory.stack@
                &&& post.memory.vram@ == pre.memory.vram@
                &&& post.memory.vram_changed == pre.memory.vram_changed
                &&& post.memory.ram@ == pre.memory.ram@.update(pre.i as int, (vx / 100) as u8)
                    .update(pre.i + 1, ((vx / 10) % 10) as u8).update(
                    pre.i + 2,
                    ((vx % 100) % 10) as u8,
                )
                &&& post.pc == pre.pc + 2
            }
        },
        Instr::StoreRegs(x) => {
            if pre.i + x + 1 > RAM_SIZE {
                r == Err::<(), Chip8Error>(Chip8Error::AddressOutOfRange) && cpu_same(pre, post)
            } else {
                &&& r is Ok
                &&& same_interp(pre, post)
                &&& post.v@ == pre.v@
                &&& post.i == pre.i
                &&& post.sp == pre.sp
                &&& post.memory.stack@ == pre.memory.stack@
                &&& post.memory.vram@ == pre.memory.vram@
                &&& post.memory.vram_changed == pre.memory.vram_changed
                &&& post.memory.ram@ == store_regs(pre.memory.ram@, pre.v@, pre.i as int, x as int)
                &&& post.pc == pre.pc + 2
            }
        },
        Instr::LoadRegs(x) => {
            if pre.i + x + 1 > RAM_SIZE {
                r == Err::<(), Chip8Error>(Chip8Error::AddressOutOfRange) && cpu_same(pre, post)
            } else {
                &&& r is Ok
                &&& only_v(pre, post)
                &&& post.v@ == load_regs(pre.v@, pre.memory.ram@, pre.i as int, x as int)
                &&& post.pc == pre.pc + 2
            }
        },
        Instr::Invalid => {
            r == Err::<(), Chip8Error>(Chip8Error::UnknownOpcode) && cpu_same(pre, post)
        },
    }
}

// ---------------------------------------------------------------------------
// The tick relation
// ---------------------------------------------------------------------------

/// What one `tick` call does. A halted engine does nothing. A waiting
/// engine only polls the keypad: with no key down it stays exactly as it
/// was; otherwise some pressed key's index is written to the latched
/// destination register and normal ticking resumes. Otherwise both timers
/// count down one step, the opcode under `PC` is fetched (out-of-range
/// `PC` is the fatal fetch error), and its effect follows `opcode_effect`.
pub open spec fn tick_rel<K: KeyboardDriver>(
    pre: Cpu,
    post: Cpu,
    kb: K,
    r: Result<(), Chip8Error>,
) -> bool {
    if pre.halt {
        r is Ok && cpu_same(pre, post)
    } else if pre.keypad_waiting {
        if forall|k: u8| !kb.pressed(k) {
            r is Ok && cpu_same(pre, post)
        } else {
            &&& r is Ok
            &&& same_mem(pre, post)
            &&& post.i == pre.i
            &&& post.pc == pre.pc
            &&& post.sp == pre.sp
            &&& post.sound_timer == pre.sound_timer
            &&& post.delay_timer == pre.delay_timer
            &&& post.halt == pre.halt
            &&& !post.keypad_waiting
            &&& post.keypad_register == pre.keypad_register
            &&& (exists|k: u8|
                k < 16 && kb.pressed(k) && post.v@ == pre.v@.update(
                    pre.keypad_register as int,
                    k,
                ))
        }
    } else {
        let mid = Cpu {
            delay_timer: dec_timer(pre.delay_timer),
            sound_timer: dec_timer(pre.sound_timer),
            ..pre
        };
        if pre.pc + 1 < RAM_SIZE {
            opcode_effect(mid, post, kb, fetch(pre.memory.ram@, pre.pc as int), r)
        } else {
            r == Err::<(), Chip8Error>(Chip8Error::AddressOutOfRange) && cpu_same(mid, post)
        }
    }
}

} // verus!
