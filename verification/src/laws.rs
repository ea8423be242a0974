//! Machine-checked statements of the laws that hold across instructions:
//! the call/return round trip, the involution of sprite drawing, and the
//! behavior of the key-wait latch. Each is stated over the same relations
//! (`opcode_effect`, `tick_rel`, `draw_rows`) that the engine's contracts
//! use.

use vstd::prelude::*;

use crate::Chip8Error;
use crate::cpu::Cpu;
use crate::hardware::KeyboardDriver;
use crate::memory::STACK_SIZE;
use crate::semantics::alu_add;
use crate::semantics::alu_sub;
use crate::semantics::alu_subn;
use crate::semantics::cpu_same;
use crate::semantics::draw_bit;
use crate::semantics::draw_row;
use crate::semantics::draw_rows;
use crate::semantics::opcode_effect;
use crate::semantics::same_mem;
use crate::semantics::tick_rel;
use crate::semantics::wrap_add;
use crate::semantics::decode;

verus! {

// ---------------------------------------------------------------------------
// Call / return round trip
// ---------------------------------------------------------------------------

/// A `2nnn` CALL followed immediately by the matching `00EE` RET restores
/// the program counter to the instruction after the CALL (a net `PC += 2`
/// relative to the call site), restores the stack pointer, and leaves
/// registers, RAM, and the framebuffer untouched.
pub proof fn lemma_call_then_ret<K: KeyboardDriver>(s0: Cpu, s1: Cpu, s2: Cpu, kb: K, nnn: u16)
    requires
        s0.wf(),
        s0.sp < STACK_SIZE,
        nnn < 4096,
        opcode_effect(s0, s1, kb, 0x2000u16 | nnn, Ok(())),
        opcode_effect(s1, s2, kb, 0x00EEu16, Ok(())),
    ensures
        s2.pc == s0.pc + 2,
        s2.sp == s0.sp,
        s2.v@ == s0.v@,
        s2.i == s0.i,
        s2.memory.ram@ == s0.memory.ram@,
        s2.memory.vram@ == s0.memory.vram@,
{
    let call_op = 0x2000u16 | nnn;
    assert(nnn < 4096 ==> (((0x2000u16 | nnn) & 0xF000) >> 12) as u8 == 2 && ((0x2000u16 | nnn)
        & 0x0FFF) == nnn) by (bit_vector);
    assert(((0x00EEu16 & 0xF000) >> 12) as u8 == 0 && ((0x00EEu16 & 0x0F00) >> 8) as u8 == 0 && ((
    0x00EEu16 & 0x00F0) >> 4) as u8 == 0xE && (0x00EEu16 & 0x000F) as u8 == 0xE) by (bit_vector);
    assert(decode(call_op) is Call);
    assert(decode(0x00EEu16) is Ret);
    assert(s1.memory.stack@[s0.sp as int] == s0.pc);
}


// ---------------------------------------------------------------------------
// Arithmetic wrapping and the carry/borrow flag
// ---------------------------------------------------------------------------

/// `8xy4` wraps the sum modulo 256 and sets `VF` to 1 exactly when the
/// unwrapped 9-bit sum exceeds `0xFF` (stated for `x != 15`; with `x = 15`
/// the flag write lands on the result register itself).
pub proof fn lemma_add_reg_wraps_and_carries(v: Seq<u8>, x: int, y: int)
    requires
        v.len() == 16,
        0 <= x < 16,
        0 <= y < 16,
        x != 15,
    ensures
        alu_add(v, x, y)[x] == (v[x] + v[y]) % 256,
        alu_add(v, x, y)[15] == 1u8 <==> v[x] + v[y] > 255,
{
}

/// `8xy5` sets `VF` to 1 exactly when `Vx > Vy` before the subtraction
/// (stated for `x != 15`).
pub proof fn lemma_sub_sets_borrow(v: Seq<u8>, x: int, y: int)
    requires
        v.len() == 16,
        0 <= x < 16,
        0 <= y < 16,
        x != 15,
    ensures
        alu_sub(v, x, y)[15] == 1u8 <==> v[x] > v[y],
{
}

/// `8xy7` sets `VF` to 1 exactly when `Vy > Vx` before the subtraction
/// (stated for `x != 15`).
pub proof fn lemma_subn_sets_borrow(v: Seq<u8>, x: int, y: int)
    requires
        v.len() == 16,
        0 <= x < 16,
        0 <= y < 16,
        x != 15,
    ensures
        alu_subn(v, x, y)[15] == 1u8 <==> v[y] > v[x],
{
}

// ---------------------------------------------------------------------------
// Sprite drawing is an involution on the framebuffer
// ---------------------------------------------------------------------------

/// The XOR contribution of the first `bits` bits of one sprite row to one
/// framebuffer cell; it depends only on the row byte and the starting
/// column register value, never on the framebuffer.
spec fn row_pattern(row_byte: u8, vx: u8, yy: int, bits: int, cell: int) -> u8
    decreases bits,
{
    if bits <= 0 {
        0
    } else {
        let xx = (wrap_add(vx, (bits - 1) as u8) as int) % 64;
        let color = (row_byte >> ((7 - (bits - 1)) as u8)) & 1;
        let bit_term: u8 = if cell == yy * 64 + xx {
            color
        } else {
            0
        };
        row_pattern(row_byte, vx, yy, bits - 1, cell) ^ bit_term
    }
}

/// The XOR contribution of the first `rows` rows of a sprite to one
/// framebuffer cell.
spec fn rows_pattern(ram: Seq<u8>, i: int, vx: u8, vy: int, rows: int, cell: int) -> u8
    decreases rows,
{
    if rows <= 0 {
        0
    } else {
        rows_pattern(ram, i, vx, vy, rows - 1, cell) ^ row_pattern(
            ram[i + rows - 1],
            vx,
            (vy + rows - 1) % 32,
            8,
            cell,
        )
    }
}

proof fn lemma_xor_zero(a: u8)
    ensures
        a ^ 0 == a,
{
    assert(a ^ 0 == a) by (bit_vector);
}

proof fn lemma_xor_shift(a: u8, b: u8, c: u8)
    ensures
        (a ^ b) ^ c == a ^ (b ^ c),
{
    assert((a ^ b) ^ c == a ^ (b ^ c)) by (bit_vector);
}

proof fn lemma_xor_cancel(a: u8, b: u8)
    ensures
        (a ^ b) ^ b == a,
{
    assert((a ^ b) ^ b == a) by (bit_vector);
}

/// One row of drawing changes each cell by exactly its row pattern, and
/// changes no register but `VF`.
proof fn lemma_draw_row_cells(
    v: Seq<u8>,
    vram: Seq<u8>,
    row_byte: u8,
    x: int,
    yy: int,
    bits: int,
)
    requires
        v.len() == 16,
        vram.len() == 2048,
        0 <= x < 16,
        x != 15,
        0 <= yy < 32,
        0 <= bits <= 8,
    ensures
        draw_row(v, vram, row_byte, x, yy, bits).0.len() == 16,
        draw_row(v, vram, row_byte, x, yy, bits).1.len() == 2048,
        forall|j: int|
            0 <= j < 16 && j != 15 ==> draw_row(v, vram, row_byte, x, yy, bits).0[j] == v[j],
        forall|c: int|
            0 <= c < 2048 ==> draw_row(v, vram, row_byte, x, yy, bits).1[c] == vram[c]
                ^ row_pattern(row_byte, v[x], yy, bits, c),
    decreases bits,
{
    if bits <= 0 {
        assert forall|c: int| 0 <= c < 2048 implies draw_row(v, vram, row_byte, x, yy, bits).1[c]
            == vram[c] ^ row_pattern(row_byte, v[x], yy, bits, c) by {
            lemma_xor_zero(vram[c]);
        }
    } else {
        lemma_draw_row_cells(v, vram, row_byte, x, yy, bits - 1);
        let prev = draw_row(v, vram, row_byte, x, yy, bits - 1);
        let stepped = draw_bit(prev.0, prev.1, row_byte, x, yy, bits - 1);
        assert(prev.0[x] == v[x]);
        let xx = (wrap_add(v[x], (bits - 1) as u8) as int) % 64;
        let color = (row_byte >> ((7 - (bits - 1)) as u8)) & 1;
        let idx = yy * 64 + xx;
        assert(0 <= idx < 2048);
        assert forall|c: int| 0 <= c < 2048 implies stepped.1[c] == vram[c] ^ row_pattern(
            row_byte,
            v[x],
            yy,
            bits,
            c,
        ) by {
            if c == idx {
                lemma_xor_shift(vram[c], row_pattern(row_byte, v[x], yy, bits - 1, c), color);
            } else {
                lemma_xor_zero(row_pattern(row_byte, v[x], yy, bits - 1, c));
                lemma_xor_zero(vram[c] ^ row_pattern(row_byte, v[x], yy, bits - 1, c));
            }
        }
    }
}

/// Drawing a sprite changes each framebuffer cell by exactly its pattern,
/// and changes no register but `VF`, provided neither coordinate register
/// is `VF` itself.
proof fn lemma_draw_rows_cells(
    v: Seq<u8>,
    vram: Seq<u8>,
    ram: Seq<u8>,
    i: int,
    x: int,
    y: int,
    rows: int,
)
    requires
        v.len() == 16,
        vram.len() == 2048,
        0 <= x < 16,
        0 <= y < 16,
        x != 15,
        y != 15,
        0 <= rows,
    ensures
        draw_rows(v, vram, ram, i, x, y, rows).0.len() == 16,
        draw_rows(v, vram, ram, i, x, y, rows).1.len() == 2048,
        forall|j: int|
            0 <= j < 16 && j != 15 ==> draw_rows(v, vram, ram, i, x, y, rows).0[j] == v[j],
        forall|c: int|
            0 <= c < 2048 ==> draw_rows(v, vram, ram, i, x, y, rows).1[c] == vram[c]
                ^ rows_pattern(ram, i, v[x], v[y] as int, rows, c),
    decreases rows,
{
    if rows <= 0 {
        assert forall|c: int| 0 <= c < 2048 implies draw_rows(v, vram, ram, i, x, y, rows).1[c]
            == vram[c] ^ rows_pattern(ram, i, v[x], v[y] as int, rows, c) by {
            lemma_xor_zero(vram[c]);
        }
    } else {
        lemma_draw_rows_cells(v, vram, ram, i, x, y, rows - 1);
        let prev = draw_rows(v, vram, ram, i, x, y, rows - 1);
        let yy = (prev.0[y] + rows - 1) % 32;
        assert(prev.0[y] == v[y]);
        lemma_draw_row_cells(prev.0, prev.1, ram[i + rows - 1], x, yy, 8);
        assert forall|c: int| 0 <= c < 2048 implies draw_rows(v, vram, ram, i, x, y, rows).1[c]
            == vram[c] ^ rows_pattern(ram, i, v[x], v[y] as int, rows, c) by {
            lemma_xor_shift(
                vram[c],
                rows_pattern(ram, i, v[x], v[y] as int, rows - 1, c),
                row_pattern(ram[i + rows - 1], v[x], yy, 8, c),
            );
        }
    }
}

/// Drawing is an involution: drawing the same sprite twice at the same
/// location restores the pre-draw framebuffer, and no register but `VF`
/// moves, provided neither coordinate register is `VF` itself (a draw
/// writes `VF`, so with `x = 15` or `y = 15` the second pass would read
/// different coordinates).
pub proof fn lemma_draw_twice_restores(
    v: Seq<u8>,
    vram: Seq<u8>,
    ram: Seq<u8>,
    i: int,
    x: int,
    y: int,
    n: int,
)
    requires
        v.len() == 16,
        vram.len() == 2048,
        0 <= x < 16,
        0 <= y < 16,
        x != 15,
        y != 15,
        0 <= n,
    ensures
        ({
            let first = draw_rows(v, vram, ram, i, x, y, n);
            let second = draw_rows(first.0, first.1, ram, i, x, y, n);
            &&& second.1 == vram
            &&& forall|j: int| 0 <= j < 16 && j != 15 ==> second.0[j] == v[j]
        }),
{
    let first = draw_rows(v, vram, ram, i, x, y, n);
    let second = draw_rows(first.0, first.1, ram, i, x, y, n);
    lemma_draw_rows_cells(v, vram, ram, i, x, y, n);
    lemma_draw_rows_cells(first.0, first.1, ram, i, x, y, n);
    assert(first.0[x] == v[x] && first.0[y] == v[y]);
    assert forall|c: int| 0 <= c < 2048 implies second.1[c] == vram[c] by {
        lemma_xor_cancel(vram[c], rows_pattern(ram, i, v[x], v[y] as int, n, c));
    }
    assert(second.1 =~= vram);
}

proof fn lemma_flag_or(vf: u8, rb: u8, s: u8, p: u8)
    requires
        vf == 1,
    ensures
        (vf | (((rb >> s) & 1) & p)) == 1,
{
    assert(vf == 1 ==> (vf | (((rb >> s) & 1) & p)) == 1) by (bit_vector);
}

proof fn lemma_draw_row_flag(v: Seq<u8>, vram: Seq<u8>, row_byte: u8, x: int, yy: int, bits: int)
    requires
        v.len() == 16,
        v[15] == 1,
        0 <= bits,
    ensures
        draw_row(v, vram, row_byte, x, yy, bits).0.len() == 16,
        draw_row(v, vram, row_byte, x, yy, bits).0[15] == 1,
    decreases bits,
{
    if bits > 0 {
        lemma_draw_row_flag(v, vram, row_byte, x, yy, bits - 1);
        let prev = draw_row(v, vram, row_byte, x, yy, bits - 1);
        let color = (row_byte >> ((7 - (bits - 1)) as u8)) & 1;
        lemma_flag_or(prev.0[15], row_byte, (7 - (bits - 1)) as u8, prev.1[(yy * 64 + (wrap_add(
            prev.0[x],
            (bits - 1) as u8,
        ) as int) % 64) as int]);
    }
}

/// Drawing never clears the collision flag: once `VF` is 1, any further
/// drawing leaves it 1 (only a later instruction that writes `VF` can
/// lower it).
pub proof fn lemma_draw_keeps_collision_flag(
    v: Seq<u8>,
    vram: Seq<u8>,
    ram: Seq<u8>,
    i: int,
    x: int,
    y: int,
    rows: int,
)
    requires
        v.len() == 16,
        v[15] == 1,
        0 <= rows,
    ensures
        draw_rows(v, vram, ram, i, x, y, rows).0.len() == 16,
        draw_rows(v, vram, ram, i, x, y, rows).0[15] == 1,
    decreases rows,
{
    if rows > 0 {
        lemma_draw_keeps_collision_flag(v, vram, ram, i, x, y, rows - 1);
        let prev = draw_rows(v, vram, ram, i, x, y, rows - 1);
        let yy = (prev.0[y] + rows - 1) % 32;
        lemma_draw_row_flag(prev.0, prev.1, ram[i + rows - 1], x, yy, 8);
    }
}

// ---------------------------------------------------------------------------
// The key-wait latch
// ---------------------------------------------------------------------------

/// A tick taken while waiting for a key, with no key pressed, leaves the
/// whole machine exactly as it was: registers unchanged, program counter
/// not advanced, the latch still set.
pub proof fn lemma_key_wait_blocks<K: KeyboardDriver>(
    pre: Cpu,
    post: Cpu,
    kb: K,
    r: Result<(), Chip8Error>,
)
    requires
        !pre.halt,
        pre.keypad_waiting,
        forall|k: u8| !kb.pressed(k),
        tick_rel(pre, post, kb, r),
    ensures
        r is Ok,
        cpu_same(pre, post),
{
}

/// A tick taken while waiting for a key, with some key pressed, writes a
/// pressed key's index into the latched destination register, clears the
/// latch, and changes nothing else; normal ticking resumes.
pub proof fn lemma_key_wait_resolves<K: KeyboardDriver>(
    pre: Cpu,
    post: Cpu,
    kb: K,
    r: Result<(), Chip8Error>,
    k: u8,
)
    requires
        !pre.halt,
        pre.keypad_waiting,
        kb.pressed(k),
        tick_rel(pre, post, kb, r),
    ensures
        r is Ok,
        !post.keypad_waiting,
        same_mem(pre, post),
        post.pc == pre.pc,
        post.sp == pre.sp,
        post.i == pre.i,
        post.delay_timer == pre.delay_timer,
        post.sound_timer == pre.sound_timer,
        exists|j: u8|
            j < 16 && kb.pressed(j) && post.v@ == pre.v@.update(pre.keypad_register as int, j),
{
}

} // verus!
