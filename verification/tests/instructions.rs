//! Per-instruction behavior: arithmetic wrapping, flag semantics, and the
//! control directives each handler returns.

use chip8::cpu::{Action, Cpu};
use chip8::hardware::KeyboardDriver;
use chip8::keyboard::Keyboard;
use chip8::memory::Memory;

fn fresh_cpu() -> Cpu {
    Cpu::new(Memory::new())
}

#[test]
fn add_byte_wraps_modulo_256() {
    let mut cpu = fresh_cpu();
    cpu.op_6xkk(0, 0xFF);
    let a = cpu.op_7xkk(0, 0x02);
    assert_eq!(cpu.v[0], 0x01);
    assert!(matches!(a, Action::Next));
    // 7xkk leaves VF alone.
    assert_eq!(cpu.v[15], 0);
}

#[test]
fn add_reg_wraps_and_sets_carry() {
    let mut cpu = fresh_cpu();
    cpu.op_6xkk(0, 0xFF);
    cpu.op_6xkk(1, 0x02);
    cpu.op_8xy4(0, 1);
    assert_eq!(cpu.v[0], 0x01);
    assert_eq!(cpu.v[15], 1);
}

#[test]
fn add_reg_carry_clear_on_exact_255() {
    let mut cpu = fresh_cpu();
    cpu.op_6xkk(0, 0xFE);
    cpu.op_6xkk(1, 0x01);
    cpu.op_8xy4(0, 1);
    assert_eq!(cpu.v[0], 0xFF);
    assert_eq!(cpu.v[15], 0);
}

#[test]
fn sub_sets_flag_iff_vx_greater() {
    let mut cpu = fresh_cpu();
    cpu.op_6xkk(2, 10);
    cpu.op_6xkk(3, 3);
    cpu.op_8xy5(2, 3);
    assert_eq!(cpu.v[2], 7);
    assert_eq!(cpu.v[15], 1);

    let mut cpu = fresh_cpu();
    cpu.op_6xkk(2, 3);
    cpu.op_6xkk(3, 10);
    cpu.op_8xy5(2, 3);
    assert_eq!(cpu.v[2], 249);
    assert_eq!(cpu.v[15], 0);

    // Equal operands: no borrow flag, difference zero.
    let mut cpu = fresh_cpu();
    cpu.op_6xkk(2, 5);
    cpu.op_6xkk(3, 5);
    cpu.op_8xy5(2, 3);
    assert_eq!(cpu.v[2], 0);
    assert_eq!(cpu.v[15], 0);
}

#[test]
fn subn_sets_flag_iff_vy_greater() {
    let mut cpu = fresh_cpu();
    cpu.op_6xkk(2, 3);
    cpu.op_6xkk(3, 10);
    cpu.op_8xy7(2, 3);
    assert_eq!(cpu.v[15], 1);

    let mut cpu = fresh_cpu();
    cpu.op_6xkk(2, 10);
    cpu.op_6xkk(3, 3);
    cpu.op_8xy7(2, 3);
    assert_eq!(cpu.v[15], 0);
}

#[test]
fn bitwise_ops() {
    let mut cpu = fresh_cpu();
    cpu.op_6xkk(0, 0b1100);
    cpu.op_6xkk(1, 0b1010);
    cpu.op_8xy1(0, 1);
    assert_eq!(cpu.v[0], 0b1110);
    cpu.op_6xkk(0, 0b1100);
    cpu.op_8xy2(0, 1);
    assert_eq!(cpu.v[0], 0b1000);
    cpu.op_6xkk(0, 0b1100);
    cpu.op_8xy3(0, 1);
    assert_eq!(cpu.v[0], 0b0110);
}

#[test]
fn shifts_capture_shifted_out_bit() {
    let mut cpu = fresh_cpu();
    cpu.op_6xkk(0, 0b0000_0101);
    cpu.op_8xy6(0, 1);
    assert_eq!(cpu.v[0], 0b0000_0010);
    assert_eq!(cpu.v[15], 1);

    cpu.op_6xkk(0, 0b1000_0001);
    cpu.op_8xye(0, 1);
    assert_eq!(cpu.v[0], 0b0000_0010);
    assert_eq!(cpu.v[15], 1);

    cpu.op_6xkk(0, 0b0100_0000);
    cpu.op_8xye(0, 1);
    assert_eq!(cpu.v[0], 0b1000_0000);
    assert_eq!(cpu.v[15], 0);
}

#[test]
fn skip_directives() {
    let mut cpu = fresh_cpu();
    cpu.op_6xkk(0, 7);
    cpu.op_6xkk(1, 7);
    assert!(matches!(cpu.op_3xkk(0, 7), Action::Skip));
    assert!(matches!(cpu.op_3xkk(0, 8), Action::Next));
    assert!(matches!(cpu.op_4xkk(0, 8), Action::Skip));
    assert!(matches!(cpu.op_4xkk(0, 7), Action::Next));
    assert!(matches!(cpu.op_5xy0(0, 1), Action::Skip));
    assert!(matches!(cpu.op_9xy0(0, 1), Action::Next));
    cpu.op_6xkk(1, 9);
    assert!(matches!(cpu.op_5xy0(0, 1), Action::Next));
    assert!(matches!(cpu.op_9xy0(0, 1), Action::Skip));
}

#[test]
fn jumps_and_address_register() {
    let mut cpu = fresh_cpu();
    assert!(matches!(cpu.op_1nnn(0x345), Action::Jump(0x345)));
    cpu.op_annn(0x678);
    assert_eq!(cpu.i, 0x678);
    cpu.op_6xkk(0, 0x10);
    assert!(matches!(cpu.op_bnnn(0x300), Action::Jump(0x310)));
}

#[test]
fn address_register_add_wraps() {
    let mut cpu = fresh_cpu();
    cpu.op_annn(0xFFF);
    cpu.op_6xkk(4, 0xFF);
    // Grow I past 16 bits via repeated Fx1E; wrapping is modulo 65536.
    for _ in 0..257 {
        cpu.op_fx1e(4);
    }
    assert_eq!(cpu.i, (0xFFFu32 + 257 * 0xFF) as u16);
}

#[test]
fn glyph_address_is_five_times_digit() {
    let mut cpu = fresh_cpu();
    cpu.op_6xkk(2, 0xA);
    cpu.op_fx29(2);
    assert_eq!(cpu.i, 50);
}

#[test]
fn bcd_decomposition() {
    let mut cpu = fresh_cpu();
    cpu.op_6xkk(0, 234);
    cpu.op_annn(0x300);
    cpu.op_fx33(0);
    assert_eq!(cpu.memory.ram[0x300], 2);
    assert_eq!(cpu.memory.ram[0x301], 3);
    assert_eq!(cpu.memory.ram[0x302], 4);

    cpu.op_6xkk(0, 7);
    cpu.op_fx33(0);
    assert_eq!(cpu.memory.ram[0x300], 0);
    assert_eq!(cpu.memory.ram[0x301], 0);
    assert_eq!(cpu.memory.ram[0x302], 7);
}

#[test]
fn block_transfer_round_trip() {
    let mut cpu = fresh_cpu();
    for j in 0..8usize {
        cpu.op_6xkk(j, (j as u8) * 3 + 1);
    }
    cpu.op_annn(0x400);
    cpu.op_fx55(7);
    for j in 0..8usize {
        assert_eq!(cpu.memory.ram[0x400 + j], (j as u8) * 3 + 1);
    }
    // Past the range nothing is written.
    assert_eq!(cpu.memory.ram[0x408], 0);
    // Clear the registers, then read them back.
    for j in 0..8usize {
        cpu.op_6xkk(j, 0);
    }
    cpu.op_fx65(7);
    for j in 0..8usize {
        assert_eq!(cpu.v[j], (j as u8) * 3 + 1);
    }
}

#[test]
fn timer_transfers() {
    let mut cpu = fresh_cpu();
    cpu.op_6xkk(1, 42);
    cpu.op_fx15(1);
    assert_eq!(cpu.delay_timer, 42);
    cpu.op_fx18(1);
    assert_eq!(cpu.sound_timer, 42);
    cpu.op_fx07(2);
    assert_eq!(cpu.v[2], 42);
}

#[test]
fn random_is_masked() {
    // Nothing is promised of the drawn byte, but the mask is: kk = 0 pins
    // the result, and any kk bounds it.
    let mut cpu = fresh_cpu();
    cpu.op_6xkk(0, 0xAA);
    cpu.op_cxkk(0, 0x00);
    assert_eq!(cpu.v[0], 0);
    for _ in 0..50 {
        cpu.op_cxkk(0, 0x0F);
        assert!(cpu.v[0] <= 0x0F);
    }
}

#[test]
fn key_gated_skips() {
    let mut cpu = fresh_cpu();
    let mut keyboard = Keyboard::new();
    cpu.op_6xkk(0, 5);
    assert!(matches!(cpu.op_ex9e(0, &keyboard), Action::Next));
    assert!(matches!(cpu.op_exa1(0, &keyboard), Action::Skip));
    keyboard.press(5);
    assert!(matches!(cpu.op_ex9e(0, &keyboard), Action::Skip));
    assert!(matches!(cpu.op_exa1(0, &keyboard), Action::Next));
    keyboard.release(5);
    assert!(matches!(cpu.op_ex9e(0, &keyboard), Action::Next));
}

#[test]
fn key_wait_latch_is_set() {
    let mut cpu = fresh_cpu();
    let a = cpu.op_fx0a(6);
    assert!(matches!(a, Action::Next));
    assert!(cpu.keypad_waiting);
    assert_eq!(cpu.keypad_register, 6);
}
