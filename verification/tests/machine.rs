//! Whole-machine behavior through `load`, `run_opcode`, and `tick`: the
//! call stack, the framebuffer, the key-wait state machine, the fatal
//! conditions, and an end-to-end font drawing run.

use chip8::cpu::Cpu;
use chip8::hardware::KeyboardDriver;
use chip8::keyboard::Keyboard;
use chip8::memory::Memory;
use chip8::Chip8Error;

fn fresh_cpu() -> Cpu {
    Cpu::new(Memory::new())
}

fn load_cpu(program: &[u8]) -> Cpu {
    let mut memory = Memory::new();
    memory.load(program).unwrap();
    Cpu::new(memory)
}

#[test]
fn memory_new_preloads_font_and_zeroes_the_rest() {
    let m = Memory::new();
    assert_eq!(m.ram.len(), 4096);
    assert_eq!(&m.ram[0..5], &[0xF0, 0x90, 0x90, 0x90, 0xF0]);
    assert_eq!(&m.ram[75..80], &[0xF0, 0x80, 0xF0, 0x80, 0x80]);
    assert!(m.ram[80..].iter().all(|&b| b == 0));
    assert!(m.stack.iter().all(|&w| w == 0));
    assert!(m.vram.iter().all(|&p| p == 0));
    assert!(m.vram_changed);
}

#[test]
fn load_3584_bytes_succeeds() {
    let mut m = Memory::new();
    let program = vec![0xABu8; 3584];
    assert!(m.load(&program).is_ok());
    assert_eq!(m.ram[0x200], 0xAB);
    assert_eq!(m.ram[0xFFF], 0xAB);
    // Interpreter space is untouched.
    assert_eq!(m.ram[0], 0xF0);
}

#[test]
fn load_3585_bytes_fails_without_mutating_memory() {
    let mut m = Memory::new();
    let before = m.ram.clone();
    let program = vec![0xABu8; 3585];
    assert_eq!(m.load(&program), Err(Chip8Error::ProgramTooLarge));
    assert_eq!(m.ram, before);
}

#[test]
fn call_then_ret_nets_pc_plus_two() {
    let mut cpu = fresh_cpu();
    let keyboard = Keyboard::new();
    assert_eq!(cpu.pc, 0x200);
    cpu.run_opcode(0x2300, &keyboard).unwrap();
    assert_eq!(cpu.pc, 0x300);
    assert_eq!(cpu.sp, 1);
    assert_eq!(cpu.memory.stack[0], 0x200);
    cpu.run_opcode(0x00EE, &keyboard).unwrap();
    assert_eq!(cpu.pc, 0x202);
    assert_eq!(cpu.sp, 0);
}

#[test]
fn stack_underflow_and_overflow_are_fatal() {
    let mut cpu = fresh_cpu();
    let keyboard = Keyboard::new();
    assert_eq!(cpu.run_opcode(0x00EE, &keyboard), Err(Chip8Error::StackUnderflow));

    let mut cpu = fresh_cpu();
    for _ in 0..16 {
        cpu.pc = 0x200;
        cpu.run_opcode(0x2300, &keyboard).unwrap();
    }
    assert_eq!(cpu.sp, 16);
    cpu.pc = 0x200;
    assert_eq!(cpu.run_opcode(0x2300, &keyboard), Err(Chip8Error::StackOverflow));
}

#[test]
fn unknown_opcode_is_fatal_and_leaves_state() {
    let mut cpu = fresh_cpu();
    let keyboard = Keyboard::new();
    assert_eq!(cpu.run_opcode(0x0123, &keyboard), Err(Chip8Error::UnknownOpcode));
    assert_eq!(cpu.pc, 0x200);
    assert_eq!(cpu.run_opcode(0x5121, &keyboard), Err(Chip8Error::UnknownOpcode));
    assert_eq!(cpu.run_opcode(0x8008, &keyboard), Err(Chip8Error::UnknownOpcode));
    assert_eq!(cpu.run_opcode(0xF1FF, &keyboard), Err(Chip8Error::UnknownOpcode));
}

#[test]
fn out_of_range_addresses_are_fatal() {
    let keyboard = Keyboard::new();

    let mut cpu = fresh_cpu();
    cpu.run_opcode(0xAFFF, &keyboard).unwrap();
    assert_eq!(cpu.run_opcode(0xD012, &keyboard), Err(Chip8Error::AddressOutOfRange));
    assert_eq!(cpu.run_opcode(0xF033, &keyboard), Err(Chip8Error::AddressOutOfRange));
    assert_eq!(cpu.run_opcode(0xF155, &keyboard), Err(Chip8Error::AddressOutOfRange));
    assert_eq!(cpu.run_opcode(0xF165, &keyboard), Err(Chip8Error::AddressOutOfRange));
}

#[test]
fn key_out_of_range_is_fatal() {
    let mut cpu = fresh_cpu();
    let keyboard = Keyboard::new();
    cpu.op_6xkk(1, 20);
    assert_eq!(cpu.run_opcode(0xE19E, &keyboard), Err(Chip8Error::KeyOutOfRange));
    assert_eq!(cpu.run_opcode(0xE1A1, &keyboard), Err(Chip8Error::KeyOutOfRange));
    // A key value inside the keypad is gated, not fatal.
    assert_eq!(cpu.run_opcode(0xE29E, &keyboard), Ok(()));
}

#[test]
fn cls_clears_framebuffer_and_sets_dirty() {
    // Draw the zero glyph, consume the dirty flag, then clear.
    let mut cpu = load_cpu(&[]);
    let keyboard = Keyboard::new();
    cpu.run_opcode(0xA000, &keyboard).unwrap();
    cpu.run_opcode(0xD005, &keyboard).unwrap();
    assert!(cpu.memory.vram.iter().any(|&p| p == 1));
    cpu.memory.vram_changed = false;
    cpu.run_opcode(0x00E0, &keyboard).unwrap();
    assert!(cpu.memory.vram.iter().all(|&p| p == 0));
    assert!(cpu.memory.vram_changed);
}

#[test]
fn draw_twice_restores_framebuffer() {
    let mut cpu = load_cpu(&[]);
    let keyboard = Keyboard::new();
    // Sprite: the font glyph for 3, drawn at (V0, V1) = (2, 1).
    cpu.run_opcode(0xA00F, &keyboard).unwrap();
    cpu.run_opcode(0x6002, &keyboard).unwrap();
    cpu.run_opcode(0x6101, &keyboard).unwrap();
    let before = cpu.memory.vram.clone();
    cpu.run_opcode(0xD015, &keyboard).unwrap();
    assert_ne!(cpu.memory.vram, before);
    assert_eq!(cpu.v[15], 0);
    cpu.run_opcode(0xD015, &keyboard).unwrap();
    assert_eq!(cpu.memory.vram, before);
    // The second pass erased every sprite pixel, so the collision flag is
    // raised and stays.
    assert_eq!(cpu.v[15], 1);
}

#[test]
fn draw_wraps_coordinates() {
    let mut cpu = load_cpu(&[]);
    let keyboard = Keyboard::new();
    // One-row sprite 0xF0 at column 62, row 31: wraps to columns 62, 63,
    // 0, 1 of the last row.
    cpu.run_opcode(0xA000, &keyboard).unwrap();
    cpu.run_opcode(0x603E, &keyboard).unwrap();
    cpu.run_opcode(0x611F, &keyboard).unwrap();
    cpu.run_opcode(0xD011, &keyboard).unwrap();
    let row = 31usize;
    assert_eq!(cpu.memory.vram[row * 64 + 62], 1);
    assert_eq!(cpu.memory.vram[row * 64 + 63], 1);
    assert_eq!(cpu.memory.vram[row * 64 + 0], 1);
    assert_eq!(cpu.memory.vram[row * 64 + 1], 1);
    assert_eq!(cpu.memory.vram[row * 64 + 2], 0);
}

#[test]
fn tick_decrements_timers_once() {
    let mut cpu = load_cpu(&[0x60, 0x07]);
    let keyboard = Keyboard::new();
    cpu.delay_timer = 3;
    cpu.sound_timer = 1;
    cpu.tick(&keyboard).unwrap();
    assert_eq!(cpu.delay_timer, 2);
    assert_eq!(cpu.sound_timer, 0);
    assert_eq!(cpu.pc, 0x202);
}

#[test]
fn halt_opcode_stops_ticking() {
    let mut cpu = load_cpu(&[0x00, 0x00]);
    let keyboard = Keyboard::new();
    cpu.tick(&keyboard).unwrap();
    assert!(cpu.halt);
    assert_eq!(cpu.pc, 0x200);
    // Further ticks do nothing.
    cpu.tick(&keyboard).unwrap();
    assert_eq!(cpu.pc, 0x200);
}

#[test]
fn key_wait_blocks_until_a_key_arrives() {
    // F30A: wait for a key into V3.
    let mut cpu = load_cpu(&[0xF3, 0x0A]);
    let mut keyboard = Keyboard::new();
    cpu.tick(&keyboard).unwrap();
    assert!(cpu.keypad_waiting);
    assert_eq!(cpu.pc, 0x202);
    let regs = cpu.v.clone();
    let pc = cpu.pc;
    // No key pressed: the machine stays exactly as it is.
    for _ in 0..3 {
        cpu.tick(&keyboard).unwrap();
        assert!(cpu.keypad_waiting);
        assert_eq!(cpu.v, regs);
        assert_eq!(cpu.pc, pc);
    }
    // A key arrives: exactly its index lands in V3 and ticking resumes.
    keyboard.press(0xB);
    cpu.tick(&keyboard).unwrap();
    assert!(!cpu.keypad_waiting);
    assert_eq!(cpu.v[3], 0xB);
    assert_eq!(cpu.pc, pc);
}

#[test]
fn fetch_past_ram_end_is_fatal() {
    let mut cpu = fresh_cpu();
    let keyboard = Keyboard::new();
    cpu.pc = 4095;
    assert_eq!(cpu.tick(&keyboard), Err(Chip8Error::AddressOutOfRange));
}

#[test]
fn end_to_end_draws_the_zero_glyph() {
    // A000: I = 0; F029: I = glyph base for V0 = 0; D005: draw 5 rows at
    // (V0, V1) = (0, 0). After three ticks the top-left 8x5 region holds
    // the zero glyph.
    let mut cpu = load_cpu(&[0xA0, 0x00, 0xF0, 0x29, 0xD0, 0x05]);
    let keyboard = Keyboard::new();
    cpu.tick(&keyboard).unwrap();
    cpu.tick(&keyboard).unwrap();
    cpu.tick(&keyboard).unwrap();
    let glyph: [u8; 5] = [0xF0, 0x90, 0x90, 0x90, 0xF0];
    for (row, bits) in glyph.iter().enumerate() {
        for col in 0..8usize {
            let expected = (bits >> (7 - col)) & 1;
            assert_eq!(cpu.memory.vram[row * 64 + col], expected, "row {row} col {col}");
        }
    }
    assert_eq!(cpu.pc, 0x206);
}

#[test]
fn keyboard_reports_pressed_keys() {
    let mut keyboard = Keyboard::new();
    assert_eq!(keyboard.get_key(), None);
    assert!(!keyboard.is_key_pressed(4));
    keyboard.press(4);
    keyboard.press(9);
    assert!(keyboard.is_key_pressed(4));
    assert_eq!(keyboard.get_key(), Some(4));
    keyboard.release(4);
    assert_eq!(keyboard.get_key(), Some(9));
    keyboard.release(9);
    assert_eq!(keyboard.get_key(), None);
}
