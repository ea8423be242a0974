//! The opcode pretty-printer: exact mnemonic text, including hexadecimal
//! and decimal operand rendering.

use chip8::debugger::{DebugMode, Debugger};

#[test]
fn debugger_starts_disabled() {
    let d = Debugger::new();
    assert!(d.program.is_empty());
    assert_eq!(d.mode, DebugMode::Disabled);
}

#[test]
fn fixed_mnemonics() {
    assert_eq!(Debugger::describe_opcode(0x0000), "HALT");
    assert_eq!(Debugger::describe_opcode(0x00E0), "CLS");
    assert_eq!(Debugger::describe_opcode(0x00EE), "RET");
}

#[test]
fn operand_rendering() {
    assert_eq!(Debugger::describe_opcode(0x1ABC), "JP 0xABC (2748)");
    assert_eq!(Debugger::describe_opcode(0x2200), "CALL 0x200 (512)");
    assert_eq!(Debugger::describe_opcode(0x3A0F), "SE V10 0xF (15)");
    assert_eq!(Debugger::describe_opcode(0x41FE), "SNE V1 0xFE (254)");
    assert_eq!(Debugger::describe_opcode(0x5230), "SE V2 V3");
    assert_eq!(Debugger::describe_opcode(0x6407), "LD V4 0x7 (7)");
    assert_eq!(Debugger::describe_opcode(0x7F10), "ADD V15 0x10 (16)");
    assert_eq!(Debugger::describe_opcode(0x8120), "LD V1 V2");
    assert_eq!(Debugger::describe_opcode(0x8121), "OR V1 V2");
    assert_eq!(Debugger::describe_opcode(0x8122), "AND V1 V2");
    assert_eq!(Debugger::describe_opcode(0x8123), "XOR V1 V2");
    assert_eq!(Debugger::describe_opcode(0x8124), "ADD V1 V2");
    assert_eq!(Debugger::describe_opcode(0x8125), "SUB V1 V2");
    assert_eq!(Debugger::describe_opcode(0x8126), "SHR V1 [, V2]");
    assert_eq!(Debugger::describe_opcode(0x8127), "SUBN V1 V2");
    assert_eq!(Debugger::describe_opcode(0x812E), "SHL V1 [, V2]");
    assert_eq!(Debugger::describe_opcode(0x9120), "SNE V1, V2");
    assert_eq!(Debugger::describe_opcode(0xA123), "LDI, 0x123 (291)");
    assert_eq!(Debugger::describe_opcode(0xB123), "JP V0, 291 (291)");
    assert_eq!(Debugger::describe_opcode(0xC1AB), "RND V1, 0xAB (171)");
    assert_eq!(Debugger::describe_opcode(0xD125), "DRW V1, V2, 0x5 (5)");
    assert_eq!(Debugger::describe_opcode(0xE19E), "SKP V1");
    assert_eq!(Debugger::describe_opcode(0xE1A1), "SKNP V1");
    assert_eq!(Debugger::describe_opcode(0xF107), "LD V1, DT");
    assert_eq!(Debugger::describe_opcode(0xF10A), "LD V1, K");
    assert_eq!(Debugger::describe_opcode(0xF115), "LD DT, V1");
    assert_eq!(Debugger::describe_opcode(0xF118), "LD ST, V1");
    assert_eq!(Debugger::describe_opcode(0xF11E), "ADD I, V1");
    assert_eq!(Debugger::describe_opcode(0xF129), "LD F, V1");
    assert_eq!(Debugger::describe_opcode(0xF133), "LD B, V1");
    assert_eq!(Debugger::describe_opcode(0xF155), "LD [I], V1");
    assert_eq!(Debugger::describe_opcode(0xF165), "LD V1, [I]");
}

#[test]
fn unknown_opcodes_render_as_hex() {
    assert_eq!(Debugger::describe_opcode(0x0123), "0x123");
    assert_eq!(Debugger::describe_opcode(0xFFFF), "0xFFFF");
}
