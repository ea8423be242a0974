//! The inspection collaborator: a step-debugger's state and the opcode
//! pretty-printer. The printer renders each instruction's mnemonic with
//! verified hexadecimal and decimal number formatting.

use vstd::prelude::*;
use vstd::string::StringExecFns;

use crate::semantics::decode;
use crate::semantics::nib_y;
use crate::semantics::Instr;

verus! {

/// What the debugger does between ticks.
#[derive(Clone, Copy, Debug, PartialEq, Eq, Structural)]
pub enum DebugMode {
    /// No debugging.
    Disabled,
    /// Execute one instruction per explicit step command.
    Step,
    /// Print processor state each tick.
    CpuInfo,
    /// Print each decoded opcode.
    OpcodeInfo,
}

/// The optional inspection collaborator: it remembers the loaded program
/// for disassembly and the chosen mode. It reads machine state only
/// between ticks and never mutates it.
pub struct Debugger {
    /// A copy of the loaded program, for disassembly.
    pub program: Vec<u8>,
    /// The current mode.
    pub mode: DebugMode,
}

impl Debugger {
    /// A disabled debugger with no program recorded.
    pub fn new() -> (d: Debugger)
        ensures
            d.program@.len() == 0,
            d.mode == DebugMode::Disabled,
    {
        Debugger { program: Vec::new(), mode: DebugMode::Disabled }
    }

    /// Renders the mnemonic for one opcode, exactly as `spec_describe`
    /// states it.
    pub fn describe_opcode(opcode: u16) -> (r: String)
        ensures
            r@ == spec_describe(opcode),
    {
        let nibbles = (
            ((opcode & 0xF000) >> 12) as u8,
            ((opcode & 0x0F00) >> 8) as u8,
            ((opcode & 0x00F0) >> 4) as u8,
            (opcode & 0x000F) as u8,
        );

        let nnn = opcode & 0x0FFF;
        let kk = (opcode & 0x00FF) as u8;
        let x = nibbles.1;
        let y = nibbles.2;
        let n = nibbles.3;

        match nibbles {
            (0x0, 0x0, 0x0, 0x0) => {
                let mut s = String::from_str("HALT");
                return s;
            },
            (0x0, 0x0, 0xE, 0x0) => {
                let mut s = String::from_str("CLS");
                return s;
            },
            (0x0, 0x0, 0xE, 0xE) => {
                let mut s = String::from_str("RET");
                return s;
            },
            (0x1, _, _, _) => {
                let mut s = String::from_str("JP 0x");
                s.append(hex_str(nnn as u16).as_str());
                s.append(" (");
                s.append(dec_str(nnn as u16).as_str());
                s.append(")");
                return s;
            },
            (0x2, _, _, _) => {
                let mut s = String::from_str("CALL 0x");
                s.append(hex_str(nnn as u16).as_str());
                s.append(" (");
                s.append(dec_str(nnn as u16).as_str());
                s.append(")");
                return s;
            },
            (0x3, _, _, _) => {
                let mut s = String::from_str("SE V");
                s.append(dec_str(x as u16).as_str());
                s.append(" 0x");
                s.append(hex_str(kk as u16).as_str());
                s.append(" (");
                s.append(dec_str(kk as u16).as_str());
                s.append(")");
                return s;
            },
            (0x4, _, _, _) => {
                let mut s = String::from_str("SNE V");
                s.append(dec_str(x as u16).as_str());
                s.append(" 0x");
                s.append(hex_str(kk as u16).as_str());
                s.append(" (");
                s.append(dec_str(kk as u16).as_str());
                s.append(")");
                return s;
            },
            (0x5, _, _, 0x00) => {
                let mut s = String::from_str("SE V");
                s.append(dec_str(x as u16).as_str());
                s.append(" V");
                s.append(dec_str(y as u16).as_str());
                return s;
            },
            (0x6, _, _, _) => {
                let mut s = String::from_str("LD V");
                s.append(dec_str(x as u16).as_str());
                s.append(" 0x");
                s.append(hex_str(kk as u16).as_str());
                s.append(" (");
                s.append(dec_str(kk as u16).as_str());
                s.append(")");
                return s;
            },
            (0x7, _, _, _) => {
                let mut s = String::from_str("ADD V");
                s.append(dec_str(x as u16).as_str());
                s.append(" 0x");
                s.append(hex_str(kk as u16).as_str());
                s.append(" (");
                s.append(dec_str(kk as u16).as_str());
                s.append(")");
                return s;
            },
            (0x8, _, _, 0x00) => {
                let mut s = String::from_str("LD V");
                s.append(dec_str(x as u16).as_str());
                s.append(" V");
                s.append(dec_str(y as u16).as_str());
                return s;
            },
            (0x8, _, _, 0x01) => {
                let mut s = String::from_str("OR V");
                s.append(dec_str(x as u16).as_str());
                s.append(" V");
                s.append(dec_str(y as u16).as_str());
                return s;
            },
            (0x8, _, _, 0x02) => {
                let mut s = String::from_str("AND V");
                s.append(dec_str(x as u16).as_str());
                s.append(" V");
                s.append(dec_str(y as u16).as_str());
                return s;
            },
            (0x8, _, _, 0x03) => {
                let mut s = String::from_str("XOR V");
                s.append(dec_str(x as u16).as_str());
                s.append(" V");
                s.append(dec_str(y as u16).as_str());
                return s;
            },
            (0x8, _, _, 0x04) => {
                let mut s = String::from_str("ADD V");
                s.append(dec_str(x as u16).as_str());
                s.append(" V");
                s.append(dec_str(y as u16).as_str());
                return s;
            },
            (0x8, _, _, 0x05) => {
                let mut s = String::from_str("SUB V");
                s.append(dec_str(x as u16).as_str());
                s.append(" V");
                s.append(dec_str(y as u16).as_str());
                return s;
            },
            (0x8, _, _, 0x06) => {
                let mut s = String::from_str("SHR V");
                s.append(dec_str(x as u16).as_str());
                s.append(" [, V");
                s.append(dec_str(y as u16).as_str());
                s.append("]");
                return s;
            },
            (0x8, _, _, 0x07) => {
                let mut s = String::from_str("SUBN V");
                s.append(dec_str(x as u16).as_str());
                s.append(" V");
                s.append(dec_str(y as u16).as_str());
                return s;
            },
            (0x8, _, _, 0x0E) => {
                let mut s = String::from_str("SHL V");
                s.append(dec_str(x as u16).as_str());
                s.append(" [, V");
                s.append(dec_str(y as u16).as_str());
                s.append("]");
                return s;
            },
            (0x9, _, _, 0x00) => {
                let mut s = String::from_str("SNE V");
                s.append(dec_str(x as u16).as_str());
                s.append(", V");
                s.append(dec_str(y as u16).as_str());
                return s;
            },
            (0xA, _, _, _) => {
                let mut s = String::from_str("LDI, 0x");
                s.append(hex_str(nnn as u16).as_str());
                s.append(" (");
                s.append(dec_str(nnn as u16).as_str());
                s.append(")");
                return s;
            },
            (0xB, _, _, _) => {
                let mut s = String::from_str("JP V0, ");
                s.append(dec_str(nnn as u16).as_str());
                s.append(" (");
                s.append(dec_str(nnn as u16).as_str());
                s.append(")");
                return s;
            },
            (0xC, _, _, _) => {
                let mut s = String::from_str("RND V");
                s.append(dec_str(x as u16).as_str());
                s.append(", 0x");
                s.append(hex_str(kk as u16).as_str());
                s.append(" (");
                s.append(dec_str(kk as u16).as_str());
                s.append(")");
                return s;
            },
            (0xD, _, _, _) => {
                let mut s = String::from_str("DRW V");
                s.append(dec_str(x as u16).as_str());
                s.append(", V");
                s.append(dec_str(y as u16).as_str());
                s.append(", 0x");
                s.append(hex_str(n as u16).as_str());
                s.append(" (");
                s.append(hex_str(n as u16).as_str());
                s.append(")");
                return s;
            },
            (0xE, _, 0x09, 0x0E) => {
                let mut s = String::from_str("SKP V");
                s.append(dec_str(x as u16).as_str());
                return s;
            },
            (0xE, _, 0x0A, 0x01) => {
                let mut s = String::from_str("SKNP V");
                s.append(dec_str(x as u16).as_str());
                return s;
            },
            (0xF, _, 0x00, 0x07) => {
                let mut s = String::from_str("LD V");
                s.append(dec_str(x as u16).as_str());
                s.append(", DT");
                return s;
            },
            (0xF, _, 0x00, 0x0A) => {
                let mut s = String::from_str("LD V");
                s.append(dec_str(x as u16).as_str());
                s.append(", K");
                return s;
            },
            (0xF, _, 0x01, 0x05) => {
                let mut s = String::from_str("LD DT, V");
                s.append(dec_str(x as u16).as_str());
                return s;
            },
            (0xF, _, 0x01, 0x08) => {
                let mut s = String::from_str("LD ST, V");
                s.append(dec_str(x as u16).as_str());
                return s;
            },
            (0xF, _, 0x01, 0x0E) => {
                let mut s = String::from_str("ADD I, V");
                s.append(dec_str(x as u16).as_str());
                return s;
            },
            (0xF, _, 0x02, 0x09) => {
                let mut s = String::from_str("LD F, V");
                s.append(dec_str(x as u16).as_str());
                return s;
            },
            (0xF, _, 0x03, 0x03) => {
                let mut s = String::from_str("LD B, V");
                s.append(dec_str(x as u16).as_str());
                return s;
            },
            (0xF, _, 0x05, 0x05) => {
                let mut s = String::from_str("LD [I], V");
                s.append(dec_str(x as u16).as_str());
                return s;
            },
            (0xF, _, 0x06, 0x05) => {
                let mut s = String::from_str("LD V");
                s.append(dec_str(x as u16).as_str());
                s.append(", [I]");
                return s;
            },
            _ => {
                let mut s = String::from_str("0x");
                s.append(hex_str(opcode).as_str());
                return s;
            },
        }
    }
}

/// The digit character for a value below 16, uppercase as `0..9A..F`.
pub open spec fn digit_char(d: u8) -> char {
    if d == 0 {
        '0'
    } else if d == 1 {
        '1'
    } else if d == 2 {
        '2'
    } else if d == 3 {
        '3'
    } else if d == 4 {
        '4'
    } else if d == 5 {
        '5'
    } else if d == 6 {
        '6'
    } else if d == 7 {
        '7'
    } else if d == 8 {
        '8'
    } else if d == 9 {
        '9'
    } else if d == 10 {
        'A'
    } else if d == 11 {
        'B'
    } else if d == 12 {
        'C'
    } else if d == 13 {
        'D'
    } else if d == 14 {
        'E'
    } else {
        'F'
    }
}

/// The minimal-width uppercase hexadecimal rendering of a number.
pub open spec fn spec_hex(n: nat) -> Seq<char>
    decreases n,
{
    if n < 16 {
        seq![digit_char(n as u8)]
    } else {
        spec_hex(n / 16) + seq![digit_char((n % 16) as u8)]
    }
}

/// The minimal-width decimal rendering of a number.
pub open spec fn spec_dec(n: nat) -> Seq<char>
    decreases n,
{
    if n < 10 {
        seq![digit_char(n as u8)]
    } else {
        spec_dec(n / 10) + seq![digit_char((n % 10) as u8)]
    }
}

/// The mnemonic text for one opcode: the instruction name and its
/// operands, register numbers in decimal, addresses and byte immediates in
/// hexadecimal with their decimal reading in parentheses.
pub open spec fn spec_describe(op: u16) -> Seq<char> {
    let x = crate::semantics::nib_x(op);
    let y = nib_y(op);
    let n = crate::semantics::nib_d(op);
    let kk = crate::semantics::imm_kk(op);
    let nnn = crate::semantics::imm_nnn(op);
    match decode(op) {
        Instr::Halt => "HALT"@,
        Instr::Cls => "CLS"@,
        Instr::Ret => "RET"@,
        Instr::Jp(..) => "JP 0x"@ + spec_hex(nnn as nat) + " ("@ + spec_dec(nnn as nat) + ")"@,
        Instr::Call(..) => "CALL 0x"@ + spec_hex(nnn as nat) + " ("@ + spec_dec(nnn as nat) + ")"@,
        Instr::SeByte(..) => "SE V"@ + spec_dec(x as nat) + " 0x"@ + spec_hex(kk as nat) + " ("@ + spec_dec(kk as nat) + ")"@,
        Instr::SneByte(..) => "SNE V"@ + spec_dec(x as nat) + " 0x"@ + spec_hex(kk as nat) + " ("@ + spec_dec(kk as nat) + ")"@,
        Instr::SeReg(..) => "SE V"@ + spec_dec(x as nat) + " V"@ + spec_dec(y as nat),
        Instr::LdByte(..) => "LD V"@ + spec_dec(x as nat) + " 0x"@ + spec_hex(kk as nat) + " ("@ + spec_dec(kk as nat) + ")"@,
        Instr::AddByte(..) => "ADD V"@ + spec_dec(x as nat) + " 0x"@ + spec_hex(kk as nat) + " ("@ + spec_dec(kk as nat) + ")"@,
        Instr::LdReg(..) => "LD V"@ + spec_dec(x as nat) + " V"@ + spec_dec(y as nat),
        Instr::Or(..) => "OR V"@ + spec_dec(x as nat) + " V"@ + spec_dec(y as nat),
        Instr::And(..) => "AND V"@ + spec_dec(x as nat) + " V"@ + spec_dec(y as nat),
        Instr::Xor(..) => "XOR V"@ + spec_dec(x as nat) + " V"@ + spec_dec(y as nat),
        Instr::AddReg(..) => "ADD V"@ + spec_dec(x as nat) + " V"@ + spec_dec(y as nat),
        Instr::Sub(..) => "SUB V"@ + spec_dec(x as nat) + " V"@ + spec_dec(y as nat),
        Instr::Shr(..) => "SHR V"@ + spec_dec(x as nat) + " [, V"@ + spec_dec(y as nat) + "]"@,
        Instr::Subn(..) => "SUBN V"@ + spec_dec(x as nat) + " V"@ + spec_dec(y as nat),
        Instr::Shl(..) => "SHL V"@ + spec_dec(x as nat) + " [, V"@ + spec_dec(y as nat) + "]"@,
        Instr::SneReg(..) => "SNE V"@ + spec_dec(x as nat) + ", V"@ + spec_dec(y as nat),
        Instr::LdI(..) => "LDI, 0x"@ + spec_hex(nnn as nat) + " ("@ + spec_dec(nnn as nat) + ")"@,
        Instr::JpV0(..) => "JP V0, "@ + spec_dec(nnn as nat) + " ("@ + spec_dec(nnn as nat) + ")"@,
        Instr::Rnd(..) => "RND V"@ + spec_dec(x as nat) + ", 0x"@ + spec_hex(kk as nat) + " ("@ + spec_dec(kk as nat) + ")"@,
        Instr::Drw(..) => "DRW V"@ + spec_dec(x as nat) + ", V"@ + spec_dec(y as nat) + ", 0x"@ + spec_hex(n as nat) + " ("@ + spec_hex(n as nat) + ")"@,
        Instr::Skp(..) => "SKP V"@ + spec_dec(x as nat),
        Instr::Sknp(..) => "SKNP V"@ + spec_dec(x as nat),
        Instr::LdRegDt(..) => "LD V"@ + spec_dec(x as nat) + ", DT"@,
        Instr::WaitKey(..) => "LD V"@ + spec_dec(x as nat) + ", K"@,
        Instr::LdDtReg(..) => "LD DT, V"@ + spec_dec(x as nat),
        Instr::LdStReg(..) => "LD ST, V"@ + spec_dec(x as nat),
        Instr::AddI(..) => "ADD I, V"@ + spec_dec(x as nat),
        Instr::LdGlyph(..) => "LD F, V"@ + spec_dec(x as nat),
        Instr::Bcd(..) => "LD B, V"@ + spec_dec(x as nat),
        Instr::StoreRegs(..) => "LD [I], V"@ + spec_dec(x as nat),
        Instr::LoadRegs(..) => "LD V"@ + spec_dec(x as nat) + ", [I]"@,
        Instr::Invalid => "0x"@ + spec_hex(op as nat),
    }
}

/// The single digit character for a value below 16.
fn digit_str(d: u8) -> (r: &'static str)
    requires
        d < 16,
    ensures
        r@ == seq![digit_char(d)],
{
    let r: &'static str = match d {
        0 => "0",
        1 => "1",
        2 => "2",
        3 => "3",
        4 => "4",
        5 => "5",
        6 => "6",
        7 => "7",
        8 => "8",
        9 => "9",
        10 => "A",
        11 => "B",
        12 => "C",
        13 => "D",
        14 => "E",
        _ => "F",
    };
    proof {
        reveal_strlit("0");
        reveal_strlit("1");
        reveal_strlit("2");
        reveal_strlit("3");
        reveal_strlit("4");
        reveal_strlit("5");
        reveal_strlit("6");
        reveal_strlit("7");
        reveal_strlit("8");
        reveal_strlit("9");
        reveal_strlit("A");
        reveal_strlit("B");
        reveal_strlit("C");
        reveal_strlit("D");
        reveal_strlit("E");
        reveal_strlit("F");
        assert(r@ =~= seq![digit_char(d)]);
    }
    r
}

/// Renders a number in minimal-width uppercase hexadecimal.
pub fn hex_str(n: u16) -> (r: String)
    ensures
        r@ == spec_hex(n as nat),
    decreases n,
{
    if n < 16 {
        String::from_str(digit_str(n as u8))
    } else {
        let mut s = hex_str(n / 16);
        s.append(digit_str((n % 16) as u8));
        s
    }
}

/// Renders a number in minimal-width decimal.
pub fn dec_str(n: u16) -> (r: String)
    ensures
        r@ == spec_dec(n as nat),
    decreases n,
{
    if n < 10 {
        String::from_str(digit_str(n as u8))
    } else {
        let mut s = dec_str(n / 10);
        s.append(digit_str((n % 10) as u8));
        s
    }
}

} // verus!
