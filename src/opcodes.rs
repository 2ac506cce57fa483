//! The instruction table: for each of the 256 opcode bytes, its mnemonic,
//! encoded length, base cycle count and addressing mode.
use vstd::prelude::*;
use crate::cpu::AddressingMode;

verus! {

#[derive(Clone, Copy, Debug, PartialEq, Eq)]
pub struct OpCode {
    pub code: u8,
    pub mnemonic: &'static str,
    pub len: u8,
    pub cycles: u8,
    pub mode: AddressingMode,
}

impl OpCode {
    pub fn new(code: u8, mnemonic: &'static str, len: u8, cycles: u8, mode: AddressingMode) -> (r: OpCode)
        ensures
            r.code == code,
            r.mnemonic == mnemonic,
            r.len == len,
            r.cycles == cycles,
            r.mode == mode,
    {
        OpCode { code, mnemonic, len, cycles, mode }
    }
}

/// (encoded length, base cycles, addressing mode) of each opcode byte.
pub open spec fn op_info(code: u8) -> (u8, u8, AddressingMode) {
    match code {
        0x00 => (1, 7, AddressingMode::NoneAddressing),
        0x01 | 0x21 | 0x41 | 0x61 | 0x81 | 0x83 | 0xA1 | 0xA3 | 0xC1 | 0xE1 => (2, 6, AddressingMode::Indirect_X),
        0x03 | 0x23 | 0x43 | 0x63 | 0xC3 | 0xE3 => (2, 8, AddressingMode::Indirect_X),
        0x04 | 0x05 | 0x24 | 0x25 | 0x44 | 0x45 | 0x64 | 0x65 | 0x84 | 0x85 | 0x86 | 0x87
        | 0xA4 | 0xA5 | 0xA6 | 0xA7 | 0xC4 | 0xC5 | 0xE4 | 0xE5 => (2, 3, AddressingMode::ZeroPage),
        0x06 | 0x07 | 0x26 | 0x27 | 0x46 | 0x47 | 0x66 | 0x67 | 0xC6 | 0xC7 | 0xE6 | 0xE7 => (2, 5, AddressingMode::ZeroPage),
        0x08 | 0x48 => (1, 3, AddressingMode::NoneAddressing),
        0x09 | 0x0B | 0x29 | 0x2B | 0x49 | 0x4B | 0x69 | 0x6B | 0x80 | 0x82 | 0x89 | 0x8B
        | 0xA0 | 0xA2 | 0xA9 | 0xAB | 0xC0 | 0xC2 | 0xC9 | 0xCB | 0xE0 | 0xE2 | 0xE9 | 0xEB => (2, 2, AddressingMode::Immediate),
        0x0C | 0x0D | 0x2C | 0x2D | 0x4D | 0x6D | 0x8C | 0x8D | 0x8E | 0x8F | 0xAC | 0xAD
        | 0xAE | 0xAF | 0xCC | 0xCD | 0xEC | 0xED => (3, 4, AddressingMode::Absolute),
        0x0E | 0x0F | 0x2E | 0x2F | 0x4E | 0x4F | 0x6E | 0x6F | 0xCE | 0xCF | 0xEE | 0xEF => (3, 6, AddressingMode::Absolute),
        0x10 | 0x30 | 0x50 | 0x70 | 0x90 | 0xB0 | 0xD0 | 0xF0 => (2, 2, AddressingMode::NoneAddressing),
        0x11 | 0x31 | 0x51 | 0x71 | 0xB1 | 0xB3 | 0xD1 | 0xF1 => (2, 5, AddressingMode::Indirect_Y),
        0x13 | 0x33 | 0x53 | 0x73 | 0xD3 | 0xF3 => (2, 8, AddressingMode::Indirect_Y),
        0x14 | 0x15 | 0x34 | 0x35 | 0x54 | 0x55 | 0x74 | 0x75 | 0x94 | 0x95 | 0xB4 | 0xB5
        | 0xD4 | 0xD5 | 0xF4 | 0xF5 => (2, 4, AddressingMode::ZeroPage_X),
        0x16 | 0x17 | 0x36 | 0x37 | 0x56 | 0x57 | 0x76 | 0x77 | 0xD6 | 0xD7 | 0xF6 | 0xF7 => (2, 6, AddressingMode::ZeroPage_X),
        0x19 | 0x39 | 0x59 | 0x79 | 0xB9 | 0xBB | 0xBE | 0xBF | 0xD9 | 0xF9 => (3, 4, AddressingMode::Absolute_Y),
        0x1B | 0x3B | 0x5B | 0x7B | 0xDB | 0xFB => (3, 7, AddressingMode::Absolute_Y),
        0x1C | 0x1D | 0x3C | 0x3D | 0x5C | 0x5D | 0x7C | 0x7D | 0xBC | 0xBD | 0xDC | 0xDD
        | 0xFC | 0xFD => (3, 4, AddressingMode::Absolute_X),
        0x1E | 0x1F | 0x3E | 0x3F | 0x5E | 0x5F | 0x7E | 0x7F | 0xDE | 0xDF | 0xFE | 0xFF => (3, 7, AddressingMode::Absolute_X),
        0x20 => (3, 6, AddressingMode::NoneAddressing),
        0x28 | 0x68 => (1, 4, AddressingMode::NoneAddressing),
        0x40 | 0x60 => (1, 6, AddressingMode::NoneAddressing),
        0x4C => (3, 3, AddressingMode::NoneAddressing),
        0x6C => (3, 5, AddressingMode::NoneAddressing),
        0x91 | 0x93 => (2, 6, AddressingMode::Indirect_Y),
        0x96 | 0x97 | 0xB6 | 0xB7 => (2, 4, AddressingMode::ZeroPage_Y),
        0x99 | 0x9B | 0x9E | 0x9F => (3, 5, AddressingMode::Absolute_Y),
        0x9C | 0x9D => (3, 5, AddressingMode::Absolute_X),
        _ => (1, 2, AddressingMode::NoneAddressing),
    }
}

/// Every opcode is one to three bytes long and takes two to eight cycles.
pub proof fn lemma_opcode_bounds(code: u8)
    ensures
        1 <= op_info(code).0 <= 3,
        2 <= op_info(code).1 <= 8,
{
}

/// The table entry of `code`.
pub fn lookup(code: u8) -> (r: OpCode)
    ensures
        r.code == code,
        (r.len, r.cycles, r.mode) == op_info(code),
{
    let (len, cycles, mode) = info(code);
    OpCode::new(code, mnemonic(code), len, cycles, mode)
}

fn info(code: u8) -> (r: (u8, u8, AddressingMode))
    ensures
        r == op_info(code),
{
    match code {
        0x00 => (1, 7, AddressingMode::NoneAddressing),
        0x01 | 0x21 | 0x41 | 0x61 | 0x81 | 0x83 | 0xA1 | 0xA3 | 0xC1 | 0xE1 => (2, 6, AddressingMode::Indirect_X),
        0x03 | 0x23 | 0x43 | 0x63 | 0xC3 | 0xE3 => (2, 8, AddressingMode::Indirect_X),
        0x04 | 0x05 | 0x24 | 0x25 | 0x44 | 0x45 | 0x64 | 0x65 | 0x84 | 0x85 | 0x86 | 0x87
        | 0xA4 | 0xA5 | 0xA6 | 0xA7 | 0xC4 | 0xC5 | 0xE4 | 0xE5 => (2, 3, AddressingMode::ZeroPage),
        0x06 | 0x07 | 0x26 | 0x27 | 0x46 | 0x47 | 0x66 | 0x67 | 0xC6 | 0xC7 | 0xE6 | 0xE7 => (2, 5, AddressingMode::ZeroPage),
        0x08 | 0x48 => (1, 3, AddressingMode::NoneAddressing),
        0x09 | 0x0B | 0x29 | 0x2B | 0x49 | 0x4B | 0x69 | 0x6B | 0x80 | 0x82 | 0x89 | 0x8B
        | 0xA0 | 0xA2 | 0xA9 | 0xAB | 0xC0 | 0xC2 | 0xC9 | 0xCB | 0xE0 | 0xE2 | 0xE9 | 0xEB => (2, 2, AddressingMode::Immediate),
        0x0C | 0x0D | 0x2C | 0x2D | 0x4D | 0x6D | 0x8C | 0x8D | 0x8E | 0x8F | 0xAC | 0xAD
        | 0xAE | 0xAF | 0xCC | 0xCD | 0xEC | 0xED => (3, 4, AddressingMode::Absolute),
        0x0E | 0x0F | 0x2E | 0x2F | 0x4E | 0x4F | 0x6E | 0x6F | 0xCE | 0xCF | 0xEE | 0xEF => (3, 6, AddressingMode::Absolute),
        0x10 | 0x30 | 0x50 | 0x70 | 0x90 | 0xB0 | 0xD0 | 0xF0 => (2, 2, AddressingMode::NoneAddressing),
        0x11 | 0x31 | 0x51 | 0x71 | 0xB1 | 0xB3 | 0xD1 | 0xF1 => (2, 5, AddressingMode::Indirect_Y),
        0x13 | 0x33 | 0x53 | 0x73 | 0xD3 | 0xF3 => (2, 8, AddressingMode::Indirect_Y),
        0x14 | 0x15 | 0x34 | 0x35 | 0x54 | 0x55 | 0x74 | 0x75 | 0x94 | 0x95 | 0xB4 | 0xB5
        | 0xD4 | 0xD5 | 0xF4 | 0xF5 => (2, 4, AddressingMode::ZeroPage_X),
        0x16 | 0x17 | 0x36 | 0x37 | 0x56 | 0x57 | 0x76 | 0x77 | 0xD6 | 0xD7 | 0xF6 | 0xF7 => (2, 6, AddressingMode::ZeroPage_X),
        0x19 | 0x39 | 0x59 | 0x79 | 0xB9 | 0xBB | 0xBE | 0xBF | 0xD9 | 0xF9 => (3, 4, AddressingMode::Absolute_Y),
        0x1B | 0x3B | 0x5B | 0x7B | 0xDB | 0xFB => (3, 7, AddressingMode::Absolute_Y),
        0x1C | 0x1D | 0x3C | 0x3D | 0x5C | 0x5D | 0x7C | 0x7D | 0xBC | 0xBD | 0xDC | 0xDD
        | 0xFC | 0xFD => (3, 4, AddressingMode::Absolute_X),
        0x1E | 0x1F | 0x3E | 0x3F | 0x5E | 0x5F | 0x7E | 0x7F | 0xDE | 0xDF | 0xFE | 0xFF => (3, 7, AddressingMode::Absolute_X),
        0x20 => (3, 6, AddressingMode::NoneAddressing),
        0x28 | 0x68 => (1, 4, AddressingMode::NoneAddressing),
        0x40 | 0x60 => (1, 6, AddressingMode::NoneAddressing),
        0x4C => (3, 3, AddressingMode::NoneAddressing),
        0x6C => (3, 5, AddressingMode::NoneAddressing),
        0x91 | 0x93 => (2, 6, AddressingMode::Indirect_Y),
        0x96 | 0x97 | 0xB6 | 0xB7 => (2, 4, AddressingMode::ZeroPage_Y),
        0x99 | 0x9B | 0x9E | 0x9F => (3, 5, AddressingMode::Absolute_Y),
        0x9C | 0x9D => (3, 5, AddressingMode::Absolute_X),
        _ => (1, 2, AddressingMode::NoneAddressing),
    }
}

/// The mnemonic of `code`, as a tracer prints it; undocumented ones carry a
/// leading `*`.
fn mnemonic(code: u8) -> &'static str {
    match code {
        0x00 => "BRK",
        0x01 => "ORA",
        0x02 => "*KIL",
        0x03 => "*SLO",
        0x04 => "*NOP",
        0x05 => "ORA",
        0x06 => "ASL",
        0x07 => "*SLO",
        0x08 => "PHP",
        0x09 => "ORA",
        0x0A => "ASL",
        0x0B => "*ANC",
        0x0C => "*NOP",
        0x0D => "ORA",
        0x0E => "ASL",
        0x0F => "*SLO",
        0x10 => "BPL",
        0x11 => "ORA",
        0x12 => "*KIL",
        0x13 => "*SLO",
        0x14 => "*NOP",
        0x15 => "ORA",
        0x16 => "ASL",
        0x17 => "*SLO",
        0x18 => "CLC",
        0x19 => "ORA",
        0x1A => "*NOP",
        0x1B => "*SLO",
        0x1C => "*NOP",
        0x1D => "ORA",
        0x1E => "ASL",
        0x1F => "*SLO",
        0x20 => "JSR",
        0x21 => "AND",
        0x22 => "*KIL",
        0x23 => "*RLA",
        0x24 => "BIT",
        0x25 => "AND",
        0x26 => "ROL",
        0x27 => "*RLA",
        0x28 => "PLP",
        0x29 => "AND",
        0x2A => "ROL",
        0x2B => "*ANC",
        0x2C => "BIT",
        0x2D => "AND",
        0x2E => "ROL",
        0x2F => "*RLA",
        0x30 => "BMI",
        0x31 => "AND",
        0x32 => "*KIL",
        0x33 => "*RLA",
        0x34 => "*NOP",
        0x35 => "AND",
        0x36 => "ROL",
        0x37 => "*RLA",
        0x38 => "SEC",
        0x39 => "AND",
        0x3A => "*NOP",
        0x3B => "*RLA",
        0x3C => "*NOP",
        0x3D => "AND",
        0x3E => "ROL",
        0x3F => "*RLA",
        0x40 => "RTI",
        0x41 => "EOR",
        0x42 => "*KIL",
        0x43 => "*SRE",
        0x44 => "*NOP",
        0x45 => "EOR",
        0x46 => "LSR",
        0x47 => "*SRE",
        0x48 => "PHA",
        0x49 => "EOR",
        0x4A => "LSR",
        0x4B => "*ALR",
        0x4C => "JMP",
        0x4D => "EOR",
        0x4E => "LSR",
        0x4F => "*SRE",
        0x50 => "BVC",
        0x51 => "EOR",
        0x52 => "*KIL",
        0x53 => "*SRE",
        0x54 => "*NOP",
        0x55 => "EOR",
        0x56 => "LSR",
        0x57 => "*SRE",
        0x58 => "CLI",
        0x59 => "EOR",
        0x5A => "*NOP",
        0x5B => "*SRE",
        0x5C => "*NOP",
        0x5D => "EOR",
        0x5E => "LSR",
        0x5F => "*SRE",
        0x60 => "RTS",
        0x61 => "ADC",
        0x62 => "*KIL",
        0x63 => "*RRA",
        0x64 => "*NOP",
        0x65 => "ADC",
        0x66 => "ROR",
        0x67 => "*RRA",
        0x68 => "PLA",
        0x69 => "ADC",
        0x6A => "ROR",
        0x6B => "*ARR",
        0x6C => "JMP",
        0x6D => "ADC",
        0x6E => "ROR",
        0x6F => "*RRA",
        0x70 => "BVS",
        0x71 => "ADC",
        0x72 => "*KIL",
        0x73 => "*RRA",
        0x74 => "*NOP",
        0x75 => "ADC",
        0x76 => "ROR",
        0x77 => "*RRA",
        0x78 => "SEI",
        0x79 => "ADC",
        0x7A => "*NOP",
        0x7B => "*RRA",
        0x7C => "*NOP",
        0x7D => "ADC",
        0x7E => "ROR",
        0x7F => "*RRA",
        0x80 => "*NOP",
        0x81 => "STA",
        0x82 => "*NOP",
        0x83 => "*SAX",
        0x84 => "STY",
        0x85 => "STA",
        0x86 => "STX",
        0x87 => "*SAX",
        0x88 => "DEY",
        0x89 => "*NOP",
        0x8A => "TXA",
        0x8B => "*XAA",
        0x8C => "STY",
        0x8D => "STA",
        0x8E => "STX",
        0x8F => "*SAX",
        0x90 => "BCC",
        0x91 => "STA",
        0x92 => "*KIL",
        0x93 => "*AHX",
        0x94 => "STY",
        0x95 => "STA",
        0x96 => "STX",
        0x97 => "*SAX",
        0x98 => "TYA",
        0x99 => "STA",
        0x9A => "TXS",
        0x9B => "*TAS",
        0x9C => "*SHY",
        0x9D => "STA",
        0x9E => "*SHX",
        0x9F => "*AHX",
        0xA0 => "LDY",
        0xA1 => "LDA",
        0xA2 => "LDX",
        0xA3 => "*LAX",
        0xA4 => "LDY",
        0xA5 => "LDA",
        0xA6 => "LDX",
        0xA7 => "*LAX",
        0xA8 => "TAY",
        0xA9 => "LDA",
        0xAA => "TAX",
        0xAB => "*LXA",
        0xAC => "LDY",
        0xAD => "LDA",
        0xAE => "LDX",
        0xAF => "*LAX",
        0xB0 => "BCS",
        0xB1 => "LDA",
        0xB2 => "*KIL",
        0xB3 => "*LAX",
        0xB4 => "LDY",
        0xB5 => "LDA",
        0xB6 => "LDX",
        0xB7 => "*LAX",
        0xB8 => "CLV",
        0xB9 => "LDA",
        0xBA => "TSX",
        0xBB => "*LAS",
        0xBC => "LDY",
        0xBD => "LDA",
        0xBE => "LDX",
        0xBF => "*LAX",
        0xC0 => "CPY",
        0xC1 => "CMP",
        0xC2 => "*NOP",
        0xC3 => "*DCP",
        0xC4 => "CPY",
        0xC5 => "CMP",
        0xC6 => "DEC",
        0xC7 => "*DCP",
        0xC8 => "INY",
        0xC9 => "CMP",
        0xCA => "DEX",
        0xCB => "*AXS",
        0xCC => "CPY",
        0xCD => "CMP",
        0xCE => "DEC",
        0xCF => "*DCP",
        0xD0 => "BNE",
        0xD1 => "CMP",
        0xD2 => "*KIL",
        0xD3 => "*DCP",
        0xD4 => "*NOP",
        0xD5 => "CMP",
        0xD6 => "DEC",
        0xD7 => "*DCP",
        0xD8 => "CLD",
        0xD9 => "CMP",
        0xDA => "*NOP",
        0xDB => "*DCP",
        0xDC => "*NOP",
        0xDD => "CMP",
        0xDE => "DEC",
        0xDF => "*DCP",
        0xE0 => "CPX",
        0xE1 => "SBC",
        0xE2 => "*NOP",
        0xE3 => "*ISB",
        0xE4 => "CPX",
        0xE5 => "SBC",
        0xE6 => "INC",
        0xE7 => "*ISB",
        0xE8 => "INX",
        0xE9 => "SBC",
        0xEA => "NOP",
        0xEB => "*SBC",
        0xEC => "CPX",
        0xED => "SBC",
        0xEE => "INC",
        0xEF => "*ISB",
        0xF0 => "BEQ",
        0xF1 => "SBC",
        0xF2 => "*KIL",
        0xF3 => "*ISB",
        0xF4 => "*NOP",
        0xF5 => "SBC",
        0xF6 => "INC",
        0xF7 => "*ISB",
        0xF8 => "SED",
        0xF9 => "SBC",
        0xFA => "*NOP",
        0xFB => "*ISB",
        0xFC => "*NOP",
        0xFD => "SBC",
        0xFE => "INC",
        _ => "*ISB",
    }
}

} // verus!
