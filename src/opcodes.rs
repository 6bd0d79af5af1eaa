use vstd::prelude::*;

verus! {

/// The official 6502 instructions.
#[allow(clippy::upper_case_acronyms)]
#[derive(Clone, Copy, Debug, PartialEq, Eq, Structural)]
pub enum Instruction {
    /// Add M to A with C: A += M + C
    ADC,
    /// Subtract M from A with borrow: A -= M + not C
    SBC,
    /// "AND" M with A: A &= M
    AND,
    /// "OR" M with A: A |= M
    ORA,
    /// "XOR" M with A: A ^= M
    EOR,
    /// Arithmetic shift left one bit: C = bit 7 of A
    ASL,
    /// Logical shift right one bit: C = bit 0 of A
    LSR,
    /// Rotate left one bit: C = bit 7 of A
    ROL,
    /// Rotate right one bit: C = bit 0 of A
    ROR,
    /// Branch on C clear
    BCC,
    /// Branch on C set
    BCS,
    /// Branch on Z set (result equal)
    BEQ,
    /// Branch on Z clear (result not equal)
    BNE,
    /// Branch on V clear
    BVC,
    /// Branch on V set
    BVS,
    /// Branch on N clear (result plus)
    BPL,
    /// Branch on N set ( result minus)
    BMI,
    /// Test Bits in M with A: N = bit 7 of M, V = bit 6 of M
    BIT,
    /// Jump to new location: PC = ADDR
    JMP,
    /// Jump to new location saving return address: PC = ADDR
    JSR,
    /// Return from Subroutine
    RTS,
    /// Force Break
    BRK,
    /// Return from Interrupt
    RTI,
    /// Compare M and A
    CMP,
    /// Compare M and X
    CPX,
    /// Compare M and Y
    CPY,
    /// Increment M by one
    INC,
    /// Decrement M by one
    DEC,
    /// Increment X by one
    INX,
    /// Decrement X by one
    DEX,
    /// Increment Y by one
    INY,
    /// Decrement Y by one
    DEY,
    /// Clear C flag
    CLC,
    /// Set C flag
    SEC,
    /// Clear Interrupt disable
    CLI,
    /// Set Interrupt disable
    SEI,
    /// Clear Decimal mode
    CLD,
    /// Set Decimal mode
    SED,
    /// Clear V flag
    CLV,
    /// Load A from M
    LDA,
    /// Load X from M
    LDX,
    /// Load Y from M
    LDY,
    /// Store A to M
    STA,
    /// Store X to M
    STX,
    /// Store Y to M
    STY,
    /// Transfer A to X
    TAX,
    /// Transfer X to A
    TXA,
    /// Transfer A to Y
    TAY,
    /// Transfer Y to A
    TYA,
    /// Transfer S to X
    TSX,
    /// Transfer X to S
    TXS,
    /// Push A on stack
    PHA,
    /// Pull A from stack
    PLA,
    /// Push P on stack
    PHP,
    /// Pull P from stack
    PLP,
    /// No operation
    NOP,
}

/// How an instruction finds its operand.
#[derive(Clone, Copy, Debug, PartialEq, Eq, Structural)]
pub enum Addressing {
    Accumlator,
    Immediate,
    Absolute,
    AbsoluteX,
    AbsoluteY,
    ZeroPage,
    ZeroPageX,
    ZeroPageY,
    Implied,
    Relative,
    IndirectX,
    IndirectY,
    Indirect,
}

/// Instruction, addressing mode and base cycle count of each opcode. Opcodes
/// outside the official set are one-byte, two-cycle NOPs.
pub open spec fn decode(opcode: u8) -> (Instruction, Addressing, u8) {
    match opcode {
        0x00 => (Instruction::BRK, Addressing::Implied, 7),
        0x01 => (Instruction::ORA, Addressing::IndirectX, 6),
        0x05 => (Instruction::ORA, Addressing::ZeroPage, 3),
        0x06 => (Instruction::ASL, Addressing::ZeroPage, 5),
        0x08 => (Instruction::PHP, Addressing::Implied, 3),
        0x09 => (Instruction::ORA, Addressing::Immediate, 2),
        0x0A => (Instruction::ASL, Addressing::Accumlator, 2),
        0x0D => (Instruction::ORA, Addressing::Absolute, 4),
        0x0E => (Instruction::ASL, Addressing::Absolute, 6),
        0x10 => (Instruction::BPL, Addressing::Relative, 2),
        0x11 => (Instruction::ORA, Addressing::IndirectY, 5),
        0x15 => (Instruction::ORA, Addressing::ZeroPageX, 4),
        0x16 => (Instruction::ASL, Addressing::ZeroPageX, 6),
        0x18 => (Instruction::CLC, Addressing::Implied, 2),
        0x19 => (Instruction::ORA, Addressing::AbsoluteY, 4),
        0x1D => (Instruction::ORA, Addressing::AbsoluteX, 4),
        0x1E => (Instruction::ASL, Addressing::AbsoluteX, 7),
        0x20 => (Instruction::JSR, Addressing::Absolute, 6),
        0x21 => (Instruction::AND, Addressing::IndirectX, 6),
        0x24 => (Instruction::BIT, Addressing::ZeroPage, 3),
        0x25 => (Instruction::AND, Addressing::ZeroPage, 3),
        0x26 => (Instruction::ROL, Addressing::ZeroPage, 5),
        0x28 => (Instruction::PLP, Addressing::Implied, 4),
        0x29 => (Instruction::AND, Addressing::Immediate, 2),
        0x2A => (Instruction::ROL, Addressing::Accumlator, 2),
        0x2C => (Instruction::BIT, Addressing::Absolute, 4),
        0x2D => (Instruction::AND, Addressing::Absolute, 4),
        0x2E => (Instruction::ROL, Addressing::Absolute, 6),
        0x30 => (Instruction::BMI, Addressing::Relative, 2),
        0x31 => (Instruction::AND, Addressing::IndirectY, 5),
        0x35 => (Instruction::AND, Addressing::ZeroPageX, 4),
        0x36 => (Instruction::ROL, Addressing::ZeroPageX, 6),
        0x38 => (Instruction::SEC, Addressing::Implied, 2),
        0x39 => (Instruction::AND, Addressing::AbsoluteY, 4),
        0x3D => (Instruction::AND, Addressing::AbsoluteX, 4),
        0x3E => (Instruction::ROL, Addressing::AbsoluteX, 7),
        0x40 => (Instruction::RTI, Addressing::Implied, 6),
        0x41 => (Instruction::EOR, Addressing::IndirectX, 6),
        0x45 => (Instruction::EOR, Addressing::ZeroPage, 3),
        0x46 => (Instruction::LSR, Addressing::ZeroPage, 5),
        0x48 => (Instruction::PHA, Addressing::Implied, 3),
        0x49 => (Instruction::EOR, Addressing::Immediate, 2),
        0x4A => (Instruction::LSR, Addressing::Accumlator, 2),
        0x4C => (Instruction::JMP, Addressing::Absolute, 3),
        0x4D => (Instruction::EOR, Addressing::Absolute, 4),
        0x4E => (Instruction::LSR, Addressing::Absolute, 6),
        0x50 => (Instruction::BVC, Addressing::Relative, 2),
        0x51 => (Instruction::EOR, Addressing::IndirectY, 5),
        0x55 => (Instruction::EOR, Addressing::ZeroPageX, 4),
        0x56 => (Instruction::LSR, Addressing::ZeroPageX, 6),
        0x58 => (Instruction::CLI, Addressing::Implied, 2),
        0x59 => (Instruction::EOR, Addressing::AbsoluteY, 4),
        0x5D => (Instruction::EOR, Addressing::AbsoluteX, 4),
        0x5E => (Instruction::LSR, Addressing::AbsoluteX, 7),
        0x60 => (Instruction::RTS, Addressing::Implied, 6),
        0x61 => (Instruction::ADC, Addressing::IndirectX, 6),
        0x65 => (Instruction::ADC, Addressing::ZeroPage, 3),
        0x66 => (Instruction::ROR, Addressing::ZeroPage, 5),
        0x68 => (Instruction::PLA, Addressing::Implied, 4),
        0x69 => (Instruction::ADC, Addressing::Immediate, 2),
        0x6A => (Instruction::ROR, Addressing::Accumlator, 2),
        0x6C => (Instruction::JMP, Addressing::Indirect, 5),
        0x6D => (Instruction::ADC, Addressing::Absolute, 4),
        0x6E => (Instruction::ROR, Addressing::Absolute, 6),
        0x70 => (Instruction::BVS, Addressing::Relative, 2),
        0x71 => (Instruction::ADC, Addressing::IndirectY, 5),
        0x75 => (Instruction::ADC, Addressing::ZeroPageX, 4),
        0x76 => (Instruction::ROR, Addressing::ZeroPageX, 6),
        0x78 => (Instruction::SEI, Addressing::Implied, 2),
        0x79 => (Instruction::ADC, Addressing::AbsoluteY, 4),
        0x7D => (Instruction::ADC, Addressing::AbsoluteX, 4),
        0x7E => (Instruction::ROR, Addressing::AbsoluteX, 7),
        0x81 => (Instruction::STA, Addressing::IndirectX, 6),
        0x84 => (Instruction::STY, Addressing::ZeroPage, 3),
        0x85 => (Instruction::STA, Addressing::ZeroPage, 3),
        0x86 => (Instruction::STX, Addressing::ZeroPage, 3),
        0x88 => (Instruction::DEY, Addressing::Implied, 2),
        0x8A => (Instruction::TXA, Addressing::Implied, 2),
        0x8C => (Instruction::STY, Addressing::Absolute, 4),
        0x8D => (Instruction::STA, Addressing::Absolute, 4),
        0x8E => (Instruction::STX, Addressing::Absolute, 4),
        0x90 => (Instruction::BCC, Addressing::Relative, 2),
        0x91 => (Instruction::STA, Addressing::IndirectY, 6),
        0x94 => (Instruction::STY, Addressing::ZeroPageX, 4),
        0x95 => (Instruction::STA, Addressing::ZeroPageX, 4),
        0x96 => (Instruction::STX, Addressing::ZeroPageY, 4),
        0x98 => (Instruction::TYA, Addressing::Implied, 2),
        0x99 => (Instruction::STA, Addressing::AbsoluteY, 5),
        0x9A => (Instruction::TXS, Addressing::Implied, 2),
        0x9D => (Instruction::STA, Addressing::AbsoluteX, 5),
        0xA0 => (Instruction::LDY, Addressing::Immediate, 2),
        0xA1 => (Instruction::LDA, Addressing::IndirectX, 6),
        0xA2 => (Instruction::LDX, Addressing::Immediate, 2),
        0xA4 => (Instruction::LDY, Addressing::ZeroPage, 3),
        0xA5 => (Instruction::LDA, Addressing::ZeroPage, 3),
        0xA6 => (Instruction::LDX, Addressing::ZeroPage, 3),
        0xA8 => (Instruction::TAY, Addressing::Implied, 2),
        0xA9 => (Instruction::LDA, Addressing::Immediate, 2),
        0xAA => (Instruction::TAX, Addressing::Implied, 2),
        0xAC => (Instruction::LDY, Addressing::Absolute, 4),
        0xAD => (Instruction::LDA, Addressing::Absolute, 4),
        0xAE => (Instruction::LDX, Addressing::Absolute, 4),
        0xB0 => (Instruction::BCS, Addressing::Relative, 2),
        0xB1 => (Instruction::LDA, Addressing::IndirectY, 5),
        0xB4 => (Instruction::LDY, Addressing::ZeroPageX, 4),
        0xB5 => (Instruction::LDA, Addressing::ZeroPageX, 4),
        0xB6 => (Instruction::LDX, Addressing::ZeroPageY, 4),
        0xB8 => (Instruction::CLV, Addressing::Implied, 2),
        0xB9 => (Instruction::LDA, Addressing::AbsoluteY, 4),
        0xBA => (Instruction::TSX, Addressing::Implied, 2),
        0xBC => (Instruction::LDY, Addressing::AbsoluteX, 4),
        0xBD => (Instruction::LDA, Addressing::AbsoluteX, 4),
        0xBE => (Instruction::LDX, Addressing::AbsoluteY, 4),
        0xC0 => (Instruction::CPY, Addressing::Immediate, 2),
        0xC1 => (Instruction::CMP, Addressing::IndirectX, 6),
        0xC4 => (Instruction::CPY, Addressing::ZeroPage, 3),
        0xC5 => (Instruction::CMP, Addressing::ZeroPage, 3),
        0xC6 => (Instruction::DEC, Addressing::ZeroPage, 5),
        0xC8 => (Instruction::INY, Addressing::Implied, 2),
        0xC9 => (Instruction::CMP, Addressing::Immediate, 2),
        0xCA => (Instruction::DEX, Addressing::Implied, 2),
        0xCC => (Instruction::CPY, Addressing::Absolute, 4),
        0xCD => (Instruction::CMP, Addressing::Absolute, 4),
        0xCE => (Instruction::DEC, Addressing::Absolute, 6),
        0xD0 => (Instruction::BNE, Addressing::Relative, 2),
        0xD1 => (Instruction::CMP, Addressing::IndirectY, 5),
        0xD5 => (Instruction::CMP, Addressing::ZeroPageX, 4),
        0xD6 => (Instruction::DEC, Addressing::ZeroPageX, 6),
        0xD8 => (Instruction::CLD, Addressing::Implied, 2),
        0xD9 => (Instruction::CMP, Addressing::AbsoluteY, 4),
        0xDD => (Instruction::CMP, Addressing::AbsoluteX, 4),
        0xDE => (Instruction::DEC, Addressing::AbsoluteX, 7),
        0xE0 => (Instruction::CPX, Addressing::Immediate, 2),
        0xE1 => (Instruction::SBC, Addressing::IndirectX, 6),
        0xE4 => (Instruction::CPX, Addressing::ZeroPage, 3),
        0xE5 => (Instruction::SBC, Addressing::ZeroPage, 3),
        0xE6 => (Instruction::INC, Addressing::ZeroPage, 5),
        0xE8 => (Instruction::INX, Addressing::Implied, 2),
        0xE9 => (Instruction::SBC, Addressing::Immediate, 2),
        0xEA => (Instruction::NOP, Addressing::Implied, 2),
        0xEC => (Instruction::CPX, Addressing::Absolute, 4),
        0xED => (Instruction::SBC, Addressing::Absolute, 4),
        0xEE => (Instruction::INC, Addressing::Absolute, 6),
        0xF0 => (Instruction::BEQ, Addressing::Relative, 2),
        0xF1 => (Instruction::SBC, Addressing::IndirectY, 5),
        0xF5 => (Instruction::SBC, Addressing::ZeroPageX, 4),
        0xF6 => (Instruction::INC, Addressing::ZeroPageX, 6),
        0xF8 => (Instruction::SED, Addressing::Implied, 2),
        0xF9 => (Instruction::SBC, Addressing::AbsoluteY, 4),
        0xFD => (Instruction::SBC, Addressing::AbsoluteX, 4),
        0xFE => (Instruction::INC, Addressing::AbsoluteX, 7),
        _ => (Instruction::NOP, Addressing::Implied, 2),
    }
}

pub fn get_instruction_info(opcode: u8) -> (r: (Instruction, Addressing, u8))
    ensures
        r == decode(opcode),
{
    match opcode {
        0x00 => (Instruction::BRK, Addressing::Implied, 7),
        0x01 => (Instruction::ORA, Addressing::IndirectX, 6),
        0x05 => (Instruction::ORA, Addressing::ZeroPage, 3),
        0x06 => (Instruction::ASL, Addressing::ZeroPage, 5),
        0x08 => (Instruction::PHP, Addressing::Implied, 3),
        0x09 => (Instruction::ORA, Addressing::Immediate, 2),
        0x0A => (Instruction::ASL, Addressing::Accumlator, 2),
        0x0D => (Instruction::ORA, Addressing::Absolute, 4),
        0x0E => (Instruction::ASL, Addressing::Absolute, 6),
        0x10 => (Instruction::BPL, Addressing::Relative, 2),
        0x11 => (Instruction::ORA, Addressing::IndirectY, 5),
        0x15 => (Instruction::ORA, Addressing::ZeroPageX, 4),
        0x16 => (Instruction::ASL, Addressing::ZeroPageX, 6),
        0x18 => (Instruction::CLC, Addressing::Implied, 2),
        0x19 => (Instruction::ORA, Addressing::AbsoluteY, 4),
        0x1D => (Instruction::ORA, Addressing::AbsoluteX, 4),
        0x1E => (Instruction::ASL, Addressing::AbsoluteX, 7),
        0x20 => (Instruction::JSR, Addressing::Absolute, 6),
        0x21 => (Instruction::AND, Addressing::IndirectX, 6),
        0x24 => (Instruction::BIT, Addressing::ZeroPage, 3),
        0x25 => (Instruction::AND, Addressing::ZeroPage, 3),
        0x26 => (Instruction::ROL, Addressing::ZeroPage, 5),
        0x28 => (Instruction::PLP, Addressing::Implied, 4),
        0x29 => (Instruction::AND, Addressing::Immediate, 2),
        0x2A => (Instruction::ROL, Addressing::Accumlator, 2),
        0x2C => (Instruction::BIT, Addressing::Absolute, 4),
        0x2D => (Instruction::AND, Addressing::Absolute, 4),
        0x2E => (Instruction::ROL, Addressing::Absolute, 6),
        0x30 => (Instruction::BMI, Addressing::Relative, 2),
        0x31 => (Instruction::AND, Addressing::IndirectY, 5),
        0x35 => (Instruction::AND, Addressing::ZeroPageX, 4),
        0x36 => (Instruction::ROL, Addressing::ZeroPageX, 6),
        0x38 => (Instruction::SEC, Addressing::Implied, 2),
        0x39 => (Instruction::AND, Addressing::AbsoluteY, 4),
        0x3D => (Instruction::AND, Addressing::AbsoluteX, 4),
        0x3E => (Instruction::ROL, Addressing::AbsoluteX, 7),
        0x40 => (Instruction::RTI, Addressing::Implied, 6),
        0x41 => (Instruction::EOR, Addressing::IndirectX, 6),
        0x45 => (Instruction::EOR, Addressing::ZeroPage, 3),
        0x46 => (Instruction::LSR, Addressing::ZeroPage, 5),
        0x48 => (Instruction::PHA, Addressing::Implied, 3),
        0x49 => (Instruction::EOR, Addressing::Immediate, 2),
        0x4A => (Instruction::LSR, Addressing::Accumlator, 2),
        0x4C => (Instruction::JMP, Addressing::Absolute, 3),
        0x4D => (Instruction::EOR, Addressing::Absolute, 4),
        0x4E => (Instruction::LSR, Addressing::Absolute, 6),
        0x50 => (Instruction::BVC, Addressing::Relative, 2),
        0x51 => (Instruction::EOR, Addressing::IndirectY, 5),
        0x55 => (Instruction::EOR, Addressing::ZeroPageX, 4),
        0x56 => (Instruction::LSR, Addressing::ZeroPageX, 6),
        0x58 => (Instruction::CLI, Addressing::Implied, 2),
        0x59 => (Instruction::EOR, Addressing::AbsoluteY, 4),
        0x5D => (Instruction::EOR, Addressing::AbsoluteX, 4),
        0x5E => (Instruction::LSR, Addressing::AbsoluteX, 7),
        0x60 => (Instruction::RTS, Addressing::Implied, 6),
        0x61 => (Instruction::ADC, Addressing::IndirectX, 6),
        0x65 => (Instruction::ADC, Addressing::ZeroPage, 3),
        0x66 => (Instruction::ROR, Addressing::ZeroPage, 5),
        0x68 => (Instruction::PLA, Addressing::Implied, 4),
        0x69 => (Instruction::ADC, Addressing::Immediate, 2),
        0x6A => (Instruction::ROR, Addressing::Accumlator, 2),
        0x6C => (Instruction::JMP, Addressing::Indirect, 5),
        0x6D => (Instruction::ADC, Addressing::Absolute, 4),
        0x6E => (Instruction::ROR, Addressing::Absolute, 6),
        0x70 => (Instruction::BVS, Addressing::Relative, 2),
        0x71 => (Instruction::ADC, Addressing::IndirectY, 5),
        0x75 => (Instruction::ADC, Addressing::ZeroPageX, 4),
        0x76 => (Instruction::ROR, Addressing::ZeroPageX, 6),
        0x78 => (Instruction::SEI, Addressing::Implied, 2),
        0x79 => (Instruction::ADC, Addressing::AbsoluteY, 4),
        0x7D => (Instruction::ADC, Addressing::AbsoluteX, 4),
        0x7E => (Instruction::ROR, Addressing::AbsoluteX, 7),
        0x81 => (Instruction::STA, Addressing::IndirectX, 6),
        0x84 => (Instruction::STY, Addressing::ZeroPage, 3),
        0x85 => (Instruction::STA, Addressing::ZeroPage, 3),
        0x86 => (Instruction::STX, Addressing::ZeroPage, 3),
        0x88 => (Instruction::DEY, Addressing::Implied, 2),
        0x8A => (Instruction::TXA, Addressing::Implied, 2),
        0x8C => (Instruction::STY, Addressing::Absolute, 4),
        0x8D => (Instruction::STA, Addressing::Absolute, 4),
        0x8E => (Instruction::STX, Addressing::Absolute, 4),
        0x90 => (Instruction::BCC, Addressing::Relative, 2),
        0x91 => (Instruction::STA, Addressing::IndirectY, 6),
        0x94 => (Instruction::STY, Addressing::ZeroPageX, 4),
        0x95 => (Instruction::STA, Addressing::ZeroPageX, 4),
        0x96 => (Instruction::STX, Addressing::ZeroPageY, 4),
        0x98 => (Instruction::TYA, Addressing::Implied, 2),
        0x99 => (Instruction::STA, Addressing::AbsoluteY, 5),
        0x9A => (Instruction::TXS, Addressing::Implied, 2),
        0x9D => (Instruction::STA, Addressing::AbsoluteX, 5),
        0xA0 => (Instruction::LDY, Addressing::Immediate, 2),
        0xA1 => (Instruction::LDA, Addressing::IndirectX, 6),
        0xA2 => (Instruction::LDX, Addressing::Immediate, 2),
        0xA4 => (Instruction::LDY, Addressing::ZeroPage, 3),
        0xA5 => (Instruction::LDA, Addressing::ZeroPage, 3),
        0xA6 => (Instruction::LDX, Addressing::ZeroPage, 3),
        0xA8 => (Instruction::TAY, Addressing::Implied, 2),
        0xA9 => (Instruction::LDA, Addressing::Immediate, 2),
        0xAA => (Instruction::TAX, Addressing::Implied, 2),
        0xAC => (Instruction::LDY, Addressing::Absolute, 4),
        0xAD => (Instruction::LDA, Addressing::Absolute, 4),
        0xAE => (Instruction::LDX, Addressing::Absolute, 4),
        0xB0 => (Instruction::BCS, Addressing::Relative, 2),
        0xB1 => (Instruction::LDA, Addressing::IndirectY, 5),
        0xB4 => (Instruction::LDY, Addressing::ZeroPageX, 4),
        0xB5 => (Instruction::LDA, Addressing::ZeroPageX, 4),
        0xB6 => (Instruction::LDX, Addressing::ZeroPageY, 4),
        0xB8 => (Instruction::CLV, Addressing::Implied, 2),
        0xB9 => (Instruction::LDA, Addressing::AbsoluteY, 4),
        0xBA => (Instruction::TSX, Addressing::Implied, 2),
        0xBC => (Instruction::LDY, Addressing::AbsoluteX, 4),
        0xBD => (Instruction::LDA, Addressing::AbsoluteX, 4),
        0xBE => (Instruction::LDX, Addressing::AbsoluteY, 4),
        0xC0 => (Instruction::CPY, Addressing::Immediate, 2),
        0xC1 => (Instruction::CMP, Addressing::IndirectX, 6),
        0xC4 => (Instruction::CPY, Addressing::ZeroPage, 3),
        0xC5 => (Instruction::CMP, Addressing::ZeroPage, 3),
        0xC6 => (Instruction::DEC, Addressing::ZeroPage, 5),
        0xC8 => (Instruction::INY, Addressing::Implied, 2),
        0xC9 => (Instruction::CMP, Addressing::Immediate, 2),
        0xCA => (Instruction::DEX, Addressing::Implied, 2),
        0xCC => (Instruction::CPY, Addressing::Absolute, 4),
        0xCD => (Instruction::CMP, Addressing::Absolute, 4),
        0xCE => (Instruction::DEC, Addressing::Absolute, 6),
        0xD0 => (Instruction::BNE, Addressing::Relative, 2),
        0xD1 => (Instruction::CMP, Addressing::IndirectY, 5),
        0xD5 => (Instruction::CMP, Addressing::ZeroPageX, 4),
        0xD6 => (Instruction::DEC, Addressing::ZeroPageX, 6),
        0xD8 => (Instruction::CLD, Addressing::Implied, 2),
        0xD9 => (Instruction::CMP, Addressing::AbsoluteY, 4),
        0xDD => (Instruction::CMP, Addressing::AbsoluteX, 4),
        0xDE => (Instruction::DEC, Addressing::AbsoluteX, 7),
        0xE0 => (Instruction::CPX, Addressing::Immediate, 2),
        0xE1 => (Instruction::SBC, Addressing::IndirectX, 6),
        0xE4 => (Instruction::CPX, Addressing::ZeroPage, 3),
        0xE5 => (Instruction::SBC, Addressing::ZeroPage, 3),
        0xE6 => (Instruction::INC, Addressing::ZeroPage, 5),
        0xE8 => (Instruction::INX, Addressing::Implied, 2),
        0xE9 => (Instruction::SBC, Addressing::Immediate, 2),
        0xEA => (Instruction::NOP, Addressing::Implied, 2),
        0xEC => (Instruction::CPX, Addressing::Absolute, 4),
        0xED => (Instruction::SBC, Addressing::Absolute, 4),
        0xEE => (Instruction::INC, Addressing::Absolute, 6),
        0xF0 => (Instruction::BEQ, Addressing::Relative, 2),
        0xF1 => (Instruction::SBC, Addressing::IndirectY, 5),
        0xF5 => (Instruction::SBC, Addressing::ZeroPageX, 4),
        0xF6 => (Instruction::INC, Addressing::ZeroPageX, 6),
        0xF8 => (Instruction::SED, Addressing::Implied, 2),
        0xF9 => (Instruction::SBC, Addressing::AbsoluteY, 4),
        0xFD => (Instruction::SBC, Addressing::AbsoluteX, 4),
        0xFE => (Instruction::INC, Addressing::AbsoluteX, 7),
        _ => (Instruction::NOP, Addressing::Implied, 2),
    }
}

} // verus!
