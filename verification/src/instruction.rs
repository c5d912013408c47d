//! The instruction table: the mapping from each one-byte opcode to its
//! immutable descriptor. A byte with no entry is an unrecognized opcode and
//! a fatal decode error for the execution engine.

use vstd::prelude::*;

use crate::cpu_types::{AddressingMode, Operation};

verus! {

/// An immutable instruction descriptor: the opcode byte, the operation it
/// performs, how its operand address is computed, its encoded length in
/// bytes, and its base cycle cost (metadata only: execution is not paced).
#[derive(Clone, Copy, Debug)]
pub struct Instruction {
    pub code: u8,
    pub operation: Operation,
    pub mode: AddressingMode,
    pub length: u8,
    pub cycles: u8,
}

impl Instruction {
    /// A descriptor with exactly the given fields.
    pub fn new(code: u8, operation: Operation, mode: AddressingMode, length: u8, cycles: u8) -> (r:
        Self)
        ensures
            r.code == code,
            r.operation == operation,
            r.mode == mode,
            r.length == length,
            r.cycles == cycles,
    {
        Instruction { code, operation, mode, length, cycles }
    }
}

/// The descriptor an opcode byte decodes to, or `None` for a byte the
/// instruction set leaves unassigned.
pub open spec fn instruction_for(code: u8) -> Option<Instruction> {
    match code {
        0x00 => Some(Instruction { code: 0x00, operation: Operation::BRK, mode: AddressingMode::Implied, length: 1, cycles: 7 }),
        0x01 => Some(Instruction { code: 0x01, operation: Operation::ORA, mode: AddressingMode::IndirectX, length: 2, cycles: 6 }),
        0x05 => Some(Instruction { code: 0x05, operation: Operation::ORA, mode: AddressingMode::ZeroPage, length: 2, cycles: 3 }),
        0x06 => Some(Instruction { code: 0x06, operation: Operation::ASL, mode: AddressingMode::ZeroPage, length: 2, cycles: 5 }),
        0x09 => Some(Instruction { code: 0x09, operation: Operation::ORA, mode: AddressingMode::Immediate, length: 2, cycles: 2 }),
        0x0a => Some(Instruction { code: 0x0a, operation: Operation::ASL, mode: AddressingMode::Accumulator, length: 1, cycles: 2 }),
        0x0d => Some(Instruction { code: 0x0d, operation: Operation::ORA, mode: AddressingMode::Absolute, length: 3, cycles: 4 }),
        0x0e => Some(Instruction { code: 0x0e, operation: Operation::ASL, mode: AddressingMode::Absolute, length: 3, cycles: 6 }),
        0x10 => Some(Instruction { code: 0x10, operation: Operation::BPL, mode: AddressingMode::Relative, length: 2, cycles: 2 }),
        0x11 => Some(Instruction { code: 0x11, operation: Operation::ORA, mode: AddressingMode::IndirectY, length: 2, cycles: 5 }),
        0x15 => Some(Instruction { code: 0x15, operation: Operation::ORA, mode: AddressingMode::ZeroPageX, length: 2, cycles: 4 }),
        0x16 => Some(Instruction { code: 0x16, operation: Operation::ASL, mode: AddressingMode::ZeroPageX, length: 2, cycles: 6 }),
        0x18 => Some(Instruction { code: 0x18, operation: Operation::CLC, mode: AddressingMode::Implied, length: 1, cycles: 2 }),
        0x19 => Some(Instruction { code: 0x19, operation: Operation::ORA, mode: AddressingMode::AbsoluteY, length: 3, cycles: 4 }),
        0x1d => Some(Instruction { code: 0x1d, operation: Operation::ORA, mode: AddressingMode::AbsoluteX, length: 3, cycles: 4 }),
        0x1e => Some(Instruction { code: 0x1e, operation: Operation::ASL, mode: AddressingMode::AbsoluteX, length: 3, cycles: 7 }),
        0x20 => Some(Instruction { code: 0x20, operation: Operation::JSR, mode: AddressingMode::Absolute, length: 3, cycles: 6 }),
        0x21 => Some(Instruction { code: 0x21, operation: Operation::AND, mode: AddressingMode::IndirectX, length: 2, cycles: 6 }),
        0x24 => Some(Instruction { code: 0x24, operation: Operation::BIT, mode: AddressingMode::ZeroPage, length: 2, cycles: 3 }),
        0x25 => Some(Instruction { code: 0x25, operation: Operation::AND, mode: AddressingMode::ZeroPage, length: 2, cycles: 3 }),
        0x29 => Some(Instruction { code: 0x29, operation: Operation::AND, mode: AddressingMode::Immediate, length: 2, cycles: 2 }),
        0x2c => Some(Instruction { code: 0x2c, operation: Operation::BIT, mode: AddressingMode::Absolute, length: 3, cycles: 4 }),
        0x2d => Some(Instruction { code: 0x2d, operation: Operation::AND, mode: AddressingMode::Absolute, length: 3, cycles: 4 }),
        0x30 => Some(Instruction { code: 0x30, operation: Operation::BMI, mode: AddressingMode::Relative, length: 2, cycles: 2 }),
        0x31 => Some(Instruction { code: 0x31, operation: Operation::AND, mode: AddressingMode::IndirectY, length: 2, cycles: 5 }),
        0x35 => Some(Instruction { code: 0x35, operation: Operation::AND, mode: AddressingMode::ZeroPageX, length: 2, cycles: 4 }),
        0x39 => Some(Instruction { code: 0x39, operation: Operation::AND, mode: AddressingMode::AbsoluteY, length: 3, cycles: 4 }),
        0x3d => Some(Instruction { code: 0x3d, operation: Operation::AND, mode: AddressingMode::AbsoluteX, length: 3, cycles: 4 }),
        0x41 => Some(Instruction { code: 0x41, operation: Operation::EOR, mode: AddressingMode::IndirectX, length: 2, cycles: 6 }),
        0x45 => Some(Instruction { code: 0x45, operation: Operation::EOR, mode: AddressingMode::ZeroPage, length: 2, cycles: 3 }),
        0x46 => Some(Instruction { code: 0x46, operation: Operation::LSR, mode: AddressingMode::ZeroPage, length: 2, cycles: 5 }),
        0x49 => Some(Instruction { code: 0x49, operation: Operation::EOR, mode: AddressingMode::Immediate, length: 2, cycles: 2 }),
        0x4a => Some(Instruction { code: 0x4a, operation: Operation::LSR, mode: AddressingMode::Accumulator, length: 1, cycles: 2 }),
        0x4c => Some(Instruction { code: 0x4c, operation: Operation::JMP, mode: AddressingMode::Absolute, length: 3, cycles: 3 }),
        0x4d => Some(Instruction { code: 0x4d, operation: Operation::EOR, mode: AddressingMode::Absolute, length: 3, cycles: 4 }),
        0x4e => Some(Instruction { code: 0x4e, operation: Operation::LSR, mode: AddressingMode::Absolute, length: 3, cycles: 6 }),
        0x50 => Some(Instruction { code: 0x50, operation: Operation::BVC, mode: AddressingMode::Relative, length: 2, cycles: 2 }),
        0x51 => Some(Instruction { code: 0x51, operation: Operation::EOR, mode: AddressingMode::IndirectY, length: 2, cycles: 5 }),
        0x55 => Some(Instruction { code: 0x55, operation: Operation::EOR, mode: AddressingMode::ZeroPageX, length: 2, cycles: 4 }),
        0x56 => Some(Instruction { code: 0x56, operation: Operation::LSR, mode: AddressingMode::ZeroPageX, length: 2, cycles: 6 }),
        0x58 => Some(Instruction { code: 0x58, operation: Operation::CLI, mode: AddressingMode::Implied, length: 1, cycles: 2 }),
        0x59 => Some(Instruction { code: 0x59, operation: Operation::EOR, mode: AddressingMode::AbsoluteY, length: 3, cycles: 4 }),
        0x5d => Some(Instruction { code: 0x5d, operation: Operation::EOR, mode: AddressingMode::AbsoluteX, length: 3, cycles: 4 }),
        0x5e => Some(Instruction { code: 0x5e, operation: Operation::LSR, mode: AddressingMode::AbsoluteX, length: 3, cycles: 7 }),
        0x61 => Some(Instruction { code: 0x61, operation: Operation::ADC, mode: AddressingMode::IndirectX, length: 2, cycles: 6 }),
        0x65 => Some(Instruction { code: 0x65, operation: Operation::ADC, mode: AddressingMode::ZeroPage, length: 2, cycles: 3 }),
        0x69 => Some(Instruction { code: 0x69, operation: Operation::ADC, mode: AddressingMode::Immediate, length: 2, cycles: 2 }),
        0x6c => Some(Instruction { code: 0x6c, operation: Operation::JMP, mode: AddressingMode::Indirect, length: 3, cycles: 5 }),
        0x6d => Some(Instruction { code: 0x6d, operation: Operation::ADC, mode: AddressingMode::Absolute, length: 3, cycles: 4 }),
        0x70 => Some(Instruction { code: 0x70, operation: Operation::BVS, mode: AddressingMode::Relative, length: 2, cycles: 2 }),
        0x71 => Some(Instruction { code: 0x71, operation: Operation::ADC, mode: AddressingMode::IndirectY, length: 2, cycles: 5 }),
        0x75 => Some(Instruction { code: 0x75, operation: Operation::ADC, mode: AddressingMode::ZeroPageX, length: 2, cycles: 4 }),
        0x79 => Some(Instruction { code: 0x79, operation: Operation::ADC, mode: AddressingMode::AbsoluteY, length: 3, cycles: 4 }),
        0x7d => Some(Instruction { code: 0x7d, operation: Operation::ADC, mode: AddressingMode::AbsoluteX, length: 3, cycles: 4 }),
        0x88 => Some(Instruction { code: 0x88, operation: Operation::DEY, mode: AddressingMode::Implied, length: 1, cycles: 2 }),
        0x90 => Some(Instruction { code: 0x90, operation: Operation::BCC, mode: AddressingMode::Relative, length: 2, cycles: 2 }),
        0xa0 => Some(Instruction { code: 0xa0, operation: Operation::LDY, mode: AddressingMode::Immediate, length: 2, cycles: 2 }),
        0xa1 => Some(Instruction { code: 0xa1, operation: Operation::LDA, mode: AddressingMode::IndirectX, length: 2, cycles: 6 }),
        0xa2 => Some(Instruction { code: 0xa2, operation: Operation::LDX, mode: AddressingMode::Immediate, length: 2, cycles: 2 }),
        0xa4 => Some(Instruction { code: 0xa4, operation: Operation::LDY, mode: AddressingMode::ZeroPage, length: 2, cycles: 3 }),
        0xa5 => Some(Instruction { code: 0xa5, operation: Operation::LDA, mode: AddressingMode::ZeroPage, length: 2, cycles: 3 }),
        0xa6 => Some(Instruction { code: 0xa6, operation: Operation::LDX, mode: AddressingMode::ZeroPage, length: 2, cycles: 3 }),
        0xa9 => Some(Instruction { code: 0xa9, operation: Operation::LDA, mode: AddressingMode::Immediate, length: 2, cycles: 2 }),
        0xaa => Some(Instruction { code: 0xaa, operation: Operation::TAX, mode: AddressingMode::Implied, length: 1, cycles: 2 }),
        0xac => Some(Instruction { code: 0xac, operation: Operation::LDY, mode: AddressingMode::Absolute, length: 3, cycles: 4 }),
        0xad => Some(Instruction { code: 0xad, operation: Operation::LDA, mode: AddressingMode::Absolute, length: 3, cycles: 4 }),
        0xae => Some(Instruction { code: 0xae, operation: Operation::LDX, mode: AddressingMode::Absolute, length: 3, cycles: 4 }),
        0xb0 => Some(Instruction { code: 0xb0, operation: Operation::BCS, mode: AddressingMode::Relative, length: 2, cycles: 2 }),
        0xb1 => Some(Instruction { code: 0xb1, operation: Operation::LDA, mode: AddressingMode::IndirectY, length: 2, cycles: 5 }),
        0xb4 => Some(Instruction { code: 0xb4, operation: Operation::LDY, mode: AddressingMode::ZeroPageX, length: 2, cycles: 4 }),
        0xb5 => Some(Instruction { code: 0xb5, operation: Operation::LDA, mode: AddressingMode::ZeroPageX, length: 2, cycles: 4 }),
        0xb6 => Some(Instruction { code: 0xb6, operation: Operation::LDX, mode: AddressingMode::ZeroPageY, length: 2, cycles: 4 }),
        0xb8 => Some(Instruction { code: 0xb8, operation: Operation::CLV, mode: AddressingMode::Implied, length: 1, cycles: 2 }),
        0xb9 => Some(Instruction { code: 0xb9, operation: Operation::LDA, mode: AddressingMode::AbsoluteY, length: 3, cycles: 4 }),
        0xbc => Some(Instruction { code: 0xbc, operation: Operation::LDY, mode: AddressingMode::AbsoluteX, length: 3, cycles: 4 }),
        0xbd => Some(Instruction { code: 0xbd, operation: Operation::LDA, mode: AddressingMode::AbsoluteX, length: 3, cycles: 4 }),
        0xbe => Some(Instruction { code: 0xbe, operation: Operation::LDX, mode: AddressingMode::AbsoluteY, length: 3, cycles: 4 }),
        0xc0 => Some(Instruction { code: 0xc0, operation: Operation::CPY, mode: AddressingMode::Immediate, length: 2, cycles: 2 }),
        0xc1 => Some(Instruction { code: 0xc1, operation: Operation::CMP, mode: AddressingMode::IndirectX, length: 2, cycles: 6 }),
        0xc4 => Some(Instruction { code: 0xc4, operation: Operation::CPY, mode: AddressingMode::ZeroPage, length: 2, cycles: 3 }),
        0xc5 => Some(Instruction { code: 0xc5, operation: Operation::CMP, mode: AddressingMode::ZeroPage, length: 2, cycles: 3 }),
        0xc6 => Some(Instruction { code: 0xc6, operation: Operation::DEC, mode: AddressingMode::ZeroPage, length: 2, cycles: 5 }),
        0xc8 => Some(Instruction { code: 0xc8, operation: Operation::INY, mode: AddressingMode::Implied, length: 1, cycles: 2 }),
        0xc9 => Some(Instruction { code: 0xc9, operation: Operation::CMP, mode: AddressingMode::Immediate, length: 2, cycles: 2 }),
        0xca => Some(Instruction { code: 0xca, operation: Operation::DEX, mode: AddressingMode::Implied, length: 1, cycles: 2 }),
        0xcc => Some(Instruction { code: 0xcc, operation: Operation::CPY, mode: AddressingMode::Absolute, length: 3, cycles: 4 }),
        0xcd => Some(Instruction { code: 0xcd, operation: Operation::CMP, mode: AddressingMode::Absolute, length: 3, cycles: 4 }),
        0xce => Some(Instruction { code: 0xce, operation: Operation::DEC, mode: AddressingMode::Absolute, length: 3, cycles: 6 }),
        0xd0 => Some(Instruction { code: 0xd0, operation: Operation::BNE, mode: AddressingMode::Relative, length: 2, cycles: 2 }),
        0xd1 => Some(Instruction { code: 0xd1, operation: Operation::CMP, mode: AddressingMode::IndirectY, length: 2, cycles: 5 }),
        0xd5 => Some(Instruction { code: 0xd5, operation: Operation::CMP, mode: AddressingMode::ZeroPageX, length: 2, cycles: 4 }),
        0xd6 => Some(Instruction { code: 0xd6, operation: Operation::DEC, mode: AddressingMode::ZeroPageX, length: 2, cycles: 6 }),
        0xd8 => Some(Instruction { code: 0xd8, operation: Operation::CLD, mode: AddressingMode::Implied, length: 1, cycles: 2 }),
        0xd9 => Some(Instruction { code: 0xd9, operation: Operation::CMP, mode: AddressingMode::AbsoluteY, length: 3, cycles: 4 }),
        0xdd => Some(Instruction { code: 0xdd, operation: Operation::CMP, mode: AddressingMode::AbsoluteX, length: 3, cycles: 4 }),
        0xde => Some(Instruction { code: 0xde, operation: Operation::DEC, mode: AddressingMode::AbsoluteX, length: 3, cycles: 7 }),
        0xe0 => Some(Instruction { code: 0xe0, operation: Operation::CPX, mode: AddressingMode::Immediate, length: 2, cycles: 2 }),
        0xe4 => Some(Instruction { code: 0xe4, operation: Operation::CPX, mode: AddressingMode::ZeroPage, length: 2, cycles: 3 }),
        0xe6 => Some(Instruction { code: 0xe6, operation: Operation::INC, mode: AddressingMode::ZeroPage, length: 2, cycles: 5 }),
        0xe8 => Some(Instruction { code: 0xe8, operation: Operation::INX, mode: AddressingMode::Implied, length: 1, cycles: 2 }),
        0xea => Some(Instruction { code: 0xea, operation: Operation::NOP, mode: AddressingMode::Implied, length: 1, cycles: 2 }),
        0xec => Some(Instruction { code: 0xec, operation: Operation::CPX, mode: AddressingMode::Absolute, length: 3, cycles: 4 }),
        0xee => Some(Instruction { code: 0xee, operation: Operation::INC, mode: AddressingMode::Absolute, length: 3, cycles: 6 }),
        0xf0 => Some(Instruction { code: 0xf0, operation: Operation::BEQ, mode: AddressingMode::Relative, length: 2, cycles: 2 }),
        0xf6 => Some(Instruction { code: 0xf6, operation: Operation::INC, mode: AddressingMode::ZeroPageX, length: 2, cycles: 6 }),
        0xfe => Some(Instruction { code: 0xfe, operation: Operation::INC, mode: AddressingMode::AbsoluteX, length: 3, cycles: 7 }),
        _ => None,
    }
}

/// Decodes one opcode byte against the instruction table.
pub fn lookup(code: u8) -> (r: Option<Instruction>)
    ensures
        r == instruction_for(code),
{
    match code {
        0x00 => Some(Instruction::new(0x00, Operation::BRK, AddressingMode::Implied, 1, 7)),
        0x01 => Some(Instruction::new(0x01, Operation::ORA, AddressingMode::IndirectX, 2, 6)),
        0x05 => Some(Instruction::new(0x05, Operation::ORA, AddressingMode::ZeroPage, 2, 3)),
        0x06 => Some(Instruction::new(0x06, Operation::ASL, AddressingMode::ZeroPage, 2, 5)),
        0x09 => Some(Instruction::new(0x09, Operation::ORA, AddressingMode::Immediate, 2, 2)),
        0x0a => Some(Instruction::new(0x0a, Operation::ASL, AddressingMode::Accumulator, 1, 2)),
        0x0d => Some(Instruction::new(0x0d, Operation::ORA, AddressingMode::Absolute, 3, 4)),
        0x0e => Some(Instruction::new(0x0e, Operation::ASL, AddressingMode::Absolute, 3, 6)),
        0x10 => Some(Instruction::new(0x10, Operation::BPL, AddressingMode::Relative, 2, 2)),
        0x11 => Some(Instruction::new(0x11, Operation::ORA, AddressingMode::IndirectY, 2, 5)),
        0x15 => Some(Instruction::new(0x15, Operation::ORA, AddressingMode::ZeroPageX, 2, 4)),
        0x16 => Some(Instruction::new(0x16, Operation::ASL, AddressingMode::ZeroPageX, 2, 6)),
        0x18 => Some(Instruction::new(0x18, Operation::CLC, AddressingMode::Implied, 1, 2)),
        0x19 => Some(Instruction::new(0x19, Operation::ORA, AddressingMode::AbsoluteY, 3, 4)),
        0x1d => Some(Instruction::new(0x1d, Operation::ORA, AddressingMode::AbsoluteX, 3, 4)),
        0x1e => Some(Instruction::new(0x1e, Operation::ASL, AddressingMode::AbsoluteX, 3, 7)),
        0x20 => Some(Instruction::new(0x20, Operation::JSR, AddressingMode::Absolute, 3, 6)),
        0x21 => Some(Instruction::new(0x21, Operation::AND, AddressingMode::IndirectX, 2, 6)),
        0x24 => Some(Instruction::new(0x24, Operation::BIT, AddressingMode::ZeroPage, 2, 3)),
        0x25 => Some(Instruction::new(0x25, Operation::AND, AddressingMode::ZeroPage, 2, 3)),
        0x29 => Some(Instruction::new(0x29, Operation::AND, AddressingMode::Immediate, 2, 2)),
        0x2c => Some(Instruction::new(0x2c, Operation::BIT, AddressingMode::Absolute, 3, 4)),
        0x2d => Some(Instruction::new(0x2d, Operation::AND, AddressingMode::Absolute, 3, 4)),
        0x30 => Some(Instruction::new(0x30, Operation::BMI, AddressingMode::Relative, 2, 2)),
        0x31 => Some(Instruction::new(0x31, Operation::AND, AddressingMode::IndirectY, 2, 5)),
        0x35 => Some(Instruction::new(0x35, Operation::AND, AddressingMode::ZeroPageX, 2, 4)),
        0x39 => Some(Instruction::new(0x39, Operation::AND, AddressingMode::AbsoluteY, 3, 4)),
        0x3d => Some(Instruction::new(0x3d, Operation::AND, AddressingMode::AbsoluteX, 3, 4)),
        0x41 => Some(Instruction::new(0x41, Operation::EOR, AddressingMode::IndirectX, 2, 6)),
        0x45 => Some(Instruction::new(0x45, Operation::EOR, AddressingMode::ZeroPage, 2, 3)),
        0x46 => Some(Instruction::new(0x46, Operation::LSR, AddressingMode::ZeroPage, 2, 5)),
        0x49 => Some(Instruction::new(0x49, Operation::EOR, AddressingMode::Immediate, 2, 2)),
        0x4a => Some(Instruction::new(0x4a, Operation::LSR, AddressingMode::Accumulator, 1, 2)),
        0x4c => Some(Instruction::new(0x4c, Operation::JMP, AddressingMode::Absolute, 3, 3)),
        0x4d => Some(Instruction::new(0x4d, Operation::EOR, AddressingMode::Absolute, 3, 4)),
        0x4e => Some(Instruction::new(0x4e, Operation::LSR, AddressingMode::Absolute, 3, 6)),
        0x50 => Some(Instruction::new(0x50, Operation::BVC, AddressingMode::Relative, 2, 2)),
        0x51 => Some(Instruction::new(0x51, Operation::EOR, AddressingMode::IndirectY, 2, 5)),
        0x55 => Some(Instruction::new(0x55, Operation::EOR, AddressingMode::ZeroPageX, 2, 4)),
        0x56 => Some(Instruction::new(0x56, Operation::LSR, AddressingMode::ZeroPageX, 2, 6)),
        0x58 => Some(Instruction::new(0x58, Operation::CLI, AddressingMode::Implied, 1, 2)),
        0x59 => Some(Instruction::new(0x59, Operation::EOR, AddressingMode::AbsoluteY, 3, 4)),
        0x5d => Some(Instruction::new(0x5d, Operation::EOR, AddressingMode::AbsoluteX, 3, 4)),
        0x5e => Some(Instruction::new(0x5e, Operation::LSR, AddressingMode::AbsoluteX, 3, 7)),
        0x61 => Some(Instruction::new(0x61, Operation::ADC, AddressingMode::IndirectX, 2, 6)),
        0x65 => Some(Instruction::new(0x65, Operation::ADC, AddressingMode::ZeroPage, 2, 3)),
        0x69 => Some(Instruction::new(0x69, Operation::ADC, AddressingMode::Immediate, 2, 2)),
        0x6c => Some(Instruction::new(0x6c, Operation::JMP, AddressingMode::Indirect, 3, 5)),
        0x6d => Some(Instruction::new(0x6d, Operation::ADC, AddressingMode::Absolute, 3, 4)),
        0x70 => Some(Instruction::new(0x70, Operation::BVS, AddressingMode::Relative, 2, 2)),
        0x71 => Some(Instruction::new(0x71, Operation::ADC, AddressingMode::IndirectY, 2, 5)),
        0x75 => Some(Instruction::new(0x75, Operation::ADC, AddressingMode::ZeroPageX, 2, 4)),
        0x79 => Some(Instruction::new(0x79, Operation::ADC, AddressingMode::AbsoluteY, 3, 4)),
        0x7d => Some(Instruction::new(0x7d, Operation::ADC, AddressingMode::AbsoluteX, 3, 4)),
        0x88 => Some(Instruction::new(0x88, Operation::DEY, AddressingMode::Implied, 1, 2)),
        0x90 => Some(Instruction::new(0x90, Operation::BCC, AddressingMode::Relative, 2, 2)),
        0xa0 => Some(Instruction::new(0xa0, Operation::LDY, AddressingMode::Immediate, 2, 2)),
        0xa1 => Some(Instruction::new(0xa1, Operation::LDA, AddressingMode::IndirectX, 2, 6)),
        0xa2 => Some(Instruction::new(0xa2, Operation::LDX, AddressingMode::Immediate, 2, 2)),
        0xa4 => Some(Instruction::new(0xa4, Operation::LDY, AddressingMode::ZeroPage, 2, 3)),
        0xa5 => Some(Instruction::new(0xa5, Operation::LDA, AddressingMode::ZeroPage, 2, 3)),
        0xa6 => Some(Instruction::new(0xa6, Operation::LDX, AddressingMode::ZeroPage, 2, 3)),
        0xa9 => Some(Instruction::new(0xa9, Operation::LDA, AddressingMode::Immediate, 2, 2)),
        0xaa => Some(Instruction::new(0xaa, Operation::TAX, AddressingMode::Implied, 1, 2)),
        0xac => Some(Instruction::new(0xac, Operation::LDY, AddressingMode::Absolute, 3, 4)),
        0xad => Some(Instruction::new(0xad, Operation::LDA, AddressingMode::Absolute, 3, 4)),
        0xae => Some(Instruction::new(0xae, Operation::LDX, AddressingMode::Absolute, 3, 4)),
        0xb0 => Some(Instruction::new(0xb0, Operation::BCS, AddressingMode::Relative, 2, 2)),
        0xb1 => Some(Instruction::new(0xb1, Operation::LDA, AddressingMode::IndirectY, 2, 5)),
        0xb4 => Some(Instruction::new(0xb4, Operation::LDY, AddressingMode::ZeroPageX, 2, 4)),
        0xb5 => Some(Instruction::new(0xb5, Operation::LDA, AddressingMode::ZeroPageX, 2, 4)),
        0xb6 => Some(Instruction::new(0xb6, Operation::LDX, AddressingMode::ZeroPageY, 2, 4)),
        0xb8 => Some(Instruction::new(0xb8, Operation::CLV, AddressingMode::Implied, 1, 2)),
        0xb9 => Some(Instruction::new(0xb9, Operation::LDA, AddressingMode::AbsoluteY, 3, 4)),
        0xbc => Some(Instruction::new(0xbc, Operation::LDY, AddressingMode::AbsoluteX, 3, 4)),
        0xbd => Some(Instruction::new(0xbd, Operation::LDA, AddressingMode::AbsoluteX, 3, 4)),
        0xbe => Some(Instruction::new(0xbe, Operation::LDX, AddressingMode::AbsoluteY, 3, 4)),
        0xc0 => Some(Instruction::new(0xc0, Operation::CPY, AddressingMode::Immediate, 2, 2)),
        0xc1 => Some(Instruction::new(0xc1, Operation::CMP, AddressingMode::IndirectX, 2, 6)),
        0xc4 => Some(Instruction::new(0xc4, Operation::CPY, AddressingMode::ZeroPage, 2, 3)),
        0xc5 => Some(Instruction::new(0xc5, Operation::CMP, AddressingMode::ZeroPage, 2, 3)),
        0xc6 => Some(Instruction::new(0xc6, Operation::DEC, AddressingMode::ZeroPage, 2, 5)),
        0xc8 => Some(Instruction::new(0xc8, Operation::INY, AddressingMode::Implied, 1, 2)),
        0xc9 => Some(Instruction::new(0xc9, Operation::CMP, AddressingMode::Immediate, 2, 2)),
        0xca => Some(Instruction::new(0xca, Operation::DEX, AddressingMode::Implied, 1, 2)),
        0xcc => Some(Instruction::new(0xcc, Operation::CPY, AddressingMode::Absolute, 3, 4)),
        0xcd => Some(Instruction::new(0xcd, Operation::CMP, AddressingMode::Absolute, 3, 4)),
        0xce => Some(Instruction::new(0xce, Operation::DEC, AddressingMode::Absolute, 3, 6)),
        0xd0 => Some(Instruction::new(0xd0, Operation::BNE, AddressingMode::Relative, 2, 2)),
        0xd1 => Some(Instruction::new(0xd1, Operation::CMP, AddressingMode::IndirectY, 2, 5)),
        0xd5 => Some(Instruction::new(0xd5, Operation::CMP, AddressingMode::ZeroPageX, 2, 4)),
        0xd6 => Some(Instruction::new(0xd6, Operation::DEC, AddressingMode::ZeroPageX, 2, 6)),
        0xd8 => Some(Instruction::new(0xd8, Operation::CLD, AddressingMode::Implied, 1, 2)),
        0xd9 => Some(Instruction::new(0xd9, Operation::CMP, AddressingMode::AbsoluteY, 3, 4)),
        0xdd => Some(Instruction::new(0xdd, Operation::CMP, AddressingMode::AbsoluteX, 3, 4)),
        0xde => Some(Instruction::new(0xde, Operation::DEC, AddressingMode::AbsoluteX, 3, 7)),
        0xe0 => Some(Instruction::new(0xe0, Operation::CPX, AddressingMode::Immediate, 2, 2)),
        0xe4 => Some(Instruction::new(0xe4, Operation::CPX, AddressingMode::ZeroPage, 2, 3)),
        0xe6 => Some(Instruction::new(0xe6, Operation::INC, AddressingMode::ZeroPage, 2, 5)),
        0xe8 => Some(Instruction::new(0xe8, Operation::INX, AddressingMode::Implied, 1, 2)),
        0xea => Some(Instruction::new(0xea, Operation::NOP, AddressingMode::Implied, 1, 2)),
        0xec => Some(Instruction::new(0xec, Operation::CPX, AddressingMode::Absolute, 3, 4)),
        0xee => Some(Instruction::new(0xee, Operation::INC, AddressingMode::Absolute, 3, 6)),
        0xf0 => Some(Instruction::new(0xf0, Operation::BEQ, AddressingMode::Relative, 2, 2)),
        0xf6 => Some(Instruction::new(0xf6, Operation::INC, AddressingMode::ZeroPageX, 2, 6)),
        0xfe => Some(Instruction::new(0xfe, Operation::INC, AddressingMode::AbsoluteX, 3, 7)),
        _ => None,
    }
}

} // verus!
