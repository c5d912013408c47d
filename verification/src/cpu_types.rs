//! The closed enumerations of the instruction set (operation mnemonics and
//! addressing modes), the processor status register, and the errors that can
//! end a run.

use vstd::prelude::*;

verus! {

/// Operation mnemonics of the 6502 instruction set.
#[derive(Clone, Copy, Debug, PartialEq, Eq, Structural)]
pub enum Operation {
    ADC, AND, ASL, BCC, BCS, BEQ, BIT, BMI, BNE, BPL, BRK, BVC, BVS, CLC,
    CLD, CLI, CLV, CMP, CPX, CPY, DEC, DEX, DEY, EOR, INC, INX, INY, JMP,
    JSR, LDA, LDX, LDY, LSR, NOP, ORA, PHA, PHP, PLA, PLP, ROL, ROR, RTI,
    RTS, SBC, SEC, SED, SEI, STA, STX, STY, TAX, TAY, TSX, TXA, TXS, TYA,
}

/// The rule by which an instruction's effective operand address is computed.
#[derive(Clone, Copy, Debug, PartialEq, Eq, Structural)]
pub enum AddressingMode {
    Implied,
    Accumulator,
    Immediate,
    ZeroPage,
    ZeroPageX,
    ZeroPageY,
    Absolute,
    AbsoluteX,
    AbsoluteY,
    Indirect,
    IndirectX,
    IndirectY,
    Relative,
}

/// Bit mask of the carry flag in the status byte.
pub const CARRY: u8 = 0x01;
/// Bit mask of the zero flag.
pub const ZERO: u8 = 0x02;
/// Bit mask of the interrupt-disable flag.
pub const INTERRUPT: u8 = 0x04;
/// Bit mask of the decimal-mode flag (tabulated but never consulted: decimal
/// arithmetic is unsupported, matching hardware that disables it).
pub const DECIMAL: u8 = 0x08;
/// Bit mask of the break flag.
pub const BREAK: u8 = 0x10;
/// Bit mask of the unused, always-observable bit 5.
pub const UNUSED: u8 = 0x20;
/// Bit mask of the overflow flag.
pub const OVERFLOW: u8 = 0x40;
/// Bit mask of the negative flag.
pub const NEGATIVE: u8 = 0x80;

/// First address of the fixed 256-byte stack page.
pub const STACK: u16 = 0x0100;
/// Value the stack pointer takes on reset.
pub const STACK_RESET: u8 = 0xfd;
/// Status byte after reset: interrupt-disable and the unused bit 5 set.
pub const STATUS_RESET: u8 = 0x24;
/// Address of the low byte of the reset vector.
pub const RESET_VECTOR: u16 = 0xFFFC;
/// Address at which a loaded program is placed, and to which the reset
/// vector is pointed by a load.
pub const LOAD_ADDR: u16 = 0x8000;

/// The processor status register: eight independent condition flags packed
/// into one byte, addressed by the mask constants above.
#[derive(Clone, Copy, Debug, PartialEq, Eq, Structural)]
pub struct CpuFlag {
    pub bits: u8,
}

impl CpuFlag {
    /// A status byte with every flag clear.
    pub fn empty() -> (r: CpuFlag)
        ensures
            r.bits == 0,
    {
        CpuFlag { bits: 0 }
    }

    /// A status byte holding exactly the given bits; every bit position is
    /// meaningful, so nothing is discarded.
    pub fn from_bits_truncate(bits: u8) -> (r: CpuFlag)
        ensures
            r.bits == bits,
    {
        CpuFlag { bits }
    }

    /// The raw status byte.
    pub fn bits(&self) -> (r: u8)
        ensures
            r == self.bits,
    {
        self.bits
    }

    /// Whether every bit of `mask` is set.
    pub fn contains(&self, mask: u8) -> (r: bool)
        ensures
            r == ((self.bits & mask) == mask),
    {
        (self.bits & mask) == mask
    }

    /// Sets every bit of `mask`.
    pub fn insert(&mut self, mask: u8)
        ensures
            final(self).bits == (old(self).bits | mask),
    {
        self.bits = self.bits | mask;
    }

    /// Clears every bit of `mask`.
    pub fn remove(&mut self, mask: u8)
        ensures
            final(self).bits == (old(self).bits & !mask),
    {
        self.bits = self.bits & !mask;
    }

    /// Sets or clears every bit of `mask` according to `value`.
    pub fn set(&mut self, mask: u8, value: bool)
        ensures
            final(self).bits == (if value {
                old(self).bits | mask
            } else {
                old(self).bits & !mask
            }),
    {
        if value {
            self.insert(mask);
        } else {
            self.remove(mask);
        }
    }
}

/// A condition that ends a run other than by the break instruction.
#[derive(Clone, Copy, Debug, PartialEq, Eq, Structural)]
pub enum CpuError {
    /// The fetched opcode byte has no entry in the instruction table.
    /// Carries the offending byte and the address it was fetched from.
    UnrecognizedOpcode { opcode: u8, address: u16 },
    /// The opcode decoded to an operation whose handler is absent. Carries
    /// the opcode byte and the address it was fetched from.
    UnimplementedOperation { opcode: u8, address: u16 },
    /// The run executed the largest number of instructions the engine is
    /// willing to step through without reaching the break instruction.
    StepLimitReached,
}

} // verus!
