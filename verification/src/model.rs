//! The mathematical model of the machine: a record of the register file,
//! status byte, program counter and memory contents, with one transition
//! function per operation and a small-step function for whole instructions.
//! The executable engine in `cpu` is proved to follow these functions
//! exactly.

use vstd::prelude::*;

use crate::cpu_types::{AddressingMode, Operation, CARRY, ZERO, INTERRUPT, DECIMAL, OVERFLOW,
    NEGATIVE, STACK, STACK_RESET, STATUS_RESET, RESET_VECTOR, LOAD_ADDR};
use crate::instruction::instruction_for;

verus! {

/// Number of addressable bytes: the 64 KiB space 0x0000 through 0xFFFF.
pub const MEM_SIZE: usize = 0x10000;

/// The machine state: accumulator, index registers, stack pointer, status
/// byte, program counter, and the full memory contents.
#[verifier::ext_equal]
pub ghost struct CpuModel {
    pub a: u8,
    pub x: u8,
    pub y: u8,
    pub sp: u8,
    pub status: u8,
    pub pc: u16,
    pub mem: Seq<u8>,
}

impl CpuModel {
    /// The memory always spans the whole address space.
    pub open spec fn wf(self) -> bool {
        self.mem.len() == MEM_SIZE
    }
}

/// Whether every bit of `mask` is set in the status byte.
pub open spec fn flag_set(status: u8, mask: u8) -> bool {
    (status & mask) == mask
}

/// The status byte with every bit of `mask` set or cleared according to `on`.
pub open spec fn with_flag(status: u8, mask: u8, on: bool) -> u8 {
    if on {
        status | mask
    } else {
        status & !mask
    }
}

/// The status byte after an operation produced `result`: the zero flag set
/// exactly when the result is zero, the negative flag set exactly when its
/// high bit is set.
pub open spec fn update_zn(status: u8, result: u8) -> u8 {
    with_flag(with_flag(status, ZERO, result == 0), NEGATIVE, result >= 0x80)
}

/// The 16-bit value formed from a low and a high byte (little-endian order
/// in memory, so the low byte is read first).
pub open spec fn combine16(lo: u8, hi: u8) -> u16 {
    (hi * 256 + lo) as u16
}

/// The byte at `addr`.
pub open spec fn mem_read(m: CpuModel, addr: u16) -> u8 {
    m.mem[addr as int]
}

/// The state with the byte at `addr` replaced by `value`.
pub open spec fn mem_write(m: CpuModel, addr: u16, value: u8) -> CpuModel {
    CpuModel { mem: m.mem.update(addr as int, value), ..m }
}

/// The little-endian 16-bit value at `pos`; the high byte's address wraps
/// around the top of the address space.
pub open spec fn mem_read16(m: CpuModel, pos: u16) -> u16 {
    combine16(mem_read(m, pos), mem_read(m, pos.wrapping_add(1)))
}

/// The state with the little-endian 16-bit value `value` written at `pos`.
pub open spec fn mem_write16(m: CpuModel, pos: u16, value: u16) -> CpuModel {
    mem_write(mem_write(m, pos, (value % 256) as u8), pos.wrapping_add(1), (value / 256) as u8)
}

/// The 16-bit value a relative branch offset stands for: the offset read as
/// a signed byte, in two's complement over 16 bits.
pub open spec fn sign_extend(offset: u8) -> u16 {
    if offset >= 0x80 {
        (offset + 0xFF00) as u16
    } else {
        offset as u16
    }
}

/// The effective operand address for an addressing mode, computed from the
/// program counter (which points at the first operand byte), the index
/// registers and memory. The modes that carry no address resolve to zero;
/// their handlers never consult the result.
pub open spec fn resolve(m: CpuModel, mode: AddressingMode) -> u16 {
    match mode {
        AddressingMode::Immediate => m.pc,
        AddressingMode::ZeroPage => mem_read(m, m.pc) as u16,
        AddressingMode::ZeroPageX => mem_read(m, m.pc).wrapping_add(m.x) as u16,
        AddressingMode::ZeroPageY => mem_read(m, m.pc).wrapping_add(m.y) as u16,
        AddressingMode::Absolute => mem_read16(m, m.pc),
        AddressingMode::AbsoluteX => mem_read16(m, m.pc).wrapping_add(m.x as u16),
        AddressingMode::AbsoluteY => mem_read16(m, m.pc).wrapping_add(m.y as u16),
        AddressingMode::Indirect => {
            let base = mem_read16(m, m.pc);
            if base % 256 == 0xFF {
                combine16(mem_read(m, base), mem_read(m, (base / 256 * 256) as u16))
            } else {
                mem_read16(m, base)
            }
        },
        AddressingMode::IndirectX => {
            let ptr = mem_read(m, m.pc).wrapping_add(m.x);
            combine16(mem_read(m, ptr as u16), mem_read(m, ptr.wrapping_add(1) as u16))
        },
        AddressingMode::IndirectY => {
            let base = mem_read(m, m.pc);
            let target = combine16(
                mem_read(m, base as u16),
                mem_read(m, base.wrapping_add(1) as u16),
            );
            target.wrapping_add(m.y as u16)
        },
        AddressingMode::Implied => 0,
        AddressingMode::Accumulator => 0,
        AddressingMode::Relative => 0,
    }
}

/// The state after one byte is pushed: the byte lands in the stack page at
/// the stack pointer, which then moves down one (wrapping within the page).
pub open spec fn stack_push(m: CpuModel, value: u8) -> CpuModel {
    CpuModel {
        mem: m.mem.update(STACK + m.sp, value),
        sp: m.sp.wrapping_sub(1),
        ..m
    }
}

/// The state after a 16-bit value is pushed: high byte first, then low byte,
/// so that bytes pop back in low-then-high order.
pub open spec fn stack_push16(m: CpuModel, value: u16) -> CpuModel {
    stack_push(stack_push(m, (value / 256) as u8), (value % 256) as u8)
}

/// The address `stack_pop` reads from: one above the current stack
/// pointer, within the stack page.
pub open spec fn stack_pop_addr(m: CpuModel) -> u16 {
    (STACK + m.sp.wrapping_add(1)) as u16
}

/// The state after one byte is popped: only the stack pointer moves, up by
/// one, wrapping within the page.
pub open spec fn stack_popped(m: CpuModel) -> CpuModel {
    CpuModel { sp: m.sp.wrapping_add(1), ..m }
}

/// The state with the status byte replaced.
pub open spec fn with_status(m: CpuModel, status: u8) -> CpuModel {
    CpuModel { status, ..m }
}

/// The carry flag's contribution to an addition: one when set, else zero.
pub open spec fn carry_in(carry: bool) -> int {
    if carry {
        1
    } else {
        0
    }
}

/// The widened sum of accumulator, operand and incoming carry.
pub open spec fn adc_sum(a: u8, value: u8, carry: bool) -> int {
    a + value + carry_in(carry)
}

/// The sum truncated to eight bits: the accumulator after add-with-carry.
pub open spec fn adc_result(a: u8, value: u8, carry: bool) -> u8 {
    (adc_sum(a, value, carry) % 256) as u8
}

/// Whether add-with-carry overflows as a signed operation: the accumulator
/// and the operand agree in sign, and the truncated sum disagrees with both.
pub open spec fn adc_overflows(a: u8, value: u8, carry: bool) -> bool {
    ((a >= 0x80) == (value >= 0x80)) && ((adc_result(a, value, carry) >= 0x80) != (a >= 0x80))
}

/// The state after `value` is added to the accumulator together with the
/// incoming carry: the carry flag receives the ninth bit of the sum and the
/// overflow flag the signed-overflow condition. Zero and negative are left
/// for the caller, matching the engine's split of the operation.
pub open spec fn add_with_carry(m: CpuModel, value: u8) -> CpuModel {
    let carry = flag_set(m.status, CARRY);
    let result = adc_result(m.a, value, carry);
    let s1 = with_flag(m.status, CARRY, adc_sum(m.a, value, carry) > 255);
    let s2 = with_flag(s1, OVERFLOW, adc_overflows(m.a, value, carry));
    CpuModel { a: result, status: s2, ..m }
}

/// Add-with-carry: the truncated sum lands in the accumulator; carry,
/// overflow, zero and negative are all updated.
pub open spec fn op_adc(m: CpuModel, mode: AddressingMode) -> CpuModel {
    let m2 = add_with_carry(m, mem_read(m, resolve(m, mode)));
    CpuModel { status: update_zn(m2.status, m2.a), ..m2 }
}

/// Bitwise AND of the operand into the accumulator, with zero/negative
/// update.
pub open spec fn op_and(m: CpuModel, mode: AddressingMode) -> CpuModel {
    let result = (m.a & mem_read(m, resolve(m, mode))) as u8;
    CpuModel { a: result, status: update_zn(m.status, result), ..m }
}

/// Bitwise exclusive OR of the operand into the accumulator, with
/// zero/negative update.
pub open spec fn op_eor(m: CpuModel, mode: AddressingMode) -> CpuModel {
    let result = (m.a ^ mem_read(m, resolve(m, mode))) as u8;
    CpuModel { a: result, status: update_zn(m.status, result), ..m }
}

/// Bitwise OR of the operand into the accumulator, with zero/negative
/// update.
pub open spec fn op_ora(m: CpuModel, mode: AddressingMode) -> CpuModel {
    let result = (m.a | mem_read(m, resolve(m, mode))) as u8;
    CpuModel { a: result, status: update_zn(m.status, result), ..m }
}

/// Arithmetic shift left. The carry flag receives the bit shifted out. In
/// accumulator mode the accumulator is replaced; otherwise the shifted byte
/// is written back to memory and zero/negative are updated from it.
pub open spec fn op_asl(m: CpuModel, mode: AddressingMode) -> CpuModel {
    if mode == AddressingMode::Accumulator {
        let result = (m.a * 2 % 256) as u8;
        CpuModel { a: result, status: with_flag(m.status, CARRY, m.a >= 0x80), ..m }
    } else {
        let addr = resolve(m, mode);
        let data = mem_read(m, addr);
        let result = (data * 2 % 256) as u8;
        let m2 = mem_write(m, addr, result);
        CpuModel { status: update_zn(with_flag(m.status, CARRY, data >= 0x80), result), ..m2 }
    }
}

/// Logical shift right, the mirror image of the left shift: carry receives
/// the low bit.
pub open spec fn op_lsr(m: CpuModel, mode: AddressingMode) -> CpuModel {
    if mode == AddressingMode::Accumulator {
        let result = (m.a / 2) as u8;
        CpuModel { a: result, status: with_flag(m.status, CARRY, m.a % 2 == 1), ..m }
    } else {
        let addr = resolve(m, mode);
        let data = mem_read(m, addr);
        let result = (data / 2) as u8;
        let m2 = mem_write(m, addr, result);
        CpuModel { status: update_zn(with_flag(m.status, CARRY, data % 2 == 1), result), ..m2 }
    }
}

/// Conditional branch: when taken, the program counter moves past the offset
/// byte and then by the signed offset, all wrapping over 16 bits.
pub open spec fn op_branch(m: CpuModel, take: bool) -> CpuModel {
    if take {
        CpuModel {
            pc: m.pc.wrapping_add(1).wrapping_add(sign_extend(mem_read(m, m.pc))),
            ..m
        }
    } else {
        m
    }
}

/// Bit test: zero from accumulator AND operand, negative from the operand's
/// bit 7, overflow from its bit 6; the accumulator itself is untouched.
pub open spec fn op_bit(m: CpuModel, mode: AddressingMode) -> CpuModel {
    let data = mem_read(m, resolve(m, mode));
    let s1 = with_flag(m.status, ZERO, (m.a & data) == 0);
    let s2 = with_flag(s1, NEGATIVE, data >= 0x80);
    let s3 = with_flag(s2, OVERFLOW, (data & OVERFLOW) != 0);
    CpuModel { status: s3, ..m }
}

/// Comparison of a register against the operand: carry set exactly when no
/// borrow is needed (operand at most the register), zero and negative from
/// the wrapping difference.
pub open spec fn op_compare(m: CpuModel, mode: AddressingMode, register: u8) -> CpuModel {
    let data = mem_read(m, resolve(m, mode));
    CpuModel {
        status: update_zn(with_flag(m.status, CARRY, data <= register), register.wrapping_sub(
            data,
        )),
        ..m
    }
}

/// Decrement of a memory byte, with zero/negative update.
pub open spec fn op_dec(m: CpuModel, mode: AddressingMode) -> CpuModel {
    let addr = resolve(m, mode);
    let result = mem_read(m, addr).wrapping_sub(1);
    let m2 = mem_write(m, addr, result);
    CpuModel { status: update_zn(m.status, result), ..m2 }
}

/// Increment of a memory byte, with zero/negative update.
pub open spec fn op_inc(m: CpuModel, mode: AddressingMode) -> CpuModel {
    let addr = resolve(m, mode);
    let result = mem_read(m, addr).wrapping_add(1);
    let m2 = mem_write(m, addr, result);
    CpuModel { status: update_zn(m.status, result), ..m2 }
}

/// Decrement of the X register, with zero/negative update.
pub open spec fn op_dex(m: CpuModel) -> CpuModel {
    let result = m.x.wrapping_sub(1);
    CpuModel { x: result, status: update_zn(m.status, result), ..m }
}

/// Decrement of the Y register, with zero/negative update.
pub open spec fn op_dey(m: CpuModel) -> CpuModel {
    let result = m.y.wrapping_sub(1);
    CpuModel { y: result, status: update_zn(m.status, result), ..m }
}

/// Increment of the X register, wrapping over eight bits, with
/// zero/negative update.
pub open spec fn op_inx(m: CpuModel) -> CpuModel {
    let result = m.x.wrapping_add(1);
    CpuModel { x: result, status: update_zn(m.status, result), ..m }
}

/// Increment of the Y register, with zero/negative update.
pub open spec fn op_iny(m: CpuModel) -> CpuModel {
    let result = m.y.wrapping_add(1);
    CpuModel { y: result, status: update_zn(m.status, result), ..m }
}

/// Jump: the program counter is replaced by the effective address.
pub open spec fn op_jmp(m: CpuModel, mode: AddressingMode) -> CpuModel {
    CpuModel { pc: resolve(m, mode), ..m }
}

/// Jump to subroutine: the address of the last byte of the call instruction
/// is pushed (high byte first), then control moves to the absolute target.
/// The target is read after the push, so a stack landing on the operand
/// bytes is honoured.
pub open spec fn op_jsr(m: CpuModel) -> CpuModel {
    let m2 = stack_push16(m, m.pc.wrapping_add(1));
    CpuModel { pc: mem_read16(m2, m2.pc), ..m2 }
}

/// Load of the accumulator from the operand, with zero/negative update.
pub open spec fn op_lda(m: CpuModel, mode: AddressingMode) -> CpuModel {
    let value = mem_read(m, resolve(m, mode));
    CpuModel { a: value, status: update_zn(m.status, value), ..m }
}

/// Load of the X register from the operand, with zero/negative update.
pub open spec fn op_ldx(m: CpuModel, mode: AddressingMode) -> CpuModel {
    let value = mem_read(m, resolve(m, mode));
    CpuModel { x: value, status: update_zn(m.status, value), ..m }
}

/// Load of the Y register from the operand, with zero/negative update.
pub open spec fn op_ldy(m: CpuModel, mode: AddressingMode) -> CpuModel {
    let value = mem_read(m, resolve(m, mode));
    CpuModel { y: value, status: update_zn(m.status, value), ..m }
}

/// Transfer of the accumulator to the X register, with zero/negative
/// update.
pub open spec fn op_tax(m: CpuModel) -> CpuModel {
    CpuModel { x: m.a, status: update_zn(m.status, m.a), ..m }
}

/// A flag-clear operation: the masked bits drop, nothing else moves.
pub open spec fn op_clear_flag(m: CpuModel, mask: u8) -> CpuModel {
    CpuModel { status: with_flag(m.status, mask, false), ..m }
}

/// Whether the engine has a handler for an operation. The remaining
/// mnemonics are part of the instruction-set surface the engine must
/// eventually cover; a decoded but unhandled one fails loudly rather than
/// executing as a no-op.
pub open spec fn op_implemented(operation: Operation) -> bool {
    match operation {
        Operation::PHA | Operation::PHP | Operation::PLA | Operation::PLP | Operation::ROL
            | Operation::ROR | Operation::RTI | Operation::RTS | Operation::SBC
            | Operation::SEC | Operation::SED | Operation::SEI | Operation::STA
            | Operation::STX | Operation::STY | Operation::TAY | Operation::TSX
            | Operation::TXA | Operation::TXS | Operation::TYA => false,
        _ => true,
    }
}

/// The state transition of one decoded operation, with the program counter
/// already past the opcode byte. The break operation and the unhandled ones
/// leave the state untouched here: the engine stops on them instead.
pub open spec fn apply_operation(m: CpuModel, operation: Operation, mode: AddressingMode) -> CpuModel {
    match operation {
        Operation::ADC => op_adc(m, mode),
        Operation::AND => op_and(m, mode),
        Operation::ASL => op_asl(m, mode),
        Operation::BCC => op_branch(m, !flag_set(m.status, CARRY)),
        Operation::BCS => op_branch(m, flag_set(m.status, CARRY)),
        Operation::BEQ => op_branch(m, flag_set(m.status, ZERO)),
        Operation::BIT => op_bit(m, mode),
        Operation::BMI => op_branch(m, flag_set(m.status, NEGATIVE)),
        Operation::BNE => op_branch(m, !flag_set(m.status, ZERO)),
        Operation::BPL => op_branch(m, !flag_set(m.status, NEGATIVE)),
        Operation::BVC => op_branch(m, !flag_set(m.status, OVERFLOW)),
        Operation::BVS => op_branch(m, flag_set(m.status, OVERFLOW)),
        Operation::CLC => op_clear_flag(m, CARRY),
        Operation::CLD => op_clear_flag(m, DECIMAL),
        Operation::CLI => op_clear_flag(m, INTERRUPT),
        Operation::CLV => op_clear_flag(m, OVERFLOW),
        Operation::CMP => op_compare(m, mode, m.a),
        Operation::CPX => op_compare(m, mode, m.x),
        Operation::CPY => op_compare(m, mode, m.y),
        Operation::DEC => op_dec(m, mode),
        Operation::DEX => op_dex(m),
        Operation::DEY => op_dey(m),
        Operation::EOR => op_eor(m, mode),
        Operation::INC => op_inc(m, mode),
        Operation::INX => op_inx(m),
        Operation::INY => op_iny(m),
        Operation::JMP => op_jmp(m, mode),
        Operation::JSR => op_jsr(m),
        Operation::LDA => op_lda(m, mode),
        Operation::LDX => op_ldx(m, mode),
        Operation::LDY => op_ldy(m, mode),
        Operation::LSR => op_lsr(m, mode),
        Operation::NOP => m,
        Operation::ORA => op_ora(m, mode),
        Operation::TAX => op_tax(m),
        _ => m,
    }
}

/// The opcode byte the next fetch will read.
pub open spec fn opcode_at(m: CpuModel) -> u8 {
    mem_read(m, m.pc)
}

/// The state right after a fetch: the program counter has moved past the
/// opcode byte, nothing else has changed.
pub open spec fn after_fetch(m: CpuModel) -> CpuModel {
    CpuModel { pc: m.pc.wrapping_add(1), ..m }
}

/// Whether the next fetch finds the break operation.
pub open spec fn at_brk(m: CpuModel) -> bool {
    match instruction_for(opcode_at(m)) {
        Some(i) => i.operation == Operation::BRK,
        None => false,
    }
}

/// Whether the engine can take a whole step from this state: the next
/// opcode decodes, has a handler, and is not the break operation.
pub open spec fn running(m: CpuModel) -> bool {
    match instruction_for(opcode_at(m)) {
        Some(i) => i.operation != Operation::BRK && op_implemented(i.operation),
        None => false,
    }
}

/// One whole instruction: fetch, decode, execute, and advance the program
/// counter past the operand bytes unless the handler itself redirected
/// control flow. Meaningful only where `running` holds; elsewhere the state
/// is returned unchanged.
pub open spec fn step(m: CpuModel) -> CpuModel {
    match instruction_for(opcode_at(m)) {
        Some(i) => {
            let m1 = after_fetch(m);
            let m2 = apply_operation(m1, i.operation, i.mode);
            if m2.pc == m1.pc {
                CpuModel { pc: m2.pc.wrapping_add((i.length as u16).wrapping_sub(1)), ..m2 }
            } else {
                m2
            }
        },
        None => m,
    }
}

/// The state reached after `n` whole instructions.
pub open spec fn steps(m: CpuModel, n: nat) -> CpuModel
    decreases n,
{
    if n == 0 {
        m
    } else {
        step(steps(m, (n - 1) as nat))
    }
}

/// Whether the first `n` instructions from `m` can all be stepped through.
pub open spec fn trace_ok(m: CpuModel, n: nat) -> bool {
    forall|i: nat| i < n ==> running(#[trigger] steps(m, i))
}

/// A run from `m0` that ends in normal completion: after `n` full
/// instructions the fetch finds the break operation, and the machine stops
/// with only that fetch consumed.
pub open spec fn halts_after(m0: CpuModel, n: nat, mf: CpuModel) -> bool {
    let m = steps(m0, n);
    trace_ok(m0, n) && at_brk(m) && mf == after_fetch(m)
}

/// A run from `m0` that ends on a byte the instruction table does not map:
/// the diagnostic carries the byte and the address it was fetched from.
pub open spec fn unrecognized_after(
    m0: CpuModel,
    n: nat,
    mf: CpuModel,
    opcode: u8,
    address: u16,
) -> bool {
    let m = steps(m0, n);
    trace_ok(m0, n) && instruction_for(opcode_at(m)) is None && opcode == opcode_at(m) && address
        == m.pc && mf == after_fetch(m)
}

/// A run from `m0` that ends on an opcode that decodes to an operation
/// without a handler: distinguishable from an unrecognized byte.
pub open spec fn unimplemented_after(
    m0: CpuModel,
    n: nat,
    mf: CpuModel,
    opcode: u8,
    address: u16,
) -> bool {
    let m = steps(m0, n);
    trace_ok(m0, n) && (match instruction_for(opcode_at(m)) {
        Some(i) => !op_implemented(i.operation),
        None => false,
    }) && opcode == opcode_at(m) && address == m.pc && mf == after_fetch(m)
}

/// The state after a reset: registers cleared, stack pointer and status at
/// their reset values, the program counter read from the reset vector, and
/// memory untouched.
pub open spec fn reset_state(m: CpuModel) -> CpuModel {
    CpuModel {
        a: 0,
        x: 0,
        y: 0,
        sp: STACK_RESET,
        status: STATUS_RESET,
        pc: mem_read16(m, RESET_VECTOR),
        mem: m.mem,
    }
}

/// The memory after a program is loaded: the program bytes sit at the load
/// address, the reset vector points at the load address, and everything
/// else keeps its old contents. The vector is written after the program, so
/// it wins where the two regions meet.
pub open spec fn loaded(m: CpuModel, program: Seq<u8>) -> CpuModel {
    CpuModel {
        mem: Seq::new(
            m.mem.len(),
            |i: int|
                if i == RESET_VECTOR {
                    (LOAD_ADDR % 256) as u8
                } else if i == RESET_VECTOR + 1 {
                    (LOAD_ADDR / 256) as u8
                } else if LOAD_ADDR <= i < LOAD_ADDR + program.len() {
                    program[i - LOAD_ADDR]
                } else {
                    m.mem[i]
                },
        ),
        ..m
    }
}

/// The state a load followed by a reset leaves: the program in place, the
/// reset vector pointing at it, and the register file at its reset values.
pub open spec fn started(m: CpuModel, program: Seq<u8>) -> CpuModel {
    reset_state(loaded(m, program))
}

/// A steppable trace of length `n` extends by one more instruction
/// whenever its end state can be stepped through.
pub(crate) proof fn lemma_trace_extend(m0: CpuModel, n: nat)
    requires
        trace_ok(m0, n),
        running(steps(m0, n)),
    ensures
        trace_ok(m0, n + 1),
        steps(m0, n + 1) == step(steps(m0, n)),
{
    assert forall|i: nat| i < n + 1 implies running(#[trigger] steps(m0, i)) by {
        if i == n {
            assert(running(steps(m0, n)));
        }
    }
    assert(steps(m0, n + 1) == step(steps(m0, n)));
}

/// Law: a run's outcome is determined. At most one instruction count leads
/// from a starting state to the break instruction with a steppable trace,
/// so the final state a halting run promises is unique.
pub proof fn lemma_halt_unique(m0: CpuModel, n1: nat, n2: nat, mf1: CpuModel, mf2: CpuModel)
    requires
        halts_after(m0, n1, mf1),
        halts_after(m0, n2, mf2),
    ensures
        n1 == n2,
        mf1 == mf2,
{
    if n1 < n2 {
        assert(running(steps(m0, n1)));
    }
    if n2 < n1 {
        assert(running(steps(m0, n2)));
    }
}

/// Law: for every status byte and every result, `update_zn` sets the zero
/// flag exactly on a zero result, sets the negative flag exactly on a result
/// with its high bit set, and leaves every other status bit as it was.
pub proof fn lemma_update_zn(status: u8, result: u8)
    by (bit_vector)
    ensures
        flag_set(update_zn(status, result), ZERO) <==> result == 0,
        flag_set(update_zn(status, result), NEGATIVE) <==> result >= 0x80,
        forall|mask: u8|
            mask & (ZERO | NEGATIVE) == 0 ==> #[trigger] (update_zn(status, result) & mask)
                == status & mask,
{
}

/// Law: whenever the two-byte pointer of an indirect jump has 0xFF as its
/// low byte, the high byte of the resolved target is read from the first
/// byte of the pointer's own page rather than from the next page,
/// reproducing the hardware's page-wrap defect.
pub proof fn lemma_indirect_page_wrap(m: CpuModel)
    requires
        m.wf(),
        mem_read16(m, m.pc) % 256 == 0xFF,
    ensures
        resolve(m, AddressingMode::Indirect) == combine16(
            mem_read(m, mem_read16(m, m.pc)),
            mem_read(m, (mem_read16(m, m.pc) / 256 * 256) as u16),
        ),
{
}

proof fn lemma_overflow_formula(a: u8, d: u8, c: u8)
    by (bit_vector)
    requires
        c <= 1,
    ensures
        (((a >= 0x80) == (d >= 0x80)) && ((((a + d + c) % 256) as u8 >= 0x80) != (a >= 0x80)))
            <==> ((d ^ (((a + d + c) % 256) as u8)) & ((((a + d + c) % 256) as u8) ^ a) & 0x80)
            != 0,
{
}

/// Law: for every accumulator value, operand and incoming carry, the
/// overflow condition of add-with-carry holds exactly when the accumulator
/// and operand share a sign bit and the truncated sum's sign differs from
/// both; equivalently, exactly when the hardware's bit formula
/// `(operand ^ result) & (result ^ a) & 0x80` is nonzero.
pub proof fn lemma_adc_overflow(a: u8, operand: u8, carry: bool)
    ensures
        adc_overflows(a, operand, carry) <==> ((a >= 0x80) == (operand >= 0x80)) && ((adc_result(
            a,
            operand,
            carry,
        ) >= 0x80) != (a >= 0x80)),
        adc_overflows(a, operand, carry) <==> ((operand ^ adc_result(a, operand, carry)) & (
        adc_result(a, operand, carry) ^ a) & 0x80) != 0,
{
    let c: u8 = if carry {
        1
    } else {
        0
    };
    assert(adc_result(a, operand, carry) == ((a + operand + c) % 256) as u8);
    lemma_overflow_formula(a, operand, c);
}

/// Law: resetting twice leaves exactly the state a single reset leaves,
/// since a reset reads only memory and memory is untouched by it.
pub proof fn lemma_reset_idempotent(m: CpuModel)
    ensures
        reset_state(reset_state(m)) == reset_state(m),
{
}

} // verus!
