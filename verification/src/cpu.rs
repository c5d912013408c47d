//! The executable machine: the register file, status register and memory,
//! with the addressing-mode resolver, the per-operation handlers and the
//! fetch-decode-execute loop. Every method is proved to realise the
//! corresponding transition of the model in `model`.

use vstd::prelude::*;

use crate::cpu_types::{AddressingMode, Operation, CpuError, CpuFlag, CARRY, ZERO, INTERRUPT,
    DECIMAL, OVERFLOW, NEGATIVE, STACK, STACK_RESET, STATUS_RESET, RESET_VECTOR, LOAD_ADDR};
use crate::instruction::lookup;
use crate::model;
use crate::model::{CpuModel, MEM_SIZE};

verus! {

/// The largest number of instructions one call of `run` will execute
/// before giving up: the loop is proved to take one instruction per
/// iteration, so the bound also serves as its termination measure.
pub const STEP_LIMIT: u64 = 0xFFFF_FFFF_FFFF_FFFF;

/// The execution core: registers, status, program counter and the
/// 64 KiB byte-addressable memory it owns.
pub struct CPU {
    pub register_a: u8,
    pub register_x: u8,
    pub register_y: u8,
    pub stack_pointer: u8,
    pub status: CpuFlag,
    pub program_counter: u16,
    memory: Vec<u8>,
}

impl View for CPU {
    type V = CpuModel;

    closed spec fn view(&self) -> CpuModel {
        CpuModel {
            a: self.register_a,
            x: self.register_x,
            y: self.register_y,
            sp: self.stack_pointer,
            status: self.status.bits,
            pc: self.program_counter,
            mem: self.memory@,
        }
    }
}

impl CPU {
    /// Well-formedness: the memory spans the whole address space. Every
    /// method keeps it; the constructor establishes it.
    pub open spec fn wf(&self) -> bool {
        self@.wf()
    }

    /// A machine with cleared registers, an empty status byte, and memory
    /// holding all zeroes. Defined state comes from `reset`.
    pub fn new() -> (r: CPU)
        ensures
            r.wf(),
            r@.a == 0,
            r@.x == 0,
            r@.y == 0,
            r@.sp == 0,
            r@.status == 0,
            r@.pc == 0,
            forall|i: int| 0 <= i < MEM_SIZE ==> r@.mem[i] == 0,
    {
        let mut memory: Vec<u8> = Vec::new();
        while memory.len() < MEM_SIZE
            invariant
                memory@.len() <= MEM_SIZE,
                forall|i: int| 0 <= i < memory@.len() ==> memory@[i] == 0,
            decreases MEM_SIZE - memory@.len(),
        {
            memory.push(0);
        }
        CPU {
            register_a: 0,
            register_x: 0,
            register_y: 0,
            stack_pointer: 0,
            status: CpuFlag::empty(),
            program_counter: 0,
            memory,
        }
    }

    /// The byte at `addr`.
    pub fn mem_read(&self, addr: u16) -> (r: u8)
        requires
            self.wf(),
        ensures
            r == model::mem_read(self@, addr),
    {
        self.memory[addr as usize]
    }

    /// Replaces the byte at `addr`.
    pub fn mem_write(&mut self, addr: u16, data: u8)
        requires
            old(self).wf(),
        ensures
            final(self).wf(),
            final(self)@ == model::mem_write(old(self)@, addr, data),
    {
        self.memory[addr as usize] = data;
        proof {
            assert(self@ =~= model::mem_write(old(self)@, addr, data));
        }
    }

    /// The little-endian 16-bit value at `pos`; the high byte's address
    /// wraps around the top of the address space.
    pub fn mem_read_u16(&self, pos: u16) -> (r: u16)
        requires
            self.wf(),
        ensures
            r == model::mem_read16(self@, pos),
    {
        let lo = self.mem_read(pos);
        let hi = self.mem_read(pos.wrapping_add(1));
        (hi as u16) * 256 + (lo as u16)
    }

    /// Writes `data` at `pos` as two bytes in little-endian order.
    pub fn mem_write_u16(&mut self, pos: u16, data: u16)
        requires
            old(self).wf(),
        ensures
            final(self).wf(),
            final(self)@ == model::mem_write16(old(self)@, pos, data),
    {
        self.mem_write(pos, (data % 256) as u8);
        self.mem_write(pos.wrapping_add(1), (data / 256) as u8);
    }

    /// The effective operand address for `mode`, computed from the program
    /// counter (pointing at the first operand byte), the index registers and
    /// memory. The modes that carry no address resolve to zero; their
    /// handlers never consult the result.
    pub fn get_operand_address(&self, mode: &AddressingMode) -> (r: u16)
        requires
            self.wf(),
        ensures
            r == model::resolve(self@, *mode),
    {
        match mode {
            AddressingMode::Immediate => self.program_counter,
            AddressingMode::ZeroPage => self.mem_read(self.program_counter) as u16,
            AddressingMode::ZeroPageX => {
                let pos = self.mem_read(self.program_counter);
                pos.wrapping_add(self.register_x) as u16
            },
            AddressingMode::ZeroPageY => {
                let pos = self.mem_read(self.program_counter);
                pos.wrapping_add(self.register_y) as u16
            },
            AddressingMode::Absolute => self.mem_read_u16(self.program_counter),
            AddressingMode::AbsoluteX => {
                let base = self.mem_read_u16(self.program_counter);
                base.wrapping_add(self.register_x as u16)
            },
            AddressingMode::AbsoluteY => {
                let base = self.mem_read_u16(self.program_counter);
                base.wrapping_add(self.register_y as u16)
            },
            AddressingMode::Indirect => {
                let base = self.mem_read_u16(self.program_counter);
                if base % 256 == 0xFF {
                    let lo = self.mem_read(base);
                    let hi = self.mem_read(base / 256 * 256);
                    (hi as u16) * 256 + (lo as u16)
                } else {
                    self.mem_read_u16(base)
                }
            },
            AddressingMode::IndirectX => {
                let base = self.mem_read(self.program_counter);
                let ptr = base.wrapping_add(self.register_x);
                let lo = self.mem_read(ptr as u16);
                let hi = self.mem_read(ptr.wrapping_add(1) as u16);
                (hi as u16) * 256 + (lo as u16)
            },
            AddressingMode::IndirectY => {
                let base = self.mem_read(self.program_counter);
                let lo = self.mem_read(base as u16);
                let hi = self.mem_read(base.wrapping_add(1) as u16);
                let target = (hi as u16) * 256 + (lo as u16);
                target.wrapping_add(self.register_y as u16)
            },
            AddressingMode::Implied => 0,
            AddressingMode::Accumulator => 0,
            AddressingMode::Relative => 0,
        }
    }

    /// Pushes one byte onto the stack page and moves the stack pointer down,
    /// wrapping within the page.
    pub fn stack_push(&mut self, data: u8)
        requires
            old(self).wf(),
        ensures
            final(self).wf(),
            final(self)@ == model::stack_push(old(self)@, data),
    {
        self.mem_write(STACK + self.stack_pointer as u16, data);
        self.stack_pointer = self.stack_pointer.wrapping_sub(1);
    }

    /// Pops one byte: the stack pointer moves up, wrapping within the page,
    /// and the byte it then addresses is returned.
    pub fn stack_pop(&mut self) -> (r: u8)
        requires
            old(self).wf(),
        ensures
            final(self).wf(),
            final(self)@ == model::stack_popped(old(self)@),
            r == model::mem_read(old(self)@, model::stack_pop_addr(old(self)@)),
    {
        self.stack_pointer = self.stack_pointer.wrapping_add(1);
        self.mem_read(STACK + self.stack_pointer as u16)
    }

    /// Pushes a 16-bit value: high byte first, then low byte, so the bytes
    /// pop back in low-then-high order.
    pub fn stack_push_u16(&mut self, data: u16)
        requires
            old(self).wf(),
        ensures
            final(self).wf(),
            final(self)@ == model::stack_push16(old(self)@, data),
    {
        let hi = (data / 256) as u8;
        let lo = (data % 256) as u8;
        self.stack_push(hi);
        self.stack_push(lo);
    }

    /// Pops a 16-bit value pushed by `stack_push_u16`.
    pub fn stack_pop_u16(&mut self) -> (r: u16)
        requires
            old(self).wf(),
        ensures
            final(self).wf(),
            final(self)@ == model::stack_popped(model::stack_popped(old(self)@)),
            r == model::combine16(
                model::mem_read(old(self)@, model::stack_pop_addr(old(self)@)),
                model::mem_read(
                    old(self)@,
                    model::stack_pop_addr(model::stack_popped(old(self)@)),
                ),
            ),
    {
        let lo = self.stack_pop();
        let hi = self.stack_pop();
        (hi as u16) * 256 + (lo as u16)
    }

    /// Sets the zero flag exactly when `result` is zero and the negative
    /// flag exactly when its high bit is set; no other flag moves.
    pub fn update_zero_and_negative_flags(&mut self, result: u8)
        ensures
            final(self)@ == model::with_status(old(self)@, model::update_zn(
                old(self)@.status,
                result,
            )),
    {
        if result == 0 {
            self.status.insert(ZERO);
        } else {
            self.status.remove(ZERO);
        }
        if result >= 0x80 {
            self.status.insert(NEGATIVE);
        } else {
            self.status.remove(NEGATIVE);
        }
    }

    /// Transfer of the accumulator to the X register.
    pub fn tax(&mut self)
        ensures
            final(self)@ == model::op_tax(old(self)@),
    {
        self.register_x = self.register_a;
        self.update_zero_and_negative_flags(self.register_x);
    }

    /// Increment of the X register, wrapping over eight bits.
    pub fn inx(&mut self)
        ensures
            final(self)@ == model::op_inx(old(self)@),
    {
        self.register_x = self.register_x.wrapping_add(1);
        self.update_zero_and_negative_flags(self.register_x);
    }

    /// Increment of the Y register, wrapping over eight bits.
    pub fn iny(&mut self)
        ensures
            final(self)@ == model::op_iny(old(self)@),
    {
        self.register_y = self.register_y.wrapping_add(1);
        self.update_zero_and_negative_flags(self.register_y);
    }

    /// Decrement of the X register, wrapping over eight bits.
    pub fn dex(&mut self)
        ensures
            final(self)@ == model::op_dex(old(self)@),
    {
        self.register_x = self.register_x.wrapping_sub(1);
        self.update_zero_and_negative_flags(self.register_x);
    }

    /// Decrement of the Y register, wrapping over eight bits.
    pub fn dey(&mut self)
        ensures
            final(self)@ == model::op_dey(old(self)@),
    {
        self.register_y = self.register_y.wrapping_sub(1);
        self.update_zero_and_negative_flags(self.register_y);
    }

    /// Load of the accumulator from the operand.
    pub fn lda(&mut self, mode: &AddressingMode)
        requires
            old(self).wf(),
        ensures
            final(self).wf(),
            final(self)@ == model::op_lda(old(self)@, *mode),
    {
        let addr = self.get_operand_address(mode);
        let value = self.mem_read(addr);
        self.register_a = value;
        self.update_zero_and_negative_flags(value);
    }

    /// Load of the X register from the operand.
    pub fn ldx(&mut self, mode: &AddressingMode)
        requires
            old(self).wf(),
        ensures
            final(self).wf(),
            final(self)@ == model::op_ldx(old(self)@, *mode),
    {
        let addr = self.get_operand_address(mode);
        let value = self.mem_read(addr);
        self.register_x = value;
        self.update_zero_and_negative_flags(value);
    }

    /// Load of the Y register from the operand.
    pub fn ldy(&mut self, mode: &AddressingMode)
        requires
            old(self).wf(),
        ensures
            final(self).wf(),
            final(self)@ == model::op_ldy(old(self)@, *mode),
    {
        let addr = self.get_operand_address(mode);
        let value = self.mem_read(addr);
        self.register_y = value;
        self.update_zero_and_negative_flags(value);
    }

    /// Bitwise AND of the operand into the accumulator.
    pub fn and(&mut self, mode: &AddressingMode)
        requires
            old(self).wf(),
        ensures
            final(self).wf(),
            final(self)@ == model::op_and(old(self)@, *mode),
    {
        let addr = self.get_operand_address(mode);
        let value = self.mem_read(addr);
        self.register_a = self.register_a & value;
        self.update_zero_and_negative_flags(self.register_a);
    }

    /// Bitwise exclusive OR of the operand into the accumulator.
    pub fn eor(&mut self, mode: &AddressingMode)
        requires
            old(self).wf(),
        ensures
            final(self).wf(),
            final(self)@ == model::op_eor(old(self)@, *mode),
    {
        let addr = self.get_operand_address(mode);
        let value = self.mem_read(addr);
        self.register_a = self.register_a ^ value;
        self.update_zero_and_negative_flags(self.register_a);
    }

    /// Bitwise OR of the operand into the accumulator.
    pub fn ora(&mut self, mode: &AddressingMode)
        requires
            old(self).wf(),
        ensures
            final(self).wf(),
            final(self)@ == model::op_ora(old(self)@, *mode),
    {
        let addr = self.get_operand_address(mode);
        let value = self.mem_read(addr);
        self.register_a = self.register_a | value;
        self.update_zero_and_negative_flags(self.register_a);
    }

    /// Adds `data` and the incoming carry to the accumulator: the carry
    /// flag receives the ninth bit of the sum, the overflow flag the
    /// signed-overflow condition. Zero and negative are the caller's to
    /// update. Decimal mode is unsupported and the decimal flag ignored,
    /// matching hardware that disables it.
    pub fn add_to_register_a(&mut self, data: u8)
        ensures
            final(self)@ == model::add_with_carry(old(self)@, data),
    {
        let carry_flag = self.status.contains(CARRY);
        let carry_amount: u16 = if carry_flag {
            1
        } else {
            0
        };
        let sum: u16 = self.register_a as u16 + data as u16 + carry_amount;
        if sum > 0xFF {
            self.status.insert(CARRY);
        } else {
            self.status.remove(CARRY);
        }
        let result = (sum % 256) as u8;
        let overflow = ((self.register_a >= 0x80) == (data >= 0x80)) && ((result >= 0x80) != (
        self.register_a >= 0x80));
        if overflow {
            self.status.insert(OVERFLOW);
        } else {
            self.status.remove(OVERFLOW);
        }
        self.register_a = result;
    }

    /// Add-with-carry of the operand into the accumulator, updating carry,
    /// overflow, zero and negative.
    pub fn adc(&mut self, mode: &AddressingMode)
        requires
            old(self).wf(),
        ensures
            final(self).wf(),
            final(self)@ == model::op_adc(old(self)@, *mode),
    {
        let addr = self.get_operand_address(mode);
        let value = self.mem_read(addr);
        self.add_to_register_a(value);
        let result = self.register_a;
        self.update_zero_and_negative_flags(result);
    }

    /// Arithmetic shift left of the accumulator or of a memory byte. The
    /// carry flag receives the bit shifted out; zero and negative are
    /// updated only in the memory case. Returns the shifted value.
    pub fn asl(&mut self, mode: &AddressingMode) -> (r: u8)
        requires
            old(self).wf(),
        ensures
            final(self).wf(),
            final(self)@ == model::op_asl(old(self)@, *mode),
            *mode == AddressingMode::Accumulator ==> r == final(self)@.a,
            *mode != AddressingMode::Accumulator ==> r == model::mem_read(
                final(self)@,
                model::resolve(old(self)@, *mode),
            ),
    {
        match mode {
            AddressingMode::Accumulator => {
                let data = self.register_a;
                if data >= 0x80 {
                    self.status.insert(CARRY);
                } else {
                    self.status.remove(CARRY);
                }
                let result = (data as u16 * 2 % 256) as u8;
                self.register_a = result;
                result
            },
            _ => {
                let addr = self.get_operand_address(mode);
                let data = self.mem_read(addr);
                if data >= 0x80 {
                    self.status.insert(CARRY);
                } else {
                    self.status.remove(CARRY);
                }
                let result = (data as u16 * 2 % 256) as u8;
                self.mem_write(addr, result);
                self.update_zero_and_negative_flags(result);
                result
            },
        }
    }

    /// Logical shift right, the mirror image of `asl`: the carry flag
    /// receives the low bit. Returns the shifted value.
    pub fn lsr(&mut self, mode: &AddressingMode) -> (r: u8)
        requires
            old(self).wf(),
        ensures
            final(self).wf(),
            final(self)@ == model::op_lsr(old(self)@, *mode),
            *mode == AddressingMode::Accumulator ==> r == final(self)@.a,
            *mode != AddressingMode::Accumulator ==> r == model::mem_read(
                final(self)@,
                model::resolve(old(self)@, *mode),
            ),
    {
        match mode {
            AddressingMode::Accumulator => {
                let data = self.register_a;
                if data % 2 == 1 {
                    self.status.insert(CARRY);
                } else {
                    self.status.remove(CARRY);
                }
                let result = data / 2;
                self.register_a = result;
                result
            },
            _ => {
                let addr = self.get_operand_address(mode);
                let data = self.mem_read(addr);
                if data % 2 == 1 {
                    self.status.insert(CARRY);
                } else {
                    self.status.remove(CARRY);
                }
                let result = data / 2;
                self.mem_write(addr, result);
                self.update_zero_and_negative_flags(result);
                result
            },
        }
    }

    /// Conditional branch on `condition`: when taken, the program counter
    /// moves past the offset byte and then by the signed offset, wrapping
    /// over 16 bits.
    pub fn branch(&mut self, condition: bool)
        requires
            old(self).wf(),
        ensures
            final(self).wf(),
            final(self)@ == model::op_branch(old(self)@, condition),
    {
        if condition {
            let offset = self.mem_read(self.program_counter);
            let relative: u16 = if offset >= 0x80 {
                offset as u16 + 0xFF00
            } else {
                offset as u16
            };
            self.program_counter = self.program_counter.wrapping_add(1).wrapping_add(relative);
        }
    }

    /// Bit test of the accumulator against the operand: zero from the AND,
    /// negative from the operand's bit 7, overflow from its bit 6. The
    /// accumulator itself is untouched.
    pub fn bit(&mut self, mode: &AddressingMode)
        requires
            old(self).wf(),
        ensures
            final(self).wf(),
            final(self)@ == model::op_bit(old(self)@, *mode),
    {
        let addr = self.get_operand_address(mode);
        let data = self.mem_read(addr);
        let and = self.register_a & data;
        if and == 0 {
            self.status.insert(ZERO);
        } else {
            self.status.remove(ZERO);
        }
        self.status.set(NEGATIVE, data >= 0x80);
        self.status.set(OVERFLOW, (data & OVERFLOW) != 0);
    }

    /// Comparison of `compare_with` against the operand: carry set exactly
    /// when no borrow is needed, zero and negative from the wrapping
    /// difference.
    pub fn compare(&mut self, mode: &AddressingMode, compare_with: u8)
        requires
            old(self).wf(),
        ensures
            final(self).wf(),
            final(self)@ == model::op_compare(old(self)@, *mode, compare_with),
    {
        let addr = self.get_operand_address(mode);
        let data = self.mem_read(addr);
        if data <= compare_with {
            self.status.insert(CARRY);
        } else {
            self.status.remove(CARRY);
        }
        self.update_zero_and_negative_flags(compare_with.wrapping_sub(data));
    }

    /// Decrement of a memory byte, returning the new value.
    pub fn dec(&mut self, mode: &AddressingMode) -> (r: u8)
        requires
            old(self).wf(),
        ensures
            final(self).wf(),
            final(self)@ == model::op_dec(old(self)@, *mode),
            r == model::mem_read(final(self)@, model::resolve(old(self)@, *mode)),
    {
        let addr = self.get_operand_address(mode);
        let data = self.mem_read(addr);
        let result = data.wrapping_sub(1);
        self.mem_write(addr, result);
        self.update_zero_and_negative_flags(result);
        result
    }

    /// Increment of a memory byte, returning the new value.
    pub fn inc(&mut self, mode: &AddressingMode) -> (r: u8)
        requires
            old(self).wf(),
        ensures
            final(self).wf(),
            final(self)@ == model::op_inc(old(self)@, *mode),
            r == model::mem_read(final(self)@, model::resolve(old(self)@, *mode)),
    {
        let addr = self.get_operand_address(mode);
        let data = self.mem_read(addr);
        let result = data.wrapping_add(1);
        self.mem_write(addr, result);
        self.update_zero_and_negative_flags(result);
        result
    }

    /// Jump: the program counter is replaced by the effective address.
    pub fn jmp(&mut self, mode: &AddressingMode)
        requires
            old(self).wf(),
        ensures
            final(self).wf(),
            final(self)@ == model::op_jmp(old(self)@, *mode),
    {
        let addr = self.get_operand_address(mode);
        self.program_counter = addr;
    }

    /// Jump to subroutine: pushes the address of the call instruction's
    /// last byte (high byte first), then jumps to the absolute target.
    pub fn jsr(&mut self)
        requires
            old(self).wf(),
        ensures
            final(self).wf(),
            final(self)@ == model::op_jsr(old(self)@),
    {
        self.stack_push_u16(self.program_counter.wrapping_add(1));
        let target = self.mem_read_u16(self.program_counter);
        self.program_counter = target;
    }

    /// Reset: registers cleared, stack pointer and status set to their
    /// reset values, program counter read from the reset vector. Memory is
    /// untouched, so resetting again changes nothing.
    pub fn reset(&mut self)
        requires
            old(self).wf(),
        ensures
            final(self).wf(),
            final(self)@ == model::reset_state(old(self)@),
    {
        self.register_a = 0;
        self.register_x = 0;
        self.register_y = 0;
        self.stack_pointer = STACK_RESET;
        self.status = CpuFlag::from_bits_truncate(STATUS_RESET);
        self.program_counter = self.mem_read_u16(RESET_VECTOR);
    }

    /// Copies the program into memory at the load address and points the
    /// reset vector at it. The vector is written after the program, so it
    /// wins where the two regions meet. The program must fit between the
    /// load address and the top of memory.
    pub fn load(&mut self, program: Vec<u8>)
        requires
            old(self).wf(),
            program@.len() <= 0x8000,
        ensures
            final(self).wf(),
            final(self)@ == model::loaded(old(self)@, program@),
    {
        let ghost m0 = self@;
        let mut i: usize = 0;
        while i < program.len()
            invariant
                self.wf(),
                m0 == old(self)@,
                program@.len() <= 0x8000,
                i <= program@.len(),
                self@.a == m0.a,
                self@.x == m0.x,
                self@.y == m0.y,
                self@.sp == m0.sp,
                self@.status == m0.status,
                self@.pc == m0.pc,
                self@.mem.len() == m0.mem.len(),
                forall|j: int|
                    LOAD_ADDR <= j < LOAD_ADDR + i ==> #[trigger] self@.mem[j] == program@[j
                        - LOAD_ADDR],
                forall|j: int|
                    0 <= j < MEM_SIZE && !(LOAD_ADDR <= j < LOAD_ADDR + i)
                        ==> #[trigger] self@.mem[j] == m0.mem[j],
            decreases program@.len() - i,
        {
            self.mem_write(LOAD_ADDR + (i as u16), program[i]);
            i = i + 1;
        }
        self.mem_write_u16(RESET_VECTOR, LOAD_ADDR);
        proof {
            assert forall|j: int| 0 <= j < m0.mem.len() implies self@.mem[j] == model::loaded(
                m0,
                program@,
            ).mem[j] by {}
            assert(self@.mem =~= model::loaded(m0, program@).mem);
            assert(self@ =~= model::loaded(m0, program@));
        }
    }

    /// One instruction: fetch, decode, execute. Returns `Ok(true)` when the
    /// fetch finds the break operation (normal completion), `Ok(false)`
    /// after a whole step, and an error when the opcode byte does not
    /// decode or decodes to an operation without a handler; the diagnostic
    /// carries the byte and the address it was fetched from.
    #[verifier::rlimit(100)]
    pub fn step(&mut self) -> (r: Result<bool, CpuError>)
        requires
            old(self).wf(),
        ensures
            final(self).wf(),
            match r {
                Ok(true) => model::at_brk(old(self)@) && final(self)@ == model::after_fetch(
                    old(self)@,
                ),
                Ok(false) => model::running(old(self)@) && final(self)@ == model::step(
                    old(self)@,
                ),
                Err(CpuError::UnrecognizedOpcode { opcode, address }) => model::unrecognized_after(
                    old(self)@,
                    0,
                    final(self)@,
                    opcode,
                    address,
                ),
                Err(CpuError::UnimplementedOperation { opcode, address }) => model::unimplemented_after(
                    old(self)@,
                    0,
                    final(self)@,
                    opcode,
                    address,
                ),
                Err(CpuError::StepLimitReached) => false,
            },
    {
        let opcode_address = self.program_counter;
        let code = self.mem_read(opcode_address);
        self.program_counter = self.program_counter.wrapping_add(1);
        proof {
            assert(self@ =~= model::after_fetch(old(self)@));
            assert(model::steps(old(self)@, 0) == old(self)@);
        }
        match lookup(code) {
            None => Err(
                CpuError::UnrecognizedOpcode { opcode: code, address: opcode_address },
            ),
            Some(instr) => {
                let ghost m1 = self@;
                let pc_baseline = self.program_counter;
                match instr.operation {
                    Operation::ADC => self.adc(&instr.mode),
                    Operation::AND => self.and(&instr.mode),
                    Operation::ASL => {
                        self.asl(&instr.mode);
                    },
                    Operation::BCC => self.branch(!self.status.contains(CARRY)),
                    Operation::BCS => self.branch(self.status.contains(CARRY)),
                    Operation::BEQ => self.branch(self.status.contains(ZERO)),
                    Operation::BIT => self.bit(&instr.mode),
                    Operation::BMI => self.branch(self.status.contains(NEGATIVE)),
                    Operation::BNE => self.branch(!self.status.contains(ZERO)),
                    Operation::BPL => self.branch(!self.status.contains(NEGATIVE)),
                    Operation::BRK => {
                        return Ok(true);
                    },
                    Operation::BVC => self.branch(!self.status.contains(OVERFLOW)),
                    Operation::BVS => self.branch(self.status.contains(OVERFLOW)),
                    Operation::CLC => self.status.remove(CARRY),
                    Operation::CLD => self.status.remove(DECIMAL),
                    Operation::CLI => self.status.remove(INTERRUPT),
                    Operation::CLV => self.status.remove(OVERFLOW),
                    Operation::CMP => self.compare(&instr.mode, self.register_a),
                    Operation::CPX => self.compare(&instr.mode, self.register_x),
                    Operation::CPY => self.compare(&instr.mode, self.register_y),
                    Operation::DEC => {
                        self.dec(&instr.mode);
                    },
                    Operation::DEX => self.dex(),
                    Operation::DEY => self.dey(),
                    Operation::EOR => self.eor(&instr.mode),
                    Operation::INC => {
                        self.inc(&instr.mode);
                    },
                    Operation::INX => self.inx(),
                    Operation::INY => self.iny(),
                    Operation::JMP => self.jmp(&instr.mode),
                    Operation::JSR => self.jsr(),
                    Operation::LDA => self.lda(&instr.mode),
                    Operation::LDX => self.ldx(&instr.mode),
                    Operation::LDY => self.ldy(&instr.mode),
                    Operation::LSR => {
                        self.lsr(&instr.mode);
                    },
                    Operation::NOP => {},
                    Operation::ORA => self.ora(&instr.mode),
                    Operation::TAX => self.tax(),
                    Operation::PHA | Operation::PHP | Operation::PLA | Operation::PLP
                        | Operation::ROL | Operation::ROR | Operation::RTI | Operation::RTS
                        | Operation::SBC | Operation::SEC | Operation::SED | Operation::SEI
                        | Operation::STA | Operation::STX | Operation::STY | Operation::TAY
                        | Operation::TSX | Operation::TXA | Operation::TXS | Operation::TYA => {
                        return Err(
                            CpuError::UnimplementedOperation {
                                opcode: code,
                                address: opcode_address,
                            },
                        );
                    },
                }
                proof {
                    assert(self@ == model::apply_operation(m1, instr.operation, instr.mode));
                }
                if pc_baseline == self.program_counter {
                    self.program_counter = self.program_counter.wrapping_add(
                        (instr.length as u16).wrapping_sub(1),
                    );
                }
                proof {
                    assert(self@ =~= model::step(old(self)@));
                }
                Ok(false)
            },
        }
    }

    /// The fetch-decode-execute loop: executes whole instructions until the
    /// break operation completes the run normally, a decode failure stops
    /// it, or the step limit is exhausted. On every outcome the final state
    /// is the model's iterated step function applied to the starting state.
    pub fn run(&mut self) -> (r: Result<(), CpuError>)
        requires
            old(self).wf(),
        ensures
            final(self).wf(),
            match r {
                Ok(()) => exists|n: nat|
                    model::halts_after(old(self)@, n, final(self)@),
                Err(CpuError::UnrecognizedOpcode { opcode, address }) => exists|n: nat|
                    model::unrecognized_after(old(self)@, n, final(self)@, opcode, address),
                Err(CpuError::UnimplementedOperation { opcode, address }) => exists|n: nat|
                    model::unimplemented_after(old(self)@, n, final(self)@, opcode, address),
                Err(CpuError::StepLimitReached) => model::trace_ok(old(self)@, STEP_LIMIT as nat)
                    && final(self)@ == model::steps(old(self)@, STEP_LIMIT as nat),
            },
    {
        let ghost m0 = self@;
        let ghost mut n: nat = 0;
        let mut fuel: u64 = STEP_LIMIT;
        loop
            invariant
                self.wf(),
                m0 == old(self)@,
                model::trace_ok(m0, n),
                self@ == model::steps(m0, n),
                n + fuel == STEP_LIMIT as nat,
            decreases fuel,
        {
            if fuel == 0 {
                return Err(CpuError::StepLimitReached);
            }
            fuel = fuel - 1;
            let ghost m_before = self@;
            match self.step() {
                Ok(true) => {
                    proof {
                        assert(model::halts_after(m0, n, self@));
                    }
                    return Ok(());
                },
                Ok(false) => {
                    proof {
                        model::lemma_trace_extend(m0, n);
                        n = n + 1;
                    }
                },
                Err(e) => {
                    proof {
                        assert(model::steps(m_before, 0) == m_before);
                        match e {
                            CpuError::UnrecognizedOpcode { opcode, address } => {
                                assert(model::unrecognized_after(m0, n, self@, opcode, address));
                            },
                            CpuError::UnimplementedOperation { opcode, address } => {
                                assert(model::unimplemented_after(m0, n, self@, opcode, address));
                            },
                            CpuError::StepLimitReached => {},
                        }
                    }
                    return Err(e);
                },
            }
        }
    }

    /// The composed entry point: load the program, reset, run to
    /// completion. The outcome is stated against the started state: the
    /// loaded memory image with the register file at its reset values.
    pub fn load_and_run(&mut self, program: Vec<u8>) -> (r: Result<(), CpuError>)
        requires
            old(self).wf(),
            program@.len() <= 0x8000,
        ensures
            final(self).wf(),
            match r {
                Ok(()) => exists|n: nat|
                    model::halts_after(
                        model::started(old(self)@, program@),
                        n,
                        final(self)@,
                    ),
                Err(CpuError::UnrecognizedOpcode { opcode, address }) => exists|n: nat|
                    model::unrecognized_after(
                        model::started(old(self)@, program@),
                        n,
                        final(self)@,
                        opcode,
                        address,
                    ),
                Err(CpuError::UnimplementedOperation { opcode, address }) => exists|n: nat|
                    model::unimplemented_after(
                        model::started(old(self)@, program@),
                        n,
                        final(self)@,
                        opcode,
                        address,
                    ),
                Err(CpuError::StepLimitReached) => model::trace_ok(
                    model::started(old(self)@, program@),
                    STEP_LIMIT as nat,
                ) && final(self)@ == model::steps(
                    model::started(old(self)@, program@),
                    STEP_LIMIT as nat,
                ),
            },
    {
        let ghost p = program@;
        self.load(program);
        self.reset();
        proof {
            assert(self@ == model::started(old(self)@, p));
        }
        self.run()
    }
}

} // verus!
