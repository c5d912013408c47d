use mos6502::cpu::CPU;
use mos6502::cpu_types::CpuError;
use mos6502::cpu_types::{CARRY, ZERO, OVERFLOW, NEGATIVE};

#[test]
fn test_update_zn_zero_result() {
    let mut cpu = CPU::new();
    cpu.status.insert(0xFF);
    cpu.update_zero_and_negative_flags(0);
    assert_eq!(cpu.status.bits() & ZERO, ZERO);
    assert_eq!(cpu.status.bits() & NEGATIVE, 0);
    // every other flag keeps the value it had
    assert_eq!(cpu.status.bits() & !(ZERO | NEGATIVE), 0xFF & !(ZERO | NEGATIVE));
}

#[test]
fn test_update_zn_negative_result() {
    let mut cpu = CPU::new();
    cpu.update_zero_and_negative_flags(0x80);
    assert_eq!(cpu.status.bits() & ZERO, 0);
    assert_eq!(cpu.status.bits() & NEGATIVE, NEGATIVE);
    assert_eq!(cpu.status.bits() & !(ZERO | NEGATIVE), 0);
}

#[test]
fn test_update_zn_plain_result() {
    let mut cpu = CPU::new();
    cpu.status.insert(ZERO | NEGATIVE);
    cpu.update_zero_and_negative_flags(5);
    assert_eq!(cpu.status.bits() & ZERO, 0);
    assert_eq!(cpu.status.bits() & NEGATIVE, 0);
}

#[test]
fn test_indirect_jump_page_wrap() {
    // jmp ($10FF): the pointer's low byte is 0xFF, so the target's high
    // byte must come from 0x1000 (the start of the pointer's page), never
    // from 0x1100.
    let mut cpu = CPU::new();
    cpu.load(vec![0x6c, 0xff, 0x10]);
    cpu.reset();
    cpu.mem_write(0x10FF, 0x34); // target low byte
    cpu.mem_write(0x1000, 0x12); // target high byte, same page
    cpu.mem_write(0x1100, 0x55); // next page: must not be consulted
    cpu.mem_write(0x1234, 0x00); // break at the true target
    cpu.run().unwrap();
    assert_eq!(cpu.program_counter, 0x1235);
}

#[test]
fn test_adc_overflow_set_on_boundary_pair() {
    let mut cpu = CPU::new();
    cpu.load_and_run(vec![0xa9, 0x50, 0x69, 0x50, 0x00]).unwrap();
    assert_eq!(cpu.register_a, 0xa0);
    assert_eq!(cpu.status.bits() & OVERFLOW, OVERFLOW);
    assert_eq!(cpu.status.bits() & NEGATIVE, NEGATIVE);
    assert_eq!(cpu.status.bits() & CARRY, 0);
}

#[test]
fn test_adc_overflow_clear() {
    let mut cpu = CPU::new();
    cpu.load_and_run(vec![0xa9, 0x50, 0x69, 0x10, 0x00]).unwrap();
    assert_eq!(cpu.register_a, 0x60);
    assert_eq!(cpu.status.bits() & OVERFLOW, 0);
}

#[test]
fn test_adc_carry_out_and_zero() {
    let mut cpu = CPU::new();
    cpu.load_and_run(vec![0xa9, 0xff, 0x69, 0x01, 0x00]).unwrap();
    assert_eq!(cpu.register_a, 0x00);
    assert_eq!(cpu.status.bits() & CARRY, CARRY);
    assert_eq!(cpu.status.bits() & ZERO, ZERO);
    assert_eq!(cpu.status.bits() & OVERFLOW, 0);
}

#[test]
fn test_reset_twice_equals_reset_once() {
    let mut cpu = CPU::new();
    cpu.load(vec![0xa9, 0x05, 0x00]);
    cpu.reset();
    let a = cpu.register_a;
    let x = cpu.register_x;
    let y = cpu.register_y;
    let sp = cpu.stack_pointer;
    let status = cpu.status.bits();
    let pc = cpu.program_counter;
    cpu.reset();
    assert_eq!(cpu.register_a, a);
    assert_eq!(cpu.register_x, x);
    assert_eq!(cpu.register_y, y);
    assert_eq!(cpu.stack_pointer, sp);
    assert_eq!(cpu.status.bits(), status);
    assert_eq!(cpu.program_counter, pc);
}

#[test]
fn test_reset_values() {
    let mut cpu = CPU::new();
    cpu.load(vec![0xa9, 0x05, 0x00]);
    cpu.reset();
    assert_eq!(cpu.register_a, 0);
    assert_eq!(cpu.register_x, 0);
    assert_eq!(cpu.register_y, 0);
    assert_eq!(cpu.stack_pointer, 0xfd);
    assert_eq!(cpu.status.bits(), 0b0010_0100);
    assert_eq!(cpu.program_counter, 0x8000);
}

#[test]
fn test_unrecognized_opcode_is_reported() {
    let mut cpu = CPU::new();
    let r = cpu.load_and_run(vec![0x02]);
    assert_eq!(r, Err(CpuError::UnrecognizedOpcode { opcode: 0x02, address: 0x8000 }));
}

#[test]
fn test_bne_countdown_loop() {
    // lda #3; tax; dex; bne -3 (back to dex); brk
    let mut cpu = CPU::new();
    cpu.load_and_run(vec![0xa9, 0x03, 0xaa, 0xca, 0xd0, 0xfd, 0x00]).unwrap();
    assert_eq!(cpu.register_x, 0);
    assert_eq!(cpu.status.bits() & ZERO, ZERO);
}

#[test]
fn test_cmp_sets_carry_when_no_borrow() {
    let mut cpu = CPU::new();
    cpu.load_and_run(vec![0xa9, 0x05, 0xc9, 0x03, 0x00]).unwrap();
    assert_eq!(cpu.register_a, 0x05);
    assert_eq!(cpu.status.bits() & CARRY, CARRY);
    assert_eq!(cpu.status.bits() & ZERO, 0);
}

#[test]
fn test_cmp_clears_carry_on_borrow() {
    let mut cpu = CPU::new();
    cpu.load_and_run(vec![0xa9, 0x05, 0xc9, 0x06, 0x00]).unwrap();
    assert_eq!(cpu.status.bits() & CARRY, 0);
    assert_eq!(cpu.status.bits() & NEGATIVE, NEGATIVE);
}

#[test]
fn test_asl_accumulator_carries_high_bit() {
    let mut cpu = CPU::new();
    cpu.load_and_run(vec![0xa9, 0x81, 0x0a, 0x00]).unwrap();
    assert_eq!(cpu.register_a, 0x02);
    assert_eq!(cpu.status.bits() & CARRY, CARRY);
    // accumulator-mode shifts leave zero/negative as the load set them
    assert_eq!(cpu.status.bits() & NEGATIVE, NEGATIVE);
}

#[test]
fn test_asl_memory_updates_flags() {
    let mut cpu = CPU::new();
    cpu.load(vec![0x06, 0x10, 0x00]);
    cpu.reset();
    cpu.mem_write(0x10, 0xc0);
    cpu.run().unwrap();
    assert_eq!(cpu.mem_read(0x10), 0x80);
    assert_eq!(cpu.status.bits() & CARRY, CARRY);
    assert_eq!(cpu.status.bits() & NEGATIVE, NEGATIVE);
}

#[test]
fn test_lsr_carries_low_bit() {
    let mut cpu = CPU::new();
    cpu.load_and_run(vec![0xa9, 0x01, 0x4a, 0x00]).unwrap();
    assert_eq!(cpu.register_a, 0x00);
    assert_eq!(cpu.status.bits() & CARRY, CARRY);
}

#[test]
fn test_inc_memory_wraps_to_zero() {
    let mut cpu = CPU::new();
    cpu.load(vec![0xe6, 0x10, 0x00]);
    cpu.reset();
    cpu.mem_write(0x10, 0xff);
    cpu.run().unwrap();
    assert_eq!(cpu.mem_read(0x10), 0x00);
    assert_eq!(cpu.status.bits() & ZERO, ZERO);
}

#[test]
fn test_jsr_pushes_return_address() {
    // jsr $8004 over a skipped filler byte, landing on a break
    let mut cpu = CPU::new();
    cpu.load_and_run(vec![0x20, 0x04, 0x80, 0xff, 0x00]).unwrap();
    assert_eq!(cpu.program_counter, 0x8005);
    assert_eq!(cpu.stack_pointer, 0xfb);
    assert_eq!(cpu.mem_read(0x01fd), 0x80); // high byte pushed first
    assert_eq!(cpu.mem_read(0x01fc), 0x02); // then the low byte
}

#[test]
fn test_ldx_and_ldy_immediate() {
    let mut cpu = CPU::new();
    cpu.load_and_run(vec![0xa2, 0x07, 0xa0, 0x09, 0x00]).unwrap();
    assert_eq!(cpu.register_x, 0x07);
    assert_eq!(cpu.register_y, 0x09);
}

#[test]
fn test_and_eor_ora_results() {
    let mut cpu = CPU::new();
    cpu.load_and_run(vec![0xa9, 0xaa, 0x29, 0xcc, 0x00]).unwrap();
    assert_eq!(cpu.register_a, 0x88);
    assert_eq!(cpu.status.bits() & NEGATIVE, NEGATIVE);

    let mut cpu = CPU::new();
    cpu.load_and_run(vec![0xa9, 0xaa, 0x49, 0xff, 0x00]).unwrap();
    assert_eq!(cpu.register_a, 0x55);
    assert_eq!(cpu.status.bits() & NEGATIVE, 0);

    let mut cpu = CPU::new();
    cpu.load_and_run(vec![0xa9, 0xa0, 0x09, 0x0a, 0x00]).unwrap();
    assert_eq!(cpu.register_a, 0xaa);
    assert_eq!(cpu.status.bits() & NEGATIVE, NEGATIVE);
}

#[test]
fn test_bit_flags_from_operand() {
    let mut cpu = CPU::new();
    cpu.load(vec![0xa9, 0xff, 0x24, 0x10, 0x00]);
    cpu.reset();
    cpu.mem_write(0x10, 0xc0);
    cpu.run().unwrap();
    assert_eq!(cpu.register_a, 0xff); // accumulator untouched
    assert_eq!(cpu.status.bits() & ZERO, 0);
    assert_eq!(cpu.status.bits() & NEGATIVE, NEGATIVE);
    assert_eq!(cpu.status.bits() & OVERFLOW, OVERFLOW);
}

#[test]
fn test_zero_page_x_wraps_within_page_zero() {
    // ldx #1; lda $FF,X resolves to $00, not $100
    let mut cpu = CPU::new();
    cpu.load(vec![0xa2, 0x01, 0xb5, 0xff, 0x00]);
    cpu.reset();
    cpu.mem_write(0x0000, 0x42);
    cpu.mem_write(0x0100, 0x99);
    cpu.run().unwrap();
    assert_eq!(cpu.register_a, 0x42);
}

#[test]
fn test_lda_absolute() {
    let mut cpu = CPU::new();
    cpu.load(vec![0xad, 0x34, 0x12, 0x00]);
    cpu.reset();
    cpu.mem_write(0x1234, 0x7f);
    cpu.run().unwrap();
    assert_eq!(cpu.register_a, 0x7f);
}

#[test]
fn test_lda_absolute_x_indexed() {
    let mut cpu = CPU::new();
    cpu.load(vec![0xa2, 0x02, 0xbd, 0x30, 0x12, 0x00]);
    cpu.reset();
    cpu.mem_write(0x1232, 0x11);
    cpu.run().unwrap();
    assert_eq!(cpu.register_a, 0x11);
}

#[test]
fn test_lda_indirect_x() {
    // ldx #4; lda ($20,X): the pointer sits at $24/$25
    let mut cpu = CPU::new();
    cpu.load(vec![0xa2, 0x04, 0xa1, 0x20, 0x00]);
    cpu.reset();
    cpu.mem_write(0x0024, 0x74);
    cpu.mem_write(0x0025, 0x20);
    cpu.mem_write(0x2074, 0x99);
    cpu.run().unwrap();
    assert_eq!(cpu.register_a, 0x99);
}

#[test]
fn test_lda_indirect_y() {
    // ldy #$10; lda ($40),Y: base from $40/$41, then Y added
    let mut cpu = CPU::new();
    cpu.load(vec![0xa0, 0x10, 0xb1, 0x40, 0x00]);
    cpu.reset();
    cpu.mem_write(0x0040, 0x00);
    cpu.mem_write(0x0041, 0x30);
    cpu.mem_write(0x3010, 0x55);
    cpu.run().unwrap();
    assert_eq!(cpu.register_a, 0x55);
}

#[test]
fn test_branch_not_taken_falls_through() {
    // carry is clear after reset, so bcs does not branch
    let mut cpu = CPU::new();
    cpu.load_and_run(vec![0xb0, 0x02, 0xa9, 0x07, 0x00]).unwrap();
    assert_eq!(cpu.register_a, 0x07);
}

#[test]
fn test_jmp_absolute() {
    let mut cpu = CPU::new();
    cpu.load_and_run(vec![0x4c, 0x05, 0x80, 0xff, 0xff, 0x00]).unwrap();
    assert_eq!(cpu.program_counter, 0x8006);
}

#[test]
fn test_dey_reaches_zero() {
    let mut cpu = CPU::new();
    cpu.load_and_run(vec![0xa0, 0x01, 0x88, 0x00]).unwrap();
    assert_eq!(cpu.register_y, 0);
    assert_eq!(cpu.status.bits() & ZERO, ZERO);
}

#[test]
fn test_clear_flag_operations() {
    // sum with carry out, then clc; clv
    let mut cpu = CPU::new();
    cpu.load_and_run(vec![0xa9, 0xff, 0x69, 0x01, 0x18, 0xb8, 0x00]).unwrap();
    assert_eq!(cpu.status.bits() & CARRY, 0);
    assert_eq!(cpu.status.bits() & OVERFLOW, 0);
}
