use nes_cpu::Cpu;
use nes_cpu::Diagnostic;
use nes_cpu::Memory;

fn machine(pc: u16, program: &[u8]) -> (Cpu, Memory) {
    let mut cpu = Cpu::new();
    let mut mem = Memory::new();
    cpu.pc = pc;
    let mut addr = pc;
    for &b in program {
        mem.write_byte(addr, b);
        addr = addr.wrapping_add(1);
    }
    (cpu, mem)
}

#[test]
fn adc_immediate_sets_carry_overflow_zero_on_wrap() {
    let (mut cpu, mut mem) = machine(0x8000, &[0x69, 0x01]);
    cpu.a = 0xff;
    assert_eq!(cpu.fetch_and_execute(&mut mem), Ok(()));
    assert_eq!(cpu.a, 0x00);
    assert!(cpu.carry);
    assert!(cpu.overflow);
    assert!(cpu.zero);
    assert!(!cpu.sign);
    assert_eq!(cpu.tick_count, 2);
    assert_eq!(cpu.pc, 0x8002);
}

#[test]
fn adc_adds_incoming_carry() {
    let (mut cpu, mut mem) = machine(0x8000, &[0x69, 0x0f]);
    cpu.a = 0x10;
    cpu.carry = true;
    assert_eq!(cpu.fetch_and_execute(&mut mem), Ok(()));
    assert_eq!(cpu.a, 0x20);
    assert!(!cpu.carry);
    assert!(!cpu.overflow);
    assert!(!cpu.zero);
    assert!(!cpu.sign);
}

#[test]
fn adc_sign_follows_truncated_result() {
    let (mut cpu, mut mem) = machine(0x8000, &[0x69, 0x50]);
    cpu.a = 0x50;
    assert_eq!(cpu.fetch_and_execute(&mut mem), Ok(()));
    assert_eq!(cpu.a, 0xa0);
    assert!(cpu.sign);
    assert!(!cpu.carry);
    assert!(!cpu.overflow);
}

#[test]
fn sbc_with_carry_set_subtracts_exactly() {
    let (mut cpu, mut mem) = machine(0x8000, &[0xe9, 0x01]);
    cpu.a = 0x10;
    cpu.carry = true;
    assert_eq!(cpu.fetch_and_execute(&mut mem), Ok(()));
    assert_eq!(cpu.a, 0x0f);
    assert!(cpu.carry);
    assert!(!cpu.overflow);
    assert!(!cpu.zero);
    assert!(!cpu.sign);
}

#[test]
fn sbc_with_carry_clear_subtracts_one_more() {
    let (mut cpu, mut mem) = machine(0x8000, &[0xe9, 0x01]);
    cpu.a = 0x10;
    cpu.carry = false;
    assert_eq!(cpu.fetch_and_execute(&mut mem), Ok(()));
    assert_eq!(cpu.a, 0x0e);
    assert!(cpu.carry);
}

#[test]
fn sbc_borrow_clears_carry_and_sets_overflow() {
    let (mut cpu, mut mem) = machine(0x8000, &[0xe9, 0x01]);
    cpu.a = 0x00;
    cpu.carry = true;
    assert_eq!(cpu.fetch_and_execute(&mut mem), Ok(()));
    assert_eq!(cpu.a, 0xff);
    assert!(!cpu.carry);
    assert!(cpu.overflow);
    assert!(cpu.sign);
    assert!(!cpu.zero);
}

#[test]
fn and_or_eor_update_accumulator_and_flags() {
    let (mut cpu, mut mem) = machine(0x8000, &[0x29, 0x0f]);
    cpu.a = 0xf0;
    assert_eq!(cpu.fetch_and_execute(&mut mem), Ok(()));
    assert_eq!(cpu.a, 0x00);
    assert!(cpu.zero);
    assert!(!cpu.sign);

    let (mut cpu, mut mem) = machine(0x8000, &[0x09, 0x80]);
    cpu.a = 0x01;
    assert_eq!(cpu.fetch_and_execute(&mut mem), Ok(()));
    assert_eq!(cpu.a, 0x81);
    assert!(cpu.sign);
    assert!(!cpu.zero);

    let (mut cpu, mut mem) = machine(0x8000, &[0x49, 0xff]);
    cpu.a = 0x0f;
    assert_eq!(cpu.fetch_and_execute(&mut mem), Ok(()));
    assert_eq!(cpu.a, 0xf0);
    assert!(cpu.sign);
}

#[test]
fn bit_test_sets_zero_sign_overflow_from_operand() {
    let (mut cpu, mut mem) = machine(0x8000, &[0x24, 0x10]);
    mem.write_byte(0x0010, 0xc0);
    cpu.a = 0x3f;
    assert_eq!(cpu.fetch_and_execute(&mut mem), Ok(()));
    assert!(cpu.zero); // 0x3f & 0xc0 == 0
    assert!(cpu.sign); // bit 7 of operand
    assert!(cpu.overflow); // bit 6 of operand
    assert_eq!(cpu.tick_count, 3);
}

#[test]
fn cmp_compares_without_changing_accumulator() {
    let (mut cpu, mut mem) = machine(0x8000, &[0xc9, 0x20]);
    cpu.a = 0x10;
    assert_eq!(cpu.fetch_and_execute(&mut mem), Ok(()));
    assert_eq!(cpu.a, 0x10);
    assert!(!cpu.carry);
    assert!(!cpu.zero);
    assert!(cpu.sign); // 0x10 - 0x20 = 0xf0

    let (mut cpu, mut mem) = machine(0x8000, &[0xc9, 0x10]);
    cpu.a = 0x10;
    assert_eq!(cpu.fetch_and_execute(&mut mem), Ok(()));
    assert!(cpu.carry);
    assert!(cpu.zero);
    assert!(!cpu.sign);
}

#[test]
fn cpx_and_cpy_compare_index_registers() {
    let (mut cpu, mut mem) = machine(0x8000, &[0xe0, 0x05]);
    cpu.x = 0x06;
    assert_eq!(cpu.fetch_and_execute(&mut mem), Ok(()));
    assert!(cpu.carry);
    assert!(!cpu.zero);

    let (mut cpu, mut mem) = machine(0x8000, &[0xc0, 0x05]);
    cpu.y = 0x05;
    assert_eq!(cpu.fetch_and_execute(&mut mem), Ok(()));
    assert!(cpu.carry);
    assert!(cpu.zero);
}

#[test]
fn lda_absolute_x_page_cross_costs_one_extra_cycle() {
    let (mut cpu, mut mem) = machine(0x8000, &[0xbd, 0xf0, 0x12]);
    mem.write_byte(0x1310, 0x42);
    cpu.x = 0x20;
    assert_eq!(cpu.fetch_and_execute(&mut mem), Ok(()));
    assert_eq!(cpu.a, 0x42);
    assert_eq!(cpu.tick_count, 5); // 4 base + 1 page-cross
    assert_eq!(cpu.pc, 0x8003);
}

#[test]
fn lda_absolute_x_same_page_costs_base_cycles() {
    let (mut cpu, mut mem) = machine(0x8000, &[0xbd, 0xf0, 0x12]);
    mem.write_byte(0x12f1, 0x37);
    cpu.x = 0x01;
    assert_eq!(cpu.fetch_and_execute(&mut mem), Ok(()));
    assert_eq!(cpu.a, 0x37);
    assert_eq!(cpu.tick_count, 4);
}

#[test]
fn lda_indirect_y_page_cross_costs_one_extra_cycle() {
    let (mut cpu, mut mem) = machine(0x8000, &[0xb1, 0x40]);
    mem.write_byte(0x0040, 0xf8);
    mem.write_byte(0x0041, 0x20); // pointer 0x20f8
    mem.write_byte(0x2108, 0x55);
    cpu.y = 0x10;
    assert_eq!(cpu.fetch_and_execute(&mut mem), Ok(()));
    assert_eq!(cpu.a, 0x55);
    assert_eq!(cpu.tick_count, 6); // 5 base + 1 page-cross
}

#[test]
fn lda_zero_page_x_wraps_within_page_zero() {
    let (mut cpu, mut mem) = machine(0x8000, &[0xb5, 0xf0]);
    mem.write_byte(0x0010, 0x99);
    cpu.x = 0x20;
    assert_eq!(cpu.fetch_and_execute(&mut mem), Ok(()));
    assert_eq!(cpu.a, 0x99);
    assert_eq!(cpu.tick_count, 4);
}

#[test]
fn ldx_zero_page_y_and_ldy_immediate() {
    let (mut cpu, mut mem) = machine(0x8000, &[0xb6, 0x20]);
    mem.write_byte(0x0025, 0x80);
    cpu.y = 0x05;
    assert_eq!(cpu.fetch_and_execute(&mut mem), Ok(()));
    assert_eq!(cpu.x, 0x80);
    assert!(cpu.sign);

    let (mut cpu, mut mem) = machine(0x8000, &[0xa0, 0x00]);
    cpu.y = 0x33;
    assert_eq!(cpu.fetch_and_execute(&mut mem), Ok(()));
    assert_eq!(cpu.y, 0x00);
    assert!(cpu.zero);
}

#[test]
fn inc_memory_wraps_to_zero_and_leaves_carry() {
    let (mut cpu, mut mem) = machine(0x8000, &[0xe6, 0x10]);
    mem.write_byte(0x0010, 0xff);
    cpu.carry = true;
    assert_eq!(cpu.fetch_and_execute(&mut mem), Ok(()));
    assert_eq!(mem.read_byte(0x0010), 0x00);
    assert!(cpu.zero);
    assert!(!cpu.sign);
    assert!(cpu.carry); // carry never touched
    assert_eq!(cpu.tick_count, 5);
}

#[test]
fn dec_memory_wraps_to_ff_and_leaves_carry() {
    let (mut cpu, mut mem) = machine(0x8000, &[0xc6, 0x10]);
    mem.write_byte(0x0010, 0x00);
    assert_eq!(cpu.fetch_and_execute(&mut mem), Ok(()));
    assert_eq!(mem.read_byte(0x0010), 0xff);
    assert!(!cpu.zero);
    assert!(cpu.sign);
    assert!(!cpu.carry);
}

#[test]
fn inx_wraps_and_dex_wraps() {
    let mut cpu = Cpu::new();
    cpu.x = 0xff;
    cpu.carry = true;
    cpu.inx();
    assert_eq!(cpu.x, 0x00);
    assert!(cpu.zero);
    assert!(!cpu.sign);
    assert!(cpu.carry);

    let mut cpu = Cpu::new();
    cpu.x = 0x00;
    cpu.dex();
    assert_eq!(cpu.x, 0xff);
    assert!(!cpu.zero);
    assert!(cpu.sign);
    assert!(!cpu.carry);
}

#[test]
fn iny_and_dey_wrap_the_same_way() {
    let mut cpu = Cpu::new();
    cpu.y = 0xff;
    cpu.iny();
    assert_eq!(cpu.y, 0x00);
    assert!(cpu.zero);

    let mut cpu = Cpu::new();
    cpu.y = 0x00;
    cpu.dey();
    assert_eq!(cpu.y, 0xff);
    assert!(cpu.sign);
}

#[test]
fn asl_shifts_into_carry() {
    let (mut cpu, mut mem) = machine(0x8000, &[0x0a]);
    cpu.a = 0xc1;
    assert_eq!(cpu.fetch_and_execute(&mut mem), Ok(()));
    assert_eq!(cpu.a, 0x82);
    assert!(cpu.carry);
    assert!(cpu.sign);
    assert_eq!(cpu.tick_count, 2);
    assert_eq!(cpu.pc, 0x8001);
}

#[test]
fn lsr_takes_carry_from_operand_bit_zero() {
    // a memory operand with bit 0 set carries out even though the
    // accumulator's bit 0 is clear
    let (mut cpu, mut mem) = machine(0x8000, &[0x46, 0x10]);
    mem.write_byte(0x0010, 0x05);
    cpu.a = 0x00;
    assert_eq!(cpu.fetch_and_execute(&mut mem), Ok(()));
    assert_eq!(mem.read_byte(0x0010), 0x02);
    assert!(cpu.carry);

    // and an even memory operand does not, whatever the accumulator holds
    let (mut cpu, mut mem) = machine(0x8000, &[0x46, 0x10]);
    mem.write_byte(0x0010, 0x04);
    cpu.a = 0x01;
    assert_eq!(cpu.fetch_and_execute(&mut mem), Ok(()));
    assert_eq!(mem.read_byte(0x0010), 0x02);
    assert!(!cpu.carry);
}

#[test]
fn lsr_accumulator_shifts_and_carries() {
    let (mut cpu, mut mem) = machine(0x8000, &[0x4a]);
    cpu.a = 0x03;
    assert_eq!(cpu.fetch_and_execute(&mut mem), Ok(()));
    assert_eq!(cpu.a, 0x01);
    assert!(cpu.carry);
    assert!(!cpu.sign);
}

#[test]
fn rol_inserts_carry_at_bit_zero() {
    let (mut cpu, mut mem) = machine(0x8000, &[0x2a]);
    cpu.a = 0x80;
    cpu.carry = true;
    assert_eq!(cpu.fetch_and_execute(&mut mem), Ok(()));
    assert_eq!(cpu.a, 0x01);
    assert!(cpu.carry); // old bit 7
    assert!(!cpu.zero);
}

#[test]
fn ror_inserts_carry_at_bit_seven() {
    let (mut cpu, mut mem) = machine(0x8000, &[0x6a]);
    cpu.a = 0x03;
    cpu.carry = true;
    assert_eq!(cpu.fetch_and_execute(&mut mem), Ok(()));
    assert_eq!(cpu.a, 0x81);
    assert!(cpu.carry); // old bit 0
    assert!(cpu.sign);
}

#[test]
fn sta_variants_write_the_accumulator() {
    let (mut cpu, mut mem) = machine(0x8000, &[0x85, 0x10]);
    cpu.a = 0x5a;
    assert_eq!(cpu.fetch_and_execute(&mut mem), Ok(()));
    assert_eq!(mem.read_byte(0x0010), 0x5a);
    assert_eq!(cpu.tick_count, 3);

    let (mut cpu, mut mem) = machine(0x8000, &[0x9d, 0xf0, 0x12]);
    cpu.a = 0x77;
    cpu.x = 0x20;
    assert_eq!(cpu.fetch_and_execute(&mut mem), Ok(()));
    assert_eq!(mem.read_byte(0x1310), 0x77);
    assert_eq!(cpu.tick_count, 5); // stores charge no page-cross penalty

    let (mut cpu, mut mem) = machine(0x8000, &[0x91, 0x40]);
    mem.write_byte(0x0040, 0x00);
    mem.write_byte(0x0041, 0x30); // pointer 0x3000
    cpu.a = 0x11;
    cpu.y = 0x02;
    assert_eq!(cpu.fetch_and_execute(&mut mem), Ok(()));
    assert_eq!(mem.read_byte(0x3002), 0x11);
    assert_eq!(cpu.tick_count, 6);
}

#[test]
fn stx_and_sty_write_their_registers() {
    let (mut cpu, mut mem) = machine(0x8000, &[0x96, 0x20]);
    cpu.x = 0xaa;
    cpu.y = 0x05;
    assert_eq!(cpu.fetch_and_execute(&mut mem), Ok(()));
    assert_eq!(mem.read_byte(0x0025), 0xaa);

    let (mut cpu, mut mem) = machine(0x8000, &[0x8c, 0x00, 0x40]);
    cpu.y = 0xbb;
    assert_eq!(cpu.fetch_and_execute(&mut mem), Ok(()));
    assert_eq!(mem.read_byte(0x4000), 0xbb);
}

#[test]
fn transfers_move_registers_and_set_flags() {
    let mut cpu = Cpu::new();
    cpu.a = 0x80;
    cpu.tax();
    assert_eq!(cpu.x, 0x80);
    assert!(cpu.sign);

    let mut cpu = Cpu::new();
    cpu.a = 0x00;
    cpu.tay();
    assert_eq!(cpu.y, 0x00);
    assert!(cpu.zero);

    let mut cpu = Cpu::new();
    cpu.sp = 0x12;
    cpu.tsx();
    assert_eq!(cpu.x, 0x12);

    let mut cpu = Cpu::new();
    cpu.x = 0x34;
    cpu.txa();
    assert_eq!(cpu.a, 0x34);

    let mut cpu = Cpu::new();
    cpu.y = 0x56;
    cpu.tya();
    assert_eq!(cpu.a, 0x56);
}

#[test]
fn txs_sets_stack_pointer_without_touching_flags() {
    let mut cpu = Cpu::new();
    cpu.x = 0x00;
    cpu.zero = false;
    cpu.sign = true;
    cpu.txs();
    assert_eq!(cpu.sp, 0x00);
    assert!(!cpu.zero);
    assert!(cpu.sign);
}

#[test]
fn flag_set_and_clear_instructions() {
    let mut cpu = Cpu::new();
    cpu.sec();
    assert!(cpu.carry);
    cpu.sed();
    assert!(cpu.decimal);
    cpu.sei();
    assert!(cpu.interrupt);
    cpu.clc();
    assert!(!cpu.carry);
    cpu.cld();
    assert!(!cpu.decimal);
    cpu.cli();
    assert!(!cpu.interrupt);
    cpu.overflow = true;
    cpu.clv();
    assert!(!cpu.overflow);
    assert_eq!(cpu.tick_count, 14);
}

#[test]
fn nop_advances_one_byte_and_one_cycle() {
    let (mut cpu, mut mem) = machine(0x8000, &[0x32]);
    assert_eq!(cpu.fetch_and_execute(&mut mem), Ok(()));
    assert_eq!(cpu.pc, 0x8001);
    assert_eq!(cpu.tick_count, 1);
}

#[test]
fn handler_reports_internal_inconsistency_for_foreign_opcode() {
    let mut cpu = Cpu::new();
    let mem = Memory::new();
    cpu.pc = 0x8000;
    cpu.tick_count = 0;
    cpu.current_opcode = 0x02;
    let r = cpu.adc(&mem);
    assert_eq!(r, Err(Diagnostic::InternalDispatchInconsistency(0x02)));
    assert_eq!(cpu.pc, 0x8000);
    assert_eq!(cpu.tick_count, 0);
}
