use nes_cpu::BreakCondition;
use nes_cpu::Cpu;
use nes_cpu::Diagnostic;
use nes_cpu::Memory;
use nes_cpu::TICKS_PER_SCANLINE;

fn machine(pc: u16, program: &[u8]) -> (Cpu, Memory) {
    let mut cpu = Cpu::new();
    let mut mem = Memory::new();
    cpu.pc = pc;
    let mut addr = pc;
    for &b in program {
        mem.write_byte(addr, b);
        addr = addr.wrapping_add(1);
    }
    (cpu, mem)
}

#[test]
fn branch_not_taken_costs_two_cycles() {
    let (mut cpu, mut mem) = machine(0x1000, &[0x90, 0x10]); // BCC
    cpu.carry = true;
    assert_eq!(cpu.fetch_and_execute(&mut mem), Ok(()));
    assert_eq!(cpu.pc, 0x1002);
    assert_eq!(cpu.tick_count, 2);
}

#[test]
fn branch_taken_same_page_costs_three_cycles() {
    let (mut cpu, mut mem) = machine(0x1000, &[0x90, 0x10]);
    cpu.carry = false;
    assert_eq!(cpu.fetch_and_execute(&mut mem), Ok(()));
    assert_eq!(cpu.pc, 0x1012);
    assert_eq!(cpu.tick_count, 3);
}

#[test]
fn branch_taken_cross_page_costs_four_cycles() {
    let (mut cpu, mut mem) = machine(0x10f0, &[0x90, 0x20]);
    cpu.carry = false;
    assert_eq!(cpu.fetch_and_execute(&mut mem), Ok(()));
    assert_eq!(cpu.pc, 0x1112);
    assert_eq!(cpu.tick_count, 4);
}

#[test]
fn branch_backwards_with_negative_offset() {
    let (mut cpu, mut mem) = machine(0x1000, &[0xd0, 0xf0]); // BNE, offset -16
    cpu.zero = false;
    assert_eq!(cpu.fetch_and_execute(&mut mem), Ok(()));
    assert_eq!(cpu.pc, 0x0ff2);
    assert_eq!(cpu.tick_count, 4); // crossed back into the previous page
}

#[test]
fn all_eight_branches_test_their_flag() {
    for (op, set, taken_when_set) in [
        (0x10u8, false, false), // BPL on sign
        (0x30, true, true),     // BMI
        (0x50, false, false),   // BVC on overflow
        (0x70, true, true),     // BVS
        (0x90, false, false),   // BCC on carry
        (0xb0, true, true),     // BCS
        (0xd0, false, false),   // BNE on zero
        (0xf0, true, true),     // BEQ
    ] {
        let (mut cpu, mut mem) = machine(0x1000, &[op, 0x08]);
        match op {
            0x10 | 0x30 => cpu.sign = set,
            0x50 | 0x70 => cpu.overflow = set,
            0x90 | 0xb0 => cpu.carry = set,
            _ => cpu.zero = set,
        }
        assert_eq!(cpu.fetch_and_execute(&mut mem), Ok(()));
        if taken_when_set == set {
            assert_eq!(cpu.pc, 0x100a, "opcode {op:02x} should take the branch");
        } else {
            assert_eq!(cpu.pc, 0x1002, "opcode {op:02x} should fall through");
        }
    }
}

#[test]
fn lda_immediate_then_inx_scenario() {
    let (mut cpu, mut mem) = machine(0x8000, &[0xa9, 0xff, 0xe8]);
    cpu.x = 0x00;
    assert_eq!(cpu.fetch_and_execute(&mut mem), Ok(()));
    assert_eq!(cpu.a, 0xff);
    assert!(cpu.sign);
    assert!(!cpu.zero);
    assert_eq!(cpu.pc, 0x8002);
    assert_eq!(cpu.tick_count, 2);
    assert_eq!(cpu.fetch_and_execute(&mut mem), Ok(()));
    assert_eq!(cpu.a, 0xff);
    assert_eq!(cpu.x, 0x01);
    assert!(!cpu.zero);
    assert_eq!(cpu.pc, 0x8003);
    assert_eq!(cpu.tick_count, 4);
}

#[test]
fn jsr_then_rts_returns_past_the_call() {
    let (mut cpu, mut mem) = machine(0x2000, &[0x20, 0x34, 0x12]);
    mem.write_byte(0x1234, 0x60); // RTS
    let sp0 = cpu.sp;
    assert_eq!(cpu.fetch_and_execute(&mut mem), Ok(()));
    assert_eq!(cpu.pc, 0x1234);
    assert_eq!(cpu.sp, sp0.wrapping_sub(2));
    assert_eq!(cpu.tick_count, 6);
    assert_eq!(cpu.fetch_and_execute(&mut mem), Ok(()));
    assert_eq!(cpu.pc, 0x2003);
    assert_eq!(cpu.sp, sp0);
    assert_eq!(cpu.tick_count, 12);
}

#[test]
fn brk_vectors_through_fffe_and_stacks_three_bytes() {
    let (mut cpu, mut mem) = machine(0x2000, &[0x00]);
    mem.write_byte(0xfffe, 0x00);
    mem.write_byte(0xffff, 0x90);
    assert_eq!(cpu.fetch_and_execute(&mut mem), Ok(()));
    assert_eq!(cpu.pc, 0x9000);
    assert!(cpu.brk);
    assert!(cpu.interrupt);
    assert_eq!(cpu.tick_count, 7);
    assert_eq!(cpu.sp, 0xfc);
    // status pushed last: pulled first, with the break bit set
    let status = cpu.pull_u8(&mem);
    assert_eq!(status & 0x10, 0x10);
    // then the saved return address, the break instruction plus two
    let ret = cpu.pull_u16(&mem);
    assert_eq!(ret, 0x2002);
    assert_eq!(cpu.sp, 0xff);
}

#[test]
fn rti_restores_status_and_program_counter() {
    let (mut cpu, mut mem) = machine(0x2000, &[0x00, 0x32]);
    mem.write_byte(0xfffe, 0x00);
    mem.write_byte(0xffff, 0x90);
    mem.write_byte(0x9000, 0x40); // RTI at the interrupt handler
    cpu.carry = true;
    assert_eq!(cpu.fetch_and_execute(&mut mem), Ok(()));
    assert_eq!(cpu.pc, 0x9000);
    assert_eq!(cpu.fetch_and_execute(&mut mem), Ok(()));
    assert_eq!(cpu.pc, 0x2002); // pulled verbatim, no +1
    assert!(cpu.carry);
    assert!(cpu.brk); // break bit was set in the pushed status
    assert_eq!(cpu.sp, 0xff);
}

#[test]
fn jmp_absolute_and_indirect() {
    let (mut cpu, mut mem) = machine(0x8000, &[0x4c, 0x00, 0x90]);
    assert_eq!(cpu.fetch_and_execute(&mut mem), Ok(()));
    assert_eq!(cpu.pc, 0x9000);
    assert_eq!(cpu.tick_count, 3);

    let (mut cpu, mut mem) = machine(0x8000, &[0x6c, 0x00, 0x30]);
    mem.write_byte(0x3000, 0x78);
    mem.write_byte(0x3001, 0x56);
    assert_eq!(cpu.fetch_and_execute(&mut mem), Ok(()));
    assert_eq!(cpu.pc, 0x5678);
    assert_eq!(cpu.tick_count, 5);
}

#[test]
fn pha_pla_round_trip_and_flags() {
    let (mut cpu, mut mem) = machine(0x8000, &[0x48, 0xa9, 0x01, 0x68]);
    cpu.a = 0x80;
    assert_eq!(cpu.fetch_and_execute(&mut mem), Ok(())); // PHA
    assert_eq!(cpu.fetch_and_execute(&mut mem), Ok(())); // LDA #1
    assert_eq!(cpu.a, 0x01);
    assert_eq!(cpu.fetch_and_execute(&mut mem), Ok(())); // PLA
    assert_eq!(cpu.a, 0x80);
    assert!(cpu.sign);
    assert_eq!(cpu.tick_count, 2 + 3 + 4);
}

#[test]
fn php_plp_round_trip_preserves_flags() {
    let (mut cpu, mut mem) = machine(0x8000, &[0x08, 0x38, 0x28]); // PHP SEC PLP
    cpu.sign = true;
    cpu.carry = false;
    cpu.decimal = true;
    assert_eq!(cpu.fetch_and_execute(&mut mem), Ok(()));
    assert_eq!(cpu.fetch_and_execute(&mut mem), Ok(()));
    assert!(cpu.carry);
    assert_eq!(cpu.fetch_and_execute(&mut mem), Ok(()));
    assert!(cpu.sign);
    assert!(!cpu.carry);
    assert!(cpu.decimal);
}

#[test]
fn unsupported_opcode_reports_and_advances_nothing() {
    let (mut cpu, mut mem) = machine(0x8000, &[0x02]);
    let r = cpu.fetch_and_execute(&mut mem);
    assert_eq!(r, Err(Diagnostic::UnsupportedOpcode(0x02)));
    assert_eq!(cpu.pc, 0x8000);
    assert_eq!(cpu.tick_count, 0);
    assert_eq!(cpu.current_opcode, 0x02);
}

#[test]
fn run_next_executes_exactly_one_instruction() {
    let (mut cpu, mut mem) = machine(0x8000, &[0xa9, 0xff, 0xe8]);
    let r = cpu.run_until_condition(&mut mem, &BreakCondition::RunNext);
    assert_eq!(r, Ok(true));
    assert_eq!(cpu.pc, 0x8002);
    assert_eq!(cpu.tick_count, 2);
}

#[test]
fn run_to_pc_stops_at_the_target() {
    let (mut cpu, mut mem) = machine(0x8000, &[0x32, 0x32, 0x32, 0x32]);
    let r = cpu.run_until_condition(&mut mem, &BreakCondition::RunToPc(0x8002));
    assert_eq!(r, Ok(true));
    assert_eq!(cpu.pc, 0x8002);
    assert_eq!(cpu.tick_count, 2);
}

#[test]
fn run_to_scanline_stops_when_budget_is_reached() {
    let (mut cpu, mut mem) = machine(0x8000, &[0x4c, 0x00, 0x80]); // jump to self
    let r = cpu.run_until_condition(&mut mem, &BreakCondition::RunToScanline);
    assert_eq!(r, Ok(true));
    assert!(cpu.tick_count >= TICKS_PER_SCANLINE);
}

#[test]
fn run_frame_never_satisfies_its_condition() {
    let (mut cpu, mut mem) = machine(0x8000, &[0x4c, 0x00, 0x80]);
    let r = cpu.run_until_condition(&mut mem, &BreakCondition::RunFrame);
    assert_eq!(r, Ok(false));
    assert!(cpu.tick_count >= TICKS_PER_SCANLINE);
}

#[test]
fn run_surfaces_an_unsupported_opcode() {
    let (mut cpu, mut mem) = machine(0x8000, &[0x32, 0x02]);
    let r = cpu.run_until_condition(&mut mem, &BreakCondition::RunFrame);
    assert_eq!(r, Err(Diagnostic::UnsupportedOpcode(0x02)));
    assert_eq!(cpu.pc, 0x8001);
    assert_eq!(cpu.tick_count, 1); // only the one-byte instruction before it ran
}

#[test]
fn run_with_spent_budget_returns_false_immediately() {
    let (mut cpu, mut mem) = machine(0x8000, &[0x32]);
    cpu.tick_count = TICKS_PER_SCANLINE;
    let r = cpu.run_until_condition(&mut mem, &BreakCondition::RunToScanline);
    assert_eq!(r, Ok(false));
    assert_eq!(cpu.pc, 0x8000);
    assert_eq!(cpu.tick_count, TICKS_PER_SCANLINE);
}

#[test]
fn asl_memory_with_page_cross_charges_penalty() {
    // the absolute-X shift reads with the page check on: 7 base + 1 cross
    let (mut cpu, mut mem) = machine(0x8000, &[0x1e, 0xf0, 0x12]);
    mem.write_byte(0x1310, 0x01);
    cpu.x = 0x20;
    assert_eq!(cpu.fetch_and_execute(&mut mem), Ok(()));
    assert_eq!(mem.read_byte(0x1310), 0x02);
    assert_eq!(cpu.tick_count, 8);
}

#[test]
fn rol_absolute_x_charges_no_page_penalty() {
    let (mut cpu, mut mem) = machine(0x8000, &[0x3e, 0xf0, 0x12]);
    mem.write_byte(0x1310, 0x01);
    cpu.x = 0x20;
    assert_eq!(cpu.fetch_and_execute(&mut mem), Ok(()));
    assert_eq!(mem.read_byte(0x1310), 0x02);
    assert_eq!(cpu.tick_count, 7);
}

#[test]
fn jmp_indirect_pointer_at_page_end_reads_linearly() {
    // the indirect jump goes through a plain little-endian word read, so a
    // pointer at 0x30ff takes its high byte from 0x3100
    let (mut cpu, mut mem) = machine(0x8000, &[0x6c, 0xff, 0x30]);
    mem.write_byte(0x30ff, 0x00);
    mem.write_byte(0x3100, 0x40);
    mem.write_byte(0x3000, 0x99);
    assert_eq!(cpu.fetch_and_execute(&mut mem), Ok(()));
    assert_eq!(cpu.pc, 0x4000);
}

#[test]
fn lda_indirect_x_wraps_the_pointer_within_page_zero() {
    let (mut cpu, mut mem) = machine(0x8000, &[0xa1, 0xf0]);
    mem.write_byte(0x0010, 0x00);
    mem.write_byte(0x0011, 0x22); // pointer 0x2200
    mem.write_byte(0x2200, 0x66);
    cpu.x = 0x20;
    assert_eq!(cpu.fetch_and_execute(&mut mem), Ok(()));
    assert_eq!(cpu.a, 0x66);
    assert_eq!(cpu.tick_count, 6);
}

#[test]
fn ora_absolute_y_page_cross_costs_five_cycles() {
    let (mut cpu, mut mem) = machine(0x8000, &[0x19, 0xff, 0x20]);
    mem.write_byte(0x2100, 0x80);
    cpu.a = 0x01;
    cpu.y = 0x01;
    assert_eq!(cpu.fetch_and_execute(&mut mem), Ok(()));
    assert_eq!(cpu.a, 0x81);
    assert_eq!(cpu.tick_count, 5);
}
