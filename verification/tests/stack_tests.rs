use nes_cpu::Cpu;
use nes_cpu::Memory;

#[test]
fn stack_word_round_trip() {
    let mut cpu = Cpu::new();
    let mut mem = Memory::new();
    cpu.sp = 0x80;
    cpu.push_u16(&mut mem, 0xbeef);
    assert_eq!(cpu.sp, 0x7e);
    let word = cpu.pull_u16(&mem);
    assert_eq!(word, 0xbeef);
    assert_eq!(cpu.sp, 0x80);
}

#[test]
fn stack_word_round_trip_at_page_edge() {
    let mut cpu = Cpu::new();
    let mut mem = Memory::new();
    cpu.sp = 0x00;
    cpu.push_u16(&mut mem, 0x1234);
    assert_eq!(cpu.sp, 0xfe);
    let word = cpu.pull_u16(&mem);
    assert_eq!(word, 0x1234);
    assert_eq!(cpu.sp, 0x00);
}

#[test]
fn stack_pointer_wraps_on_push() {
    let mut cpu = Cpu::new();
    let mut mem = Memory::new();
    cpu.sp = 0x00;
    cpu.push_u8(&mut mem, 0x42);
    assert_eq!(cpu.sp, 0xff);
    assert_eq!(mem.read_byte(0x0100), 0x42);
}

#[test]
fn stack_pointer_wraps_on_pull() {
    let mut cpu = Cpu::new();
    let mut mem = Memory::new();
    mem.write_byte(0x0100, 0x7a);
    cpu.sp = 0xff;
    let v = cpu.pull_u8(&mem);
    assert_eq!(cpu.sp, 0x00);
    assert_eq!(v, 0x7a);
}

#[test]
fn push_writes_into_stack_page_and_word_order() {
    let mut cpu = Cpu::new();
    let mut mem = Memory::new();
    cpu.sp = 0xff;
    cpu.push_u16(&mut mem, 0xa1b2);
    // high byte pushed first, so it sits at the higher address
    assert_eq!(mem.read_byte(0x01ff), 0xa1);
    assert_eq!(mem.read_byte(0x01fe), 0xb2);
}

#[test]
fn status_push_and_pull_round_trip() {
    let mut cpu = Cpu::new();
    let mut mem = Memory::new();
    cpu.sign = true;
    cpu.carry = true;
    cpu.decimal = true;
    cpu.overflow = false;
    cpu.zero = false;
    cpu.interrupt = false;
    cpu.brk = false;
    cpu.push_status(&mut mem);
    assert_eq!(mem.read_byte(0x01ff), 0x80 + 0x08 + 0x01);
    cpu.sign = false;
    cpu.carry = false;
    cpu.decimal = false;
    cpu.zero = true;
    cpu.pull_status(&mem);
    assert!(cpu.sign);
    assert!(cpu.carry);
    assert!(cpu.decimal);
    assert!(!cpu.overflow);
    assert!(!cpu.zero);
    assert!(!cpu.interrupt);
    assert!(!cpu.brk);
}

#[test]
fn memory_read_word_is_little_endian() {
    let mut mem = Memory::new();
    mem.write_byte(0x0300, 0xcd);
    mem.write_byte(0x0301, 0xab);
    assert_eq!(mem.read_word(0x0300), 0xabcd);
}

#[test]
fn memory_read_word_wraps_at_address_space_end() {
    let mut mem = Memory::new();
    mem.write_byte(0xffff, 0x34);
    mem.write_byte(0x0000, 0x12);
    assert_eq!(mem.read_word(0xffff), 0x1234);
}

#[test]
fn make_address_combines_low_then_high() {
    assert_eq!(nes_cpu::arith::make_address(0xcd, 0xab), 0xabcd);
    assert_eq!(nes_cpu::arith::make_address(0x00, 0x00), 0x0000);
    assert_eq!(nes_cpu::arith::make_address(0xff, 0xff), 0xffff);
}

#[test]
fn reset_loads_program_counter_from_reset_vector() {
    let mut cpu = Cpu::new();
    let mut mem = Memory::new();
    mem.write_byte(0xfffc, 0x34);
    mem.write_byte(0xfffd, 0x12);
    let a = cpu.a;
    cpu.reset(&mem);
    assert_eq!(cpu.pc, 0x1234);
    assert_eq!(cpu.a, a);
    assert_eq!(cpu.tick_count, 0);
}

#[test]
fn new_cpu_starts_at_reset_placeholder() {
    let cpu = Cpu::new();
    assert_eq!(cpu.a, 0);
    assert_eq!(cpu.x, 0);
    assert_eq!(cpu.y, 0);
    assert_eq!(cpu.sp, 0xff);
    assert_eq!(cpu.pc, 0xfffc);
    assert_eq!(cpu.tick_count, 0);
    assert!(!cpu.carry && !cpu.zero && !cpu.interrupt && !cpu.decimal);
    assert!(!cpu.brk && !cpu.overflow && !cpu.sign);
    assert!(!cpu.is_debugging);
}

#[test]
fn trace_line_of_fresh_cpu() {
    let cpu = Cpu::new();
    let line = String::from_utf8(cpu.trace_line()).unwrap();
    assert_eq!(line, "{opcode:00 a:00 x:00 y:00 sp:ff pc:fffc flags:------} tick: 0");
}

#[test]
fn trace_line_renders_flags_and_decimal_tick() {
    let mut cpu = Cpu::new();
    cpu.current_opcode = 0x4c;
    cpu.a = 0xab;
    cpu.x = 0x0f;
    cpu.y = 0x80;
    cpu.sp = 0xf3;
    cpu.pc = 0xc123;
    cpu.sign = true;
    cpu.carry = true;
    cpu.tick_count = 12345;
    let line = String::from_utf8(cpu.trace_line()).unwrap();
    assert_eq!(line, "{opcode:4c a:ab x:0f y:80 sp:f3 pc:c123 flags:N-C---} tick: 12345");
}
