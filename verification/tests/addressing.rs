use nes6502::addr::Addr6502;
use nes6502::cpu::CPU;

fn boot_at(pc: u16) -> CPU {
    let mut cpu = CPU::new();
    cpu.pc = pc;
    cpu
}

#[test]
fn imm_uses_the_instruction_stream() {
    let mut cpu = boot_at(0x0200);
    let crossed = cpu.imm();
    assert!(!crossed);
    assert_eq!(cpu.eff_addr, 0x0200);
    assert_eq!(cpu.pc, 0x0201);
}

#[test]
fn zero_masks_into_page_zero() {
    let mut cpu = boot_at(0x0200);
    cpu.write(0x0200, 0x42);
    let crossed = cpu.zero();
    assert!(!crossed);
    assert_eq!(cpu.eff_addr, 0x0042);
    assert_eq!(cpu.pc, 0x0201);
}

#[test]
fn zero_x_wraps_within_page_zero() {
    // base 0xFF with X = 0x01 wraps to 0x0000, never 0x0100
    let mut cpu = boot_at(0x0200);
    cpu.write(0x0200, 0xFF);
    cpu.x = 0x01;
    let crossed = cpu.zero_x();
    assert!(!crossed);
    assert_eq!(cpu.eff_addr, 0x0000);
}

#[test]
fn zero_y_wraps_within_page_zero() {
    let mut cpu = boot_at(0x0200);
    cpu.write(0x0200, 0x10);
    cpu.y = 0x05;
    assert!(!cpu.zero_y());
    assert_eq!(cpu.eff_addr, 0x0015);

    let mut wrap = boot_at(0x0200);
    wrap.write(0x0200, 0xF0);
    wrap.y = 0x20;
    wrap.zero_y();
    assert_eq!(wrap.eff_addr, 0x0010);
}

#[test]
fn abs_reads_little_endian_word() {
    let mut cpu = boot_at(0x0200);
    cpu.write(0x0200, 0x34);
    cpu.write(0x0201, 0x12);
    let crossed = cpu.abs();
    assert!(!crossed);
    assert_eq!(cpu.eff_addr, 0x1234);
    assert_eq!(cpu.pc, 0x0202);
}

#[test]
fn abs_x_reports_page_crossing() {
    // base 0x20FF with X = 0x01 lands at 0x2100 on the next page
    let mut cpu = boot_at(0x0200);
    cpu.write(0x0200, 0xFF);
    cpu.write(0x0201, 0x20);
    cpu.x = 0x01;
    let crossed = cpu.abs_x();
    assert!(crossed);
    assert_eq!(cpu.eff_addr, 0x2100);

    let mut same = boot_at(0x0200);
    same.write(0x0200, 0x00);
    same.write(0x0201, 0x20);
    same.x = 0x01;
    assert!(!same.abs_x());
    assert_eq!(same.eff_addr, 0x2001);
}

#[test]
fn abs_y_reports_page_crossing() {
    let mut cpu = boot_at(0x0200);
    cpu.write(0x0200, 0x80);
    cpu.write(0x0201, 0x30);
    cpu.y = 0x90;
    let crossed = cpu.abs_y();
    assert!(crossed);
    assert_eq!(cpu.eff_addr, 0x3110);
}

#[test]
fn ind_follows_the_pointer() {
    let mut cpu = boot_at(0x0200);
    cpu.write(0x0200, 0x10);
    cpu.write(0x0201, 0x30);
    cpu.write(0x3010, 0x34);
    cpu.write(0x3011, 0x12);
    let crossed = cpu.ind();
    assert!(!crossed);
    assert_eq!(cpu.eff_addr, 0x1234);
}

#[test]
fn ind_reproduces_the_page_wrap_defect() {
    // pointer 0x30FF: the high target byte comes from 0x3000, not 0x3100
    let mut cpu = boot_at(0x0200);
    cpu.write(0x0200, 0xFF);
    cpu.write(0x0201, 0x30);
    cpu.write(0x30FF, 0x00);
    cpu.write(0x3000, 0x40);
    cpu.write(0x3100, 0x99);
    cpu.ind();
    assert_eq!(cpu.eff_addr, 0x4000);
}

#[test]
fn ind_x_wraps_both_pointer_bytes_in_page_zero() {
    let mut cpu = boot_at(0x0200);
    cpu.write(0x0200, 0xFE);
    cpu.x = 0x03;
    cpu.write(0x0001, 0x78);
    cpu.write(0x0002, 0x56);
    let crossed = cpu.ind_x();
    assert!(!crossed);
    assert_eq!(cpu.eff_addr, 0x5678);
}

#[test]
fn ind_y_wraps_pointer_and_reports_crossing() {
    // pointer at 0xFF: its high byte comes from 0x0000, wrapped in page 0
    let mut cpu = boot_at(0x0200);
    cpu.write(0x0200, 0xFF);
    cpu.write(0x00FF, 0xFF);
    cpu.write(0x0000, 0x20);
    cpu.y = 0x01;
    let crossed = cpu.ind_y();
    assert!(crossed);
    assert_eq!(cpu.eff_addr, 0x2100);

    let mut same = boot_at(0x0200);
    same.write(0x0200, 0x40);
    same.write(0x0040, 0x10);
    same.write(0x0041, 0x30);
    same.y = 0x05;
    assert!(!same.ind_y());
    assert_eq!(same.eff_addr, 0x3015);
}

#[test]
fn rel_sign_extends_the_offset() {
    let mut fwd = boot_at(0x0200);
    fwd.write(0x0200, 0x7F);
    assert!(!fwd.rel());
    assert_eq!(fwd.pc, 0x0201);
    assert_eq!(fwd.eff_addr, 0x0280);

    let mut back = boot_at(0x0200);
    back.write(0x0200, 0x80);
    back.rel();
    assert_eq!(back.eff_addr, 0x0181);

    let mut minus_two = boot_at(0x0200);
    minus_two.write(0x0200, 0xFE);
    minus_two.rel();
    assert_eq!(minus_two.eff_addr, 0x01FF);
}

#[test]
fn ram_is_mirrored_through_0x1fff() {
    let mut cpu = CPU::new();
    cpu.write(0x0000, 9);
    assert_eq!(cpu.read(0x0800), 9);
    assert_eq!(cpu.read(0x1000), 9);
    assert_eq!(cpu.read(0x1800), 9);
    cpu.write(0x1FFF, 7);
    assert_eq!(cpu.read(0x07FF), 7);
    cpu.write(0x2000, 5);
    assert_eq!(cpu.read(0x2000), 5);
    assert_eq!(cpu.read(0x0000), 9);
}
