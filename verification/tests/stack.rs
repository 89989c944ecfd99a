use nes6502::cpu::{CpuFlags, CPU};

fn program_at(pc: u16, bytes: &[u8]) -> CPU {
    let mut cpu = CPU::new();
    cpu.pc = pc;
    let mut addr = pc;
    for &b in bytes {
        cpu.write(addr, b);
        addr += 1;
    }
    cpu
}

#[test]
fn push_and_pull_round_trip() {
    let mut cpu = CPU::new();
    cpu.sp = 0xFD;
    cpu.push(0x42);
    assert_eq!(cpu.sp, 0xFC);
    assert_eq!(cpu.read(0x01FD), 0x42);
    let v = cpu.pull();
    assert_eq!(v, 0x42);
    assert_eq!(cpu.sp, 0xFD);
}

#[test]
fn eight_pushes_wrap_the_stack_pointer_within_page_one() {
    // from SP = 0x01, eight pushes wrap to 0xF9 and every byte stays
    // inside 0x0100-0x01FF
    let mut cpu = CPU::new();
    cpu.sp = 0x01;
    for i in 0..8u8 {
        cpu.push(0xA0 + i);
    }
    assert_eq!(cpu.sp, 0xF9);
    assert_eq!(cpu.read(0x0101), 0xA0);
    assert_eq!(cpu.read(0x0100), 0xA1);
    assert_eq!(cpu.read(0x01FF), 0xA2);
    assert_eq!(cpu.read(0x01FE), 0xA3);
    assert_eq!(cpu.read(0x01FB), 0xA6);
    assert_eq!(cpu.read(0x01FA), 0xA7);
}

#[test]
fn pha_and_pla_move_the_accumulator() {
    let mut cpu = program_at(0x0200, &[0x48, 0xA9, 0x00, 0x68]);
    cpu.acc = 0x80;
    cpu.execute(); // PHA
    assert_eq!(cpu.read(0x01FD), 0x80);
    assert_eq!(cpu.sp, 0xFC);
    assert_eq!(cpu.cycles, 3);
    cpu.execute(); // LDA #0
    assert_eq!(cpu.acc, 0x00);
    cpu.execute(); // PLA
    assert_eq!(cpu.acc, 0x80);
    assert_eq!(cpu.sp, 0xFD);
    assert!(cpu.flags.negative && !cpu.flags.zero);
    assert_eq!(cpu.cycles, 4);
}

#[test]
fn php_pushes_break_and_unused_set_and_plp_masks_them() {
    // status 0x00, PHP, status 0xFF, PLP: the pushed image carries
    // Break and Unused set; the restored register has both forced to 0
    let mut cpu = program_at(0x0200, &[0x08, 0x28]);
    cpu.flags = CpuFlags::from_byte(0x00);
    cpu.execute(); // PHP
    assert_eq!(cpu.read(0x01FD), 0x30);
    cpu.flags = CpuFlags::from_byte(0xFF);
    cpu.execute(); // PLP
    assert_eq!(cpu.flags.to_byte(), 0x00);
    assert!(!cpu.flags.brk && !cpu.flags.ignored);
}

#[test]
fn plp_keeps_the_other_six_flags_from_the_stack() {
    let mut cpu = program_at(0x0200, &[0x28]);
    cpu.sp = 0xFC;
    cpu.write(0x01FD, 0xFF);
    cpu.execute(); // PLP
    assert_eq!(cpu.flags.to_byte(), 0xCF);
    assert!(cpu.flags.negative && cpu.flags.overflow && cpu.flags.decimal);
    assert!(cpu.flags.interrupt && cpu.flags.zero && cpu.flags.carry);
    assert!(!cpu.flags.brk && !cpu.flags.ignored);
}

#[test]
fn jsr_and_rts_round_trip() {
    let mut cpu = program_at(0x0200, &[0x20, 0x00, 0x03]);
    cpu.write(0x0300, 0x60); // RTS at the subroutine
    cpu.execute(); // JSR 0x0300
    assert_eq!(cpu.pc, 0x0300);
    assert_eq!(cpu.cycles, 6);
    // the return address 0x0202 sits on the stack, high byte first
    assert_eq!(cpu.read(0x01FD), 0x02);
    assert_eq!(cpu.read(0x01FC), 0x02);
    assert_eq!(cpu.sp, 0xFB);
    cpu.execute(); // RTS
    assert_eq!(cpu.pc, 0x0203);
    assert_eq!(cpu.sp, 0xFD);
    assert_eq!(cpu.cycles, 6);
}

#[test]
fn brk_pushes_state_and_jumps_through_the_irq_vector() {
    let mut cpu = program_at(0x0200, &[0x00]);
    cpu.flags = CpuFlags::from_byte(0x20);
    cpu.write(0xFFFE, 0x34);
    cpu.write(0xFFFF, 0x12);
    cpu.execute(); // BRK
    assert_eq!(cpu.pc, 0x1234);
    assert_eq!(cpu.cycles, 7);
    // return address 0x0202 (past the padding byte), then the status
    // image with Break, Unused and InterruptDisable set
    assert_eq!(cpu.read(0x01FD), 0x02);
    assert_eq!(cpu.read(0x01FC), 0x02);
    assert_eq!(cpu.read(0x01FB), 0x34);
    assert_eq!(cpu.sp, 0xFA);
    assert!(cpu.flags.interrupt);
    assert!(!cpu.flags.brk);
}

#[test]
fn rti_restores_flags_and_program_counter() {
    let mut cpu = program_at(0x0200, &[0x00]);
    cpu.flags = CpuFlags::from_byte(0x81);
    cpu.write(0xFFFE, 0x00);
    cpu.write(0xFFFF, 0x40);
    cpu.write(0x4000, 0x40); // RTI at the handler
    cpu.execute(); // BRK
    assert_eq!(cpu.pc, 0x4000);
    cpu.execute(); // RTI
    assert_eq!(cpu.pc, 0x0202);
    assert_eq!(cpu.sp, 0xFD);
    // the pushed image had N, C, I, B and U set; Break and Unused are
    // masked on restore
    assert_eq!(cpu.flags.to_byte(), 0x85);
}

#[test]
fn txs_and_tsx_move_the_stack_pointer() {
    let mut txs = program_at(0x0200, &[0x9A]);
    txs.x = 0x80;
    txs.flags = CpuFlags::from_byte(0x00);
    txs.execute();
    assert_eq!(txs.sp, 0x80);
    // TXS touches no flags
    assert_eq!(txs.flags.to_byte(), 0x00);

    let mut tsx = program_at(0x0200, &[0xBA]);
    tsx.sp = 0x00;
    tsx.execute();
    assert_eq!(tsx.x, 0x00);
    assert!(tsx.flags.zero);
}

#[test]
fn reset_loads_the_reset_vector_and_defaults() {
    let mut cpu = CPU::new();
    cpu.write(0xFFFC, 0x00);
    cpu.write(0xFFFD, 0x80);
    cpu.acc = 0x55;
    cpu.x = 0x66;
    cpu.y = 0x77;
    cpu.sp = 0x10;
    cpu.reset();
    assert_eq!(cpu.pc, 0x8000);
    assert_eq!(cpu.sp, 0xFD);
    assert_eq!((cpu.acc, cpu.x, cpu.y), (0, 0, 0));
    assert_eq!(cpu.flags.to_byte(), 0x24);
    assert_eq!(cpu.cycles, 8);
}

#[test]
fn irq_is_masked_while_interrupt_disable_is_set() {
    let mut cpu = CPU::new();
    cpu.pc = 0x1234;
    cpu.flags.interrupt = true;
    let sp = cpu.sp;
    cpu.irq();
    assert_eq!(cpu.pc, 0x1234);
    assert_eq!(cpu.sp, sp);
}

#[test]
fn irq_enters_through_its_vector_when_enabled() {
    let mut cpu = CPU::new();
    cpu.pc = 0x1234;
    cpu.flags = CpuFlags::from_byte(0x00);
    cpu.write(0xFFFE, 0x00);
    cpu.write(0xFFFF, 0x90);
    cpu.irq();
    assert_eq!(cpu.pc, 0x9000);
    assert_eq!(cpu.read(0x01FD), 0x12);
    assert_eq!(cpu.read(0x01FC), 0x34);
    // hardware pushes carry Break clear and Unused set, with the
    // just-set InterruptDisable
    assert_eq!(cpu.read(0x01FB), 0x24);
    assert!(cpu.flags.interrupt);
    assert_eq!(cpu.cycles, 7);
}

#[test]
fn nmi_is_never_masked() {
    let mut cpu = CPU::new();
    cpu.pc = 0xABCD;
    cpu.flags.interrupt = true;
    cpu.write(0xFFFA, 0x00);
    cpu.write(0xFFFB, 0xA0);
    cpu.nmi();
    assert_eq!(cpu.pc, 0xA000);
    assert_eq!(cpu.read(0x01FD), 0xAB);
    assert_eq!(cpu.read(0x01FC), 0xCD);
    assert_eq!(cpu.cycles, 8);
}
