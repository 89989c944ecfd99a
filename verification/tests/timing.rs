use nes6502::cpu::CPU;

fn program_at(pc: u16, bytes: &[u8]) -> CPU {
    let mut cpu = CPU::new();
    cpu.pc = pc;
    let mut addr = pc;
    for &b in bytes {
        cpu.write(addr, b);
        addr += 1;
    }
    cpu
}

#[test]
fn page_cross_charges_eligible_instructions() {
    // ORA abs,X crossing from 0x20FF to 0x2100: base 4 cycles plus 1
    let mut ora = program_at(0x0200, &[0x1D, 0xFF, 0x20]);
    ora.x = 0x01;
    ora.write(0x2100, 0x01);
    ora.execute();
    assert_eq!(ora.acc, 0x01);
    assert_eq!(ora.cycles, 5);

    // the same access without a crossing stays at the base cost
    let mut same = program_at(0x0200, &[0x1D, 0x00, 0x20]);
    same.x = 0x01;
    same.execute();
    assert_eq!(same.cycles, 4);
}

#[test]
fn page_cross_never_charges_stores() {
    // STA abs,X crossing a page: the table already charges the worst
    // case of 5 cycles, and no extra cycle is added
    let mut sta = program_at(0x0200, &[0x9D, 0xFF, 0x20]);
    sta.x = 0x01;
    sta.acc = 0x42;
    sta.execute();
    assert_eq!(sta.read(0x2100), 0x42);
    assert_eq!(sta.cycles, 5);
}

#[test]
fn lda_indirect_indexed_page_cross_timing() {
    let mut cpu = program_at(0x0200, &[0xB1, 0x20]);
    cpu.write(0x0020, 0xFF);
    cpu.write(0x0021, 0x20);
    cpu.y = 0x01;
    cpu.write(0x2100, 0x33);
    cpu.execute();
    assert_eq!(cpu.acc, 0x33);
    assert_eq!(cpu.cycles, 6);
}

#[test]
fn branch_taken_same_page_costs_one_extra() {
    // BEQ with Z set to a same-page target: base 2 plus 1
    let mut cpu = program_at(0x0200, &[0xF0, 0x10]);
    cpu.flags.zero = true;
    cpu.execute();
    assert_eq!(cpu.pc, 0x0212);
    assert_eq!(cpu.cycles, 3);
}

#[test]
fn branch_taken_cross_page_costs_two_extra() {
    // BEQ with Z set to a target on another page: base 2 plus 2
    let mut cpu = program_at(0x02F0, &[0xF0, 0x20]);
    cpu.flags.zero = true;
    cpu.execute();
    assert_eq!(cpu.pc, 0x0312);
    assert_eq!(cpu.cycles, 4);
}

#[test]
fn branch_not_taken_costs_base_and_falls_through() {
    let mut cpu = program_at(0x0200, &[0xF0, 0x10]);
    cpu.flags.zero = false;
    cpu.execute();
    assert_eq!(cpu.pc, 0x0202);
    assert_eq!(cpu.cycles, 2);
}

#[test]
fn branch_backward_crossing_costs_two_extra() {
    // BNE backward across a page boundary
    let mut cpu = program_at(0x0300, &[0xD0, 0xFB]);
    cpu.flags.zero = false;
    cpu.execute();
    assert_eq!(cpu.pc, 0x02FD);
    assert_eq!(cpu.cycles, 4);
}

#[test]
fn each_branch_tests_its_own_flag() {
    let cases: [(u8, fn(&mut CPU)); 8] = [
        (0x10, |c| c.flags.negative = false), // BPL
        (0x30, |c| c.flags.negative = true),  // BMI
        (0x50, |c| c.flags.overflow = false), // BVC
        (0x70, |c| c.flags.overflow = true),  // BVS
        (0x90, |c| c.flags.carry = false),    // BCC
        (0xB0, |c| c.flags.carry = true),     // BCS
        (0xD0, |c| c.flags.zero = false),     // BNE
        (0xF0, |c| c.flags.zero = true),      // BEQ
    ];
    for (op, arm) in cases {
        let mut cpu = program_at(0x0200, &[op, 0x08]);
        arm(&mut cpu);
        cpu.execute();
        assert_eq!(cpu.pc, 0x020A, "opcode {:#04x} should take", op);
        assert_eq!(cpu.cycles, 3, "opcode {:#04x}", op);
    }
}

#[test]
fn unofficial_nop_absx_earns_the_page_cross_cycle() {
    // 0x1C crossing a page behaves like a load for timing
    let mut cross = program_at(0x0200, &[0x1C, 0xFF, 0x20]);
    cross.x = 0x01;
    let acc = cross.acc;
    cross.execute();
    assert_eq!(cross.pc, 0x0203);
    assert_eq!(cross.cycles, 5);
    assert_eq!(cross.acc, acc);

    let mut same = program_at(0x0200, &[0x1C, 0x00, 0x20]);
    same.x = 0x01;
    same.execute();
    assert_eq!(same.cycles, 4);
}

#[test]
fn countdown_loop_charges_the_exact_cycle_total() {
    // LDX #3; loop: DEX; BNE loop; with the branch taken twice on the
    // same page and falling through once
    let mut cpu = program_at(0x0200, &[0xA2, 0x03, 0xCA, 0xD0, 0xFD, 0xEA]);
    let mut total: u32 = 0;
    for _ in 0..7 {
        cpu.execute();
        total += cpu.cycles as u32;
        if cpu.x == 0 && cpu.pc == 0x0205 {
            break;
        }
    }
    assert_eq!(cpu.x, 0);
    assert_eq!(cpu.pc, 0x0205);
    assert_eq!(total, 16);
}

#[test]
fn immediate_nop_never_earns_the_extra_cycle() {
    let mut cpu = program_at(0x0200, &[0x80, 0x12]);
    cpu.execute();
    assert_eq!(cpu.pc, 0x0202);
    assert_eq!(cpu.cycles, 2);
}
