use nes6502::cpu::CPU;
use nes6502::inst::Inst6502;

fn program(bytes: &[u8]) -> CPU {
    let mut cpu = CPU::new();
    cpu.pc = 0x0200;
    let mut addr = 0x0200u16;
    for &b in bytes {
        cpu.write(addr, b);
        addr += 1;
    }
    cpu
}

#[test]
fn adc_overflow_positive_plus_positive() {
    // 0x50 + 0x50 = 0xA0: negative and overflow set, no carry
    let mut cpu = program(&[0x69, 0x50]);
    cpu.acc = 0x50;
    cpu.execute();
    assert_eq!(cpu.acc, 0xA0);
    assert!(cpu.flags.negative);
    assert!(cpu.flags.overflow);
    assert!(!cpu.flags.zero);
    assert!(!cpu.flags.carry);
}

#[test]
fn adc_carry_without_overflow() {
    // 0x50 + 0xD0 = 0x120: carry out, no signed overflow
    let mut cpu = program(&[0x69, 0xD0]);
    cpu.acc = 0x50;
    cpu.execute();
    assert_eq!(cpu.acc, 0x20);
    assert!(cpu.flags.carry);
    assert!(!cpu.flags.overflow);
    assert!(!cpu.flags.negative);
    assert!(!cpu.flags.zero);
}

#[test]
fn adc_uses_the_carry_in() {
    let mut cpu = program(&[0x69, 0x01]);
    cpu.acc = 0xFE;
    cpu.flags.carry = true;
    cpu.execute();
    assert_eq!(cpu.acc, 0x00);
    assert!(cpu.flags.zero);
    assert!(cpu.flags.carry);
    assert!(!cpu.flags.negative);
}

#[test]
fn sbc_without_borrow() {
    // carry set means no borrow: 0x50 - 0x30 = 0x20
    let mut cpu = program(&[0xE9, 0x30]);
    cpu.acc = 0x50;
    cpu.flags.carry = true;
    cpu.execute();
    assert_eq!(cpu.acc, 0x20);
    assert!(cpu.flags.carry);
    assert!(!cpu.flags.overflow);
    assert!(!cpu.flags.negative);
}

#[test]
fn sbc_with_borrow_out() {
    // 0x10 - 0x20 borrows: result 0xF0, carry cleared
    let mut cpu = program(&[0xE9, 0x20]);
    cpu.acc = 0x10;
    cpu.flags.carry = true;
    cpu.execute();
    assert_eq!(cpu.acc, 0xF0);
    assert!(!cpu.flags.carry);
    assert!(cpu.flags.negative);
}

#[test]
fn cmp_sets_flags_for_all_orderings() {
    let mut gt = program(&[0xC9, 0x30]);
    gt.acc = 0x40;
    gt.execute();
    assert!(gt.flags.carry && !gt.flags.zero && !gt.flags.negative);

    let mut lt = program(&[0xC9, 0x40]);
    lt.acc = 0x30;
    lt.execute();
    assert!(!lt.flags.carry && !lt.flags.zero && lt.flags.negative);

    let mut eq = program(&[0xC9, 0x40]);
    eq.acc = 0x40;
    eq.execute();
    assert!(eq.flags.carry && eq.flags.zero && !eq.flags.negative);
}

#[test]
fn cpx_and_cpy_compare_their_registers() {
    let mut cpx = program(&[0xE0, 0x10]);
    cpx.x = 0x10;
    cpx.execute();
    assert!(cpx.flags.zero && cpx.flags.carry);

    let mut cpy = program(&[0xC0, 0x10]);
    cpy.y = 0x0F;
    cpy.execute();
    assert!(!cpy.flags.carry && cpy.flags.negative);
}

#[test]
fn and_ora_eor_update_accumulator_and_flags() {
    let mut and = program(&[0x29, 0x0F]);
    and.acc = 0xF0;
    and.execute();
    assert_eq!(and.acc, 0x00);
    assert!(and.flags.zero);

    let mut ora = program(&[0x09, 0x80]);
    ora.acc = 0x01;
    ora.execute();
    assert_eq!(ora.acc, 0x81);
    assert!(ora.flags.negative && !ora.flags.zero);

    let mut eor = program(&[0x49, 0xFF]);
    eor.acc = 0x0F;
    eor.execute();
    assert_eq!(eor.acc, 0xF0);
    assert!(eor.flags.negative);
}

#[test]
fn bit_copies_operand_bits_into_n_and_v() {
    let mut cpu = program(&[0x24, 0x10]);
    cpu.write(0x0010, 0xC0);
    cpu.acc = 0x0F;
    cpu.execute();
    assert!(cpu.flags.zero);
    assert!(cpu.flags.negative);
    assert!(cpu.flags.overflow);

    let mut hit = program(&[0x24, 0x10]);
    hit.write(0x0010, 0x01);
    hit.acc = 0x01;
    hit.execute();
    assert!(!hit.flags.zero && !hit.flags.negative && !hit.flags.overflow);
}

#[test]
fn asl_on_accumulator_and_memory() {
    let mut acc = program(&[0x0A]);
    acc.acc = 0x81;
    acc.execute();
    assert_eq!(acc.acc, 0x02);
    assert!(acc.flags.carry && !acc.flags.negative && !acc.flags.zero);

    let mut mem = program(&[0x06, 0x10]);
    mem.write(0x0010, 0x40);
    mem.execute();
    assert_eq!(mem.read(0x0010), 0x80);
    assert!(mem.flags.negative && !mem.flags.carry);
}

#[test]
fn lsr_shifts_into_carry() {
    let mut cpu = program(&[0x4A]);
    cpu.acc = 0x01;
    cpu.execute();
    assert_eq!(cpu.acc, 0x00);
    assert!(cpu.flags.carry && cpu.flags.zero && !cpu.flags.negative);
}

#[test]
fn rol_and_ror_rotate_through_the_carry() {
    let mut rol = program(&[0x2A]);
    rol.acc = 0x80;
    rol.flags.carry = true;
    rol.execute();
    assert_eq!(rol.acc, 0x01);
    assert!(rol.flags.carry);

    let mut ror = program(&[0x6A]);
    ror.acc = 0x01;
    ror.flags.carry = true;
    ror.execute();
    assert_eq!(ror.acc, 0x80);
    assert!(ror.flags.carry && ror.flags.negative);
}

#[test]
fn inc_and_dec_wrap_in_memory() {
    let mut inc = program(&[0xE6, 0x10]);
    inc.write(0x0010, 0xFF);
    inc.execute();
    assert_eq!(inc.read(0x0010), 0x00);
    assert!(inc.flags.zero);

    let mut dec = program(&[0xC6, 0x10]);
    dec.write(0x0010, 0x00);
    dec.execute();
    assert_eq!(dec.read(0x0010), 0xFF);
    assert!(dec.flags.negative);
}

#[test]
fn register_steps_wrap_with_flags() {
    let mut inx = program(&[0xE8]);
    inx.x = 0xFF;
    inx.execute();
    assert_eq!(inx.x, 0x00);
    assert!(inx.flags.zero && !inx.flags.negative);

    let mut dex = program(&[0xCA]);
    dex.x = 0x00;
    dex.execute();
    assert_eq!(dex.x, 0xFF);
    assert!(dex.flags.negative && !dex.flags.zero);

    let mut iny = program(&[0xC8]);
    iny.y = 0x7F;
    iny.execute();
    assert_eq!(iny.y, 0x80);
    assert!(iny.flags.negative);

    let mut dey = program(&[0x88]);
    dey.y = 0x01;
    dey.execute();
    assert_eq!(dey.y, 0x00);
    assert!(dey.flags.zero);
}

#[test]
fn loads_set_n_and_z_from_the_value() {
    let mut zero = program(&[0xA9, 0x00]);
    zero.execute();
    assert_eq!(zero.acc, 0x00);
    assert!(zero.flags.zero && !zero.flags.negative);

    let mut neg = program(&[0xA2, 0x80]);
    neg.execute();
    assert_eq!(neg.x, 0x80);
    assert!(neg.flags.negative && !neg.flags.zero);

    let mut ldy = program(&[0xA0, 0x42]);
    ldy.execute();
    assert_eq!(ldy.y, 0x42);
    assert!(!ldy.flags.negative && !ldy.flags.zero);
}

#[test]
fn load_through_indexed_indirect_modes() {
    // LDA (zp,X)
    let mut izx = program(&[0xA1, 0x20]);
    izx.x = 0x04;
    izx.write(0x0024, 0x00);
    izx.write(0x0025, 0x30);
    izx.write(0x3000, 0x5A);
    izx.execute();
    assert_eq!(izx.acc, 0x5A);

    // LDA (zp),Y
    let mut izy = program(&[0xB1, 0x20]);
    izy.write(0x0020, 0x00);
    izy.write(0x0021, 0x30);
    izy.y = 0x10;
    izy.write(0x3010, 0xA5);
    izy.execute();
    assert_eq!(izy.acc, 0xA5);
    assert!(izy.flags.negative);
}

#[test]
fn stores_write_without_touching_flags() {
    let mut sta = program(&[0x85, 0x10]);
    sta.acc = 0x77;
    sta.execute();
    assert_eq!(sta.read(0x0010), 0x77);
    assert_eq!(sta.flags.to_byte(), nes6502::cpu::CpuFlags::from_byte(0x24).to_byte());

    let mut stx = program(&[0x86, 0x11]);
    stx.x = 0x88;
    stx.execute();
    assert_eq!(stx.read(0x0011), 0x88);

    let mut sty = program(&[0x84, 0x12]);
    sty.y = 0x99;
    sty.execute();
    assert_eq!(sty.read(0x0012), 0x99);
}

#[test]
fn transfers_update_flags_from_the_destination() {
    let mut tax = program(&[0xAA]);
    tax.acc = 0x00;
    tax.x = 0x55;
    tax.execute();
    assert_eq!(tax.x, 0x00);
    assert!(tax.flags.zero && !tax.flags.negative);

    let mut txa = program(&[0x8A]);
    txa.x = 0x80;
    txa.execute();
    assert_eq!(txa.acc, 0x80);
    assert!(txa.flags.negative);

    let mut tay = program(&[0xA8]);
    tay.acc = 0x21;
    tay.execute();
    assert_eq!(tay.y, 0x21);

    let mut tya = program(&[0x98]);
    tya.y = 0x00;
    tya.execute();
    assert_eq!(tya.acc, 0x00);
    assert!(tya.flags.zero);
}

#[test]
fn flag_instructions_touch_one_flag_each() {
    let mut cpu = program(&[0x38, 0xF8, 0x78, 0x18, 0xD8, 0x58, 0xB8]);
    cpu.flags.overflow = true;
    cpu.execute(); // SEC
    assert!(cpu.flags.carry);
    cpu.execute(); // SED
    assert!(cpu.flags.decimal);
    cpu.execute(); // SEI
    assert!(cpu.flags.interrupt);
    cpu.execute(); // CLC
    assert!(!cpu.flags.carry);
    cpu.execute(); // CLD
    assert!(!cpu.flags.decimal);
    cpu.execute(); // CLI
    assert!(!cpu.flags.interrupt);
    cpu.execute(); // CLV
    assert!(!cpu.flags.overflow);
    assert!(cpu.flags.decimal == false && cpu.flags.carry == false);
}

#[test]
fn jmp_absolute_loads_the_program_counter() {
    let mut cpu = program(&[0x4C, 0x34, 0x12]);
    cpu.execute();
    assert_eq!(cpu.pc, 0x1234);
    assert_eq!(cpu.cycles, 3);
}

#[test]
fn jmp_indirect_exhibits_the_page_wrap_defect() {
    // pointer bytes at 0x30FF and 0x3000 give target 0x4000, not 0x3100's
    let mut cpu = program(&[0x6C, 0xFF, 0x30]);
    cpu.write(0x30FF, 0x00);
    cpu.write(0x3000, 0x40);
    cpu.write(0x3100, 0x99);
    cpu.execute();
    assert_eq!(cpu.pc, 0x4000);
    assert_eq!(cpu.cycles, 5);
}

#[test]
fn unofficial_opcodes_execute_as_documented_no_ops() {
    // 0x03: two bytes, eight cycles, no architectural effect
    let mut cpu = program(&[0x03, 0x10]);
    cpu.acc = 0x5A;
    cpu.x = 0x02;
    let flags_before = cpu.flags;
    cpu.execute();
    assert_eq!(cpu.pc, 0x0202);
    assert_eq!(cpu.cycles, 8);
    assert_eq!(cpu.acc, 0x5A);
    assert_eq!(cpu.flags, flags_before);

    // 0x02: a jam opcode, treated as a one-byte two-cycle no-op
    let mut jam = program(&[0x02]);
    jam.execute();
    assert_eq!(jam.pc, 0x0201);
    assert_eq!(jam.cycles, 2);
}

#[test]
fn execute_op_dispatches_on_the_current_opcode() {
    let mut cpu = CPU::new();
    cpu.opcode = 0xE8; // INX
    cpu.x = 1;
    let extra = cpu.execute_op();
    assert!(!extra);
    assert_eq!(cpu.x, 2);

    cpu.opcode = 0xA9; // LDA immediate: eligible for the extra cycle
    cpu.eff_addr = 0x0010;
    cpu.write(0x0010, 0x42);
    let extra = cpu.execute_op();
    assert!(extra);
    assert_eq!(cpu.acc, 0x42);
}

#[test]
fn official_nop_advances_one_byte() {
    let mut cpu = program(&[0xEA]);
    let acc = cpu.acc;
    cpu.execute();
    assert_eq!(cpu.pc, 0x0201);
    assert_eq!(cpu.cycles, 2);
    assert_eq!(cpu.acc, acc);
}
