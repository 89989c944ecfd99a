use nes6502::addr::AddrMode;
use nes6502::inst::{instruction, Mnemonic};

fn operand_bytes(mode: AddrMode) -> u8 {
    match mode {
        AddrMode::Imp => 0,
        AddrMode::Imm
        | AddrMode::Zero
        | AddrMode::ZeroX
        | AddrMode::ZeroY
        | AddrMode::IndX
        | AddrMode::IndY
        | AddrMode::Rel => 1,
        AddrMode::Abs | AddrMode::AbsX | AddrMode::AbsY | AddrMode::Ind => 2,
    }
}

#[test]
fn table_mode_and_length_agree_for_all_opcodes() {
    // every entry's declared length is the opcode byte plus the bytes
    // its addressing mode consumes
    for op in 0..=255u8 {
        let e = instruction(op);
        assert_eq!(e.length, operand_bytes(e.mode) + 1, "opcode {:#04x}", op);
        assert!(e.cycles >= 2 && e.cycles <= 8, "opcode {:#04x}", op);
    }
}

#[test]
fn table_official_entries_match_documented_values() {
    let brk = instruction(0x00);
    assert_eq!(brk.mnemonic, Mnemonic::BRK);
    assert_eq!(brk.mode, AddrMode::Imp);
    assert_eq!((brk.length, brk.cycles), (1, 7));

    let jsr = instruction(0x20);
    assert_eq!(jsr.mnemonic, Mnemonic::JSR);
    assert_eq!(jsr.mode, AddrMode::Abs);
    assert_eq!((jsr.length, jsr.cycles), (3, 6));

    let jmp_ind = instruction(0x6C);
    assert_eq!(jmp_ind.mnemonic, Mnemonic::JMP);
    assert_eq!(jmp_ind.mode, AddrMode::Ind);
    assert_eq!((jmp_ind.length, jmp_ind.cycles), (3, 5));

    let pla = instruction(0x68);
    assert_eq!(pla.mnemonic, Mnemonic::PLA);
    assert_eq!((pla.length, pla.cycles), (1, 4));

    let ror_abs = instruction(0x6E);
    assert_eq!(ror_abs.mnemonic, Mnemonic::ROR);
    assert_eq!(ror_abs.mode, AddrMode::Abs);
    assert_eq!((ror_abs.length, ror_abs.cycles), (3, 6));

    let ror_abx = instruction(0x7E);
    assert_eq!(ror_abx.mnemonic, Mnemonic::ROR);
    assert_eq!(ror_abx.mode, AddrMode::AbsX);
    assert_eq!((ror_abx.length, ror_abx.cycles), (3, 7));

    let sta_abx = instruction(0x9D);
    assert_eq!(sta_abx.mnemonic, Mnemonic::STA);
    assert_eq!(sta_abx.mode, AddrMode::AbsX);
    assert_eq!((sta_abx.length, sta_abx.cycles), (3, 5));

    let ldx_zpy = instruction(0xB6);
    assert_eq!(ldx_zpy.mnemonic, Mnemonic::LDX);
    assert_eq!(ldx_zpy.mode, AddrMode::ZeroY);
    assert_eq!((ldx_zpy.length, ldx_zpy.cycles), (2, 4));

    let nop = instruction(0xEA);
    assert_eq!(nop.mnemonic, Mnemonic::NOP);
    assert_eq!(nop.mode, AddrMode::Imp);
    assert_eq!((nop.length, nop.cycles), (1, 2));
}

#[test]
fn table_unofficial_entries_carry_documented_timings() {
    // the unofficial absolute,X no-ops share the timing of a load
    for op in [0x1Cu8, 0x3C, 0x5C, 0x7C, 0xDC, 0xFC] {
        let e = instruction(op);
        assert_eq!(e.mnemonic, Mnemonic::NOP);
        assert_eq!(e.mode, AddrMode::AbsX);
        assert_eq!((e.length, e.cycles), (3, 4), "opcode {:#04x}", op);
    }
    // multi-cycle decorative no-ops keep their documented shapes
    let slo_izx = instruction(0x03);
    assert_eq!(slo_izx.mnemonic, Mnemonic::XXX);
    assert_eq!(slo_izx.mode, AddrMode::IndX);
    assert_eq!((slo_izx.length, slo_izx.cycles), (2, 8));

    let slo_abs = instruction(0x0F);
    assert_eq!(slo_abs.mnemonic, Mnemonic::XXX);
    assert_eq!(slo_abs.mode, AddrMode::Abs);
    assert_eq!((slo_abs.length, slo_abs.cycles), (3, 6));

    let dop_zp = instruction(0x04);
    assert_eq!(dop_zp.mnemonic, Mnemonic::NOP);
    assert_eq!(dop_zp.mode, AddrMode::Zero);
    assert_eq!((dop_zp.length, dop_zp.cycles), (2, 3));

    let nop_imm = instruction(0x80);
    assert_eq!(nop_imm.mnemonic, Mnemonic::NOP);
    assert_eq!(nop_imm.mode, AddrMode::Imm);
    assert_eq!((nop_imm.length, nop_imm.cycles), (2, 2));
}
