//! The opcode table: the fixed 256-entry decode from an opcode byte to
//! its mnemonic, addressing mode, instruction length and base cycle
//! count; and the semantics of every instruction.

use vstd::prelude::*;

verus! {

use crate::addr::{mode_bytes, Addr6502, AddrMode};

/// Mnemonic tag: the official instructions plus `XXX` for the
/// unofficial opcodes that this core executes as documented no-ops.
#[derive(Clone, Copy, PartialEq, Eq, Structural, Debug)]
pub enum Mnemonic {
    XXX,
    ADC,
    AND,
    ASL,
    BCC,
    BCS,
    BEQ,
    BIT,
    BMI,
    BNE,
    BPL,
    BRK,
    BVC,
    BVS,
    CLC,
    CLD,
    CLI,
    CLV,
    CMP,
    CPX,
    CPY,
    DEC,
    DEX,
    DEY,
    EOR,
    INC,
    INX,
    INY,
    JMP,
    JSR,
    LDA,
    LDX,
    LDY,
    LSR,
    NOP,
    ORA,
    PHA,
    PHP,
    PLA,
    PLP,
    ROL,
    ROR,
    RTI,
    RTS,
    SBC,
    SEC,
    SED,
    SEI,
    STA,
    STX,
    STY,
    TAX,
    TAY,
    TSX,
    TXA,
    TXS,
    TYA,
}

/// One opcode table entry: mnemonic, addressing mode, total instruction
/// length in bytes (opcode byte included) and base cycle count.
#[derive(Clone, Copy, PartialEq, Eq, Structural, Debug)]
pub struct Inst {
    pub mnemonic: Mnemonic,
    pub mode: AddrMode,
    pub length: u8,
    pub cycles: u8,
}

/// The opcode table as a mathematical function: one fully populated
/// entry for each of the 256 opcode bytes. Unofficial opcodes carry the
/// historically documented addressing mode, length and cycle count of
/// the no-op they execute as.
pub open spec fn opcode_entry(opcode: u8) -> Inst {
    match opcode {
        0x00 => Inst { mnemonic: Mnemonic::BRK, mode: AddrMode::Imp, length: 1, cycles: 7 },
        0x01 => Inst { mnemonic: Mnemonic::ORA, mode: AddrMode::IndX, length: 2, cycles: 6 },
        0x02 => Inst { mnemonic: Mnemonic::XXX, mode: AddrMode::Imp, length: 1, cycles: 2 },
        0x03 => Inst { mnemonic: Mnemonic::XXX, mode: AddrMode::IndX, length: 2, cycles: 8 },
        0x04 => Inst { mnemonic: Mnemonic::NOP, mode: AddrMode::Zero, length: 2, cycles: 3 },
        0x05 => Inst { mnemonic: Mnemonic::ORA, mode: AddrMode::Zero, length: 2, cycles: 3 },
        0x06 => Inst { mnemonic: Mnemonic::ASL, mode: AddrMode::Zero, length: 2, cycles: 5 },
        0x07 => Inst { mnemonic: Mnemonic::XXX, mode: AddrMode::Zero, length: 2, cycles: 5 },
        0x08 => Inst { mnemonic: Mnemonic::PHP, mode: AddrMode::Imp, length: 1, cycles: 3 },
        0x09 => Inst { mnemonic: Mnemonic::ORA, mode: AddrMode::Imm, length: 2, cycles: 2 },
        0x0A => Inst { mnemonic: Mnemonic::ASL, mode: AddrMode::Imp, length: 1, cycles: 2 },
        0x0B => Inst { mnemonic: Mnemonic::XXX, mode: AddrMode::Imm, length: 2, cycles: 2 },
        0x0C => Inst { mnemonic: Mnemonic::NOP, mode: AddrMode::Abs, length: 3, cycles: 4 },
        0x0D => Inst { mnemonic: Mnemonic::ORA, mode: AddrMode::Abs, length: 3, cycles: 4 },
        0x0E => Inst { mnemonic: Mnemonic::ASL, mode: AddrMode::Abs, length: 3, cycles: 6 },
        0x0F => Inst { mnemonic: Mnemonic::XXX, mode: AddrMode::Abs, length: 3, cycles: 6 },
        0x10 => Inst { mnemonic: Mnemonic::BPL, mode: AddrMode::Rel, length: 2, cycles: 2 },
        0x11 => Inst { mnemonic: Mnemonic::ORA, mode: AddrMode::IndY, length: 2, cycles: 5 },
        0x12 => Inst { mnemonic: Mnemonic::XXX, mode: AddrMode::Imp, length: 1, cycles: 2 },
        0x13 => Inst { mnemonic: Mnemonic::XXX, mode: AddrMode::IndY, length: 2, cycles: 8 },
        0x14 => Inst { mnemonic: Mnemonic::NOP, mode: AddrMode::ZeroX, length: 2, cycles: 4 },
        0x15 => Inst { mnemonic: Mnemonic::ORA, mode: AddrMode::ZeroX, length: 2, cycles: 4 },
        0x16 => Inst { mnemonic: Mnemonic::ASL, mode: AddrMode::ZeroX, length: 2, cycles: 6 },
        0x17 => Inst { mnemonic: Mnemonic::XXX, mode: AddrMode::ZeroX, length: 2, cycles: 6 },
        0x18 => Inst { mnemonic: Mnemonic::CLC, mode: AddrMode::Imp, length: 1, cycles: 2 },
        0x19 => Inst { mnemonic: Mnemonic::ORA, mode: AddrMode::AbsY, length: 3, cycles: 4 },
        0x1A => Inst { mnemonic: Mnemonic::NOP, mode: AddrMode::Imp, length: 1, cycles: 2 },
        0x1B => Inst { mnemonic: Mnemonic::XXX, mode: AddrMode::AbsY, length: 3, cycles: 7 },
        0x1C => Inst { mnemonic: Mnemonic::NOP, mode: AddrMode::AbsX, length: 3, cycles: 4 },
        0x1D => Inst { mnemonic: Mnemonic::ORA, mode: AddrMode::AbsX, length: 3, cycles: 4 },
        0x1E => Inst { mnemonic: Mnemonic::ASL, mode: AddrMode::AbsX, length: 3, cycles: 7 },
        0x1F => Inst { mnemonic: Mnemonic::XXX, mode: AddrMode::AbsX, length: 3, cycles: 7 },
        0x20 => Inst { mnemonic: Mnemonic::JSR, mode: AddrMode::Abs, length: 3, cycles: 6 },
        0x21 => Inst { mnemonic: Mnemonic::AND, mode: AddrMode::IndX, length: 2, cycles: 6 },
        0x22 => Inst { mnemonic: Mnemonic::XXX, mode: AddrMode::Imp, length: 1, cycles: 2 },
        0x23 => Inst { mnemonic: Mnemonic::XXX, mode: AddrMode::IndX, length: 2, cycles: 8 },
        0x24 => Inst { mnemonic: Mnemonic::BIT, mode: AddrMode::Zero, length: 2, cycles: 3 },
        0x25 => Inst { mnemonic: Mnemonic::AND, mode: AddrMode::Zero, length: 2, cycles: 3 },
        0x26 => Inst { mnemonic: Mnemonic::ROL, mode: AddrMode::Zero, length: 2, cycles: 5 },
        0x27 => Inst { mnemonic: Mnemonic::XXX, mode: AddrMode::Zero, length: 2, cycles: 5 },
        0x28 => Inst { mnemonic: Mnemonic::PLP, mode: AddrMode::Imp, length: 1, cycles: 4 },
        0x29 => Inst { mnemonic: Mnemonic::AND, mode: AddrMode::Imm, length: 2, cycles: 2 },
        0x2A => Inst { mnemonic: Mnemonic::ROL, mode: AddrMode::Imp, length: 1, cycles: 2 },
        0x2B => Inst { mnemonic: Mnemonic::XXX, mode: AddrMode::Imm, length: 2, cycles: 2 },
        0x2C => Inst { mnemonic: Mnemonic::BIT, mode: AddrMode::Abs, length: 3, cycles: 4 },
        0x2D => Inst { mnemonic: Mnemonic::AND, mode: AddrMode::Abs, length: 3, cycles: 4 },
        0x2E => Inst { mnemonic: Mnemonic::ROL, mode: AddrMode::Abs, length: 3, cycles: 6 },
        0x2F => Inst { mnemonic: Mnemonic::XXX, mode: AddrMode::Abs, length: 3, cycles: 6 },
        0x30 => Inst { mnemonic: Mnemonic::BMI, mode: AddrMode::Rel, length: 2, cycles: 2 },
        0x31 => Inst { mnemonic: Mnemonic::AND, mode: AddrMode::IndY, length: 2, cycles: 5 },
        0x32 => Inst { mnemonic: Mnemonic::XXX, mode: AddrMode::Imp, length: 1, cycles: 2 },
        0x33 => Inst { mnemonic: Mnemonic::XXX, mode: AddrMode::IndY, length: 2, cycles: 8 },
        0x34 => Inst { mnemonic: Mnemonic::NOP, mode: AddrMode::ZeroX, length: 2, cycles: 4 },
        0x35 => Inst { mnemonic: Mnemonic::AND, mode: AddrMode::ZeroX, length: 2, cycles: 4 },
        0x36 => Inst { mnemonic: Mnemonic::ROL, mode: AddrMode::ZeroX, length: 2, cycles: 6 },
        0x37 => Inst { mnemonic: Mnemonic::XXX, mode: AddrMode::ZeroX, length: 2, cycles: 6 },
        0x38 => Inst { mnemonic: Mnemonic::SEC, mode: AddrMode::Imp, length: 1, cycles: 2 },
        0x39 => Inst { mnemonic: Mnemonic::AND, mode: AddrMode::AbsY, length: 3, cycles: 4 },
        0x3A => Inst { mnemonic: Mnemonic::NOP, mode: AddrMode::Imp, length: 1, cycles: 2 },
        0x3B => Inst { mnemonic: Mnemonic::XXX, mode: AddrMode::AbsY, length: 3, cycles: 7 },
        0x3C => Inst { mnemonic: Mnemonic::NOP, mode: AddrMode::AbsX, length: 3, cycles: 4 },
        0x3D => Inst { mnemonic: Mnemonic::AND, mode: AddrMode::AbsX, length: 3, cycles: 4 },
        0x3E => Inst { mnemonic: Mnemonic::ROL, mode: AddrMode::AbsX, length: 3, cycles: 7 },
        0x3F => Inst { mnemonic: Mnemonic::XXX, mode: AddrMode::AbsX, length: 3, cycles: 7 },
        0x40 => Inst { mnemonic: Mnemonic::RTI, mode: AddrMode::Imp, length: 1, cycles: 6 },
        0x41 => Inst { mnemonic: Mnemonic::EOR, mode: AddrMode::IndX, length: 2, cycles: 6 },
        0x42 => Inst { mnemonic: Mnemonic::XXX, mode: AddrMode::Imp, length: 1, cycles: 2 },
        0x43 => Inst { mnemonic: Mnemonic::XXX, mode: AddrMode::IndX, length: 2, cycles: 8 },
        0x44 => Inst { mnemonic: Mnemonic::NOP, mode: AddrMode::Zero, length: 2, cycles: 3 },
        0x45 => Inst { mnemonic: Mnemonic::EOR, mode: AddrMode::Zero, length: 2, cycles: 3 },
        0x46 => Inst { mnemonic: Mnemonic::LSR, mode: AddrMode::Zero, length: 2, cycles: 5 },
        0x47 => Inst { mnemonic: Mnemonic::XXX, mode: AddrMode::Zero, length: 2, cycles: 5 },
        0x48 => Inst { mnemonic: Mnemonic::PHA, mode: AddrMode::Imp, length: 1, cycles: 3 },
        0x49 => Inst { mnemonic: Mnemonic::EOR, mode: AddrMode::Imm, length: 2, cycles: 2 },
        0x4A => Inst { mnemonic: Mnemonic::LSR, mode: AddrMode::Imp, length: 1, cycles: 2 },
        0x4B => Inst { mnemonic: Mnemonic::XXX, mode: AddrMode::Imm, length: 2, cycles: 2 },
        0x4C => Inst { mnemonic: Mnemonic::JMP, mode: AddrMode::Abs, length: 3, cycles: 3 },
        0x4D => Inst { mnemonic: Mnemonic::EOR, mode: AddrMode::Abs, length: 3, cycles: 4 },
        0x4E => Inst { mnemonic: Mnemonic::LSR, mode: AddrMode::Abs, length: 3, cycles: 6 },
        0x4F => Inst { mnemonic: Mnemonic::XXX, mode: AddrMode::Abs, length: 3, cycles: 6 },
        0x50 => Inst { mnemonic: Mnemonic::BVC, mode: AddrMode::Rel, length: 2, cycles: 2 },
        0x51 => Inst { mnemonic: Mnemonic::EOR, mode: AddrMode::IndY, length: 2, cycles: 5 },
        0x52 => Inst { mnemonic: Mnemonic::XXX, mode: AddrMode::Imp, length: 1, cycles: 2 },
        0x53 => Inst { mnemonic: Mnemonic::XXX, mode: AddrMode::IndY, length: 2, cycles: 8 },
        0x54 => Inst { mnemonic: Mnemonic::NOP, mode: AddrMode::ZeroX, length: 2, cycles: 4 },
        0x55 => Inst { mnemonic: Mnemonic::EOR, mode: AddrMode::ZeroX, length: 2, cycles: 4 },
        0x56 => Inst { mnemonic: Mnemonic::LSR, mode: AddrMode::ZeroX, length: 2, cycles: 6 },
        0x57 => Inst { mnemonic: Mnemonic::XXX, mode: AddrMode::ZeroX, length: 2, cycles: 6 },
        0x58 => Inst { mnemonic: Mnemonic::CLI, mode: AddrMode::Imp, length: 1, cycles: 2 },
        0x59 => Inst { mnemonic: Mnemonic::EOR, mode: AddrMode::AbsY, length: 3, cycles: 4 },
        0x5A => Inst { mnemonic: Mnemonic::NOP, mode: AddrMode::Imp, length: 1, cycles: 2 },
        0x5B => Inst { mnemonic: Mnemonic::XXX, mode: AddrMode::AbsY, length: 3, cycles: 7 },
        0x5C => Inst { mnemonic: Mnemonic::NOP, mode: AddrMode::AbsX, length: 3, cycles: 4 },
        0x5D => Inst { mnemonic: Mnemonic::EOR, mode: AddrMode::AbsX, length: 3, cycles: 4 },
        0x5E => Inst { mnemonic: Mnemonic::LSR, mode: AddrMode::AbsX, length: 3, cycles: 7 },
        0x5F => Inst { mnemonic: Mnemonic::XXX, mode: AddrMode::AbsX, length: 3, cycles: 7 },
        0x60 => Inst { mnemonic: Mnemonic::RTS, mode: AddrMode::Imp, length: 1, cycles: 6 },
        0x61 => Inst { mnemonic: Mnemonic::ADC, mode: AddrMode::IndX, length: 2, cycles: 6 },
        0x62 => Inst { mnemonic: Mnemonic::XXX, mode: AddrMode::Imp, length: 1, cycles: 2 },
        0x63 => Inst { mnemonic: Mnemonic::XXX, mode: AddrMode::IndX, length: 2, cycles: 8 },
        0x64 => Inst { mnemonic: Mnemonic::NOP, mode: AddrMode::Zero, length: 2, cycles: 3 },
        0x65 => Inst { mnemonic: Mnemonic::ADC, mode: AddrMode::Zero, length: 2, cycles: 3 },
        0x66 => Inst { mnemonic: Mnemonic::ROR, mode: AddrMode::Zero, length: 2, cycles: 5 },
        0x67 => Inst { mnemonic: Mnemonic::XXX, mode: AddrMode::Zero, length: 2, cycles: 5 },
        0x68 => Inst { mnemonic: Mnemonic::PLA, mode: AddrMode::Imp, length: 1, cycles: 4 },
        0x69 => Inst { mnemonic: Mnemonic::ADC, mode: AddrMode::Imm, length: 2, cycles: 2 },
        0x6A => Inst { mnemonic: Mnemonic::ROR, mode: AddrMode::Imp, length: 1, cycles: 2 },
        0x6B => Inst { mnemonic: Mnemonic::XXX, mode: AddrMode::Imm, length: 2, cycles: 2 },
        0x6C => Inst { mnemonic: Mnemonic::JMP, mode: AddrMode::Ind, length: 3, cycles: 5 },
        0x6D => Inst { mnemonic: Mnemonic::ADC, mode: AddrMode::Abs, length: 3, cycles: 4 },
        0x6E => Inst { mnemonic: Mnemonic::ROR, mode: AddrMode::Abs, length: 3, cycles: 6 },
        0x6F => Inst { mnemonic: Mnemonic::XXX, mode: AddrMode::Abs, length: 3, cycles: 6 },
        0x70 => Inst { mnemonic: Mnemonic::BVS, mode: AddrMode::Rel, length: 2, cycles: 2 },
        0x71 => Inst { mnemonic: Mnemonic::ADC, mode: AddrMode::IndY, length: 2, cycles: 5 },
        0x72 => Inst { mnemonic: Mnemonic::XXX, mode: AddrMode::Imp, length: 1, cycles: 2 },
        0x73 => Inst { mnemonic: Mnemonic::XXX, mode: AddrMode::IndY, length: 2, cycles: 8 },
        0x74 => Inst { mnemonic: Mnemonic::NOP, mode: AddrMode::ZeroX, length: 2, cycles: 4 },
        0x75 => Inst { mnemonic: Mnemonic::ADC, mode: AddrMode::ZeroX, length: 2, cycles: 4 },
        0x76 => Inst { mnemonic: Mnemonic::ROR, mode: AddrMode::ZeroX, length: 2, cycles: 6 },
        0x77 => Inst { mnemonic: Mnemonic::XXX, mode: AddrMode::ZeroX, length: 2, cycles: 6 },
        0x78 => Inst { mnemonic: Mnemonic::SEI, mode: AddrMode::Imp, length: 1, cycles: 2 },
        0x79 => Inst { mnemonic: Mnemonic::ADC, mode: AddrMode::AbsY, length: 3, cycles: 4 },
        0x7A => Inst { mnemonic: Mnemonic::NOP, mode: AddrMode::Imp, length: 1, cycles: 2 },
        0x7B => Inst { mnemonic: Mnemonic::XXX, mode: AddrMode::AbsY, length: 3, cycles: 7 },
        0x7C => Inst { mnemonic: Mnemonic::NOP, mode: AddrMode::AbsX, length: 3, cycles: 4 },
        0x7D => Inst { mnemonic: Mnemonic::ADC, mode: AddrMode::AbsX, length: 3, cycles: 4 },
        0x7E => Inst { mnemonic: Mnemonic::ROR, mode: AddrMode::AbsX, length: 3, cycles: 7 },
        0x7F => Inst { mnemonic: Mnemonic::XXX, mode: AddrMode::AbsX, length: 3, cycles: 7 },
        0x80 => Inst { mnemonic: Mnemonic::NOP, mode: AddrMode::Imm, length: 2, cycles: 2 },
        0x81 => Inst { mnemonic: Mnemonic::STA, mode: AddrMode::IndX, length: 2, cycles: 6 },
        0x82 => Inst { mnemonic: Mnemonic::NOP, mode: AddrMode::Imm, length: 2, cycles: 2 },
        0x83 => Inst { mnemonic: Mnemonic::XXX, mode: AddrMode::IndX, length: 2, cycles: 6 },
        0x84 => Inst { mnemonic: Mnemonic::STY, mode: AddrMode::Zero, length: 2, cycles: 3 },
        0x85 => Inst { mnemonic: Mnemonic::STA, mode: AddrMode::Zero, length: 2, cycles: 3 },
        0x86 => Inst { mnemonic: Mnemonic::STX, mode: AddrMode::Zero, length: 2, cycles: 3 },
        0x87 => Inst { mnemonic: Mnemonic::XXX, mode: AddrMode::Zero, length: 2, cycles: 3 },
        0x88 => Inst { mnemonic: Mnemonic::DEY, mode: AddrMode::Imp, length: 1, cycles: 2 },
        0x89 => Inst { mnemonic: Mnemonic::NOP, mode: AddrMode::Imm, length: 2, cycles: 2 },
        0x8A => Inst { mnemonic: Mnemonic::TXA, mode: AddrMode::Imp, length: 1, cycles: 2 },
        0x8B => Inst { mnemonic: Mnemonic::XXX, mode: AddrMode::Imm, length: 2, cycles: 2 },
        0x8C => Inst { mnemonic: Mnemonic::STY, mode: AddrMode::Abs, length: 3, cycles: 4 },
        0x8D => Inst { mnemonic: Mnemonic::STA, mode: AddrMode::Abs, length: 3, cycles: 4 },
        0x8E => Inst { mnemonic: Mnemonic::STX, mode: AddrMode::Abs, length: 3, cycles: 4 },
        0x8F => Inst { mnemonic: Mnemonic::XXX, mode: AddrMode::Abs, length: 3, cycles: 4 },
        0x90 => Inst { mnemonic: Mnemonic::BCC, mode: AddrMode::Rel, length: 2, cycles: 2 },
        0x91 => Inst { mnemonic: Mnemonic::STA, mode: AddrMode::IndY, length: 2, cycles: 6 },
        0x92 => Inst { mnemonic: Mnemonic::XXX, mode: AddrMode::Imp, length: 1, cycles: 2 },
        0x93 => Inst { mnemonic: Mnemonic::XXX, mode: AddrMode::IndY, length: 2, cycles: 6 },
        0x94 => Inst { mnemonic: Mnemonic::STY, mode: AddrMode::ZeroX, length: 2, cycles: 4 },
        0x95 => Inst { mnemonic: Mnemonic::STA, mode: AddrMode::ZeroX, length: 2, cycles: 4 },
        0x96 => Inst { mnemonic: Mnemonic::STX, mode: AddrMode::ZeroY, length: 2, cycles: 4 },
        0x97 => Inst { mnemonic: Mnemonic::XXX, mode: AddrMode::ZeroY, length: 2, cycles: 4 },
        0x98 => Inst { mnemonic: Mnemonic::TYA, mode: AddrMode::Imp, length: 1, cycles: 2 },
        0x99 => Inst { mnemonic: Mnemonic::STA, mode: AddrMode::AbsY, length: 3, cycles: 5 },
        0x9A => Inst { mnemonic: Mnemonic::TXS, mode: AddrMode::Imp, length: 1, cycles: 2 },
        0x9B => Inst { mnemonic: Mnemonic::XXX, mode: AddrMode::AbsY, length: 3, cycles: 5 },
        0x9C => Inst { mnemonic: Mnemonic::XXX, mode: AddrMode::AbsX, length: 3, cycles: 5 },
        0x9D => Inst { mnemonic: Mnemonic::STA, mode: AddrMode::AbsX, length: 3, cycles: 5 },
        0x9E => Inst { mnemonic: Mnemonic::XXX, mode: AddrMode::AbsY, length: 3, cycles: 5 },
        0x9F => Inst { mnemonic: Mnemonic::XXX, mode: AddrMode::AbsY, length: 3, cycles: 5 },
        0xA0 => Inst { mnemonic: Mnemonic::LDY, mode: AddrMode::Imm, length: 2, cycles: 2 },
        0xA1 => Inst { mnemonic: Mnemonic::LDA, mode: AddrMode::IndX, length: 2, cycles: 6 },
        0xA2 => Inst { mnemonic: Mnemonic::LDX, mode: AddrMode::Imm, length: 2, cycles: 2 },
        0xA3 => Inst { mnemonic: Mnemonic::XXX, mode: AddrMode::IndX, length: 2, cycles: 6 },
        0xA4 => Inst { mnemonic: Mnemonic::LDY, mode: AddrMode::Zero, length: 2, cycles: 3 },
        0xA5 => Inst { mnemonic: Mnemonic::LDA, mode: AddrMode::Zero, length: 2, cycles: 3 },
        0xA6 => Inst { mnemonic: Mnemonic::LDX, mode: AddrMode::Zero, length: 2, cycles: 3 },
        0xA7 => Inst { mnemonic: Mnemonic::XXX, mode: AddrMode::Zero, length: 2, cycles: 3 },
        0xA8 => Inst { mnemonic: Mnemonic::TAY, mode: AddrMode::Imp, length: 1, cycles: 2 },
        0xA9 => Inst { mnemonic: Mnemonic::LDA, mode: AddrMode::Imm, length: 2, cycles: 2 },
        0xAA => Inst { mnemonic: Mnemonic::TAX, mode: AddrMode::Imp, length: 1, cycles: 2 },
        0xAB => Inst { mnemonic: Mnemonic::XXX, mode: AddrMode::Imm, length: 2, cycles: 2 },
        0xAC => Inst { mnemonic: Mnemonic::LDY, mode: AddrMode::Abs, length: 3, cycles: 4 },
        0xAD => Inst { mnemonic: Mnemonic::LDA, mode: AddrMode::Abs, length: 3, cycles: 4 },
        0xAE => Inst { mnemonic: Mnemonic::LDX, mode: AddrMode::Abs, length: 3, cycles: 4 },
        0xAF => Inst { mnemonic: Mnemonic::XXX, mode: AddrMode::Abs, length: 3, cycles: 4 },
        0xB0 => Inst { mnemonic: Mnemonic::BCS, mode: AddrMode::Rel, length: 2, cycles: 2 },
        0xB1 => Inst { mnemonic: Mnemonic::LDA, mode: AddrMode::IndY, length: 2, cycles: 5 },
        0xB2 => Inst { mnemonic: Mnemonic::XXX, mode: AddrMode::Imp, length: 1, cycles: 2 },
        0xB3 => Inst { mnemonic: Mnemonic::XXX, mode: AddrMode::IndY, length: 2, cycles: 5 },
        0xB4 => Inst { mnemonic: Mnemonic::LDY, mode: AddrMode::ZeroX, length: 2, cycles: 4 },
        0xB5 => Inst { mnemonic: Mnemonic::LDA, mode: AddrMode::ZeroX, length: 2, cycles: 4 },
        0xB6 => Inst { mnemonic: Mnemonic::LDX, mode: AddrMode::ZeroY, length: 2, cycles: 4 },
        0xB7 => Inst { mnemonic: Mnemonic::XXX, mode: AddrMode::ZeroY, length: 2, cycles: 4 },
        0xB8 => Inst { mnemonic: Mnemonic::CLV, mode: AddrMode::Imp, length: 1, cycles: 2 },
        0xB9 => Inst { mnemonic: Mnemonic::LDA, mode: AddrMode::AbsY, length: 3, cycles: 4 },
        0xBA => Inst { mnemonic: Mnemonic::TSX, mode: AddrMode::Imp, length: 1, cycles: 2 },
        0xBB => Inst { mnemonic: Mnemonic::XXX, mode: AddrMode::AbsY, length: 3, cycles: 4 },
        0xBC => Inst { mnemonic: Mnemonic::LDY, mode: AddrMode::AbsX, length: 3, cycles: 4 },
        0xBD => Inst { mnemonic: Mnemonic::LDA, mode: AddrMode::AbsX, length: 3, cycles: 4 },
        0xBE => Inst { mnemonic: Mnemonic::LDX, mode: AddrMode::AbsY, length: 3, cycles: 4 },
        0xBF => Inst { mnemonic: Mnemonic::XXX, mode: AddrMode::AbsY, length: 3, cycles: 4 },
        0xC0 => Inst { mnemonic: Mnemonic::CPY, mode: AddrMode::Imm, length: 2, cycles: 2 },
        0xC1 => Inst { mnemonic: Mnemonic::CMP, mode: AddrMode::IndX, length: 2, cycles: 6 },
        0xC2 => Inst { mnemonic: Mnemonic::NOP, mode: AddrMode::Imm, length: 2, cycles: 2 },
        0xC3 => Inst { mnemonic: Mnemonic::XXX, mode: AddrMode::IndX, length: 2, cycles: 8 },
        0xC4 => Inst { mnemonic: Mnemonic::CPY, mode: AddrMode::Zero, length: 2, cycles: 3 },
        0xC5 => Inst { mnemonic: Mnemonic::CMP, mode: AddrMode::Zero, length: 2, cycles: 3 },
        0xC6 => Inst { mnemonic: Mnemonic::DEC, mode: AddrMode::Zero, length: 2, cycles: 5 },
        0xC7 => Inst { mnemonic: Mnemonic::XXX, mode: AddrMode::Zero, length: 2, cycles: 5 },
        0xC8 => Inst { mnemonic: Mnemonic::INY, mode: AddrMode::Imp, length: 1, cycles: 2 },
        0xC9 => Inst { mnemonic: Mnemonic::CMP, mode: AddrMode::Imm, length: 2, cycles: 2 },
        0xCA => Inst { mnemonic: Mnemonic::DEX, mode: AddrMode::Imp, length: 1, cycles: 2 },
        0xCB => Inst { mnemonic: Mnemonic::XXX, mode: AddrMode::Imm, length: 2, cycles: 2 },
        0xCC => Inst { mnemonic: Mnemonic::CPY, mode: AddrMode::Abs, length: 3, cycles: 4 },
        0xCD => Inst { mnemonic: Mnemonic::CMP, mode: AddrMode::Abs, length: 3, cycles: 4 },
        0xCE => Inst { mnemonic: Mnemonic::DEC, mode: AddrMode::Abs, length: 3, cycles: 6 },
        0xCF => Inst { mnemonic: Mnemonic::XXX, mode: AddrMode::Abs, length: 3, cycles: 6 },
        0xD0 => Inst { mnemonic: Mnemonic::BNE, mode: AddrMode::Rel, length: 2, cycles: 2 },
        0xD1 => Inst { mnemonic: Mnemonic::CMP, mode: AddrMode::IndY, length: 2, cycles: 5 },
        0xD2 => Inst { mnemonic: Mnemonic::XXX, mode: AddrMode::Imp, length: 1, cycles: 2 },
        0xD3 => Inst { mnemonic: Mnemonic::XXX, mode: AddrMode::IndY, length: 2, cycles: 8 },
        0xD4 => Inst { mnemonic: Mnemonic::NOP, mode: AddrMode::ZeroX, length: 2, cycles: 4 },
        0xD5 => Inst { mnemonic: Mnemonic::CMP, mode: AddrMode::ZeroX, length: 2, cycles: 4 },
        0xD6 => Inst { mnemonic: Mnemonic::DEC, mode: AddrMode::ZeroX, length: 2, cycles: 6 },
        0xD7 => Inst { mnemonic: Mnemonic::XXX, mode: AddrMode::ZeroX, length: 2, cycles: 6 },
        0xD8 => Inst { mnemonic: Mnemonic::CLD, mode: AddrMode::Imp, length: 1, cycles: 2 },
        0xD9 => Inst { mnemonic: Mnemonic::CMP, mode: AddrMode::AbsY, length: 3, cycles: 4 },
        0xDA => Inst { mnemonic: Mnemonic::NOP, mode: AddrMode::Imp, length: 1, cycles: 2 },
        0xDB => Inst { mnemonic: Mnemonic::XXX, mode: AddrMode::AbsY, length: 3, cycles: 7 },
        0xDC => Inst { mnemonic: Mnemonic::NOP, mode: AddrMode::AbsX, length: 3, cycles: 4 },
        0xDD => Inst { mnemonic: Mnemonic::CMP, mode: AddrMode::AbsX, length: 3, cycles: 4 },
        0xDE => Inst { mnemonic: Mnemonic::DEC, mode: AddrMode::AbsX, length: 3, cycles: 7 },
        0xDF => Inst { mnemonic: Mnemonic::XXX, mode: AddrMode::AbsX, length: 3, cycles: 7 },
        0xE0 => Inst { mnemonic: Mnemonic::CPX, mode: AddrMode::Imm, length: 2, cycles: 2 },
        0xE1 => Inst { mnemonic: Mnemonic::SBC, mode: AddrMode::IndX, length: 2, cycles: 6 },
        0xE2 => Inst { mnemonic: Mnemonic::NOP, mode: AddrMode::Imm, length: 2, cycles: 2 },
        0xE3 => Inst { mnemonic: Mnemonic::XXX, mode: AddrMode::IndX, length: 2, cycles: 8 },
        0xE4 => Inst { mnemonic: Mnemonic::CPX, mode: AddrMode::Zero, length: 2, cycles: 3 },
        0xE5 => Inst { mnemonic: Mnemonic::SBC, mode: AddrMode::Zero, length: 2, cycles: 3 },
        0xE6 => Inst { mnemonic: Mnemonic::INC, mode: AddrMode::Zero, length: 2, cycles: 5 },
        0xE7 => Inst { mnemonic: Mnemonic::XXX, mode: AddrMode::Zero, length: 2, cycles: 5 },
        0xE8 => Inst { mnemonic: Mnemonic::INX, mode: AddrMode::Imp, length: 1, cycles: 2 },
        0xE9 => Inst { mnemonic: Mnemonic::SBC, mode: AddrMode::Imm, length: 2, cycles: 2 },
        0xEA => Inst { mnemonic: Mnemonic::NOP, mode: AddrMode::Imp, length: 1, cycles: 2 },
        0xEB => Inst { mnemonic: Mnemonic::XXX, mode: AddrMode::Imm, length: 2, cycles: 2 },
        0xEC => Inst { mnemonic: Mnemonic::CPX, mode: AddrMode::Abs, length: 3, cycles: 4 },
        0xED => Inst { mnemonic: Mnemonic::SBC, mode: AddrMode::Abs, length: 3, cycles: 4 },
        0xEE => Inst { mnemonic: Mnemonic::INC, mode: AddrMode::Abs, length: 3, cycles: 6 },
        0xEF => Inst { mnemonic: Mnemonic::XXX, mode: AddrMode::Abs, length: 3, cycles: 6 },
        0xF0 => Inst { mnemonic: Mnemonic::BEQ, mode: AddrMode::Rel, length: 2, cycles: 2 },
        0xF1 => Inst { mnemonic: Mnemonic::SBC, mode: AddrMode::IndY, length: 2, cycles: 5 },
        0xF2 => Inst { mnemonic: Mnemonic::XXX, mode: AddrMode::Imp, length: 1, cycles: 2 },
        0xF3 => Inst { mnemonic: Mnemonic::XXX, mode: AddrMode::IndY, length: 2, cycles: 8 },
        0xF4 => Inst { mnemonic: Mnemonic::NOP, mode: AddrMode::ZeroX, length: 2, cycles: 4 },
        0xF5 => Inst { mnemonic: Mnemonic::SBC, mode: AddrMode::ZeroX, length: 2, cycles: 4 },
        0xF6 => Inst { mnemonic: Mnemonic::INC, mode: AddrMode::ZeroX, length: 2, cycles: 6 },
        0xF7 => Inst { mnemonic: Mnemonic::XXX, mode: AddrMode::ZeroX, length: 2, cycles: 6 },
        0xF8 => Inst { mnemonic: Mnemonic::SED, mode: AddrMode::Imp, length: 1, cycles: 2 },
        0xF9 => Inst { mnemonic: Mnemonic::SBC, mode: AddrMode::AbsY, length: 3, cycles: 4 },
        0xFA => Inst { mnemonic: Mnemonic::NOP, mode: AddrMode::Imp, length: 1, cycles: 2 },
        0xFB => Inst { mnemonic: Mnemonic::XXX, mode: AddrMode::AbsY, length: 3, cycles: 7 },
        0xFC => Inst { mnemonic: Mnemonic::NOP, mode: AddrMode::AbsX, length: 3, cycles: 4 },
        0xFD => Inst { mnemonic: Mnemonic::SBC, mode: AddrMode::AbsX, length: 3, cycles: 4 },
        0xFE => Inst { mnemonic: Mnemonic::INC, mode: AddrMode::AbsX, length: 3, cycles: 7 },
        0xFF => Inst { mnemonic: Mnemonic::XXX, mode: AddrMode::AbsX, length: 3, cycles: 7 },
    }
}

/// Looks up the opcode table entry for an opcode byte.
pub fn instruction(opcode: u8) -> (entry: Inst)
    ensures
        entry == opcode_entry(opcode),
{
    match opcode {
        0x00 => Inst { mnemonic: Mnemonic::BRK, mode: AddrMode::Imp, length: 1, cycles: 7 },
        0x01 => Inst { mnemonic: Mnemonic::ORA, mode: AddrMode::IndX, length: 2, cycles: 6 },
        0x02 => Inst { mnemonic: Mnemonic::XXX, mode: AddrMode::Imp, length: 1, cycles: 2 },
        0x03 => Inst { mnemonic: Mnemonic::XXX, mode: AddrMode::IndX, length: 2, cycles: 8 },
        0x04 => Inst { mnemonic: Mnemonic::NOP, mode: AddrMode::Zero, length: 2, cycles: 3 },
        0x05 => Inst { mnemonic: Mnemonic::ORA, mode: AddrMode::Zero, length: 2, cycles: 3 },
        0x06 => Inst { mnemonic: Mnemonic::ASL, mode: AddrMode::Zero, length: 2, cycles: 5 },
        0x07 => Inst { mnemonic: Mnemonic::XXX, mode: AddrMode::Zero, length: 2, cycles: 5 },
        0x08 => Inst { mnemonic: Mnemonic::PHP, mode: AddrMode::Imp, length: 1, cycles: 3 },
        0x09 => Inst { mnemonic: Mnemonic::ORA, mode: AddrMode::Imm, length: 2, cycles: 2 },
        0x0A => Inst { mnemonic: Mnemonic::ASL, mode: AddrMode::Imp, length: 1, cycles: 2 },
        0x0B => Inst { mnemonic: Mnemonic::XXX, mode: AddrMode::Imm, length: 2, cycles: 2 },
        0x0C => Inst { mnemonic: Mnemonic::NOP, mode: AddrMode::Abs, length: 3, cycles: 4 },
        0x0D => Inst { mnemonic: Mnemonic::ORA, mode: AddrMode::Abs, length: 3, cycles: 4 },
        0x0E => Inst { mnemonic: Mnemonic::ASL, mode: AddrMode::Abs, length: 3, cycles: 6 },
        0x0F => Inst { mnemonic: Mnemonic::XXX, mode: AddrMode::Abs, length: 3, cycles: 6 },
        0x10 => Inst { mnemonic: Mnemonic::BPL, mode: AddrMode::Rel, length: 2, cycles: 2 },
        0x11 => Inst { mnemonic: Mnemonic::ORA, mode: AddrMode::IndY, length: 2, cycles: 5 },
        0x12 => Inst { mnemonic: Mnemonic::XXX, mode: AddrMode::Imp, length: 1, cycles: 2 },
        0x13 => Inst { mnemonic: Mnemonic::XXX, mode: AddrMode::IndY, length: 2, cycles: 8 },
        0x14 => Inst { mnemonic: Mnemonic::NOP, mode: AddrMode::ZeroX, length: 2, cycles: 4 },
        0x15 => Inst { mnemonic: Mnemonic::ORA, mode: AddrMode::ZeroX, length: 2, cycles: 4 },
        0x16 => Inst { mnemonic: Mnemonic::ASL, mode: AddrMode::ZeroX, length: 2, cycles: 6 },
        0x17 => Inst { mnemonic: Mnemonic::XXX, mode: AddrMode::ZeroX, length: 2, cycles: 6 },
        0x18 => Inst { mnemonic: Mnemonic::CLC, mode: AddrMode::Imp, length: 1, cycles: 2 },
        0x19 => Inst { mnemonic: Mnemonic::ORA, mode: AddrMode::AbsY, length: 3, cycles: 4 },
        0x1A => Inst { mnemonic: Mnemonic::NOP, mode: AddrMode::Imp, length: 1, cycles: 2 },
        0x1B => Inst { mnemonic: Mnemonic::XXX, mode: AddrMode::AbsY, length: 3, cycles: 7 },
        0x1C => Inst { mnemonic: Mnemonic::NOP, mode: AddrMode::AbsX, length: 3, cycles: 4 },
        0x1D => Inst { mnemonic: Mnemonic::ORA, mode: AddrMode::AbsX, length: 3, cycles: 4 },
        0x1E => Inst { mnemonic: Mnemonic::ASL, mode: AddrMode::AbsX, length: 3, cycles: 7 },
        0x1F => Inst { mnemonic: Mnemonic::XXX, mode: AddrMode::AbsX, length: 3, cycles: 7 },
        0x20 => Inst { mnemonic: Mnemonic::JSR, mode: AddrMode::Abs, length: 3, cycles: 6 },
        0x21 => Inst { mnemonic: Mnemonic::AND, mode: AddrMode::IndX, length: 2, cycles: 6 },
        0x22 => Inst { mnemonic: Mnemonic::XXX, mode: AddrMode::Imp, length: 1, cycles: 2 },
        0x23 => Inst { mnemonic: Mnemonic::XXX, mode: AddrMode::IndX, length: 2, cycles: 8 },
        0x24 => Inst { mnemonic: Mnemonic::BIT, mode: AddrMode::Zero, length: 2, cycles: 3 },
        0x25 => Inst { mnemonic: Mnemonic::AND, mode: AddrMode::Zero, length: 2, cycles: 3 },
        0x26 => Inst { mnemonic: Mnemonic::ROL, mode: AddrMode::Zero, length: 2, cycles: 5 },
        0x27 => Inst { mnemonic: Mnemonic::XXX, mode: AddrMode::Zero, length: 2, cycles: 5 },
        0x28 => Inst { mnemonic: Mnemonic::PLP, mode: AddrMode::Imp, length: 1, cycles: 4 },
        0x29 => Inst { mnemonic: Mnemonic::AND, mode: AddrMode::Imm, length: 2, cycles: 2 },
        0x2A => Inst { mnemonic: Mnemonic::ROL, mode: AddrMode::Imp, length: 1, cycles: 2 },
        0x2B => Inst { mnemonic: Mnemonic::XXX, mode: AddrMode::Imm, length: 2, cycles: 2 },
        0x2C => Inst { mnemonic: Mnemonic::BIT, mode: AddrMode::Abs, length: 3, cycles: 4 },
        0x2D => Inst { mnemonic: Mnemonic::AND, mode: AddrMode::Abs, length: 3, cycles: 4 },
        0x2E => Inst { mnemonic: Mnemonic::ROL, mode: AddrMode::Abs, length: 3, cycles: 6 },
        0x2F => Inst { mnemonic: Mnemonic::XXX, mode: AddrMode::Abs, length: 3, cycles: 6 },
        0x30 => Inst { mnemonic: Mnemonic::BMI, mode: AddrMode::Rel, length: 2, cycles: 2 },
        0x31 => Inst { mnemonic: Mnemonic::AND, mode: AddrMode::IndY, length: 2, cycles: 5 },
        0x32 => Inst { mnemonic: Mnemonic::XXX, mode: AddrMode::Imp, length: 1, cycles: 2 },
        0x33 => Inst { mnemonic: Mnemonic::XXX, mode: AddrMode::IndY, length: 2, cycles: 8 },
        0x34 => Inst { mnemonic: Mnemonic::NOP, mode: AddrMode::ZeroX, length: 2, cycles: 4 },
        0x35 => Inst { mnemonic: Mnemonic::AND, mode: AddrMode::ZeroX, length: 2, cycles: 4 },
        0x36 => Inst { mnemonic: Mnemonic::ROL, mode: AddrMode::ZeroX, length: 2, cycles: 6 },
        0x37 => Inst { mnemonic: Mnemonic::XXX, mode: AddrMode::ZeroX, length: 2, cycles: 6 },
        0x38 => Inst { mnemonic: Mnemonic::SEC, mode: AddrMode::Imp, length: 1, cycles: 2 },
        0x39 => Inst { mnemonic: Mnemonic::AND, mode: AddrMode::AbsY, length: 3, cycles: 4 },
        0x3A => Inst { mnemonic: Mnemonic::NOP, mode: AddrMode::Imp, length: 1, cycles: 2 },
        0x3B => Inst { mnemonic: Mnemonic::XXX, mode: AddrMode::AbsY, length: 3, cycles: 7 },
        0x3C => Inst { mnemonic: Mnemonic::NOP, mode: AddrMode::AbsX, length: 3, cycles: 4 },
        0x3D => Inst { mnemonic: Mnemonic::AND, mode: AddrMode::AbsX, length: 3, cycles: 4 },
        0x3E => Inst { mnemonic: Mnemonic::ROL, mode: AddrMode::AbsX, length: 3, cycles: 7 },
        0x3F => Inst { mnemonic: Mnemonic::XXX, mode: AddrMode::AbsX, length: 3, cycles: 7 },
        0x40 => Inst { mnemonic: Mnemonic::RTI, mode: AddrMode::Imp, length: 1, cycles: 6 },
        0x41 => Inst { mnemonic: Mnemonic::EOR, mode: AddrMode::IndX, length: 2, cycles: 6 },
        0x42 => Inst { mnemonic: Mnemonic::XXX, mode: AddrMode::Imp, length: 1, cycles: 2 },
        0x43 => Inst { mnemonic: Mnemonic::XXX, mode: AddrMode::IndX, length: 2, cycles: 8 },
        0x44 => Inst { mnemonic: Mnemonic::NOP, mode: AddrMode::Zero, length: 2, cycles: 3 },
        0x45 => Inst { mnemonic: Mnemonic::EOR, mode: AddrMode::Zero, length: 2, cycles: 3 },
        0x46 => Inst { mnemonic: Mnemonic::LSR, mode: AddrMode::Zero, length: 2, cycles: 5 },
        0x47 => Inst { mnemonic: Mnemonic::XXX, mode: AddrMode::Zero, length: 2, cycles: 5 },
        0x48 => Inst { mnemonic: Mnemonic::PHA, mode: AddrMode::Imp, length: 1, cycles: 3 },
        0x49 => Inst { mnemonic: Mnemonic::EOR, mode: AddrMode::Imm, length: 2, cycles: 2 },
        0x4A => Inst { mnemonic: Mnemonic::LSR, mode: AddrMode::Imp, length: 1, cycles: 2 },
        0x4B => Inst { mnemonic: Mnemonic::XXX, mode: AddrMode::Imm, length: 2, cycles: 2 },
        0x4C => Inst { mnemonic: Mnemonic::JMP, mode: AddrMode::Abs, length: 3, cycles: 3 },
        0x4D => Inst { mnemonic: Mnemonic::EOR, mode: AddrMode::Abs, length: 3, cycles: 4 },
        0x4E => Inst { mnemonic: Mnemonic::LSR, mode: AddrMode::Abs, length: 3, cycles: 6 },
        0x4F => Inst { mnemonic: Mnemonic::XXX, mode: AddrMode::Abs, length: 3, cycles: 6 },
        0x50 => Inst { mnemonic: Mnemonic::BVC, mode: AddrMode::Rel, length: 2, cycles: 2 },
        0x51 => Inst { mnemonic: Mnemonic::EOR, mode: AddrMode::IndY, length: 2, cycles: 5 },
        0x52 => Inst { mnemonic: Mnemonic::XXX, mode: AddrMode::Imp, length: 1, cycles: 2 },
        0x53 => Inst { mnemonic: Mnemonic::XXX, mode: AddrMode::IndY, length: 2, cycles: 8 },
        0x54 => Inst { mnemonic: Mnemonic::NOP, mode: AddrMode::ZeroX, length: 2, cycles: 4 },
        0x55 => Inst { mnemonic: Mnemonic::EOR, mode: AddrMode::ZeroX, length: 2, cycles: 4 },
        0x56 => Inst { mnemonic: Mnemonic::LSR, mode: AddrMode::ZeroX, length: 2, cycles: 6 },
        0x57 => Inst { mnemonic: Mnemonic::XXX, mode: AddrMode::ZeroX, length: 2, cycles: 6 },
        0x58 => Inst { mnemonic: Mnemonic::CLI, mode: AddrMode::Imp, length: 1, cycles: 2 },
        0x59 => Inst { mnemonic: Mnemonic::EOR, mode: AddrMode::AbsY, length: 3, cycles: 4 },
        0x5A => Inst { mnemonic: Mnemonic::NOP, mode: AddrMode::Imp, length: 1, cycles: 2 },
        0x5B => Inst { mnemonic: Mnemonic::XXX, mode: AddrMode::AbsY, length: 3, cycles: 7 },
        0x5C => Inst { mnemonic: Mnemonic::NOP, mode: AddrMode::AbsX, length: 3, cycles: 4 },
        0x5D => Inst { mnemonic: Mnemonic::EOR, mode: AddrMode::AbsX, length: 3, cycles: 4 },
        0x5E => Inst { mnemonic: Mnemonic::LSR, mode: AddrMode::AbsX, length: 3, cycles: 7 },
        0x5F => Inst { mnemonic: Mnemonic::XXX, mode: AddrMode::AbsX, length: 3, cycles: 7 },
        0x60 => Inst { mnemonic: Mnemonic::RTS, mode: AddrMode::Imp, length: 1, cycles: 6 },
        0x61 => Inst { mnemonic: Mnemonic::ADC, mode: AddrMode::IndX, length: 2, cycles: 6 },
        0x62 => Inst { mnemonic: Mnemonic::XXX, mode: AddrMode::Imp, length: 1, cycles: 2 },
        0x63 => Inst { mnemonic: Mnemonic::XXX, mode: AddrMode::IndX, length: 2, cycles: 8 },
        0x64 => Inst { mnemonic: Mnemonic::NOP, mode: AddrMode::Zero, length: 2, cycles: 3 },
        0x65 => Inst { mnemonic: Mnemonic::ADC, mode: AddrMode::Zero, length: 2, cycles: 3 },
        0x66 => Inst { mnemonic: Mnemonic::ROR, mode: AddrMode::Zero, length: 2, cycles: 5 },
        0x67 => Inst { mnemonic: Mnemonic::XXX, mode: AddrMode::Zero, length: 2, cycles: 5 },
        0x68 => Inst { mnemonic: Mnemonic::PLA, mode: AddrMode::Imp, length: 1, cycles: 4 },
        0x69 => Inst { mnemonic: Mnemonic::ADC, mode: AddrMode::Imm, length: 2, cycles: 2 },
        0x6A => Inst { mnemonic: Mnemonic::ROR, mode: AddrMode::Imp, length: 1, cycles: 2 },
        0x6B => Inst { mnemonic: Mnemonic::XXX, mode: AddrMode::Imm, length: 2, cycles: 2 },
        0x6C => Inst { mnemonic: Mnemonic::JMP, mode: AddrMode::Ind, length: 3, cycles: 5 },
        0x6D => Inst { mnemonic: Mnemonic::ADC, mode: AddrMode::Abs, length: 3, cycles: 4 },
        0x6E => Inst { mnemonic: Mnemonic::ROR, mode: AddrMode::Abs, length: 3, cycles: 6 },
        0x6F => Inst { mnemonic: Mnemonic::XXX, mode: AddrMode::Abs, length: 3, cycles: 6 },
        0x70 => Inst { mnemonic: Mnemonic::BVS, mode: AddrMode::Rel, length: 2, cycles: 2 },
        0x71 => Inst { mnemonic: Mnemonic::ADC, mode: AddrMode::IndY, length: 2, cycles: 5 },
        0x72 => Inst { mnemonic: Mnemonic::XXX, mode: AddrMode::Imp, length: 1, cycles: 2 },
        0x73 => Inst { mnemonic: Mnemonic::XXX, mode: AddrMode::IndY, length: 2, cycles: 8 },
        0x74 => Inst { mnemonic: Mnemonic::NOP, mode: AddrMode::ZeroX, length: 2, cycles: 4 },
        0x75 => Inst { mnemonic: Mnemonic::ADC, mode: AddrMode::ZeroX, length: 2, cycles: 4 },
        0x76 => Inst { mnemonic: Mnemonic::ROR, mode: AddrMode::ZeroX, length: 2, cycles: 6 },
        0x77 => Inst { mnemonic: Mnemonic::XXX, mode: AddrMode::ZeroX, length: 2, cycles: 6 },
        0x78 => Inst { mnemonic: Mnemonic::SEI, mode: AddrMode::Imp, length: 1, cycles: 2 },
        0x79 => Inst { mnemonic: Mnemonic::ADC, mode: AddrMode::AbsY, length: 3, cycles: 4 },
        0x7A => Inst { mnemonic: Mnemonic::NOP, mode: AddrMode::Imp, length: 1, cycles: 2 },
        0x7B => Inst { mnemonic: Mnemonic::XXX, mode: AddrMode::AbsY, length: 3, cycles: 7 },
        0x7C => Inst { mnemonic: Mnemonic::NOP, mode: AddrMode::AbsX, length: 3, cycles: 4 },
        0x7D => Inst { mnemonic: Mnemonic::ADC, mode: AddrMode::AbsX, length: 3, cycles: 4 },
        0x7E => Inst { mnemonic: Mnemonic::ROR, mode: AddrMode::AbsX, length: 3, cycles: 7 },
        0x7F => Inst { mnemonic: Mnemonic::XXX, mode: AddrMode::AbsX, length: 3, cycles: 7 },
        0x80 => Inst { mnemonic: Mnemonic::NOP, mode: AddrMode::Imm, length: 2, cycles: 2 },
        0x81 => Inst { mnemonic: Mnemonic::STA, mode: AddrMode::IndX, length: 2, cycles: 6 },
        0x82 => Inst { mnemonic: Mnemonic::NOP, mode: AddrMode::Imm, length: 2, cycles: 2 },
        0x83 => Inst { mnemonic: Mnemonic::XXX, mode: AddrMode::IndX, length: 2, cycles: 6 },
        0x84 => Inst { mnemonic: Mnemonic::STY, mode: AddrMode::Zero, length: 2, cycles: 3 },
        0x85 => Inst { mnemonic: Mnemonic::STA, mode: AddrMode::Zero, length: 2, cycles: 3 },
        0x86 => Inst { mnemonic: Mnemonic::STX, mode: AddrMode::Zero, length: 2, cycles: 3 },
        0x87 => Inst { mnemonic: Mnemonic::XXX, mode: AddrMode::Zero, length: 2, cycles: 3 },
        0x88 => Inst { mnemonic: Mnemonic::DEY, mode: AddrMode::Imp, length: 1, cycles: 2 },
        0x89 => Inst { mnemonic: Mnemonic::NOP, mode: AddrMode::Imm, length: 2, cycles: 2 },
        0x8A => Inst { mnemonic: Mnemonic::TXA, mode: AddrMode::Imp, length: 1, cycles: 2 },
        0x8B => Inst { mnemonic: Mnemonic::XXX, mode: AddrMode::Imm, length: 2, cycles: 2 },
        0x8C => Inst { mnemonic: Mnemonic::STY, mode: AddrMode::Abs, length: 3, cycles: 4 },
        0x8D => Inst { mnemonic: Mnemonic::STA, mode: AddrMode::Abs, length: 3, cycles: 4 },
        0x8E => Inst { mnemonic: Mnemonic::STX, mode: AddrMode::Abs, length: 3, cycles: 4 },
        0x8F => Inst { mnemonic: Mnemonic::XXX, mode: AddrMode::Abs, length: 3, cycles: 4 },
        0x90 => Inst { mnemonic: Mnemonic::BCC, mode: AddrMode::Rel, length: 2, cycles: 2 },
        0x91 => Inst { mnemonic: Mnemonic::STA, mode: AddrMode::IndY, length: 2, cycles: 6 },
        0x92 => Inst { mnemonic: Mnemonic::XXX, mode: AddrMode::Imp, length: 1, cycles: 2 },
        0x93 => Inst { mnemonic: Mnemonic::XXX, mode: AddrMode::IndY, length: 2, cycles: 6 },
        0x94 => Inst { mnemonic: Mnemonic::STY, mode: AddrMode::ZeroX, length: 2, cycles: 4 },
        0x95 => Inst { mnemonic: Mnemonic::STA, mode: AddrMode::ZeroX, length: 2, cycles: 4 },
        0x96 => Inst { mnemonic: Mnemonic::STX, mode: AddrMode::ZeroY, length: 2, cycles: 4 },
        0x97 => Inst { mnemonic: Mnemonic::XXX, mode: AddrMode::ZeroY, length: 2, cycles: 4 },
        0x98 => Inst { mnemonic: Mnemonic::TYA, mode: AddrMode::Imp, length: 1, cycles: 2 },
        0x99 => Inst { mnemonic: Mnemonic::STA, mode: AddrMode::AbsY, length: 3, cycles: 5 },
        0x9A => Inst { mnemonic: Mnemonic::TXS, mode: AddrMode::Imp, length: 1, cycles: 2 },
        0x9B => Inst { mnemonic: Mnemonic::XXX, mode: AddrMode::AbsY, length: 3, cycles: 5 },
        0x9C => Inst { mnemonic: Mnemonic::XXX, mode: AddrMode::AbsX, length: 3, cycles: 5 },
        0x9D => Inst { mnemonic: Mnemonic::STA, mode: AddrMode::AbsX, length: 3, cycles: 5 },
        0x9E => Inst { mnemonic: Mnemonic::XXX, mode: AddrMode::AbsY, length: 3, cycles: 5 },
        0x9F => Inst { mnemonic: Mnemonic::XXX, mode: AddrMode::AbsY, length: 3, cycles: 5 },
        0xA0 => Inst { mnemonic: Mnemonic::LDY, mode: AddrMode::Imm, length: 2, cycles: 2 },
        0xA1 => Inst { mnemonic: Mnemonic::LDA, mode: AddrMode::IndX, length: 2, cycles: 6 },
        0xA2 => Inst { mnemonic: Mnemonic::LDX, mode: AddrMode::Imm, length: 2, cycles: 2 },
        0xA3 => Inst { mnemonic: Mnemonic::XXX, mode: AddrMode::IndX, length: 2, cycles: 6 },
        0xA4 => Inst { mnemonic: Mnemonic::LDY, mode: AddrMode::Zero, length: 2, cycles: 3 },
        0xA5 => Inst { mnemonic: Mnemonic::LDA, mode: AddrMode::Zero, length: 2, cycles: 3 },
        0xA6 => Inst { mnemonic: Mnemonic::LDX, mode: AddrMode::Zero, length: 2, cycles: 3 },
        0xA7 => Inst { mnemonic: Mnemonic::XXX, mode: AddrMode::Zero, length: 2, cycles: 3 },
        0xA8 => Inst { mnemonic: Mnemonic::TAY, mode: AddrMode::Imp, length: 1, cycles: 2 },
        0xA9 => Inst { mnemonic: Mnemonic::LDA, mode: AddrMode::Imm, length: 2, cycles: 2 },
        0xAA => Inst { mnemonic: Mnemonic::TAX, mode: AddrMode::Imp, length: 1, cycles: 2 },
        0xAB => Inst { mnemonic: Mnemonic::XXX, mode: AddrMode::Imm, length: 2, cycles: 2 },
        0xAC => Inst { mnemonic: Mnemonic::LDY, mode: AddrMode::Abs, length: 3, cycles: 4 },
        0xAD => Inst { mnemonic: Mnemonic::LDA, mode: AddrMode::Abs, length: 3, cycles: 4 },
        0xAE => Inst { mnemonic: Mnemonic::LDX, mode: AddrMode::Abs, length: 3, cycles: 4 },
        0xAF => Inst { mnemonic: Mnemonic::XXX, mode: AddrMode::Abs, length: 3, cycles: 4 },
        0xB0 => Inst { mnemonic: Mnemonic::BCS, mode: AddrMode::Rel, length: 2, cycles: 2 },
        0xB1 => Inst { mnemonic: Mnemonic::LDA, mode: AddrMode::IndY, length: 2, cycles: 5 },
        0xB2 => Inst { mnemonic: Mnemonic::XXX, mode: AddrMode::Imp, length: 1, cycles: 2 },
        0xB3 => Inst { mnemonic: Mnemonic::XXX, mode: AddrMode::IndY, length: 2, cycles: 5 },
        0xB4 => Inst { mnemonic: Mnemonic::LDY, mode: AddrMode::ZeroX, length: 2, cycles: 4 },
        0xB5 => Inst { mnemonic: Mnemonic::LDA, mode: AddrMode::ZeroX, length: 2, cycles: 4 },
        0xB6 => Inst { mnemonic: Mnemonic::LDX, mode: AddrMode::ZeroY, length: 2, cycles: 4 },
        0xB7 => Inst { mnemonic: Mnemonic::XXX, mode: AddrMode::ZeroY, length: 2, cycles: 4 },
        0xB8 => Inst { mnemonic: Mnemonic::CLV, mode: AddrMode::Imp, length: 1, cycles: 2 },
        0xB9 => Inst { mnemonic: Mnemonic::LDA, mode: AddrMode::AbsY, length: 3, cycles: 4 },
        0xBA => Inst { mnemonic: Mnemonic::TSX, mode: AddrMode::Imp, length: 1, cycles: 2 },
        0xBB => Inst { mnemonic: Mnemonic::XXX, mode: AddrMode::AbsY, length: 3, cycles: 4 },
        0xBC => Inst { mnemonic: Mnemonic::LDY, mode: AddrMode::AbsX, length: 3, cycles: 4 },
        0xBD => Inst { mnemonic: Mnemonic::LDA, mode: AddrMode::AbsX, length: 3, cycles: 4 },
        0xBE => Inst { mnemonic: Mnemonic::LDX, mode: AddrMode::AbsY, length: 3, cycles: 4 },
        0xBF => Inst { mnemonic: Mnemonic::XXX, mode: AddrMode::AbsY, length: 3, cycles: 4 },
        0xC0 => Inst { mnemonic: Mnemonic::CPY, mode: AddrMode::Imm, length: 2, cycles: 2 },
        0xC1 => Inst { mnemonic: Mnemonic::CMP, mode: AddrMode::IndX, length: 2, cycles: 6 },
        0xC2 => Inst { mnemonic: Mnemonic::NOP, mode: AddrMode::Imm, length: 2, cycles: 2 },
        0xC3 => Inst { mnemonic: Mnemonic::XXX, mode: AddrMode::IndX, length: 2, cycles: 8 },
        0xC4 => Inst { mnemonic: Mnemonic::CPY, mode: AddrMode::Zero, length: 2, cycles: 3 },
        0xC5 => Inst { mnemonic: Mnemonic::CMP, mode: AddrMode::Zero, length: 2, cycles: 3 },
        0xC6 => Inst { mnemonic: Mnemonic::DEC, mode: AddrMode::Zero, length: 2, cycles: 5 },
        0xC7 => Inst { mnemonic: Mnemonic::XXX, mode: AddrMode::Zero, length: 2, cycles: 5 },
        0xC8 => Inst { mnemonic: Mnemonic::INY, mode: AddrMode::Imp, length: 1, cycles: 2 },
        0xC9 => Inst { mnemonic: Mnemonic::CMP, mode: AddrMode::Imm, length: 2, cycles: 2 },
        0xCA => Inst { mnemonic: Mnemonic::DEX, mode: AddrMode::Imp, length: 1, cycles: 2 },
        0xCB => Inst { mnemonic: Mnemonic::XXX, mode: AddrMode::Imm, length: 2, cycles: 2 },
        0xCC => Inst { mnemonic: Mnemonic::CPY, mode: AddrMode::Abs, length: 3, cycles: 4 },
        0xCD => Inst { mnemonic: Mnemonic::CMP, mode: AddrMode::Abs, length: 3, cycles: 4 },
        0xCE => Inst { mnemonic: Mnemonic::DEC, mode: AddrMode::Abs, length: 3, cycles: 6 },
        0xCF => Inst { mnemonic: Mnemonic::XXX, mode: AddrMode::Abs, length: 3, cycles: 6 },
        0xD0 => Inst { mnemonic: Mnemonic::BNE, mode: AddrMode::Rel, length: 2, cycles: 2 },
        0xD1 => Inst { mnemonic: Mnemonic::CMP, mode: AddrMode::IndY, length: 2, cycles: 5 },
        0xD2 => Inst { mnemonic: Mnemonic::XXX, mode: AddrMode::Imp, length: 1, cycles: 2 },
        0xD3 => Inst { mnemonic: Mnemonic::XXX, mode: AddrMode::IndY, length: 2, cycles: 8 },
        0xD4 => Inst { mnemonic: Mnemonic::NOP, mode: AddrMode::ZeroX, length: 2, cycles: 4 },
        0xD5 => Inst { mnemonic: Mnemonic::CMP, mode: AddrMode::ZeroX, length: 2, cycles: 4 },
        0xD6 => Inst { mnemonic: Mnemonic::DEC, mode: AddrMode::ZeroX, length: 2, cycles: 6 },
        0xD7 => Inst { mnemonic: Mnemonic::XXX, mode: AddrMode::ZeroX, length: 2, cycles: 6 },
        0xD8 => Inst { mnemonic: Mnemonic::CLD, mode: AddrMode::Imp, length: 1, cycles: 2 },
        0xD9 => Inst { mnemonic: Mnemonic::CMP, mode: AddrMode::AbsY, length: 3, cycles: 4 },
        0xDA => Inst { mnemonic: Mnemonic::NOP, mode: AddrMode::Imp, length: 1, cycles: 2 },
        0xDB => Inst { mnemonic: Mnemonic::XXX, mode: AddrMode::AbsY, length: 3, cycles: 7 },
        0xDC => Inst { mnemonic: Mnemonic::NOP, mode: AddrMode::AbsX, length: 3, cycles: 4 },
        0xDD => Inst { mnemonic: Mnemonic::CMP, mode: AddrMode::AbsX, length: 3, cycles: 4 },
        0xDE => Inst { mnemonic: Mnemonic::DEC, mode: AddrMode::AbsX, length: 3, cycles: 7 },
        0xDF => Inst { mnemonic: Mnemonic::XXX, mode: AddrMode::AbsX, length: 3, cycles: 7 },
        0xE0 => Inst { mnemonic: Mnemonic::CPX, mode: AddrMode::Imm, length: 2, cycles: 2 },
        0xE1 => Inst { mnemonic: Mnemonic::SBC, mode: AddrMode::IndX, length: 2, cycles: 6 },
        0xE2 => Inst { mnemonic: Mnemonic::NOP, mode: AddrMode::Imm, length: 2, cycles: 2 },
        0xE3 => Inst { mnemonic: Mnemonic::XXX, mode: AddrMode::IndX, length: 2, cycles: 8 },
        0xE4 => Inst { mnemonic: Mnemonic::CPX, mode: AddrMode::Zero, length: 2, cycles: 3 },
        0xE5 => Inst { mnemonic: Mnemonic::SBC, mode: AddrMode::Zero, length: 2, cycles: 3 },
        0xE6 => Inst { mnemonic: Mnemonic::INC, mode: AddrMode::Zero, length: 2, cycles: 5 },
        0xE7 => Inst { mnemonic: Mnemonic::XXX, mode: AddrMode::Zero, length: 2, cycles: 5 },
        0xE8 => Inst { mnemonic: Mnemonic::INX, mode: AddrMode::Imp, length: 1, cycles: 2 },
        0xE9 => Inst { mnemonic: Mnemonic::SBC, mode: AddrMode::Imm, length: 2, cycles: 2 },
        0xEA => Inst { mnemonic: Mnemonic::NOP, mode: AddrMode::Imp, length: 1, cycles: 2 },
        0xEB => Inst { mnemonic: Mnemonic::XXX, mode: AddrMode::Imm, length: 2, cycles: 2 },
        0xEC => Inst { mnemonic: Mnemonic::CPX, mode: AddrMode::Abs, length: 3, cycles: 4 },
        0xED => Inst { mnemonic: Mnemonic::SBC, mode: AddrMode::Abs, length: 3, cycles: 4 },
        0xEE => Inst { mnemonic: Mnemonic::INC, mode: AddrMode::Abs, length: 3, cycles: 6 },
        0xEF => Inst { mnemonic: Mnemonic::XXX, mode: AddrMode::Abs, length: 3, cycles: 6 },
        0xF0 => Inst { mnemonic: Mnemonic::BEQ, mode: AddrMode::Rel, length: 2, cycles: 2 },
        0xF1 => Inst { mnemonic: Mnemonic::SBC, mode: AddrMode::IndY, length: 2, cycles: 5 },
        0xF2 => Inst { mnemonic: Mnemonic::XXX, mode: AddrMode::Imp, length: 1, cycles: 2 },
        0xF3 => Inst { mnemonic: Mnemonic::XXX, mode: AddrMode::IndY, length: 2, cycles: 8 },
        0xF4 => Inst { mnemonic: Mnemonic::NOP, mode: AddrMode::ZeroX, length: 2, cycles: 4 },
        0xF5 => Inst { mnemonic: Mnemonic::SBC, mode: AddrMode::ZeroX, length: 2, cycles: 4 },
        0xF6 => Inst { mnemonic: Mnemonic::INC, mode: AddrMode::ZeroX, length: 2, cycles: 6 },
        0xF7 => Inst { mnemonic: Mnemonic::XXX, mode: AddrMode::ZeroX, length: 2, cycles: 6 },
        0xF8 => Inst { mnemonic: Mnemonic::SED, mode: AddrMode::Imp, length: 1, cycles: 2 },
        0xF9 => Inst { mnemonic: Mnemonic::SBC, mode: AddrMode::AbsY, length: 3, cycles: 4 },
        0xFA => Inst { mnemonic: Mnemonic::NOP, mode: AddrMode::Imp, length: 1, cycles: 2 },
        0xFB => Inst { mnemonic: Mnemonic::XXX, mode: AddrMode::AbsY, length: 3, cycles: 7 },
        0xFC => Inst { mnemonic: Mnemonic::NOP, mode: AddrMode::AbsX, length: 3, cycles: 4 },
        0xFD => Inst { mnemonic: Mnemonic::SBC, mode: AddrMode::AbsX, length: 3, cycles: 4 },
        0xFE => Inst { mnemonic: Mnemonic::INC, mode: AddrMode::AbsX, length: 3, cycles: 7 },
        0xFF => Inst { mnemonic: Mnemonic::XXX, mode: AddrMode::AbsX, length: 3, cycles: 7 },
    }
}

/// Every opcode table entry is internally consistent: the declared
/// instruction length is the opcode byte plus exactly the operand bytes
/// its addressing mode consumes; and the base cycle count lies between
/// 2 and 8 (7 for BRK, 8 for the longest unofficial read-modify-write
/// timings).
#[verifier::rlimit(100)]
pub proof fn lemma_opcode_table_consistent(opcode: u8)
    ensures
        opcode_entry(opcode).length == mode_bytes(opcode_entry(opcode).mode) + 1,
        2 <= opcode_entry(opcode).cycles <= 8,
{
}

use crate::addr::{operand, page, word};
use crate::cpu::{
    byte_of_flags, flags_of_byte, pull_spec, push_spec, CpuFlags, CpuState,
};

/// Flags with Negative and Zero taken from a result byte.
pub open spec fn nz(f: CpuFlags, v: u8) -> CpuFlags {
    CpuFlags { negative: v >= 128, zero: v == 0, ..f }
}

/// The state with the current instruction's operand loaded into
/// `fetched`.
pub open spec fn fetched_state(s: CpuState) -> CpuState {
    CpuState { fetched: operand(s), ..s }
}

/// The binary add-with-carry data path shared by ADC and SBC, applied
/// to an operand byte `m`: the 16-bit intermediate sum of accumulator,
/// operand and carry-in; its low byte becomes the accumulator; Carry is
/// the carry-out, Zero and Negative come from the low byte, and
/// Overflow is the signed-overflow test (both addends of one sign, the
/// result byte of the other).
pub open spec fn adc_core(s: CpuState, m: u8) -> CpuState {
    let sum = s.acc + m + (if s.flags.carry {
        1int
    } else {
        0int
    });
    let res = (sum % 256) as u8;
    CpuState {
        acc: res,
        flags: CpuFlags {
            negative: res >= 128,
            overflow: ((s.acc >= 128) <==> (m >= 128)) && !((s.acc >= 128) <==> (res >= 128)),
            zero: res == 0,
            carry: sum > 255,
            ..s.flags
        },
        ..s
    }
}

/// ADC: add the operand and the carry to the accumulator.
pub open spec fn adc_spec(s: CpuState) -> CpuState {
    adc_core(fetched_state(s), operand(s))
}

/// SBC: identical to ADC on the ones' complement of the operand, which
/// computes A - M - (1 - C).
pub open spec fn sbc_spec(s: CpuState) -> CpuState {
    adc_core(fetched_state(s), (255 - operand(s)) as u8)
}

/// AND: bitwise and into the accumulator; N and Z from the result.
pub open spec fn and_spec(s: CpuState) -> CpuState {
    let v = s.acc & operand(s);
    CpuState { acc: v, flags: nz(s.flags, v), ..fetched_state(s) }
}

/// ORA: bitwise or into the accumulator; N and Z from the result.
pub open spec fn ora_spec(s: CpuState) -> CpuState {
    let v = s.acc | operand(s);
    CpuState { acc: v, flags: nz(s.flags, v), ..fetched_state(s) }
}

/// EOR: bitwise exclusive or into the accumulator; N and Z from the
/// result. The accumulator itself is updated, as for AND and ORA.
pub open spec fn eor_spec(s: CpuState) -> CpuState {
    let v = s.acc ^ operand(s);
    CpuState { acc: v, flags: nz(s.flags, v), ..fetched_state(s) }
}

/// The compare data path shared by CMP, CPX and CPY: N and Z from the
/// wrapping difference, Carry exactly when the register is no smaller
/// than the operand.
pub open spec fn cmp_core(f: CpuFlags, reg: u8, m: u8) -> CpuFlags {
    CpuFlags { negative: reg.wrapping_sub(m) >= 128, zero: reg == m, carry: reg >= m, ..f }
}

/// CMP: compare the accumulator with the operand.
pub open spec fn cmp_spec(s: CpuState) -> CpuState {
    CpuState { flags: cmp_core(s.flags, s.acc, operand(s)), ..fetched_state(s) }
}

/// CPX: compare the X register with the operand.
pub open spec fn cpx_spec(s: CpuState) -> CpuState {
    CpuState { flags: cmp_core(s.flags, s.x, operand(s)), ..fetched_state(s) }
}

/// CPY: compare the Y register with the operand.
pub open spec fn cpy_spec(s: CpuState) -> CpuState {
    CpuState { flags: cmp_core(s.flags, s.y, operand(s)), ..fetched_state(s) }
}

/// BIT: Z from the accumulator masked with the operand; N and V copy
/// bits 7 and 6 of the operand.
pub open spec fn bit_spec(s: CpuState) -> CpuState {
    let m = operand(s);
    CpuState {
        flags: CpuFlags {
            zero: s.acc & m == 0,
            negative: m >= 128,
            overflow: (m / 64) % 2 == 1,
            ..s.flags
        },
        ..fetched_state(s)
    }
}

/// Writes a shift result where the current opcode directs it: to the
/// accumulator under the implied/accumulator mode, to the effective
/// address otherwise.
pub open spec fn shift_dest(s: CpuState, v: u8) -> CpuState {
    if opcode_entry(s.opcode).mode == AddrMode::Imp {
        CpuState { acc: v, ..s }
    } else {
        s.with_mem(s.eff_addr, v)
    }
}

/// ASL: shift left one bit; the old bit 7 becomes the carry.
pub open spec fn asl_spec(s: CpuState) -> CpuState {
    let m = operand(s);
    let v = ((m * 2) % 256) as u8;
    let s1 = CpuState {
        flags: CpuFlags { carry: m >= 128, ..nz(s.flags, v) },
        ..fetched_state(s)
    };
    shift_dest(s1, v)
}

/// LSR: shift right one bit; the old bit 0 becomes the carry.
pub open spec fn lsr_spec(s: CpuState) -> CpuState {
    let m = operand(s);
    let v = (m / 2) as u8;
    let s1 = CpuState {
        flags: CpuFlags { carry: m % 2 == 1, ..nz(s.flags, v) },
        ..fetched_state(s)
    };
    shift_dest(s1, v)
}

/// ROL: rotate left through the carry.
pub open spec fn rol_spec(s: CpuState) -> CpuState {
    let m = operand(s);
    let v = ((m * 2 + (if s.flags.carry {
        1int
    } else {
        0int
    })) % 256) as u8;
    let s1 = CpuState {
        flags: CpuFlags { carry: m >= 128, ..nz(s.flags, v) },
        ..fetched_state(s)
    };
    shift_dest(s1, v)
}

/// ROR: rotate right through the carry.
pub open spec fn ror_spec(s: CpuState) -> CpuState {
    let m = operand(s);
    let v = (m / 2 + (if s.flags.carry {
        128int
    } else {
        0int
    })) as u8;
    let s1 = CpuState {
        flags: CpuFlags { carry: m % 2 == 1, ..nz(s.flags, v) },
        ..fetched_state(s)
    };
    shift_dest(s1, v)
}

/// INC: increment the byte at the effective address (never the
/// accumulator); N and Z from the truncated result.
pub open spec fn inc_spec(s: CpuState) -> CpuState {
    let m = operand(s);
    let v = m.wrapping_add(1);
    let s1 = CpuState { flags: nz(s.flags, v), ..fetched_state(s) };
    s1.with_mem(s.eff_addr, v)
}

/// DEC: decrement the byte at the effective address; N and Z from the
/// truncated result.
pub open spec fn dec_spec(s: CpuState) -> CpuState {
    let m = operand(s);
    let v = m.wrapping_sub(1);
    let s1 = CpuState { flags: nz(s.flags, v), ..fetched_state(s) };
    s1.with_mem(s.eff_addr, v)
}

/// LDA: load the accumulator; N and Z from the value.
pub open spec fn lda_spec(s: CpuState) -> CpuState {
    let m = operand(s);
    CpuState { acc: m, flags: nz(s.flags, m), ..fetched_state(s) }
}

/// LDX: load the X register; N and Z from the value.
pub open spec fn ldx_spec(s: CpuState) -> CpuState {
    let m = operand(s);
    CpuState { x: m, flags: nz(s.flags, m), ..fetched_state(s) }
}

/// LDY: load the Y register; N and Z from the value.
pub open spec fn ldy_spec(s: CpuState) -> CpuState {
    let m = operand(s);
    CpuState { y: m, flags: nz(s.flags, m), ..fetched_state(s) }
}

/// STA: store the accumulator at the effective address; no flags.
pub open spec fn sta_spec(s: CpuState) -> CpuState {
    s.with_mem(s.eff_addr, s.acc)
}

/// STX: store the X register at the effective address; no flags.
pub open spec fn stx_spec(s: CpuState) -> CpuState {
    s.with_mem(s.eff_addr, s.x)
}

/// STY: store the Y register at the effective address; no flags.
pub open spec fn sty_spec(s: CpuState) -> CpuState {
    s.with_mem(s.eff_addr, s.y)
}

/// TAX: copy the accumulator to X; N and Z from the value.
pub open spec fn tax_spec(s: CpuState) -> CpuState {
    CpuState { x: s.acc, flags: nz(s.flags, s.acc), ..s }
}

/// TXA: copy X to the accumulator; N and Z from the value.
pub open spec fn txa_spec(s: CpuState) -> CpuState {
    CpuState { acc: s.x, flags: nz(s.flags, s.x), ..s }
}

/// TAY: copy the accumulator to Y; N and Z from the value.
pub open spec fn tay_spec(s: CpuState) -> CpuState {
    CpuState { y: s.acc, flags: nz(s.flags, s.acc), ..s }
}

/// TYA: copy Y to the accumulator; N and Z from the value.
pub open spec fn tya_spec(s: CpuState) -> CpuState {
    CpuState { acc: s.y, flags: nz(s.flags, s.y), ..s }
}

/// TSX: copy the stack pointer to X; N and Z from the value.
pub open spec fn tsx_spec(s: CpuState) -> CpuState {
    CpuState { x: s.sp, flags: nz(s.flags, s.sp), ..s }
}

/// TXS: copy X to the stack pointer; no flags.
pub open spec fn txs_spec(s: CpuState) -> CpuState {
    CpuState { sp: s.x, ..s }
}

/// INX: increment X with an 8-bit wrap; N and Z from the result.
pub open spec fn inx_spec(s: CpuState) -> CpuState {
    let v = s.x.wrapping_add(1);
    CpuState { x: v, flags: nz(s.flags, v), ..s }
}

/// INY: increment Y with an 8-bit wrap; N and Z from the result.
pub open spec fn iny_spec(s: CpuState) -> CpuState {
    let v = s.y.wrapping_add(1);
    CpuState { y: v, flags: nz(s.flags, v), ..s }
}

/// DEX: decrement X with an 8-bit wrap; N and Z from the result.
pub open spec fn dex_spec(s: CpuState) -> CpuState {
    let v = s.x.wrapping_sub(1);
    CpuState { x: v, flags: nz(s.flags, v), ..s }
}

/// DEY: decrement Y with an 8-bit wrap; N and Z from the result.
pub open spec fn dey_spec(s: CpuState) -> CpuState {
    let v = s.y.wrapping_sub(1);
    CpuState { y: v, flags: nz(s.flags, v), ..s }
}

/// CLC: clear the carry flag.
pub open spec fn clc_spec(s: CpuState) -> CpuState {
    CpuState { flags: CpuFlags { carry: false, ..s.flags }, ..s }
}

/// SEC: set the carry flag.
pub open spec fn sec_spec(s: CpuState) -> CpuState {
    CpuState { flags: CpuFlags { carry: true, ..s.flags }, ..s }
}

/// CLI: clear the interrupt-disable flag.
pub open spec fn cli_spec(s: CpuState) -> CpuState {
    CpuState { flags: CpuFlags { interrupt: false, ..s.flags }, ..s }
}

/// SEI: set the interrupt-disable flag.
pub open spec fn sei_spec(s: CpuState) -> CpuState {
    CpuState { flags: CpuFlags { interrupt: true, ..s.flags }, ..s }
}

/// CLV: clear the overflow flag.
pub open spec fn clv_spec(s: CpuState) -> CpuState {
    CpuState { flags: CpuFlags { overflow: false, ..s.flags }, ..s }
}

/// CLD: clear the decimal flag.
pub open spec fn cld_spec(s: CpuState) -> CpuState {
    CpuState { flags: CpuFlags { decimal: false, ..s.flags }, ..s }
}

/// SED: set the decimal flag.
pub open spec fn sed_spec(s: CpuState) -> CpuState {
    CpuState { flags: CpuFlags { decimal: true, ..s.flags }, ..s }
}

/// Which mnemonics are the eight conditional branches.
pub open spec fn is_branch(m: Mnemonic) -> bool {
    m == Mnemonic::BPL || m == Mnemonic::BMI || m == Mnemonic::BVC || m == Mnemonic::BVS || m
        == Mnemonic::BCC || m == Mnemonic::BCS || m == Mnemonic::BNE || m == Mnemonic::BEQ
}

/// The flag predicate a branch mnemonic tests.
pub open spec fn branch_cond(m: Mnemonic, f: CpuFlags) -> bool {
    match m {
        Mnemonic::BPL => !f.negative,
        Mnemonic::BMI => f.negative,
        Mnemonic::BVC => !f.overflow,
        Mnemonic::BVS => f.overflow,
        Mnemonic::BCC => !f.carry,
        Mnemonic::BCS => f.carry,
        Mnemonic::BNE => !f.zero,
        Mnemonic::BEQ => f.zero,
        _ => false,
    }
}

/// The branch helper: when the condition holds, one extra cycle is
/// charged, a second one when the precomputed target (`eff_addr`, from
/// the relative mode) lies on another page than the program counter
/// taken after the branch's two instruction bytes, and the program
/// counter moves to the target. When the condition fails nothing
/// changes.
pub open spec fn branch_spec(s: CpuState, cond: bool) -> CpuState {
    if cond {
        let extra: int = if page(s.eff_addr) == page(s.pc) {
            1
        } else {
            2
        };
        CpuState { cycles: (s.cycles + extra) as u8, pc: s.eff_addr, ..s }
    } else {
        s
    }
}

/// JMP: the program counter moves to the effective address.
pub open spec fn jmp_spec(s: CpuState) -> CpuState {
    CpuState { pc: s.eff_addr, ..s }
}

/// JSR: pushes the address of the last byte of the JSR instruction
/// (PC - 1), high byte first, then jumps to the effective address.
pub open spec fn jsr_spec(s: CpuState) -> CpuState {
    let ret = s.pc.wrapping_sub(1);
    let s1 = push_spec(s, (ret / 256) as u8);
    let s2 = push_spec(s1, (ret % 256) as u8);
    CpuState { pc: s.eff_addr, ..s2 }
}

/// RTS: pulls the low then the high return-address byte and resumes one
/// past the reconstructed address.
pub open spec fn rts_spec(s: CpuState) -> CpuState {
    let (s1, lo) = pull_spec(s);
    let (s2, hi) = pull_spec(s1);
    CpuState { pc: word(lo, hi).wrapping_add(1), ..s2 }
}

/// PHA: push the accumulator; no flags.
pub open spec fn pha_spec(s: CpuState) -> CpuState {
    push_spec(s, s.acc)
}

/// PLA: pull the accumulator; N and Z from the value.
pub open spec fn pla_spec(s: CpuState) -> CpuState {
    let (s1, v) = pull_spec(s);
    CpuState { acc: v, flags: nz(s1.flags, v), ..s1 }
}

/// PHP: push the status byte with Break and Unused forced to 1; the
/// flag register itself is untouched.
pub open spec fn php_spec(s: CpuState) -> CpuState {
    push_spec(s, byte_of_flags(CpuFlags { brk: true, ignored: true, ..s.flags }))
}

/// PLP: restore all flags from the pulled byte, except that Break and
/// Unused are forced to 0 afterwards.
pub open spec fn plp_spec(s: CpuState) -> CpuState {
    let (s1, v) = pull_spec(s);
    CpuState { flags: CpuFlags { brk: false, ignored: false, ..flags_of_byte(v) }, ..s1 }
}

/// BRK: steps past the padding operand byte, sets interrupt disable,
/// pushes the program counter high byte first, pushes the status byte
/// with Break and Unused set, clears Break again in the register, and
/// jumps through the IRQ/BRK vector at 0xFFFE/0xFFFF.
pub open spec fn brk_spec(s: CpuState) -> CpuState {
    let pc1 = s.pc.wrapping_add(1);
    let s1 = CpuState { pc: pc1, flags: CpuFlags { interrupt: true, ..s.flags }, ..s };
    let s2 = push_spec(s1, (pc1 / 256) as u8);
    let s3 = push_spec(s2, (pc1 % 256) as u8);
    let s4 = push_spec(s3, byte_of_flags(CpuFlags { brk: true, ignored: true, ..s1.flags }));
    let s5 = CpuState { flags: CpuFlags { brk: false, ..s4.flags }, ..s4 };
    CpuState { pc: word(s5.mem(0xFFFE), s5.mem(0xFFFF)), ..s5 }
}

/// RTI: pulls the status byte (Break and Unused forced to 0 as for
/// PLP), then the program counter, low byte first.
pub open spec fn rti_spec(s: CpuState) -> CpuState {
    let (s1, b) = pull_spec(s);
    let s2 = CpuState { flags: CpuFlags { brk: false, ignored: false, ..flags_of_byte(b) }, ..s1 };
    let (s3, lo) = pull_spec(s2);
    let (s4, hi) = pull_spec(s3);
    CpuState { pc: word(lo, hi), ..s4 }
}

/// Which instructions can be charged the extra page-crossing cycle:
/// the read instructions whose documented timing carries a "+1 when a
/// page is crossed" note, and the six unofficial absolute,X no-ops
/// that share that timing.
pub open spec fn eligible(m: Mnemonic, opcode: u8) -> bool {
    match m {
        Mnemonic::ADC => true,
        Mnemonic::AND => true,
        Mnemonic::CMP => true,
        Mnemonic::CPX => true,
        Mnemonic::CPY => true,
        Mnemonic::EOR => true,
        Mnemonic::LDA => true,
        Mnemonic::LDX => true,
        Mnemonic::LDY => true,
        Mnemonic::ORA => true,
        Mnemonic::SBC => true,
        Mnemonic::NOP => opcode == 0x1C || opcode == 0x3C || opcode == 0x5C || opcode == 0x7C
            || opcode == 0xDC || opcode == 0xFC,
        _ => false,
    }
}

/// The instructions that rewrite the program counter themselves: the
/// eight conditional branches and the five unconditional transfers of
/// control.
pub open spec fn is_control(m: Mnemonic) -> bool {
    is_branch(m) || m == Mnemonic::JMP || m == Mnemonic::JSR || m == Mnemonic::RTS || m
        == Mnemonic::RTI || m == Mnemonic::BRK
}

/// No instruction outside the control-flow set moves the program
/// counter: sequential flow is decided by decode and addressing alone.
pub proof fn lemma_op_keeps_pc(m: Mnemonic, s: CpuState)
    requires
        !is_control(m),
    ensures
        op_spec(m, s).pc == s.pc,
{
}

/// An instruction's own semantics charge at most the two taken-branch
/// extras on top of what the dispatcher already set.
pub proof fn lemma_op_cycle_bounds(m: Mnemonic, s: CpuState)
    requires
        s.cycles <= 0xFD,
    ensures
        s.cycles <= op_spec(m, s).cycles <= s.cycles + 2,
        !is_branch(m) ==> op_spec(m, s).cycles == s.cycles,
{
}

/// The instructions that can earn the page-crossing cycle never touch
/// the cycle counter themselves (only taken branches do).
pub proof fn lemma_eligible_keeps_cycles(m: Mnemonic, s: CpuState, op: u8)
    requires
        eligible(m, op),
    ensures
        op_spec(m, s).cycles == s.cycles,
{
}

/// The semantic step of one mnemonic, after addressing resolution.
/// Unofficial opcodes (`XXX`) and NOP change nothing.
pub open spec fn op_spec(m: Mnemonic, s: CpuState) -> CpuState {
    match m {
        Mnemonic::XXX => s,
        Mnemonic::ADC => adc_spec(s),
        Mnemonic::AND => and_spec(s),
        Mnemonic::ASL => asl_spec(s),
        Mnemonic::BCC => branch_spec(s, !s.flags.carry),
        Mnemonic::BCS => branch_spec(s, s.flags.carry),
        Mnemonic::BEQ => branch_spec(s, s.flags.zero),
        Mnemonic::BIT => bit_spec(s),
        Mnemonic::BMI => branch_spec(s, s.flags.negative),
        Mnemonic::BNE => branch_spec(s, !s.flags.zero),
        Mnemonic::BPL => branch_spec(s, !s.flags.negative),
        Mnemonic::BRK => brk_spec(s),
        Mnemonic::BVC => branch_spec(s, !s.flags.overflow),
        Mnemonic::BVS => branch_spec(s, s.flags.overflow),
        Mnemonic::CLC => clc_spec(s),
        Mnemonic::CLD => cld_spec(s),
        Mnemonic::CLI => cli_spec(s),
        Mnemonic::CLV => clv_spec(s),
        Mnemonic::CMP => cmp_spec(s),
        Mnemonic::CPX => cpx_spec(s),
        Mnemonic::CPY => cpy_spec(s),
        Mnemonic::DEC => dec_spec(s),
        Mnemonic::DEX => dex_spec(s),
        Mnemonic::DEY => dey_spec(s),
        Mnemonic::EOR => eor_spec(s),
        Mnemonic::INC => inc_spec(s),
        Mnemonic::INX => inx_spec(s),
        Mnemonic::INY => iny_spec(s),
        Mnemonic::JMP => jmp_spec(s),
        Mnemonic::JSR => jsr_spec(s),
        Mnemonic::LDA => lda_spec(s),
        Mnemonic::LDX => ldx_spec(s),
        Mnemonic::LDY => ldy_spec(s),
        Mnemonic::LSR => lsr_spec(s),
        Mnemonic::NOP => s,
        Mnemonic::ORA => ora_spec(s),
        Mnemonic::PHA => pha_spec(s),
        Mnemonic::PHP => php_spec(s),
        Mnemonic::PLA => pla_spec(s),
        Mnemonic::PLP => plp_spec(s),
        Mnemonic::ROL => rol_spec(s),
        Mnemonic::ROR => ror_spec(s),
        Mnemonic::RTI => rti_spec(s),
        Mnemonic::RTS => rts_spec(s),
        Mnemonic::SBC => sbc_spec(s),
        Mnemonic::SEC => sec_spec(s),
        Mnemonic::SED => sed_spec(s),
        Mnemonic::SEI => sei_spec(s),
        Mnemonic::STA => sta_spec(s),
        Mnemonic::STX => stx_spec(s),
        Mnemonic::STY => sty_spec(s),
        Mnemonic::TAX => tax_spec(s),
        Mnemonic::TAY => tay_spec(s),
        Mnemonic::TSX => tsx_spec(s),
        Mnemonic::TXA => txa_spec(s),
        Mnemonic::TXS => txs_spec(s),
        Mnemonic::TYA => tya_spec(s),
    }
}

use crate::cpu::CPU;

/// The instruction semantics: one method per mnemonic, run by the
/// dispatcher after addressing resolution. Each returns whether the
/// instruction is eligible for the page-crossing extra cycle.
pub trait Inst6502 {
    /// What the instruction semantics rely on of the state they run in.
    spec fn exec_inv(&self) -> bool;

    /// Headroom on the cycle counter for the taken-branch extras.
    spec fn cycle_room(&self) -> bool;

    fn execute_op(&mut self) -> bool
        requires
            old(self).exec_inv(),
            old(self).cycle_room(),
    ;

    fn jump_if(&mut self, pred: bool) -> bool
        requires
            old(self).exec_inv(),
            old(self).cycle_room(),
    ;

    fn bpl(&mut self) -> bool
        requires
            old(self).exec_inv(),
            old(self).cycle_room(),
    ;

    fn bmi(&mut self) -> bool
        requires
            old(self).exec_inv(),
            old(self).cycle_room(),
    ;

    fn bvc(&mut self) -> bool
        requires
            old(self).exec_inv(),
            old(self).cycle_room(),
    ;

    fn bvs(&mut self) -> bool
        requires
            old(self).exec_inv(),
            old(self).cycle_room(),
    ;

    fn bcc(&mut self) -> bool
        requires
            old(self).exec_inv(),
            old(self).cycle_room(),
    ;

    fn bcs(&mut self) -> bool
        requires
            old(self).exec_inv(),
            old(self).cycle_room(),
    ;

    fn bne(&mut self) -> bool
        requires
            old(self).exec_inv(),
            old(self).cycle_room(),
    ;

    fn beq(&mut self) -> bool
        requires
            old(self).exec_inv(),
            old(self).cycle_room(),
    ;

    fn adc(&mut self) -> bool
        requires
            old(self).exec_inv(),
    ;

    fn sbc(&mut self) -> bool
        requires
            old(self).exec_inv(),
    ;

    fn and(&mut self) -> bool
        requires
            old(self).exec_inv(),
    ;

    fn ora(&mut self) -> bool
        requires
            old(self).exec_inv(),
    ;

    fn eor(&mut self) -> bool
        requires
            old(self).exec_inv(),
    ;

    fn cmp(&mut self) -> bool
        requires
            old(self).exec_inv(),
    ;

    fn cpx(&mut self) -> bool
        requires
            old(self).exec_inv(),
    ;

    fn cpy(&mut self) -> bool
        requires
            old(self).exec_inv(),
    ;

    fn bit(&mut self) -> bool
        requires
            old(self).exec_inv(),
    ;

    fn asl(&mut self) -> bool
        requires
            old(self).exec_inv(),
    ;

    fn lsr(&mut self) -> bool
        requires
            old(self).exec_inv(),
    ;

    fn rol(&mut self) -> bool
        requires
            old(self).exec_inv(),
    ;

    fn ror(&mut self) -> bool
        requires
            old(self).exec_inv(),
    ;

    fn inc(&mut self) -> bool
        requires
            old(self).exec_inv(),
    ;

    fn dec(&mut self) -> bool
        requires
            old(self).exec_inv(),
    ;

    fn lda(&mut self) -> bool
        requires
            old(self).exec_inv(),
    ;

    fn ldx(&mut self) -> bool
        requires
            old(self).exec_inv(),
    ;

    fn ldy(&mut self) -> bool
        requires
            old(self).exec_inv(),
    ;

    fn sta(&mut self) -> bool
        requires
            old(self).exec_inv(),
    ;

    fn stx(&mut self) -> bool
        requires
            old(self).exec_inv(),
    ;

    fn sty(&mut self) -> bool
        requires
            old(self).exec_inv(),
    ;

    fn tax(&mut self) -> bool
        requires
            old(self).exec_inv(),
    ;

    fn txa(&mut self) -> bool
        requires
            old(self).exec_inv(),
    ;

    fn tay(&mut self) -> bool
        requires
            old(self).exec_inv(),
    ;

    fn tya(&mut self) -> bool
        requires
            old(self).exec_inv(),
    ;

    fn tsx(&mut self) -> bool
        requires
            old(self).exec_inv(),
    ;

    fn txs(&mut self) -> bool
        requires
            old(self).exec_inv(),
    ;

    fn inx(&mut self) -> bool
        requires
            old(self).exec_inv(),
    ;

    fn iny(&mut self) -> bool
        requires
            old(self).exec_inv(),
    ;

    fn dex(&mut self) -> bool
        requires
            old(self).exec_inv(),
    ;

    fn dey(&mut self) -> bool
        requires
            old(self).exec_inv(),
    ;

    fn clc(&mut self) -> bool
        requires
            old(self).exec_inv(),
    ;

    fn sec(&mut self) -> bool
        requires
            old(self).exec_inv(),
    ;

    fn cli(&mut self) -> bool
        requires
            old(self).exec_inv(),
    ;

    fn sei(&mut self) -> bool
        requires
            old(self).exec_inv(),
    ;

    fn clv(&mut self) -> bool
        requires
            old(self).exec_inv(),
    ;

    fn cld(&mut self) -> bool
        requires
            old(self).exec_inv(),
    ;

    fn sed(&mut self) -> bool
        requires
            old(self).exec_inv(),
    ;

    fn jmp(&mut self) -> bool
        requires
            old(self).exec_inv(),
    ;

    fn jsr(&mut self) -> bool
        requires
            old(self).exec_inv(),
    ;

    fn rts(&mut self) -> bool
        requires
            old(self).exec_inv(),
    ;

    fn pha(&mut self) -> bool
        requires
            old(self).exec_inv(),
    ;

    fn pla(&mut self) -> bool
        requires
            old(self).exec_inv(),
    ;

    fn php(&mut self) -> bool
        requires
            old(self).exec_inv(),
    ;

    fn plp(&mut self) -> bool
        requires
            old(self).exec_inv(),
    ;

    fn brk(&mut self) -> bool
        requires
            old(self).exec_inv(),
    ;

    fn rti(&mut self) -> bool
        requires
            old(self).exec_inv(),
    ;

    fn nop(&mut self) -> bool
        requires
            old(self).exec_inv(),
    ;

    fn xxx(&mut self) -> bool
        requires
            old(self).exec_inv(),
    ;

}

impl Inst6502 for CPU {
    /// The semantics rely on the CPU's well-formedness.
    open spec fn exec_inv(&self) -> bool {
        self.wf()
    }

    /// Room for the two taken-branch extra cycles.
    open spec fn cycle_room(&self) -> bool {
        self.cycles <= 0xFD
    }

    /// The branch helper: charges one cycle when the condition holds,
    /// a second one when the precomputed target lies on another page
    /// than the program counter, and then moves the program counter to
    /// the target. The relative addressing mode must have run first,
    /// so that `eff_addr` holds the candidate target.
    fn jump_if(&mut self, pred: bool) -> (extra: bool)
        ensures
            final(self).wf(),
            final(self)@ == branch_spec(old(self)@, pred),
            extra == false,
    {
        if pred {
            self.cycles = self.cycles + 1;
            let addr = self.eff_addr;
            proof {
                crate::bits::lemma_u16_high_mask(addr);
                crate::bits::lemma_u16_high_mask(self.pc);
            }
            if (addr & 0xFF00) != (self.pc & 0xFF00) {
                self.cycles = self.cycles + 1;
            }
            self.pc = addr;
        }
        false
    }

    /// ADC: add with carry.
    fn adc(&mut self) -> (extra: bool)
        ensures
            final(self).wf(),
            final(self)@ == adc_spec(old(self)@),
            extra == true,
    {
        self.fetch();
        let a = self.acc;
        let m = self.fetched;
        let sum: u16 = a as u16 + m as u16 + if self.flags.carry {
            1
        } else {
            0
        };
        proof {
            crate::bits::lemma_u16_bit7(sum);
            crate::bits::lemma_u16_low_mask(sum);
            crate::bits::lemma_overflow_flag(a, m, sum);
        }
        self.flags.negative = sum & 0x80 != 0;
        self.flags.overflow = (!(a as u16 ^ m as u16) & (a as u16 ^ sum)) & 0x80 != 0;
        self.flags.zero = sum & 0x00FF == 0;
        self.flags.carry = sum > 0xFF;
        self.acc = (sum & 0x00FF) as u8;
        true
    }

    /// SBC: subtract with carry, via the ones' complement of the
    /// operand on the ADC data path.
    fn sbc(&mut self) -> (extra: bool)
        ensures
            final(self).wf(),
            final(self)@ == sbc_spec(old(self)@),
            extra == true,
    {
        self.fetch();
        let a = self.acc;
        let m = self.fetched ^ 0xFF;
        proof {
            crate::bits::lemma_u8_xor_ff(self.fetched);
        }
        let sum: u16 = a as u16 + m as u16 + if self.flags.carry {
            1
        } else {
            0
        };
        proof {
            crate::bits::lemma_u16_bit7(sum);
            crate::bits::lemma_u16_low_mask(sum);
            crate::bits::lemma_overflow_flag(a, m, sum);
        }
        self.flags.negative = sum & 0x80 != 0;
        self.flags.overflow = (!(a as u16 ^ m as u16) & (a as u16 ^ sum)) & 0x80 != 0;
        self.flags.zero = sum & 0x00FF == 0;
        self.flags.carry = sum > 0xFF;
        self.acc = (sum & 0x00FF) as u8;
        true
    }

    /// AND: bitwise and with the accumulator.
    fn and(&mut self) -> (extra: bool)
        ensures
            final(self).wf(),
            final(self)@ == and_spec(old(self)@),
            extra == true,
    {
        self.fetch();
        let v = self.acc & self.fetched;
        self.acc = v;
        proof {
            crate::bits::lemma_u8_bit7(v);
        }
        self.flags.negative = v & 0x80 != 0;
        self.flags.zero = v == 0;
        true
    }

    /// ORA: bitwise or with the accumulator.
    fn ora(&mut self) -> (extra: bool)
        ensures
            final(self).wf(),
            final(self)@ == ora_spec(old(self)@),
            extra == true,
    {
        self.fetch();
        let v = self.acc | self.fetched;
        self.acc = v;
        proof {
            crate::bits::lemma_u8_bit7(v);
        }
        self.flags.negative = v & 0x80 != 0;
        self.flags.zero = v == 0;
        true
    }

    /// EOR: bitwise exclusive or with the accumulator.
    fn eor(&mut self) -> (extra: bool)
        ensures
            final(self).wf(),
            final(self)@ == eor_spec(old(self)@),
            extra == true,
    {
        self.fetch();
        let v = self.acc ^ self.fetched;
        self.acc = v;
        proof {
            crate::bits::lemma_u8_bit7(v);
        }
        self.flags.negative = v & 0x80 != 0;
        self.flags.zero = v == 0;
        true
    }

    /// CMP: compare the accumulator with the operand.
    fn cmp(&mut self) -> (extra: bool)
        ensures
            final(self).wf(),
            final(self)@ == cmp_spec(old(self)@),
            extra == true,
    {
        self.fetch();
        let r = self.acc;
        let m = self.fetched;
        let d = r.wrapping_sub(m);
        proof {
            crate::bits::lemma_u8_bit7(d);
        }
        self.flags.negative = d & 0x80 != 0;
        self.flags.zero = d == 0;
        self.flags.carry = r >= m;
        true
    }

    /// CPX: compare the X register with the operand.
    fn cpx(&mut self) -> (extra: bool)
        ensures
            final(self).wf(),
            final(self)@ == cpx_spec(old(self)@),
            extra == true,
    {
        self.fetch();
        let r = self.x;
        let m = self.fetched;
        let d = r.wrapping_sub(m);
        proof {
            crate::bits::lemma_u8_bit7(d);
        }
        self.flags.negative = d & 0x80 != 0;
        self.flags.zero = d == 0;
        self.flags.carry = r >= m;
        true
    }

    /// CPY: compare the Y register with the operand.
    fn cpy(&mut self) -> (extra: bool)
        ensures
            final(self).wf(),
            final(self)@ == cpy_spec(old(self)@),
            extra == true,
    {
        self.fetch();
        let r = self.y;
        let m = self.fetched;
        let d = r.wrapping_sub(m);
        proof {
            crate::bits::lemma_u8_bit7(d);
        }
        self.flags.negative = d & 0x80 != 0;
        self.flags.zero = d == 0;
        self.flags.carry = r >= m;
        true
    }

    /// BIT: test bits of the operand against the accumulator.
    fn bit(&mut self) -> (extra: bool)
        ensures
            final(self).wf(),
            final(self)@ == bit_spec(old(self)@),
            extra == false,
    {
        self.fetch();
        let m = self.fetched;
        proof {
            crate::bits::lemma_u8_bit7(m);
            crate::bits::lemma_u8_bit6(m);
        }
        self.flags.zero = (self.acc & m) == 0;
        self.flags.negative = m & 0x80 != 0;
        self.flags.overflow = m & 0x40 != 0;
        false
    }

    /// ASL: arithmetic shift left, to the accumulator or to memory.
    fn asl(&mut self) -> (extra: bool)
        ensures
            final(self).wf(),
            final(self)@ == asl_spec(old(self)@),
            extra == false,
    {
        self.fetch();
        let m = self.fetched;
        let v = m << 1;
        proof {
            crate::bits::lemma_u8_shl1(m);
            crate::bits::lemma_u8_bit7(v);
            crate::bits::lemma_u8_bit7(m);
        }
        self.flags.negative = v & 0x80 != 0;
        self.flags.zero = v == 0;
        self.flags.carry = m & 0x80 != 0;
        let entry = instruction(self.opcode);
        if entry.mode == AddrMode::Imp {
            self.acc = v;
        } else {
            let addr = self.eff_addr;
            self.write(addr, v);
        }
        false
    }

    /// LSR: logical shift right, to the accumulator or to memory.
    fn lsr(&mut self) -> (extra: bool)
        ensures
            final(self).wf(),
            final(self)@ == lsr_spec(old(self)@),
            extra == false,
    {
        self.fetch();
        let m = self.fetched;
        let v = m >> 1;
        proof {
            crate::bits::lemma_u8_shr1(m);
            crate::bits::lemma_u8_bit7(v);
            crate::bits::lemma_u8_bit0(m);
        }
        self.flags.negative = v & 0x80 != 0;
        self.flags.zero = v == 0;
        self.flags.carry = m & 0x01 != 0;
        let entry = instruction(self.opcode);
        if entry.mode == AddrMode::Imp {
            self.acc = v;
        } else {
            let addr = self.eff_addr;
            self.write(addr, v);
        }
        false
    }

    /// ROL: rotate left through the carry, to the accumulator or to
    /// memory.
    fn rol(&mut self) -> (extra: bool)
        ensures
            final(self).wf(),
            final(self)@ == rol_spec(old(self)@),
            extra == false,
    {
        self.fetch();
        let m = self.fetched;
        let c: u8 = if self.flags.carry {
            1
        } else {
            0
        };
        let v = m << 1 | c;
        proof {
            crate::bits::lemma_u8_shl1_carry(m, c);
            crate::bits::lemma_u8_bit7(v);
            crate::bits::lemma_u8_bit7(m);
        }
        self.flags.negative = v & 0x80 != 0;
        self.flags.zero = v == 0;
        self.flags.carry = m & 0x80 != 0;
        let entry = instruction(self.opcode);
        if entry.mode == AddrMode::Imp {
            self.acc = v;
        } else {
            let addr = self.eff_addr;
            self.write(addr, v);
        }
        false
    }

    /// ROR: rotate right through the carry, to the accumulator or to
    /// memory.
    fn ror(&mut self) -> (extra: bool)
        ensures
            final(self).wf(),
            final(self)@ == ror_spec(old(self)@),
            extra == false,
    {
        self.fetch();
        let m = self.fetched;
        let c: u8 = if self.flags.carry {
            1
        } else {
            0
        };
        let v = m >> 1 | c << 7;
        proof {
            crate::bits::lemma_u8_shr1_carry(m, c);
            crate::bits::lemma_u8_bit7(v);
            crate::bits::lemma_u8_bit0(m);
        }
        self.flags.negative = v & 0x80 != 0;
        self.flags.zero = v == 0;
        self.flags.carry = m & 0x01 != 0;
        let entry = instruction(self.opcode);
        if entry.mode == AddrMode::Imp {
            self.acc = v;
        } else {
            let addr = self.eff_addr;
            self.write(addr, v);
        }
        false
    }

    /// INC: increment the byte at the effective address.
    fn inc(&mut self) -> (extra: bool)
        ensures
            final(self).wf(),
            final(self)@ == inc_spec(old(self)@),
            extra == false,
    {
        self.fetch();
        let v = self.fetched.wrapping_add(1);
        proof {
            crate::bits::lemma_u8_bit7(v);
        }
        self.flags.negative = v & 0x80 != 0;
        self.flags.zero = v == 0;
        let addr = self.eff_addr;
        self.write(addr, v);
        false
    }

    /// DEC: decrement the byte at the effective address.
    fn dec(&mut self) -> (extra: bool)
        ensures
            final(self).wf(),
            final(self)@ == dec_spec(old(self)@),
            extra == false,
    {
        self.fetch();
        let v = self.fetched.wrapping_sub(1);
        proof {
            crate::bits::lemma_u8_bit7(v);
        }
        self.flags.negative = v & 0x80 != 0;
        self.flags.zero = v == 0;
        let addr = self.eff_addr;
        self.write(addr, v);
        false
    }

    /// LDA: load the accumulator.
    fn lda(&mut self) -> (extra: bool)
        ensures
            final(self).wf(),
            final(self)@ == lda_spec(old(self)@),
            extra == true,
    {
        self.fetch();
        let m = self.fetched;
        self.acc = m;
        proof {
            crate::bits::lemma_u8_bit7(m);
        }
        self.flags.negative = m & 0x80 != 0;
        self.flags.zero = m == 0;
        true
    }

    /// LDX: load the X register.
    fn ldx(&mut self) -> (extra: bool)
        ensures
            final(self).wf(),
            final(self)@ == ldx_spec(old(self)@),
            extra == true,
    {
        self.fetch();
        let m = self.fetched;
        self.x = m;
        proof {
            crate::bits::lemma_u8_bit7(m);
        }
        self.flags.negative = m & 0x80 != 0;
        self.flags.zero = m == 0;
        true
    }

    /// LDY: load the Y register.
    fn ldy(&mut self) -> (extra: bool)
        ensures
            final(self).wf(),
            final(self)@ == ldy_spec(old(self)@),
            extra == true,
    {
        self.fetch();
        let m = self.fetched;
        self.y = m;
        proof {
            crate::bits::lemma_u8_bit7(m);
        }
        self.flags.negative = m & 0x80 != 0;
        self.flags.zero = m == 0;
        true
    }

    /// STA: store the accumulator.
    fn sta(&mut self) -> (extra: bool)
        ensures
            final(self).wf(),
            final(self)@ == sta_spec(old(self)@),
            extra == false,
    {
        let addr = self.eff_addr;
        let a = self.acc;
        self.write(addr, a);
        false
    }

    /// STX: store the X register.
    fn stx(&mut self) -> (extra: bool)
        ensures
            final(self).wf(),
            final(self)@ == stx_spec(old(self)@),
            extra == false,
    {
        let addr = self.eff_addr;
        let v = self.x;
        self.write(addr, v);
        false
    }

    /// STY: store the Y register.
    fn sty(&mut self) -> (extra: bool)
        ensures
            final(self).wf(),
            final(self)@ == sty_spec(old(self)@),
            extra == false,
    {
        let addr = self.eff_addr;
        let v = self.y;
        self.write(addr, v);
        false
    }

    /// TAX: transfer the accumulator to X.
    fn tax(&mut self) -> (extra: bool)
        ensures
            final(self).wf(),
            final(self)@ == tax_spec(old(self)@),
            extra == false,
    {
        let v = self.acc;
        self.x = v;
        proof {
            crate::bits::lemma_u8_bit7(v);
        }
        self.flags.negative = v & 0x80 != 0;
        self.flags.zero = v == 0;
        false
    }

    /// TXA: transfer X to the accumulator.
    fn txa(&mut self) -> (extra: bool)
        ensures
            final(self).wf(),
            final(self)@ == txa_spec(old(self)@),
            extra == false,
    {
        let v = self.x;
        self.acc = v;
        proof {
            crate::bits::lemma_u8_bit7(v);
        }
        self.flags.negative = v & 0x80 != 0;
        self.flags.zero = v == 0;
        false
    }

    /// TAY: transfer the accumulator to Y.
    fn tay(&mut self) -> (extra: bool)
        ensures
            final(self).wf(),
            final(self)@ == tay_spec(old(self)@),
            extra == false,
    {
        let v = self.acc;
        self.y = v;
        proof {
            crate::bits::lemma_u8_bit7(v);
        }
        self.flags.negative = v & 0x80 != 0;
        self.flags.zero = v == 0;
        false
    }

    /// TYA: transfer Y to the accumulator.
    fn tya(&mut self) -> (extra: bool)
        ensures
            final(self).wf(),
            final(self)@ == tya_spec(old(self)@),
            extra == false,
    {
        let v = self.y;
        self.acc = v;
        proof {
            crate::bits::lemma_u8_bit7(v);
        }
        self.flags.negative = v & 0x80 != 0;
        self.flags.zero = v == 0;
        false
    }

    /// TSX: transfer the stack pointer to X.
    fn tsx(&mut self) -> (extra: bool)
        ensures
            final(self).wf(),
            final(self)@ == tsx_spec(old(self)@),
            extra == false,
    {
        let v = self.sp;
        self.x = v;
        proof {
            crate::bits::lemma_u8_bit7(v);
        }
        self.flags.negative = v & 0x80 != 0;
        self.flags.zero = v == 0;
        false
    }

    /// TXS: transfer X to the stack pointer; no flags.
    fn txs(&mut self) -> (extra: bool)
        ensures
            final(self).wf(),
            final(self)@ == txs_spec(old(self)@),
            extra == false,
    {
        self.sp = self.x;
        false
    }

    /// INX: increment X.
    fn inx(&mut self) -> (extra: bool)
        ensures
            final(self).wf(),
            final(self)@ == inx_spec(old(self)@),
            extra == false,
    {
        let v = self.x.wrapping_add(1);
        self.x = v;
        proof {
            crate::bits::lemma_u8_bit7(v);
        }
        self.flags.negative = v & 0x80 != 0;
        self.flags.zero = v == 0;
        false
    }

    /// INY: increment Y.
    fn iny(&mut self) -> (extra: bool)
        ensures
            final(self).wf(),
            final(self)@ == iny_spec(old(self)@),
            extra == false,
    {
        let v = self.y.wrapping_add(1);
        self.y = v;
        proof {
            crate::bits::lemma_u8_bit7(v);
        }
        self.flags.negative = v & 0x80 != 0;
        self.flags.zero = v == 0;
        false
    }

    /// DEX: decrement X.
    fn dex(&mut self) -> (extra: bool)
        ensures
            final(self).wf(),
            final(self)@ == dex_spec(old(self)@),
            extra == false,
    {
        let v = self.x.wrapping_sub(1);
        self.x = v;
        proof {
            crate::bits::lemma_u8_bit7(v);
        }
        self.flags.negative = v & 0x80 != 0;
        self.flags.zero = v == 0;
        false
    }

    /// DEY: decrement Y.
    fn dey(&mut self) -> (extra: bool)
        ensures
            final(self).wf(),
            final(self)@ == dey_spec(old(self)@),
            extra == false,
    {
        let v = self.y.wrapping_sub(1);
        self.y = v;
        proof {
            crate::bits::lemma_u8_bit7(v);
        }
        self.flags.negative = v & 0x80 != 0;
        self.flags.zero = v == 0;
        false
    }

    /// CLC: clear the carry flag.
    fn clc(&mut self) -> (extra: bool)
        ensures
            final(self).wf(),
            final(self)@ == clc_spec(old(self)@),
            extra == false,
    {
        self.flags.carry = false;
        false
    }

    /// SEC: set the carry flag.
    fn sec(&mut self) -> (extra: bool)
        ensures
            final(self).wf(),
            final(self)@ == sec_spec(old(self)@),
            extra == false,
    {
        self.flags.carry = true;
        false
    }

    /// CLI: clear the interrupt-disable flag.
    fn cli(&mut self) -> (extra: bool)
        ensures
            final(self).wf(),
            final(self)@ == cli_spec(old(self)@),
            extra == false,
    {
        self.flags.interrupt = false;
        false
    }

    /// SEI: set the interrupt-disable flag.
    fn sei(&mut self) -> (extra: bool)
        ensures
            final(self).wf(),
            final(self)@ == sei_spec(old(self)@),
            extra == false,
    {
        self.flags.interrupt = true;
        false
    }

    /// CLV: clear the overflow flag.
    fn clv(&mut self) -> (extra: bool)
        ensures
            final(self).wf(),
            final(self)@ == clv_spec(old(self)@),
            extra == false,
    {
        self.flags.overflow = false;
        false
    }

    /// CLD: clear the decimal flag.
    fn cld(&mut self) -> (extra: bool)
        ensures
            final(self).wf(),
            final(self)@ == cld_spec(old(self)@),
            extra == false,
    {
        self.flags.decimal = false;
        false
    }

    /// SED: set the decimal flag.
    fn sed(&mut self) -> (extra: bool)
        ensures
            final(self).wf(),
            final(self)@ == sed_spec(old(self)@),
            extra == false,
    {
        self.flags.decimal = true;
        false
    }

    /// BPL: branch when Negative is clear.
    fn bpl(&mut self) -> (extra: bool)
        ensures
            final(self).wf(),
            final(self)@ == branch_spec(old(self)@, !old(self)@.flags.negative),
            extra == false,
    {
        let p = !self.flags.negative;
        self.jump_if(p)
    }

    /// BMI: branch when Negative is set.
    fn bmi(&mut self) -> (extra: bool)
        ensures
            final(self).wf(),
            final(self)@ == branch_spec(old(self)@, old(self)@.flags.negative),
            extra == false,
    {
        let p = self.flags.negative;
        self.jump_if(p)
    }

    /// BVC: branch when Overflow is clear.
    fn bvc(&mut self) -> (extra: bool)
        ensures
            final(self).wf(),
            final(self)@ == branch_spec(old(self)@, !old(self)@.flags.overflow),
            extra == false,
    {
        let p = !self.flags.overflow;
        self.jump_if(p)
    }

    /// BVS: branch when Overflow is set.
    fn bvs(&mut self) -> (extra: bool)
        ensures
            final(self).wf(),
            final(self)@ == branch_spec(old(self)@, old(self)@.flags.overflow),
            extra == false,
    {
        let p = self.flags.overflow;
        self.jump_if(p)
    }

    /// BCC: branch when Carry is clear.
    fn bcc(&mut self) -> (extra: bool)
        ensures
            final(self).wf(),
            final(self)@ == branch_spec(old(self)@, !old(self)@.flags.carry),
            extra == false,
    {
        let p = !self.flags.carry;
        self.jump_if(p)
    }

    /// BCS: branch when Carry is set.
    fn bcs(&mut self) -> (extra: bool)
        ensures
            final(self).wf(),
            final(self)@ == branch_spec(old(self)@, old(self)@.flags.carry),
            extra == false,
    {
        let p = self.flags.carry;
        self.jump_if(p)
    }

    /// BNE: branch when Zero is clear.
    fn bne(&mut self) -> (extra: bool)
        ensures
            final(self).wf(),
            final(self)@ == branch_spec(old(self)@, !old(self)@.flags.zero),
            extra == false,
    {
        let p = !self.flags.zero;
        self.jump_if(p)
    }

    /// BEQ: branch when Zero is set.
    fn beq(&mut self) -> (extra: bool)
        ensures
            final(self).wf(),
            final(self)@ == branch_spec(old(self)@, old(self)@.flags.zero),
            extra == false,
    {
        let p = self.flags.zero;
        self.jump_if(p)
    }

    /// JMP: jump to the effective address. The indirect variant's
    /// page-wrap defect lives in the addressing resolver.
    fn jmp(&mut self) -> (extra: bool)
        ensures
            final(self).wf(),
            final(self)@ == jmp_spec(old(self)@),
            extra == false,
    {
        self.pc = self.eff_addr;
        false
    }

    /// JSR: push the return address (PC - 1), high byte first, then
    /// jump to the effective address.
    fn jsr(&mut self) -> (extra: bool)
        ensures
            final(self).wf(),
            final(self)@ == jsr_spec(old(self)@),
            extra == false,
    {
        let ret = self.pc.wrapping_sub(1);
        proof {
            crate::bits::lemma_u16_shr8(ret);
            crate::bits::lemma_u16_low_mask(ret);
        }
        self.push((ret >> 8) as u8);
        self.push((ret & 0x00FF) as u8);
        self.pc = self.eff_addr;
        false
    }

    /// RTS: pull the return address, low byte first, and resume one
    /// past it.
    fn rts(&mut self) -> (extra: bool)
        ensures
            final(self).wf(),
            final(self)@ == rts_spec(old(self)@),
            extra == false,
    {
        let lo = self.pull();
        let hi = self.pull();
        proof {
            crate::bits::lemma_word_combine(lo, hi);
        }
        self.pc = ((hi as u16) << 8 | lo as u16).wrapping_add(1);
        false
    }

    /// PHA: push the accumulator.
    fn pha(&mut self) -> (extra: bool)
        ensures
            final(self).wf(),
            final(self)@ == pha_spec(old(self)@),
            extra == false,
    {
        let a = self.acc;
        self.push(a);
        false
    }

    /// PLA: pull the accumulator; N and Z from the value.
    fn pla(&mut self) -> (extra: bool)
        ensures
            final(self).wf(),
            final(self)@ == pla_spec(old(self)@),
            extra == false,
    {
        let v = self.pull();
        self.acc = v;
        proof {
            crate::bits::lemma_u8_bit7(v);
        }
        self.flags.negative = v & 0x80 != 0;
        self.flags.zero = v == 0;
        false
    }

    /// PHP: push the status byte with Break and Unused forced to 1.
    fn php(&mut self) -> (extra: bool)
        ensures
            final(self).wf(),
            final(self)@ == php_spec(old(self)@),
            extra == false,
    {
        let pushed = CpuFlags { brk: true, ignored: true, ..self.flags };
        let b = pushed.to_byte();
        self.push(b);
        false
    }

    /// PLP: restore the flags from the stack, forcing Break and Unused
    /// to 0.
    fn plp(&mut self) -> (extra: bool)
        ensures
            final(self).wf(),
            final(self)@ == plp_spec(old(self)@),
            extra == false,
    {
        let v = self.pull();
        let f = CpuFlags::from_byte(v);
        self.flags = f;
        self.flags.brk = false;
        self.flags.ignored = false;
        false
    }

    /// BRK: software interrupt through the IRQ/BRK vector at
    /// 0xFFFE/0xFFFF (this core uses the hardware vector layout:
    /// 0xFFFA NMI, 0xFFFC reset, 0xFFFE IRQ/BRK).
    fn brk(&mut self) -> (extra: bool)
        ensures
            final(self).wf(),
            final(self)@ == brk_spec(old(self)@),
            extra == false,
    {
        self.pc = self.pc.wrapping_add(1);
        self.flags.interrupt = true;
        let pc = self.pc;
        proof {
            crate::bits::lemma_u16_shr8(pc);
            crate::bits::lemma_u16_low_mask(pc);
        }
        self.push((pc >> 8) as u8);
        self.push((pc & 0x00FF) as u8);
        let pushed = CpuFlags { brk: true, ignored: true, ..self.flags };
        let b = pushed.to_byte();
        self.push(b);
        self.flags.brk = false;
        let lo = self.read(0xFFFE);
        let hi = self.read(0xFFFF);
        proof {
            crate::bits::lemma_word_combine(lo, hi);
        }
        self.pc = (hi as u16) << 8 | lo as u16;
        false
    }

    /// RTI: pull the status byte (masking Break and Unused), then the
    /// program counter, low byte first.
    fn rti(&mut self) -> (extra: bool)
        ensures
            final(self).wf(),
            final(self)@ == rti_spec(old(self)@),
            extra == false,
    {
        let v = self.pull();
        let f = CpuFlags::from_byte(v);
        self.flags = f;
        self.flags.brk = false;
        self.flags.ignored = false;
        let lo = self.pull();
        let hi = self.pull();
        proof {
            crate::bits::lemma_word_combine(lo, hi);
        }
        self.pc = (hi as u16) << 8 | lo as u16;
        false
    }

    /// NOP: no state change; the six unofficial absolute,X no-ops
    /// report page-cross eligibility like a load.
    fn nop(&mut self) -> (extra: bool)
        ensures
            final(self).wf(),
            final(self)@ == old(self)@,
            extra == eligible(Mnemonic::NOP, old(self)@.opcode),
    {
        match self.opcode {
            0x1C | 0x3C | 0x5C | 0x7C | 0xDC | 0xFC => true,
            _ => false,
        }
    }

    /// Unofficial opcode: no state change, no extra-cycle eligibility.
    fn xxx(&mut self) -> (extra: bool)
        ensures
            final(self).wf(),
            final(self)@ == old(self)@,
            extra == false,
    {
        false
    }

    /// Runs the semantic function of the current opcode's mnemonic and
    /// reports its page-cross eligibility.
    fn execute_op(&mut self) -> (extra: bool)
        ensures
            final(self).wf(),
            final(self)@ == op_spec(opcode_entry(old(self)@.opcode).mnemonic, old(self)@),
            extra == eligible(opcode_entry(old(self)@.opcode).mnemonic, old(self)@.opcode),
    {
        let entry = instruction(self.opcode);
        match entry.mnemonic {
            Mnemonic::XXX => self.xxx(),
            Mnemonic::ADC => self.adc(),
            Mnemonic::AND => self.and(),
            Mnemonic::ASL => self.asl(),
            Mnemonic::BCC => self.bcc(),
            Mnemonic::BCS => self.bcs(),
            Mnemonic::BEQ => self.beq(),
            Mnemonic::BIT => self.bit(),
            Mnemonic::BMI => self.bmi(),
            Mnemonic::BNE => self.bne(),
            Mnemonic::BPL => self.bpl(),
            Mnemonic::BRK => self.brk(),
            Mnemonic::BVC => self.bvc(),
            Mnemonic::BVS => self.bvs(),
            Mnemonic::CLC => self.clc(),
            Mnemonic::CLD => self.cld(),
            Mnemonic::CLI => self.cli(),
            Mnemonic::CLV => self.clv(),
            Mnemonic::CMP => self.cmp(),
            Mnemonic::CPX => self.cpx(),
            Mnemonic::CPY => self.cpy(),
            Mnemonic::DEC => self.dec(),
            Mnemonic::DEX => self.dex(),
            Mnemonic::DEY => self.dey(),
            Mnemonic::EOR => self.eor(),
            Mnemonic::INC => self.inc(),
            Mnemonic::INX => self.inx(),
            Mnemonic::INY => self.iny(),
            Mnemonic::JMP => self.jmp(),
            Mnemonic::JSR => self.jsr(),
            Mnemonic::LDA => self.lda(),
            Mnemonic::LDX => self.ldx(),
            Mnemonic::LDY => self.ldy(),
            Mnemonic::LSR => self.lsr(),
            Mnemonic::NOP => self.nop(),
            Mnemonic::ORA => self.ora(),
            Mnemonic::PHA => self.pha(),
            Mnemonic::PHP => self.php(),
            Mnemonic::PLA => self.pla(),
            Mnemonic::PLP => self.plp(),
            Mnemonic::ROL => self.rol(),
            Mnemonic::ROR => self.ror(),
            Mnemonic::RTI => self.rti(),
            Mnemonic::RTS => self.rts(),
            Mnemonic::SBC => self.sbc(),
            Mnemonic::SEC => self.sec(),
            Mnemonic::SED => self.sed(),
            Mnemonic::SEI => self.sei(),
            Mnemonic::STA => self.sta(),
            Mnemonic::STX => self.stx(),
            Mnemonic::STY => self.sty(),
            Mnemonic::TAX => self.tax(),
            Mnemonic::TAY => self.tay(),
            Mnemonic::TSX => self.tsx(),
            Mnemonic::TXA => self.txa(),
            Mnemonic::TXS => self.txs(),
            Mnemonic::TYA => self.tya(),
        }
    }
}

} // verus!
