use nes6502::cpu::{CpuFlags, Flags};

#[test]
fn from_byte_unpacks_each_bit() {
    let f = CpuFlags::from_byte(0x81);
    assert!(f.negative);
    assert!(f.carry);
    assert!(!f.overflow);
    assert!(!f.ignored);
    assert!(!f.brk);
    assert!(!f.decimal);
    assert!(!f.interrupt);
    assert!(!f.zero);

    let g = CpuFlags::from_byte(0x7E);
    assert!(!g.negative);
    assert!(g.overflow);
    assert!(g.ignored);
    assert!(g.brk);
    assert!(g.decimal);
    assert!(g.interrupt);
    assert!(g.zero);
    assert!(!g.carry);
}

#[test]
fn to_byte_packs_each_bit() {
    let mut f = CpuFlags::empty();
    assert_eq!(f.to_byte(), 0x00);
    f.negative = true;
    f.carry = true;
    assert_eq!(f.to_byte(), 0x81);
    f.overflow = true;
    f.ignored = true;
    f.brk = true;
    f.decimal = true;
    f.interrupt = true;
    f.zero = true;
    assert_eq!(f.to_byte(), 0xFF);
}

#[test]
fn empty_clears_all_flags() {
    let f = CpuFlags::empty();
    assert!(!f.negative);
    assert!(!f.overflow);
    assert!(!f.ignored);
    assert!(!f.brk);
    assert!(!f.decimal);
    assert!(!f.interrupt);
    assert!(!f.zero);
    assert!(!f.carry);
}

#[test]
fn set_changes_one_flag_only() {
    let mut f = CpuFlags::empty();
    f.set(Flags::N, true);
    assert_eq!(f.to_byte(), 0x80);
    f.set(Flags::V, true);
    assert_eq!(f.to_byte(), 0xC0);
    f.set(Flags::U, true);
    assert_eq!(f.to_byte(), 0xE0);
    f.set(Flags::B, true);
    assert_eq!(f.to_byte(), 0xF0);
    f.set(Flags::D, true);
    assert_eq!(f.to_byte(), 0xF8);
    f.set(Flags::I, true);
    assert_eq!(f.to_byte(), 0xFC);
    f.set(Flags::Z, true);
    assert_eq!(f.to_byte(), 0xFE);
    f.set(Flags::C, true);
    assert_eq!(f.to_byte(), 0xFF);
    f.set(Flags::N, false);
    assert_eq!(f.to_byte(), 0x7F);
}

#[test]
fn flags_round_trip_all_byte_values() {
    // from_byte and to_byte are exact inverses for all 256 byte values
    for b in 0..=255u8 {
        let f = CpuFlags::from_byte(b);
        assert_eq!(f.to_byte(), b);
        assert_eq!(CpuFlags::from_byte(f.to_byte()), f);
    }
}

#[test]
fn flags_round_trip_all_flag_combinations() {
    // the struct-level round trip over all 256 flag combinations,
    // the Break member included
    for b in 0..=255u8 {
        let f = CpuFlags {
            negative: b & 0x80 != 0,
            overflow: b & 0x40 != 0,
            ignored: b & 0x20 != 0,
            brk: b & 0x10 != 0,
            decimal: b & 0x08 != 0,
            interrupt: b & 0x04 != 0,
            zero: b & 0x02 != 0,
            carry: b & 0x01 != 0,
        };
        assert_eq!(CpuFlags::from_byte(f.to_byte()), f);
    }
}
