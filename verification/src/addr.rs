//! The thirteen addressing modes: how an instruction locates its
//! operand, advances the program counter and reports page crossings.

use vstd::prelude::*;

verus! {

use crate::cpu::CpuState;

/// Addressing-mode tag. `Imp` covers both implied and accumulator
/// operands; the operand fetch distinguishes them.
#[derive(Clone, Copy, PartialEq, Eq, Structural, Debug)]
pub enum AddrMode {
    Imp,
    Imm,
    Zero,
    ZeroX,
    ZeroY,
    Abs,
    AbsX,
    AbsY,
    Ind,
    IndX,
    IndY,
    Rel,
}

/// How many operand bytes a mode consumes from the instruction stream.
pub open spec fn mode_bytes(mode: AddrMode) -> u8 {
    match mode {
        AddrMode::Imp => 0,
        AddrMode::Imm => 1,
        AddrMode::Zero => 1,
        AddrMode::ZeroX => 1,
        AddrMode::ZeroY => 1,
        AddrMode::Abs => 2,
        AddrMode::AbsX => 2,
        AddrMode::AbsY => 2,
        AddrMode::Ind => 2,
        AddrMode::IndX => 1,
        AddrMode::IndY => 1,
        AddrMode::Rel => 1,
    }
}

/// Little-endian 16-bit word from a low and a high byte.
pub open spec fn word(lo: u8, hi: u8) -> u16 {
    (hi * 256 + lo) as u16
}

/// The page number of an address: its high byte.
pub open spec fn page(addr: u16) -> int {
    addr as int / 256
}

/// The little-endian word held at `pc` and the following byte.
pub open spec fn word_at_pc(s: CpuState) -> u16 {
    word(s.mem(s.pc), s.mem(s.pc.wrapping_add(1)))
}

/// Implied/accumulator: no operand bytes, no effective address.
pub open spec fn imp_spec(s: CpuState) -> (CpuState, bool) {
    (s, false)
}

/// Immediate: the operand is the next instruction byte itself.
pub open spec fn imm_spec(s: CpuState) -> (CpuState, bool) {
    (CpuState { eff_addr: s.pc, pc: s.pc.wrapping_add(1), ..s }, false)
}

/// Zero page: the next byte addresses page 0.
pub open spec fn zero_spec(s: CpuState) -> (CpuState, bool) {
    (CpuState { eff_addr: s.mem(s.pc) as u16, pc: s.pc.wrapping_add(1), ..s }, false)
}

/// Zero page indexed by X: the sum wraps within page 0.
pub open spec fn zero_x_spec(s: CpuState) -> (CpuState, bool) {
    (
        CpuState {
            eff_addr: ((s.mem(s.pc) + s.x) % 256) as u16,
            pc: s.pc.wrapping_add(1),
            ..s
        },
        false,
    )
}

/// Zero page indexed by Y: the sum wraps within page 0.
pub open spec fn zero_y_spec(s: CpuState) -> (CpuState, bool) {
    (
        CpuState {
            eff_addr: ((s.mem(s.pc) + s.y) % 256) as u16,
            pc: s.pc.wrapping_add(1),
            ..s
        },
        false,
    )
}

/// Absolute: the next two bytes give the address, little endian.
pub open spec fn abs_spec(s: CpuState) -> (CpuState, bool) {
    (CpuState { eff_addr: word_at_pc(s), pc: s.pc.wrapping_add(2), ..s }, false)
}

/// Absolute indexed by X; a page is crossed when the indexed address
/// leaves the page of the unindexed one.
pub open spec fn abs_x_spec(s: CpuState) -> (CpuState, bool) {
    let base = word_at_pc(s);
    let eff = base.wrapping_add(s.x as u16);
    (CpuState { eff_addr: eff, pc: s.pc.wrapping_add(2), ..s }, page(eff) != page(base))
}

/// Absolute indexed by Y; page crossing as for `abs_x_spec`.
pub open spec fn abs_y_spec(s: CpuState) -> (CpuState, bool) {
    let base = word_at_pc(s);
    let eff = base.wrapping_add(s.y as u16);
    (CpuState { eff_addr: eff, pc: s.pc.wrapping_add(2), ..s }, page(eff) != page(base))
}

/// Indirect (JMP only): the next two bytes point at the target word.
/// When the pointer's low byte is 0xFF the high target byte is fetched
/// from the start of the pointer's own page instead of the next page:
/// the documented hardware page-wrap defect, reproduced exactly.
pub open spec fn ind_spec(s: CpuState) -> (CpuState, bool) {
    let ptr = word_at_pc(s);
    let lo = s.mem(ptr);
    let hi = if ptr % 256 == 0xFF {
        s.mem((ptr - 0xFF) as u16)
    } else {
        s.mem((ptr + 1) as u16)
    };
    (CpuState { eff_addr: word(lo, hi), pc: s.pc.wrapping_add(2), ..s }, false)
}

/// Indexed indirect: the next byte plus X (wrapped in page 0) addresses
/// a two-byte pointer whose bytes both wrap within page 0.
pub open spec fn ind_x_spec(s: CpuState) -> (CpuState, bool) {
    let z = s.mem(s.pc);
    let lo = s.mem((((z + s.x) % 256) as u16));
    let hi = s.mem((((z + s.x + 1) % 256) as u16));
    (CpuState { eff_addr: word(lo, hi), pc: s.pc.wrapping_add(1), ..s }, false)
}

/// Indirect indexed: a page-0 pointer (bytes wrapped within page 0) is
/// read and Y is added to the pointed-to word; a page is crossed when
/// the sum leaves the pointer's page.
pub open spec fn ind_y_spec(s: CpuState) -> (CpuState, bool) {
    let z = s.mem(s.pc);
    let lo = s.mem(z as u16);
    let hi = s.mem((((z + 1) % 256) as u16));
    let base = word(lo, hi);
    let eff = base.wrapping_add(s.y as u16);
    (CpuState { eff_addr: eff, pc: s.pc.wrapping_add(1), ..s }, page(eff) != hi)
}

/// Relative (branches only): the next byte, sign extended, is added to
/// the program counter taken after that byte, with a 16-bit wrap. Only
/// the candidate target is computed here; taking the branch is the
/// instruction's decision.
pub open spec fn rel_spec(s: CpuState) -> (CpuState, bool) {
    let off = s.mem(s.pc);
    let pc1 = s.pc.wrapping_add(1);
    let target = pc1.wrapping_add(
        if off < 128 {
            off as u16
        } else {
            (off + 0xFF00) as u16
        },
    );
    (CpuState { eff_addr: target, pc: pc1, ..s }, false)
}

/// The resolver for a given mode: the state after resolution paired
/// with the page-cross signal.
pub open spec fn resolve_spec(mode: AddrMode, s: CpuState) -> (CpuState, bool) {
    match mode {
        AddrMode::Imp => imp_spec(s),
        AddrMode::Imm => imm_spec(s),
        AddrMode::Zero => zero_spec(s),
        AddrMode::ZeroX => zero_x_spec(s),
        AddrMode::ZeroY => zero_y_spec(s),
        AddrMode::Abs => abs_spec(s),
        AddrMode::AbsX => abs_x_spec(s),
        AddrMode::AbsY => abs_y_spec(s),
        AddrMode::Ind => ind_spec(s),
        AddrMode::IndX => ind_x_spec(s),
        AddrMode::IndY => ind_y_spec(s),
        AddrMode::Rel => rel_spec(s),
    }
}

/// Every addressing mode advances the program counter by exactly the
/// operand bytes it consumes (with a 16-bit wrap), and touches neither
/// the cycle counter nor the current opcode.
pub proof fn lemma_resolve_advances_pc(mode: AddrMode, s: CpuState)
    ensures
        resolve_spec(mode, s).0.pc == s.pc.wrapping_add(mode_bytes(mode) as u16),
        resolve_spec(mode, s).0.cycles == s.cycles,
        resolve_spec(mode, s).0.opcode == s.opcode,
{
}

/// The operand of the current instruction: the accumulator for
/// implied/accumulator opcodes, the byte at the effective address for
/// every other mode.
pub open spec fn operand(s: CpuState) -> u8 {
    if crate::inst::opcode_entry(s.opcode).mode == AddrMode::Imp {
        s.acc
    } else {
        s.mem(s.eff_addr)
    }
}

use crate::cpu::CPU;

/// The addressing resolver: one method per mode. Each resolves the
/// effective address (or operand position) for the current
/// instruction, advances the program counter past the operand bytes,
/// and reports whether the resolution crossed a page boundary (the
/// signal the dispatcher combines with the instruction's eligibility
/// for the extra cycle). `fetch` then reads the operand itself; it may
/// only run after the mode method has left `eff_addr` valid.
pub trait Addr6502 {
    /// What the resolver relies on of the state it runs in.
    spec fn addr_inv(&self) -> bool;

    fn fetch(&mut self)
        requires
            old(self).addr_inv(),
    ;

    fn imp(&mut self) -> bool
        requires
            old(self).addr_inv(),
    ;

    fn imm(&mut self) -> bool
        requires
            old(self).addr_inv(),
    ;

    fn zero(&mut self) -> bool
        requires
            old(self).addr_inv(),
    ;

    fn zero_x(&mut self) -> bool
        requires
            old(self).addr_inv(),
    ;

    fn zero_y(&mut self) -> bool
        requires
            old(self).addr_inv(),
    ;

    fn abs(&mut self) -> bool
        requires
            old(self).addr_inv(),
    ;

    fn abs_x(&mut self) -> bool
        requires
            old(self).addr_inv(),
    ;

    fn abs_y(&mut self) -> bool
        requires
            old(self).addr_inv(),
    ;

    fn ind(&mut self) -> bool
        requires
            old(self).addr_inv(),
    ;

    fn ind_x(&mut self) -> bool
        requires
            old(self).addr_inv(),
    ;

    fn ind_y(&mut self) -> bool
        requires
            old(self).addr_inv(),
    ;

    fn rel(&mut self) -> bool
        requires
            old(self).addr_inv(),
    ;
}

impl Addr6502 for CPU {
    /// The resolver relies on the CPU's well-formedness.
    open spec fn addr_inv(&self) -> bool {
        self.wf()
    }

    /// Loads the operand of the current instruction into `fetched`: the
    /// accumulator for implied/accumulator opcodes, the byte at the
    /// resolved effective address otherwise. One of the addressing-mode
    /// methods must have run for the current opcode first, so that
    /// `eff_addr` is valid.
    fn fetch(&mut self)
        ensures
            final(self).wf(),
            final(self)@ == (CpuState { fetched: operand(old(self)@), ..old(self)@ }),
    {
        let entry = crate::inst::instruction(self.opcode);
        if entry.mode == AddrMode::Imp {
            self.fetched = self.acc;
        } else {
            let v = self.read(self.eff_addr);
            self.fetched = v;
        }
    }

    /// Implied/accumulator mode: nothing to resolve.
    fn imp(&mut self) -> (crossed: bool)
        ensures
            final(self).wf(),
            final(self)@ == imp_spec(old(self)@).0,
            crossed == imp_spec(old(self)@).1,
    {
        false
    }

    /// Immediate mode.
    fn imm(&mut self) -> (crossed: bool)
        ensures
            final(self).wf(),
            final(self)@ == imm_spec(old(self)@).0,
            crossed == imm_spec(old(self)@).1,
    {
        self.eff_addr = self.pc;
        self.pc = self.pc.wrapping_add(1);
        false
    }

    /// Zero-page mode.
    fn zero(&mut self) -> (crossed: bool)
        ensures
            final(self).wf(),
            final(self)@ == zero_spec(old(self)@).0,
            crossed == zero_spec(old(self)@).1,
    {
        let base = self.read(self.pc);
        self.eff_addr = base as u16;
        self.pc = self.pc.wrapping_add(1);
        false
    }

    /// Zero-page,X mode: the index wraps within page 0.
    fn zero_x(&mut self) -> (crossed: bool)
        ensures
            final(self).wf(),
            final(self)@ == zero_x_spec(old(self)@).0,
            crossed == zero_x_spec(old(self)@).1,
    {
        let base = self.read(self.pc);
        let sum: u16 = base as u16 + self.x as u16;
        proof {
            crate::bits::lemma_u16_low_mask(sum);
        }
        self.eff_addr = sum & 0x00FF;
        self.pc = self.pc.wrapping_add(1);
        false
    }

    /// Zero-page,Y mode: the index wraps within page 0.
    fn zero_y(&mut self) -> (crossed: bool)
        ensures
            final(self).wf(),
            final(self)@ == zero_y_spec(old(self)@).0,
            crossed == zero_y_spec(old(self)@).1,
    {
        let base = self.read(self.pc);
        let sum: u16 = base as u16 + self.y as u16;
        proof {
            crate::bits::lemma_u16_low_mask(sum);
        }
        self.eff_addr = sum & 0x00FF;
        self.pc = self.pc.wrapping_add(1);
        false
    }

    /// Absolute mode.
    fn abs(&mut self) -> (crossed: bool)
        ensures
            final(self).wf(),
            final(self)@ == abs_spec(old(self)@).0,
            crossed == abs_spec(old(self)@).1,
    {
        let lo = self.read(self.pc);
        let hi = self.read(self.pc.wrapping_add(1));
        proof {
            crate::bits::lemma_word_combine(lo, hi);
        }
        self.eff_addr = (hi as u16) << 8 | lo as u16;
        self.pc = self.pc.wrapping_add(2);
        false
    }

    /// Absolute,X mode; reports whether the indexing crossed a page.
    fn abs_x(&mut self) -> (crossed: bool)
        ensures
            final(self).wf(),
            final(self)@ == abs_x_spec(old(self)@).0,
            crossed == abs_x_spec(old(self)@).1,
    {
        let lo = self.read(self.pc);
        let hi = self.read(self.pc.wrapping_add(1));
        proof {
            crate::bits::lemma_word_combine(lo, hi);
        }
        let base = (hi as u16) << 8 | lo as u16;
        let eff = base.wrapping_add(self.x as u16);
        self.eff_addr = eff;
        self.pc = self.pc.wrapping_add(2);
        proof {
            crate::bits::lemma_page_compare(eff, hi);
        }
        (eff & 0xFF00) != (hi as u16) << 8
    }

    /// Absolute,Y mode; reports whether the indexing crossed a page.
    fn abs_y(&mut self) -> (crossed: bool)
        ensures
            final(self).wf(),
            final(self)@ == abs_y_spec(old(self)@).0,
            crossed == abs_y_spec(old(self)@).1,
    {
        let lo = self.read(self.pc);
        let hi = self.read(self.pc.wrapping_add(1));
        proof {
            crate::bits::lemma_word_combine(lo, hi);
        }
        let base = (hi as u16) << 8 | lo as u16;
        let eff = base.wrapping_add(self.y as u16);
        self.eff_addr = eff;
        self.pc = self.pc.wrapping_add(2);
        proof {
            crate::bits::lemma_page_compare(eff, hi);
        }
        (eff & 0xFF00) != (hi as u16) << 8
    }

    /// Indirect mode (JMP only), with the documented page-wrap defect
    /// when the pointer sits at the end of a page.
    fn ind(&mut self) -> (crossed: bool)
        ensures
            final(self).wf(),
            final(self)@ == ind_spec(old(self)@).0,
            crossed == ind_spec(old(self)@).1,
    {
        let ptr_lo = self.read(self.pc);
        let ptr_hi = self.read(self.pc.wrapping_add(1));
        proof {
            crate::bits::lemma_word_combine(ptr_lo, ptr_hi);
            crate::bits::lemma_u16_shl8(ptr_hi);
        }
        let ptr = (ptr_hi as u16) << 8 | ptr_lo as u16;
        self.pc = self.pc.wrapping_add(2);
        let lo = self.read(ptr);
        let hi = if ptr_lo == 0xFF {
            self.read((ptr_hi as u16) << 8)
        } else {
            self.read(ptr + 1)
        };
        proof {
            crate::bits::lemma_word_combine(lo, hi);
        }
        self.eff_addr = (hi as u16) << 8 | lo as u16;
        false
    }

    /// Indexed indirect mode (zero page,X).
    fn ind_x(&mut self) -> (crossed: bool)
        ensures
            final(self).wf(),
            final(self)@ == ind_x_spec(old(self)@).0,
            crossed == ind_x_spec(old(self)@).1,
    {
        let z = self.read(self.pc);
        self.pc = self.pc.wrapping_add(1);
        let lo_sum: u16 = z as u16 + self.x as u16;
        let hi_sum: u16 = z as u16 + self.x as u16 + 1;
        proof {
            crate::bits::lemma_u16_low_mask(lo_sum);
            crate::bits::lemma_u16_low_mask(hi_sum);
        }
        let lo = self.read(lo_sum & 0x00FF);
        let hi = self.read(hi_sum & 0x00FF);
        proof {
            crate::bits::lemma_word_combine(lo, hi);
        }
        self.eff_addr = (hi as u16) << 8 | lo as u16;
        false
    }

    /// Indirect indexed mode (zero page),Y; reports whether adding Y
    /// crossed a page.
    fn ind_y(&mut self) -> (crossed: bool)
        ensures
            final(self).wf(),
            final(self)@ == ind_y_spec(old(self)@).0,
            crossed == ind_y_spec(old(self)@).1,
    {
        let z = self.read(self.pc);
        self.pc = self.pc.wrapping_add(1);
        let hi_sum: u16 = z as u16 + 1;
        proof {
            crate::bits::lemma_u16_low_mask(hi_sum);
        }
        let lo = self.read(z as u16);
        let hi = self.read(hi_sum & 0x00FF);
        proof {
            crate::bits::lemma_word_combine(lo, hi);
        }
        let base = (hi as u16) << 8 | lo as u16;
        let eff = base.wrapping_add(self.y as u16);
        self.eff_addr = eff;
        proof {
            crate::bits::lemma_page_compare(eff, hi);
        }
        (eff & 0xFF00) != (hi as u16) << 8
    }

    /// Relative mode (branches only): computes the candidate branch
    /// target from the sign-extended offset.
    fn rel(&mut self) -> (crossed: bool)
        ensures
            final(self).wf(),
            final(self)@ == rel_spec(old(self)@).0,
            crossed == rel_spec(old(self)@).1,
    {
        let off = self.read(self.pc);
        self.pc = self.pc.wrapping_add(1);
        proof {
            crate::bits::lemma_u8_bit7(off);
            crate::bits::lemma_u16_or_high(off);
        }
        let off16: u16 = if off & 0x80 != 0 {
            off as u16 | 0xFF00
        } else {
            off as u16
        };
        self.eff_addr = self.pc.wrapping_add(off16);
        false
    }
}

} // verus!
