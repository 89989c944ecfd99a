//! The register file, status flags and memory of the CPU core.

use vstd::prelude::*;

verus! {

use crate::addr::{resolve_spec, word, Addr6502, AddrMode};
use crate::inst::{eligible, op_spec, opcode_entry, Inst6502};

/// Selector for one logical status flag, bit 7 down to bit 0 of the
/// packed status byte.
pub enum Flags {
    N,
    V,
    U,
    B,
    D,
    I,
    Z,
    C,
}

/// The eight logical status flags.
///
/// The Break flag has no persistent hardware storage: it only acquires a
/// value in the byte image pushed on the stack (1 for BRK/PHP pushes, 0
/// for hardware-interrupt pushes) and is cleared again whenever the
/// status register is restored from the stack.
#[derive(Clone, Copy, PartialEq, Eq, Structural, Debug)]
pub struct CpuFlags {
    pub negative: bool,
    pub overflow: bool,
    pub ignored: bool,
    pub brk: bool,
    pub decimal: bool,
    pub interrupt: bool,
    pub zero: bool,
    pub carry: bool,
}

/// The packed status byte: N,V,U,B,D,I,Z,C from bit 7 down to bit 0.
pub open spec fn byte_of_flags(f: CpuFlags) -> u8 {
    (if f.negative {
        0x80u8
    } else {
        0u8
    }) | (if f.overflow {
        0x40u8
    } else {
        0u8
    }) | (if f.ignored {
        0x20u8
    } else {
        0u8
    }) | (if f.brk {
        0x10u8
    } else {
        0u8
    }) | (if f.decimal {
        0x08u8
    } else {
        0u8
    }) | (if f.interrupt {
        0x04u8
    } else {
        0u8
    }) | (if f.zero {
        0x02u8
    } else {
        0u8
    }) | (if f.carry {
        0x01u8
    } else {
        0u8
    })
}

/// The flags unpacked from a status byte, bit 7 down to bit 0.
pub open spec fn flags_of_byte(b: u8) -> CpuFlags {
    CpuFlags {
        negative: b & 0x80 != 0,
        overflow: b & 0x40 != 0,
        ignored: b & 0x20 != 0,
        brk: b & 0x10 != 0,
        decimal: b & 0x08 != 0,
        interrupt: b & 0x04 != 0,
        zero: b & 0x02 != 0,
        carry: b & 0x01 != 0,
    }
}

/// The flags with one member replaced.
pub open spec fn with_flag(f: CpuFlags, flag: Flags, value: bool) -> CpuFlags {
    match flag {
        Flags::N => CpuFlags { negative: value, ..f },
        Flags::V => CpuFlags { overflow: value, ..f },
        Flags::U => CpuFlags { ignored: value, ..f },
        Flags::B => CpuFlags { brk: value, ..f },
        Flags::D => CpuFlags { decimal: value, ..f },
        Flags::I => CpuFlags { interrupt: value, ..f },
        Flags::Z => CpuFlags { zero: value, ..f },
        Flags::C => CpuFlags { carry: value, ..f },
    }
}

impl CpuFlags {
    /// Unpacks a status byte; bit 7 to bit 0 become N,V,U,B,D,I,Z,C.
    pub fn from_byte(byte: u8) -> (f: Self)
        ensures
            f == flags_of_byte(byte),
    {
        CpuFlags {
            negative: byte & 0x80 != 0,
            overflow: byte & 0x40 != 0,
            ignored: byte & 0x20 != 0,
            brk: byte & 0x10 != 0,
            decimal: byte & 0x08 != 0,
            interrupt: byte & 0x04 != 0,
            zero: byte & 0x02 != 0,
            carry: byte & 0x01 != 0,
        }
    }

    /// All eight flags clear.
    pub fn empty() -> (f: Self)
        ensures
            f == (CpuFlags {
                negative: false,
                overflow: false,
                ignored: false,
                brk: false,
                decimal: false,
                interrupt: false,
                zero: false,
                carry: false,
            }),
    {
        CpuFlags {
            negative: false,
            overflow: false,
            ignored: false,
            brk: false,
            decimal: false,
            interrupt: false,
            zero: false,
            carry: false,
        }
    }

    /// Replaces one logical flag; the seven others are untouched.
    pub fn set(&mut self, flag: Flags, value: bool)
        ensures
            *final(self) == with_flag(*old(self), flag, value),
    {
        match flag {
            Flags::N => self.negative = value,
            Flags::V => self.overflow = value,
            Flags::U => self.ignored = value,
            Flags::B => self.brk = value,
            Flags::D => self.decimal = value,
            Flags::I => self.interrupt = value,
            Flags::Z => self.zero = value,
            Flags::C => self.carry = value,
        }
    }

    /// Packs the flags into a status byte; N,V,U,B,D,I,Z,C into bit 7
    /// down to bit 0, the exact inverse of `from_byte`.
    pub fn to_byte(&self) -> (b: u8)
        ensures
            b == byte_of_flags(*self),
    {
        (if self.negative {
            0x80u8
        } else {
            0u8
        }) | (if self.overflow {
            0x40u8
        } else {
            0u8
        }) | (if self.ignored {
            0x20u8
        } else {
            0u8
        }) | (if self.brk {
            0x10u8
        } else {
            0u8
        }) | (if self.decimal {
            0x08u8
        } else {
            0u8
        }) | (if self.interrupt {
            0x04u8
        } else {
            0u8
        }) | (if self.zero {
            0x02u8
        } else {
            0u8
        }) | (if self.carry {
            0x01u8
        } else {
            0u8
        })
    }
}

/// Packing then unpacking the status flags restores every flag, the
/// Break member included: the two byte conversions are exact inverses.
/// (Hardware masking of Break on a stack pull is a separate step of
/// PLP/RTI, not of the conversions.)
pub proof fn lemma_flags_round_trip(f: CpuFlags)
    ensures
        flags_of_byte(byte_of_flags(f)) == f,
{
    let n: u8 = if f.negative { 0x80 } else { 0 };
    let v: u8 = if f.overflow { 0x40 } else { 0 };
    let u: u8 = if f.ignored { 0x20 } else { 0 };
    let r: u8 = if f.brk { 0x10 } else { 0 };
    let d: u8 = if f.decimal { 0x08 } else { 0 };
    let i: u8 = if f.interrupt { 0x04 } else { 0 };
    let z: u8 = if f.zero { 0x02 } else { 0 };
    let c: u8 = if f.carry { 0x01 } else { 0 };
    let b = byte_of_flags(f);
    assert((b & 0x80 != 0) == (n == 0x80) && (b & 0x40 != 0) == (v == 0x40) && (b & 0x20 != 0) == (u
        == 0x20) && (b & 0x10 != 0) == (r == 0x10) && (b & 0x08 != 0) == (d == 0x08) && (b & 0x04
        != 0) == (i == 0x04) && (b & 0x02 != 0) == (z == 0x02) && (b & 0x01 != 0) == (c == 0x01))
        by (bit_vector)
        requires
            (n == 0x80 || n == 0) && (v == 0x40 || v == 0) && (u == 0x20 || u == 0) && (r == 0x10
                || r == 0) && (d == 0x08 || d == 0) && (i == 0x04 || i == 0) && (z == 0x02 || z
                == 0) && (c == 0x01 || c == 0) && b == n | v | u | r | d | i | z | c,
    ;
}

/// Mathematical model of the whole machine state: the register file,
/// the flags, the transient per-instruction state and the addressable
/// memory.
///
/// `ram` models the CPU's own 2KB, mirrored through 0x1FFF; `bus` models
/// everything from 0x2000 upward. The real console forwards that range
/// to PPU/APU/cartridge hardware; this core makes the bus capability
/// total by backing the range with plain storage, so that no address is
/// unserviceable.
#[verifier::ext_equal]
pub ghost struct CpuState {
    pub pc: u16,
    pub sp: u8,
    pub acc: u8,
    pub x: u8,
    pub y: u8,
    pub flags: CpuFlags,
    pub ram: Seq<u8>,
    pub bus: Seq<u8>,
    pub fetched: u8,
    pub eff_addr: u16,
    pub opcode: u8,
    pub cycles: u8,
}

impl CpuState {
    /// Both memory regions have their full size.
    pub open spec fn wf(self) -> bool {
        self.ram.len() == 0x800 && self.bus.len() == 0xE000
    }

    /// The byte visible at an address: the 2KB RAM, mirrored through
    /// 0x1FFF, below 0x2000; the external-bus backing store above.
    pub open spec fn mem(self, addr: u16) -> u8 {
        if addr < 0x2000 {
            self.ram[addr as int % 0x800]
        } else {
            self.bus[addr - 0x2000]
        }
    }

    /// The state after one byte is stored at an address, with the same
    /// mirroring as `mem`.
    pub open spec fn with_mem(self, addr: u16, value: u8) -> CpuState {
        if addr < 0x2000 {
            CpuState { ram: self.ram.update(addr as int % 0x800, value), ..self }
        } else {
            CpuState { bus: self.bus.update(addr - 0x2000, value), ..self }
        }
    }
}

/// The CPU core: registers, flags, transient per-instruction state and
/// the backing storage for the address space.
pub struct CPU {
    pub pc: u16,
    /// Stack pointer: the low byte of the top-of-stack address inside
    /// the fixed stack page 0x0100-0x01FF; grows downward and wraps
    /// within 8 bits.
    pub sp: u8,
    pub acc: u8,
    pub x: u8,
    pub y: u8,
    pub flags: CpuFlags,
    /// The CPU's own 2KB of RAM, mirrored through 0x1FFF.
    pub ram: Vec<u8>,
    /// Backing store for addresses 0x2000-0xFFFF, standing in for the
    /// memory-mapped hardware of the console (a total bus).
    pub bus: Vec<u8>,
    /// Operand byte fetched for the current instruction.
    pub fetched: u8,
    /// Effective address resolved for the current instruction.
    pub eff_addr: u16,
    /// Opcode byte of the current instruction.
    pub opcode: u8,
    /// Cycles charged for the current instruction.
    pub cycles: u8,
}

impl View for CPU {
    type V = CpuState;

    open spec fn view(&self) -> CpuState {
        CpuState {
            pc: self.pc,
            sp: self.sp,
            acc: self.acc,
            x: self.x,
            y: self.y,
            flags: self.flags,
            ram: self.ram@,
            bus: self.bus@,
            fetched: self.fetched,
            eff_addr: self.eff_addr,
            opcode: self.opcode,
            cycles: self.cycles,
        }
    }
}

impl CPU {
    /// The executable state is well formed when its model is.
    pub open spec fn wf(&self) -> bool {
        self@.wf()
    }

    /// A CPU with zeroed memory and registers, the stack pointer at the
    /// customary power-on position and interrupts disabled.
    pub fn new() -> (cpu: CPU)
        ensures
            cpu.wf(),
            cpu@ == (CpuState {
                pc: 0,
                sp: 0xFD,
                acc: 0,
                x: 0,
                y: 0,
                flags: flags_of_byte(0x24),
                ram: Seq::new(0x800, |i: int| 0u8),
                bus: Seq::new(0xE000, |i: int| 0u8),
                fetched: 0,
                eff_addr: 0,
                opcode: 0,
                cycles: 0,
            }),
    {
        let mut ram: Vec<u8> = Vec::new();
        let mut i: usize = 0;
        while i < 0x800
            invariant
                i <= 0x800,
                ram@ =~= Seq::new(i as nat, |j: int| 0u8),
            decreases 0x800 - i,
        {
            ram.push(0);
            i = i + 1;
        }
        let mut bus: Vec<u8> = Vec::new();
        let mut j: usize = 0;
        while j < 0xE000
            invariant
                j <= 0xE000,
                bus@ =~= Seq::new(j as nat, |k: int| 0u8),
            decreases 0xE000 - j,
        {
            bus.push(0);
            j = j + 1;
        }
        let cpu = CPU {
            pc: 0,
            sp: 0xFD,
            acc: 0,
            x: 0,
            y: 0,
            flags: CpuFlags::from_byte(0x24),
            ram,
            bus,
            fetched: 0,
            eff_addr: 0,
            opcode: 0,
            cycles: 0,
        };
        proof {
            assert(cpu@ =~= (CpuState {
                pc: 0,
                sp: 0xFD,
                acc: 0,
                x: 0,
                y: 0,
                flags: flags_of_byte(0x24),
                ram: Seq::new(0x800, |i: int| 0u8),
                bus: Seq::new(0xE000, |i: int| 0u8),
                fetched: 0,
                eff_addr: 0,
                opcode: 0,
                cycles: 0,
            }));
        }
        cpu
    }

    /// Reads the byte at an address: the 2KB RAM region (mirrored by
    /// address masking) below 0x2000, the bus backing store above.
    pub fn read(&mut self, addr: u16) -> (v: u8)
        requires
            old(self).wf(),
        ensures
            *final(self) == *old(self),
            v == old(self)@.mem(addr),
    {
        if addr < 0x2000 {
            let i = (addr & 0x07FF) as usize;
            proof {
                crate::bits::lemma_u16_ram_mask(addr);
            }
            self.ram[i]
        } else {
            self.bus[(addr - 0x2000) as usize]
        }
    }

    /// Stores a byte at an address, with the same region split and
    /// mirroring as `read`; registers and flags are untouched.
    pub fn write(&mut self, addr: u16, value: u8)
        requires
            old(self).wf(),
        ensures
            final(self).wf(),
            final(self)@ == old(self)@.with_mem(addr, value),
    {
        if addr < 0x2000 {
            let i = (addr & 0x07FF) as usize;
            proof {
                crate::bits::lemma_u16_ram_mask(addr);
            }
            self.ram[i] = value;
        } else {
            self.bus[(addr - 0x2000) as usize] = value;
        }
        proof {
            assert(self@ =~= old(self)@.with_mem(addr, value));
        }
    }
}

/// The state after one byte is pushed: it is stored at 0x0100 plus the
/// stack pointer, and the stack pointer then steps down with an 8-bit
/// wrap. The store never leaves the stack page, because the page byte
/// 0x01 is fixed by address composition.
pub open spec fn push_spec(s: CpuState, value: u8) -> CpuState {
    let t = s.with_mem((0x100 + s.sp) as u16, value);
    CpuState { sp: s.sp.wrapping_sub(1), ..t }
}

/// The state after one byte is pulled, paired with the byte: the stack
/// pointer steps up with an 8-bit wrap and the byte is read at 0x0100
/// plus the new stack pointer.
pub open spec fn pull_spec(s: CpuState) -> (CpuState, u8) {
    let sp1 = s.sp.wrapping_add(1);
    (CpuState { sp: sp1, ..s }, s.mem((0x100 + sp1) as u16))
}

/// A push can only touch the stack page: by address composition the
/// store lands at RAM offset 0x0100 + SP, which lies in 0x0100-0x01FF
/// for every value of the 8-bit stack pointer, and nothing else moves
/// but the stack pointer, which wraps within 8 bits.
pub proof fn lemma_push_stays_in_stack_page(s: CpuState, value: u8)
    ensures
        push_spec(s, value).ram == s.ram.update(0x100 + s.sp, value),
        0x100 <= 0x100 + s.sp <= 0x1FF,
        push_spec(s, value).bus == s.bus,
        push_spec(s, value).sp == s.sp.wrapping_sub(1),
        push_spec(s, value) == (CpuState {
            ram: push_spec(s, value).ram,
            sp: push_spec(s, value).sp,
            ..s
        }),
{
}

impl CPU {
    /// Pushes a byte onto the stack page.
    pub fn push(&mut self, value: u8)
        requires
            old(self).wf(),
        ensures
            final(self).wf(),
            final(self)@ == push_spec(old(self)@, value),
    {
        let sp = self.sp;
        self.write(0x100 + sp as u16, value);
        self.sp = self.sp.wrapping_sub(1);
    }

    /// Pulls a byte from the stack page.
    pub fn pull(&mut self) -> (v: u8)
        requires
            old(self).wf(),
        ensures
            final(self).wf(),
            final(self)@ == pull_spec(old(self)@).0,
            v == pull_spec(old(self)@).1,
    {
        self.sp = self.sp.wrapping_add(1);
        self.read(0x100 + self.sp as u16)
    }
}

/// One whole instruction step as a function on the machine state:
/// fetch and decode the opcode, charge the base cycle count, resolve
/// the addressing mode, run the mnemonic's semantic function, and add
/// the extra cycle when the resolver crossed a page and the instruction
/// is eligible for it. (Taken branches charge their own extra cycles
/// inside the branch semantics.)
pub open spec fn step_spec(pre: CpuState) -> CpuState {
    let op = pre.mem(pre.pc);
    let entry = opcode_entry(op);
    let s1 = CpuState {
        opcode: op,
        pc: pre.pc.wrapping_add(1),
        cycles: entry.cycles,
        ..pre
    };
    let resolved = resolve_spec(entry.mode, s1);
    let s2 = resolved.0;
    let crossed = resolved.1;
    let s3 = op_spec(entry.mnemonic, s2);
    if crossed && eligible(entry.mnemonic, op) {
        CpuState { cycles: (s3.cycles + 1) as u8, ..s3 }
    } else {
        s3
    }
}

/// One instruction step charges at least the table's base cycle count
/// and at most two cycles more: one for an eligible page crossing, or
/// one or two for a taken branch, never both.
pub proof fn lemma_step_cycle_bounds(pre: CpuState)
    ensures
        opcode_entry(pre.mem(pre.pc)).cycles <= step_spec(pre).cycles <= opcode_entry(
            pre.mem(pre.pc),
        ).cycles + 2,
{
    let op = pre.mem(pre.pc);
    let entry = opcode_entry(op);
    crate::inst::lemma_opcode_table_consistent(op);
    let s1 = CpuState {
        opcode: op,
        pc: pre.pc.wrapping_add(1),
        cycles: entry.cycles,
        ..pre
    };
    crate::addr::lemma_resolve_advances_pc(entry.mode, s1);
    let s2 = resolve_spec(entry.mode, s1).0;
    crate::inst::lemma_op_cycle_bounds(entry.mnemonic, s2);
    if resolve_spec(entry.mode, s1).1 && eligible(entry.mnemonic, op) {
        crate::inst::lemma_eligible_keeps_cycles(entry.mnemonic, s2, op);
    }
}

/// Every instruction outside the control-flow set advances the program
/// counter by exactly the declared instruction length of its opcode
/// table entry (with a 16-bit wrap): the table's length column is what
/// execution really consumes.
pub proof fn lemma_step_pc_advance(pre: CpuState)
    requires
        !crate::inst::is_control(opcode_entry(pre.mem(pre.pc)).mnemonic),
    ensures
        step_spec(pre).pc == pre.pc.wrapping_add(
            opcode_entry(pre.mem(pre.pc)).length as u16,
        ),
{
    let op = pre.mem(pre.pc);
    let entry = opcode_entry(op);
    crate::inst::lemma_opcode_table_consistent(op);
    let s1 = CpuState {
        opcode: op,
        pc: pre.pc.wrapping_add(1),
        cycles: entry.cycles,
        ..pre
    };
    crate::addr::lemma_resolve_advances_pc(entry.mode, s1);
    let s2 = resolve_spec(entry.mode, s1).0;
    crate::inst::lemma_op_keeps_pc(entry.mnemonic, s2);
}

/// The machine state after a reset: the program counter is loaded from
/// the reset vector at 0xFFFC/0xFFFD, the stack pointer takes the
/// customary power-on value, the registers are cleared, the flags come
/// up with Unused and InterruptDisable set, and the reset sequence is
/// charged 8 cycles. Memory is untouched.
pub open spec fn reset_spec(s: CpuState) -> CpuState {
    CpuState {
        pc: word(s.mem(0xFFFC), s.mem(0xFFFD)),
        sp: 0xFD,
        acc: 0,
        x: 0,
        y: 0,
        flags: flags_of_byte(0x24),
        fetched: 0,
        eff_addr: 0,
        opcode: 0,
        cycles: 8,
        ..s
    }
}

/// The hardware-interrupt entry sequence: interrupt disable is set, the
/// program counter is pushed high byte first, the status byte follows
/// with Break clear and Unused set (the hardware-push image), and the
/// program counter is loaded through the given vector.
pub open spec fn interrupt_spec(s: CpuState, vector: u16, cycle_cost: u8) -> CpuState {
    let s1 = CpuState { flags: CpuFlags { interrupt: true, ..s.flags }, ..s };
    let s2 = push_spec(s1, (s.pc / 256) as u8);
    let s3 = push_spec(s2, (s.pc % 256) as u8);
    let s4 = push_spec(s3, byte_of_flags(CpuFlags { brk: false, ignored: true, ..s1.flags }));
    CpuState {
        pc: word(s4.mem(vector), s4.mem((vector + 1) as u16)),
        cycles: cycle_cost,
        ..s4
    }
}

/// IRQ: honored only while interrupt disable is clear; enters through
/// the vector at 0xFFFE/0xFFFF.
pub open spec fn irq_spec(s: CpuState) -> CpuState {
    if s.flags.interrupt {
        s
    } else {
        interrupt_spec(s, 0xFFFE, 7)
    }
}

/// NMI: never maskable; enters through the vector at 0xFFFA/0xFFFB.
pub open spec fn nmi_spec(s: CpuState) -> CpuState {
    interrupt_spec(s, 0xFFFA, 8)
}

impl CPU {
    /// Executes exactly one instruction: reads the opcode at the
    /// program counter, resolves its addressing mode, runs its semantic
    /// function, and leaves the total cycle charge (base cycles, plus
    /// the page-cross extra for eligible instructions, plus the
    /// taken-branch extras) in `cycles`.
    pub fn execute(&mut self)
        requires
            old(self).wf(),
        ensures
            final(self).wf(),
            final(self)@ == step_spec(old(self)@),
    {
        let op = self.read(self.pc);
        self.opcode = op;
        self.pc = self.pc.wrapping_add(1);
        let entry = crate::inst::instruction(op);
        self.cycles = entry.cycles;
        proof {
            crate::inst::lemma_opcode_table_consistent(op);
        }
        let crossed = match entry.mode {
            AddrMode::Imp => self.imp(),
            AddrMode::Imm => self.imm(),
            AddrMode::Zero => self.zero(),
            AddrMode::ZeroX => self.zero_x(),
            AddrMode::ZeroY => self.zero_y(),
            AddrMode::Abs => self.abs(),
            AddrMode::AbsX => self.abs_x(),
            AddrMode::AbsY => self.abs_y(),
            AddrMode::Ind => self.ind(),
            AddrMode::IndX => self.ind_x(),
            AddrMode::IndY => self.ind_y(),
            AddrMode::Rel => self.rel(),
        };
        let extra = self.execute_op();
        if crossed && extra {
            proof {
                crate::inst::lemma_eligible_keeps_cycles(
                    opcode_entry(op).mnemonic,
                    resolve_spec(opcode_entry(op).mode, old(self)@).0,
                    op,
                );
            }
            self.cycles = self.cycles + 1;
        }
    }

    /// Resets the CPU: the program counter is loaded from the reset
    /// vector at 0xFFFC/0xFFFD and the registers and flags take their
    /// documented power-on defaults; memory is untouched.
    pub fn reset(&mut self)
        requires
            old(self).wf(),
        ensures
            final(self).wf(),
            final(self)@ == reset_spec(old(self)@),
    {
        let lo = self.read(0xFFFC);
        let hi = self.read(0xFFFD);
        proof {
            crate::bits::lemma_word_combine(lo, hi);
        }
        self.pc = (hi as u16) << 8 | lo as u16;
        self.sp = 0xFD;
        self.acc = 0;
        self.x = 0;
        self.y = 0;
        self.flags = CpuFlags::from_byte(0x24);
        self.fetched = 0;
        self.eff_addr = 0;
        self.opcode = 0;
        self.cycles = 8;
    }

    /// The shared hardware-interrupt entry: pushes the return state and
    /// jumps through the given vector.
    fn interrupt_entry(&mut self, vector: u16, cycle_cost: u8)
        requires
            old(self).wf(),
            vector < 0xFFFF,
        ensures
            final(self).wf(),
            final(self)@ == interrupt_spec(old(self)@, vector, cycle_cost),
    {
        self.flags.interrupt = true;
        let pc = self.pc;
        proof {
            crate::bits::lemma_u16_shr8(pc);
            crate::bits::lemma_u16_low_mask(pc);
        }
        self.push((pc >> 8) as u8);
        self.push((pc & 0x00FF) as u8);
        let pushed = CpuFlags { brk: false, ignored: true, ..self.flags };
        let b = pushed.to_byte();
        self.push(b);
        let lo = self.read(vector);
        let hi = self.read(vector + 1);
        proof {
            crate::bits::lemma_word_combine(lo, hi);
        }
        self.pc = (hi as u16) << 8 | lo as u16;
        self.cycles = cycle_cost;
    }

    /// Signals a maskable interrupt request, honored at an instruction
    /// boundary: ignored while interrupt disable is set, otherwise the
    /// BRK-like entry sequence through the vector at 0xFFFE/0xFFFF.
    pub fn irq(&mut self)
        requires
            old(self).wf(),
        ensures
            final(self).wf(),
            final(self)@ == irq_spec(old(self)@),
    {
        if !self.flags.interrupt {
            self.interrupt_entry(0xFFFE, 7);
        }
    }

    /// Signals a non-maskable interrupt, honored at an instruction
    /// boundary: the entry sequence through the vector at 0xFFFA/0xFFFB.
    pub fn nmi(&mut self)
        requires
            old(self).wf(),
        ensures
            final(self).wf(),
            final(self)@ == nmi_spec(old(self)@),
    {
        self.interrupt_entry(0xFFFA, 8);
    }
}

/// Unpacking then packing a status byte restores the byte: every bit,
/// the Break and Unused bits included, survives the round trip.
pub proof fn lemma_byte_round_trip(b: u8)
    ensures
        byte_of_flags(flags_of_byte(b)) == b,
{
    assert(((if b & 0x80 != 0 {
        0x80u8
    } else {
        0u8
    }) | (if b & 0x40 != 0 {
        0x40u8
    } else {
        0u8
    }) | (if b & 0x20 != 0 {
        0x20u8
    } else {
        0u8
    }) | (if b & 0x10 != 0 {
        0x10u8
    } else {
        0u8
    }) | (if b & 0x08 != 0 {
        0x08u8
    } else {
        0u8
    }) | (if b & 0x04 != 0 {
        0x04u8
    } else {
        0u8
    }) | (if b & 0x02 != 0 {
        0x02u8
    } else {
        0u8
    }) | (if b & 0x01 != 0 {
        0x01u8
    } else {
        0u8
    })) == b) by (bit_vector);
}

} // verus!
