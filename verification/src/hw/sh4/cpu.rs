//! The SH-4 CPU core: its register file, the status register and register
//! banking, interrupt acceptance and the instructions that work on
//! registers alone.
use super::ccn::Ccn;
use super::decoder::InstructionOpcode;
use super::intc::{InterruptKind, Intc, NUM_INTERRUPTS};
use crate::hw::extensions::{bit32, BitManipulation};
use std::collections::HashMap;
use vstd::prelude::*;

verus! {

broadcast use vstd::std_specs::hash::group_hash_axioms;

#[derive(Copy, Clone, Eq, PartialEq, Debug, Structural)]
pub enum CpuState {
    Running,
    Sleeping,
}

/// The register file. The floating-point banks are held as the raw bits of
/// their single-precision registers.
#[derive(Copy, Clone, Debug)]
pub struct CpuRegisters {
    pub current_pc: u32,
    pub r: [u32; 16],
    pub r_bank: [u32; 8],
    pub sr: u32,
    pub gbr: u32,
    pub vbr: u32,
    pub dbr: u32,
    pub ssr: u32,
    pub spc: u32,
    pub sgr: u32,
    pub pr: u32,
    pub macl: u32,
    pub mach: u32,
    pub fpul: u32,
    pub fpscr: u32,
    pub fpu_banks: [[u32; 16]; 2],
}

/// The register file as values.
pub struct CpuModel {
    pub pc: u32,
    pub r: Seq<u32>,
    pub r_bank: Seq<u32>,
    pub sr: u32,
    pub gbr: u32,
    pub vbr: u32,
    pub dbr: u32,
    pub ssr: u32,
    pub spc: u32,
    pub sgr: u32,
    pub pr: u32,
    pub macl: u32,
    pub mach: u32,
    pub fpul: u32,
    pub fpscr: u32,
    pub fpu: Seq<Seq<u32>>,
}

/// `x` modulo 2^32.
pub open spec fn wrap32(x: int) -> u32 {
    (x % 0x1_0000_0000) as u32
}

/// `x` read as a two's complement 32-bit number.
pub open spec fn signed32(x: u32) -> int {
    if x >= 0x8000_0000 {
        x - 0x1_0000_0000
    } else {
        x as int
    }
}

/// Bits of SR that can be written.
pub const SR_MASK: u32 = 0x700083F3;

impl CpuModel {
    /// The register file's shape: sixteen general registers, eight banked
    /// ones and two floating-point banks of sixteen.
    pub open spec fn wf(self) -> bool {
        self.r.len() == 16 && self.r_bank.len() == 8 && self.fpu.len() == 2 && self.fpu[0].len() == 16
            && self.fpu[1].len() == 16
    }

    /// The next instruction.
    pub open spec fn next(self) -> CpuModel {
        CpuModel { pc: wrap32(self.pc + 2), ..self }
    }

    pub open spec fn set_r(self, n: int, v: u32) -> CpuModel {
        CpuModel { r: self.r.update(n, v), ..self }
    }

    /// R0..R7 trade places with the banked registers.
    pub open spec fn banks_swapped(self) -> CpuModel {
        CpuModel { r: self.r_bank + self.r.subrange(8, 16), r_bank: self.r.subrange(0, 8), ..self }
    }

    /// SR after a write: the writable bits are kept, and a change of the
    /// register bank bit (RB, bit 29) switches banks.
    pub open spec fn write_sr(self, value: u32) -> CpuModel {
        let v = value & SR_MASK;
        let m = CpuModel { sr: v, ..self };
        if bit32(self.sr, 29) != bit32(v, 29) {
            m.banks_swapped()
        } else {
            m
        }
    }

    /// The T bit (SR bit 0).
    pub open spec fn t(self) -> bool {
        bit32(self.sr, 0)
    }

    pub open spec fn set_t(self, b: bool) -> CpuModel {
        self.write_sr(with_bit(self.sr, 0, b))
    }

    /// FPSCR after a write: the low 22 bits are kept, and a change of the
    /// bank bit (FR, bit 21) switches the floating-point banks.
    pub open spec fn write_fpscr(self, value: u32) -> CpuModel {
        let v = value & 0x003FFFFF;
        let m = CpuModel { fpscr: v, ..self };
        if bit32(v, 21) != bit32(self.fpscr, 21) {
            CpuModel { fpu: seq![m.fpu[1], m.fpu[0]], ..m }
        } else {
            m
        }
    }
}

/// The register file after reset: PC at the boot ROM, SR privileged with
/// interrupts blocked and masked, FPSCR at its reset value, all else zero.
pub open spec fn is_reset_state(m: CpuModel) -> bool {
    &&& m.wf()
    &&& m.pc == 0xa0000000
    &&& m.sr == 0x700000F0
    &&& m.fpscr == 0x4001
    &&& forall|i: int| 0 <= i < 16 ==> m.r[i] == 0 && m.fpu[0][i] == 0 && m.fpu[1][i] == 0
    &&& forall|i: int| 0 <= i < 8 ==> m.r_bank[i] == 0
    &&& m.gbr == 0 && m.vbr == 0 && m.dbr == 0 && m.ssr == 0 && m.spc == 0 && m.sgr == 0
    &&& m.pr == 0 && m.macl == 0 && m.mach == 0 && m.fpul == 0
}

impl CpuRegisters {
    pub open spec fn view(&self) -> CpuModel {
        CpuModel {
            pc: self.current_pc,
            r: self.r@,
            r_bank: self.r_bank@,
            sr: self.sr,
            gbr: self.gbr,
            vbr: self.vbr,
            dbr: self.dbr,
            ssr: self.ssr,
            spc: self.spc,
            sgr: self.sgr,
            pr: self.pr,
            macl: self.macl,
            mach: self.mach,
            fpul: self.fpul,
            fpscr: self.fpscr,
            fpu: seq![self.fpu_banks[0]@, self.fpu_banks[1]@],
        }
    }

    /// The state after reset.
    pub fn new() -> (r: Self)
        ensures
            is_reset_state(r@),
    {
        Self {
            current_pc: 0xa0000000,
            r: [0; 16],
            r_bank: [0; 8],
            sr: 0x700000F0,
            gbr: 0,
            vbr: 0,
            dbr: 0,
            ssr: 0,
            spc: 0,
            sgr: 0,
            pr: 0,
            macl: 0,
            mach: 0,
            fpul: 0,
            fpscr: 0x4001,
            fpu_banks: [[0; 16]; 2],
        }
    }
}

pub struct Cpu {
    pub registers: CpuRegisters,
    pub current_opcode: u16,
    pub cyc: u64,
    pub symbols_map: HashMap<u32, String>,
    pub state: CpuState,
}

/// The INTEVT code of each interrupt source, by source index.
pub open spec fn intevt_code(i: int) -> u32 {
    seq![
        0x1C0u32, 0x200, 0x220, 0x240, 0x260, 0x280, 0x2A0, 0x2C0, 0x2E0, 0x300, 0x320, 0x340,
        0x360, 0x380, 0x3A0, 0x3C0, 0x600, 0x620, 0x640, 0x660, 0x680, 0x6A0, 0x6C0, 0x400, 0x420,
        0x440, 0x460, 0x480, 0x4A0, 0x4C0, 0x4E0, 0x500, 0x520, 0x540, 0x700, 0x720, 0x740, 0x760,
        0x560, 0x580, 0x5A0,
    ][i]
}

/// Bit `i` of a 64-bit value.
pub open spec fn bit64(x: u64, i: int) -> bool {
    0 <= i < 64 && (x >> (i as u64)) & 1 == 1
}

/// `i` is the lowest set bit of `x`.
pub open spec fn is_lowest_set_bit(x: u64, i: int) -> bool {
    bit64(x, i) && forall|j: int| 0 <= j < i ==> !bit64(x, j)
}

/// The priority position that the CPU looks at: the lowest pending one, or
/// 0 when nothing is pending.
pub open spec fn first_pending(req: u64) -> int {
    if req == 0 {
        0
    } else {
        choose|i: int| is_lowest_set_bit(req, i)
    }
}

/// The CPU accepts the pending interrupt of highest priority: interrupts are
/// not blocked (SR.BL clear) or the CPU sleeps, something is pending, and
/// its level is above the interrupt mask (SR bits 4..8).
pub open spec fn accepts_interrupt(m: CpuModel, state: CpuState, intc_levels: Seq<u8>, order: Seq<InterruptKind>, req: u64) -> bool {
    let kind = order[first_pending(req)];
    &&& (!bit32(m.sr, 28) || state != CpuState::Running)
    &&& req != 0
    &&& intc_levels[kind.index_spec() as int] > (m.sr & 0xF0) >> 4u32
}

/// Taking an interrupt: PC goes to SPC, SR to SSR, R15 to SGR; SR gets the
/// block, bank and privileged bits; execution continues at VBR + 0x600.
pub open spec fn interrupt_entry(m: CpuModel) -> CpuModel {
    let saved = CpuModel { spc: m.pc, ssr: m.sr, sgr: m.r[15], ..m };
    CpuModel { pc: (m.vbr + 0x600) as u32, ..saved.write_sr(m.sr | 0x70000000) }
}

proof fn lemma_sr_bits(x: u32, index: usize)
    by (bit_vector)
    ensures
        index & 0x7 < 8,
        (x | 1) & SR_MASK == (x & SR_MASK) | 1,
        ((x | (1u32 << 28usize)) | (1u32 << 29usize)) | (1u32 << 30usize) == x | 0x70000000,
        x | (1u32 << 0usize) == x | 1,
        x & !(1u32 << 0usize) == x & !1u32,
{
}

/// Everything of the CPU but its registers is the same.
pub open spec fn env_unchanged(a: Cpu, b: Cpu) -> bool {
    a.state == b.state && a.symbols_map == b.symbols_map && a.current_opcode == b.current_opcode
        && a.cyc == b.cyc
}

/// `x` with bit `i` set to `b`.
pub open spec fn with_bit(x: u32, i: usize, b: bool) -> u32 {
    if b {
        x | (1u32 << i)
    } else {
        x & !(1u32 << i)
    }
}

impl Cpu {
    pub fn new() -> (r: Self)
        ensures
            is_reset_state(r.registers@),
            r.current_opcode == 0,
            r.cyc == 0,
            r.symbols_map@ == Map::<u32, String>::empty(),
            r.state == CpuState::Running,
    {
        Cpu {
            cyc: 0,
            registers: CpuRegisters::new(),
            current_opcode: 0,
            symbols_map: HashMap::new(),
            state: CpuState::Running,
        }
    }

    /// R0..R7 trade places with the banked registers.
    pub fn swap_register_banks(&mut self)
        requires
            old(self).registers@.wf(),
        ensures
            final(self).registers@ == old(self).registers@.banks_swapped(),
            env_unchanged(*final(self), *old(self)),
    {
        let ghost old_r = self.registers.r@;
        let ghost old_b = self.registers.r_bank@;
        let mut i: usize = 0;
        while i < 8
            invariant
                i <= 8,
                forall|j: int| 0 <= j < i ==> self.registers.r@[j] == old_b[j] && self.registers.r_bank@[j] == old_r[j],
                forall|j: int| i <= j < 8 ==> self.registers.r@[j] == old_r[j] && self.registers.r_bank@[j] == old_b[j],
                forall|j: int| 8 <= j < 16 ==> self.registers.r@[j] == old_r[j],
                self.registers.current_pc == old(self).registers.current_pc,
                self.registers.sr == old(self).registers.sr,
                self.registers.gbr == old(self).registers.gbr,
                self.registers.vbr == old(self).registers.vbr,
                self.registers.dbr == old(self).registers.dbr,
                self.registers.ssr == old(self).registers.ssr,
                self.registers.spc == old(self).registers.spc,
                self.registers.sgr == old(self).registers.sgr,
                self.registers.pr == old(self).registers.pr,
                self.registers.macl == old(self).registers.macl,
                self.registers.mach == old(self).registers.mach,
                self.registers.fpul == old(self).registers.fpul,
                self.registers.fpscr == old(self).registers.fpscr,
                self.registers.fpu_banks == old(self).registers.fpu_banks,
                env_unchanged(*self, *old(self)),
                old_r == old(self).registers.r@,
                old_b == old(self).registers.r_bank@,
            decreases 8 - i,
        {
            let temp = self.registers.r[i];
            self.registers.r[i] = self.registers.r_bank[i];
            self.registers.r_bank[i] = temp;
            i = i + 1;
        }
        proof {
            assert(self.registers.r@ =~= old_b + old_r.subrange(8, 16));
            assert(self.registers.r_bank@ =~= old_r.subrange(0, 8));
        }
    }

    /// The two floating-point banks trade places.
    pub fn swap_fpu_register_banks(&mut self)
        ensures
            final(self).registers@ == (CpuModel {
                fpu: seq![old(self).registers@.fpu[1], old(self).registers@.fpu[0]],
                ..old(self).registers@
            }),
            env_unchanged(*final(self), *old(self)),
    {
        let b0 = self.registers.fpu_banks[0];
        let b1 = self.registers.fpu_banks[1];
        self.registers.fpu_banks = [b1, b0];
    }

    pub fn set_register_by_index(&mut self, index: usize, value: u32)
        requires
            index < 16,
        ensures
            final(self).registers@ == old(self).registers@.set_r(index as int, value),
            env_unchanged(*final(self), *old(self)),
    {
        self.registers.r[index] = value;
    }

    pub fn set_banked_register_by_index(&mut self, index: usize, value: u32)
        ensures
            final(self).registers@ == (CpuModel {
                r_bank: old(self).registers@.r_bank.update((index & 0x7) as int, value),
                ..old(self).registers@
            }),
            env_unchanged(*final(self), *old(self)),
    {
        proof {
            lemma_sr_bits(0, index);
        }
        self.registers.r_bank[index & 0x7] = value;
    }

    pub fn get_register_by_index(&self, index: usize) -> (r: u32)
        requires
            index < 16,
        ensures
            r == self.registers@.r[index as int],
    {
        self.registers.r[index]
    }

    pub fn get_banked_register_by_index(&self, index: usize) -> (r: u32)
        ensures
            r == self.registers@.r_bank[(index & 0x7) as int],
    {
        proof {
            lemma_sr_bits(0, index);
        }
        self.registers.r_bank[index & 0x7]
    }

    pub fn get_sr(&self) -> (r: u32)
        ensures
            r == self.registers.sr,
    {
        self.registers.sr
    }

    pub fn get_ssr(&self) -> (r: u32)
        ensures
            r == self.registers.ssr,
    {
        self.registers.ssr
    }

    /// FPSCR without its unused high bits.
    pub fn get_fpscr(&self) -> (r: u32)
        ensures
            r == self.registers.fpscr & 0x003FFFFF,
    {
        self.registers.fpscr & 0x003FFFFF
    }

    /// Switches register banks when RB (SR bit 29) differs from `old_sr`.
    pub fn swap_banks_if_needed(&mut self, old_sr: u32)
        requires
            old(self).registers@.wf(),
        ensures
            final(self).registers@ == if bit32(old_sr, 29) != bit32(old(self).registers.sr, 29) {
                old(self).registers@.banks_swapped()
            } else {
                old(self).registers@
            },
            env_unchanged(*final(self), *old(self)),
    {
        if old_sr.check_bit(29) != self.registers.sr.check_bit(29) {
            self.swap_register_banks();
        }
    }

    /// Writes SR: only the writable bits are kept; a change of RB switches
    /// register banks.
    pub fn set_sr(&mut self, value: u32)
        requires
            old(self).registers@.wf(),
        ensures
            final(self).registers@ == old(self).registers@.write_sr(value),
            final(self).registers@.wf(),
            env_unchanged(*final(self), *old(self)),
    {
        let value = value & SR_MASK;
        let old_sr = self.registers.sr;
        self.registers.sr = value;
        self.swap_banks_if_needed(old_sr);
    }

    /// Sets or clears the T bit.
    pub(crate) fn set_t(&mut self, t: bool)
        requires
            old(self).registers@.wf(),
        ensures
            final(self).registers@ == old(self).registers@.set_t(t),
            final(self).registers@.wf(),
            env_unchanged(*final(self), *old(self)),
    {
        let sr = self.get_sr().eval_bit(0, t);
        self.set_sr(sr);
    }

    pub fn set_dbr(&mut self, value: u32)
        ensures
            final(self).registers@ == (CpuModel { dbr: value, ..old(self).registers@ }),
            env_unchanged(*final(self), *old(self)),
    {
        self.registers.dbr = value;
    }

    pub fn set_pr(&mut self, value: u32)
        ensures
            final(self).registers@ == (CpuModel { pr: value, ..old(self).registers@ }),
            env_unchanged(*final(self), *old(self)),
    {
        self.registers.pr = value;
    }

    pub fn set_macl(&mut self, value: u32)
        ensures
            final(self).registers@ == (CpuModel { macl: value, ..old(self).registers@ }),
            env_unchanged(*final(self), *old(self)),
    {
        self.registers.macl = value;
    }

    pub fn set_mach(&mut self, value: u32)
        ensures
            final(self).registers@ == (CpuModel { mach: value, ..old(self).registers@ }),
            env_unchanged(*final(self), *old(self)),
    {
        self.registers.mach = value;
    }

    pub fn set_gbr(&mut self, value: u32)
        ensures
            final(self).registers@ == (CpuModel { gbr: value, ..old(self).registers@ }),
            env_unchanged(*final(self), *old(self)),
    {
        self.registers.gbr = value;
    }

    pub fn set_vbr(&mut self, value: u32)
        ensures
            final(self).registers@ == (CpuModel { vbr: value, ..old(self).registers@ }),
            env_unchanged(*final(self), *old(self)),
    {
        self.registers.vbr = value;
    }

    /// Writes FPSCR: the low 22 bits are kept; a change of FR (bit 21)
    /// switches the floating-point banks.
    pub fn set_fpscr(&mut self, value: u32)
        ensures
            final(self).registers@ == old(self).registers@.write_fpscr(value),
            env_unchanged(*final(self), *old(self)),
    {
        let value = value & 0x003FFFFF;
        if value.check_bit(21) != self.registers.fpscr.check_bit(21) {
            self.swap_fpu_register_banks();
        }
        self.registers.fpscr = value;
    }

    pub fn set_ssr(&mut self, value: u32)
        ensures
            final(self).registers@ == (CpuModel { ssr: value, ..old(self).registers@ }),
            env_unchanged(*final(self), *old(self)),
    {
        self.registers.ssr = value;
    }

    pub fn set_spc(&mut self, value: u32)
        ensures
            final(self).registers@ == (CpuModel { spc: value, ..old(self).registers@ }),
            env_unchanged(*final(self), *old(self)),
    {
        self.registers.spc = value;
    }

    pub fn set_sgr(&mut self, value: u32)
        ensures
            final(self).registers@ == (CpuModel { sgr: value, ..old(self).registers@ }),
            env_unchanged(*final(self), *old(self)),
    {
        self.registers.sgr = value;
    }

    pub fn set_fpul(&mut self, value: u32)
        ensures
            final(self).registers@ == (CpuModel { fpul: value, ..old(self).registers@ }),
            env_unchanged(*final(self), *old(self)),
    {
        self.registers.fpul = value;
    }

    pub fn get_fpul(&self) -> (r: u32)
        ensures
            r == self.registers.fpul,
    {
        self.registers.fpul
    }

    /// Accepts the pending interrupt of highest priority when it may be
    /// taken: records its INTEVT code, clears its request and enters the
    /// handler at VBR + 0x600.
    pub fn process_interrupts(&mut self, intc: &mut Intc, ccn: &mut Ccn)
        requires
            old(self).registers@.wf(),
            old(intc).regs().interrupt_requests == 0 || exists|i: int|
                0 <= i < NUM_INTERRUPTS && #[trigger] bit64(old(intc).regs().interrupt_requests, i),
            accepts_interrupt(old(self).registers@, old(self).state, old(intc).levels(), old(intc).priorities(), old(intc).regs().interrupt_requests)
                ==> old(self).registers.vbr + 0x600 <= u32::MAX,
        ensures
            final(intc).levels() == old(intc).levels(),
            final(intc).priorities() == old(intc).priorities(),
            final(intc).positions() == old(intc).positions(),
            final(self).symbols_map == old(self).symbols_map,
            final(self).cyc == old(self).cyc,
            final(self).current_opcode == old(self).current_opcode,
            ({
                let req = old(intc).regs().interrupt_requests;
                let pos = first_pending(req);
                let kind = old(intc).priorities()[pos];
                if accepts_interrupt(old(self).registers@, old(self).state, old(intc).levels(), old(intc).priorities(), req) {
                    &&& final(ccn).registers == (super::ccn::CcnRegisters { intevt: intevt_code(kind.index_spec() as int), ..old(ccn).registers })
                    &&& final(ccn).operand_cache_ram == old(ccn).operand_cache_ram
                    &&& final(intc).regs() == (super::intc::IntcRegisters { interrupt_requests: req & !(1u64 << (pos as u64)), ..old(intc).regs() })
                    &&& final(self).state == CpuState::Running
                    &&& final(self).registers@ == interrupt_entry(old(self).registers@)
                } else {
                    &&& final(ccn).registers == old(ccn).registers
                    &&& final(ccn).operand_cache_ram == old(ccn).operand_cache_ram
                    &&& final(intc).regs() == old(intc).regs()
                    &&& final(self).state == old(self).state
                    &&& final(self).registers@ == old(self).registers@
                }
            }),
    {
        let sr = self.get_sr();
        let imask = (sr & 0xF0) >> 4u32;
        let req = intc.registers().interrupt_requests;
        let mut pos: usize = 0;
        if req != 0 {
            while pos < NUM_INTERRUPTS && (req >> (pos as u64)) & 1 != 1
                invariant
                    pos <= NUM_INTERRUPTS,
                    req != 0,
                    exists|i: int| 0 <= i < NUM_INTERRUPTS && #[trigger] bit64(req, i),
                    forall|j: int| 0 <= j < pos ==> !bit64(req, j),
                decreases NUM_INTERRUPTS - pos,
            {
                pos = pos + 1;
            }
            proof {
                if pos == NUM_INTERRUPTS {
                    let w = choose|i: int| 0 <= i < NUM_INTERRUPTS && #[trigger] bit64(req, i);
                    assert(!bit64(req, w));
                }
                assert(is_lowest_set_bit(req, pos as int));
                let p = first_pending(req);
                assert(is_lowest_set_bit(req, p));
                if p < pos {
                    assert(!bit64(req, p));
                } else if p > pos {
                    assert(!bit64(req, pos as int));
                }
            }
        }
        let interrupt = intc.prioritized_interrupt(pos);
        let level = intc.interrupt_level(interrupt);
        if !sr.check_bit(28) || self.state != CpuState::Running {
            if req != 0 {
                if (level as u32) > imask {
                    let code = Self::intevt(interrupt.index());
                    ccn.registers.intevt = code;
                    intc.clear_request(pos);
                    self.state = CpuState::Running;
                    let pc = self.registers.current_pc;
                    self.set_spc(pc);
                    let cur_sr = self.get_sr();
                    self.set_ssr(cur_sr);
                    let r15 = self.get_register_by_index(15);
                    self.set_sgr(r15);
                    proof {
                        lemma_sr_bits(cur_sr, 0);
                    }
                    self.set_sr(cur_sr.set_bit(28).set_bit(29).set_bit(30));
                    self.registers.current_pc = self.registers.vbr + 0x600;
                }
            }
        }
    }

    fn intevt(i: usize) -> (r: u32)
        requires
            i < NUM_INTERRUPTS,
        ensures
            r == intevt_code(i as int),
    {
        let table: [u32; 41] = [
            0x1C0, 0x200, 0x220, 0x240, 0x260, 0x280, 0x2A0, 0x2C0, 0x2E0, 0x300, 0x320, 0x340,
            0x360, 0x380, 0x3A0, 0x3C0, 0x600, 0x620, 0x640, 0x660, 0x680, 0x6A0, 0x6C0, 0x400,
            0x420, 0x440, 0x460, 0x480, 0x4A0, 0x4C0, 0x4E0, 0x500, 0x520, 0x540, 0x700, 0x720,
            0x740, 0x760, 0x560, 0x580, 0x5A0,
        ];
        proof {
            assert(table@ =~= seq![
                0x1C0u32, 0x200, 0x220, 0x240, 0x260, 0x280, 0x2A0, 0x2C0, 0x2E0, 0x300, 0x320, 0x340,
                0x360, 0x380, 0x3A0, 0x3C0, 0x600, 0x620, 0x640, 0x660, 0x680, 0x6A0, 0x6C0, 0x400, 0x420,
                0x440, 0x460, 0x480, 0x4A0, 0x4C0, 0x4E0, 0x500, 0x520, 0x540, 0x700, 0x720, 0x740, 0x760,
                0x560, 0x580, 0x5A0,
            ]);
        }
        table[i]
    }
}

/// The lower-case hexadecimal digit of `d`, below sixteen.
pub open spec fn hex_digit(d: u32) -> char {
    if d < 10 { (48 + d) as char } else { (87 + d) as char }
}

/// `addr` as text: "0x" and eight lower-case hexadecimal digits, the most
/// significant first.
pub open spec fn hex_text(addr: u32) -> Seq<char> {
    seq!['0', 'x'] + Seq::new(8, |i: int| hex_digit((addr >> ((28 - 4 * i) as u32)) & 0xF))
}

/// `addr` formatted as "0x" and eight lower-case hexadecimal digits, by
/// std's `format!` with the `{:08x}` specification.
#[verifier::external_body]
fn hex_address(addr: u32) -> (r: String)
    ensures
        r@ == hex_text(addr),
{
    format!("0x{:08x}", addr)
}

impl Cpu {
    /// The name of the symbol at the program counter (its low 29 bits), or
    /// else `addr` in hexadecimal.
    pub fn symbolicate(&self, addr: u32) -> (r: String)
        ensures
            self.symbols_map@.contains_key(self.registers.current_pc & 0x1FFFFFFF) ==> r@
                == self.symbols_map@[self.registers.current_pc & 0x1FFFFFFF]@,
            !self.symbols_map@.contains_key(self.registers.current_pc & 0x1FFFFFFF) ==> r@ == hex_text(addr),
    {
        match self.symbols_map.get(&(self.registers.current_pc & 0x1FFFFFFF)) {
            Some(sym) => sym.clone(),
            None => hex_address(addr),
        }
    }
}

/// Setting or clearing T reads back as set or cleared, and changes nothing
/// but SR: the register bank bit is left alone, so no bank switches.
pub proof fn lemma_set_t(m: CpuModel, b: bool)
    requires
        m.wf(),
    ensures
        m.set_t(b).t() == b,
        m.set_t(b) == (CpuModel { sr: m.set_t(b).sr, ..m }),
        m.set_t(b).wf(),
{
    let x = m.sr;
    lemma_sr_bits(x, 0);
    assert(((x | 1u32) & 0x700083F3u32) >> 0u32 & 1 == 1 && ((x & !1u32) & 0x700083F3u32) >> 0u32 & 1 != 1
        && (((x | 1u32) & 0x700083F3u32) >> 29u32 & 1 == 1) == ((x >> 29u32) & 1 == 1)
        && (((x & !1u32) & 0x700083F3u32) >> 29u32 & 1 == 1) == ((x >> 29u32) & 1 == 1)) by (bit_vector);
}

/// Swapping the register banks twice gives back the register file.
pub proof fn law_banks_swap_twice(m: CpuModel)
    requires
        m.wf(),
    ensures
        m.banks_swapped().banks_swapped() == m,
{
    assert(m.banks_swapped().banks_swapped().r =~= m.r);
    assert(m.banks_swapped().banks_swapped().r_bank =~= m.r_bank);
}

/// Writing SR and then writing its old value back gives back the register
/// file: a bank switch is undone by switching back.
pub proof fn law_write_sr_undone(m: CpuModel, value: u32)
    requires
        m.wf(),
        m.sr & SR_MASK == m.sr,
    ensures
        m.write_sr(value).write_sr(m.sr) == m,
{
    let v = value & SR_MASK;
    if bit32(m.sr, 29) != bit32(v, 29) {
        law_banks_swap_twice(m);
        assert((CpuModel { sr: v, ..m }).banks_swapped().wf());
        assert(m.write_sr(value).write_sr(m.sr).r =~= m.r);
        assert(m.write_sr(value).write_sr(m.sr).r_bank =~= m.r_bank);
    }
}

} // verus!
