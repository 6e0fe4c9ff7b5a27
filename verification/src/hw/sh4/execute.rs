//! Carrying out a decoded SH-4 instruction: those that work on registers
//! alone, and the step of a running CPU that fetches, decodes and runs one
//! instruction through the memory bus (delayed branches, SLEEP, PREF, SR
//! loads and RTE included), or looks for an interrupt while it sleeps.
use super::alu::{
    add_spec, addc_spec, addi_spec, and_spec, andi_spec, bf_spec, bt_spec, clrs_spec, clrt_spec, cmpeq_spec, cmpge_spec, cmpgt_spec, cmphi_spec, cmphieq_spec, cmpimm_spec, cmppl_spec, cmppz_spec, cmpstr_spec, div0s_spec, div0u_spec, div1_spec, dmuls_spec, dmulu_spec, dt_spec, extsb_spec, extsw_spec, extub_spec, extuw_spec, frchg_spec, fschg_spec, ldc_dbr_spec, ldc_gbr_spec, ldc_spc_spec, ldc_ssr_spec, ldc_vbr_spec, ldcrn_rmbank_spec, lds_fpscr_spec, ldsfpul_spec, ldsmach_spec, ldsmacl_spec, ldspr_spec, mov_spec, mova_spec, movi_spec, movt_spec, mul_spec, muls_spec, mulu_spec, neg_spec, negc_spec, nop_spec, not_spec, or_spec, ori_spec, rotcl_spec, rotcr_spec, rotl_spec, rotr_spec, sett_spec, shad_spec, shar_spec, shld_spec, shll16_spec, shll2_spec, shll8_spec, shll_spec, shlr16_spec, shlr2_spec, shlr8_spec, shlr_spec, stc_dbr_spec, stc_gbr_spec, stc_rmbank_spec, stc_sr_spec, stc_vbr_spec, sts_fpscr_spec, sts_fpul_spec, sts_mach_spec, sts_macl_spec, sts_pr_spec, sub_spec, subc_spec, swapb_spec, swapw_spec, tst_spec, tsti_spec, xor_spec, xori_spec, xtrct_spec,
};
use super::cpu::{accepts_interrupt, bit64, env_unchanged, first_pending, interrupt_entry, intevt_code, wrap32, Cpu, CpuModel, CpuState, SR_MASK};
use super::ccn::CcnRegisters;
use super::cpu_bus::{read16, read32, write32, BusView, CpuBus};
use super::intc::{Intc, IntcRegisters, InterruptKind, NUM_INTERRUPTS};
use super::memory::{mem_step, step_taken, wadd};
use super::alu::{op_d8, op_m, op_n, sext8};
use super::decoder::{lemma_opcode_fields, InstructionOpcode};
use super::opcodes::{decode, decode_spec, DecodedInstruction, Sh4Instruction};
use crate::hw::extensions::{bit32, BitManipulation};
use vstd::prelude::*;

verus! {

/// The register file after instruction `i` with opcode `op`, for the
/// instructions that work on registers alone (an opcode of no instruction
/// is skipped); `None` for the others, which need the memory bus, a delay
/// slot, the floating-point unit or the interrupt controller.
#[verifier::opaque]
pub open spec fn register_step(m: CpuModel, i: Sh4Instruction, op: u16) -> Option<CpuModel> {
    match i {
        Sh4Instruction::Dmulu2 => Some(dmuls_spec(m, op)),
        Sh4Instruction::BranchIfTrue => Some(bt_spec(m, op)),
        Sh4Instruction::BranchIfFalse => Some(bf_spec(m, op)),
        Sh4Instruction::Unk => Some(m.next()),
        Sh4Instruction::Add => Some(add_spec(m, op)),
        Sh4Instruction::Sub => Some(sub_spec(m, op)),
        Sh4Instruction::And => Some(and_spec(m, op)),
        Sh4Instruction::Or => Some(or_spec(m, op)),
        Sh4Instruction::Xor => Some(xor_spec(m, op)),
        Sh4Instruction::Not => Some(not_spec(m, op)),
        Sh4Instruction::Neg => Some(neg_spec(m, op)),
        Sh4Instruction::Mov => Some(mov_spec(m, op)),
        Sh4Instruction::Extub => Some(extub_spec(m, op)),
        Sh4Instruction::Extuw => Some(extuw_spec(m, op)),
        Sh4Instruction::Extsb => Some(extsb_spec(m, op)),
        Sh4Instruction::Extsw => Some(extsw_spec(m, op)),
        Sh4Instruction::Swapw => Some(swapw_spec(m, op)),
        Sh4Instruction::Swapb => Some(swapb_spec(m, op)),
        Sh4Instruction::Xtrct => Some(xtrct_spec(m, op)),
        Sh4Instruction::Shll2 => Some(shll2_spec(m, op)),
        Sh4Instruction::Shll8 => Some(shll8_spec(m, op)),
        Sh4Instruction::Shll16 => Some(shll16_spec(m, op)),
        Sh4Instruction::Shlr2 => Some(shlr2_spec(m, op)),
        Sh4Instruction::Shlr8 => Some(shlr8_spec(m, op)),
        Sh4Instruction::Shlr16 => Some(shlr16_spec(m, op)),
        Sh4Instruction::Shld => Some(shld_spec(m, op)),
        Sh4Instruction::Shad => Some(shad_spec(m, op)),
        Sh4Instruction::Addi => Some(addi_spec(m, op)),
        Sh4Instruction::Movi => Some(movi_spec(m, op)),
        Sh4Instruction::Xori => Some(xori_spec(m, op)),
        Sh4Instruction::Ori => Some(ori_spec(m, op)),
        Sh4Instruction::Andi => Some(andi_spec(m, op)),
        Sh4Instruction::Mova => Some(mova_spec(m, op)),
        Sh4Instruction::CompareEq => Some(cmpeq_spec(m, op)),
        Sh4Instruction::CompareHi => Some(cmphi_spec(m, op)),
        Sh4Instruction::CompareHs => Some(cmphieq_spec(m, op)),
        Sh4Instruction::CompareGt => Some(cmpgt_spec(m, op)),
        Sh4Instruction::CompareGe => Some(cmpge_spec(m, op)),
        Sh4Instruction::ComparePl => Some(cmppl_spec(m, op)),
        Sh4Instruction::ComparePz => Some(cmppz_spec(m, op)),
        Sh4Instruction::CompareStr => Some(cmpstr_spec(m, op)),
        Sh4Instruction::Tst => Some(tst_spec(m, op)),
        Sh4Instruction::Shll => Some(shll_spec(m, op)),
        Sh4Instruction::Shlr => Some(shlr_spec(m, op)),
        Sh4Instruction::Shar => Some(shar_spec(m, op)),
        Sh4Instruction::Rotl => Some(rotl_spec(m, op)),
        Sh4Instruction::Rotr => Some(rotr_spec(m, op)),
        Sh4Instruction::Rotcl => Some(rotcl_spec(m, op)),
        Sh4Instruction::Rotcr => Some(rotcr_spec(m, op)),
        Sh4Instruction::Dt => Some(dt_spec(m, op)),
        Sh4Instruction::Addc => Some(addc_spec(m, op)),
        Sh4Instruction::Subc => Some(subc_spec(m, op)),
        Sh4Instruction::CompareImm => Some(cmpimm_spec(m, op)),
        Sh4Instruction::Tsti => Some(tsti_spec(m, op)),
        Sh4Instruction::Sett => Some(sett_spec(m, op)),
        Sh4Instruction::Clrt => Some(clrt_spec(m, op)),
        Sh4Instruction::Clrs => Some(clrs_spec(m, op)),
        Sh4Instruction::Nop => Some(nop_spec(m, op)),
        Sh4Instruction::Movt => Some(movt_spec(m, op)),
        Sh4Instruction::Div0u => Some(div0u_spec(m, op)),
        Sh4Instruction::Div0s => Some(div0s_spec(m, op)),
        Sh4Instruction::Div1 => Some(div1_spec(m, op)),
        Sh4Instruction::Negc => Some(negc_spec(m, op)),
        Sh4Instruction::StcSr => Some(stc_sr_spec(m, op)),
        Sh4Instruction::StcGbr => Some(stc_gbr_spec(m, op)),
        Sh4Instruction::StcVbr => Some(stc_vbr_spec(m, op)),
        Sh4Instruction::StcDbr => Some(stc_dbr_spec(m, op)),
        Sh4Instruction::StsFpscr => Some(sts_fpscr_spec(m, op)),
        Sh4Instruction::StsMacl => Some(sts_macl_spec(m, op)),
        Sh4Instruction::StsMach => Some(sts_mach_spec(m, op)),
        Sh4Instruction::StsPr => Some(sts_pr_spec(m, op)),
        Sh4Instruction::StsFpul => Some(sts_fpul_spec(m, op)),
        Sh4Instruction::StcRmbank => Some(stc_rmbank_spec(m, op)),
        Sh4Instruction::LdcrnRmbank => Some(ldcrn_rmbank_spec(m, op)),
        Sh4Instruction::LdcGbr => Some(ldc_gbr_spec(m, op)),
        Sh4Instruction::LdcSpc => Some(ldc_spc_spec(m, op)),
        Sh4Instruction::LdcVbr => Some(ldc_vbr_spec(m, op)),
        Sh4Instruction::LdcDbr => Some(ldc_dbr_spec(m, op)),
        Sh4Instruction::LdcSsr => Some(ldc_ssr_spec(m, op)),
        Sh4Instruction::Ldsfpul => Some(ldsfpul_spec(m, op)),
        Sh4Instruction::Ldsmacl => Some(ldsmacl_spec(m, op)),
        Sh4Instruction::Ldsmach => Some(ldsmach_spec(m, op)),
        Sh4Instruction::Ldspr => Some(ldspr_spec(m, op)),
        Sh4Instruction::LdsFpscr => Some(lds_fpscr_spec(m, op)),
        Sh4Instruction::Frchg => Some(frchg_spec(m, op)),
        Sh4Instruction::Fschg => Some(fschg_spec(m, op)),
        Sh4Instruction::Mul => Some(mul_spec(m, op)),
        Sh4Instruction::Mulu => Some(mulu_spec(m, op)),
        Sh4Instruction::Muls => Some(muls_spec(m, op)),
        Sh4Instruction::Dmulu => Some(dmulu_spec(m, op)),
        _ => None,
    }
}

/// Whether instruction `i` may be carried out on `m`: NEGC with a zero
/// operand and T set, and FRCHG or FSCHG with the precision bit set, are
/// not carried out.
pub open spec fn register_step_allowed(m: CpuModel, i: Sh4Instruction, op: u16) -> bool {
    match i {
        Sh4Instruction::Negc => !(m.r[op_m(op)] == 0 && m.t()),
        Sh4Instruction::Frchg => !bit32(m.fpscr & 0x003FFFFF, 19),
        Sh4Instruction::Fschg => !bit32(m.fpscr & 0x003FFFFF, 19),
        _ => true,
    }
}

impl Cpu {
    /// Carries out a decoded instruction if it works on registers alone,
    /// and says whether it did; otherwise the CPU is left as it was.
    #[verifier::rlimit(100)]
    pub fn execute_register_instruction(&mut self, d: DecodedInstruction) -> (r: bool)
        requires
            old(self).registers@.wf(),
            register_step_allowed(old(self).registers@, d.instruction, d.opcode.0),
        ensures
            r == register_step(old(self).registers@, d.instruction, d.opcode.0) is Some,
            r ==> final(self).registers@ == register_step(old(self).registers@, d.instruction, d.opcode.0)->0,
            r ==> env_unchanged(*final(self), *old(self)),
            final(self).registers@.wf(),
            !r ==> *final(self) == *old(self),
    {
        reveal(register_step);
        let op = InstructionOpcode(d.opcode.0);
        match d.instruction {
            Sh4Instruction::Dmulu2 => { self.dmulu2(op); true },
            Sh4Instruction::BranchIfTrue => { self.branch_if_true(op); true },
            Sh4Instruction::BranchIfFalse => { self.branch_if_false(op); true },
            Sh4Instruction::Unk => { self.unk(op); true },
            Sh4Instruction::Add => { self.add(op); true },
            Sh4Instruction::Sub => { self.sub(op); true },
            Sh4Instruction::And => { self.and(op); true },
            Sh4Instruction::Or => { self.or(op); true },
            Sh4Instruction::Xor => { self.xor(op); true },
            Sh4Instruction::Not => { self.not(op); true },
            Sh4Instruction::Neg => { self.neg(op); true },
            Sh4Instruction::Mov => { self.mov(op); true },
            Sh4Instruction::Extub => { self.extub(op); true },
            Sh4Instruction::Extuw => { self.extuw(op); true },
            Sh4Instruction::Extsb => { self.extsb(op); true },
            Sh4Instruction::Extsw => { self.extsw(op); true },
            Sh4Instruction::Swapw => { self.swapw(op); true },
            Sh4Instruction::Swapb => { self.swapb(op); true },
            Sh4Instruction::Xtrct => { self.xtrct(op); true },
            Sh4Instruction::Shll2 => { self.shll2(op); true },
            Sh4Instruction::Shll8 => { self.shll8(op); true },
            Sh4Instruction::Shll16 => { self.shll16(op); true },
            Sh4Instruction::Shlr2 => { self.shlr2(op); true },
            Sh4Instruction::Shlr8 => { self.shlr8(op); true },
            Sh4Instruction::Shlr16 => { self.shlr16(op); true },
            Sh4Instruction::Shld => { self.shld(op); true },
            Sh4Instruction::Shad => { self.shad(op); true },
            Sh4Instruction::Addi => { self.addi(op); true },
            Sh4Instruction::Movi => { self.movi(op); true },
            Sh4Instruction::Xori => { self.xori(op); true },
            Sh4Instruction::Ori => { self.ori(op); true },
            Sh4Instruction::Andi => { self.andi(op); true },
            Sh4Instruction::Mova => { self.mova(op); true },
            Sh4Instruction::CompareEq => { self.cmpeq(op); true },
            Sh4Instruction::CompareHi => { self.cmphi(op); true },
            Sh4Instruction::CompareHs => { self.cmphieq(op); true },
            Sh4Instruction::CompareGt => { self.cmpgt(op); true },
            Sh4Instruction::CompareGe => { self.cmpge(op); true },
            Sh4Instruction::ComparePl => { self.cmppl(op); true },
            Sh4Instruction::ComparePz => { self.cmppz(op); true },
            Sh4Instruction::CompareStr => { self.cmpstr(op); true },
            Sh4Instruction::Tst => { self.tst(op); true },
            Sh4Instruction::Shll => { self.shll(op); true },
            Sh4Instruction::Shlr => { self.shlr(op); true },
            Sh4Instruction::Shar => { self.shar(op); true },
            Sh4Instruction::Rotl => { self.rotl(op); true },
            Sh4Instruction::Rotr => { self.rotr(op); true },
            Sh4Instruction::Rotcl => { self.rotcl(op); true },
            Sh4Instruction::Rotcr => { self.rotcr(op); true },
            Sh4Instruction::Dt => { self.dt(op); true },
            Sh4Instruction::Addc => { self.addc(op); true },
            Sh4Instruction::Subc => { self.subc(op); true },
            Sh4Instruction::CompareImm => { self.cmpimm(op); true },
            Sh4Instruction::Tsti => { self.tsti(op); true },
            Sh4Instruction::Sett => { self.sett(op); true },
            Sh4Instruction::Clrt => { self.clrt(op); true },
            Sh4Instruction::Clrs => { self.clrs(op); true },
            Sh4Instruction::Nop => { self.nop(op); true },
            Sh4Instruction::Movt => { self.movt(op); true },
            Sh4Instruction::Div0u => { self.div0u(op); true },
            Sh4Instruction::Div0s => { self.div0s(op); true },
            Sh4Instruction::Div1 => { self.div1(op); true },
            Sh4Instruction::Negc => { self.negc(op); true },
            Sh4Instruction::StcSr => { self.stc_sr(op); true },
            Sh4Instruction::StcGbr => { self.stc_gbr(op); true },
            Sh4Instruction::StcVbr => { self.stc_vbr(op); true },
            Sh4Instruction::StcDbr => { self.stc_dbr(op); true },
            Sh4Instruction::StsFpscr => { self.sts_fpscr(op); true },
            Sh4Instruction::StsMacl => { self.sts_macl(op); true },
            Sh4Instruction::StsMach => { self.sts_mach(op); true },
            Sh4Instruction::StsPr => { self.sts_pr(op); true },
            Sh4Instruction::StsFpul => { self.sts_fpul(op); true },
            Sh4Instruction::StcRmbank => { self.stc_rmbank(op); true },
            Sh4Instruction::LdcrnRmbank => { self.ldcrn_rmbank(op); true },
            Sh4Instruction::LdcGbr => { self.ldc_gbr(op); true },
            Sh4Instruction::LdcSpc => { self.ldc_spc(op); true },
            Sh4Instruction::LdcVbr => { self.ldc_vbr(op); true },
            Sh4Instruction::LdcDbr => { self.ldc_dbr(op); true },
            Sh4Instruction::LdcSsr => { self.ldc_ssr(op); true },
            Sh4Instruction::Ldsfpul => { self.ldsfpul(op); true },
            Sh4Instruction::Ldsmacl => { self.ldsmacl(op); true },
            Sh4Instruction::Ldsmach => { self.ldsmach(op); true },
            Sh4Instruction::Ldspr => { self.ldspr(op); true },
            Sh4Instruction::LdsFpscr => { self.lds_fpscr(op); true },
            Sh4Instruction::Frchg => { self.frchg(op); true },
            Sh4Instruction::Fschg => { self.fschg(op); true },
            Sh4Instruction::Mul => { self.mul(op); true },
            Sh4Instruction::Mulu => { self.mulu(op); true },
            Sh4Instruction::Muls => { self.muls(op); true },
            Sh4Instruction::Dmulu => { self.dmulu(op); true },
            _ => false,
        }
    }
}

/// A 12-bit displacement sign-extended to 32 bits.
pub open spec fn sext12(d: u32) -> u32 {
    if d & 0x800 == 0 {
        d & 0xFFF
    } else {
        0xFFFFF000 | d
    }
}

/// The offset from PC of a PC-relative delayed branch: four plus twice the
/// displacement, the doubling taken modulo 2^32.
pub open spec fn branch_offset(disp: u32) -> int {
    4 + wrap32(disp + disp)
}

/// For a delayed branch: the registers as it leaves them before its delay
/// slot (PR for the calls) and the address it goes to; `None` for the other
/// instructions and where an address sum that does not wrap would overflow.
pub open spec fn delayed_branch(m: CpuModel, i: Sh4Instruction, op: u16) -> Option<(CpuModel, u32)> {
    let rn = m.r[op_n(op)];
    let d8 = sext8(op_d8(op));
    let d12 = sext12((op & 0xFFF) as u32);
    match i {
        Sh4Instruction::Bra => Some((m, wrap32(m.pc + wrap32(branch_offset(d12))))),
        Sh4Instruction::Bsr => if m.pc + 4 <= u32::MAX && branch_offset(d12) <= u32::MAX {
            Some((CpuModel { pr: (m.pc + 4) as u32, ..m }, wrap32(m.pc + branch_offset(d12))))
        } else {
            None
        },
        Sh4Instruction::Braf => if rn + 4 <= u32::MAX {
            Some((m, wrap32(m.pc + (rn + 4))))
        } else {
            None
        },
        Sh4Instruction::Bsrf => if rn + 4 <= u32::MAX {
            Some((CpuModel { pr: wrap32(m.pc + 4), ..m }, wrap32(m.pc + (rn + 4))))
        } else {
            None
        },
        Sh4Instruction::Jmp => Some((m, rn)),
        Sh4Instruction::Jsr => if m.pc + 4 <= u32::MAX {
            Some((CpuModel { pr: (m.pc + 4) as u32, ..m }, rn))
        } else {
            None
        },
        Sh4Instruction::Rts => Some((m, m.pr)),
        Sh4Instruction::BranchIfTrueDelayed => if !m.t() {
            Some((m, wrap32(m.pc + 4)))
        } else if branch_offset(d8) <= u32::MAX {
            Some((m, wrap32(m.pc + branch_offset(d8))))
        } else {
            None
        },
        Sh4Instruction::BranchIfFalseDelayed => if m.t() {
            Some((m, wrap32(m.pc + 4)))
        } else if branch_offset(d8) <= u32::MAX {
            Some((m, wrap32(m.pc + branch_offset(d8))))
        } else {
            None
        },
        _ => None,
    }
}

/// An instruction in a delay slot: one that works on registers alone (and
/// may be carried out) or one that reads or writes memory.
pub open spec fn slot_step(m: CpuModel, b: BusView, i: Sh4Instruction, op: u16) -> Option<(CpuModel, BusView)> {
    match register_step(m, i, op) {
        Some(m1) => if register_step_allowed(m, i, op) {
            Some((m1, b))
        } else {
            None
        },
        None => mem_step(m, b, i, op),
    }
}

/// A delayed branch: the instruction after it (its delay slot) is fetched
/// and carried out with PC on it, then PC goes to the branch's target.
#[verifier::opaque]
pub open spec fn branch_step(m: CpuModel, b: BusView, i: Sh4Instruction, op: u16) -> Option<(CpuModel, BusView)> {
    match delayed_branch(m, i, op) {
        Some((m0, target)) => {
            let slot_pc = wrap32(m.pc + 2);
            match read16(b, slot_pc) {
                Some(s) => match slot_step(CpuModel { pc: slot_pc, ..m0 }, b, decode_spec(s).instruction, s) {
                    Some((m2, b2)) => Some((CpuModel { pc: target, ..m2 }, b2)),
                    None => None,
                },
                None => None,
            }
        },
        None => None,
    }
}

/// One instruction on a running CPU: registers alone, memory, or a delayed
/// branch with its slot; `None` where it is not carried out.
pub open spec fn cpu_step(m: CpuModel, b: BusView, i: Sh4Instruction, op: u16) -> Option<(CpuModel, BusView)> {
    match register_step(m, i, op) {
        Some(m1) => Some((m1, b)),
        None => match mem_step(m, b, i, op) {
            Some(x) => Some(x),
            None => branch_step(m, b, i, op),
        },
    }
}

/// The instruction at PC, when the bus yields it, may be carried out.
pub open spec fn fetch_allowed(m: CpuModel, b: BusView) -> bool {
    match read16(b, m.pc) {
        Some(op) => register_step_allowed(m, decode_spec(op).instruction, op),
        None => true,
    }
}

impl Cpu {
    fn register_step_is_allowed(&self, d: DecodedInstruction) -> (r: bool)
        ensures
            r == register_step_allowed(self.registers@, d.instruction, d.opcode.0),
    {
        let op = InstructionOpcode(d.opcode.0);
        match d.instruction {
            Sh4Instruction::Negc => !(self.registers.r[op.m()] == 0 && self.registers.sr.check_bit(0)),
            Sh4Instruction::Frchg | Sh4Instruction::Fschg => !(self.registers.fpscr & 0x003FFFFF).check_bit(19),
            _ => true,
        }
    }

    /// The instruction in a delay slot.
    fn execute_slot(&mut self, bus: &mut CpuBus, d: DecodedInstruction) -> (r: bool)
        requires
            old(self).registers@.wf(),
            old(bus).wf(),
        ensures
            final(self).registers@.wf(),
            final(bus).wf(),
            final(bus).intc == old(bus).intc,
            env_unchanged(*final(self), *old(self)),
            step_taken(slot_step(old(self).registers@, old(bus).view(), d.instruction, d.opcode.0), r, old(self).registers@, old(bus).view(), final(self).registers@, final(bus).view()),
    {
        if !self.register_step_is_allowed(d) {
            proof {
                reveal(register_step);
            }
            return false;
        }
        if self.execute_register_instruction(d) {
            true
        } else {
            self.execute_memory_instruction(bus, d)
        }
    }

    /// The PR value a delayed branch sets before its slot and the address it
    /// goes to; `None` for the other instructions and where an address sum
    /// that does not wrap would overflow.
    #[verifier::rlimit(50)]
    fn branch_plan(&self, d: DecodedInstruction) -> (r: Option<(u32, u32)>)
        ensures
            match delayed_branch(self.registers@, d.instruction, d.opcode.0) {
                Some((m0, t)) => r == Some((m0.pr, t)) && m0 == (CpuModel { pr: m0.pr, ..self.registers@ }),
                None => r is None,
            },
    {
        let op = InstructionOpcode(d.opcode.0);
        let pc = self.registers.current_pc;
        let pr = self.registers.pr;
        let rn = self.registers.r[op.n()];
        let d8 = op.d8();
        let disp8 = if (d8 & 0x80) == 0 { d8 & 0xFF } else { 0xFFFFFF00 | d8 };
        let d12 = op.d12();
        let disp12 = if d12 & 0x800 == 0 { d12 & 0xFFF } else { 0xFFFFF000 | d12 };
        let twice8 = wadd(disp8, disp8);
        let twice12 = wadd(disp12, disp12);
        let t = self.registers.sr.check_bit(0);
        match d.instruction {
            Sh4Instruction::Bra => Some((pr, wadd(pc, wadd(4, twice12)))),
            Sh4Instruction::Bsr => {
                if pc <= u32::MAX - 4 && twice12 <= u32::MAX - 4 {
                    Some((pc + 4, wadd(pc, 4 + twice12)))
                } else {
                    return None;
                }
            },
            Sh4Instruction::Braf => {
                if rn <= u32::MAX - 4 {
                    Some((pr, wadd(pc, rn + 4)))
                } else {
                    return None;
                }
            },
            Sh4Instruction::Bsrf => {
                if rn <= u32::MAX - 4 {
                    Some((wadd(pc, 4), wadd(pc, rn + 4)))
                } else {
                    return None;
                }
            },
            Sh4Instruction::Jmp => Some((pr, rn)),
            Sh4Instruction::Jsr => {
                if pc <= u32::MAX - 4 {
                    Some((pc + 4, rn))
                } else {
                    return None;
                }
            },
            Sh4Instruction::Rts => Some((pr, pr)),
            Sh4Instruction::BranchIfTrueDelayed => {
                if !t {
                    Some((pr, wadd(pc, 4)))
                } else if twice8 <= u32::MAX - 4 {
                    Some((pr, wadd(pc, 4 + twice8)))
                } else {
                    return None;
                }
            },
            Sh4Instruction::BranchIfFalseDelayed => {
                if t {
                    Some((pr, wadd(pc, 4)))
                } else if twice8 <= u32::MAX - 4 {
                    Some((pr, wadd(pc, 4 + twice8)))
                } else {
                    return None;
                }
            },
            _ => {
                return None;
            },
        }
    }

    /// Carries out a delayed branch and the instruction in its slot, and
    /// says whether it did; otherwise the CPU and the bus are left as they
    /// were.
    #[verifier::rlimit(50)]
    pub fn execute_delayed_branch(&mut self, bus: &mut CpuBus, d: DecodedInstruction) -> (r: bool)
        requires
            old(self).registers@.wf(),
            old(bus).wf(),
        ensures
            final(self).registers@.wf(),
            final(bus).wf(),
            final(bus).intc == old(bus).intc,
            env_unchanged(*final(self), *old(self)),
            step_taken(branch_step(old(self).registers@, old(bus).view(), d.instruction, d.opcode.0), r, old(self).registers@, old(bus).view(), final(self).registers@, final(bus).view()),
    {
        reveal(branch_step);
        let pc = self.registers.current_pc;
        let pr = self.registers.pr;
        let (new_pr, target) = match self.branch_plan(d) {
            Some(p) => p,
            None => {
                return false;
            },
        };
        let slot_pc = wadd(pc, 2);
        let slot_op = match bus.read_16(slot_pc) {
            Some(s) => s,
            None => {
                return false;
            },
        };
        let slot = decode(slot_op);
        self.registers.pr = new_pr;
        self.registers.current_pc = slot_pc;
        if self.execute_slot(bus, slot) {
            self.registers.current_pc = target;
            true
        } else {
            self.registers.pr = pr;
            self.registers.current_pc = pc;
            false
        }
    }

    /// Whether the instruction at PC, when the bus yields it, may be carried
    /// out: the condition that `exec_next_opcode` asks of a running CPU.
    pub fn next_instruction_allowed(&self, bus: &CpuBus) -> (r: bool)
        requires
            bus.wf(),
        ensures
            r == fetch_allowed(self.registers@, bus.view()),
    {
        match bus.read_16(self.registers.current_pc) {
            Some(op) => self.register_step_is_allowed(decode(op)),
            None => true,
        }
    }

}

/// The interrupt controller's requests name only its sources, and taking
/// the interrupt the CPU would accept leaves its handler address in range.
pub open spec fn interrupts_ready(m: CpuModel, state: CpuState, levels: Seq<u8>, order: Seq<InterruptKind>, req: u64) -> bool {
    &&& req == 0 || exists|i: int| 0 <= i < NUM_INTERRUPTS && #[trigger] bit64(req, i)
    &&& accepts_interrupt(m, state, levels, order, req) ==> m.vbr + 0x600 <= u32::MAX
}

/// After a look for an interrupt: the registers, the CPU state, INTEVT and
/// the pending requests. An accepted interrupt records its code, clears its
/// request, wakes the CPU and enters the handler.
pub open spec fn interrupt_check(
    m: CpuModel,
    state: CpuState,
    levels: Seq<u8>,
    order: Seq<InterruptKind>,
    req: u64,
    intevt: u32,
) -> (CpuModel, CpuState, u32, u64) {
    let pos = first_pending(req);
    if accepts_interrupt(m, state, levels, order, req) {
        (interrupt_entry(m), CpuState::Running, intevt_code(order[pos].index_spec() as int), req & !(1u64 << (pos as u64)))
    } else {
        (m, state, intevt, req)
    }
}

/// The store queue's long words written out from the `k`-th on, to `ext`
/// and the seven addresses after it: the bus after the writes and whether
/// all of them were carried out (the writes stop at the first that is not).
pub open spec fn sq_flush(b: BusView, ext: u32, q: int, k: int) -> (BusView, bool)
    decreases 8 - k,
{
    if k >= 8 {
        (b, true)
    } else {
        match write32(b, wrap32(ext + 4 * k), b.sq[q * 8 + k]) {
            Some(nb) => sq_flush(nb, ext, q, k + 1),
            None => (b, false),
        }
    }
}

/// PREF @Rn on a store queue address: the external address that the queue
/// selected by bit 5 is written to, from the address and QACR0 or QACR1.
pub open spec fn sq_target(a: u32, ccn: CcnRegisters) -> u32 {
    let base = if bit32(a, 5) { ccn.qacr1 } else { ccn.qacr0 };
    (a & 0x03ffffe0) | ((base & 0x1c) << 24u32)
}

/// Whether `a` lies in the store queue area.
pub open spec fn is_sq_address(a: u32) -> bool {
    a & 0xEC000000 == 0xE0000000
}

/// What PREF @Rn does: on a store queue address the queue is written out
/// (PC moves on only when all its writes were carried out); elsewhere it
/// only moves PC on.
pub open spec fn pref_done(m: CpuModel, b: BusView, op: u16, r: bool, m1: CpuModel, b1: BusView) -> bool {
    let a = m.r[op_n(op)];
    if is_sq_address(a) {
        let (b2, ok) = sq_flush(b, sq_target(a, b.ccn), if bit32(a, 5) { 1 } else { 0 }, 0);
        &&& r == ok
        &&& b1 == b2
        &&& m1 == if ok { m.next() } else { m }
    } else {
        &&& r
        &&& b1 == b
        &&& m1 == m.next()
    }
}

/// RTE before the look for an interrupt that follows it: SR takes SSR, the
/// instruction in the delay slot runs, the register banks follow the new
/// RB bit, and PC takes SPC; `None` where the slot is not carried out.
pub open spec fn rte_step(m: CpuModel, b: BusView) -> Option<(CpuModel, BusView)> {
    let slot_pc = wrap32(m.pc + 2);
    let m0 = CpuModel { sr: m.ssr & SR_MASK, pc: slot_pc, ..m };
    match read16(b, slot_pc) {
        Some(s) => match slot_step(m0, b, decode_spec(s).instruction, s) {
            Some((m2, b2)) => {
                let m3 = if bit32(m.sr & SR_MASK, 29) != bit32(m2.sr, 29) { m2.banks_swapped() } else { m2 };
                Some((CpuModel { pc: m.spc, ..m3 }, b2))
            },
            None => None,
        },
        None => None,
    }
}

/// The CPU and the bus after LDC Rm,SR, LDC.L @Rm+,SR or RTE, before the
/// look for an interrupt that follows each of them; `None` for other
/// instructions and where an access is not carried out.
pub open spec fn sr_load_step(m: CpuModel, b: BusView, i: Sh4Instruction, op: u16) -> Option<(CpuModel, BusView)> {
    let rn = m.r[op_n(op)];
    match i {
        Sh4Instruction::LdcSr => Some((m.write_sr(rn & SR_MASK).next(), b)),
        Sh4Instruction::LdcmSr => match read32(b, rn) {
            Some(v) => {
                let m1 = CpuModel { sr: v & SR_MASK, ..m }.set_r(op_n(op), wrap32(rn + 4)).next();
                Some((if bit32(m.sr, 29) != bit32(v & SR_MASK, 29) { m1.banks_swapped() } else { m1 }, b))
            },
            None => None,
        },
        Sh4Instruction::Rte => rte_step(m, b),
        _ => None,
    }
}

/// An SR load at PC leaves the interrupt state ready for the look that
/// follows it.
pub open spec fn sr_load_ready(m: CpuModel, b: BusView, levels: Seq<u8>, order: Seq<InterruptKind>, req: u64) -> bool {
    match read16(b, m.pc) {
        Some(op) => match sr_load_step(m, b, decode_spec(op).instruction, op) {
            Some((m1, _)) => interrupts_ready(m1, CpuState::Running, levels, order, req),
            None => true,
        },
        None => true,
    }
}

/// The CPU and the bus after a look for an interrupt from `m` in `state`.
pub open spec fn checked(
    m: CpuModel,
    state: CpuState,
    b: BusView,
    intc0: Intc,
    cpu: Cpu,
    bus: CpuBus,
) -> bool {
    let req = intc0.regs().interrupt_requests;
    let (m2, st2, ev2, req2) = interrupt_check(m, state, intc0.levels(), intc0.priorities(), req, b.ccn.intevt);
    &&& cpu.registers@ == m2
    &&& cpu.state == st2
    &&& bus.view() == (BusView { ccn: CcnRegisters { intevt: ev2, ..b.ccn }, ..b })
    &&& bus.intc.regs() == (IntcRegisters { interrupt_requests: req2, ..intc0.regs() })
    &&& bus.intc.levels() == intc0.levels()
    &&& bus.intc.priorities() == intc0.priorities()
    &&& bus.intc.positions() == intc0.positions()
}

impl Cpu {
    /// Looks for an interrupt to take.
    fn check_interrupts(&mut self, bus: &mut CpuBus)
        requires
            old(self).registers@.wf(),
            old(bus).wf(),
            interrupts_ready(old(self).registers@, old(self).state, old(bus).intc.levels(), old(bus).intc.priorities(), old(bus).intc.regs().interrupt_requests),
        ensures
            final(self).registers@.wf(),
            final(bus).wf(),
            final(self).symbols_map == old(self).symbols_map,
            final(self).cyc == old(self).cyc,
            final(self).current_opcode == old(self).current_opcode,
            checked(old(self).registers@, old(self).state, old(bus).view(), old(bus).intc, *final(self), *final(bus)),
    {
        self.process_interrupts(&mut bus.intc, &mut bus.ccn);
        proof {
            lemma_interrupt_entry_wf(old(self).registers@);
        }
    }

    /// LDC Rm,SR and LDC.L @Rm+,SR: SR is loaded, then the CPU looks for an
    /// interrupt that the new mask lets through.
    #[verifier::rlimit(50)]
    fn execute_sr_load(&mut self, bus: &mut CpuBus, d: DecodedInstruction) -> (r: bool)
        requires
            old(self).registers@.wf(),
            old(bus).wf(),
            old(self).state == CpuState::Running,
            d.instruction == Sh4Instruction::LdcSr || d.instruction == Sh4Instruction::LdcmSr,
            sr_load_step(old(self).registers@, old(bus).view(), d.instruction, d.opcode.0) matches Some((m1, _))
                ==> interrupts_ready(m1, CpuState::Running, old(bus).intc.levels(), old(bus).intc.priorities(), old(bus).intc.regs().interrupt_requests),
        ensures
            final(self).registers@.wf(),
            final(bus).wf(),
            final(self).symbols_map == old(self).symbols_map,
            final(self).cyc == old(self).cyc,
            final(self).current_opcode == old(self).current_opcode,
            match sr_load_step(old(self).registers@, old(bus).view(), d.instruction, d.opcode.0) {
                Some((m1, b1)) => r && checked(m1, CpuState::Running, b1, old(bus).intc, *final(self), *final(bus)),
                None => !r && *final(self) == *old(self) && final(bus).view() == old(bus).view() && final(bus).intc == old(bus).intc,
            },
    {
        let op = InstructionOpcode(d.opcode.0);
        let n = op.n();
        let rn = self.get_register_by_index(n);
        if d.instruction == Sh4Instruction::LdcSr {
            self.set_sr(rn & 0x700083F3);
        } else {
            match bus.read_32(rn) {
                Some(v) => {
                    let old_sr = self.registers.sr;
                    self.registers.sr = v & 0x700083F3;
                    self.set_register_by_index(n, rn.wrapping_add(4));
                    self.registers.current_pc = self.registers.current_pc.wrapping_add(2);
                    self.swap_banks_if_needed(old_sr);
                    self.check_interrupts(bus);
                    return true;
                },
                None => {
                    return false;
                },
            }
        }
        self.registers.current_pc = self.registers.current_pc.wrapping_add(2);
        self.check_interrupts(bus);
        true
    }

    /// PREF @Rn: on a store queue address, writes the selected queue out to
    /// memory; answers whether all its writes were carried out (when not, the
    /// writes stop at the first that is not and PC stays).
    fn execute_pref(&mut self, bus: &mut CpuBus, d: DecodedInstruction) -> (r: bool)
        requires
            old(self).registers@.wf(),
            old(bus).wf(),
        ensures
            final(self).registers@.wf(),
            final(bus).wf(),
            final(bus).intc == old(bus).intc,
            env_unchanged(*final(self), *old(self)),
            pref_done(old(self).registers@, old(bus).view(), d.opcode.0, r, final(self).registers@, final(bus).view()),
    {
        let op = InstructionOpcode(d.opcode.0);
        proof {
            lemma_opcode_fields(d.opcode.0);
        }
        let a = self.registers.r[op.n()];
        if a & 0xEC000000 == 0xE0000000 {
            let second = a.check_bit(5);
            let base = if second { bus.ccn.registers.qacr1 } else { bus.ccn.registers.qacr0 };
            let ext = (a & 0x03ffffe0) | ((base & 0x1c) << 24u32);
            let q: usize = if second { 1 } else { 0 };
            assert(ext == sq_target(a, old(bus).view().ccn) && (q as int) == (if bit32(a, 5) { 1int } else { 0int }));
            let mut k: usize = 0;
            while k < 8
                invariant
                    k <= 8,
                    q <= 1,
                    bus.wf(),
                    bus.intc == old(bus).intc,
                    sq_flush(old(bus).view(), ext, q as int, 0) == sq_flush(bus.view(), ext, q as int, k as int),
                    ext == sq_target(a, old(bus).view().ccn),
                    (q as int) == (if bit32(a, 5) { 1int } else { 0int }),
                    a == old(self).registers@.r[op_n(d.opcode.0)],
                    is_sq_address(a),
                    *self == *old(self),
                decreases 8 - k,
            {
                let v = bus.store_queues[q * 8 + k];
                let target = wadd(ext, 4 * (k as u32));
                if !bus.write_32(target, v) {
                    return false;
                }
                k = k + 1;
            }
        }
        self.registers.current_pc = self.registers.current_pc.wrapping_add(2);
        true
    }

    /// RTE: returns from an exception, running the instruction in its delay
    /// slot, then looks for an interrupt that the restored SR lets through.
    #[verifier::rlimit(50)]
    fn execute_rte(&mut self, bus: &mut CpuBus, d: DecodedInstruction) -> (r: bool)
        requires
            old(self).registers@.wf(),
            old(bus).wf(),
            old(self).state == CpuState::Running,
            d.instruction == Sh4Instruction::Rte,
            sr_load_step(old(self).registers@, old(bus).view(), d.instruction, d.opcode.0) matches Some((m1, _))
                ==> interrupts_ready(m1, CpuState::Running, old(bus).intc.levels(), old(bus).intc.priorities(), old(bus).intc.regs().interrupt_requests),
        ensures
            final(self).registers@.wf(),
            final(bus).wf(),
            final(self).symbols_map == old(self).symbols_map,
            final(self).cyc == old(self).cyc,
            final(self).current_opcode == old(self).current_opcode,
            match sr_load_step(old(self).registers@, old(bus).view(), d.instruction, d.opcode.0) {
                Some((m1, b1)) => r && checked(m1, CpuState::Running, b1, old(bus).intc, *final(self), *final(bus)),
                None => !r && final(self).registers@ == old(self).registers@ && final(self).state == old(self).state
                    && final(bus).view() == old(bus).view() && final(bus).intc == old(bus).intc,
            },
    {
        let pc = self.registers.current_pc;
        let sr = self.registers.sr;
        let spc = self.registers.spc;
        let ssr = self.registers.ssr;
        let slot_pc = wadd(pc, 2);
        let slot_op = match bus.read_16(slot_pc) {
            Some(s) => s,
            None => {
                return false;
            },
        };
        let slot = decode(slot_op);
        let old_sr = sr & 0x700083F3;
        self.registers.sr = ssr & 0x700083F3;
        self.registers.current_pc = slot_pc;
        if !self.execute_slot(bus, slot) {
            self.registers.sr = sr;
            self.registers.current_pc = pc;
            return false;
        }
        self.swap_banks_if_needed(old_sr);
        self.registers.current_pc = spc;
        self.check_interrupts(bus);
        true
    }

    /// Runs one instruction at cycle `cyc`. A running CPU notes the cycle,
    /// fetches the half-word at PC through the bus, decodes it and carries
    /// it out (registers alone, memory, a delayed branch with its slot,
    /// SLEEP, PREF, or an SR load or RTE followed by a look for an
    /// interrupt), answering
    /// whether it did. A CPU that sleeps or stands by looks for an interrupt
    /// to take instead, and answers `false`.
    #[verifier::rlimit(100)]
    pub fn exec_next_opcode(&mut self, bus: &mut CpuBus, cyc: u64) -> (r: bool)
        requires
            old(self).registers@.wf(),
            old(bus).wf(),
            old(self).state == CpuState::Running ==> fetch_allowed(old(self).registers@, old(bus).view())
                && sr_load_ready(old(self).registers@, old(bus).view(), old(bus).intc.levels(), old(bus).intc.priorities(), old(bus).intc.regs().interrupt_requests),
            old(self).state != CpuState::Running ==> interrupts_ready(old(self).registers@, old(self).state, old(bus).intc.levels(), old(bus).intc.priorities(), old(bus).intc.regs().interrupt_requests),
        ensures
            final(self).registers@.wf(),
            final(bus).wf(),
            final(self).symbols_map == old(self).symbols_map,
            old(self).state == CpuState::Running ==> {
                let m = old(self).registers@;
                let b = old(bus).view();
                match read16(b, m.pc) {
                    Some(op) => {
                        let i = decode_spec(op).instruction;
                        &&& final(self).cyc == cyc
                        &&& final(self).current_opcode == op
                        &&& if i == Sh4Instruction::Sleep {
                            &&& r
                            &&& final(self).registers@ == m.next()
                            &&& final(bus).view() == b
                            &&& final(bus).intc == old(bus).intc
                            &&& final(self).state == CpuState::Sleeping
                        } else if i == Sh4Instruction::Pref {
                            &&& pref_done(m, b, op, r, final(self).registers@, final(bus).view())
                            &&& final(bus).intc == old(bus).intc
                            &&& final(self).state == CpuState::Running
                        } else if i == Sh4Instruction::LdcSr || i == Sh4Instruction::LdcmSr || i == Sh4Instruction::Rte {
                            match sr_load_step(m, b, i, op) {
                                Some((m1, b1)) => r && checked(m1, CpuState::Running, b1, old(bus).intc, *final(self), *final(bus)),
                                None => !r && final(self).registers@ == m && final(bus).view() == b && final(bus).intc == old(bus).intc
                                    && final(self).state == CpuState::Running,
                            }
                        } else {
                            &&& step_taken(cpu_step(m, b, i, op), r, m, b, final(self).registers@, final(bus).view())
                            &&& final(bus).intc == old(bus).intc
                            &&& final(self).state == CpuState::Running
                        }
                    },
                    None => {
                        &&& !r
                        &&& final(self).registers@ == m
                        &&& final(bus).view() == b
                        &&& final(bus).intc == old(bus).intc
                        &&& final(self).state == CpuState::Running
                        &&& final(self).cyc == cyc
                    },
                }
            },
            old(self).state != CpuState::Running ==> !r && final(self).cyc == old(self).cyc && checked(
                old(self).registers@,
                old(self).state,
                old(bus).view(),
                old(bus).intc,
                *final(self),
                *final(bus),
            ),
    {
        if self.state != CpuState::Running {
            self.check_interrupts(bus);
            return false;
        }
        self.cyc = cyc;
        let opcode = match bus.read_16(self.registers.current_pc) {
            Some(op) => op,
            None => {
                return false;
            },
        };
        self.current_opcode = opcode;
        let d = decode(opcode);
        if d.instruction == Sh4Instruction::Sleep {
            self.state = CpuState::Sleeping;
            self.registers.current_pc = self.registers.current_pc.wrapping_add(2);
            return true;
        }
        if d.instruction == Sh4Instruction::LdcSr || d.instruction == Sh4Instruction::LdcmSr {
            return self.execute_sr_load(bus, d);
        }
        if d.instruction == Sh4Instruction::Rte {
            return self.execute_rte(bus, d);
        }
        if d.instruction == Sh4Instruction::Pref {
            return self.execute_pref(bus, d);
        }
        if self.execute_register_instruction(d) {
            true
        } else if self.execute_memory_instruction(bus, d) {
            true
        } else {
            self.execute_delayed_branch(bus, d)
        }
    }
}

proof fn lemma_interrupt_entry_wf(m: CpuModel)
    requires
        m.wf(),
    ensures
        interrupt_entry(m).wf(),
{
}

} // verus!
