//! The SH-4 instructions that work on registers alone: moves, arithmetic,
//! logic, shifts and rotations, comparisons, the division steps, the
//! branches without a delay slot and the transfers to and from the control
//! and system registers; and MAC.L, given the two longs it reads.
use super::ccn::Ccn;
use super::cpu::{lemma_set_t, bit64, env_unchanged, signed32, with_bit, wrap32, Cpu, CpuModel, CpuState, SR_MASK, accepts_interrupt, interrupt_entry, first_pending};
use super::decoder::{lemma_opcode_fields, InstructionOpcode};
use super::intc::{Intc, NUM_INTERRUPTS};
use crate::hw::extensions::{bit32, bit_of, lemma_logic_bits, BitManipulation};
use vstd::prelude::*;

verus! {

/// The Rn field of an instruction.
pub open spec fn op_n(op: u16) -> int {
    ((op >> 8u16) & 0xF) as int
}

/// The Rm field of an instruction.
pub open spec fn op_m(op: u16) -> int {
    ((op >> 4u16) & 0xF) as int
}

/// The 8-bit immediate or displacement field.
pub open spec fn op_d8(op: u16) -> u32 {
    (op & 0xFF) as u32
}

/// An 8-bit immediate sign-extended to 32 bits.
pub open spec fn sext8(d: u32) -> u32 {
    if d & 0x80 == 0 {
        d & 0xFF
    } else {
        0xFFFFFF00 | d
    }
}

/// `x` read as a two's complement 16-bit number.
pub open spec fn signed16(x: u32) -> int {
    let h = x & 0xFFFF;
    if h >= 0x8000 {
        h - 0x10000
    } else {
        h as int
    }
}

/// Arithmetic right shift of `x` by `k` (below 32).
pub open spec fn asr32(x: u32, k: u32) -> u32 {
    (x >> k) | (if bit32(x, 31) { !(0xFFFF_FFFFu32 >> k) } else { 0u32 })
}

proof fn lemma_alu_bits(x: u32, y: u32, i: usize)
    by (bit_vector)
    ensures
        (x & 0x1F) != 0 ==> (!x & 0x1F) + 1 <= 31,
        (x & 0x1F) < 32,
        (x >> 31u32) & 1 == 1 <==> x >= 0x8000_0000,
        (x >> 0u32) & 1 == 1 <==> x & 1 == 1,
        x & 0xFFFF <= 0xFFFF,
        y & 0xFFFF <= 0xFFFF,
        x <= 0xff ==> x << 2u32 == x * 4,
        i & 0x7 == i % 8,
{
}

proof fn lemma_i32_view(x: u32)
    by (bit_vector)
    ensures
        (x as i32) as int == if x >= 0x8000_0000 { x - 0x1_0000_0000 } else { x as int },
{
}

/// Signed comparisons through the `as i32` view agree with `signed32`.
proof fn lemma_signed_order(a: u32, b: u32)
    ensures
        ((a as i32) > (b as i32)) == (signed32(a) > signed32(b)),
        ((a as i32) >= (b as i32)) == (signed32(a) >= signed32(b)),
        ((a as i32) > 0) == (signed32(a) > 0),
        ((a as i32) >= 0) == (signed32(a) >= 0),
{
    lemma_i32_view(a);
    lemma_i32_view(b);
}

/// Whether `a` is greater than `b`, both read as two's complement numbers.
fn signed_greater(a: u32, b: u32) -> (r: bool)
    ensures
        r == (signed32(a) > signed32(b)),
{
    proof { lemma_signed_order(a, b); }
    (a as i32) > (b as i32)
}

/// Whether `a` is at least `b`, both read as two's complement numbers.
fn signed_at_least(a: u32, b: u32) -> (r: bool)
    ensures
        r == (signed32(a) >= signed32(b)),
{
    proof { lemma_signed_order(a, b); }
    (a as i32) >= (b as i32)
}

/// One step of non-restoring division (DIV1): the new Rn and the new Q bit.
pub open spec fn div1_step(rn: u32, rm: u32, sr: u32) -> (u32, bool) {
    let old_q = bit32(sr, 8);
    let q0 = bit32(rn, 31);
    let r1 = ((rn << 1u32) | (if bit32(sr, 0) { 1u32 } else { 0u32 })) as u32;
    let m = bit32(sr, 9);
    if !old_q {
        if !m {
            let r = wrap32(r1 - rm);
            (r, if !q0 { r > r1 } else { !(r > r1) })
        } else {
            let r = wrap32(r1 + rm);
            (r, if !q0 { !(r < r1) } else { r < r1 })
        }
    } else {
        if !m {
            let r = wrap32(r1 + rm);
            (r, if !q0 { r < r1 } else { !(r < r1) })
        } else {
            let r = wrap32(r1 - rm);
            (r, if !q0 { !(r > r1) } else { r > r1 })
        }
    }
}

/// ADD: Rn + Rm.
pub open spec fn add_spec(m: CpuModel, op: u16) -> CpuModel {
    m.set_r(op_n(op), wrap32(m.r[op_n(op)] + m.r[op_m(op)])).next()
}

/// SUB: Rn - Rm.
pub open spec fn sub_spec(m: CpuModel, op: u16) -> CpuModel {
    m.set_r(op_n(op), wrap32(m.r[op_n(op)] - m.r[op_m(op)])).next()
}

/// AND: Rn & Rm.
pub open spec fn and_spec(m: CpuModel, op: u16) -> CpuModel {
    m.set_r(op_n(op), m.r[op_n(op)] & m.r[op_m(op)]).next()
}

/// OR: Rn | Rm.
pub open spec fn or_spec(m: CpuModel, op: u16) -> CpuModel {
    m.set_r(op_n(op), m.r[op_n(op)] | m.r[op_m(op)]).next()
}

/// XOR: Rn ^ Rm.
pub open spec fn xor_spec(m: CpuModel, op: u16) -> CpuModel {
    m.set_r(op_n(op), m.r[op_n(op)] ^ m.r[op_m(op)]).next()
}

/// NOT: !Rm into Rn.
pub open spec fn not_spec(m: CpuModel, op: u16) -> CpuModel {
    m.set_r(op_n(op), !m.r[op_m(op)]).next()
}

/// NEG: 0 - Rm into Rn.
pub open spec fn neg_spec(m: CpuModel, op: u16) -> CpuModel {
    m.set_r(op_n(op), wrap32(0 - m.r[op_m(op)])).next()
}

/// MOV: Rm into Rn.
pub open spec fn mov_spec(m: CpuModel, op: u16) -> CpuModel {
    m.set_r(op_n(op), m.r[op_m(op)]).next()
}

/// EXTUB: The low byte of Rm, zero-extended, into Rn.
pub open spec fn extub_spec(m: CpuModel, op: u16) -> CpuModel {
    m.set_r(op_n(op), m.r[op_m(op)] & 0xFF).next()
}

/// EXTUW: The low half-word of Rm, zero-extended, into Rn.
pub open spec fn extuw_spec(m: CpuModel, op: u16) -> CpuModel {
    m.set_r(op_n(op), m.r[op_m(op)] & 0xFFFF).next()
}

/// EXTSB: The low byte of Rm, sign-extended, into Rn.
pub open spec fn extsb_spec(m: CpuModel, op: u16) -> CpuModel {
    m.set_r(op_n(op), (if m.r[op_m(op)] & 0x80 == 0 { m.r[op_m(op)] & 0xFF } else { m.r[op_m(op)] | 0xFFFFFF00 })).next()
}

/// EXTSW: The low half-word of Rm, sign-extended, into Rn.
pub open spec fn extsw_spec(m: CpuModel, op: u16) -> CpuModel {
    m.set_r(op_n(op), (if m.r[op_m(op)] & 0x8000 == 0 { m.r[op_m(op)] & 0xFFFF } else { m.r[op_m(op)] | 0xFFFF0000 })).next()
}

/// SWAPW: The two half-words of Rm swapped, into Rn.
pub open spec fn swapw_spec(m: CpuModel, op: u16) -> CpuModel {
    m.set_r(op_n(op), ((m.r[op_m(op)] << 16u32) | ((m.r[op_m(op)] >> 16u32) & 0xFFFF))).next()
}

/// SWAPB: The two low bytes of Rm swapped, into Rn.
pub open spec fn swapb_spec(m: CpuModel, op: u16) -> CpuModel {
    m.set_r(op_n(op), ((m.r[op_m(op)] & 0xFFFF0000) | ((m.r[op_m(op)] & 0xFF) << 8u32) | ((m.r[op_m(op)] & 0xFF00) >> 8u32))).next()
}

/// XTRCT: The middle 32 bits of Rm:Rn into Rn.
pub open spec fn xtrct_spec(m: CpuModel, op: u16) -> CpuModel {
    m.set_r(op_n(op), (((m.r[op_m(op)] << 16u32) & 0xFFFF0000) | ((m.r[op_n(op)] >> 16u32) & 0xFFFF))).next()
}

/// SHLL2: Rn shifted left by 2.
pub open spec fn shll2_spec(m: CpuModel, op: u16) -> CpuModel {
    m.set_r(op_n(op), m.r[op_n(op)] << 2u32).next()
}

/// SHLL8: Rn shifted left by 8.
pub open spec fn shll8_spec(m: CpuModel, op: u16) -> CpuModel {
    m.set_r(op_n(op), m.r[op_n(op)] << 8u32).next()
}

/// SHLL16: Rn shifted left by 16.
pub open spec fn shll16_spec(m: CpuModel, op: u16) -> CpuModel {
    m.set_r(op_n(op), m.r[op_n(op)] << 16u32).next()
}

/// SHLR2: Rn shifted right by 2.
pub open spec fn shlr2_spec(m: CpuModel, op: u16) -> CpuModel {
    m.set_r(op_n(op), m.r[op_n(op)] >> 2u32).next()
}

/// SHLR8: Rn shifted right by 8.
pub open spec fn shlr8_spec(m: CpuModel, op: u16) -> CpuModel {
    m.set_r(op_n(op), m.r[op_n(op)] >> 8u32).next()
}

/// SHLR16: Rn shifted right by 16.
pub open spec fn shlr16_spec(m: CpuModel, op: u16) -> CpuModel {
    m.set_r(op_n(op), m.r[op_n(op)] >> 16u32).next()
}

/// SHLD: Rn shifted logically by Rm: left by the low five bits when Rm is not negative, else right by 32 minus them (a right shift by 32 gives 0).
pub open spec fn shld_spec(m: CpuModel, op: u16) -> CpuModel {
    m.set_r(op_n(op), (if m.r[op_m(op)] & 0x80000000 == 0 { m.r[op_n(op)] << (m.r[op_m(op)] & 0x1F) } else if m.r[op_m(op)] & 0x1F == 0 { 0u32 } else { m.r[op_n(op)] >> ((!m.r[op_m(op)] & 0x1F) + 1) as u32 })).next()
}

/// SHAD: Rn shifted arithmetically by Rm: left by the low five bits when Rm is not negative, else right (sign-filling) by 32 minus them.
pub open spec fn shad_spec(m: CpuModel, op: u16) -> CpuModel {
    m.set_r(op_n(op), (if m.r[op_m(op)] & 0x80000000 == 0 { m.r[op_n(op)] << (m.r[op_m(op)] & 0x1F) } else if m.r[op_m(op)] & 0x1F == 0 { if bit32(m.r[op_n(op)], 31) { 0xFFFF_FFFFu32 } else { 0u32 } } else { asr32(m.r[op_n(op)], ((!m.r[op_m(op)] & 0x1F) + 1) as u32) })).next()
}

/// ADDI: Rn plus the sign-extended immediate.
pub open spec fn addi_spec(m: CpuModel, op: u16) -> CpuModel {
    m.set_r(op_n(op), wrap32(m.r[op_n(op)] + sext8(op_d8(op)))).next()
}

/// MOVI: The sign-extended immediate into Rn.
pub open spec fn movi_spec(m: CpuModel, op: u16) -> CpuModel {
    m.set_r(op_n(op), sext8(op_d8(op))).next()
}

/// XORI: R0 ^ the immediate.
pub open spec fn xori_spec(m: CpuModel, op: u16) -> CpuModel {
    m.set_r(0, m.r[0] ^ (op_d8(op) & 0xFF)).next()
}

/// ORI: R0 | the immediate.
pub open spec fn ori_spec(m: CpuModel, op: u16) -> CpuModel {
    m.set_r(0, m.r[0] | (op_d8(op) & 0xFF)).next()
}

/// ANDI: R0 & the immediate.
pub open spec fn andi_spec(m: CpuModel, op: u16) -> CpuModel {
    m.set_r(0, m.r[0] & (op_d8(op) & 0xFF)).next()
}

/// MOVA: R0 gets the longword-aligned PC plus 4 plus four times the displacement.
pub open spec fn mova_spec(m: CpuModel, op: u16) -> CpuModel {
    m.set_r(0, wrap32((m.pc & 0xfffffffc) + 4 + op_d8(op) * 4)).next()
}

/// CMPEQ: T = (Rn == Rm).
pub open spec fn cmpeq_spec(m: CpuModel, op: u16) -> CpuModel {
    m.set_t(m.r[op_n(op)] == m.r[op_m(op)]).next()
}

/// CMPHI: T = Rn > Rm, unsigned.
pub open spec fn cmphi_spec(m: CpuModel, op: u16) -> CpuModel {
    m.set_t(m.r[op_n(op)] > m.r[op_m(op)]).next()
}

/// CMPHIEQ: T = Rn >= Rm, unsigned.
pub open spec fn cmphieq_spec(m: CpuModel, op: u16) -> CpuModel {
    m.set_t(m.r[op_n(op)] >= m.r[op_m(op)]).next()
}

/// CMPGT: T = Rn > Rm, signed.
pub open spec fn cmpgt_spec(m: CpuModel, op: u16) -> CpuModel {
    m.set_t(signed32(m.r[op_n(op)]) > signed32(m.r[op_m(op)])).next()
}

/// CMPGE: T = Rn >= Rm, signed.
pub open spec fn cmpge_spec(m: CpuModel, op: u16) -> CpuModel {
    m.set_t(signed32(m.r[op_n(op)]) >= signed32(m.r[op_m(op)])).next()
}

/// CMPPL: T = Rn > 0, signed.
pub open spec fn cmppl_spec(m: CpuModel, op: u16) -> CpuModel {
    m.set_t(signed32(m.r[op_n(op)]) > 0).next()
}

/// CMPPZ: T = Rn >= 0, signed.
pub open spec fn cmppz_spec(m: CpuModel, op: u16) -> CpuModel {
    m.set_t(signed32(m.r[op_n(op)]) >= 0).next()
}

/// CMPSTR: T = some byte of Rn equals the same byte of Rm.
pub open spec fn cmpstr_spec(m: CpuModel, op: u16) -> CpuModel {
    m.set_t(!((m.r[op_n(op)] ^ m.r[op_m(op)]) & 0xFF000000 != 0 && (m.r[op_n(op)] ^ m.r[op_m(op)]) & 0x00FF0000 != 0 && (m.r[op_n(op)] ^ m.r[op_m(op)]) & 0x0000FF00 != 0 && (m.r[op_n(op)] ^ m.r[op_m(op)]) & 0x000000FF != 0)).next()
}

/// TST: T = (Rn & Rm) == 0.
pub open spec fn tst_spec(m: CpuModel, op: u16) -> CpuModel {
    m.set_t(m.r[op_n(op)] & m.r[op_m(op)] == 0).next()
}

/// SHLL: Rn shifted left by one; T gets the bit shifted out.
pub open spec fn shll_spec(m: CpuModel, op: u16) -> CpuModel {
    m.set_t(bit32(m.r[op_n(op)], 31)).set_r(op_n(op), m.r[op_n(op)] << 1u32).next()
}

/// SHLR: Rn shifted right by one; T gets the bit shifted out.
pub open spec fn shlr_spec(m: CpuModel, op: u16) -> CpuModel {
    m.set_t(bit32(m.r[op_n(op)], 0)).set_r(op_n(op), m.r[op_n(op)] >> 1u32).next()
}

/// SHAR: Rn shifted right by one, keeping its sign; T gets the bit shifted out.
pub open spec fn shar_spec(m: CpuModel, op: u16) -> CpuModel {
    m.set_t(bit32(m.r[op_n(op)], 0)).set_r(op_n(op), ((m.r[op_n(op)] >> 1u32) | (if bit32(m.r[op_n(op)], 31) { 0x80000000u32 } else { 0u32 }))).next()
}

/// ROTL: Rn rotated left by one; T gets the bit rotated around.
pub open spec fn rotl_spec(m: CpuModel, op: u16) -> CpuModel {
    m.set_t(bit32(m.r[op_n(op)], 31)).set_r(op_n(op), ((m.r[op_n(op)] << 1u32) | (if bit32(m.r[op_n(op)], 31) { 1u32 } else { 0u32 }))).next()
}

/// ROTR: Rn rotated right by one; T gets the bit rotated around.
pub open spec fn rotr_spec(m: CpuModel, op: u16) -> CpuModel {
    m.set_t(bit32(m.r[op_n(op)], 0)).set_r(op_n(op), ((m.r[op_n(op)] >> 1u32) | (if bit32(m.r[op_n(op)], 0) { 0x80000000u32 } else { 0u32 }))).next()
}

/// ROTCL: Rn rotated left through T.
pub open spec fn rotcl_spec(m: CpuModel, op: u16) -> CpuModel {
    m.set_t(bit32(m.r[op_n(op)], 31)).set_r(op_n(op), ((m.r[op_n(op)] << 1u32) | (if m.t() { 1u32 } else { 0u32 }))).next()
}

/// ROTCR: Rn rotated right through T.
pub open spec fn rotcr_spec(m: CpuModel, op: u16) -> CpuModel {
    m.set_t(bit32(m.r[op_n(op)], 0)).set_r(op_n(op), ((m.r[op_n(op)] >> 1u32) | (if m.t() { 0x80000000u32 } else { 0u32 }))).next()
}

/// DT: Rn decremented; T = (the result is 0).
pub open spec fn dt_spec(m: CpuModel, op: u16) -> CpuModel {
    m.set_t(wrap32(m.r[op_n(op)] - 1) == 0).set_r(op_n(op), wrap32(m.r[op_n(op)] - 1)).next()
}

/// ADDC: Rn + Rm + T; T gets the carry.
pub open spec fn addc_spec(m: CpuModel, op: u16) -> CpuModel {
    m.set_t(m.r[op_n(op)] + m.r[op_m(op)] + (if m.t() { 1int } else { 0int }) > u32::MAX).set_r(op_n(op), wrap32(m.r[op_n(op)] + m.r[op_m(op)] + (if m.t() { 1int } else { 0int }))).next()
}

/// SUBC: Rn - Rm - T; T gets the borrow.
pub open spec fn subc_spec(m: CpuModel, op: u16) -> CpuModel {
    m.set_t(m.r[op_n(op)] - m.r[op_m(op)] - (if m.t() { 1int } else { 0int }) < 0).set_r(op_n(op), wrap32(m.r[op_n(op)] - m.r[op_m(op)] - (if m.t() { 1int } else { 0int }))).next()
}

/// CMPIMM: T = (R0 equals the sign-extended immediate).
pub open spec fn cmpimm_spec(m: CpuModel, op: u16) -> CpuModel {
    m.set_t(sext8(op_d8(op)) == m.r[0]).next()
}

/// TSTI: T = (R0 & the immediate) == 0.
pub open spec fn tsti_spec(m: CpuModel, op: u16) -> CpuModel {
    m.set_t(m.r[0] & (op_d8(op) & 0xFF) == 0).next()
}

/// SETT: T = 1.
pub open spec fn sett_spec(m: CpuModel, op: u16) -> CpuModel {
    m.set_t(true).next()
}

/// CLRT: T = 0.
pub open spec fn clrt_spec(m: CpuModel, op: u16) -> CpuModel {
    m.set_t(false).next()
}

/// CLRS: S (SR bit 1) = 0.
pub open spec fn clrs_spec(m: CpuModel, op: u16) -> CpuModel {
    m.write_sr(with_bit(m.sr, 1, false)).next()
}

/// NOP: Nothing but the next instruction.
pub open spec fn nop_spec(m: CpuModel, op: u16) -> CpuModel {
    m.next()
}

/// MOVT: T into Rn.
pub open spec fn movt_spec(m: CpuModel, op: u16) -> CpuModel {
    m.set_r(op_n(op), if m.t() { 1u32 } else { 0u32 }).next()
}

/// DIV0U: Clears M, Q and T for an unsigned division.
pub open spec fn div0u_spec(m: CpuModel, op: u16) -> CpuModel {
    m.write_sr(with_bit(with_bit(with_bit(m.sr, 0, false), 8, false), 9, false)).next()
}

/// DIV0S: Sets Q from the sign of Rn, M from the sign of Rm and T = Q ^ M for a signed division.
pub open spec fn div0s_spec(m: CpuModel, op: u16) -> CpuModel {
    m.write_sr(with_bit(with_bit(with_bit(m.sr, 8, bit32(m.r[op_n(op)], 31)), 9, bit32(m.r[op_m(op)], 31)), 0, bit32(m.r[op_n(op)], 31) != bit32(m.r[op_m(op)], 31))).next()
}

/// DIV1: One step of non-restoring division of Rn by Rm, with Q, M and T.
pub open spec fn div1_spec(m: CpuModel, op: u16) -> CpuModel {
    m.set_r(op_n(op), div1_step(m.r[op_n(op)], m.r[op_m(op)], m.sr).0).write_sr(with_bit(with_bit(m.sr, 0, div1_step(m.r[op_n(op)], m.r[op_m(op)], m.sr).1 == bit32(m.sr, 9)), 8, div1_step(m.r[op_n(op)], m.r[op_m(op)], m.sr).1)).next()
}

/// NEGC: 0 - Rm - T into Rn; T gets the borrow.
pub open spec fn negc_spec(m: CpuModel, op: u16) -> CpuModel {
    m.set_r(op_n(op), wrap32(0 - m.r[op_m(op)] - (if m.t() { 1int } else { 0int }))).set_t(m.r[op_m(op)] + (if m.t() { 1int } else { 0int }) > 0).next()
}

/// STC_SR: SR into Rn.
pub open spec fn stc_sr_spec(m: CpuModel, op: u16) -> CpuModel {
    m.set_r(op_n(op), m.sr).next()
}

/// STC_GBR: GBR into Rn.
pub open spec fn stc_gbr_spec(m: CpuModel, op: u16) -> CpuModel {
    m.set_r(op_n(op), m.gbr).next()
}

/// STC_VBR: VBR into Rn.
pub open spec fn stc_vbr_spec(m: CpuModel, op: u16) -> CpuModel {
    m.set_r(op_n(op), m.vbr).next()
}

/// STC_DBR: DBR into Rn.
pub open spec fn stc_dbr_spec(m: CpuModel, op: u16) -> CpuModel {
    m.set_r(op_n(op), m.dbr).next()
}

/// STS_FPSCR: FPSCR into Rn.
pub open spec fn sts_fpscr_spec(m: CpuModel, op: u16) -> CpuModel {
    m.set_r(op_n(op), m.fpscr & 0x003FFFFF).next()
}

/// STS_MACL: MACL into Rn.
pub open spec fn sts_macl_spec(m: CpuModel, op: u16) -> CpuModel {
    m.set_r(op_n(op), m.macl).next()
}

/// STS_MACH: MACH into Rn.
pub open spec fn sts_mach_spec(m: CpuModel, op: u16) -> CpuModel {
    m.set_r(op_n(op), m.mach).next()
}

/// STS_PR: PR into Rn.
pub open spec fn sts_pr_spec(m: CpuModel, op: u16) -> CpuModel {
    m.set_r(op_n(op), m.pr).next()
}

/// STS_FPUL: FPUL into Rn.
pub open spec fn sts_fpul_spec(m: CpuModel, op: u16) -> CpuModel {
    m.set_r(op_n(op), m.fpul).next()
}

/// STC_RMBANK: Banked register Rm_BANK into Rn.
pub open spec fn stc_rmbank_spec(m: CpuModel, op: u16) -> CpuModel {
    m.set_r(op_n(op), m.r_bank[op_m(op) % 8]).next()
}

/// LDCRN_RMBANK: Rn into banked register Rm_BANK.
pub open spec fn ldcrn_rmbank_spec(m: CpuModel, op: u16) -> CpuModel {
    CpuModel { r_bank: m.r_bank.update(op_m(op) % 8, m.r[op_n(op)]), ..m }.next()
}

/// LDC_GBR: Rn into GBR.
pub open spec fn ldc_gbr_spec(m: CpuModel, op: u16) -> CpuModel {
    CpuModel { gbr: m.r[op_n(op)], ..m }.next()
}

/// LDC_SPC: Rn into SPC.
pub open spec fn ldc_spc_spec(m: CpuModel, op: u16) -> CpuModel {
    CpuModel { spc: m.r[op_n(op)], ..m }.next()
}

/// LDC_VBR: Rn into VBR.
pub open spec fn ldc_vbr_spec(m: CpuModel, op: u16) -> CpuModel {
    CpuModel { vbr: m.r[op_n(op)], ..m }.next()
}

/// LDC_DBR: Rn into DBR.
pub open spec fn ldc_dbr_spec(m: CpuModel, op: u16) -> CpuModel {
    CpuModel { dbr: m.r[op_n(op)], ..m }.next()
}

/// LDC_SSR: Rn into SSR.
pub open spec fn ldc_ssr_spec(m: CpuModel, op: u16) -> CpuModel {
    CpuModel { ssr: m.r[op_n(op)], ..m }.next()
}

/// LDSFPUL: Rn into FPUL.
pub open spec fn ldsfpul_spec(m: CpuModel, op: u16) -> CpuModel {
    CpuModel { fpul: m.r[op_n(op)], ..m }.next()
}

/// LDSMACL: Rn into MACL.
pub open spec fn ldsmacl_spec(m: CpuModel, op: u16) -> CpuModel {
    CpuModel { macl: m.r[op_n(op)], ..m }.next()
}

/// LDSMACH: Rn into MACH.
pub open spec fn ldsmach_spec(m: CpuModel, op: u16) -> CpuModel {
    CpuModel { mach: m.r[op_n(op)], ..m }.next()
}

/// LDSPR: Rn into PR.
pub open spec fn ldspr_spec(m: CpuModel, op: u16) -> CpuModel {
    CpuModel { pr: m.r[op_n(op)], ..m }.next()
}

/// LDS_FPSCR: Rn into FPSCR.
pub open spec fn lds_fpscr_spec(m: CpuModel, op: u16) -> CpuModel {
    m.write_fpscr(m.r[op_n(op)]).next()
}

/// FRCHG: Switches the floating-point banks (FPSCR.FR).
pub open spec fn frchg_spec(m: CpuModel, op: u16) -> CpuModel {
    m.write_fpscr(with_bit(m.fpscr & 0x003FFFFF, 21, !bit32(m.fpscr & 0x003FFFFF, 21))).next()
}

/// FSCHG: Switches the transfer size (FPSCR.SZ).
pub open spec fn fschg_spec(m: CpuModel, op: u16) -> CpuModel {
    CpuModel { fpscr: with_bit(m.fpscr & 0x003FFFFF, 20, !bit32(m.fpscr & 0x003FFFFF, 20)), ..m }.next()
}

/// MUL: The low 32 bits of Rn * Rm into MACL.
pub open spec fn mul_spec(m: CpuModel, op: u16) -> CpuModel {
    CpuModel { macl: wrap32(m.r[op_n(op)] * m.r[op_m(op)]), ..m }.next()
}

/// MULU: The product of the low half-words of Rn and Rm, unsigned, into MACL.
pub open spec fn mulu_spec(m: CpuModel, op: u16) -> CpuModel {
    CpuModel { macl: ((m.r[op_n(op)] & 0xFFFF) * (m.r[op_m(op)] & 0xFFFF)) as u32, ..m }.next()
}

/// MULS: The product of the low half-words of Rn and Rm, signed, into MACL.
pub open spec fn muls_spec(m: CpuModel, op: u16) -> CpuModel {
    CpuModel { macl: wrap32(signed16(m.r[op_n(op)]) * signed16(m.r[op_m(op)])), ..m }.next()
}

/// DMULU: The 64-bit unsigned product of Rn and Rm into MACH:MACL.
pub open spec fn dmulu_spec(m: CpuModel, op: u16) -> CpuModel {
    CpuModel { mach: ((m.r[op_n(op)] * m.r[op_m(op)]) / 0x1_0000_0000) as u32, macl: ((m.r[op_n(op)] * m.r[op_m(op)]) % 0x1_0000_0000) as u32, ..m }.next()
}

/// MAC.L, given the longs `at_n` and `at_m` that the bus holds at Rn and
/// Rm: their signed product is added to MACH:MACL, and Rn and Rm each move
/// on by four. With the S bit (SR bit 1) clear the sum wraps at 64 bits.
/// With it set the sum is taken with the low 16 bits of MACH only; a high
/// half from 0x8000_0000 up to but not including 0xFFFF_8000 saturates to
/// 0xFFFF_8000:0, and MACH keeps its upper 16 bits.
pub open spec fn mac_l_spec(m: CpuModel, op: u16, at_n: u32, at_m: u32) -> CpuModel {
    let prod = signed32(at_n) * signed32(at_m);
    let moved = m.set_r(op_n(op), wrap32(m.r[op_n(op)] + 4)).set_r(op_m(op), wrap32(m.r[op_m(op)] + 4));
    let upper = (m.mach / 0x10000) * 0x10000;
    if !bit32(m.sr, 1) {
        let total = (m.mach * 0x1_0000_0000 + m.macl + prod) % 0x1_0000_0000_0000_0000;
        CpuModel { mach: (total / 0x1_0000_0000) as u32, macl: (total % 0x1_0000_0000) as u32, ..moved }.next()
    } else {
        let total = ((m.mach % 0x10000) * 0x1_0000_0000 + m.macl + prod) % 0x1_0000_0000_0000_0000;
        let hi = total / 0x1_0000_0000;
        if 0x8000_0000 <= hi < 0xFFFF_8000 {
            CpuModel { mach: (0x8000 + upper) as u32, macl: 0, ..moved }.next()
        } else {
            CpuModel { mach: (hi % 0x10000 + upper) as u32, macl: (total % 0x1_0000_0000) as u32, ..moved }.next()
        }
    }
}

proof fn lemma_mac_bits(mach: u32, hi: u32)
    by (bit_vector)
    ensures
        mach & 0xFFFF == mach % 0x10000,
        mach & 0xFFFF_0000 == (mach / 0x10000) * 0x10000,
        0x8000 | (mach & 0xFFFF_0000) == 0x8000 + (mach & 0xFFFF_0000),
        (hi & 0xFFFF) | (mach & 0xFFFF_0000) == hi % 0x10000 + (mach & 0xFFFF_0000),
{
}

/// DMULS.L: the signed 64-bit product of Rn and Rm into MACH:MACL.
pub open spec fn dmuls_spec(m: CpuModel, op: u16) -> CpuModel {
    let p = (signed32(m.r[op_n(op)]) * signed32(m.r[op_m(op)])) % 0x1_0000_0000_0000_0000;
    CpuModel { mach: (p / 0x1_0000_0000) as u32, macl: (p % 0x1_0000_0000) as u32, ..m }.next()
}

/// The target of a short branch: four bytes past the branch, plus twice the
/// sign-extended 8-bit displacement.
pub open spec fn branch_target(m: CpuModel, op: u16) -> u32 {
    wrap32(m.pc + 4 + 2 * sext8(op_d8(op)))
}

/// BT: to the target when T is set, else on.
pub open spec fn bt_spec(m: CpuModel, op: u16) -> CpuModel {
    if m.t() { CpuModel { pc: branch_target(m, op), ..m } } else { m.next() }
}

/// BF: to the target when T is clear, else on.
pub open spec fn bf_spec(m: CpuModel, op: u16) -> CpuModel {
    if !m.t() { CpuModel { pc: branch_target(m, op), ..m } } else { m.next() }
}

proof fn lemma_branch_target(pc: u32, disp: u32, twice: u32, step: u32, target: u32)
    requires
        twice == wrap32(disp + disp),
        step == wrap32(pc + 4),
        target == wrap32(step + twice),
    ensures
        target == wrap32(pc + 4 + 2 * disp),
{
    vstd::arithmetic::div_mod::lemma_add_mod_noop(pc + 4, 2 * disp, 0x1_0000_0000);
}

/// The direction of a logical shift.
#[derive(Copy, Clone, Debug, PartialEq, Eq, Structural)]
pub enum ShiftDirection {
    Left,
    Right,
}

impl Cpu {
    fn get_macl(&self) -> (r: u32)
        ensures
            r == self.registers@.macl,
    {
        self.registers.macl
    }

    fn get_mach(&self) -> (r: u32)
        ensures
            r == self.registers@.mach,
    {
        self.registers.mach
    }

    /// DMULS.L Rm, Rn: the signed 64-bit product into MACH:MACL.
    pub fn dmulu2(&mut self, instruction: InstructionOpcode)
        requires
            old(self).registers@.wf(),
        ensures
            final(self).registers@ == dmuls_spec(old(self).registers@, instruction.0),
            final(self).registers@.wf(),
            env_unchanged(*final(self), *old(self)),
    {
        let rn = self.get_register_by_index(instruction.n());
        let rm = self.get_register_by_index(instruction.m());
        let a: i64 = if rn >= 0x8000_0000 { rn as i64 - 0x1_0000_0000 } else { rn as i64 };
        let b: i64 = if rm >= 0x8000_0000 { rm as i64 - 0x1_0000_0000 } else { rm as i64 };
        proof {
            assert(-0x8000_0000 * 0x8000_0000 <= a * b <= 0x8000_0000 * 0x8000_0000) by (nonlinear_arith)
                requires -0x8000_0000 <= a <= 0x7FFF_FFFF, -0x8000_0000 <= b <= 0x7FFF_FFFF;
        }
        let prod: i64 = a * b;
        let base: i128 = prod as i128 + 0x1_0000_0000_0000_0000;
        let total: u128 = (base as u128) % 0x1_0000_0000_0000_0000;
        proof {
            vstd::arithmetic::div_mod::lemma_mod_add_multiples_vanish(prod as int, 0x1_0000_0000_0000_0000);
        }
        self.set_mach((total / 0x1_0000_0000) as u32);
        self.set_macl((total % 0x1_0000_0000) as u32);
        self.registers.current_pc = self.registers.current_pc.wrapping_add(2);
    }

    /// BT label: branches when T is set (no delay slot).
    pub fn branch_if_true(&mut self, instruction: InstructionOpcode)
        requires
            old(self).registers@.wf(),
        ensures
            final(self).registers@ == bt_spec(old(self).registers@, instruction.0),
            final(self).registers@.wf(),
            env_unchanged(*final(self), *old(self)),
    {
        let d = instruction.d8();
        let disp = if (d & 0x80) == 0 { d & 0xFF } else { 0xFFFFFF00 | d };
        if self.get_sr().check_bit(0) {
            let twice = disp.wrapping_add(disp);
            let step = self.registers.current_pc.wrapping_add(4);
            let target = step.wrapping_add(twice);
            proof {
                lemma_branch_target(self.registers.current_pc, disp, twice, step, target);
            }
            self.registers.current_pc = target;
        } else {
            self.registers.current_pc = self.registers.current_pc.wrapping_add(2);
        }
    }

    /// BF label: branches when T is clear (no delay slot).
    pub fn branch_if_false(&mut self, instruction: InstructionOpcode)
        requires
            old(self).registers@.wf(),
        ensures
            final(self).registers@ == bf_spec(old(self).registers@, instruction.0),
            final(self).registers@.wf(),
            env_unchanged(*final(self), *old(self)),
    {
        let d = instruction.d8();
        let disp = if (d & 0x80) == 0 { d & 0xFF } else { 0xFFFFFF00 | d };
        if !self.get_sr().check_bit(0) {
            let twice = disp.wrapping_add(disp);
            let step = self.registers.current_pc.wrapping_add(4);
            let target = step.wrapping_add(twice);
            proof {
                lemma_branch_target(self.registers.current_pc, disp, twice, step, target);
            }
            self.registers.current_pc = target;
        } else {
            self.registers.current_pc = self.registers.current_pc.wrapping_add(2);
        }
    }

    /// An opcode with no instruction: skipped.
    pub fn unk(&mut self, _instruction: InstructionOpcode)
        requires
            old(self).registers@.wf(),
        ensures
            final(self).registers@ == old(self).registers@.next(),
            final(self).registers@.wf(),
            env_unchanged(*final(self), *old(self)),
    {
        self.registers.current_pc = self.registers.current_pc.wrapping_add(2);
    }

    /// Shifts Rn by `amount` bits in `shift_direction`, filling with zeros.
    pub fn shift_logical(&mut self, rn: usize, amount: u32, shift_direction: ShiftDirection)
        requires
            rn < 16,
            amount < 32,
            old(self).registers@.wf(),
        ensures
            final(self).registers@ == old(self).registers@.set_r(
                rn as int,
                if shift_direction == ShiftDirection::Left {
                    old(self).registers@.r[rn as int] << amount
                } else {
                    old(self).registers@.r[rn as int] >> amount
                },
            ),
            final(self).registers@.wf(),
            env_unchanged(*final(self), *old(self)),
    {
        let val = self.get_register_by_index(rn);
        let shifted = match shift_direction {
            ShiftDirection::Left => val << amount,
            ShiftDirection::Right => val >> amount,
        };
        self.set_register_by_index(rn, shifted);
    }

    /// MAC.L @Rm+, @Rn+, with `at_n` and `at_m` the longs read at Rn and Rm.
    #[verifier::rlimit(40)]
    pub fn macl(&mut self, instruction: InstructionOpcode, at_n: u32, at_m: u32)
        requires
            old(self).registers@.wf(),
        ensures
            final(self).registers@ == mac_l_spec(old(self).registers@, instruction.0, at_n, at_m),
            final(self).registers@.wf(),
            env_unchanged(*final(self), *old(self)),
    {
        let rn_idx = instruction.n();
        let rm_idx = instruction.m();
        let rn = self.get_register_by_index(rn_idx);
        let rm = self.get_register_by_index(rm_idx);
        let a: i64 = if at_n >= 0x8000_0000 { at_n as i64 - 0x1_0000_0000 } else { at_n as i64 };
        let b: i64 = if at_m >= 0x8000_0000 { at_m as i64 - 0x1_0000_0000 } else { at_m as i64 };
        proof {
            assert(-0x8000_0000 * 0x8000_0000 <= a * b <= 0x8000_0000 * 0x8000_0000) by (nonlinear_arith)
                requires -0x8000_0000 <= a <= 0x7FFF_FFFF, -0x8000_0000 <= b <= 0x7FFF_FFFF;
        }
        let prod: i64 = a * b;
        let mach = self.get_mach();
        let macl = self.get_macl();
        let s = self.get_sr().check_bit(1);
        proof {
            lemma_mac_bits(mach, 0);
        }
        let acc_hi: u32 = if s { mach & 0xFFFF } else { mach };
        let base: i128 = acc_hi as i128 * 0x1_0000_0000 + macl as i128 + prod as i128 + 0x1_0000_0000_0000_0000;
        let total: u128 = (base as u128) % 0x1_0000_0000_0000_0000;
        proof {
            let x: int = acc_hi * 0x1_0000_0000 + macl + prod;
            vstd::arithmetic::div_mod::lemma_mod_add_multiples_vanish(x, 0x1_0000_0000_0000_0000);
        }
        let hi = (total / 0x1_0000_0000) as u32;
        let lo = (total % 0x1_0000_0000) as u32;
        let upper = mach & 0xFFFF_0000;
        proof {
            lemma_mac_bits(mach, hi);
        }
        if !s {
            self.set_mach(hi);
            self.set_macl(lo);
        } else if hi >= 0x8000_0000 && hi < 0xFFFF_8000 {
            self.set_mach(0x8000 | upper);
            self.set_macl(0);
        } else {
            self.set_mach((hi & 0xFFFF) | upper);
            self.set_macl(lo);
        }
        self.set_register_by_index(rn_idx, rn.wrapping_add(4));
        self.set_register_by_index(rm_idx, rm.wrapping_add(4));
        self.registers.current_pc = self.registers.current_pc.wrapping_add(2);
    }

    /// Rn + Rm.
    pub fn add(&mut self, instruction: InstructionOpcode)
        requires
            old(self).registers@.wf(),
        ensures
            final(self).registers@ == add_spec(old(self).registers@, instruction.0),
            final(self).registers@.wf(),
            env_unchanged(*final(self), *old(self)),
    {
        let rn_idx = instruction.n();
        let rm_idx = instruction.m();
        let rn = self.get_register_by_index(rn_idx);
        let rm = self.get_register_by_index(rm_idx);
        
        let v = rn.wrapping_add(rm);
        self.set_register_by_index(rn_idx, v);
        self.registers.current_pc = self.registers.current_pc.wrapping_add(2);
    }

    /// Rn - Rm.
    pub fn sub(&mut self, instruction: InstructionOpcode)
        requires
            old(self).registers@.wf(),
        ensures
            final(self).registers@ == sub_spec(old(self).registers@, instruction.0),
            final(self).registers@.wf(),
            env_unchanged(*final(self), *old(self)),
    {
        let rn_idx = instruction.n();
        let rm_idx = instruction.m();
        let rn = self.get_register_by_index(rn_idx);
        let rm = self.get_register_by_index(rm_idx);
        
        let v = rn.wrapping_sub(rm);
        self.set_register_by_index(rn_idx, v);
        self.registers.current_pc = self.registers.current_pc.wrapping_add(2);
    }

    /// Rn & Rm.
    pub fn and(&mut self, instruction: InstructionOpcode)
        requires
            old(self).registers@.wf(),
        ensures
            final(self).registers@ == and_spec(old(self).registers@, instruction.0),
            final(self).registers@.wf(),
            env_unchanged(*final(self), *old(self)),
    {
        let rn_idx = instruction.n();
        let rm_idx = instruction.m();
        let rn = self.get_register_by_index(rn_idx);
        let rm = self.get_register_by_index(rm_idx);
        
        let v = rn & rm;
        self.set_register_by_index(rn_idx, v);
        self.registers.current_pc = self.registers.current_pc.wrapping_add(2);
    }

    /// Rn | Rm.
    pub fn or(&mut self, instruction: InstructionOpcode)
        requires
            old(self).registers@.wf(),
        ensures
            final(self).registers@ == or_spec(old(self).registers@, instruction.0),
            final(self).registers@.wf(),
            env_unchanged(*final(self), *old(self)),
    {
        let rn_idx = instruction.n();
        let rm_idx = instruction.m();
        let rn = self.get_register_by_index(rn_idx);
        let rm = self.get_register_by_index(rm_idx);
        
        let v = rn | rm;
        self.set_register_by_index(rn_idx, v);
        self.registers.current_pc = self.registers.current_pc.wrapping_add(2);
    }

    /// Rn ^ Rm.
    pub fn xor(&mut self, instruction: InstructionOpcode)
        requires
            old(self).registers@.wf(),
        ensures
            final(self).registers@ == xor_spec(old(self).registers@, instruction.0),
            final(self).registers@.wf(),
            env_unchanged(*final(self), *old(self)),
    {
        let rn_idx = instruction.n();
        let rm_idx = instruction.m();
        let rn = self.get_register_by_index(rn_idx);
        let rm = self.get_register_by_index(rm_idx);
        
        let v = rn ^ rm;
        self.set_register_by_index(rn_idx, v);
        self.registers.current_pc = self.registers.current_pc.wrapping_add(2);
    }

    /// !Rm into Rn.
    pub fn not(&mut self, instruction: InstructionOpcode)
        requires
            old(self).registers@.wf(),
        ensures
            final(self).registers@ == not_spec(old(self).registers@, instruction.0),
            final(self).registers@.wf(),
            env_unchanged(*final(self), *old(self)),
    {
        let rn_idx = instruction.n();
        let rm_idx = instruction.m();
        let rn = self.get_register_by_index(rn_idx);
        let rm = self.get_register_by_index(rm_idx);
        
        let v = !rm;
        self.set_register_by_index(rn_idx, v);
        self.registers.current_pc = self.registers.current_pc.wrapping_add(2);
    }

    /// 0 - Rm into Rn.
    pub fn neg(&mut self, instruction: InstructionOpcode)
        requires
            old(self).registers@.wf(),
        ensures
            final(self).registers@ == neg_spec(old(self).registers@, instruction.0),
            final(self).registers@.wf(),
            env_unchanged(*final(self), *old(self)),
    {
        let rn_idx = instruction.n();
        let rm_idx = instruction.m();
        let rn = self.get_register_by_index(rn_idx);
        let rm = self.get_register_by_index(rm_idx);
        
        let v = 0u32.wrapping_sub(rm);
        self.set_register_by_index(rn_idx, v);
        self.registers.current_pc = self.registers.current_pc.wrapping_add(2);
    }

    /// Rm into Rn.
    pub fn mov(&mut self, instruction: InstructionOpcode)
        requires
            old(self).registers@.wf(),
        ensures
            final(self).registers@ == mov_spec(old(self).registers@, instruction.0),
            final(self).registers@.wf(),
            env_unchanged(*final(self), *old(self)),
    {
        let rn_idx = instruction.n();
        let rm_idx = instruction.m();
        let rn = self.get_register_by_index(rn_idx);
        let rm = self.get_register_by_index(rm_idx);
        
        let v = rm;
        self.set_register_by_index(rn_idx, v);
        self.registers.current_pc = self.registers.current_pc.wrapping_add(2);
    }

    /// The low byte of Rm, zero-extended, into Rn.
    pub fn extub(&mut self, instruction: InstructionOpcode)
        requires
            old(self).registers@.wf(),
        ensures
            final(self).registers@ == extub_spec(old(self).registers@, instruction.0),
            final(self).registers@.wf(),
            env_unchanged(*final(self), *old(self)),
    {
        let rn_idx = instruction.n();
        let rm_idx = instruction.m();
        let rn = self.get_register_by_index(rn_idx);
        let rm = self.get_register_by_index(rm_idx);
        
        let v = rm & 0x000000FF;
        self.set_register_by_index(rn_idx, v);
        self.registers.current_pc = self.registers.current_pc.wrapping_add(2);
    }

    /// The low half-word of Rm, zero-extended, into Rn.
    pub fn extuw(&mut self, instruction: InstructionOpcode)
        requires
            old(self).registers@.wf(),
        ensures
            final(self).registers@ == extuw_spec(old(self).registers@, instruction.0),
            final(self).registers@.wf(),
            env_unchanged(*final(self), *old(self)),
    {
        let rn_idx = instruction.n();
        let rm_idx = instruction.m();
        let rn = self.get_register_by_index(rn_idx);
        let rm = self.get_register_by_index(rm_idx);
        
        let v = rm & 0x0000FFFF;
        self.set_register_by_index(rn_idx, v);
        self.registers.current_pc = self.registers.current_pc.wrapping_add(2);
    }

    /// The low byte of Rm, sign-extended, into Rn.
    pub fn extsb(&mut self, instruction: InstructionOpcode)
        requires
            old(self).registers@.wf(),
        ensures
            final(self).registers@ == extsb_spec(old(self).registers@, instruction.0),
            final(self).registers@.wf(),
            env_unchanged(*final(self), *old(self)),
    {
        let rn_idx = instruction.n();
        let rm_idx = instruction.m();
        let rn = self.get_register_by_index(rn_idx);
        let rm = self.get_register_by_index(rm_idx);
        
        let v = if (rm & 0x00000080) == 0 { rm & 0x000000FF } else { rm | 0xFFFFFF00 };
        self.set_register_by_index(rn_idx, v);
        self.registers.current_pc = self.registers.current_pc.wrapping_add(2);
    }

    /// The low half-word of Rm, sign-extended, into Rn.
    pub fn extsw(&mut self, instruction: InstructionOpcode)
        requires
            old(self).registers@.wf(),
        ensures
            final(self).registers@ == extsw_spec(old(self).registers@, instruction.0),
            final(self).registers@.wf(),
            env_unchanged(*final(self), *old(self)),
    {
        let rn_idx = instruction.n();
        let rm_idx = instruction.m();
        let rn = self.get_register_by_index(rn_idx);
        let rm = self.get_register_by_index(rm_idx);
        
        let v = if (rm & 0x00008000) == 0 { rm & 0x0000FFFF } else { rm | 0xFFFF0000 };
        self.set_register_by_index(rn_idx, v);
        self.registers.current_pc = self.registers.current_pc.wrapping_add(2);
    }

    /// The two half-words of Rm swapped, into Rn.
    pub fn swapw(&mut self, instruction: InstructionOpcode)
        requires
            old(self).registers@.wf(),
        ensures
            final(self).registers@ == swapw_spec(old(self).registers@, instruction.0),
            final(self).registers@.wf(),
            env_unchanged(*final(self), *old(self)),
    {
        let rn_idx = instruction.n();
        let rm_idx = instruction.m();
        let rn = self.get_register_by_index(rn_idx);
        let rm = self.get_register_by_index(rm_idx);
        
        let v = (rm << 16u32) | ((rm >> 16u32) & 0x0000FFFF);
        self.set_register_by_index(rn_idx, v);
        self.registers.current_pc = self.registers.current_pc.wrapping_add(2);
    }

    /// The two low bytes of Rm swapped, into Rn.
    pub fn swapb(&mut self, instruction: InstructionOpcode)
        requires
            old(self).registers@.wf(),
        ensures
            final(self).registers@ == swapb_spec(old(self).registers@, instruction.0),
            final(self).registers@.wf(),
            env_unchanged(*final(self), *old(self)),
    {
        let rn_idx = instruction.n();
        let rm_idx = instruction.m();
        let rn = self.get_register_by_index(rn_idx);
        let rm = self.get_register_by_index(rm_idx);
        
        let v = (rm & 0xFFFF0000) | ((rm & 0x000000FF) << 8u32) | ((rm & 0x0000FF00) >> 8u32);
        self.set_register_by_index(rn_idx, v);
        self.registers.current_pc = self.registers.current_pc.wrapping_add(2);
    }

    /// The middle 32 bits of Rm:Rn into Rn.
    pub fn xtrct(&mut self, instruction: InstructionOpcode)
        requires
            old(self).registers@.wf(),
        ensures
            final(self).registers@ == xtrct_spec(old(self).registers@, instruction.0),
            final(self).registers@.wf(),
            env_unchanged(*final(self), *old(self)),
    {
        let rn_idx = instruction.n();
        let rm_idx = instruction.m();
        let rn = self.get_register_by_index(rn_idx);
        let rm = self.get_register_by_index(rm_idx);
        
        let v = ((rm << 16u32) & 0xFFFF0000) | ((rn >> 16u32) & 0x0000FFFF);
        self.set_register_by_index(rn_idx, v);
        self.registers.current_pc = self.registers.current_pc.wrapping_add(2);
    }

    /// Rn shifted left by 2.
    pub fn shll2(&mut self, instruction: InstructionOpcode)
        requires
            old(self).registers@.wf(),
        ensures
            final(self).registers@ == shll2_spec(old(self).registers@, instruction.0),
            final(self).registers@.wf(),
            env_unchanged(*final(self), *old(self)),
    {
        let rn_idx = instruction.n();
        
        let rn = self.get_register_by_index(rn_idx);
        
        
        let v = rn << 2u32;
        self.set_register_by_index(rn_idx, v);
        self.registers.current_pc = self.registers.current_pc.wrapping_add(2);
    }

    /// Rn shifted left by 8.
    pub fn shll8(&mut self, instruction: InstructionOpcode)
        requires
            old(self).registers@.wf(),
        ensures
            final(self).registers@ == shll8_spec(old(self).registers@, instruction.0),
            final(self).registers@.wf(),
            env_unchanged(*final(self), *old(self)),
    {
        let rn_idx = instruction.n();
        
        let rn = self.get_register_by_index(rn_idx);
        
        
        let v = rn << 8u32;
        self.set_register_by_index(rn_idx, v);
        self.registers.current_pc = self.registers.current_pc.wrapping_add(2);
    }

    /// Rn shifted left by 16.
    pub fn shll16(&mut self, instruction: InstructionOpcode)
        requires
            old(self).registers@.wf(),
        ensures
            final(self).registers@ == shll16_spec(old(self).registers@, instruction.0),
            final(self).registers@.wf(),
            env_unchanged(*final(self), *old(self)),
    {
        let rn_idx = instruction.n();
        
        let rn = self.get_register_by_index(rn_idx);
        
        
        let v = rn << 16u32;
        self.set_register_by_index(rn_idx, v);
        self.registers.current_pc = self.registers.current_pc.wrapping_add(2);
    }

    /// Rn shifted right by 2.
    pub fn shlr2(&mut self, instruction: InstructionOpcode)
        requires
            old(self).registers@.wf(),
        ensures
            final(self).registers@ == shlr2_spec(old(self).registers@, instruction.0),
            final(self).registers@.wf(),
            env_unchanged(*final(self), *old(self)),
    {
        let rn_idx = instruction.n();
        
        let rn = self.get_register_by_index(rn_idx);
        
        
        let v = rn >> 2u32;
        self.set_register_by_index(rn_idx, v);
        self.registers.current_pc = self.registers.current_pc.wrapping_add(2);
    }

    /// Rn shifted right by 8.
    pub fn shlr8(&mut self, instruction: InstructionOpcode)
        requires
            old(self).registers@.wf(),
        ensures
            final(self).registers@ == shlr8_spec(old(self).registers@, instruction.0),
            final(self).registers@.wf(),
            env_unchanged(*final(self), *old(self)),
    {
        let rn_idx = instruction.n();
        
        let rn = self.get_register_by_index(rn_idx);
        
        
        let v = rn >> 8u32;
        self.set_register_by_index(rn_idx, v);
        self.registers.current_pc = self.registers.current_pc.wrapping_add(2);
    }

    /// Rn shifted right by 16.
    pub fn shlr16(&mut self, instruction: InstructionOpcode)
        requires
            old(self).registers@.wf(),
        ensures
            final(self).registers@ == shlr16_spec(old(self).registers@, instruction.0),
            final(self).registers@.wf(),
            env_unchanged(*final(self), *old(self)),
    {
        let rn_idx = instruction.n();
        
        let rn = self.get_register_by_index(rn_idx);
        
        
        let v = rn >> 16u32;
        self.set_register_by_index(rn_idx, v);
        self.registers.current_pc = self.registers.current_pc.wrapping_add(2);
    }

    /// Rn shifted logically by Rm: left by the low five bits when Rm is not negative, else right by 32 minus them (a right shift by 32 gives 0).
    pub fn shld(&mut self, instruction: InstructionOpcode)
        requires
            old(self).registers@.wf(),
        ensures
            final(self).registers@ == shld_spec(old(self).registers@, instruction.0),
            final(self).registers@.wf(),
            env_unchanged(*final(self), *old(self)),
    {
        let rn_idx = instruction.n();
        let rm_idx = instruction.m();
        let rn = self.get_register_by_index(rn_idx);
        let rm = self.get_register_by_index(rm_idx);
        proof { lemma_alu_bits(rm, 0, 0); }
        let v = if rm & 0x80000000 == 0 { rn << (rm & 0x1F) } else if (rm & 0x1F) == 0 { 0 } else { rn >> ((!rm & 0x1F) + 1) };
        self.set_register_by_index(rn_idx, v);
        self.registers.current_pc = self.registers.current_pc.wrapping_add(2);
    }

    /// Rn shifted arithmetically by Rm: left by the low five bits when Rm is not negative, else right (sign-filling) by 32 minus them.
    pub fn shad(&mut self, instruction: InstructionOpcode)
        requires
            old(self).registers@.wf(),
        ensures
            final(self).registers@ == shad_spec(old(self).registers@, instruction.0),
            final(self).registers@.wf(),
            env_unchanged(*final(self), *old(self)),
    {
        let rn_idx = instruction.n();
        let rm_idx = instruction.m();
        let rn = self.get_register_by_index(rn_idx);
        let rm = self.get_register_by_index(rm_idx);
        proof { lemma_alu_bits(rm, 0, 0); }
        let v = if rm & 0x80000000 == 0 { rn << (rm & 0x1F) } else if (rm & 0x1F) == 0 { if rn.check_bit(31) { 0xFFFF_FFFF } else { 0 } } else { let k = (!rm & 0x1F) + 1; let fill: u32 = if rn.check_bit(31) { !(0xFFFF_FFFFu32 >> k) } else { 0 }; (rn >> k) | fill };
        self.set_register_by_index(rn_idx, v);
        self.registers.current_pc = self.registers.current_pc.wrapping_add(2);
    }

    /// Rn plus the sign-extended immediate.
    pub fn addi(&mut self, instruction: InstructionOpcode)
        requires
            old(self).registers@.wf(),
        ensures
            final(self).registers@ == addi_spec(old(self).registers@, instruction.0),
            final(self).registers@.wf(),
            env_unchanged(*final(self), *old(self)),
    {
        let imm = instruction.d8();
        let imm = if (imm & 0x80) == 0 { imm & 0xFF } else { 0xFFFFFF00 | imm };
        let rn_idx = instruction.n();
        let rn = self.get_register_by_index(rn_idx);
        self.set_register_by_index(rn_idx, rn.wrapping_add(imm));
        self.registers.current_pc = self.registers.current_pc.wrapping_add(2);
    }

    /// The sign-extended immediate into Rn.
    pub fn movi(&mut self, instruction: InstructionOpcode)
        requires
            old(self).registers@.wf(),
        ensures
            final(self).registers@ == movi_spec(old(self).registers@, instruction.0),
            final(self).registers@.wf(),
            env_unchanged(*final(self), *old(self)),
    {
        let imm = instruction.d8();
        let rn_idx = instruction.n();
        let imm = if (imm & 0x80) == 0 { imm & 0xFF } else { 0xFFFFFF00 | imm };
        self.set_register_by_index(rn_idx, imm);
        self.registers.current_pc = self.registers.current_pc.wrapping_add(2);
    }

    /// R0 ^ the immediate.
    pub fn xori(&mut self, instruction: InstructionOpcode)
        requires
            old(self).registers@.wf(),
        ensures
            final(self).registers@ == xori_spec(old(self).registers@, instruction.0),
            final(self).registers@.wf(),
            env_unchanged(*final(self), *old(self)),
    {
        let imm = instruction.d8() & 0xFF;
        let r0 = self.get_register_by_index(0);
        self.set_register_by_index(0, r0 ^ imm);
        self.registers.current_pc = self.registers.current_pc.wrapping_add(2);
    }

    /// R0 | the immediate.
    pub fn ori(&mut self, instruction: InstructionOpcode)
        requires
            old(self).registers@.wf(),
        ensures
            final(self).registers@ == ori_spec(old(self).registers@, instruction.0),
            final(self).registers@.wf(),
            env_unchanged(*final(self), *old(self)),
    {
        let imm = instruction.d8() & 0xFF;
        let r0 = self.get_register_by_index(0);
        self.set_register_by_index(0, r0 | imm);
        self.registers.current_pc = self.registers.current_pc.wrapping_add(2);
    }

    /// R0 & the immediate.
    pub fn andi(&mut self, instruction: InstructionOpcode)
        requires
            old(self).registers@.wf(),
        ensures
            final(self).registers@ == andi_spec(old(self).registers@, instruction.0),
            final(self).registers@.wf(),
            env_unchanged(*final(self), *old(self)),
    {
        let imm = instruction.d8() & 0xFF;
        let r0 = self.get_register_by_index(0);
        self.set_register_by_index(0, r0 & imm);
        self.registers.current_pc = self.registers.current_pc.wrapping_add(2);
    }

    /// R0 gets the longword-aligned PC plus 4 plus four times the displacement.
    pub fn mova(&mut self, instruction: InstructionOpcode)
        requires
            old(self).registers@.wf(),
        ensures
            final(self).registers@ == mova_spec(old(self).registers@, instruction.0),
            final(self).registers@.wf(),
            env_unchanged(*final(self), *old(self)),
    {
        let disp = instruction.d8();
        proof { lemma_alu_bits(disp, 0, 0); }
        let val = (self.registers.current_pc & 0xfffffffc).wrapping_add(4 + (disp << 2u32));
        self.set_register_by_index(0, val);
        self.registers.current_pc = self.registers.current_pc.wrapping_add(2);
    }

    /// T = (Rn == Rm).
    pub fn cmpeq(&mut self, instruction: InstructionOpcode)
        requires
            old(self).registers@.wf(),
        ensures
            final(self).registers@ == cmpeq_spec(old(self).registers@, instruction.0),
            final(self).registers@.wf(),
            env_unchanged(*final(self), *old(self)),
    {
        let rn_idx = instruction.n();
        let rm_idx = instruction.m();
        let rn = self.get_register_by_index(rn_idx);
        let rm = self.get_register_by_index(rm_idx);
        
        let t = rn == rm;
        self.set_t(t);
        self.registers.current_pc = self.registers.current_pc.wrapping_add(2);
    }

    /// T = Rn > Rm, unsigned.
    pub fn cmphi(&mut self, instruction: InstructionOpcode)
        requires
            old(self).registers@.wf(),
        ensures
            final(self).registers@ == cmphi_spec(old(self).registers@, instruction.0),
            final(self).registers@.wf(),
            env_unchanged(*final(self), *old(self)),
    {
        let rn_idx = instruction.n();
        let rm_idx = instruction.m();
        let rn = self.get_register_by_index(rn_idx);
        let rm = self.get_register_by_index(rm_idx);
        
        let t = rn > rm;
        self.set_t(t);
        self.registers.current_pc = self.registers.current_pc.wrapping_add(2);
    }

    /// T = Rn >= Rm, unsigned.
    pub fn cmphieq(&mut self, instruction: InstructionOpcode)
        requires
            old(self).registers@.wf(),
        ensures
            final(self).registers@ == cmphieq_spec(old(self).registers@, instruction.0),
            final(self).registers@.wf(),
            env_unchanged(*final(self), *old(self)),
    {
        let rn_idx = instruction.n();
        let rm_idx = instruction.m();
        let rn = self.get_register_by_index(rn_idx);
        let rm = self.get_register_by_index(rm_idx);
        
        let t = rn >= rm;
        self.set_t(t);
        self.registers.current_pc = self.registers.current_pc.wrapping_add(2);
    }

    /// T = Rn > Rm, signed.
    pub fn cmpgt(&mut self, instruction: InstructionOpcode)
        requires
            old(self).registers@.wf(),
        ensures
            final(self).registers@ == cmpgt_spec(old(self).registers@, instruction.0),
            final(self).registers@.wf(),
            env_unchanged(*final(self), *old(self)),
    {
        let rn_idx = instruction.n();
        let rm_idx = instruction.m();
        let rn = self.get_register_by_index(rn_idx);
        let rm = self.get_register_by_index(rm_idx);
        let t = signed_greater(rn, rm);
        self.set_t(t);
        self.registers.current_pc = self.registers.current_pc.wrapping_add(2);
    }

    /// T = Rn >= Rm, signed.
    pub fn cmpge(&mut self, instruction: InstructionOpcode)
        requires
            old(self).registers@.wf(),
        ensures
            final(self).registers@ == cmpge_spec(old(self).registers@, instruction.0),
            final(self).registers@.wf(),
            env_unchanged(*final(self), *old(self)),
    {
        let rn_idx = instruction.n();
        let rm_idx = instruction.m();
        let rn = self.get_register_by_index(rn_idx);
        let rm = self.get_register_by_index(rm_idx);
        let t = signed_at_least(rn, rm);
        self.set_t(t);
        self.registers.current_pc = self.registers.current_pc.wrapping_add(2);
    }

    /// T = Rn > 0, signed.
    pub fn cmppl(&mut self, instruction: InstructionOpcode)
        requires
            old(self).registers@.wf(),
        ensures
            final(self).registers@ == cmppl_spec(old(self).registers@, instruction.0),
            final(self).registers@.wf(),
            env_unchanged(*final(self), *old(self)),
    {
        let rn_idx = instruction.n();
        
        let rn = self.get_register_by_index(rn_idx);
        
        let t = signed_greater(rn, 0);
        self.set_t(t);
        self.registers.current_pc = self.registers.current_pc.wrapping_add(2);
    }

    /// T = Rn >= 0, signed.
    pub fn cmppz(&mut self, instruction: InstructionOpcode)
        requires
            old(self).registers@.wf(),
        ensures
            final(self).registers@ == cmppz_spec(old(self).registers@, instruction.0),
            final(self).registers@.wf(),
            env_unchanged(*final(self), *old(self)),
    {
        let rn_idx = instruction.n();
        
        let rn = self.get_register_by_index(rn_idx);
        
        let t = signed_at_least(rn, 0);
        self.set_t(t);
        self.registers.current_pc = self.registers.current_pc.wrapping_add(2);
    }

    /// T = some byte of Rn equals the same byte of Rm.
    pub fn cmpstr(&mut self, instruction: InstructionOpcode)
        requires
            old(self).registers@.wf(),
        ensures
            final(self).registers@ == cmpstr_spec(old(self).registers@, instruction.0),
            final(self).registers@.wf(),
            env_unchanged(*final(self), *old(self)),
    {
        let rn_idx = instruction.n();
        let rm_idx = instruction.m();
        let rn = self.get_register_by_index(rn_idx);
        let rm = self.get_register_by_index(rm_idx);
        
        let t = { let temp = rn ^ rm; !((temp & 0xFF000000) != 0 && (temp & 0x00FF0000) != 0 && (temp & 0x0000FF00) != 0 && (temp & 0x000000FF) != 0) };
        self.set_t(t);
        self.registers.current_pc = self.registers.current_pc.wrapping_add(2);
    }

    /// T = (Rn & Rm) == 0.
    pub fn tst(&mut self, instruction: InstructionOpcode)
        requires
            old(self).registers@.wf(),
        ensures
            final(self).registers@ == tst_spec(old(self).registers@, instruction.0),
            final(self).registers@.wf(),
            env_unchanged(*final(self), *old(self)),
    {
        let rn_idx = instruction.n();
        let rm_idx = instruction.m();
        let rn = self.get_register_by_index(rn_idx);
        let rm = self.get_register_by_index(rm_idx);
        
        let t = rn & rm == 0;
        self.set_t(t);
        self.registers.current_pc = self.registers.current_pc.wrapping_add(2);
    }

    /// Rn shifted left by one; T gets the bit shifted out.
    pub fn shll(&mut self, instruction: InstructionOpcode)
        requires
            old(self).registers@.wf(),
        ensures
            final(self).registers@ == shll_spec(old(self).registers@, instruction.0),
            final(self).registers@.wf(),
            env_unchanged(*final(self), *old(self)),
    {
        let rn_idx = instruction.n();
        
        let rn = self.get_register_by_index(rn_idx);
        
        
        let t = rn.check_bit(31);
        self.set_t(t);
        self.set_register_by_index(rn_idx, rn << 1u32);
        self.registers.current_pc = self.registers.current_pc.wrapping_add(2);
    }

    /// Rn shifted right by one; T gets the bit shifted out.
    pub fn shlr(&mut self, instruction: InstructionOpcode)
        requires
            old(self).registers@.wf(),
        ensures
            final(self).registers@ == shlr_spec(old(self).registers@, instruction.0),
            final(self).registers@.wf(),
            env_unchanged(*final(self), *old(self)),
    {
        let rn_idx = instruction.n();
        
        let rn = self.get_register_by_index(rn_idx);
        
        
        let t = rn.check_bit(0);
        self.set_t(t);
        self.set_register_by_index(rn_idx, rn >> 1u32);
        self.registers.current_pc = self.registers.current_pc.wrapping_add(2);
    }

    /// Rn shifted right by one, keeping its sign; T gets the bit shifted out.
    pub fn shar(&mut self, instruction: InstructionOpcode)
        requires
            old(self).registers@.wf(),
        ensures
            final(self).registers@ == shar_spec(old(self).registers@, instruction.0),
            final(self).registers@.wf(),
            env_unchanged(*final(self), *old(self)),
    {
        let rn_idx = instruction.n();
        
        let rn = self.get_register_by_index(rn_idx);
        
        
        let t = rn.check_bit(0);
        self.set_t(t);
        self.set_register_by_index(rn_idx, (rn >> 1u32) | (if rn.check_bit(31) { 0x80000000u32 } else { 0u32 }));
        self.registers.current_pc = self.registers.current_pc.wrapping_add(2);
    }

    /// Rn rotated left by one; T gets the bit rotated around.
    pub fn rotl(&mut self, instruction: InstructionOpcode)
        requires
            old(self).registers@.wf(),
        ensures
            final(self).registers@ == rotl_spec(old(self).registers@, instruction.0),
            final(self).registers@.wf(),
            env_unchanged(*final(self), *old(self)),
    {
        let rn_idx = instruction.n();
        
        let rn = self.get_register_by_index(rn_idx);
        
        
        let t = rn.check_bit(31);
        self.set_t(t);
        self.set_register_by_index(rn_idx, (rn << 1u32) | (if t { 1u32 } else { 0u32 }));
        self.registers.current_pc = self.registers.current_pc.wrapping_add(2);
    }

    /// Rn rotated right by one; T gets the bit rotated around.
    pub fn rotr(&mut self, instruction: InstructionOpcode)
        requires
            old(self).registers@.wf(),
        ensures
            final(self).registers@ == rotr_spec(old(self).registers@, instruction.0),
            final(self).registers@.wf(),
            env_unchanged(*final(self), *old(self)),
    {
        let rn_idx = instruction.n();
        
        let rn = self.get_register_by_index(rn_idx);
        
        
        let t = rn.check_bit(0);
        self.set_t(t);
        self.set_register_by_index(rn_idx, (rn >> 1u32) | (if t { 0x80000000u32 } else { 0u32 }));
        self.registers.current_pc = self.registers.current_pc.wrapping_add(2);
    }

    /// Rn rotated left through T.
    pub fn rotcl(&mut self, instruction: InstructionOpcode)
        requires
            old(self).registers@.wf(),
        ensures
            final(self).registers@ == rotcl_spec(old(self).registers@, instruction.0),
            final(self).registers@.wf(),
            env_unchanged(*final(self), *old(self)),
    {
        let rn_idx = instruction.n();
        
        let rn = self.get_register_by_index(rn_idx);
        
        let old_t = self.get_sr().check_bit(0); let rn2 = (rn << 1u32) | (if old_t { 1u32 } else { 0u32 });
        let t = rn.check_bit(31);
        self.set_t(t);
        self.set_register_by_index(rn_idx, rn2);
        self.registers.current_pc = self.registers.current_pc.wrapping_add(2);
    }

    /// Rn rotated right through T.
    pub fn rotcr(&mut self, instruction: InstructionOpcode)
        requires
            old(self).registers@.wf(),
        ensures
            final(self).registers@ == rotcr_spec(old(self).registers@, instruction.0),
            final(self).registers@.wf(),
            env_unchanged(*final(self), *old(self)),
    {
        let rn_idx = instruction.n();
        
        let rn = self.get_register_by_index(rn_idx);
        
        let old_t = self.get_sr().check_bit(0); let rn2 = (rn >> 1u32) | (if old_t { 0x80000000u32 } else { 0u32 });
        let t = rn.check_bit(0);
        self.set_t(t);
        self.set_register_by_index(rn_idx, rn2);
        self.registers.current_pc = self.registers.current_pc.wrapping_add(2);
    }

    /// Rn decremented; T = (the result is 0).
    pub fn dt(&mut self, instruction: InstructionOpcode)
        requires
            old(self).registers@.wf(),
        ensures
            final(self).registers@ == dt_spec(old(self).registers@, instruction.0),
            final(self).registers@.wf(),
            env_unchanged(*final(self), *old(self)),
    {
        let rn_idx = instruction.n();
        
        let rn = self.get_register_by_index(rn_idx);
        
        
        let t = rn.wrapping_sub(1) == 0;
        self.set_t(t);
        self.set_register_by_index(rn_idx, rn.wrapping_sub(1));
        self.registers.current_pc = self.registers.current_pc.wrapping_add(2);
    }

    /// Rn + Rm + T; T gets the carry.
    pub fn addc(&mut self, instruction: InstructionOpcode)
        requires
            old(self).registers@.wf(),
        ensures
            final(self).registers@ == addc_spec(old(self).registers@, instruction.0),
            final(self).registers@.wf(),
            env_unchanged(*final(self), *old(self)),
    {
        let rn_idx = instruction.n();
        let rm_idx = instruction.m();
        let rn = self.get_register_by_index(rn_idx);
        let rm = self.get_register_by_index(rm_idx);
        let old_t = self.get_sr().check_bit(0); let tmp1 = rn.wrapping_add(rm); let sum = tmp1.wrapping_add(if old_t { 1 } else { 0 }); let carry = rn > tmp1 || tmp1 > sum;
        let t = carry;
        self.set_t(t);
        self.set_register_by_index(rn_idx, sum);
        self.registers.current_pc = self.registers.current_pc.wrapping_add(2);
    }

    /// Rn - Rm - T; T gets the borrow.
    pub fn subc(&mut self, instruction: InstructionOpcode)
        requires
            old(self).registers@.wf(),
        ensures
            final(self).registers@ == subc_spec(old(self).registers@, instruction.0),
            final(self).registers@.wf(),
            env_unchanged(*final(self), *old(self)),
    {
        let rn_idx = instruction.n();
        let rm_idx = instruction.m();
        let rn = self.get_register_by_index(rn_idx);
        let rm = self.get_register_by_index(rm_idx);
        let old_t = self.get_sr().check_bit(0); let tmp1 = rn.wrapping_sub(rm); let diff = tmp1.wrapping_sub(if old_t { 1 } else { 0 }); let borrow = rn < tmp1 || tmp1 < diff;
        let t = borrow;
        self.set_t(t);
        self.set_register_by_index(rn_idx, diff);
        self.registers.current_pc = self.registers.current_pc.wrapping_add(2);
    }

    /// T = (R0 equals the sign-extended immediate).
    pub fn cmpimm(&mut self, instruction: InstructionOpcode)
        requires
            old(self).registers@.wf(),
        ensures
            final(self).registers@ == cmpimm_spec(old(self).registers@, instruction.0),
            final(self).registers@.wf(),
            env_unchanged(*final(self), *old(self)),
    {
        let imm = instruction.d8();
        let r0 = self.get_register_by_index(0);
        let imm = if (imm & 0x80) == 0 { imm & 0xFF } else { 0xFFFFFF00 | imm };
        self.set_t(imm == r0);
        self.registers.current_pc = self.registers.current_pc.wrapping_add(2);
    }

    /// T = (R0 & the immediate) == 0.
    pub fn tsti(&mut self, instruction: InstructionOpcode)
        requires
            old(self).registers@.wf(),
        ensures
            final(self).registers@ == tsti_spec(old(self).registers@, instruction.0),
            final(self).registers@.wf(),
            env_unchanged(*final(self), *old(self)),
    {
        let imm = instruction.d8() & 0xFF;
        let r0 = self.get_register_by_index(0);
        self.set_t(r0 & imm == 0);
        self.registers.current_pc = self.registers.current_pc.wrapping_add(2);
    }

    /// T = 1.
    pub fn sett(&mut self, _instruction: InstructionOpcode)
        requires
            old(self).registers@.wf(),
        ensures
            final(self).registers@ == sett_spec(old(self).registers@, _instruction.0),
            final(self).registers@.wf(),
            env_unchanged(*final(self), *old(self)),
    {
        self.set_t(true);
        self.registers.current_pc = self.registers.current_pc.wrapping_add(2);
    }

    /// T = 0.
    pub fn clrt(&mut self, _instruction: InstructionOpcode)
        requires
            old(self).registers@.wf(),
        ensures
            final(self).registers@ == clrt_spec(old(self).registers@, _instruction.0),
            final(self).registers@.wf(),
            env_unchanged(*final(self), *old(self)),
    {
        self.set_t(false);
        self.registers.current_pc = self.registers.current_pc.wrapping_add(2);
    }

    /// S (SR bit 1) = 0.
    pub fn clrs(&mut self, _instruction: InstructionOpcode)
        requires
            old(self).registers@.wf(),
        ensures
            final(self).registers@ == clrs_spec(old(self).registers@, _instruction.0),
            final(self).registers@.wf(),
            env_unchanged(*final(self), *old(self)),
    {
        let sr = self.get_sr().clear_bit(1);
        self.set_sr(sr);
        self.registers.current_pc = self.registers.current_pc.wrapping_add(2);
    }

    /// Nothing but the next instruction.
    pub fn nop(&mut self, _instruction: InstructionOpcode)
        requires
            old(self).registers@.wf(),
        ensures
            final(self).registers@ == nop_spec(old(self).registers@, _instruction.0),
            final(self).registers@.wf(),
            env_unchanged(*final(self), *old(self)),
    {
        self.registers.current_pc = self.registers.current_pc.wrapping_add(2);
    }

    /// T into Rn.
    pub fn movt(&mut self, instruction: InstructionOpcode)
        requires
            old(self).registers@.wf(),
        ensures
            final(self).registers@ == movt_spec(old(self).registers@, instruction.0),
            final(self).registers@.wf(),
            env_unchanged(*final(self), *old(self)),
    {
        let rn_idx = instruction.n();
        let t = self.get_sr().check_bit(0);
        self.set_register_by_index(rn_idx, if t { 0x00000001 } else { 0x00000000 });
        self.registers.current_pc = self.registers.current_pc.wrapping_add(2);
    }

    /// Clears M, Q and T for an unsigned division.
    pub fn div0u(&mut self, _instruction: InstructionOpcode)
        requires
            old(self).registers@.wf(),
        ensures
            final(self).registers@ == div0u_spec(old(self).registers@, _instruction.0),
            final(self).registers@.wf(),
            env_unchanged(*final(self), *old(self)),
    {
        let sr = self.get_sr().clear_bit(0).clear_bit(8).clear_bit(9);
        self.set_sr(sr);
        self.registers.current_pc = self.registers.current_pc.wrapping_add(2);
    }

    /// Sets Q from the sign of Rn, M from the sign of Rm and T = Q ^ M for a signed division.
    pub fn div0s(&mut self, instruction: InstructionOpcode)
        requires
            old(self).registers@.wf(),
        ensures
            final(self).registers@ == div0s_spec(old(self).registers@, instruction.0),
            final(self).registers@.wf(),
            env_unchanged(*final(self), *old(self)),
    {
        let rm_idx = instruction.m();
        let rn_idx = instruction.n();
        let rm = self.get_register_by_index(rm_idx);
        let rn = self.get_register_by_index(rn_idx);
        let q = rn.check_bit(31);
        let mm = rm.check_bit(31);
        let sr = self.get_sr().eval_bit(8, q).eval_bit(9, mm).eval_bit(0, q != mm);
        self.set_sr(sr);
        self.registers.current_pc = self.registers.current_pc.wrapping_add(2);
    }

    /// One step of non-restoring division of Rn by Rm, with Q, M and T.
    pub fn div1(&mut self, instruction: InstructionOpcode)
        requires
            old(self).registers@.wf(),
        ensures
            final(self).registers@ == div1_spec(old(self).registers@, instruction.0),
            final(self).registers@.wf(),
            env_unchanged(*final(self), *old(self)),
    {
        let rn_idx = instruction.n();
        let rm_idx = instruction.m();
        let sr = self.get_sr();
        let old_q = sr.check_bit(8);
        let rn = self.get_register_by_index(rn_idx);
        let rm = self.get_register_by_index(rm_idx);
        let mut q = rn.check_bit(31);
        let r1 = (rn << 1u32) | (if sr.check_bit(0) { 1u32 } else { 0u32 });
        let m = sr.check_bit(9);
        let r: u32;
        if !old_q {
            if !m {
                r = r1.wrapping_sub(rm);
                let tmp1 = r > r1;
                q = if !q { tmp1 } else { !tmp1 };
            } else {
                r = r1.wrapping_add(rm);
                let tmp1 = r < r1;
                q = if !q { !tmp1 } else { tmp1 };
            }
        } else {
            if !m {
                r = r1.wrapping_add(rm);
                let tmp1 = r < r1;
                q = if !q { tmp1 } else { !tmp1 };
            } else {
                r = r1.wrapping_sub(rm);
                let tmp1 = r > r1;
                q = if !q { !tmp1 } else { tmp1 };
            }
        }
        self.set_register_by_index(rn_idx, r);
        let sr2 = sr.eval_bit(0, q == m).eval_bit(8, q);
        self.set_sr(sr2);
        self.registers.current_pc = self.registers.current_pc.wrapping_add(2);
    }

    /// 0 - Rm - T into Rn; T gets the borrow.
    pub fn negc(&mut self, instruction: InstructionOpcode)
        requires
            old(self).registers@.wf(),
            !(old(self).registers@.r[op_m(instruction.0)] == 0 && old(self).registers@.t()),
        ensures
            final(self).registers@ == negc_spec(old(self).registers@, instruction.0),
            final(self).registers@.wf(),
            env_unchanged(*final(self), *old(self)),
    {
        let rm_idx = instruction.m();
        let rn_idx = instruction.n();
        let rm = self.get_register_by_index(rm_idx);
        let temp = 0u32.wrapping_sub(rm);
        let t = self.get_sr().check_bit(0);
        let rn = temp - (if t { 1 } else { 0 });
        let borrow = 0 < temp || temp < rn;
        self.set_register_by_index(rn_idx, rn);
        self.set_t(borrow);
        self.registers.current_pc = self.registers.current_pc.wrapping_add(2);
    }

    /// SR into Rn.
    pub fn stc_sr(&mut self, instruction: InstructionOpcode)
        requires
            old(self).registers@.wf(),
        ensures
            final(self).registers@ == stc_sr_spec(old(self).registers@, instruction.0),
            final(self).registers@.wf(),
            env_unchanged(*final(self), *old(self)),
    {
        let rn_idx = instruction.n();
        let v = self.get_sr();
        self.set_register_by_index(rn_idx, v);
        self.registers.current_pc = self.registers.current_pc.wrapping_add(2);
    }

    /// GBR into Rn.
    pub fn stc_gbr(&mut self, instruction: InstructionOpcode)
        requires
            old(self).registers@.wf(),
        ensures
            final(self).registers@ == stc_gbr_spec(old(self).registers@, instruction.0),
            final(self).registers@.wf(),
            env_unchanged(*final(self), *old(self)),
    {
        let rn_idx = instruction.n();
        let v = self.registers.gbr;
        self.set_register_by_index(rn_idx, v);
        self.registers.current_pc = self.registers.current_pc.wrapping_add(2);
    }

    /// VBR into Rn.
    pub fn stc_vbr(&mut self, instruction: InstructionOpcode)
        requires
            old(self).registers@.wf(),
        ensures
            final(self).registers@ == stc_vbr_spec(old(self).registers@, instruction.0),
            final(self).registers@.wf(),
            env_unchanged(*final(self), *old(self)),
    {
        let rn_idx = instruction.n();
        let v = self.registers.vbr;
        self.set_register_by_index(rn_idx, v);
        self.registers.current_pc = self.registers.current_pc.wrapping_add(2);
    }

    /// DBR into Rn.
    pub fn stc_dbr(&mut self, instruction: InstructionOpcode)
        requires
            old(self).registers@.wf(),
        ensures
            final(self).registers@ == stc_dbr_spec(old(self).registers@, instruction.0),
            final(self).registers@.wf(),
            env_unchanged(*final(self), *old(self)),
    {
        let rn_idx = instruction.n();
        let v = self.registers.dbr;
        self.set_register_by_index(rn_idx, v);
        self.registers.current_pc = self.registers.current_pc.wrapping_add(2);
    }

    /// FPSCR into Rn.
    pub fn sts_fpscr(&mut self, instruction: InstructionOpcode)
        requires
            old(self).registers@.wf(),
        ensures
            final(self).registers@ == sts_fpscr_spec(old(self).registers@, instruction.0),
            final(self).registers@.wf(),
            env_unchanged(*final(self), *old(self)),
    {
        let rn_idx = instruction.n();
        let v = self.get_fpscr();
        self.set_register_by_index(rn_idx, v);
        self.registers.current_pc = self.registers.current_pc.wrapping_add(2);
    }

    /// MACL into Rn.
    pub fn sts_macl(&mut self, instruction: InstructionOpcode)
        requires
            old(self).registers@.wf(),
        ensures
            final(self).registers@ == sts_macl_spec(old(self).registers@, instruction.0),
            final(self).registers@.wf(),
            env_unchanged(*final(self), *old(self)),
    {
        let rn_idx = instruction.n();
        let v = self.registers.macl;
        self.set_register_by_index(rn_idx, v);
        self.registers.current_pc = self.registers.current_pc.wrapping_add(2);
    }

    /// MACH into Rn.
    pub fn sts_mach(&mut self, instruction: InstructionOpcode)
        requires
            old(self).registers@.wf(),
        ensures
            final(self).registers@ == sts_mach_spec(old(self).registers@, instruction.0),
            final(self).registers@.wf(),
            env_unchanged(*final(self), *old(self)),
    {
        let rn_idx = instruction.n();
        let v = self.registers.mach;
        self.set_register_by_index(rn_idx, v);
        self.registers.current_pc = self.registers.current_pc.wrapping_add(2);
    }

    /// PR into Rn.
    pub fn sts_pr(&mut self, instruction: InstructionOpcode)
        requires
            old(self).registers@.wf(),
        ensures
            final(self).registers@ == sts_pr_spec(old(self).registers@, instruction.0),
            final(self).registers@.wf(),
            env_unchanged(*final(self), *old(self)),
    {
        let rn_idx = instruction.n();
        let v = self.registers.pr;
        self.set_register_by_index(rn_idx, v);
        self.registers.current_pc = self.registers.current_pc.wrapping_add(2);
    }

    /// FPUL into Rn.
    pub fn sts_fpul(&mut self, instruction: InstructionOpcode)
        requires
            old(self).registers@.wf(),
        ensures
            final(self).registers@ == sts_fpul_spec(old(self).registers@, instruction.0),
            final(self).registers@.wf(),
            env_unchanged(*final(self), *old(self)),
    {
        let rn_idx = instruction.n();
        let v = self.get_fpul();
        self.set_register_by_index(rn_idx, v);
        self.registers.current_pc = self.registers.current_pc.wrapping_add(2);
    }

    /// Banked register Rm_BANK into Rn.
    pub fn stc_rmbank(&mut self, instruction: InstructionOpcode)
        requires
            old(self).registers@.wf(),
        ensures
            final(self).registers@ == stc_rmbank_spec(old(self).registers@, instruction.0),
            final(self).registers@.wf(),
            env_unchanged(*final(self), *old(self)),
    {
        let rm_idx = instruction.m();
        let rn_idx = instruction.n();
        proof { lemma_alu_bits(0, 0, rm_idx); }
        let v = self.get_banked_register_by_index(rm_idx);
        self.set_register_by_index(rn_idx, v);
        self.registers.current_pc = self.registers.current_pc.wrapping_add(2);
    }

    /// Rn into banked register Rm_BANK.
    pub fn ldcrn_rmbank(&mut self, instruction: InstructionOpcode)
        requires
            old(self).registers@.wf(),
        ensures
            final(self).registers@ == ldcrn_rmbank_spec(old(self).registers@, instruction.0),
            final(self).registers@.wf(),
            env_unchanged(*final(self), *old(self)),
    {
        let rn_idx = instruction.n();
        let rm_idx = instruction.m();
        let rn = self.get_register_by_index(rn_idx);
        proof { lemma_alu_bits(0, 0, rm_idx); }
        self.set_banked_register_by_index(rm_idx, rn);
        self.registers.current_pc = self.registers.current_pc.wrapping_add(2);
    }

    /// Rn into GBR.
    pub fn ldc_gbr(&mut self, instruction: InstructionOpcode)
        requires
            old(self).registers@.wf(),
        ensures
            final(self).registers@ == ldc_gbr_spec(old(self).registers@, instruction.0),
            final(self).registers@.wf(),
            env_unchanged(*final(self), *old(self)),
    {
        let rn_idx = instruction.n();
        let rn = self.get_register_by_index(rn_idx);
        self.set_gbr(rn);
        self.registers.current_pc = self.registers.current_pc.wrapping_add(2);
    }

    /// Rn into SPC.
    pub fn ldc_spc(&mut self, instruction: InstructionOpcode)
        requires
            old(self).registers@.wf(),
        ensures
            final(self).registers@ == ldc_spc_spec(old(self).registers@, instruction.0),
            final(self).registers@.wf(),
            env_unchanged(*final(self), *old(self)),
    {
        let rn_idx = instruction.n();
        let rn = self.get_register_by_index(rn_idx);
        self.set_spc(rn);
        self.registers.current_pc = self.registers.current_pc.wrapping_add(2);
    }

    /// Rn into VBR.
    pub fn ldc_vbr(&mut self, instruction: InstructionOpcode)
        requires
            old(self).registers@.wf(),
        ensures
            final(self).registers@ == ldc_vbr_spec(old(self).registers@, instruction.0),
            final(self).registers@.wf(),
            env_unchanged(*final(self), *old(self)),
    {
        let rn_idx = instruction.n();
        let rn = self.get_register_by_index(rn_idx);
        self.set_vbr(rn);
        self.registers.current_pc = self.registers.current_pc.wrapping_add(2);
    }

    /// Rn into DBR.
    pub fn ldc_dbr(&mut self, instruction: InstructionOpcode)
        requires
            old(self).registers@.wf(),
        ensures
            final(self).registers@ == ldc_dbr_spec(old(self).registers@, instruction.0),
            final(self).registers@.wf(),
            env_unchanged(*final(self), *old(self)),
    {
        let rn_idx = instruction.n();
        let rn = self.get_register_by_index(rn_idx);
        self.set_dbr(rn);
        self.registers.current_pc = self.registers.current_pc.wrapping_add(2);
    }

    /// Rn into SSR.
    pub fn ldc_ssr(&mut self, instruction: InstructionOpcode)
        requires
            old(self).registers@.wf(),
        ensures
            final(self).registers@ == ldc_ssr_spec(old(self).registers@, instruction.0),
            final(self).registers@.wf(),
            env_unchanged(*final(self), *old(self)),
    {
        let rn_idx = instruction.n();
        let rn = self.get_register_by_index(rn_idx);
        self.set_ssr(rn);
        self.registers.current_pc = self.registers.current_pc.wrapping_add(2);
    }

    /// Rn into FPUL.
    pub fn ldsfpul(&mut self, instruction: InstructionOpcode)
        requires
            old(self).registers@.wf(),
        ensures
            final(self).registers@ == ldsfpul_spec(old(self).registers@, instruction.0),
            final(self).registers@.wf(),
            env_unchanged(*final(self), *old(self)),
    {
        let rn_idx = instruction.n();
        let rn = self.get_register_by_index(rn_idx);
        self.set_fpul(rn);
        self.registers.current_pc = self.registers.current_pc.wrapping_add(2);
    }

    /// Rn into MACL.
    pub fn ldsmacl(&mut self, instruction: InstructionOpcode)
        requires
            old(self).registers@.wf(),
        ensures
            final(self).registers@ == ldsmacl_spec(old(self).registers@, instruction.0),
            final(self).registers@.wf(),
            env_unchanged(*final(self), *old(self)),
    {
        let rn_idx = instruction.n();
        let rn = self.get_register_by_index(rn_idx);
        self.set_macl(rn);
        self.registers.current_pc = self.registers.current_pc.wrapping_add(2);
    }

    /// Rn into MACH.
    pub fn ldsmach(&mut self, instruction: InstructionOpcode)
        requires
            old(self).registers@.wf(),
        ensures
            final(self).registers@ == ldsmach_spec(old(self).registers@, instruction.0),
            final(self).registers@.wf(),
            env_unchanged(*final(self), *old(self)),
    {
        let rn_idx = instruction.n();
        let rn = self.get_register_by_index(rn_idx);
        self.set_mach(rn);
        self.registers.current_pc = self.registers.current_pc.wrapping_add(2);
    }

    /// Rn into PR.
    pub fn ldspr(&mut self, instruction: InstructionOpcode)
        requires
            old(self).registers@.wf(),
        ensures
            final(self).registers@ == ldspr_spec(old(self).registers@, instruction.0),
            final(self).registers@.wf(),
            env_unchanged(*final(self), *old(self)),
    {
        let rn_idx = instruction.n();
        let rn = self.get_register_by_index(rn_idx);
        self.set_pr(rn);
        self.registers.current_pc = self.registers.current_pc.wrapping_add(2);
    }

    /// Rn into FPSCR.
    pub fn lds_fpscr(&mut self, instruction: InstructionOpcode)
        requires
            old(self).registers@.wf(),
        ensures
            final(self).registers@ == lds_fpscr_spec(old(self).registers@, instruction.0),
            final(self).registers@.wf(),
            env_unchanged(*final(self), *old(self)),
    {
        let rn_idx = instruction.n();
        let rn = self.get_register_by_index(rn_idx);
        self.set_fpscr(rn);
        self.registers.current_pc = self.registers.current_pc.wrapping_add(2);
    }

    /// Switches the floating-point banks (FPSCR.FR).
    pub fn frchg(&mut self, _instruction: InstructionOpcode)
        requires
            old(self).registers@.wf(),
            !bit32(old(self).registers@.fpscr & 0x003FFFFF, 19),
        ensures
            final(self).registers@ == frchg_spec(old(self).registers@, _instruction.0),
            final(self).registers@.wf(),
            env_unchanged(*final(self), *old(self)),
    {
        let f = self.get_fpscr();
        let f2 = f.eval_bit(21, !f.check_bit(21));
        self.set_fpscr(f2);
        self.registers.current_pc = self.registers.current_pc.wrapping_add(2);
    }

    /// Switches the transfer size (FPSCR.SZ).
    pub fn fschg(&mut self, _instruction: InstructionOpcode)
        requires
            old(self).registers@.wf(),
            !bit32(old(self).registers@.fpscr & 0x003FFFFF, 19),
        ensures
            final(self).registers@ == fschg_spec(old(self).registers@, _instruction.0),
            final(self).registers@.wf(),
            env_unchanged(*final(self), *old(self)),
    {
        let f = self.get_fpscr();
        self.registers.fpscr = f.eval_bit(20, !f.check_bit(20));
        self.registers.current_pc = self.registers.current_pc.wrapping_add(2);
    }

    /// The low 32 bits of Rn * Rm into MACL.
    pub fn mul(&mut self, instruction: InstructionOpcode)
        requires
            old(self).registers@.wf(),
        ensures
            final(self).registers@ == mul_spec(old(self).registers@, instruction.0),
            final(self).registers@.wf(),
            env_unchanged(*final(self), *old(self)),
    {
        let rm_idx = instruction.m();
        let rn_idx = instruction.n();
        let rm = self.get_register_by_index(rm_idx);
        let rn = self.get_register_by_index(rn_idx);
        self.set_macl(rn.wrapping_mul(rm));
        self.registers.current_pc = self.registers.current_pc.wrapping_add(2);
    }

    /// The product of the low half-words of Rn and Rm, unsigned, into MACL.
    pub fn mulu(&mut self, instruction: InstructionOpcode)
        requires
            old(self).registers@.wf(),
        ensures
            final(self).registers@ == mulu_spec(old(self).registers@, instruction.0),
            final(self).registers@.wf(),
            env_unchanged(*final(self), *old(self)),
    {
        let rm_idx = instruction.m();
        let rn_idx = instruction.n();
        let rm = self.get_register_by_index(rm_idx);
        let rn = self.get_register_by_index(rn_idx);
        let a = rn & 0xFFFF;
        let b = rm & 0xFFFF;
        proof { lemma_alu_bits(rn, rm, 0); }
        proof { assert(a * b <= 0xFFFF * 0xFFFF) by (nonlinear_arith) requires a <= 0xFFFF, b <= 0xFFFF; }
        self.set_macl(a * b);
        self.registers.current_pc = self.registers.current_pc.wrapping_add(2);
    }

    /// The product of the low half-words of Rn and Rm, signed, into MACL.
    pub fn muls(&mut self, instruction: InstructionOpcode)
        requires
            old(self).registers@.wf(),
        ensures
            final(self).registers@ == muls_spec(old(self).registers@, instruction.0),
            final(self).registers@.wf(),
            env_unchanged(*final(self), *old(self)),
    {
        let rm_idx = instruction.m();
        let rn_idx = instruction.n();
        let rm = self.get_register_by_index(rm_idx);
        let rn = self.get_register_by_index(rn_idx);
        proof { lemma_alu_bits(rn, rm, 0); }
        let a = (rn & 0xFFFF) as i64;
        let b = (rm & 0xFFFF) as i64;
        let sa: i64 = if a >= 0x8000 { a - 0x10000 } else { a };
        let sb: i64 = if b >= 0x8000 { b - 0x10000 } else { b };
        proof {
            assert(-0x8000 * 0x8000 <= sa * sb <= 0x8000 * 0x8000) by (nonlinear_arith)
                requires -0x8000 <= sa <= 0x7FFF, -0x8000 <= sb <= 0x7FFF;
        }
        let p = sa * sb;
        let v: u32 = if p < 0 { (p + 0x1_0000_0000) as u32 } else { p as u32 };
        self.set_macl(v);
        self.registers.current_pc = self.registers.current_pc.wrapping_add(2);
    }

    /// The 64-bit unsigned product of Rn and Rm into MACH:MACL.
    pub fn dmulu(&mut self, instruction: InstructionOpcode)
        requires
            old(self).registers@.wf(),
        ensures
            final(self).registers@ == dmulu_spec(old(self).registers@, instruction.0),
            final(self).registers@.wf(),
            env_unchanged(*final(self), *old(self)),
    {
        let rn_idx = instruction.n();
        let rn = self.get_register_by_index(rn_idx);
        let rm_idx = instruction.m();
        let rm = self.get_register_by_index(rm_idx);
        proof { assert((rn as u64) * (rm as u64) <= 0xFFFF_FFFF * 0xFFFF_FFFF) by (nonlinear_arith) requires rn <= 0xFFFF_FFFF, rm <= 0xFFFF_FFFF; }
        let val = (rn as u64) * (rm as u64);
        self.set_mach((val / 0x1_0000_0000) as u32);
        self.set_macl((val % 0x1_0000_0000) as u32);
        self.registers.current_pc = self.registers.current_pc.wrapping_add(2);
    }

    /// SLEEP: the CPU waits for an interrupt.
    pub fn sleep(&mut self, _instruction: InstructionOpcode)
        requires
            old(self).registers@.wf(),
        ensures
            final(self).registers@ == old(self).registers@.next(),
            final(self).state == CpuState::Sleeping,
            final(self).symbols_map == old(self).symbols_map,
            final(self).current_opcode == old(self).current_opcode,
            final(self).cyc == old(self).cyc,
    {
        self.state = CpuState::Sleeping;
        self.registers.current_pc = self.registers.current_pc.wrapping_add(2);
    }

    /// LDC Rn,SR: writes SR from Rn, then takes a pending interrupt that the
    /// new SR lets through.
    pub fn ldc_sr(&mut self, instruction: InstructionOpcode, intc: &mut Intc, ccn: &mut Ccn)
        requires
            old(self).registers@.wf(),
            old(intc).regs().interrupt_requests == 0 || exists|i: int|
                0 <= i < NUM_INTERRUPTS && #[trigger] bit64(old(intc).regs().interrupt_requests, i),
            accepts_interrupt(
                old(self).registers@.write_sr(old(self).registers@.r[op_n(instruction.0)] & SR_MASK).next(),
                old(self).state, old(intc).levels(), old(intc).priorities(), old(intc).regs().interrupt_requests,
            ) ==> old(self).registers.vbr + 0x600 <= u32::MAX,
        ensures
            final(intc).levels() == old(intc).levels(),
            final(intc).priorities() == old(intc).priorities(),
            final(intc).positions() == old(intc).positions(),
            final(self).symbols_map == old(self).symbols_map,
            ({
                let m1 = old(self).registers@.write_sr(old(self).registers@.r[op_n(instruction.0)] & SR_MASK).next();
                let req = old(intc).regs().interrupt_requests;
                let pos = first_pending(req);
                let kind = old(intc).priorities()[pos];
                if accepts_interrupt(m1, old(self).state, old(intc).levels(), old(intc).priorities(), req) {
                    &&& final(ccn).registers == (super::ccn::CcnRegisters { intevt: super::cpu::intevt_code(kind.index_spec() as int), ..old(ccn).registers })
                    &&& final(ccn).operand_cache_ram == old(ccn).operand_cache_ram
                    &&& final(intc).regs() == (super::intc::IntcRegisters { interrupt_requests: req & !(1u64 << (pos as u64)), ..old(intc).regs() })
                    &&& final(self).state == CpuState::Running
                    &&& final(self).registers@ == interrupt_entry(m1)
                } else {
                    &&& final(ccn).registers == old(ccn).registers
                    &&& final(ccn).operand_cache_ram == old(ccn).operand_cache_ram
                    &&& final(intc).regs() == old(intc).regs()
                    &&& final(self).state == old(self).state
                    &&& final(self).registers@ == m1
                }
            }),
    {
        let rn_idx = instruction.n();
        let rn = self.get_register_by_index(rn_idx);
        self.set_sr(rn & SR_MASK);
        self.registers.current_pc = self.registers.current_pc.wrapping_add(2);
        self.process_interrupts(intc, ccn);
    }
}

/// The borrow or carry flag T as a multiple of 2^32.
pub open spec fn t_weight(m: CpuModel) -> int {
    if m.t() { 0x1_0000_0000 } else { 0 }
}

proof fn lemma_wrap_borrow(d: int)
    requires
        -0x1_0000_0000 <= d < 0x1_0000_0000,
    ensures
        wrap32(d) - (if d < 0 { 0x1_0000_0000int } else { 0 }) == d,
{
}

proof fn lemma_wrap_carry(d: int)
    requires
        0 <= d < 0x2_0000_0000,
    ensures
        wrap32(d) + (if d > u32::MAX { 0x1_0000_0000int } else { 0 }) == d,
{
}

/// SUBC subtracts with borrow: the new Rn, less the new T counted as a
/// borrow of 2^32, is exactly Rn - Rm - T; no other general register
/// changes, and PC moves on.
pub proof fn law_subc_full_difference(m: CpuModel, op: u16)
    requires
        m.wf(),
    ensures
        ({
            let m1 = subc_spec(m, op);
            &&& m1.r[op_n(op)] - t_weight(m1) == m.r[op_n(op)] - m.r[op_m(op)] - (if m.t() { 1int } else { 0 })
            &&& forall|k: int| 0 <= k < 16 && k != op_n(op) ==> m1.r[k] == m.r[k]
            &&& m1.pc == wrap32(m.pc + 2)
        }),
{
    lemma_opcode_fields(op);
    let d = m.r[op_n(op)] - m.r[op_m(op)] - (if m.t() { 1int } else { 0int });
    lemma_set_t(m, d < 0);
    lemma_wrap_borrow(d);
}

/// ADDC adds with carry: the new Rn plus the new T counted as a carry of
/// 2^32 is exactly Rn + Rm + T; no other general register changes.
pub proof fn law_addc_full_sum(m: CpuModel, op: u16)
    requires
        m.wf(),
    ensures
        ({
            let m1 = addc_spec(m, op);
            &&& m1.r[op_n(op)] + t_weight(m1) == m.r[op_n(op)] + m.r[op_m(op)] + (if m.t() { 1int } else { 0 })
            &&& forall|k: int| 0 <= k < 16 && k != op_n(op) ==> m1.r[k] == m.r[k]
        }),
{
    lemma_opcode_fields(op);
    let d = m.r[op_n(op)] + m.r[op_m(op)] + (if m.t() { 1int } else { 0int });
    lemma_set_t(m, d > u32::MAX);
    lemma_wrap_carry(d);
}

/// NEGC negates with borrow: the new Rn, less the new T counted as a borrow
/// of 2^32, is exactly 0 - Rm - T.
pub proof fn law_negc_full_difference(m: CpuModel, op: u16)
    requires
        m.wf(),
    ensures
        ({
            let m1 = negc_spec(m, op);
            m1.r[op_n(op)] - t_weight(m1) == 0 - m.r[op_m(op)] - (if m.t() { 1int } else { 0 })
        }),
{
    lemma_opcode_fields(op);
    let d = 0 - m.r[op_m(op)] - (if m.t() { 1int } else { 0int });
    let m0 = m.set_r(op_n(op), wrap32(d));
    lemma_set_t(m0, m.r[op_m(op)] + (if m.t() { 1int } else { 0int }) > 0);
    lemma_wrap_borrow(d);
}

/// TST only tests: T becomes whether Rn and Rm share no set bit, and no
/// general register changes.
pub proof fn law_tst_changes_no_register(m: CpuModel, op: u16)
    requires
        m.wf(),
    ensures
        tst_spec(m, op).r == m.r,
        tst_spec(m, op).t() == (m.r[op_n(op)] & m.r[op_m(op)] == 0),
{
    lemma_set_t(m, m.r[op_n(op)] & m.r[op_m(op)] == 0);
}

proof fn lemma_bit_moves(x: u32, t: bool)
    by (bit_vector)
    ensures
        ((((x << 1u32) | (if (x >> 31u32) & 1 == 1 { 1u32 } else { 0u32 })) >> 1u32) | (if (((x << 1u32) | (
            if (x >> 31u32) & 1 == 1 { 1u32 } else { 0u32 })) >> 0u32) & 1 == 1 { 0x80000000u32 } else { 0u32 })) == x,
        ((((x >> 1u32) | (if (x >> 0u32) & 1 == 1 { 0x80000000u32 } else { 0u32 })) << 1u32) | (if (((x >> 1u32) | (
            if (x >> 0u32) & 1 == 1 { 0x80000000u32 } else { 0u32 })) >> 31u32) & 1 == 1 { 1u32 } else { 0u32 })) == x,
        ((((x << 1u32) | (if t { 1u32 } else { 0u32 })) >> 1u32) | (if (x >> 31u32) & 1 == 1 { 0x80000000u32 } else { 0u32 })) == x,
        ((((x << 1u32) | (if t { 1u32 } else { 0u32 })) >> 0u32) & 1 == 1) == t,
        ((((x << 16u32) | ((x >> 16u32) & 0xFFFF)) << 16u32) | ((((x << 16u32) | ((x >> 16u32) & 0xFFFF)) >> 16u32)
            & 0xFFFF)) == x,
        ((((x & 0xFFFF0000) | ((x & 0xFF) << 8u32) | ((x & 0xFF00) >> 8u32)) & 0xFFFF0000) | ((((x & 0xFFFF0000) | ((x
            & 0xFF) << 8u32) | ((x & 0xFF00) >> 8u32)) & 0xFF) << 8u32) | ((((x & 0xFFFF0000) | ((x & 0xFF) << 8u32) | ((x
            & 0xFF00) >> 8u32)) & 0xFF00) >> 8u32)) == x,
        2 * (x >> 1u32) + ((x >> 0u32) & 1) == x,
        (x >> 0u32) & 1 == 0 || (x >> 0u32) & 1 == 1,
        (x << 1u32) == 2 * (x & 0x7FFFFFFF),
        x == (x & 0x7FFFFFFF) + (if (x >> 31u32) & 1 == 1 { 0x80000000u32 } else { 0u32 }),
{
}

/// ROTR undoes ROTL and ROTL undoes ROTR on Rn.
pub proof fn law_rotate_inverse(m: CpuModel, op: u16)
    requires
        m.wf(),
    ensures
        rotr_spec(rotl_spec(m, op), op).r[op_n(op)] == m.r[op_n(op)],
        rotl_spec(rotr_spec(m, op), op).r[op_n(op)] == m.r[op_n(op)],
{
    lemma_opcode_fields(op);
    let x = m.r[op_n(op)];
    lemma_bit_moves(x, false);
    lemma_set_t(m, bit32(x, 31));
    lemma_set_t(m, bit32(x, 0));
    let a = rotl_spec(m, op);
    let b = rotr_spec(m, op);
    lemma_set_t(a, bit32(a.r[op_n(op)], 0));
    lemma_set_t(b, bit32(b.r[op_n(op)], 31));
}

/// ROTCR undoes ROTCL on Rn and T: rotating left through T and back gives
/// both back.
pub proof fn law_rotate_through_t_inverse(m: CpuModel, op: u16)
    requires
        m.wf(),
    ensures
        rotcr_spec(rotcl_spec(m, op), op).r[op_n(op)] == m.r[op_n(op)],
        rotcr_spec(rotcl_spec(m, op), op).t() == m.t(),
{
    lemma_opcode_fields(op);
    let x = m.r[op_n(op)];
    lemma_bit_moves(x, m.t());
    lemma_set_t(m, bit32(x, 31));
    let a = rotcl_spec(m, op);
    lemma_set_t(a, bit32(a.r[op_n(op)], 0));
}

/// SWAP.W and SWAP.B of a register into itself, done twice, give it back.
pub proof fn law_swap_twice(m: CpuModel, op: u16)
    requires
        m.wf(),
        op_n(op) == op_m(op),
    ensures
        swapw_spec(swapw_spec(m, op), op).r[op_n(op)] == m.r[op_n(op)],
        swapb_spec(swapb_spec(m, op), op).r[op_n(op)] == m.r[op_n(op)],
{
    lemma_opcode_fields(op);
    lemma_bit_moves(m.r[op_n(op)], false);
}

/// SHLR halves Rn and T takes the bit shifted out: 2 * Rn' + T == Rn.
/// SHLL doubles it and T takes the bit shifted out: Rn' + 2^32 * T == 2 * Rn.
pub proof fn law_shift_by_one(m: CpuModel, op: u16)
    requires
        m.wf(),
    ensures
        2 * shlr_spec(m, op).r[op_n(op)] + (if shlr_spec(m, op).t() { 1int } else { 0 }) == m.r[op_n(op)],
        shll_spec(m, op).r[op_n(op)] + t_weight(shll_spec(m, op)) == 2 * m.r[op_n(op)],
{
    lemma_opcode_fields(op);
    let x = m.r[op_n(op)];
    lemma_bit_moves(x, false);
    lemma_set_t(m, bit32(x, 0));
    lemma_set_t(m, bit32(x, 31));
}

/// SUB undoes ADD: adding Rm to Rn and subtracting it again gives Rn back
/// (Rm being another register).
pub proof fn law_add_then_sub(m: CpuModel, op: u16)
    requires
        m.wf(),
        op_n(op) != op_m(op),
    ensures
        sub_spec(add_spec(m, op), op).r[op_n(op)] == m.r[op_n(op)],
{
    lemma_opcode_fields(op);
}

/// NEG gives the additive inverse: Rm + Rn' is a multiple of 2^32.
pub proof fn law_neg_inverse(m: CpuModel, op: u16)
    requires
        m.wf(),
    ensures
        (m.r[op_m(op)] + neg_spec(m, op).r[op_n(op)]) % 0x1_0000_0000 == 0,
{
    lemma_opcode_fields(op);
}

/// AND, OR, XOR and NOT, bit by bit, on the value written to Rn.
pub proof fn law_logic_bitwise(m: CpuModel, op: u16, i: u32)
    requires
        m.wf(),
        i < 32,
    ensures
        bit_of(and_spec(m, op).r[op_n(op)], i) == (bit_of(m.r[op_n(op)], i) && bit_of(m.r[op_m(op)], i)),
        bit_of(or_spec(m, op).r[op_n(op)], i) == (bit_of(m.r[op_n(op)], i) || bit_of(m.r[op_m(op)], i)),
        bit_of(xor_spec(m, op).r[op_n(op)], i) == (bit_of(m.r[op_n(op)], i) != bit_of(m.r[op_m(op)], i)),
        bit_of(not_spec(m, op).r[op_n(op)], i) == !bit_of(m.r[op_m(op)], i),
{
    lemma_opcode_fields(op);
    lemma_logic_bits(m.r[op_n(op)], m.r[op_m(op)], i);
}

/// DMULU.L gives the whole 64-bit product: MACH * 2^32 + MACL == Rn * Rm.
pub proof fn law_dmulu_full_product(m: CpuModel, op: u16)
    requires
        m.wf(),
    ensures
        dmulu_spec(m, op).mach * 0x1_0000_0000 + dmulu_spec(m, op).macl == m.r[op_n(op)] * m.r[op_m(op)],
{
    lemma_opcode_fields(op);
    let a = m.r[op_n(op)];
    let b = m.r[op_m(op)];
    assert(0 <= a * b <= 0xFFFF_FFFF * 0xFFFF_FFFF) by (nonlinear_arith)
        requires
            0 <= a <= 0xFFFF_FFFF,
            0 <= b <= 0xFFFF_FFFF,
    ;
}

} // verus!
