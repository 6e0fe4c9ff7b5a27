//! The SH-4 instructions that read or write memory through the bus.
use super::alu::{mac_l_spec, op_d8, op_m, op_n};
use super::cpu::{env_unchanged, signed32, wrap32, Cpu, CpuModel};
use super::bus::MappedLocation;
use super::cpu_bus::{
    law_ram_write_read32, location, read16, read32, read8, write16, write32, write8, BusView, CpuBus,
    SYSTEM_RAM_SIZE,
};
use super::decoder::{lemma_opcode_fields, InstructionOpcode};
use super::opcodes::{DecodedInstruction, Sh4Instruction};
use vstd::prelude::*;

verus! {

/// A byte sign-extended to 32 bits.
pub open spec fn sext_byte(v: u8) -> u32 {
    if (v as u32) & 0x80 == 0 {
        (v as u32) & 0xFF
    } else {
        (v as u32) | 0xFFFFFF00
    }
}

/// A half-word sign-extended to 32 bits.
pub open spec fn sext_half(v: u16) -> u32 {
    if (v as u32) & 0x8000 == 0 {
        (v as u32) & 0xFFFF
    } else {
        (v as u32) | 0xFFFF0000
    }
}

/// The 4-bit displacement field.
pub open spec fn op_d4(op: u16) -> u32 {
    (op & 0xF) as u32
}

/// Loads the sign-extended byte at `addr` into register `reg`.
pub open spec fn ld8(m: CpuModel, b: BusView, addr: u32, reg: int) -> Option<(CpuModel, BusView)> {
    match read8(b, addr) {
        Some(v) => Some((m.set_r(reg, sext_byte(v)).next(), b)),
        None => None,
    }
}

/// Loads the sign-extended half-word at `addr` into register `reg`.
pub open spec fn ld16(m: CpuModel, b: BusView, addr: u32, reg: int) -> Option<(CpuModel, BusView)> {
    match read16(b, addr) {
        Some(v) => Some((m.set_r(reg, sext_half(v)).next(), b)),
        None => None,
    }
}

/// Loads the long word at `addr` into register `reg`.
pub open spec fn ld32(m: CpuModel, b: BusView, addr: u32, reg: int) -> Option<(CpuModel, BusView)> {
    match read32(b, addr) {
        Some(v) => Some((m.set_r(reg, v).next(), b)),
        None => None,
    }
}

/// Rm advanced by `size`, unless Rm is also the destination Rn.
pub open spec fn bump_unless_dest(m: CpuModel, op: u16, size: int) -> CpuModel {
    if op_n(op) != op_m(op) {
        m.set_r(op_m(op), wrap32(m.r[op_m(op)] + size))
    } else {
        m
    }
}

/// MOV.x @Rm+,Rn for a width of `size` bytes.
pub open spec fn ld_inc(m: CpuModel, b: BusView, op: u16, size: int) -> Option<(CpuModel, BusView)> {
    let a = m.r[op_m(op)];
    let v = if size == 1 {
        match read8(b, a) { Some(x) => Some(sext_byte(x)), None => None }
    } else if size == 2 {
        match read16(b, a) { Some(x) => Some(sext_half(x)), None => None }
    } else {
        read32(b, a)
    };
    match v {
        Some(x) => Some((bump_unless_dest(m, op, size).set_r(op_n(op), x).next(), b)),
        None => None,
    }
}

/// Stores a byte at `addr`.
pub open spec fn st8(m: CpuModel, b: BusView, addr: u32, v: u8) -> Option<(CpuModel, BusView)> {
    match write8(b, addr, v) {
        Some(nb) => Some((m.next(), nb)),
        None => None,
    }
}

/// Stores a half-word at `addr`.
pub open spec fn st16(m: CpuModel, b: BusView, addr: u32, v: u16) -> Option<(CpuModel, BusView)> {
    match write16(b, addr, v) {
        Some(nb) => Some((m.next(), nb)),
        None => None,
    }
}

/// Stores a long word at `addr`.
pub open spec fn st32(m: CpuModel, b: BusView, addr: u32, v: u32) -> Option<(CpuModel, BusView)> {
    match write32(b, addr, v) {
        Some(nb) => Some((m.next(), nb)),
        None => None,
    }
}

/// MOV.B Rm,@-Rn: Rn goes down by one and the byte is stored there.
pub open spec fn st8_dec(m: CpuModel, b: BusView, n: int, v: u8) -> Option<(CpuModel, BusView)> {
    let a = wrap32(m.r[n] - 1);
    match write8(b, a, v) {
        Some(nb) => Some((m.set_r(n, a).next(), nb)),
        None => None,
    }
}

/// MOV.W Rm,@-Rn: Rn goes down by two and the half-word is stored there.
pub open spec fn st16_dec(m: CpuModel, b: BusView, n: int, v: u16) -> Option<(CpuModel, BusView)> {
    let a = wrap32(m.r[n] - 2);
    match write16(b, a, v) {
        Some(nb) => Some((m.set_r(n, a).next(), nb)),
        None => None,
    }
}

/// A long word pushed at @-Rn: Rn goes down by four and `v` is stored there.
pub open spec fn st32_dec(m: CpuModel, b: BusView, n: int, v: u32) -> Option<(CpuModel, BusView)> {
    let a = wrap32(m.r[n] - 4);
    match write32(b, a, v) {
        Some(nb) => Some((m.set_r(n, a).next(), nb)),
        None => None,
    }
}

/// A long word popped from @Rn+: the value read and the registers with Rn
/// advanced by four.
pub open spec fn pop32(m: CpuModel, b: BusView, n: int) -> Option<(u32, CpuModel)> {
    match read32(b, m.r[n]) {
        Some(v) => Some((v, m.set_r(n, wrap32(m.r[n] + 4)))),
        None => None,
    }
}

/// The effect of a control or system register loaded from @Rn+.
pub open spec fn pop_into(i: Sh4Instruction, m: CpuModel, op: u16, v: u32) -> CpuModel {
    match i {
        Sh4Instruction::LdsmMach => CpuModel { mach: v, ..m },
        Sh4Instruction::LdsmMacl => CpuModel { macl: v, ..m },
        Sh4Instruction::LdsmPr => CpuModel { pr: v, ..m },
        Sh4Instruction::LdsmGbr => CpuModel { gbr: v, ..m },
        Sh4Instruction::LdcmVbr => CpuModel { vbr: v, ..m },
        Sh4Instruction::LdcmSsr => CpuModel { ssr: v, ..m },
        Sh4Instruction::LdcmSpc => CpuModel { spc: v, ..m },
        Sh4Instruction::LdcmDbr => CpuModel { dbr: v, ..m },
        Sh4Instruction::LdsmFpul => CpuModel { fpul: v, ..m },
        Sh4Instruction::LdsmFpscr => m.write_fpscr(v),
        _ => CpuModel { r_bank: m.r_bank.update(((op_m(op) as usize) & 0x7) as int, v), ..m },
    }
}

/// The instructions that load a control or system register from @Rn+.
pub open spec fn is_pop(i: Sh4Instruction) -> bool {
    matches!(i, Sh4Instruction::LdsmMach | Sh4Instruction::LdsmMacl | Sh4Instruction::LdsmPr
        | Sh4Instruction::LdsmGbr | Sh4Instruction::LdcmVbr | Sh4Instruction::LdcmSsr
        | Sh4Instruction::LdcmSpc | Sh4Instruction::LdcmDbr | Sh4Instruction::LdsmFpul
        | Sh4Instruction::LdsmFpscr | Sh4Instruction::LdcmRmbank)
}

/// The value that a store of a control or system register at @-Rn writes.
pub open spec fn pushed_value(i: Sh4Instruction, m: CpuModel, op: u16) -> u32 {
    match i {
        Sh4Instruction::Stsmmach => m.mach,
        Sh4Instruction::Stsmmacl => m.macl,
        Sh4Instruction::Stsmpr => m.pr,
        Sh4Instruction::StcmGbr => m.gbr,
        Sh4Instruction::StcmVbr => m.vbr,
        Sh4Instruction::StcmSsr => m.ssr,
        Sh4Instruction::StcmSpc => m.spc,
        Sh4Instruction::StcmSr => m.sr,
        Sh4Instruction::StcmFpul => m.fpul,
        Sh4Instruction::StsmFpscr => m.fpscr & 0x003FFFFF,
        _ => m.r_bank[((op_m(op) as usize) & 0x7) as int],
    }
}

/// The instructions that store a control or system register at @-Rn.
pub open spec fn is_push(i: Sh4Instruction) -> bool {
    matches!(i, Sh4Instruction::Stsmmach | Sh4Instruction::Stsmmacl | Sh4Instruction::Stsmpr
        | Sh4Instruction::StcmGbr | Sh4Instruction::StcmVbr | Sh4Instruction::StcmSsr
        | Sh4Instruction::StcmSpc | Sh4Instruction::StcmSr | Sh4Instruction::StcmFpul
        | Sh4Instruction::StsmFpscr | Sh4Instruction::StcmRmbank)
}

/// The registers and the bus after instruction `i` with opcode `op`, for the
/// instructions that read or write memory; `None` for the others, and where
/// an access is not carried out by the bus or an address computation that
/// does not wrap would overflow.
#[verifier::opaque]
pub open spec fn mem_step(m: CpuModel, b: BusView, i: Sh4Instruction, op: u16) -> Option<(CpuModel, BusView)> {
    if is_load(i) {
        load_step(m, b, i, op)
    } else if is_store(i) {
        store_step(m, b, i, op)
    } else {
        other_mem_step(m, b, i, op)
    }
}

/// The loads into a general register.
pub open spec fn load_step(m: CpuModel, b: BusView, i: Sh4Instruction, op: u16) -> Option<(CpuModel, BusView)> {
    let rn = m.r[op_n(op)];
    let rm = m.r[op_m(op)];
    let r0 = m.r[0];
    match i {
        Sh4Instruction::Movbl => ld8(m, b, rm, op_n(op)),
        Sh4Instruction::Movwl => ld16(m, b, rm, op_n(op)),
        Sh4Instruction::Movll => ld32(m, b, rm, op_n(op)),
        Sh4Instruction::Movbp => ld_inc(m, b, op, 1),
        Sh4Instruction::Movwp => ld_inc(m, b, op, 2),
        Sh4Instruction::Movlp => ld_inc(m, b, op, 4),
        Sh4Instruction::Movbl4 => ld8(m, b, wrap32(rm + op_d4(op)), 0),
        Sh4Instruction::Movwl4 => ld16(m, b, wrap32(rm + op_d4(op) * 2), 0),
        Sh4Instruction::Movll4 => ld32(m, b, wrap32(rm + op_d4(op) * 4), op_n(op)),
        Sh4Instruction::Movbl0 => ld8(m, b, wrap32(r0 + rm), op_n(op)),
        Sh4Instruction::Movwl0 => ld16(m, b, wrap32(rm + r0), op_n(op)),
        Sh4Instruction::Movll0 => ld32(m, b, wrap32(rm + r0), op_n(op)),
        Sh4Instruction::Movblg => ld8(m, b, wrap32(m.gbr + op_d8(op)), 0),
        Sh4Instruction::Movwlg => if m.gbr + op_d8(op) * 2 <= u32::MAX {
            ld16(m, b, (m.gbr + op_d8(op) * 2) as u32, 0)
        } else {
            None
        },
        Sh4Instruction::Movllg => ld32(m, b, wrap32(m.gbr + op_d8(op) * 4), 0),
        Sh4Instruction::Movwi => ld16(m, b, wrap32(m.pc + 4 + op_d8(op) * 2), op_n(op)),
        Sh4Instruction::Movli => ld32(m, b, wrap32((m.pc & 0xfffffffc) + 4 + op_d8(op) * 4), op_n(op)),
        _ => None,
    }
}

/// The stores of a general register.
pub open spec fn store_step(m: CpuModel, b: BusView, i: Sh4Instruction, op: u16) -> Option<(CpuModel, BusView)> {
    let rn = m.r[op_n(op)];
    let rm = m.r[op_m(op)];
    let r0 = m.r[0];
    match i {
        Sh4Instruction::Movbs => st8(m, b, rn, rm as u8),
        Sh4Instruction::Movws => st16(m, b, rn, rm as u16),
        Sh4Instruction::Movls => st32(m, b, rn, rm),
        Sh4Instruction::Movbm => st8_dec(m, b, op_n(op), rm as u8),
        Sh4Instruction::Movwm => st16_dec(m, b, op_n(op), rm as u16),
        Sh4Instruction::Movlm => st32_dec(m, b, op_n(op), rm),
        Sh4Instruction::Movbs4 => st8(m, b, wrap32(rm + op_d4(op)), r0 as u8),
        Sh4Instruction::Movws4 => st16(m, b, wrap32(rm + op_d4(op) * 2), r0 as u16),
        Sh4Instruction::Movls4 => st32(m, b, wrap32(rn + op_d4(op) * 4), rm),
        Sh4Instruction::Movbs0 => st8(m, b, wrap32(rn + r0), rm as u8),
        Sh4Instruction::Movws0 => st16(m, b, wrap32(rn + r0), rm as u16),
        Sh4Instruction::Movls0 => st32(m, b, wrap32(rn + r0), rm),
        Sh4Instruction::Movbsg => st8(m, b, wrap32(m.gbr + op_d8(op)), r0 as u8),
        Sh4Instruction::Movwsg => st16(m, b, wrap32(m.gbr + op_d8(op) * 2), r0 as u16),
        Sh4Instruction::Movlsg => if m.gbr + op_d8(op) * 4 <= u32::MAX {
            st32(m, b, (m.gbr + op_d8(op) * 4) as u32, r0)
        } else {
            None
        },
        Sh4Instruction::Movcal => st32(m, b, rn, r0),
        _ => None,
    }
}

/// TAS.B, OR.B, MAC.L and the loads and stores of control and system
/// registers.
pub open spec fn other_mem_step(m: CpuModel, b: BusView, i: Sh4Instruction, op: u16) -> Option<(CpuModel, BusView)> {
    let rn = m.r[op_n(op)];
    let rm = m.r[op_m(op)];
    let r0 = m.r[0];
    match i {
        Sh4Instruction::Tas => match read8(b, rn) {
            Some(v) => match write8(b, rn, v | 0x80) {
                Some(nb) => Some((m.set_t(v == 0).next(), nb)),
                None => None,
            },
            None => None,
        },
        Sh4Instruction::Orm => if m.gbr + r0 <= u32::MAX {
            match read8(b, (m.gbr + r0) as u32) {
                Some(v) => st8(m, b, (m.gbr + r0) as u32, v | (op_d8(op) as u8)),
                None => None,
            }
        } else {
            None
        },
        Sh4Instruction::Macl => if rn + 4 <= u32::MAX && rm + 4 <= u32::MAX {
            match (read32(b, rn), read32(b, rm)) {
                (Some(x), Some(y)) => Some((mac_l_spec(m, op, x, y), b)),
                _ => None,
            }
        } else {
            None
        },
        _ => if is_push(i) {
            st32_dec(m, b, op_n(op), pushed_value(i, m, op))
        } else if is_pop(i) {
            match pop32(m, b, op_n(op)) {
                Some((v, m1)) => Some((pop_into(i, m1, op, v).next(), b)),
                None => None,
            }
        } else {
            None
        },
    }
}

/// The loads into a general register.
pub open spec fn is_load(i: Sh4Instruction) -> bool {
    matches!(i, Sh4Instruction::Movbl | Sh4Instruction::Movwl | Sh4Instruction::Movll | Sh4Instruction::Movbp
        | Sh4Instruction::Movwp | Sh4Instruction::Movlp | Sh4Instruction::Movbl4 | Sh4Instruction::Movwl4
        | Sh4Instruction::Movll4 | Sh4Instruction::Movbl0 | Sh4Instruction::Movwl0 | Sh4Instruction::Movll0
        | Sh4Instruction::Movblg | Sh4Instruction::Movwlg | Sh4Instruction::Movllg | Sh4Instruction::Movwi
        | Sh4Instruction::Movli)
}

/// The stores of a general register.
pub open spec fn is_store(i: Sh4Instruction) -> bool {
    matches!(i, Sh4Instruction::Movbs | Sh4Instruction::Movws | Sh4Instruction::Movls | Sh4Instruction::Movbm
        | Sh4Instruction::Movwm | Sh4Instruction::Movlm | Sh4Instruction::Movbs4 | Sh4Instruction::Movws4
        | Sh4Instruction::Movls4 | Sh4Instruction::Movbs0 | Sh4Instruction::Movws0 | Sh4Instruction::Movls0
        | Sh4Instruction::Movbsg | Sh4Instruction::Movwsg | Sh4Instruction::Movlsg | Sh4Instruction::Movcal)
}

/// What the memory-instruction helpers promise: when the step is defined,
/// the registers and the bus are those it gives; otherwise nothing changed.
pub open spec fn step_taken(
    s: Option<(CpuModel, BusView)>,
    r: bool,
    m0: CpuModel,
    b0: BusView,
    m1: CpuModel,
    b1: BusView,
) -> bool {
    &&& r == s is Some
    &&& r ==> m1 == (s->0).0 && b1 == (s->0).1
    &&& !r ==> m1 == m0 && b1 == b0
}

/// `x + y` modulo 2^32.
pub(crate) fn wadd(x: u32, y: u32) -> (r: u32)
    ensures
        r == wrap32(x + y),
{
    x.wrapping_add(y)
}

impl Cpu {
    fn advance(&mut self)
        ensures
            final(self).registers@ == old(self).registers@.next(),
            env_unchanged(*final(self), *old(self)),
    {
        self.registers.current_pc = self.registers.current_pc.wrapping_add(2);
    }

    fn load8(&mut self, bus: &CpuBus, addr: u32, reg: usize) -> (r: bool)
        requires
            old(self).registers@.wf(),
            bus.wf(),
            reg < 16,
        ensures
            final(self).registers@.wf(),
            env_unchanged(*final(self), *old(self)),
            step_taken(ld8(old(self).registers@, bus.view(), addr, reg as int), r, old(self).registers@, bus.view(), final(self).registers@, bus.view()),
    {
        match bus.read_8(addr) {
            Some(v) => {
                let x = v as u32;
                let s = if x & 0x80 == 0 { x & 0xFF } else { x | 0xFFFFFF00 };
                self.set_register_by_index(reg, s);
                self.advance();
                true
            },
            None => false,
        }
    }

    fn load16(&mut self, bus: &CpuBus, addr: u32, reg: usize) -> (r: bool)
        requires
            old(self).registers@.wf(),
            bus.wf(),
            reg < 16,
        ensures
            final(self).registers@.wf(),
            env_unchanged(*final(self), *old(self)),
            step_taken(ld16(old(self).registers@, bus.view(), addr, reg as int), r, old(self).registers@, bus.view(), final(self).registers@, bus.view()),
    {
        match bus.read_16(addr) {
            Some(v) => {
                let x = v as u32;
                let s = if x & 0x8000 == 0 { x & 0xFFFF } else { x | 0xFFFF0000 };
                self.set_register_by_index(reg, s);
                self.advance();
                true
            },
            None => false,
        }
    }

    fn load32(&mut self, bus: &CpuBus, addr: u32, reg: usize) -> (r: bool)
        requires
            old(self).registers@.wf(),
            bus.wf(),
            reg < 16,
        ensures
            final(self).registers@.wf(),
            env_unchanged(*final(self), *old(self)),
            step_taken(ld32(old(self).registers@, bus.view(), addr, reg as int), r, old(self).registers@, bus.view(), final(self).registers@, bus.view()),
    {
        match bus.read_32(addr) {
            Some(v) => {
                self.set_register_by_index(reg, v);
                self.advance();
                true
            },
            None => false,
        }
    }

    fn load_inc(&mut self, bus: &CpuBus, op: InstructionOpcode, size: u32) -> (r: bool)
        requires
            old(self).registers@.wf(),
            bus.wf(),
            size == 1 || size == 2 || size == 4,
        ensures
            final(self).registers@.wf(),
            env_unchanged(*final(self), *old(self)),
            step_taken(ld_inc(old(self).registers@, bus.view(), op.0, size as int), r, old(self).registers@, bus.view(), final(self).registers@, bus.view()),
    {
        let n = op.n();
        let m = op.m();
        let a = self.get_register_by_index(m);
        let v = if size == 1 {
            match bus.read_8(a) {
                Some(x) => {
                    let x = x as u32;
                    Some(if x & 0x80 == 0 { x & 0xFF } else { x | 0xFFFFFF00 })
                },
                None => None,
            }
        } else if size == 2 {
            match bus.read_16(a) {
                Some(x) => {
                    let x = x as u32;
                    Some(if x & 0x8000 == 0 { x & 0xFFFF } else { x | 0xFFFF0000 })
                },
                None => None,
            }
        } else {
            bus.read_32(a)
        };
        match v {
            Some(x) => {
                if n != m {
                    self.set_register_by_index(m, a.wrapping_add(size));
                }
                self.set_register_by_index(n, x);
                self.advance();
                true
            },
            None => false,
        }
    }

    fn store8(&mut self, bus: &mut CpuBus, addr: u32, v: u8) -> (r: bool)
        requires
            old(self).registers@.wf(),
            old(bus).wf(),
        ensures
            final(self).registers@.wf(),
            final(bus).wf(),
            final(bus).intc == old(bus).intc,
            env_unchanged(*final(self), *old(self)),
            step_taken(st8(old(self).registers@, old(bus).view(), addr, v), r, old(self).registers@, old(bus).view(), final(self).registers@, final(bus).view()),
    {
        if bus.write_8(addr, v) {
            self.advance();
            true
        } else {
            false
        }
    }

    fn store16(&mut self, bus: &mut CpuBus, addr: u32, v: u16) -> (r: bool)
        requires
            old(self).registers@.wf(),
            old(bus).wf(),
        ensures
            final(self).registers@.wf(),
            final(bus).wf(),
            final(bus).intc == old(bus).intc,
            env_unchanged(*final(self), *old(self)),
            step_taken(st16(old(self).registers@, old(bus).view(), addr, v), r, old(self).registers@, old(bus).view(), final(self).registers@, final(bus).view()),
    {
        if bus.write_16(addr, v) {
            self.advance();
            true
        } else {
            false
        }
    }

    fn store32(&mut self, bus: &mut CpuBus, addr: u32, v: u32) -> (r: bool)
        requires
            old(self).registers@.wf(),
            old(bus).wf(),
        ensures
            final(self).registers@.wf(),
            final(bus).wf(),
            final(bus).intc == old(bus).intc,
            env_unchanged(*final(self), *old(self)),
            step_taken(st32(old(self).registers@, old(bus).view(), addr, v), r, old(self).registers@, old(bus).view(), final(self).registers@, final(bus).view()),
    {
        if bus.write_32(addr, v) {
            self.advance();
            true
        } else {
            false
        }
    }

    fn store8_dec(&mut self, bus: &mut CpuBus, n: usize, v: u8) -> (r: bool)
        requires
            old(self).registers@.wf(),
            old(bus).wf(),
            n < 16,
        ensures
            final(self).registers@.wf(),
            final(bus).wf(),
            final(bus).intc == old(bus).intc,
            env_unchanged(*final(self), *old(self)),
            step_taken(st8_dec(old(self).registers@, old(bus).view(), n as int, v), r, old(self).registers@, old(bus).view(), final(self).registers@, final(bus).view()),
    {
        let a = self.get_register_by_index(n).wrapping_sub(1);
        if bus.write_8(a, v) {
            self.set_register_by_index(n, a);
            self.advance();
            true
        } else {
            false
        }
    }

    fn store16_dec(&mut self, bus: &mut CpuBus, n: usize, v: u16) -> (r: bool)
        requires
            old(self).registers@.wf(),
            old(bus).wf(),
            n < 16,
        ensures
            final(self).registers@.wf(),
            final(bus).wf(),
            final(bus).intc == old(bus).intc,
            env_unchanged(*final(self), *old(self)),
            step_taken(st16_dec(old(self).registers@, old(bus).view(), n as int, v), r, old(self).registers@, old(bus).view(), final(self).registers@, final(bus).view()),
    {
        let a = self.get_register_by_index(n).wrapping_sub(2);
        if bus.write_16(a, v) {
            self.set_register_by_index(n, a);
            self.advance();
            true
        } else {
            false
        }
    }

    fn store32_dec(&mut self, bus: &mut CpuBus, n: usize, v: u32) -> (r: bool)
        requires
            old(self).registers@.wf(),
            old(bus).wf(),
            n < 16,
        ensures
            final(self).registers@.wf(),
            final(bus).wf(),
            final(bus).intc == old(bus).intc,
            env_unchanged(*final(self), *old(self)),
            step_taken(st32_dec(old(self).registers@, old(bus).view(), n as int, v), r, old(self).registers@, old(bus).view(), final(self).registers@, final(bus).view()),
    {
        let a = self.get_register_by_index(n).wrapping_sub(4);
        if bus.write_32(a, v) {
            self.set_register_by_index(n, a);
            self.advance();
            true
        } else {
            false
        }
    }

    fn push_register(&mut self, bus: &mut CpuBus, d: DecodedInstruction) -> (r: bool)
        requires
            old(self).registers@.wf(),
            old(bus).wf(),
            is_push(d.instruction),
        ensures
            final(self).registers@.wf(),
            final(bus).wf(),
            final(bus).intc == old(bus).intc,
            env_unchanged(*final(self), *old(self)),
            step_taken(st32_dec(old(self).registers@, old(bus).view(), op_n(d.opcode.0), pushed_value(d.instruction, old(self).registers@, d.opcode.0)), r, old(self).registers@, old(bus).view(), final(self).registers@, final(bus).view()),
    {
        let op = InstructionOpcode(d.opcode.0);
        let v = match d.instruction {
            Sh4Instruction::Stsmmach => self.registers.mach,
            Sh4Instruction::Stsmmacl => self.registers.macl,
            Sh4Instruction::Stsmpr => self.registers.pr,
            Sh4Instruction::StcmGbr => self.registers.gbr,
            Sh4Instruction::StcmVbr => self.registers.vbr,
            Sh4Instruction::StcmSsr => self.registers.ssr,
            Sh4Instruction::StcmSpc => self.registers.spc,
            Sh4Instruction::StcmSr => self.registers.sr,
            Sh4Instruction::StcmFpul => self.registers.fpul,
            Sh4Instruction::StsmFpscr => self.get_fpscr(),
            _ => self.get_banked_register_by_index(op.m()),
        };
        self.store32_dec(bus, op.n(), v)
    }

    fn pop_register(&mut self, bus: &CpuBus, d: DecodedInstruction) -> (r: bool)
        requires
            old(self).registers@.wf(),
            bus.wf(),
            is_pop(d.instruction),
        ensures
            final(self).registers@.wf(),
            env_unchanged(*final(self), *old(self)),
            step_taken(
                match pop32(old(self).registers@, bus.view(), op_n(d.opcode.0)) {
                    Some((v, m1)) => Some((pop_into(d.instruction, m1, d.opcode.0, v).next(), bus.view())),
                    None => None,
                },
                r, old(self).registers@, bus.view(), final(self).registers@, bus.view()),
    {
        let op = InstructionOpcode(d.opcode.0);
        let n = op.n();
        let a = self.get_register_by_index(n);
        match bus.read_32(a) {
            Some(v) => {
                self.set_register_by_index(n, a.wrapping_add(4));
                match d.instruction {
                    Sh4Instruction::LdsmMach => self.set_mach(v),
                    Sh4Instruction::LdsmMacl => self.set_macl(v),
                    Sh4Instruction::LdsmPr => self.set_pr(v),
                    Sh4Instruction::LdsmGbr => self.set_gbr(v),
                    Sh4Instruction::LdcmVbr => self.set_vbr(v),
                    Sh4Instruction::LdcmSsr => self.set_ssr(v),
                    Sh4Instruction::LdcmSpc => self.set_spc(v),
                    Sh4Instruction::LdcmDbr => self.set_dbr(v),
                    Sh4Instruction::LdsmFpul => self.set_fpul(v),
                    Sh4Instruction::LdsmFpscr => self.set_fpscr(v),
                    _ => {
                        self.set_banked_register_by_index(op.m(), v)
                    },
                }
                self.advance();
                true
            },
            None => false,
        }
    }

    #[verifier::rlimit(100)]
    fn execute_load(&mut self, bus: &mut CpuBus, d: DecodedInstruction) -> (r: bool)
        requires
            old(self).registers@.wf(),
            old(bus).wf(),
            is_load(d.instruction),
        ensures
            final(self).registers@.wf(),
            final(bus).wf(),
            final(bus).intc == old(bus).intc,
            env_unchanged(*final(self), *old(self)),
            step_taken(load_step(old(self).registers@, old(bus).view(), d.instruction, d.opcode.0), r, old(self).registers@, old(bus).view(), final(self).registers@, final(bus).view()),
    {
        let op = InstructionOpcode(d.opcode.0);
        let n = op.n();
        let m = op.m();
        let rn = self.get_register_by_index(n);
        let rm = self.get_register_by_index(m);
        let r0 = self.get_register_by_index(0);
        let d4 = op.d4() as u32;
        let d8 = op.d8();
        let gbr = self.registers.gbr;
        let pc = self.registers.current_pc;
        match d.instruction {
            Sh4Instruction::Movbl => self.load8(bus, rm, n),
            Sh4Instruction::Movwl => self.load16(bus, rm, n),
            Sh4Instruction::Movll => self.load32(bus, rm, n),
            Sh4Instruction::Movbp => self.load_inc(bus, op, 1),
            Sh4Instruction::Movwp => self.load_inc(bus, op, 2),
            Sh4Instruction::Movlp => self.load_inc(bus, op, 4),
            Sh4Instruction::Movbl4 => self.load8(bus, wadd(rm, d4), 0),
            Sh4Instruction::Movwl4 => self.load16(bus, wadd(rm, d4 * 2), 0),
            Sh4Instruction::Movll4 => self.load32(bus, wadd(rm, d4 * 4), n),
            Sh4Instruction::Movbl0 => self.load8(bus, wadd(r0, rm), n),
            Sh4Instruction::Movwl0 => self.load16(bus, wadd(rm, r0), n),
            Sh4Instruction::Movll0 => self.load32(bus, wadd(rm, r0), n),
            Sh4Instruction::Movblg => self.load8(bus, wadd(gbr, d8), 0),
            Sh4Instruction::Movwlg => {
                if gbr <= u32::MAX - d8 * 2 {
                    self.load16(bus, gbr + d8 * 2, 0)
                } else {
                    false
                }
            },
            Sh4Instruction::Movllg => self.load32(bus, wadd(gbr, d8 * 4), 0),
            Sh4Instruction::Movwi => self.load16(bus, wadd(pc, 4 + d8 * 2), n),
            Sh4Instruction::Movli => self.load32(bus, wadd((pc & 0xfffffffc), 4 + d8 * 4), n),
            _ => false,
        }
    }

    #[verifier::rlimit(100)]
    fn execute_store(&mut self, bus: &mut CpuBus, d: DecodedInstruction) -> (r: bool)
        requires
            old(self).registers@.wf(),
            old(bus).wf(),
            is_store(d.instruction),
        ensures
            final(self).registers@.wf(),
            final(bus).wf(),
            final(bus).intc == old(bus).intc,
            env_unchanged(*final(self), *old(self)),
            step_taken(store_step(old(self).registers@, old(bus).view(), d.instruction, d.opcode.0), r, old(self).registers@, old(bus).view(), final(self).registers@, final(bus).view()),
    {
        let op = InstructionOpcode(d.opcode.0);
        let n = op.n();
        let m = op.m();
        let rn = self.get_register_by_index(n);
        let rm = self.get_register_by_index(m);
        let r0 = self.get_register_by_index(0);
        let d4 = op.d4() as u32;
        let d8 = op.d8();
        let gbr = self.registers.gbr;
        let pc = self.registers.current_pc;
        match d.instruction {
            Sh4Instruction::Movbs => self.store8(bus, rn, rm as u8),
            Sh4Instruction::Movws => self.store16(bus, rn, rm as u16),
            Sh4Instruction::Movls => self.store32(bus, rn, rm),
            Sh4Instruction::Movbm => self.store8_dec(bus, n, rm as u8),
            Sh4Instruction::Movwm => self.store16_dec(bus, n, rm as u16),
            Sh4Instruction::Movlm => self.store32_dec(bus, n, rm),
            Sh4Instruction::Movbs4 => self.store8(bus, wadd(rm, d4), r0 as u8),
            Sh4Instruction::Movws4 => self.store16(bus, wadd(rm, d4 * 2), r0 as u16),
            Sh4Instruction::Movls4 => self.store32(bus, wadd(rn, d4 * 4), rm),
            Sh4Instruction::Movbs0 => self.store8(bus, wadd(rn, r0), rm as u8),
            Sh4Instruction::Movws0 => self.store16(bus, wadd(rn, r0), rm as u16),
            Sh4Instruction::Movls0 => self.store32(bus, wadd(rn, r0), rm),
            Sh4Instruction::Movbsg => self.store8(bus, wadd(gbr, d8), r0 as u8),
            Sh4Instruction::Movwsg => self.store16(bus, wadd(gbr, d8 * 2), r0 as u16),
            Sh4Instruction::Movlsg => {
                if gbr <= u32::MAX - d8 * 4 {
                    self.store32(bus, gbr + d8 * 4, r0)
                } else {
                    false
                }
            },
            Sh4Instruction::Movcal => self.store32(bus, rn, r0),
            _ => false,
        }
    }

    #[verifier::rlimit(100)]
    fn execute_other_memory(&mut self, bus: &mut CpuBus, d: DecodedInstruction) -> (r: bool)
        requires
            old(self).registers@.wf(),
            old(bus).wf(),
            !is_load(d.instruction) && !is_store(d.instruction),
        ensures
            final(self).registers@.wf(),
            final(bus).wf(),
            final(bus).intc == old(bus).intc,
            env_unchanged(*final(self), *old(self)),
            step_taken(other_mem_step(old(self).registers@, old(bus).view(), d.instruction, d.opcode.0), r, old(self).registers@, old(bus).view(), final(self).registers@, final(bus).view()),
    {
        let op = InstructionOpcode(d.opcode.0);
        let n = op.n();
        let m = op.m();
        let rn = self.get_register_by_index(n);
        let rm = self.get_register_by_index(m);
        let r0 = self.get_register_by_index(0);
        let d4 = op.d4() as u32;
        let d8 = op.d8();
        let gbr = self.registers.gbr;
        let pc = self.registers.current_pc;
        match d.instruction {
            Sh4Instruction::Tas => {
                match bus.read_8(rn) {
                    Some(v) => {
                        if bus.write_8(rn, v | 0x80) {
                            self.set_t(v == 0);
                            self.advance();
                            true
                        } else {
                            false
                        }
                    },
                    None => false,
                }
            },
            Sh4Instruction::Orm => {
                if gbr <= u32::MAX - r0 {
                    match bus.read_8(gbr + r0) {
                        Some(v) => self.store8(bus, gbr + r0, v | (d8 as u8)),
                        None => false,
                    }
                } else {
                    false
                }
            },
            Sh4Instruction::Macl => {
                if rn <= u32::MAX - 4 && rm <= u32::MAX - 4 {
                    match (bus.read_32(rn), bus.read_32(rm)) {
                        (Some(x), Some(y)) => {
                            self.macl(op, x, y);
                            true
                        },
                        _ => false,
                    }
                } else {
                    false
                }
            },
            Sh4Instruction::Stsmmach | Sh4Instruction::Stsmmacl | Sh4Instruction::Stsmpr
            | Sh4Instruction::StcmGbr | Sh4Instruction::StcmVbr | Sh4Instruction::StcmSsr
            | Sh4Instruction::StcmSpc | Sh4Instruction::StcmSr | Sh4Instruction::StcmFpul
            | Sh4Instruction::StsmFpscr | Sh4Instruction::StcmRmbank => self.push_register(bus, d),
            Sh4Instruction::LdsmMach | Sh4Instruction::LdsmMacl | Sh4Instruction::LdsmPr
            | Sh4Instruction::LdsmGbr | Sh4Instruction::LdcmVbr | Sh4Instruction::LdcmSsr
            | Sh4Instruction::LdcmSpc | Sh4Instruction::LdcmDbr | Sh4Instruction::LdsmFpul
            | Sh4Instruction::LdsmFpscr | Sh4Instruction::LdcmRmbank => self.pop_register(bus, d),
            _ => false,
        }
    }

    /// Carries out a decoded instruction that reads or writes memory, and
    /// says whether it did; when it did not (another kind of instruction, or
    /// an access that the bus does not carry out), the CPU and the bus are
    /// left as they were.
    pub fn execute_memory_instruction(&mut self, bus: &mut CpuBus, d: DecodedInstruction) -> (r: bool)
        requires
            old(self).registers@.wf(),
            old(bus).wf(),
        ensures
            final(self).registers@.wf(),
            final(bus).wf(),
            final(bus).intc == old(bus).intc,
            env_unchanged(*final(self), *old(self)),
            step_taken(mem_step(old(self).registers@, old(bus).view(), d.instruction, d.opcode.0), r, old(self).registers@, old(bus).view(), final(self).registers@, final(bus).view()),
    {
        reveal(mem_step);
        match d.instruction {
            Sh4Instruction::Movbl | Sh4Instruction::Movwl | Sh4Instruction::Movll | Sh4Instruction::Movbp
            | Sh4Instruction::Movwp | Sh4Instruction::Movlp | Sh4Instruction::Movbl4 | Sh4Instruction::Movwl4
            | Sh4Instruction::Movll4 | Sh4Instruction::Movbl0 | Sh4Instruction::Movwl0 | Sh4Instruction::Movll0
            | Sh4Instruction::Movblg | Sh4Instruction::Movwlg | Sh4Instruction::Movllg | Sh4Instruction::Movwi
            | Sh4Instruction::Movli => self.execute_load(bus, d),
            Sh4Instruction::Movbs | Sh4Instruction::Movws | Sh4Instruction::Movls | Sh4Instruction::Movbm
            | Sh4Instruction::Movwm | Sh4Instruction::Movlm | Sh4Instruction::Movbs4 | Sh4Instruction::Movws4
            | Sh4Instruction::Movls4 | Sh4Instruction::Movbs0 | Sh4Instruction::Movws0 | Sh4Instruction::Movls0
            | Sh4Instruction::Movbsg | Sh4Instruction::Movwsg | Sh4Instruction::Movlsg | Sh4Instruction::Movcal
                => self.execute_store(bus, d),
            _ => self.execute_other_memory(bus, d),
        }
    }
}

/// A long word stored by MOV.L Rm,@Rn into system RAM is loaded back by a
/// following MOV.L @Rn,Rk (the load's source register being the store's
/// address register): Rk ends up holding what Rm held, and the load leaves
/// the bus as the store left it.
pub proof fn law_store_then_load(m: CpuModel, b: BusView, st: u16, ld: u16)
    requires
        m.wf(),
        b.ram.len() == SYSTEM_RAM_SIZE,
        op_m(ld) == op_n(st),
        location(m.r[op_n(st)]) matches MappedLocation::ExternalAddress(p) && 0x0c000000 <= p.0
            <= 0x0cffffff && p.0 - 0x0c000000 + 4 <= SYSTEM_RAM_SIZE,
    ensures
        mem_step(m, b, Sh4Instruction::Movls, st) matches Some((m1, b1)) && mem_step(
            m1,
            b1,
            Sh4Instruction::Movll,
            ld,
        ) matches Some((m2, b2)) && m2.r[op_n(ld)] == m.r[op_m(st)] && b2 == b1,
{
    lemma_opcode_fields(st);
    lemma_opcode_fields(ld);
    let addr = m.r[op_n(st)];
    let v = m.r[op_m(st)];
    law_ram_write_read32(b, addr, v);
    lemma_movls_step(m, b, st);
    let b1 = write32(b, addr, v)->0;
    let m1 = m.next();
    lemma_movll_step(m1, b1, ld);
}

proof fn lemma_movls_step(m: CpuModel, b: BusView, st: u16)
    ensures
        mem_step(m, b, Sh4Instruction::Movls, st) == st32(m, b, m.r[op_n(st)], m.r[op_m(st)]),
{
    reveal(mem_step);
}

proof fn lemma_movll_step(m: CpuModel, b: BusView, ld: u16)
    ensures
        mem_step(m, b, Sh4Instruction::Movll, ld) == ld32(m, b, m.r[op_m(ld)], op_n(ld)),
{
    reveal(mem_step);
}

proof fn lemma_extend_bits(v: u8, h: u16)
    by (bit_vector)
    ensures
        ((v as u32) & 0x80 == 0) == (v < 0x80),
        (v as u32) & 0xFF == v as u32,
        (v as u32) | 0xFFFFFF00 == (v as u32) + 0xFFFFFF00,
        ((h as u32) & 0x8000 == 0) == (h < 0x8000),
        (h as u32) & 0xFFFF == h as u32,
        (h as u32) | 0xFFFF0000 == (h as u32) + 0xFFFF0000,
{
}

/// Byte and half-word loads sign-extend: the 32-bit register read as a
/// two's complement number holds the byte or half-word read the same way.
pub proof fn law_loads_sign_extend(v: u8, h: u16)
    ensures
        signed32(sext_byte(v)) == if v < 0x80 { v as int } else { v - 0x100 },
        signed32(sext_half(h)) == if h < 0x8000 { h as int } else { h - 0x1_0000 },
{
    lemma_extend_bits(v, h);
}

} // verus!
